use yamaha_control::basic::{
    Device, DeviceInfo, Features, InputItem, Power, Rsp, SimpleRsp, SystemFeatures, ZoneStatus,
};
use yamaha_control::error::Error;

#[test]
fn nonzero_status_is_device_error() {
    assert_eq!(
        SimpleRsp { response_code: 3 }.to_result(),
        Err(Error::Yamaha(3))
    );
    assert_eq!(
        SimpleRsp { response_code: -17 }.to_result(),
        Err(Error::Yamaha(-17))
    );
    assert_eq!(
        SimpleRsp { response_code: i32::MAX }.to_result(),
        Err(Error::Yamaha(i32::MAX))
    );
}

#[test]
fn nonzero_status_drops_payload() {
    let rsp = Rsp {
        response_code: 2,
        data: DeviceInfo {
            model_name: "RX-V6A".to_string(),
        },
    };
    assert_eq!(rsp.to_result(), Err(Error::Yamaha(2)));
}

#[test]
fn zero_status_is_success() {
    assert_eq!(SimpleRsp { response_code: 0 }.to_result(), Ok(()));
    let rsp = Rsp {
        response_code: 0,
        data: ZoneStatus {},
    };
    assert_eq!(rsp.to_result(), Ok(Box::new(ZoneStatus {})));
}

#[test]
fn zero_status_surfaces_payload() {
    let rsp = Rsp {
        response_code: 0,
        data: DeviceInfo {
            model_name: "RX-V6A".to_string(),
        },
    };
    let info = rsp.to_result().unwrap();
    assert_eq!(info.get_model_name(), "RX-V6A");
}

#[test]
fn get_features_surfaces_input_ids_in_order() {
    let rsp = Rsp {
        response_code: 0,
        data: Features {
            system: SystemFeatures {
                input_list: vec![
                    InputItem {
                        id: "hdmi1".to_string(),
                    },
                    InputItem {
                        id: "optical".to_string(),
                    },
                ],
            },
        },
    };
    let features = rsp.to_result().unwrap();
    assert_eq!(features.get_input_ids(), vec!["hdmi1", "optical"]);
}

#[test]
fn power_round_trip() {
    assert_eq!(Power::try_from_str(Power::On.as_str()), Ok(Power::On));
    assert_eq!(
        Power::try_from_str(Power::Standby.as_str()),
        Ok(Power::Standby)
    );
    assert_eq!(Power::On.as_str(), "on");
    assert_eq!(Power::Standby.as_str(), "standby");
    assert_eq!(Power::On.to_wire_string(), "on");
    assert_eq!(Power::Standby.to_wire_string(), "standby");
}

#[test]
fn power_rejects_unknown_strings() {
    assert_eq!(
        Power::try_from_str("off"),
        Err(Error::Value(
            "Cannot convert \"off\" to power state".to_string()
        ))
    );
    assert_eq!(
        Power::try_from_str("ON"),
        Err(Error::Value(
            "Cannot convert \"ON\" to power state".to_string()
        ))
    );
    assert_eq!(
        Power::try_from_str(""),
        Err(Error::Value(
            "Cannot convert \"\" to power state".to_string()
        ))
    );
}

#[test]
fn error_messages() {
    assert_eq!(
        Error::Value("bad".to_string()).message(),
        "Invalid value: bad"
    );
    assert_eq!(Error::Format.message(), "Formatting error");
    assert_eq!(
        Error::Transport("connection refused".to_string()).message(),
        "connection refused"
    );
    assert_eq!(Error::Yamaha(0).message(), "Yamaha returned an error: 0");
    assert_eq!(
        Error::Yamaha(105).message(),
        "Yamaha returned an error: 105"
    );
    assert_eq!(
        Error::Yamaha(-2147483648).message(),
        "Yamaha returned an error: -2147483648"
    );
    assert_eq!(
        Error::Yamaha(i32::MAX).message(),
        "Yamaha returned an error: 2147483647"
    );
}

#[test]
fn system_urls() {
    let d = Device::new("192.168.1.20");
    assert_eq!(
        d.get_device_info_url(),
        "http://192.168.1.20/YamahaExtendedControl/v1/system/getDeviceInfo"
    );
    assert_eq!(
        d.get_features_url(),
        "http://192.168.1.20/YamahaExtendedControl/v1/system/getFeatures"
    );
}

#[test]
fn zone_defaults_to_main() {
    assert_eq!(Device::get_zone(None), "main");
    assert_eq!(Device::get_zone(Some(&"zone2".to_string())), "zone2");

    let d = Device::new("host");
    assert_eq!(
        d.get_status_url(None),
        "http://host/YamahaExtendedControl/v1/main/getStatus"
    );
    assert_eq!(
        d.get_status_url(Some(&"zone2".to_string())),
        "http://host/YamahaExtendedControl/v1/zone2/getStatus"
    );
}

#[test]
fn set_power_url_carries_wire_form() {
    let d = Device::new("host");
    assert_eq!(
        d.set_power_url(None, &Power::On),
        "http://host/YamahaExtendedControl/v1/main/setPower?power=on"
    );
    assert_eq!(
        d.set_power_url(Some(&"zone2".to_string()), &Power::Standby),
        "http://host/YamahaExtendedControl/v1/zone2/setPower?power=standby"
    );
}

#[test]
fn set_input_url_omits_absent_mode() {
    let d = Device::new("host");
    let url = d.set_input_url(None, "optical", None);
    assert_eq!(
        url,
        "http://host/YamahaExtendedControl/v1/main/setInput?input=optical"
    );
    assert!(!url.contains("mode"));
}

#[test]
fn set_input_url_appends_given_mode() {
    let d = Device::new("host");
    assert_eq!(
        d.set_input_url(Some(&"zone2".to_string()), "hdmi1", Some(&"list".to_string())),
        "http://host/YamahaExtendedControl/v1/zone2/setInput?input=hdmi1&mode=list"
    );
}
