use vstd::prelude::*;

use crate::error::Error;

verus! {

/// A response envelope that carries nothing but the status code.
///
/// Every reply of the device wraps its payload, if any, around an integer
/// `response_code`; `0` is the only success sentinel.
#[derive(Debug, Clone, Copy, PartialEq, Eq, Structural)]
pub struct SimpleRsp {
    pub response_code: i32,
}

impl SimpleRsp {
    /// Unwraps a status-only envelope: success exactly when the code is zero,
    /// otherwise the code is handed back verbatim as a device error.
    pub fn to_result(&self) -> (r: Result<(), Error>)
        ensures
            self.response_code == 0 ==> r == Result::<(), Error>::Ok(()),
            self.response_code != 0 ==> r == Result::<(), Error>::Err(
                Error::Yamaha(self.response_code),
            ),
    {
        if self.response_code == 0 {
            Ok(())
        } else {
            Err(Error::Yamaha(self.response_code))
        }
    }
}

/// A response envelope around a data payload.
///
/// On the wire the payload's fields sit beside `response_code` at the same
/// structural level; by the time a value of this type exists, the transport
/// layer has already separated the status field from the remaining payload
/// fields.
#[derive(Debug)]
pub struct Rsp<D> {
    pub response_code: i32,
    pub data: D,
}

impl<D> Rsp<D> {
    /// Unwraps a data-bearing envelope: the payload is surfaced untouched
    /// exactly when the code is zero, otherwise the code is handed back
    /// verbatim as a device error and the payload is dropped.
    pub fn to_result(self) -> (r: Result<Box<D>, Error>)
        ensures
            self.response_code == 0 ==> r is Ok && r->Ok_0 == self.data,
            self.response_code != 0 ==> r is Err && r->Err_0 == Error::Yamaha(
                self.response_code,
            ),
    {
        if self.response_code == 0 {
            Ok(Box::new(self.data))
        } else {
            Err(Error::Yamaha(self.response_code))
        }
    }
}

/// The power state of a zone: a closed enumeration whose wire form is exactly
/// the lowercase string `"on"` or `"standby"`.
#[derive(Debug, Clone, Copy, PartialEq, Eq, Structural)]
pub enum Power {
    On,
    Standby,
}

/// The wire form of a power state.
pub open spec fn power_str_spec(p: Power) -> Seq<char> {
    match p {
        Power::On => "on"@,
        Power::Standby => "standby"@,
    }
}

/// The power state that a wire string denotes, if any: only the two exact
/// lowercase strings are accepted.
pub open spec fn power_from_str_spec(s: Seq<char>) -> Option<Power> {
    if s == "on"@ {
        Some(Power::On)
    } else if s == "standby"@ {
        Some(Power::Standby)
    } else {
        None
    }
}

/// The message carried by the value error for a string `s` that is not a
/// power state.
pub open spec fn power_value_error_spec(s: Seq<char>) -> Seq<char> {
    "Cannot convert \""@ + s + "\" to power state"@
}

/// Equality of two string slices, as equality of their character sequences.
fn str_eq(a: &str, b: &str) -> (r: bool)
    ensures
        r == (a@ == b@),
{
    let sa: String = a.to_owned();
    let sb: String = b.to_owned();
    sa == sb
}

impl Power {
    /// Parses a wire string into a power state. Any string outside
    /// `{"on", "standby"}` is a value error, never a silent default.
    pub fn try_from_str(s: &str) -> (r: Result<Power, Error>)
        ensures
            power_from_str_spec(s@) is Some ==> r == Result::<Power, Error>::Ok(
                power_from_str_spec(s@)->0,
            ),
            power_from_str_spec(s@) is None ==> r is Err && r->Err_0 is Value
                && r->Err_0->Value_0@ == power_value_error_spec(s@),
    {
        if str_eq(s, "on") {
            Ok(Power::On)
        } else if str_eq(s, "standby") {
            Ok(Power::Standby)
        } else {
            let msg = String::from_str("Cannot convert \"").concat(s).concat(
                "\" to power state",
            );
            Err(Error::Value(msg))
        }
    }

    /// The wire form of this power state, as an owned string.
    pub fn to_wire_string(&self) -> (r: String)
        ensures
            r@ == power_str_spec(*self),
    {
        String::from_str(self.as_str())
    }

    /// The wire form of this power state.
    pub fn as_str(&self) -> (r: &'static str)
        ensures
            r@ == power_str_spec(*self),
    {
        match self {
            Power::On => "on",
            Power::Standby => "standby",
        }
    }
}

/// Encoding a power state and parsing it back yields the same state, and a
/// state is only ever denoted by its own wire string.
pub proof fn lemma_power_round_trip(p: Power)
    ensures
        power_from_str_spec(power_str_spec(p)) == Some(p),
        forall|s: Seq<char>|
            power_from_str_spec(s) == Some(p) ==> s == power_str_spec(p),
{
    reveal_strlit("on");
    reveal_strlit("standby");
    assert("on"@.len() == 2);
    assert("standby"@.len() == 7);
    assert("on"@ != "standby"@);
}

/// The slice of the device-information reply that this client surfaces.
/// The device reports more fields; they are intentionally left unparsed so
/// that firmware additions do not break the client.
#[derive(Debug, Clone, PartialEq, Eq)]
pub struct DeviceInfo {
    pub model_name: String,
}

impl DeviceInfo {
    /// The model name the device reported.
    pub fn get_model_name(&self) -> (r: &String)
        ensures
            r@ == self.model_name@,
    {
        &self.model_name
    }
}

/// One entry of the device's input list; only the identifier is surfaced.
#[derive(Debug, Clone, PartialEq, Eq)]
pub struct InputItem {
    pub id: String,
}

/// The `system` record of the feature reply: the ordered list of inputs.
#[derive(Debug, Clone, PartialEq, Eq)]
pub struct SystemFeatures {
    pub input_list: Vec<InputItem>,
}

/// The feature reply: the device's inputs, in the order the device reported
/// them.
#[derive(Debug, Clone, PartialEq, Eq)]
pub struct Features {
    pub system: SystemFeatures,
}

impl Features {
    /// The identifiers of the device's inputs, in source order.
    pub fn get_input_ids(&self) -> (r: Vec<&String>)
        ensures
            r@.len() == self.system.input_list@.len(),
            forall|i: int|
                0 <= i < r@.len() ==> r@[i]@ == self.system.input_list@[i].id@,
    {
        let list = &self.system.input_list;
        let mut inputs: Vec<&String> = Vec::with_capacity(list.len());
        let mut i: usize = 0;
        while i < list.len()
            invariant
                i <= list@.len(),
                inputs@.len() == i,
                forall|j: int| 0 <= j < i ==> inputs@[j]@ == list@[j].id@,
            decreases list@.len() - i,
        {
            inputs.push(&list[i].id);
            i += 1;
        }
        inputs
    }
}

/// The zone-status reply. The device reports the zone's state in detail; this
/// client validates only the status code of the envelope and discards the
/// rest, so the record is a bare "operation succeeded" marker.
#[derive(Debug, Clone, PartialEq, Eq)]
pub struct ZoneStatus {}

/// A receiver, identified by the host address that the caller supplied.
/// The value holds no other state: every operation is an independent
/// request/response exchange.
#[derive(Debug, Clone, PartialEq, Eq)]
pub struct Device {
    host_name: String,
}

/// The zone that a zone-scoped operation targets: the one the caller named,
/// or the literal default `"main"`.
pub open spec fn zone_or_default(zone: Option<Seq<char>>) -> Seq<char> {
    match zone {
        Some(z) => z,
        None => "main"@,
    }
}

/// The view of an optional zone argument.
pub open spec fn zone_view(zone: Option<&String>) -> Option<Seq<char>> {
    match zone {
        Some(z) => Some(z@),
        None => None,
    }
}

impl Device {
    /// The host address this device value points at.
    pub closed spec fn host(&self) -> Seq<char> {
        self.host_name@
    }

    /// The full request URL for `function` in the scope `zone`:
    /// `http://<host>/YamahaExtendedControl/v1/<zone>/<function>`.
    pub open spec fn url_spec(&self, zone: Seq<char>, function: Seq<char>) -> Seq<char> {
        "http://"@ + self.host() + "/YamahaExtendedControl/v1/"@ + zone + "/"@ + function
    }

    pub fn new(host_name: &str) -> (r: Self)
        ensures
            r.host() == host_name@,
    {
        Self { host_name: String::from_str(host_name) }
    }

    /// The URL of a system-scoped function.
    pub fn url(&self, function: &str) -> (r: String)
        ensures
            r@ == self.url_spec("system"@, function@),
    {
        self.url_zone("system", function)
    }

    /// The URL of a zone-scoped function.
    pub fn url_zone(&self, zone: &str, function: &str) -> (r: String)
        ensures
            r@ == self.url_spec(zone@, function@),
    {
        String::from_str("http://").concat(self.host_name.as_str()).concat(
            "/YamahaExtendedControl/v1/",
        ).concat(zone).concat("/").concat(function)
    }

    /// The zone a caller asked for, with an absent zone resolved to the
    /// literal default `"main"` before any URL is built.
    pub fn get_zone(zone: Option<&String>) -> (r: String)
        ensures
            r@ == zone_or_default(zone_view(zone)),
    {
        if let Some(zone) = zone {
            zone.clone()
        } else {
            String::from_str("main")
        }
    }

    /// The URL that the device-information operation requests.
    pub fn get_device_info_url(&self) -> (r: String)
        ensures
            r@ == self.url_spec("system"@, "getDeviceInfo"@),
    {
        self.url("getDeviceInfo")
    }

    /// The URL that the feature-list operation requests.
    pub fn get_features_url(&self) -> (r: String)
        ensures
            r@ == self.url_spec("system"@, "getFeatures"@),
    {
        self.url("getFeatures")
    }

    /// The URL that the zone-status operation requests; an absent zone
    /// resolves to `"main"`.
    pub fn get_status_url(&self, zone: Option<&String>) -> (r: String)
        ensures
            r@ == self.url_spec(zone_or_default(zone_view(zone)), "getStatus"@),
    {
        let zone = Self::get_zone(zone);
        self.url_zone(zone.as_str(), "getStatus")
    }

    /// The URL that the set-power operation requests: the zone-scoped
    /// `setPower` function with the power state's wire form as the single
    /// query parameter.
    pub fn set_power_url(&self, zone: Option<&String>, power: &Power) -> (r: String)
        ensures
            r@ == self.url_spec(zone_or_default(zone_view(zone)), "setPower"@)
                + "?power="@ + power_str_spec(*power),
    {
        let zone = Self::get_zone(zone);
        self.url_zone(zone.as_str(), "setPower").concat("?power=").concat(
            power.as_str(),
        )
    }

    /// The URL that the set-input operation requests: the zone-scoped
    /// `setInput` function with the input identifier as query parameter, and
    /// the `mode` parameter appended only when a mode was given.
    pub fn set_input_url(&self, zone: Option<&String>, input: &str, mode: Option<&String>) -> (r:
        String)
        ensures
            r@ == self.url_spec(zone_or_default(zone_view(zone)), "setInput"@)
                + "?input="@ + input@ + (match mode {
                Some(m) => "&mode="@ + m@,
                None => Seq::<char>::empty(),
            }),
    {
        let zone = Self::get_zone(zone);
        let base = self.url_zone(zone.as_str(), "setInput").concat("?input=").concat(input);
        if let Some(m) = mode {
            base.concat("&mode=").concat(m.as_str())
        } else {
            base
        }
    }
}

/// Leaving the zone unspecified builds the same URL as naming the default
/// zone `"main"` outright: the default is resolved before URL construction,
/// never left unset.
pub proof fn lemma_zone_defaulting(d: Device, named: Option<Seq<char>>, function: Seq<char>)
    ensures
        d.url_spec(zone_or_default(None), function) == d.url_spec("main"@, function),
        named is Some ==> d.url_spec(zone_or_default(named), function) == d.url_spec(
            named->0,
            function,
        ),
{
}

} // verus!
