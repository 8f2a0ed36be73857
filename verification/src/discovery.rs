use vstd::prelude::*;

verus! {

/// The number of "search cycle restarted" signals after which a scan gives
/// up: multicast discovery has no explicit "not found" reply, so absence is
/// inferred after a bounded number of unanswered search rounds.
pub const MAX_SEARCH_ATTEMPTS: u32 = 6;

/// An IPv4 address as its four octets, most significant first.
#[derive(Debug, Clone, Copy, PartialEq, Eq)]
pub struct Ipv4 {
    pub octets: [u8; 4],
}

/// A discovery event, as the decision logic sees it: a new search cycle
/// started, a service was resolved to a full name and its addresses, or
/// anything else, which the scan ignores.
#[derive(Debug, Clone, PartialEq, Eq)]
pub enum DiscoveryEvent {
    SearchStarted,
    ServiceResolved { full_name: String, addresses: Vec<Ipv4> },
    Other,
}

/// The service category that is browsed.
pub open spec fn service_type_spec() -> Seq<char> {
    "_http._tcp.local."@
}

/// The advertised full name that a requested service name must match:
/// `<name>.<service-category>`.
pub open spec fn full_name_spec(name: Seq<char>) -> Seq<char> {
    name + "."@ + service_type_spec()
}

/// The service category that is browsed, as a string slice.
pub fn service_type() -> (r: &'static str)
    ensures
        r@ == service_type_spec(),
{
    "_http._tcp.local."
}

/// The full name that a service advertised under `name` carries.
pub fn expected_full_name(name: &str) -> (r: String)
    ensures
        r@ == full_name_spec(name@),
{
    String::from_str(name).concat(".").concat(service_type())
}

/// What a scan returns for a finite event sequence, starting from a given
/// restart count: the addresses of the first resolved service whose full
/// name matches, an empty set once the restart cap is reached, and an empty
/// set when the events run out first.
pub open spec fn scan_spec(events: Seq<DiscoveryEvent>, expected: Seq<char>, attempts: int) -> Seq<
    Ipv4,
>
    decreases events.len(),
{
    if events.len() == 0 {
        Seq::<Ipv4>::empty()
    } else {
        match events[0] {
            DiscoveryEvent::SearchStarted => {
                if attempts + 1 >= MAX_SEARCH_ATTEMPTS as int {
                    Seq::<Ipv4>::empty()
                } else {
                    scan_spec(events.drop_first(), expected, attempts + 1)
                }
            },
            DiscoveryEvent::ServiceResolved { full_name, addresses } => {
                if full_name@ == expected {
                    addresses@
                } else {
                    scan_spec(events.drop_first(), expected, attempts)
                }
            },
            DiscoveryEvent::Other => scan_spec(events.drop_first(), expected, attempts),
        }
    }
}

/// The state of one bounded discovery scan: the full name that is searched
/// for and the number of search cycles seen so far.
///
/// The caller feeds events in arrival order into [`Scanner::on_event`] until
/// it yields a result; the contract bounds the scan at exactly
/// [`MAX_SEARCH_ATTEMPTS`] restart signals.
#[derive(Debug, Clone, PartialEq, Eq)]
pub struct Scanner {
    expected_full_name: String,
    search_attempts: u32,
}

impl Scanner {
    /// The full name this scan matches against.
    pub closed spec fn expected(&self) -> Seq<char> {
        self.expected_full_name@
    }

    /// The number of restart signals seen so far.
    pub closed spec fn attempts(&self) -> u32 {
        self.search_attempts
    }

    /// A fresh scan for the service advertised under `name`.
    pub fn new(name: &str) -> (r: Scanner)
        ensures
            r.expected() == full_name_spec(name@),
            r.attempts() == 0,
    {
        Scanner { expected_full_name: expected_full_name(name), search_attempts: 0 }
    }

    /// Whether the scan has exhausted its restart budget.
    pub fn finished(&self) -> (r: bool)
        ensures
            r == (self.attempts() >= MAX_SEARCH_ATTEMPTS),
    {
        self.search_attempts >= MAX_SEARCH_ATTEMPTS
    }

    /// Advances the scan by one event.
    ///
    /// A matching resolved service ends the scan at once with its addresses —
    /// first match wins. A restart signal is counted, and exactly the one
    /// that reaches the cap ends the scan with an empty address set, never an
    /// earlier one. Every other event leaves the scan unchanged.
    pub fn on_event(&mut self, event: DiscoveryEvent) -> (r: Option<Vec<Ipv4>>)
        requires
            old(self).attempts() < MAX_SEARCH_ATTEMPTS,
        ensures
            final(self).expected() == old(self).expected(),
            match event {
                DiscoveryEvent::SearchStarted => {
                    &&& final(self).attempts() == old(self).attempts() + 1
                    &&& (r is Some <==> old(self).attempts() + 1 == MAX_SEARCH_ATTEMPTS)
                    &&& (r is Some ==> r->0@ == Seq::<Ipv4>::empty())
                },
                DiscoveryEvent::ServiceResolved { full_name, addresses } => {
                    &&& final(self).attempts() == old(self).attempts()
                    &&& (full_name@ == old(self).expected() ==> r is Some && r->0@ == addresses@)
                    &&& (full_name@ != old(self).expected() ==> r is None)
                },
                DiscoveryEvent::Other => {
                    &&& final(self).attempts() == old(self).attempts()
                    &&& r is None
                },
            },
    {
        match event {
            DiscoveryEvent::SearchStarted => {
                self.search_attempts = self.search_attempts + 1;
                if self.search_attempts >= MAX_SEARCH_ATTEMPTS {
                    Some(Vec::new())
                } else {
                    None
                }
            },
            DiscoveryEvent::ServiceResolved { full_name, addresses } => {
                if full_name == self.expected_full_name {
                    Some(addresses)
                } else {
                    None
                }
            },
            DiscoveryEvent::Other => None,
        }
    }
}

/// Consumes a finite event stream in arrival order and returns the addresses
/// the scan for `name` resolves: exactly what [`scan_spec`] states, with
/// "not found" represented as an empty set, not an error.
pub fn scan_events(name: &str, events: Vec<DiscoveryEvent>) -> (r: Vec<Ipv4>)
    ensures
        r@ == scan_spec(events@, full_name_spec(name@), 0),
{
    let mut scanner = Scanner::new(name);
    let mut remaining = events;
    while remaining.len() > 0
        invariant
            scanner.expected() == full_name_spec(name@),
            scanner.attempts() < MAX_SEARCH_ATTEMPTS,
            scan_spec(events@, full_name_spec(name@), 0) == scan_spec(
                remaining@,
                full_name_spec(name@),
                scanner.attempts() as int,
            ),
        decreases remaining@.len(),
    {
        let ghost pre = remaining@;
        let ev = remaining.remove(0);
        assert(remaining@ =~= pre.drop_first());
        if let Some(addresses) = scanner.on_event(ev) {
            return addresses;
        }
    }
    Vec::new()
}

} // verus!
