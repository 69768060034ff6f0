//! What the USB transport decides without touching the bus: which device is
//! the Switch, which endpoints carry the protocol, how long a read may
//! wait, and how the server recovers from each kind of failure.

use vstd::prelude::*;

verus! {

/// USB vendor id of the Switch.
pub const SWITCH_VENDOR_ID: u16 = 0x057E;

/// USB product id of the Switch while the installer runs.
pub const SWITCH_PRODUCT_ID: u16 = 0x3000;

/// The interface that is claimed.
pub const SWITCH_INTERFACE: u8 = 0;

/// The configuration that is made active before the claim.
pub const SWITCH_CONFIGURATION: u8 = 1;

/// How long the device is left alone after a reset, in milliseconds.
pub const RESET_SETTLE_MILLIS: u64 = 500;

/// The short timeout, in milliseconds.
pub const TIMEOUT_MILLIS: u64 = 100;

/// The long timeout, in milliseconds.
pub const TIMEOUT_LONG_MILLIS: u64 = 30_000;

/// The two timeout classes of a bulk read.
#[derive(Debug, Clone, Copy, PartialEq, Eq, Structural)]
pub enum TimeoutClass {
    /// Polling for a command header: running out of time is expected.
    Short,
    /// Waiting for a reply that the protocol has committed to.
    Long,
}

impl TimeoutClass {
    /// The timeout in milliseconds.
    pub open spec fn spec_millis(self) -> u64 {
        match self {
            TimeoutClass::Short => TIMEOUT_MILLIS,
            TimeoutClass::Long => TIMEOUT_LONG_MILLIS,
        }
    }

    #[verifier::when_used_as_spec(spec_millis)]
    pub fn millis(self) -> (millis: u64)
        ensures
            millis == self.spec_millis(),
    {
        match self {
            TimeoutClass::Short => TIMEOUT_MILLIS,
            TimeoutClass::Long => TIMEOUT_LONG_MILLIS,
        }
    }
}

/// The kinds of transport failure that the server tells apart.
#[derive(Debug, Clone, Copy, PartialEq, Eq, Structural)]
pub enum TransportError {
    /// Nothing arrived in time.
    Timeout,
    /// The endpoint stalled.
    Pipe,
    /// Input or output failed.
    Io,
    /// The device is gone.
    NoDevice,
    /// Anything else.
    Other,
}

/// What the server does after a transport failure.
#[derive(Debug, Clone, Copy, PartialEq, Eq, Structural)]
pub enum Recovery {
    /// Go on polling at once.
    Resume,
    /// Wait briefly, then go on polling with the same handle.
    Retry,
    /// Drop the handle and open the device again.
    Reconnect,
}

/// The recovery for each kind of failure.
pub open spec fn recovery_for(error: TransportError) -> Recovery {
    match error {
        TransportError::Timeout => Recovery::Resume,
        TransportError::Pipe => Recovery::Retry,
        TransportError::Io => Recovery::Retry,
        TransportError::NoDevice => Recovery::Reconnect,
        TransportError::Other => Recovery::Retry,
    }
}

/// Computes [`recovery_for`].
pub fn classify(error: TransportError) -> (recovery: Recovery)
    ensures
        recovery == recovery_for(error),
{
    match error {
        TransportError::Timeout => Recovery::Resume,
        TransportError::Pipe => Recovery::Retry,
        TransportError::Io => Recovery::Retry,
        TransportError::NoDevice => Recovery::Reconnect,
        TransportError::Other => Recovery::Retry,
    }
}

/// The identity that a device descriptor reports.
#[derive(Debug, Clone, Copy, PartialEq, Eq, Structural)]
pub struct DeviceId {
    pub vendor_id: u16,
    pub product_id: u16,
}

impl DeviceId {
    /// Whether this is the Switch.
    pub open spec fn spec_is_switch(self) -> bool {
        self.vendor_id == SWITCH_VENDOR_ID && self.product_id == SWITCH_PRODUCT_ID
    }

    #[verifier::when_used_as_spec(spec_is_switch)]
    pub fn is_switch(self) -> (matches: bool)
        ensures
            matches == self.spec_is_switch(),
    {
        self.vendor_id == SWITCH_VENDOR_ID && self.product_id == SWITCH_PRODUCT_ID
    }
}

/// Picks the first device that is the Switch, by its place in the
/// enumeration.
pub fn find_switch(devices: &Vec<DeviceId>) -> (found: Option<usize>)
    ensures
        match found {
            Some(at) => at < devices@.len() && devices@[at as int].is_switch() && forall|
                j: int,
            |
                0 <= j < at ==> !(#[trigger] devices@[j]).is_switch(),
            None => forall|j: int| 0 <= j < devices@.len() ==> !(#[trigger] devices@[j]).is_switch(),
        },
{
    let mut i: usize = 0;
    while i < devices.len()
        invariant
            i <= devices@.len(),
            forall|j: int| 0 <= j < i ==> !(#[trigger] devices@[j]).is_switch(),
        decreases devices@.len() - i,
    {
        if devices[i].is_switch() {
            return Some(i);
        }
        i += 1;
    }
    None
}

/// The direction of an endpoint, seen from the host.
#[derive(Debug, Clone, Copy, PartialEq, Eq, Structural)]
pub enum Direction {
    In,
    Out,
}

/// One endpoint of the claimed interface, as its descriptor reports it.
#[derive(Debug, Clone, Copy, PartialEq, Eq, Structural)]
pub struct Endpoint {
    pub address: u8,
    pub direction: Direction,
}

/// The pair of endpoints that carries the protocol.
#[derive(Debug, Clone, Copy, PartialEq, Eq, Structural)]
pub struct Endpoints {
    pub in_endpoint: u8,
    pub out_endpoint: u8,
}

/// Why no pair of endpoints could be chosen.
#[derive(Debug, Clone, Copy, PartialEq, Eq, Structural)]
pub enum EndpointError {
    InEndpointNotFound,
    OutEndpointNotFound,
}

/// The address of the first endpoint of `direction` in `endpoints`.
pub open spec fn first_endpoint(endpoints: Seq<Endpoint>, direction: Direction) -> Option<u8>
    decreases endpoints.len(),
{
    if endpoints.len() == 0 {
        None
    } else if endpoints[0].direction == direction {
        Some(endpoints[0].address)
    } else {
        first_endpoint(endpoints.skip(1), direction)
    }
}

/// The endpoints chosen from a configuration: the first IN and the first
/// OUT address met. A missing IN endpoint is reported before a missing OUT
/// endpoint.
pub open spec fn chosen_endpoints(endpoints: Seq<Endpoint>) -> Result<Endpoints, EndpointError> {
    match first_endpoint(endpoints, Direction::In) {
        None => Err(EndpointError::InEndpointNotFound),
        Some(in_endpoint) => match first_endpoint(endpoints, Direction::Out) {
            None => Err(EndpointError::OutEndpointNotFound),
            Some(out_endpoint) => Ok(Endpoints { in_endpoint, out_endpoint }),
        },
    }
}

/// Finds the first endpoint of `direction`.
fn scan_endpoints(endpoints: &Vec<Endpoint>, direction: Direction) -> (found: Option<u8>)
    ensures
        found == first_endpoint(endpoints@, direction),
{
    let mut i: usize = 0;
    assert(endpoints@.skip(0) =~= endpoints@);
    while i < endpoints.len()
        invariant
            i <= endpoints@.len(),
            first_endpoint(endpoints@, direction) == first_endpoint(
                endpoints@.skip(i as int),
                direction,
            ),
        decreases endpoints@.len() - i,
    {
        let endpoint = endpoints[i];
        assert(endpoints@.skip(i as int)[0] == endpoint);
        assert(endpoints@.skip(i as int).skip(1) =~= endpoints@.skip(i + 1));
        if endpoint.direction == direction {
            return Some(endpoint.address);
        }
        i += 1;
    }
    assert(endpoints@.skip(i as int).len() == 0);
    None
}

/// Chooses the IN and the OUT endpoint among those that the configuration
/// descriptor lists, in the descriptor's order.
pub fn select_endpoints(endpoints: &Vec<Endpoint>) -> (chosen: Result<Endpoints, EndpointError>)
    ensures
        chosen == chosen_endpoints(endpoints@),
{
    match scan_endpoints(endpoints, Direction::In) {
        None => Err(EndpointError::InEndpointNotFound),
        Some(in_endpoint) => match scan_endpoints(endpoints, Direction::Out) {
            None => Err(EndpointError::OutEndpointNotFound),
            Some(out_endpoint) => Ok(Endpoints { in_endpoint, out_endpoint }),
        },
    }
}

} // verus!
