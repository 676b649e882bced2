use vstd::prelude::*;

use crate::app_type::AppType;
use crate::scenarios::ScenarioError;

verus! {

/// An IP address, as its octets or segments.
#[derive(Debug, Clone, Copy)]
pub enum IpAddress {
    V4([u8; 4]),
    V6 { segments: [u16; 8], flowinfo: u32, scope_id: u32 },
}

/// A socket address: an IP address and a port.
#[derive(Debug, Clone, Copy)]
pub struct SocketAddress {
    pub ip: IpAddress,
    pub port: u16,
}

/// An Sv2 endpoint under test.
#[derive(Debug)]
pub struct Endpoint {
    pub addr: SocketAddress,
    pub app_type: AppType,
    pub user_identity: String,
}

/// An endpoint with its identity taken by its characters.
pub type EndpointView = (SocketAddress, AppType, Seq<char>);

impl View for Endpoint {
    type V = EndpointView;

    open spec fn view(&self) -> EndpointView {
        (self.addr, self.app_type, self.user_identity@)
    }
}

impl Clone for Endpoint {
    fn clone(&self) -> (e: Self)
        ensures
            e@ == self@,
    {
        Endpoint { addr: self.addr, app_type: self.app_type, user_identity: self.user_identity.clone() }
    }
}

/// How long the preflight keeps retrying an endpoint that refuses
/// connections, in milliseconds.
pub const CONNECT_BUDGET_MILLIS: u64 = 3000;

/// The pause between two connection attempts of the preflight, in
/// milliseconds.
pub const RETRY_INTERVAL_MILLIS: u64 = 200;

/// What came of one connection attempt of the preflight.
#[derive(Debug)]
pub enum ConnectAttempt {
    /// The endpoint accepted the TCP connection.
    Connected,
    /// The attempt failed with `error`; `budget_spent` tells whether the
    /// connect budget had run out when it did.
    Refused { error: String, budget_spent: bool },
}

/// What the preflight does next.
#[derive(Debug)]
pub enum PreflightStep {
    /// The endpoint is reachable.
    Reachable,
    /// The endpoint is unreachable: fail fast with this error.
    Down(ScenarioError),
    /// Try again after this many milliseconds.
    RetryAfterMillis(u64),
}

/// "endpoint unreachable: " followed by the connection error.
pub open spec fn endpoint_down_message(error: Seq<char>) -> Seq<char> {
    "endpoint unreachable: "@ + error
}

impl Endpoint {
    /// Decides what follows a connection attempt of the preflight, which
    /// fails fast when the endpoint is unreachable instead of stalling
    /// scenario timeouts.
    ///
    /// Retries within the budget: a freshly started local service may not be
    /// listening yet, while a dead endpoint refuses every attempt instantly.
    pub fn preflight(&self, attempt: ConnectAttempt) -> (step: PreflightStep)
        ensures
            attempt is Connected ==> step is Reachable,
            attempt matches ConnectAttempt::Refused { error, budget_spent } ==> {
                &&& budget_spent ==> (step matches PreflightStep::Down(e)
                    && e@ == endpoint_down_message(error@))
                &&& !budget_spent ==> step == PreflightStep::RetryAfterMillis(RETRY_INTERVAL_MILLIS)
            },
    {
        match attempt {
            ConnectAttempt::Connected => PreflightStep::Reachable,
            ConnectAttempt::Refused { error, budget_spent } => {
                if budget_spent {
                    let mut msg = String::from_str("endpoint unreachable: ");
                    msg.append(error.as_str());
                    PreflightStep::Down(ScenarioError(msg))
                } else {
                    PreflightStep::RetryAfterMillis(RETRY_INTERVAL_MILLIS)
                }
            }
        }
    }
}

} // verus!
