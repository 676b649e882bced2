pub mod common;
pub mod laws;
pub mod mining;

use vstd::prelude::*;

use stratum_apps::stratum_core::common_messages_sv2::Protocol;

use crate::app_type::{protocol_of_code, served_protocol_code, setup_flags, AppType};
use crate::client::{
    is_setup_connection, ClientMessage, ClientSetup, MessageBody, ServerMessage,
    MESSAGE_TYPE_NEW_MINING_JOB, MESSAGE_TYPE_SETUP_CONNECTION_SUCCESS,
};
use crate::endpoint::Endpoint;

verus! {

/// Why a scenario failed.
#[derive(Debug)]
pub struct ScenarioError(pub String);

impl View for ScenarioError {
    type V = Seq<char>;

    open spec fn view(&self) -> Seq<char> {
        self.0@
    }
}

impl ScenarioError {
    /// The reason, as text (what `Display` writes).
    pub fn to_string(&self) -> (s: String)
        ensures
            s@ == self@,
    {
        self.0.clone()
    }

    /// A copy of this error.
    pub(crate) fn clone_error(&self) -> (e: ScenarioError)
        ensures
            e@ == self@,
    {
        ScenarioError(self.0.clone())
    }
}

impl From<String> for ScenarioError {
    fn from(s: String) -> (e: Self) {
        ScenarioError(s)
    }
}

impl<'a> From<&'a str> for ScenarioError {
    fn from(s: &'a str) -> (e: Self)
        ensures
            e@ == s@,
    {
        ScenarioError(String::from_str(s))
    }
}

impl<'a> vstd::std_specs::convert::FromSpecImpl<&'a str> for ScenarioError {
    /// A `String` made from a `&str` is named by its characters only, so
    /// `from` states its result by `ensures` rather than by `from_spec`.
    open spec fn obeys_from_spec() -> bool {
        false
    }

    open spec fn from_spec(v: &'a str) -> Self {
        vstd::pervasive::arbitrary()
    }
}

impl vstd::std_specs::convert::FromSpecImpl<String> for ScenarioError {
    open spec fn obeys_from_spec() -> bool {
        true
    }

    open spec fn from_spec(v: String) -> Self {
        ScenarioError(v)
    }
}

/// The result of running a single scenario.
///
/// `Ok(None)` — passed with no extra detail.
/// `Ok(Some(detail))` — passed; the string is a human-readable summary (e.g.
/// negotiated version/flags) for reports.
/// `Err(ScenarioError)` — failed; the error carries the reason.
pub type ScenarioResult = Result<Option<String>, ScenarioError>;

/// A scenario result with its strings taken by their characters.
pub open spec fn result_view(r: ScenarioResult) -> Result<Option<Seq<char>>, Seq<char>> {
    match r {
        Ok(None) => Ok(None),
        Ok(Some(d)) => Ok(Some(d@)),
        Err(e) => Err(e@),
    }
}

/// The outcome of one scenario run.
#[derive(Debug)]
pub struct ScenarioReport {
    pub id: &'static str,
    pub result: ScenarioResult,
}

/// What happened to the last action of a scenario.
#[derive(Debug)]
pub enum Event {
    /// The scenario has not done anything yet.
    Start,
    /// A fresh client connected and sent its `SetupConnection`.
    Connected,
    /// The message was sent.
    Sent,
    /// The endpoint sent this message.
    Received(ServerMessage),
    /// The client operation failed (timeout, closed channel).
    Failed(ScenarioError),
}

impl Event {
    /// A received message could have been decoded from a frame.
    pub open spec fn well_formed(&self) -> bool {
        self matches Event::Received(m) ==> m.well_formed()
    }

    /// Tells whether a received message could have been decoded from a frame.
    pub fn is_well_formed(&self) -> (b: bool)
        ensures
            b == self.well_formed(),
    {
        match self {
            Event::Received(m) => m.is_well_formed(),
            _ => true,
        }
    }
}

/// What a scenario asks its client to do next.
#[derive(Debug)]
pub enum Action {
    /// Open a fresh connection to the endpoint, with this setup; the
    /// client that was open before (if any) is no longer used.
    Connect(ClientSetup),
    /// Send this message on the current connection.
    Send(ClientMessage),
    /// Wait for a message of this type, discarding the ones before it.
    ExpectFromServer(u8),
    /// Wait for a message of either of these types, discarding the ones
    /// before it.
    ExpectEitherFromServer(u8, u8),
    /// Wait for the next message of any type.
    NextFromServer,
    /// The scenario is over, with this result.
    Finish(ScenarioResult),
}

/// The stage of a scenario that has finished.
pub const DONE: u8 = 255;

/// `r` finishes the scenario, failing with `msg`.
pub open spec fn finishes_with_error(r: (u8, Action), msg: Seq<char>) -> bool {
    &&& r.0 == DONE
    &&& (r.1 matches Action::Finish(Err(e)) && e@ == msg)
}

/// `r` finishes the scenario, passing with `detail`.
pub open spec fn finishes_with_detail(r: (u8, Action), detail: Seq<char>) -> bool {
    &&& r.0 == DONE
    &&& (r.1 matches Action::Finish(Ok(Some(d))) && d@ == detail)
}

/// `r` finishes the scenario, passing with no detail.
pub open spec fn finishes_passed(r: (u8, Action)) -> bool {
    &&& r.0 == DONE
    &&& (r.1 matches Action::Finish(Ok(None)))
}

/// The error of a scenario that is handed an event it did not ask for.
pub open spec fn out_of_order_message() -> Seq<char> {
    "scenario driven out of order"@
}

/// What every scenario does with an event outside its script: a failed
/// client operation fails the scenario with that error, and any other
/// event fails it as driven out of order.
pub open spec fn off_script(event: Event, r: (u8, Action)) -> bool {
    match event {
        Event::Failed(e) => finishes_with_error(r, e@),
        _ => finishes_with_error(r, out_of_order_message()),
    }
}

/// Finishes the scenario, failing with `msg`.
pub fn fail(msg: String) -> (r: (u8, Action))
    ensures
        finishes_with_error(r, msg@),
{
    (DONE, Action::Finish(Err(ScenarioError(msg))))
}

/// Finishes the scenario, passing with `detail`.
pub fn pass_with(detail: String) -> (r: (u8, Action))
    ensures
        finishes_with_detail(r, detail@),
{
    (DONE, Action::Finish(Ok(Some(detail))))
}

/// `a` connects with the mock downstream's own `SetupConnection` for the
/// protocol and flags appropriate for `app`.
pub open spec fn is_default_connect(a: Action, app: AppType) -> bool {
    a matches Action::Connect(ClientSetup::Defaults { protocol, flags })
        && protocol == protocol_of_code(served_protocol_code(app)) && flags == setup_flags(app)
}

/// `a` connects with the `SetupConnection` that `setup_connection` builds
/// for these arguments.
pub open spec fn is_custom_connect(
    a: Action,
    protocol: Protocol,
    min_version: u16,
    max_version: u16,
    flags: u32,
) -> bool {
    a matches Action::Connect(ClientSetup::Custom(s))
        && is_setup_connection(s, protocol, min_version, max_version, flags)
}

/// Connects with the protocol and flags appropriate for the endpoint's app
/// type.
pub fn default_connect(endpoint: &Endpoint) -> (a: Action)
    ensures
        is_default_connect(a, endpoint.app_type),
{
    Action::Connect(ClientSetup::Defaults {
        protocol: endpoint.app_type.protocol(),
        flags: endpoint.app_type.default_flags(),
    })
}

/// Handles an event outside the script of a scenario.
pub fn handle_off_script(event: Event) -> (r: (u8, Action))
    ensures
        off_script(event, r),
{
    match event {
        Event::Failed(e) => (DONE, Action::Finish(Err(e))),
        _ => fail(String::from_str("scenario driven out of order")),
    }
}

/// A registered scenario.
#[derive(Debug, Clone, Copy, PartialEq, Eq, Structural)]
pub enum Scenario {
    /// C-SCS-1
    FramedSetupConnectionResponse,
    /// C-SCS-2
    UsedVersionWithinRange,
    /// C-SC-7
    UnsupportedProtocolRejected,
    /// M-OSMCS-1
    OpenStandardRequestIdEcho,
    /// M-OEMCS-1
    OpenExtendedRequestIdEcho,
    /// M-OEMCS-3
    ExtranonceSizeAtLeastMin,
    /// M-NMJ-1
    FirstMessageAfterOpenIsJob,
}

/// The stable identifier of `s`: its catalog reference and a short name.
pub open spec fn scenario_id(s: Scenario) -> Seq<char> {
    match s {
        Scenario::FramedSetupConnectionResponse => "C-SCS-1 framed-setup-connection-response"@,
        Scenario::UsedVersionWithinRange => "C-SCS-2 used-version-within-range"@,
        Scenario::UnsupportedProtocolRejected => "C-SC-7 unsupported-protocol-rejected"@,
        Scenario::OpenStandardRequestIdEcho => "M-OSMCS-1 request-id-echo"@,
        Scenario::OpenExtendedRequestIdEcho => "M-OEMCS-1 request-id-echo"@,
        Scenario::ExtranonceSizeAtLeastMin => "M-OEMCS-3 extranonce-size-at-least-min"@,
        Scenario::FirstMessageAfterOpenIsJob => "M-NMJ-1 first-message-after-open-is-job"@,
    }
}

/// The catalog reference of `s` (`<PROTO>-<MSG>-<n>`).
pub open spec fn scenario_reference(s: Scenario) -> Seq<char> {
    match s {
        Scenario::FramedSetupConnectionResponse => "C-SCS-1"@,
        Scenario::UsedVersionWithinRange => "C-SCS-2"@,
        Scenario::UnsupportedProtocolRejected => "C-SC-7"@,
        Scenario::OpenStandardRequestIdEcho => "M-OSMCS-1"@,
        Scenario::OpenExtendedRequestIdEcho => "M-OEMCS-1"@,
        Scenario::ExtranonceSizeAtLeastMin => "M-OEMCS-3"@,
        Scenario::FirstMessageAfterOpenIsJob => "M-NMJ-1"@,
    }
}

/// The short name of `s`.
pub open spec fn scenario_name(s: Scenario) -> Seq<char> {
    match s {
        Scenario::FramedSetupConnectionResponse => "framed-setup-connection-response"@,
        Scenario::UsedVersionWithinRange => "used-version-within-range"@,
        Scenario::UnsupportedProtocolRejected => "unsupported-protocol-rejected"@,
        Scenario::OpenStandardRequestIdEcho => "request-id-echo"@,
        Scenario::OpenExtendedRequestIdEcho => "request-id-echo"@,
        Scenario::ExtranonceSizeAtLeastMin => "extranonce-size-at-least-min"@,
        Scenario::FirstMessageAfterOpenIsJob => "first-message-after-open-is-job"@,
    }
}

/// The protocol prefixes of catalog references: cross-cutting, common,
/// mining, job declaration, template distribution.
pub open spec fn is_protocol_prefix(p: Seq<char>) -> bool {
    p == "GEN"@ || p == "C"@ || p == "M"@ || p == "JD"@ || p == "TD"@
}

/// A non-empty run of upper-case ASCII letters.
pub open spec fn is_upper_word(w: Seq<char>) -> bool {
    w.len() > 0 && forall|i: int| 0 <= i < w.len() ==> 'A' <= #[trigger] w[i] <= 'Z'
}

/// A non-empty run of ASCII digits.
pub open spec fn is_number(w: Seq<char>) -> bool {
    w.len() > 0 && forall|i: int| 0 <= i < w.len() ==> '0' <= #[trigger] w[i] <= '9'
}

/// A non-empty run of lower-case ASCII letters and hyphens.
pub open spec fn is_slug(w: Seq<char>) -> bool {
    w.len() > 0 && forall|i: int| 0 <= i < w.len() ==> ('a' <= #[trigger] w[i] <= 'z' || w[i] == '-')
}

/// `r` reads `<PROTO>-<MSG>-<n>`.
pub open spec fn is_catalog_reference(r: Seq<char>) -> bool {
    exists|proto: Seq<char>, msg: Seq<char>, n: Seq<char>|
        #![trigger is_protocol_prefix(proto), is_upper_word(msg), is_number(n)]
        r == proto + "-"@ + msg + "-"@ + n && is_protocol_prefix(proto) && is_upper_word(msg) && is_number(n)
}

proof fn lemma_reference_parts(
    r: Seq<char>,
    proto: Seq<char>,
    msg: Seq<char>,
    n: Seq<char>,
)
    requires
        r =~= proto + "-"@ + msg + "-"@ + n,
        is_protocol_prefix(proto),
        is_upper_word(msg),
        is_number(n),
    ensures
        is_catalog_reference(r),
{
}

/// Scenario identifiers are stable catalog references: each reads
/// `<PROTO>-<MSG>-<n>`, a space, and a short name.
pub proof fn lemma_ids_are_catalog_references(s: Scenario)
    ensures
        scenario_id(s) == scenario_reference(s) + " "@ + scenario_name(s),
        is_catalog_reference(scenario_reference(s)),
        is_slug(scenario_name(s)),
{
    reveal_strlit(" ");
    reveal_strlit("-");
    reveal_strlit("C");
    reveal_strlit("M");
    match s {
        Scenario::FramedSetupConnectionResponse => {
            reveal_strlit("C-SCS-1 framed-setup-connection-response");
            reveal_strlit("C-SCS-1");
            reveal_strlit("framed-setup-connection-response");
            reveal_strlit("SCS");
            reveal_strlit("1");
            assert(scenario_id(s) =~= scenario_reference(s) + " "@ + scenario_name(s));
            lemma_reference_parts("C-SCS-1"@, "C"@, "SCS"@, "1"@);
        },
        Scenario::UsedVersionWithinRange => {
            reveal_strlit("C-SCS-2 used-version-within-range");
            reveal_strlit("C-SCS-2");
            reveal_strlit("used-version-within-range");
            reveal_strlit("SCS");
            reveal_strlit("2");
            assert(scenario_id(s) =~= scenario_reference(s) + " "@ + scenario_name(s));
            lemma_reference_parts("C-SCS-2"@, "C"@, "SCS"@, "2"@);
        },
        Scenario::UnsupportedProtocolRejected => {
            reveal_strlit("C-SC-7 unsupported-protocol-rejected");
            reveal_strlit("C-SC-7");
            reveal_strlit("unsupported-protocol-rejected");
            reveal_strlit("SC");
            reveal_strlit("7");
            assert(scenario_id(s) =~= scenario_reference(s) + " "@ + scenario_name(s));
            lemma_reference_parts("C-SC-7"@, "C"@, "SC"@, "7"@);
        },
        Scenario::OpenStandardRequestIdEcho => {
            reveal_strlit("M-OSMCS-1 request-id-echo");
            reveal_strlit("M-OSMCS-1");
            reveal_strlit("request-id-echo");
            reveal_strlit("OSMCS");
            reveal_strlit("1");
            assert(scenario_id(s) =~= scenario_reference(s) + " "@ + scenario_name(s));
            lemma_reference_parts("M-OSMCS-1"@, "M"@, "OSMCS"@, "1"@);
        },
        Scenario::OpenExtendedRequestIdEcho => {
            reveal_strlit("M-OEMCS-1 request-id-echo");
            reveal_strlit("M-OEMCS-1");
            reveal_strlit("request-id-echo");
            reveal_strlit("OEMCS");
            reveal_strlit("1");
            assert(scenario_id(s) =~= scenario_reference(s) + " "@ + scenario_name(s));
            lemma_reference_parts("M-OEMCS-1"@, "M"@, "OEMCS"@, "1"@);
        },
        Scenario::ExtranonceSizeAtLeastMin => {
            reveal_strlit("M-OEMCS-3 extranonce-size-at-least-min");
            reveal_strlit("M-OEMCS-3");
            reveal_strlit("extranonce-size-at-least-min");
            reveal_strlit("OEMCS");
            reveal_strlit("3");
            assert(scenario_id(s) =~= scenario_reference(s) + " "@ + scenario_name(s));
            lemma_reference_parts("M-OEMCS-3"@, "M"@, "OEMCS"@, "3"@);
        },
        Scenario::FirstMessageAfterOpenIsJob => {
            reveal_strlit("M-NMJ-1 first-message-after-open-is-job");
            reveal_strlit("M-NMJ-1");
            reveal_strlit("first-message-after-open-is-job");
            reveal_strlit("NMJ");
            reveal_strlit("1");
            assert(scenario_id(s) =~= scenario_reference(s) + " "@ + scenario_name(s));
            lemma_reference_parts("M-NMJ-1"@, "M"@, "NMJ"@, "1"@);
        },
    }
}

/// The script of `s`: what it does after `event` at `stage`.
pub open spec fn scenario_transition(
    s: Scenario,
    endpoint: Endpoint,
    stage: u8,
    event: Event,
    r: (u8, Action),
) -> bool {
    match s {
        Scenario::FramedSetupConnectionResponse =>
            common::setup_connection::framed_setup_connection_response_transition(endpoint, stage, event, r),
        Scenario::UsedVersionWithinRange =>
            common::setup_connection::used_version_within_range_transition(endpoint, stage, event, r),
        Scenario::UnsupportedProtocolRejected =>
            common::setup_connection::unsupported_protocol_rejected_transition(endpoint, stage, event, r),
        Scenario::OpenStandardRequestIdEcho =>
            mining::open_standard_mining_channel::request_id_echo_transition(endpoint, stage, event, r),
        Scenario::OpenExtendedRequestIdEcho =>
            mining::open_extended_mining_channel::request_id_echo_transition(endpoint, stage, event, r),
        Scenario::ExtranonceSizeAtLeastMin =>
            mining::open_extended_mining_channel::extranonce_size_at_least_min_transition(
                endpoint,
                stage,
                event,
                r,
            ),
        Scenario::FirstMessageAfterOpenIsJob =>
            mining::new_mining_job::first_message_after_open_is_job_transition(endpoint, stage, event, r),
    }
}

impl Scenario {
    /// The stable identifier of this scenario.
    pub fn id(&self) -> (id: &'static str)
        ensures
            id@ == scenario_id(*self),
    {
        match self {
            Scenario::FramedSetupConnectionResponse => "C-SCS-1 framed-setup-connection-response",
            Scenario::UsedVersionWithinRange => "C-SCS-2 used-version-within-range",
            Scenario::UnsupportedProtocolRejected => "C-SC-7 unsupported-protocol-rejected",
            Scenario::OpenStandardRequestIdEcho => "M-OSMCS-1 request-id-echo",
            Scenario::OpenExtendedRequestIdEcho => "M-OEMCS-1 request-id-echo",
            Scenario::ExtranonceSizeAtLeastMin => "M-OEMCS-3 extranonce-size-at-least-min",
            Scenario::FirstMessageAfterOpenIsJob => "M-NMJ-1 first-message-after-open-is-job",
        }
    }

    /// Runs this scenario one step: what it asks of its client after
    /// `event` at `stage`. A run starts at stage 0 with `Event::Start` and
    /// ends with `Action::Finish`.
    pub fn step(&self, endpoint: &Endpoint, stage: u8, event: Event) -> (r: (u8, Action))
        requires
            event.well_formed(),
        ensures
            scenario_transition(*self, *endpoint, stage, event, r),
    {
        match self {
            Scenario::FramedSetupConnectionResponse =>
                common::setup_connection::framed_setup_connection_response(endpoint, stage, event),
            Scenario::UsedVersionWithinRange =>
                common::setup_connection::used_version_within_range(endpoint, stage, event),
            Scenario::UnsupportedProtocolRejected =>
                common::setup_connection::unsupported_protocol_rejected(endpoint, stage, event),
            Scenario::OpenStandardRequestIdEcho =>
                mining::open_standard_mining_channel::request_id_echo(endpoint, stage, event),
            Scenario::OpenExtendedRequestIdEcho =>
                mining::open_extended_mining_channel::request_id_echo(endpoint, stage, event),
            Scenario::ExtranonceSizeAtLeastMin => mining::open_extended_mining_channel::extranonce_size_at_least_min(
                endpoint,
                stage,
                event,
            ),
            Scenario::FirstMessageAfterOpenIsJob =>
                mining::new_mining_job::first_message_after_open_is_job(endpoint, stage, event),
        }
    }
}

/// The stage a run of steps is at before step `k`.
pub open spec fn stage_before(steps: Seq<(u8, Action)>, k: int) -> u8 {
    if k == 0 {
        0
    } else {
        steps[k - 1].0
    }
}

/// `steps` is a run of `s` against `endpoint` driven by `events`: the run
/// starts at stage 0 with `Event::Start`, and step `k` answers `events[k]`
/// at the stage the step before it reached.
pub open spec fn is_run(s: Scenario, endpoint: Endpoint, events: Seq<Event>, steps: Seq<(u8, Action)>) -> bool {
    &&& events.len() == steps.len()
    &&& events.len() > 0
    &&& events[0] is Start
    &&& forall|k: int|
        0 <= k < steps.len() ==> #[trigger] scenario_transition(s, endpoint, stage_before(steps, k), events[k], steps[k])
}

/// The reply of the endpoint that lets `s` pass, as its last event.
pub open spec fn compliant_reply(s: Scenario, e: Event) -> bool {
    match s {
        Scenario::FramedSetupConnectionResponse => e matches Event::Received(m)
            && m.msg_type == MESSAGE_TYPE_SETUP_CONNECTION_SUCCESS && m.body is SetupConnectionSuccess,
        Scenario::UsedVersionWithinRange => e matches Event::Received(m) && m.body is SetupConnectionError,
        Scenario::UnsupportedProtocolRejected => e matches Event::Received(m) && m.body is SetupConnectionError,
        Scenario::OpenStandardRequestIdEcho => e matches Event::Received(m) && (
        m.body matches MessageBody::OpenStandardMiningChannelSuccess { request_id, .. } && request_id == 1),
        Scenario::OpenExtendedRequestIdEcho => e matches Event::Received(m) && (
        m.body matches MessageBody::OpenExtendedMiningChannelSuccess { request_id, .. } && request_id == 1),
        Scenario::ExtranonceSizeAtLeastMin => e matches Event::Received(m) && (
        (m.body matches MessageBody::OpenExtendedMiningChannelSuccess { extranonce_size, .. }
            && extranonce_size >= 4) || m.body is OpenMiningChannelError),
        Scenario::FirstMessageAfterOpenIsJob => e matches Event::Received(m) && m.msg_type
            == MESSAGE_TYPE_NEW_MINING_JOB,
    }
}

/// A scenario passes only on a compliant reply of the endpoint: the run's
/// last event is the reply the scenario checks for.
pub proof fn lemma_passes_only_on_compliant_reply(
    s: Scenario,
    endpoint: Endpoint,
    events: Seq<Event>,
    steps: Seq<(u8, Action)>,
)
    requires
        is_run(s, endpoint, events, steps),
        steps.last().1 matches Action::Finish(Ok(_)),
    ensures
        compliant_reply(s, events.last()),
{
    let k = steps.len() - 1;
    assert(scenario_transition(s, endpoint, stage_before(steps, k), events[k], steps[k]));
}

/// A scenario starts by opening a connection to the endpoint.
pub proof fn lemma_scenarios_start_by_connecting(
    s: Scenario,
    endpoint: Endpoint,
    r: (u8, Action),
)
    requires
        scenario_transition(s, endpoint, 0, Event::Start, r),
    ensures
        r.0 == 1,
        r.1 is Connect,
{
}

/// A client operation that fails fails the scenario with its error, at
/// any stage.
pub proof fn lemma_client_failure_fails_scenario(
    s: Scenario,
    endpoint: Endpoint,
    stage: u8,
    e: ScenarioError,
    r: (u8, Action),
)
    requires
        scenario_transition(s, endpoint, stage, Event::Failed(e), r),
    ensures
        finishes_with_error(r, e@),
{
}

// ---------------------------------------------------------------------------
// Suites — named groups of scenarios applicable to a given app type.
//
// Each suite composes entry groups from submodules.  The submodule
// structure mirrors the scenario catalog:
//
//   common/    — Common Protocol Messages (§3.6)
//   mining/    — Mining Protocol Messages (§5.3)
// ---------------------------------------------------------------------------

/// The Solo Pool suite: the Common scenarios, then the Mining ones.
pub open spec fn solo_pool_spec() -> Seq<Scenario> {
    common::setup_connection::entries_spec() + mining::open_standard_mining_channel::entries_spec()
        + mining::open_extended_mining_channel::entries_spec() + mining::new_mining_job::entries_spec()
}

/// Solo Pool suite: all Common + Mining Protocol scenarios.
pub fn solo_pool() -> (v: Vec<Scenario>)
    ensures
        v@ == solo_pool_spec(),
{
    let mut v = common::setup_connection::entries();
    let mut standard = mining::open_standard_mining_channel::entries();
    v.append(&mut standard);
    let mut extended = mining::open_extended_mining_channel::entries();
    v.append(&mut extended);
    let mut job = mining::new_mining_job::entries();
    v.append(&mut job);
    v
}

/// Scenarios are registered once: no two scenarios of the suite share an
/// identifier.
pub proof fn lemma_registered_once()
    ensures
        forall|i: int, j: int|
            0 <= i < solo_pool_spec().len() && 0 <= j < solo_pool_spec().len() && i != j
                ==> scenario_id(#[trigger] solo_pool_spec()[i]) != scenario_id(#[trigger] solo_pool_spec()[j]),
{
    reveal_strlit("C-SCS-1 framed-setup-connection-response");
    reveal_strlit("C-SCS-2 used-version-within-range");
    reveal_strlit("C-SC-7 unsupported-protocol-rejected");
    reveal_strlit("M-OSMCS-1 request-id-echo");
    reveal_strlit("M-OEMCS-1 request-id-echo");
    reveal_strlit("M-OEMCS-3 extranonce-size-at-least-min");
    reveal_strlit("M-NMJ-1 first-message-after-open-is-job");
    let suite = solo_pool_spec();
    assert(suite =~= seq![
        Scenario::FramedSetupConnectionResponse,
        Scenario::UsedVersionWithinRange,
        Scenario::UnsupportedProtocolRejected,
        Scenario::OpenStandardRequestIdEcho,
        Scenario::OpenExtendedRequestIdEcho,
        Scenario::ExtranonceSizeAtLeastMin,
        Scenario::FirstMessageAfterOpenIsJob,
    ]);
    assert(scenario_id(Scenario::OpenStandardRequestIdEcho)[3] != scenario_id(
        Scenario::OpenExtendedRequestIdEcho,
    )[3]);
    assert forall|i: int, j: int|
        0 <= i < suite.len() && 0 <= j < suite.len() && i != j implies scenario_id(
        #[trigger] suite[i],
    ) != scenario_id(#[trigger] suite[j]) by {
        if scenario_id(suite[i]) == scenario_id(suite[j]) {
            assert(scenario_id(suite[i]).len() == scenario_id(suite[j]).len());
            assert(scenario_id(suite[i])[3] == scenario_id(suite[j])[3]);
        }
    }
}

/// The Solo Pool suite holds every scenario, seven in all: the Common
/// ones (C-SCS-1, C-SCS-2, C-SC-7) first, then the Mining ones.
pub proof fn lemma_solo_pool_covers_every_scenario(s: Scenario)
    ensures
        solo_pool_spec().len() == 7,
        solo_pool_spec().contains(s),
        solo_pool_spec()[0] == Scenario::FramedSetupConnectionResponse,
        solo_pool_spec()[1] == Scenario::UsedVersionWithinRange,
        solo_pool_spec()[2] == Scenario::UnsupportedProtocolRejected,
{
    let suite = solo_pool_spec();
    assert(suite =~= seq![
        Scenario::FramedSetupConnectionResponse,
        Scenario::UsedVersionWithinRange,
        Scenario::UnsupportedProtocolRejected,
        Scenario::OpenStandardRequestIdEcho,
        Scenario::OpenExtendedRequestIdEcho,
        Scenario::ExtranonceSizeAtLeastMin,
        Scenario::FirstMessageAfterOpenIsJob,
    ]);
    let i: int = match s {
        Scenario::FramedSetupConnectionResponse => 0,
        Scenario::UsedVersionWithinRange => 1,
        Scenario::UnsupportedProtocolRejected => 2,
        Scenario::OpenStandardRequestIdEcho => 3,
        Scenario::OpenExtendedRequestIdEcho => 4,
        Scenario::ExtranonceSizeAtLeastMin => 5,
        Scenario::FirstMessageAfterOpenIsJob => 6,
    };
    assert(suite[i] == s);
}

/// Every registered scenario.
pub fn all() -> (v: Vec<Scenario>)
    ensures
        v@ == solo_pool_spec(),
{
    solo_pool()
}

} // verus!
