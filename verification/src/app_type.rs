use vstd::prelude::*;

use stratum_apps::stratum_core::common_messages_sv2::Protocol;

verus! {

#[verifier::external_type_specification]
#[verifier::external_body]
pub struct ExProtocol(Protocol);

/// The `Protocol` value that `Protocol::try_from(code)` gives for a
/// discriminant `code` of the Sv2 sub-protocols (0, 1 or 2).
pub uninterp spec fn protocol_of_code(code: u8) -> Protocol;

/// Calls `<Protocol as TryFrom<u8>>::try_from` of `common_messages_sv2`.
/// Its source maps 0, 1 and 2 to the three distinct variants
/// `MiningProtocol`, `JobDeclarationProtocol` and
/// `TemplateDistributionProtocol`, and rejects every other byte; the
/// contract claims that the result is the value named for `code` and that
/// different discriminants give different variants.
#[verifier::external_body]
fn protocol_from_code(code: u8) -> (p: Protocol)
    requires
        code <= 2,
    ensures
        p == protocol_of_code(code),
        forall|other: u8| other <= 2 && other != code ==> protocol_of_code(other) != p,
{
    Protocol::try_from(code).unwrap()
}

/// The type of Sv2 application under test.
#[derive(Debug, Clone, Copy, PartialEq, Eq, Structural)]
pub enum AppType {
    SoloPool,
    Pool,
    JobDeclaratorServer,
    TemplateProvider,
}

/// Discriminant of the mining sub-protocol in `SetupConnection.protocol`.
pub const MINING_PROTOCOL: u8 = 0;
/// Discriminant of the job declaration sub-protocol.
pub const JOB_DECLARATION_PROTOCOL: u8 = 1;
/// Discriminant of the template distribution sub-protocol.
pub const TEMPLATE_DISTRIBUTION_PROTOCOL: u8 = 2;

/// `SetupConnection` flag that a Job Declarator Server requires
/// (DECLARE_TX_DATA).
pub const DECLARE_TX_DATA: u32 = 0b0001;

/// The sub-protocol a well-behaved client speaks to `app`.
pub open spec fn served_protocol_code(app: AppType) -> u8 {
    match app {
        AppType::SoloPool | AppType::Pool => MINING_PROTOCOL,
        AppType::JobDeclaratorServer => JOB_DECLARATION_PROTOCOL,
        AppType::TemplateProvider => TEMPLATE_DISTRIBUTION_PROTOCOL,
    }
}

/// A sub-protocol `app` is expected to reject.
pub open spec fn rejected_protocol_code(app: AppType) -> u8 {
    match app {
        AppType::SoloPool | AppType::Pool => TEMPLATE_DISTRIBUTION_PROTOCOL,
        AppType::JobDeclaratorServer => TEMPLATE_DISTRIBUTION_PROTOCOL,
        AppType::TemplateProvider => MINING_PROTOCOL,
    }
}

/// The flags a well-behaved client sets on `SetupConnection` for `app`.
pub open spec fn setup_flags(app: AppType) -> u32 {
    match app {
        AppType::JobDeclaratorServer => DECLARE_TX_DATA,
        _ => 0,
    }
}

impl AppType {
    /// The sub-protocol a well-behaved client speaks to this app type.
    pub fn protocol(&self) -> (p: Protocol)
        ensures
            p == protocol_of_code(served_protocol_code(*self)),
            forall|o: AppType|
                served_protocol_code(o) != served_protocol_code(*self) ==> protocol_of_code(
                    #[trigger] served_protocol_code(o),
                ) != p,
    {
        match self {
            AppType::SoloPool | AppType::Pool => protocol_from_code(MINING_PROTOCOL),
            AppType::JobDeclaratorServer => protocol_from_code(JOB_DECLARATION_PROTOCOL),
            AppType::TemplateProvider => protocol_from_code(TEMPLATE_DISTRIBUTION_PROTOCOL),
        }
    }

    /// The flags a well-behaved client sets on `SetupConnection` for this app type.
    pub fn default_flags(&self) -> (flags: u32)
        ensures
            flags == setup_flags(*self),
    {
        match self {
            AppType::SoloPool | AppType::Pool => 0,
            // DECLARE_TX_DATA is required by the JDS.
            AppType::JobDeclaratorServer => DECLARE_TX_DATA,
            AppType::TemplateProvider => 0,
        }
    }

    /// A sub-protocol this app type is expected to reject.
    pub fn wrong_protocol(&self) -> (p: Protocol)
        ensures
            p == protocol_of_code(rejected_protocol_code(*self)),
            p != self.protocol_spec(),
    {
        let p = match self {
            AppType::SoloPool | AppType::Pool => protocol_from_code(TEMPLATE_DISTRIBUTION_PROTOCOL),
            AppType::JobDeclaratorServer => protocol_from_code(TEMPLATE_DISTRIBUTION_PROTOCOL),
            AppType::TemplateProvider => protocol_from_code(MINING_PROTOCOL),
        };
        p
    }

    /// The value `protocol` returns, as a spec expression.
    pub open spec fn protocol_spec(&self) -> Protocol {
        protocol_of_code(served_protocol_code(*self))
    }
}

/// App types served over the same sub-protocol get the same
/// `SetupConnection` flags: flag bits are defined per sub-protocol. With
/// `AppType::protocol`'s contract (different discriminants give different
/// protocols), equal protocols mean equal flags.
pub proof fn lemma_flags_follow_protocol(a: AppType, b: AppType)
    requires
        served_protocol_code(a) == served_protocol_code(b),
    ensures
        setup_flags(a) == setup_flags(b),
{
}

/// Solo pools and pools speak the same sub-protocol (mining); the Job
/// Declarator Server and the Template Provider each speak their own, and
/// the three differ.
pub proof fn lemma_sub_protocols_of_app_types()
    ensures
        served_protocol_code(AppType::SoloPool) == served_protocol_code(AppType::Pool),
        served_protocol_code(AppType::SoloPool) != served_protocol_code(AppType::JobDeclaratorServer),
        served_protocol_code(AppType::SoloPool) != served_protocol_code(AppType::TemplateProvider),
        served_protocol_code(AppType::JobDeclaratorServer) != served_protocol_code(AppType::TemplateProvider),
{
}

/// The Job Declarator Server is asked for DECLARE_TX_DATA (bit 0); a
/// client of a pool or a Template Provider sets no flag.
pub proof fn lemma_jds_requires_declare_tx_data()
    ensures
        setup_flags(AppType::JobDeclaratorServer) % 2 == 1,
        setup_flags(AppType::SoloPool) == 0,
        setup_flags(AppType::Pool) == 0,
        setup_flags(AppType::TemplateProvider) == 0,
{
}

/// Every app type is asked to reject a sub-protocol other than the one it
/// serves.
pub proof fn lemma_rejected_protocol_differs(app: AppType)
    ensures
        rejected_protocol_code(app) != served_protocol_code(app),
        served_protocol_code(app) <= 2,
        rejected_protocol_code(app) <= 2,
{
}

} // verus!
