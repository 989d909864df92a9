//! The bootstrap plan: everything the supervisor decides before it
//! starts the engine and launches the auxiliary services.  The caller
//! performs the outside work — loading the key, probing the local
//! address, starting the engine, binding the responder — and this
//! module makes every decision in between.

use vstd::prelude::*;
use vstd::utf8::encode_utf8;

use crate::addr::{ListenConfig, ProbedAddr};
use crate::filter::{decide, decide_spec, FilterDecision, FilterReason};
use crate::record::{build, key_accepted, NodeIdentity, NodeRecord, RecordBuildError};
use crate::responder::{render_text_response, response_bytes};

verus! {

/// The non-fatal configuration findings the supervisor reports before
/// it goes on with the safer default.
#[derive(Clone, Copy, Debug, PartialEq, Eq)]
pub enum ConfigWarning {
    /// The record declares no endpoint, so it cannot be meaningfully
    /// advertised.
    RecordNotAdvertisable,
    /// A trusted range is configured but the local address lies outside
    /// it; the filter stays disabled.
    CidrLocalMismatch,
    /// A trusted range is configured but the local address is not IPv4;
    /// the filter stays disabled.
    CidrNotIpv4,
}

/// The warnings a configuration and a filter decision give rise to, in
/// the order they are reported.
pub open spec fn warnings_spec(cfg: ListenConfig, d: FilterDecision) -> Seq<ConfigWarning> {
    (if cfg.endpoint is None {
        seq![ConfigWarning::RecordNotAdvertisable]
    } else {
        Seq::empty()
    }) + (if d.reason is LocalOutOfRange {
        seq![ConfigWarning::CidrLocalMismatch]
    } else {
        Seq::empty()
    }) + (if d.reason is LocalNotIpv4 {
        seq![ConfigWarning::CidrNotIpv4]
    } else {
        Seq::empty()
    })
}

/// Everything decided at bootstrap: the signed record, the filter
/// decision folded into the engine configuration, the warnings to log,
/// and the fixed response the record responder serves.
pub struct BootstrapPlan {
    pub record: NodeRecord,
    pub filter: FilterDecision,
    pub warnings: Vec<ConfigWarning>,
    pub response: Vec<u8>,
}

/// Make every bootstrap decision from plain inputs: build the signed
/// record, decide the trusted-source filter from the probed local
/// address (probed exactly when a range is configured), collect the
/// configuration warnings, and render the responder's fixed payload.
/// Fails only where record construction fails; a failure leaves nothing
/// started.
pub fn plan_bootstrap(
    identity: &NodeIdentity,
    cfg: &ListenConfig,
    probed: &Option<ProbedAddr>,
) -> (r: Result<BootstrapPlan, RecordBuildError>)
    requires
        identity.wf(),
        cfg.cidr matches Some(c) ==> c.wf(),
        probed is Some <==> cfg.cidr is Some,
    ensures
        identity.spec_scheme() is Ed25519 ==> r is Ok,
        r is Ok ==> key_accepted(*identity),
        r matches Err(e) ==> !(e is WrongKeyLength) && (e is KeyRejected <==> !key_accepted(
            *identity,
        )),
        r matches Ok(p) ==> ({
            &&& p.record.wf()
            &&& p.record.spec_scheme() == identity.spec_scheme()
            &&& p.record.spec_secret() == identity.spec_secret()
            &&& p.record.spec_endpoint() == cfg.endpoint
            &&& p.filter == (match *probed {
                Some(a) => decide_spec(cfg.cidr, a),
                None => FilterDecision {
                    enabled: false,
                    admitted: None,
                    reason: FilterReason::NoRange,
                },
            })
            &&& p.warnings@ == warnings_spec(*cfg, p.filter)
            &&& p.response@ == response_bytes(encode_utf8(p.record.spec_base64()))
        }),
{
    let record = match build(identity, cfg) {
        Ok(rec) => rec,
        Err(e) => {
            return Err(e);
        },
    };
    let filter = match probed {
        Some(a) => decide(&cfg.cidr, a),
        None => FilterDecision { enabled: false, admitted: None, reason: FilterReason::NoRange },
    };
    let mut warnings: Vec<ConfigWarning> = Vec::new();
    if record.endpoint().is_none() {
        warnings.push(ConfigWarning::RecordNotAdvertisable);
    }
    match filter.reason {
        FilterReason::LocalOutOfRange => {
            warnings.push(ConfigWarning::CidrLocalMismatch);
        },
        FilterReason::LocalNotIpv4 => {
            warnings.push(ConfigWarning::CidrNotIpv4);
        },
        _ => {},
    }
    proof {
        assert(warnings@ =~= warnings_spec(*cfg, filter));
    }
    let response = render_text_response(record.base64_text().as_str());
    Ok(BootstrapPlan { record, filter, warnings, response })
}

} // verus!
