//! The trusted-source address filter: given the configured range and the
//! probed local address, decides whether automatic routing-table
//! admission from that range is switched on.

use vstd::prelude::*;

use crate::addr::{Cidr, Ipv4, ProbedAddr};

verus! {

/// Why the filter came out enabled or disabled.
#[derive(Clone, Copy, Debug, PartialEq, Eq)]
pub enum FilterReason {
    /// No range was configured: nothing to restrict.
    NoRange,
    /// The local address lies in the configured range.
    LocalInRange,
    /// The local address lies outside the configured range; very likely
    /// an operator misconfiguration, reported as a warning.
    LocalOutOfRange,
    /// The local address is not IPv4; the range feature does not apply.
    LocalNotIpv4,
}

/// The filter's outcome.  `admitted` carries the range into the engine
/// configuration exactly when the filter is enabled.
#[derive(Clone, Copy, Debug, PartialEq, Eq)]
pub struct FilterDecision {
    pub enabled: bool,
    pub admitted: Option<Cidr>,
    pub reason: FilterReason,
}

/// The filter's whole behaviour: enabled exactly when a range is
/// configured and the probed local address is an IPv4 address inside it.
pub open spec fn decide_spec(range: Option<Cidr>, local: ProbedAddr) -> FilterDecision {
    match range {
        None => FilterDecision { enabled: false, admitted: None, reason: FilterReason::NoRange },
        Some(r) => match local {
            ProbedAddr::V4(a) => if r.contains_spec(a) {
                FilterDecision { enabled: true, admitted: Some(r), reason: FilterReason::LocalInRange }
            } else {
                FilterDecision {
                    enabled: false,
                    admitted: None,
                    reason: FilterReason::LocalOutOfRange,
                }
            },
            ProbedAddr::V6 => FilterDecision {
                enabled: false,
                admitted: None,
                reason: FilterReason::LocalNotIpv4,
            },
        },
    }
}

/// Decide whether automatic table admission is restricted to `range`.
pub fn decide(range: &Option<Cidr>, local: &ProbedAddr) -> (d: FilterDecision)
    requires
        range matches Some(r) ==> r.wf(),
    ensures
        d == decide_spec(*range, *local),
        d.enabled <==> (range matches Some(r) && *local matches ProbedAddr::V4(a)
            && r.contains_spec(a)),
        d.admitted == (if d.enabled {
            *range
        } else {
            None::<Cidr>
        }),
{
    match range {
        None => FilterDecision { enabled: false, admitted: None, reason: FilterReason::NoRange },
        Some(r) => match local {
            ProbedAddr::V4(a) => {
                if r.contains(a) {
                    FilterDecision {
                        enabled: true,
                        admitted: Some(*r),
                        reason: FilterReason::LocalInRange,
                    }
                } else {
                    FilterDecision {
                        enabled: false,
                        admitted: None,
                        reason: FilterReason::LocalOutOfRange,
                    }
                }
            },
            ProbedAddr::V6 => FilterDecision {
                enabled: false,
                admitted: None,
                reason: FilterReason::LocalNotIpv4,
            },
        },
    }
}

} // verus!
