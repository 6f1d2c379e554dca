use vstd::prelude::*;
use crate::scope::JobVerificationTask;

verus! {

/// Seconds between two queries of the operator's discovery endpoint.
pub const RESOLVE_RETRY_SECS: u64 = 10;

/// The most discovery queries made for one job; with the retry interval this
/// bounds the wait for an address to about five minutes.
pub const RESOLVE_MAX_ATTEMPTS: u32 = 30;

/// The message of a resolution that ran out of attempts with no address.
pub const NO_ADDRESS_YET: &'static str = "no address reported by the discovery endpoint";

/// The path and first query parameter of the discovery endpoint, after the
/// control-plane URL.
pub const DISCOVERY_PATH: &'static str = "/ip?id=";

/// The query parameter that names the job's region.
pub const REGION_PARAM: &'static str = "&region=";

/// The discovery URL for a task: its control-plane URL, the discovery path, the
/// job id and the region.
pub open spec fn discovery_url_of(t: JobVerificationTask) -> Seq<char> {
    t.control_plane_url@ + DISCOVERY_PATH@ + t.job@ + REGION_PARAM@ + t.region@
}

/// The URL that asks the task's operator for the job's address.
pub fn discovery_url(t: &JobVerificationTask) -> (r: String)
    ensures
        r@ == discovery_url_of(*t),
{
    let mut s = t.control_plane_url.clone();
    s.append(DISCOVERY_PATH);
    s.append(t.job.as_str());
    s.append(REGION_PARAM);
    s.append(t.region.as_str());
    s
}

/// What one query of the discovery endpoint returned.
#[derive(Clone, Debug)]
pub enum DiscoveryReply {
    /// The endpoint reported this address.
    Address(String),
    /// The endpoint answered, without an address yet.
    NotYet,
    /// The query failed; the reason.
    Failed(String),
}

/// What the resolver does after a query.
#[derive(Clone, Debug)]
pub enum ResolveStep {
    /// The address is known.
    Found(String),
    /// Query again after this many seconds.
    RetryAfter { secs: u64 },
    /// Stop: no address within the allowed attempts; the reason.
    GiveUp(String),
}

/// The text of a resolver step.
pub enum ResolveStepModel {
    Found(Seq<char>),
    RetryAfter { secs: u64 },
    GiveUp(Seq<char>),
}

impl View for ResolveStep {
    type V = ResolveStepModel;

    open spec fn view(&self) -> ResolveStepModel {
        match self {
            ResolveStep::Found(a) => ResolveStepModel::Found(a@),
            ResolveStep::RetryAfter { secs } => ResolveStepModel::RetryAfter { secs: *secs },
            ResolveStep::GiveUp(m) => ResolveStepModel::GiveUp(m@),
        }
    }
}

/// The reason to give up with after a reply that carried no address.
pub open spec fn failure_reason(reply: DiscoveryReply) -> Seq<char> {
    match reply {
        DiscoveryReply::Failed(m) => m@,
        _ => NO_ADDRESS_YET@,
    }
}

/// The retry policy of address resolution: a fixed interval between queries and
/// a fixed ceiling on their number.
#[derive(Clone, Copy, Debug)]
pub struct Resolution {
    /// Queries made so far.
    pub attempts: u32,
}

impl Resolution {
    /// A resolution that has made no query yet.
    pub fn new() -> (r: Resolution)
        ensures
            r.attempts == 0,
    {
        Resolution { attempts: 0 }
    }

    /// Takes the reply to one more query: a non-empty address ends the
    /// resolution; otherwise it retries after the interval while fewer than
    /// the allowed attempts were made, and gives up with the reason after that.
    pub fn after_reply(&mut self, reply: DiscoveryReply) -> (r: ResolveStep)
        ensures
            final(self).attempts == if old(self).attempts < RESOLVE_MAX_ATTEMPTS {
                old(self).attempts + 1
            } else {
                old(self).attempts as int
            },
            match reply {
                DiscoveryReply::Address(a) if a@.len() > 0 => r@ == ResolveStepModel::Found(a@),
                _ => if final(self).attempts < RESOLVE_MAX_ATTEMPTS {
                    r@ == ResolveStepModel::RetryAfter { secs: RESOLVE_RETRY_SECS }
                } else {
                    r@ == ResolveStepModel::GiveUp(failure_reason(reply))
                },
            },
    {
        if self.attempts < RESOLVE_MAX_ATTEMPTS {
            self.attempts = self.attempts + 1;
        }
        match reply {
            DiscoveryReply::Address(a) => {
                if a.as_str().unicode_len() > 0 {
                    ResolveStep::Found(a)
                } else if self.attempts < RESOLVE_MAX_ATTEMPTS {
                    ResolveStep::RetryAfter { secs: RESOLVE_RETRY_SECS }
                } else {
                    ResolveStep::GiveUp(String::from_str(NO_ADDRESS_YET))
                }
            },
            DiscoveryReply::NotYet => {
                if self.attempts < RESOLVE_MAX_ATTEMPTS {
                    ResolveStep::RetryAfter { secs: RESOLVE_RETRY_SECS }
                } else {
                    ResolveStep::GiveUp(String::from_str(NO_ADDRESS_YET))
                }
            },
            DiscoveryReply::Failed(m) => {
                if self.attempts < RESOLVE_MAX_ATTEMPTS {
                    ResolveStep::RetryAfter { secs: RESOLVE_RETRY_SECS }
                } else {
                    ResolveStep::GiveUp(m)
                }
            },
        }
    }
}

} // verus!
