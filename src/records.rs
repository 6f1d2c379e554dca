use vstd::prelude::*;

verus! {

/// The address recorded for a job whose address was never resolved.
pub const UNKNOWN_ADDRESS: &'static str = "unknown";

/// The two kinds of failure record, one table each.
#[derive(Clone, Copy, Debug, PartialEq, Eq, Structural)]
pub enum FailureKind {
    /// Address resolution or the reachability probe failed.
    Reachability,
    /// The operator's refresh endpoint did not report a usable address.
    Endpoint,
}

/// A failure found by a verification worker, before it is time-stamped.
#[derive(Clone, Debug)]
pub struct FailureReport {
    pub kind: FailureKind,
    pub job: String,
    pub operator: String,
    pub ip: String,
    pub error: String,
}

/// The text of a failure report.
pub struct ReportModel {
    pub kind: FailureKind,
    pub job: Seq<char>,
    pub operator: Seq<char>,
    pub ip: Seq<char>,
    pub error: Seq<char>,
}

impl View for FailureReport {
    type V = ReportModel;

    open spec fn view(&self) -> ReportModel {
        ReportModel {
            kind: self.kind,
            job: self.job@,
            operator: self.operator@,
            ip: self.ip@,
            error: self.error@,
        }
    }
}

/// A stored reachability failure, with the row id that the store assigned.
#[derive(Clone, Debug)]
pub struct ReachabilityError {
    pub id: i32,
    pub job: String,
    pub operator: String,
    pub ip: String,
    pub error: String,
    pub timestamp: i64,
}

/// A reachability failure ready to be stored.
#[derive(Clone, Debug)]
pub struct NewReachabilityError {
    pub job: String,
    pub operator: String,
    pub ip: String,
    pub error: String,
    pub timestamp: i64,
}

/// A stored endpoint failure, with the row id that the store assigned.
#[derive(Clone, Debug)]
pub struct OperatorEndpointError {
    pub id: i32,
    pub job: String,
    pub operator: String,
    pub ip: String,
    pub error: String,
    pub timestamp: i64,
}

/// An endpoint failure ready to be stored.
#[derive(Clone, Debug)]
pub struct NewOperatorEndpointError {
    pub job: String,
    pub operator: String,
    pub ip: String,
    pub error: String,
    pub timestamp: i64,
}

/// Relies on std::time::SystemTime::now and duration_since(UNIX_EPOCH): whole
/// seconds since the Unix epoch, `None` when the clock reads before it.
#[verifier::external_body]
fn secs_since_epoch() -> (r: Option<u64>) {
    match std::time::SystemTime::now().duration_since(std::time::UNIX_EPOCH) {
        Ok(d) => Some(d.as_secs()),
        Err(_) => None,
    }
}

/// A time stamp in seconds from a clock reading: the reading itself where it
/// fits an `i64`, the largest `i64` above that, and 0 for a clock before the epoch.
pub open spec fn stamp_of(secs: Option<u64>) -> i64 {
    match secs {
        Some(s) => if s <= i64::MAX {
            s as i64
        } else {
            i64::MAX
        },
        None => 0,
    }
}

/// Converts a clock reading to a time stamp (see `stamp_of`).
pub fn stamp(secs: Option<u64>) -> (r: i64)
    ensures
        r == stamp_of(secs),
        r >= 0,
{
    match secs {
        Some(s) => if s <= i64::MAX as u64 {
            s as i64
        } else {
            i64::MAX
        },
        None => 0,
    }
}

impl NewReachabilityError {
    /// A record with the given fields, stamped with the current time.
    pub fn new(job: String, operator: String, ip: String, error: String) -> (r: Self)
        ensures
            r.job == job,
            r.operator == operator,
            r.ip == ip,
            r.error == error,
            r.timestamp >= 0,
    {
        let timestamp = stamp(secs_since_epoch());
        NewReachabilityError { job, operator, ip, error, timestamp }
    }
}

impl NewOperatorEndpointError {
    /// A record with the given fields, stamped with the current time.
    pub fn new(job: String, operator: String, ip: String, error: String) -> (r: Self)
        ensures
            r.job == job,
            r.operator == operator,
            r.ip == ip,
            r.error == error,
            r.timestamp >= 0,
    {
        let timestamp = stamp(secs_since_epoch());
        NewOperatorEndpointError { job, operator, ip, error, timestamp }
    }
}

} // verus!
