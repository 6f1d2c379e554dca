use vstd::prelude::*;
use crate::ident::{prefixed_hex, prefixed_hex_of};

verus! {

/// The approved deployment image for amd64 hosts.
pub const AMD64_IMAGE_URL: &'static str =
    "https://artifacts.marlin.org/oyster/eifs/base-blue_v3.0.0_linux_amd64.eif";

/// The approved deployment image for arm64 hosts.
pub const ARM64_IMAGE_URL: &'static str =
    "https://artifacts.marlin.org/oyster/eifs/base-blue_v3.0.0_linux_arm64.eif";

/// The fields of a job's declared metadata that the watcher reads.
#[derive(Clone, Debug)]
pub struct Metadata {
    pub url: Option<String>,
    pub instance: Option<String>,
    pub region: Option<String>,
}

/// A job-open event as the chain reports it, with the operator's control-plane
/// URL (`None` when its lookup failed) and the parsed metadata (`None` when the
/// declared metadata did not parse).
#[derive(Clone, Debug)]
pub struct JobEvent {
    pub job: Vec<u8>,
    pub owner: Vec<u8>,
    pub operator: Vec<u8>,
    pub control_plane_url: Option<String>,
    pub metadata: Option<Metadata>,
}

/// What one verification worker needs to check one job.
#[derive(Clone, Debug)]
pub struct JobVerificationTask {
    pub job: String,
    pub operator: String,
    pub control_plane_url: String,
    pub region: String,
}

/// Whether `url` is exactly one of the approved image URLs.
pub open spec fn allowed_image(url: Seq<char>) -> bool {
    url == AMD64_IMAGE_URL@ || url == ARM64_IMAGE_URL@
}

/// Whether a job with this metadata is in scope: it names an approved image.
pub open spec fn in_scope_spec(m: Metadata) -> bool {
    m.url is Some && allowed_image(m.url->0@)
}

/// The task that an in-scope event becomes, and `None` for an event that is
/// skipped: no control-plane URL, unparsable metadata, or metadata out of scope.
pub open spec fn task_spec(e: JobEvent) -> Option<(Seq<char>, Seq<char>, Seq<char>, Seq<char>)> {
    match (e.control_plane_url, e.metadata) {
        (Some(cp), Some(m)) => if in_scope_spec(m) {
            Some(
                (
                    prefixed_hex_of(e.job@),
                    prefixed_hex_of(e.operator@),
                    cp@,
                    match m.region {
                        Some(r) => r@,
                        None => Seq::<char>::empty(),
                    },
                ),
            )
        } else {
            None
        },
        _ => None,
    }
}

/// The fields of a task, as text.
pub open spec fn task_view(t: JobVerificationTask) -> (Seq<char>, Seq<char>, Seq<char>, Seq<char>) {
    (t.job@, t.operator@, t.control_plane_url@, t.region@)
}

/// The tasks dispatched for a tick's events, in the order of the events.
pub open spec fn dispatched(events: Seq<JobEvent>) -> Seq<(Seq<char>, Seq<char>, Seq<char>, Seq<char>)>
    decreases events.len(),
{
    if events.len() == 0 {
        Seq::empty()
    } else {
        let prev = dispatched(events.drop_last());
        match task_spec(events.last()) {
            Some(t) => prev.push(t),
            None => prev,
        }
    }
}

/// Whether `url` is one of the approved image URLs.
pub fn is_allowed_image(url: &String) -> (r: bool)
    ensures
        r == allowed_image(url@),
{
    let amd = String::from_str(AMD64_IMAGE_URL);
    let arm = String::from_str(ARM64_IMAGE_URL);
    *url == amd || *url == arm
}

/// Whether a job with this metadata is to be verified: its image URL is present
/// and approved. Anything else is filtered out without a failure record.
pub fn in_scope(m: &Metadata) -> (r: bool)
    ensures
        r == in_scope_spec(*m),
{
    match &m.url {
        Some(u) => is_allowed_image(u),
        None => false,
    }
}

/// The verification task for one event, or `None` when the event is skipped.
pub fn task_for(e: &JobEvent) -> (r: Option<JobVerificationTask>)
    ensures
        match r {
            Some(t) => task_spec(*e) == Some(task_view(t)),
            None => task_spec(*e) is None,
        },
{
    match (&e.control_plane_url, &e.metadata) {
        (Some(cp), Some(m)) => {
            if in_scope(m) {
                let region = match &m.region {
                    Some(r) => r.clone(),
                    None => String::new(),
                };
                Some(
                    JobVerificationTask {
                        job: prefixed_hex(e.job.as_slice()),
                        operator: prefixed_hex(e.operator.as_slice()),
                        control_plane_url: cp.clone(),
                        region,
                    },
                )
            } else {
                None
            }
        },
        _ => None,
    }
}

/// The tasks to hand to workers for a tick's events: one per in-scope event,
/// in the order the chain returned the events.
pub fn dispatch(events: &Vec<JobEvent>) -> (r: Vec<JobVerificationTask>)
    ensures
        r@.map_values(|t: JobVerificationTask| task_view(t)) == dispatched(events@),
{
    let mut out: Vec<JobVerificationTask> = Vec::new();
    let mut i: usize = 0;
    while i < events.len()
        invariant
            i <= events@.len(),
            out@.map_values(|t: JobVerificationTask| task_view(t)) == dispatched(
                events@.subrange(0, i as int),
            ),
        decreases events@.len() - i,
    {
        let ghost before = out@;
        assert(events@.subrange(0, i as int + 1).drop_last() == events@.subrange(0, i as int));
        match task_for(&events[i]) {
            Some(t) => {
                out.push(t);
                assert(out@.map_values(|t: JobVerificationTask| task_view(t)) == before.map_values(
                    |t: JobVerificationTask| task_view(t),
                ).push(task_view(t)));
            },
            None => {},
        }
        i = i + 1;
    }
    assert(events@.subrange(0, events@.len() as int) == events@);
    out
}

/// An event whose metadata is missing or out of scope adds no task to a tick's
/// dispatch, wherever it stands among the tick's events: no worker is started
/// for it, so no failure is ever recorded for it.
pub proof fn lemma_out_of_scope_not_dispatched(before: Seq<JobEvent>, e: JobEvent)
    requires
        e.metadata is None || !in_scope_spec(e.metadata->0),
    ensures
        task_spec(e) is None,
        dispatched(before.push(e)) == dispatched(before),
{
    assert(before.push(e).drop_last() == before);
}

} // verus!
