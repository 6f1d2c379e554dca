use vstd::prelude::*;
use crate::records::{FailureKind, FailureReport, ReportModel, UNKNOWN_ADDRESS};
use crate::scope::JobVerificationTask;

verus! {

/// The grace period, in seconds, that a new instance gets to boot before it is probed.
pub const STARTUP_DELAY_SECS: u64 = 180;

/// The refresh endpoint that the cross-check calls; the job id is appended.
pub const REFRESH_API_BASE: &'static str = "https://sk.arb1.marlin.org/operators/jobs/refresh/ArbOne/";

/// The message of a reachability probe failure.
pub const PROBE_FAILED: &'static str = "Instance reachability test failed";

/// The message of a refresh response without an address field.
pub const ADDRESS_FIELD_MISSING: &'static str = "IP key NOT found in refresh API response";

/// The prefix of the message of an address resolution failure.
pub const RESOLVE_FAILED_PREFIX: &'static str = "Failed to get IP address: ";

/// The prefix of the message of a refresh response that did not decode.
pub const UNDECODABLE_PREFIX: &'static str = "Failed to parse refresh API response: ";

/// The prefix of the message of a refresh call that failed in transport.
pub const TRANSPORT_PREFIX: &'static str = "Failed to call refresh API: ";

/// The stages of one job's verification.
#[derive(Clone, Copy, Debug, PartialEq, Eq, Structural)]
pub enum Stage {
    Created,
    AwaitingStartup,
    ResolvingAddress,
    ProbingReachability,
    CrossChecking,
    Done,
}

/// What the refresh endpoint's answer came to.
#[derive(Clone, Debug)]
pub enum CrossCheckOutcome {
    /// The call failed in transport; the reason.
    Transport(String),
    /// The answer did not decode; the reason.
    Undecodable(String),
    /// The answer decoded, with or without an address field.
    Replied { has_address: bool },
}

/// What happened outside since the last step.
#[derive(Debug)]
pub enum Event {
    /// The worker was started.
    Begin,
    /// The start-up grace period is over.
    StartupElapsed,
    /// Address resolution ended: the address, or why it failed.
    Resolved(Result<String, String>),
    /// The reachability probe ended: whether the instance accepted a connection.
    Probed(bool),
    /// The cross-check call ended.
    CrossChecked(CrossCheckOutcome),
}

/// What the worker asks its driver to do next.
#[derive(Clone, Debug)]
pub enum Action {
    /// Wait this many seconds, then report `StartupElapsed`.
    Sleep { secs: u64 },
    /// Resolve the task's address, then report `Resolved`.
    ResolveAddress,
    /// Probe this address, then report `Probed`.
    Probe { address: String },
    /// Call this URL, then report `CrossChecked`.
    CrossCheck { url: String },
    /// The verification is over.
    Finish,
    /// The event did not fit the stage and was ignored.
    Ignore,
}

/// The text of an action.
pub enum ActionModel {
    Sleep { secs: u64 },
    ResolveAddress,
    Probe { address: Seq<char> },
    CrossCheck { url: Seq<char> },
    Finish,
    Ignore,
}

impl View for Action {
    type V = ActionModel;

    open spec fn view(&self) -> ActionModel {
        match self {
            Action::Sleep { secs } => ActionModel::Sleep { secs: *secs },
            Action::ResolveAddress => ActionModel::ResolveAddress,
            Action::Probe { address } => ActionModel::Probe { address: address@ },
            Action::CrossCheck { url } => ActionModel::CrossCheck { url: url@ },
            Action::Finish => ActionModel::Finish,
            Action::Ignore => ActionModel::Ignore,
        }
    }
}

/// The text of a cross-check outcome.
pub enum OutcomeModel {
    Transport(Seq<char>),
    Undecodable(Seq<char>),
    Replied { has_address: bool },
}

impl View for CrossCheckOutcome {
    type V = OutcomeModel;

    open spec fn view(&self) -> OutcomeModel {
        match self {
            CrossCheckOutcome::Transport(m) => OutcomeModel::Transport(m@),
            CrossCheckOutcome::Undecodable(m) => OutcomeModel::Undecodable(m@),
            CrossCheckOutcome::Replied { has_address } => OutcomeModel::Replied {
                has_address: *has_address,
            },
        }
    }
}

/// The text of an event.
pub enum EventModel {
    Begin,
    StartupElapsed,
    Resolved(Result<Seq<char>, Seq<char>>),
    Probed(bool),
    CrossChecked(OutcomeModel),
}

impl View for Event {
    type V = EventModel;

    open spec fn view(&self) -> EventModel {
        match self {
            Event::Begin => EventModel::Begin,
            Event::StartupElapsed => EventModel::StartupElapsed,
            Event::Resolved(Ok(a)) => EventModel::Resolved(Ok(a@)),
            Event::Resolved(Err(m)) => EventModel::Resolved(Err(m@)),
            Event::Probed(ok) => EventModel::Probed(*ok),
            Event::CrossChecked(o) => EventModel::CrossChecked(o@),
        }
    }
}

/// Verifies one job: start-up delay, address resolution, reachability probe and
/// cross-check, in that order, reporting a failure at each stage that fails.
#[derive(Clone, Debug)]
pub struct Worker {
    pub task: JobVerificationTask,
    pub stage: Stage,
    /// The resolved address, once there is one.
    pub address: Option<String>,
}

/// The state of a worker, as text.
pub struct WorkerModel {
    pub job: Seq<char>,
    pub operator: Seq<char>,
    pub stage: Stage,
    pub address: Option<Seq<char>>,
}

impl View for Worker {
    type V = WorkerModel;

    open spec fn view(&self) -> WorkerModel {
        WorkerModel {
            job: self.task.job@,
            operator: self.task.operator@,
            stage: self.stage,
            address: match self.address {
                Some(a) => Some(a@),
                None => None,
            },
        }
    }
}

/// The failure message for a cross-check outcome, `None` when the endpoint
/// reported an address.
pub open spec fn cross_check_message(o: OutcomeModel) -> Option<Seq<char>> {
    match o {
        OutcomeModel::Transport(m) => Some(TRANSPORT_PREFIX@ + m),
        OutcomeModel::Undecodable(m) => Some(UNDECODABLE_PREFIX@ + m),
        OutcomeModel::Replied { has_address } => if has_address {
            None
        } else {
            Some(ADDRESS_FIELD_MISSING@)
        },
    }
}

/// A report of the given kind for the worker's job.
pub open spec fn report_of(w: WorkerModel, kind: FailureKind, ip: Seq<char>, msg: Seq<char>) -> ReportModel {
    ReportModel { kind, job: w.job, operator: w.operator, ip, error: msg }
}

/// The worker's state with another stage and address.
pub open spec fn moved(w: WorkerModel, stage: Stage, address: Option<Seq<char>>) -> WorkerModel {
    WorkerModel { stage, address, ..w }
}

/// One step of the worker: its next state, the action it asks for, and the
/// failure it reports, if any. An event that does not fit the stage changes
/// nothing.
pub open spec fn step_spec(w: WorkerModel, e: EventModel) -> (WorkerModel, ActionModel, Option<ReportModel>) {
    match (w.stage, e) {
        (Stage::Created, EventModel::Begin) => (
            moved(w, Stage::AwaitingStartup, w.address),
            ActionModel::Sleep { secs: STARTUP_DELAY_SECS },
            None,
        ),
        (Stage::AwaitingStartup, EventModel::StartupElapsed) => (
            moved(w, Stage::ResolvingAddress, w.address),
            ActionModel::ResolveAddress,
            None,
        ),
        (Stage::ResolvingAddress, EventModel::Resolved(Ok(a))) => (
            moved(w, Stage::ProbingReachability, Some(a)),
            ActionModel::Probe { address: a },
            None,
        ),
        (Stage::ResolvingAddress, EventModel::Resolved(Err(m))) => (
            moved(w, Stage::Done, w.address),
            ActionModel::Finish,
            Some(
                report_of(
                    w,
                    FailureKind::Reachability,
                    UNKNOWN_ADDRESS@,
                    RESOLVE_FAILED_PREFIX@ + m,
                ),
            ),
        ),
        (Stage::ProbingReachability, EventModel::Probed(ok)) => (
            moved(w, Stage::CrossChecking, w.address),
            ActionModel::CrossCheck { url: REFRESH_API_BASE@ + w.job },
            if ok {
                None
            } else {
                Some(
                    report_of(
                        w,
                        FailureKind::Reachability,
                        w.address.unwrap_or(UNKNOWN_ADDRESS@),
                        PROBE_FAILED@,
                    ),
                )
            },
        ),
        (Stage::CrossChecking, EventModel::CrossChecked(o)) => (
            moved(w, Stage::Done, w.address),
            ActionModel::Finish,
            match cross_check_message(o) {
                Some(msg) => Some(
                    report_of(w, FailureKind::Endpoint, w.address.unwrap_or(UNKNOWN_ADDRESS@), msg),
                ),
                None => None,
            },
        ),
        _ => (w, ActionModel::Ignore, None),
    }
}

/// A string holding `prefix` followed by `rest`.
fn joined(prefix: &str, rest: &str) -> (r: String)
    ensures
        r@ == prefix@ + rest@,
{
    let mut s = String::from_str(prefix);
    s.append(rest);
    s
}

/// The failure message for a cross-check outcome, `None` when the endpoint
/// reported an address.
pub fn cross_check_failure(o: &CrossCheckOutcome) -> (r: Option<String>)
    ensures
        match r {
            Some(m) => cross_check_message(o@) == Some(m@),
            None => cross_check_message(o@) is None,
        },
{
    match o {
        CrossCheckOutcome::Transport(m) => Some(joined(TRANSPORT_PREFIX, m.as_str())),
        CrossCheckOutcome::Undecodable(m) => Some(joined(UNDECODABLE_PREFIX, m.as_str())),
        CrossCheckOutcome::Replied { has_address } => if *has_address {
            None
        } else {
            Some(String::from_str(ADDRESS_FIELD_MISSING))
        },
    }
}

/// The refresh URL that the cross-check calls for a job.
pub fn refresh_url(job: &String) -> (r: String)
    ensures
        r@ == REFRESH_API_BASE@ + job@,
{
    joined(REFRESH_API_BASE, job.as_str())
}

/// The text of an optional report.
pub open spec fn report_view(r: Option<FailureReport>) -> Option<ReportModel> {
    match r {
        Some(f) => Some(f@),
        None => None,
    }
}

impl Worker {
    /// A worker that is probing or cross-checking holds the address it resolved.
    pub open spec fn wf(&self) -> bool {
        (self.stage == Stage::ProbingReachability || self.stage == Stage::CrossChecking)
            ==> self.address is Some
    }

    /// A worker for `task`, not yet started.
    pub fn new(task: JobVerificationTask) -> (r: Worker)
        ensures
            r.task == task,
            r.stage == Stage::Created,
            r.address is None,
            r.wf(),
    {
        Worker { task, stage: Stage::Created, address: None }
    }

    /// The address to record for the worker's job: the resolved one, or
    /// `unknown` before there is one.
    fn recorded_address(&self) -> (r: String)
        ensures
            r@ == self@.address.unwrap_or(UNKNOWN_ADDRESS@),
    {
        match &self.address {
            Some(a) => a.clone(),
            None => String::from_str(UNKNOWN_ADDRESS),
        }
    }

    /// A report of the given kind for the worker's job.
    fn report(&self, kind: FailureKind, ip: String, error: String) -> (r: FailureReport)
        ensures
            r@ == report_of(self@, kind, ip@, error@),
    {
        FailureReport {
            kind,
            job: self.task.job.clone(),
            operator: self.task.operator.clone(),
            ip,
            error,
        }
    }

    /// Takes one event: moves to the next stage, and returns the action to
    /// perform and the failure to record, if any (see `step_spec`).
    pub fn step(&mut self, e: Event) -> (r: (Action, Option<FailureReport>))
        ensures
            final(self).task == old(self).task,
            old(self).wf() ==> final(self).wf(),
            (final(self)@, r.0@, report_view(r.1)) == step_spec(old(self)@, e@),
    {
        match (self.stage, e) {
            (Stage::Created, Event::Begin) => {
                self.stage = Stage::AwaitingStartup;
                (Action::Sleep { secs: STARTUP_DELAY_SECS }, None)
            },
            (Stage::AwaitingStartup, Event::StartupElapsed) => {
                self.stage = Stage::ResolvingAddress;
                (Action::ResolveAddress, None)
            },
            (Stage::ResolvingAddress, Event::Resolved(Ok(a))) => {
                self.stage = Stage::ProbingReachability;
                self.address = Some(a.clone());
                (Action::Probe { address: a }, None)
            },
            (Stage::ResolvingAddress, Event::Resolved(Err(m))) => {
                let rep = self.report(
                    FailureKind::Reachability,
                    String::from_str(UNKNOWN_ADDRESS),
                    joined(RESOLVE_FAILED_PREFIX, m.as_str()),
                );
                self.stage = Stage::Done;
                (Action::Finish, Some(rep))
            },
            (Stage::ProbingReachability, Event::Probed(ok)) => {
                let rep = if ok {
                    None
                } else {
                    Some(
                        self.report(
                            FailureKind::Reachability,
                            self.recorded_address(),
                            String::from_str(PROBE_FAILED),
                        ),
                    )
                };
                let url = refresh_url(&self.task.job);
                self.stage = Stage::CrossChecking;
                (Action::CrossCheck { url }, rep)
            },
            (Stage::CrossChecking, Event::CrossChecked(o)) => {
                let rep = match cross_check_failure(&o) {
                    Some(msg) => Some(
                        self.report(FailureKind::Endpoint, self.recorded_address(), msg),
                    ),
                    None => None,
                };
                self.stage = Stage::Done;
                (Action::Finish, rep)
            },
            _ => (Action::Ignore, None),
        }
    }
}

/// The final state of a worker fed `es` in order, and the reports it produced, in order.
pub open spec fn run(w: WorkerModel, es: Seq<EventModel>) -> (WorkerModel, Seq<ReportModel>)
    decreases es.len(),
{
    if es.len() == 0 {
        (w, Seq::empty())
    } else {
        let (next, _, rep) = step_spec(w, es[0]);
        let (last, rest) = run(next, es.drop_first());
        (
            last,
            match rep {
                Some(r) => seq![r] + rest,
                None => rest,
            },
        )
    }
}

/// Feeding `e` and then `es` is one step followed by the run of `es`.
proof fn lemma_run_cons(w: WorkerModel, e: EventModel, es: Seq<EventModel>)
    ensures
        run(w, seq![e] + es) == ({
            let (next, _, rep) = step_spec(w, e);
            let (last, rest) = run(next, es);
            (
                last,
                match rep {
                    Some(r) => seq![r] + rest,
                    None => rest,
                },
            )
        }),
{
    assert((seq![e] + es).drop_first() == es);
    assert((seq![e] + es)[0] == e);
}

/// A finished worker stays finished and reports nothing more, whatever it is fed.
pub proof fn lemma_done_is_final(w: WorkerModel, es: Seq<EventModel>)
    requires
        w.stage == Stage::Done,
    ensures
        run(w, es).0 == w,
        run(w, es).1.len() == 0,
    decreases es.len(),
{
    if es.len() > 0 {
        lemma_done_is_final(w, es.drop_first());
    }
}

/// A job whose address cannot be resolved ends with exactly one reachability
/// report, with the address `unknown`, and no endpoint report: the probe and
/// the cross-check are skipped, and nothing that comes after adds a report.
pub proof fn lemma_resolution_failure_reports_once(
    w: WorkerModel,
    why: Seq<char>,
    later: Seq<EventModel>,
)
    requires
        w.stage == Stage::Created,
    ensures
        ({
            let (last, reps) = run(
                w,
                seq![EventModel::Begin, EventModel::StartupElapsed, EventModel::Resolved(Err(why))]
                    + later,
            );
            &&& last.stage == Stage::Done
            &&& reps.len() == 1
            &&& reps[0].kind == FailureKind::Reachability
            &&& reps[0].ip == UNKNOWN_ADDRESS@
            &&& reps[0].job == w.job
            &&& reps[0].error == RESOLVE_FAILED_PREFIX@ + why
        }),
{
    let e0 = EventModel::Begin;
    let e1 = EventModel::StartupElapsed;
    let e2 = EventModel::Resolved(Err(why));
    let w1 = step_spec(w, e0).0;
    let w2 = step_spec(w1, e1).0;
    let w3 = step_spec(w2, e2).0;
    assert(seq![e0, e1, e2] + later == seq![e0] + (seq![e1] + (seq![e2] + later)));
    lemma_run_cons(w, e0, seq![e1] + (seq![e2] + later));
    lemma_run_cons(w1, e1, seq![e2] + later);
    lemma_run_cons(w2, e2, later);
    lemma_done_is_final(w3, later);
}

/// A job whose address resolves but whose probe and cross-check both fail ends
/// with exactly two reports: a reachability report and then an endpoint report,
/// both with the resolved address.
pub proof fn lemma_probe_and_check_failure_report_twice(
    w: WorkerModel,
    address: Seq<char>,
    outcome: OutcomeModel,
    later: Seq<EventModel>,
)
    requires
        w.stage == Stage::Created,
        cross_check_message(outcome) is Some,
    ensures
        ({
            let (last, reps) = run(
                w,
                seq![
                    EventModel::Begin,
                    EventModel::StartupElapsed,
                    EventModel::Resolved(Ok(address)),
                    EventModel::Probed(false),
                    EventModel::CrossChecked(outcome),
                ] + later,
            );
            &&& last.stage == Stage::Done
            &&& reps.len() == 2
            &&& reps[0].kind == FailureKind::Reachability
            &&& reps[0].ip == address
            &&& reps[0].error == PROBE_FAILED@
            &&& reps[1].kind == FailureKind::Endpoint
            &&& reps[1].ip == address
            &&& Some(reps[1].error) == cross_check_message(outcome)
        }),
{
    let e0 = EventModel::Begin;
    let e1 = EventModel::StartupElapsed;
    let e2 = EventModel::Resolved(Ok(address));
    let e3 = EventModel::Probed(false);
    let e4 = EventModel::CrossChecked(outcome);
    let w1 = step_spec(w, e0).0;
    let w2 = step_spec(w1, e1).0;
    let w3 = step_spec(w2, e2).0;
    let w4 = step_spec(w3, e3).0;
    let w5 = step_spec(w4, e4).0;
    assert(seq![e0, e1, e2, e3, e4] + later == seq![e0] + (seq![e1] + (seq![e2] + (seq![e3] + (
    seq![e4] + later)))));
    lemma_run_cons(w, e0, seq![e1] + (seq![e2] + (seq![e3] + (seq![e4] + later))));
    lemma_run_cons(w1, e1, seq![e2] + (seq![e3] + (seq![e4] + later)));
    lemma_run_cons(w2, e2, seq![e3] + (seq![e4] + later));
    lemma_run_cons(w3, e3, seq![e4] + later);
    lemma_run_cons(w4, e4, later);
    lemma_done_is_final(w5, later);
    let tail = run(w5, later).1;
    let r1 = step_spec(w4, e4).2->0;
    assert(seq![r1] + tail == seq![r1]);
}

/// A job whose address resolves, whose probe succeeds and whose cross-check
/// finds an address ends with no report at all.
pub proof fn lemma_passing_job_reports_nothing(
    w: WorkerModel,
    address: Seq<char>,
    outcome: OutcomeModel,
    later: Seq<EventModel>,
)
    requires
        w.stage == Stage::Created,
        cross_check_message(outcome) is None,
    ensures
        ({
            let (last, reps) = run(
                w,
                seq![
                    EventModel::Begin,
                    EventModel::StartupElapsed,
                    EventModel::Resolved(Ok(address)),
                    EventModel::Probed(true),
                    EventModel::CrossChecked(outcome),
                ] + later,
            );
            last.stage == Stage::Done && reps.len() == 0
        }),
{
    let e0 = EventModel::Begin;
    let e1 = EventModel::StartupElapsed;
    let e2 = EventModel::Resolved(Ok(address));
    let e3 = EventModel::Probed(true);
    let e4 = EventModel::CrossChecked(outcome);
    let w1 = step_spec(w, e0).0;
    let w2 = step_spec(w1, e1).0;
    let w3 = step_spec(w2, e2).0;
    let w4 = step_spec(w3, e3).0;
    let w5 = step_spec(w4, e4).0;
    assert(seq![e0, e1, e2, e3, e4] + later == seq![e0] + (seq![e1] + (seq![e2] + (seq![e3] + (
    seq![e4] + later)))));
    lemma_run_cons(w, e0, seq![e1] + (seq![e2] + (seq![e3] + (seq![e4] + later))));
    lemma_run_cons(w1, e1, seq![e2] + (seq![e3] + (seq![e4] + later)));
    lemma_run_cons(w2, e2, seq![e3] + (seq![e4] + later));
    lemma_run_cons(w3, e3, seq![e4] + later);
    lemma_run_cons(w4, e4, later);
    lemma_done_is_final(w5, later);
}

} // verus!
