//! Controllers and the polling loop that each of them runs.
//!
//! The loop is a state machine: the runtime performs each action that `step`
//! returns (sleep, list, execute one object) and feeds back what came of it.
use vstd::prelude::*;
use crate::error::YangtzeError;
use crate::fabric::{initial_status, spec_initial_status, version_kind, Fabric, FabricState, FabricStatus};
use crate::ids::{parsed_uuid, uuid_text, uuid_text_of};
use crate::meta::VersionKind;

verus! {

/// Seconds between two polling passes.
pub const POLL_INTERVAL_SECS: u64 = 10;

/// List calls in a row that may fail before the loop gives up.
pub const MAX_LIST_ATTEMPTS: u32 = 5;

/// The wait after the given number of failed list calls in a row: one interval more
/// for each.
pub open spec fn backoff(failures: u32) -> u64 {
    (POLL_INTERVAL_SECS * (failures + 1)) as u64
}

/// Where a controller's loop stands.
#[derive(Debug)]
pub enum LoopState {
    /// Waiting out the interval before the next pass, after this many failed
    /// list calls in a row.
    Sleeping { failures: u32 },
    /// Waiting for the list of objects of the bound kind.
    Listing { failures: u32 },
    /// Executing the listed objects one by one; `next` is the one under way.
    Reconciling { total: usize, next: usize },
    /// The loop has ended for good.
    Stopped,
}

/// What the runtime reports back to the loop.
#[derive(Debug)]
pub enum LoopEvent {
    /// The interval is over.
    Woke,
    /// The list call returned this many objects, or failed.
    Listed(Result<usize, YangtzeError>),
    /// The execution of the current object finished.
    Executed(Result<(), YangtzeError>),
}

/// What the loop asks the runtime to do next.
#[derive(Debug)]
pub enum LoopAction {
    /// Wait this many seconds.
    Sleep(u64),
    /// List every object of the bound kind, with the match-all filter.
    List,
    /// Execute the listed object at this position.
    Execute(usize),
    /// End the loop, with the failure that ended it.
    Stop(YangtzeError),
    /// Nothing: the event did not fit the state.
    Wait,
}

/// The loop's transitions: the next state, and what the runtime is to do.
pub open spec fn step_spec(s: LoopState, e: LoopEvent) -> (LoopState, LoopAction) {
    match (s, e) {
        (LoopState::Sleeping { failures }, LoopEvent::Woke) => (LoopState::Listing { failures }, LoopAction::List),
        (LoopState::Listing { .. }, LoopEvent::Listed(Ok(n))) => if n == 0 {
            (LoopState::Sleeping { failures: 0 }, LoopAction::Sleep(POLL_INTERVAL_SECS))
        } else {
            (LoopState::Reconciling { total: n, next: 0 }, LoopAction::Execute(0))
        },
        (LoopState::Listing { failures }, LoopEvent::Listed(Err(err))) => if failures + 1 < MAX_LIST_ATTEMPTS {
            (LoopState::Sleeping { failures: (failures + 1) as u32 }, LoopAction::Sleep(backoff((failures + 1) as u32)))
        } else {
            (LoopState::Stopped, LoopAction::Stop(err))
        },
        (LoopState::Reconciling { total, next }, LoopEvent::Executed(_)) => if next + 1 < total {
            (LoopState::Reconciling { total, next: (next + 1) as usize }, LoopAction::Execute((next + 1) as usize))
        } else {
            (LoopState::Sleeping { failures: 0 }, LoopAction::Sleep(POLL_INTERVAL_SECS))
        },
        (s, _) => (s, LoopAction::Wait),
    }
}

/// The state and action that a bound controller starts its loop with.
pub fn start() -> (r: (LoopState, LoopAction))
    ensures
        r == (LoopState::Sleeping { failures: 0 }, LoopAction::Sleep(POLL_INTERVAL_SECS)),
{
    (LoopState::Sleeping { failures: 0 }, LoopAction::Sleep(POLL_INTERVAL_SECS))
}

/// One transition of the loop. A failed execution of one object is reported and
/// passed over: the pass goes on with the next object. A failed list call is tried
/// again after a longer wait; the loop ends once `MAX_LIST_ATTEMPTS` of them fail in a row.
pub fn step(s: LoopState, e: LoopEvent) -> (r: (LoopState, LoopAction))
    ensures
        r == step_spec(s, e),
{
    match (s, e) {
        (LoopState::Sleeping { failures }, LoopEvent::Woke) => (LoopState::Listing { failures }, LoopAction::List),
        (LoopState::Listing { .. }, LoopEvent::Listed(Ok(n))) => {
            if n == 0 {
                (LoopState::Sleeping { failures: 0 }, LoopAction::Sleep(POLL_INTERVAL_SECS))
            } else {
                (LoopState::Reconciling { total: n, next: 0 }, LoopAction::Execute(0))
            }
        },
        (LoopState::Listing { failures }, LoopEvent::Listed(Err(err))) => {
            if failures < MAX_LIST_ATTEMPTS - 1 {
                (LoopState::Sleeping { failures: failures + 1 }, LoopAction::Sleep(POLL_INTERVAL_SECS * (failures as u64 + 2)))
            } else {
                (LoopState::Stopped, LoopAction::Stop(err))
            }
        },
        (LoopState::Reconciling { total, next }, LoopEvent::Executed(_)) => {
            if total > 0 && next < total - 1 {
                (LoopState::Reconciling { total, next: next + 1 }, LoopAction::Execute(next + 1))
            } else {
                (LoopState::Sleeping { failures: 0 }, LoopAction::Sleep(POLL_INTERVAL_SECS))
            }
        },
        (s, _) => (s, LoopAction::Wait),
    }
}

/// The state after the current objects' executions report these results, one by one.
pub open spec fn pass_state(s: LoopState, results: Seq<Result<(), YangtzeError>>) -> LoopState
    decreases results.len(),
{
    if results.len() == 0 {
        s
    } else {
        step_spec(pass_state(s, results.drop_last()), LoopEvent::Executed(results.last())).0
    }
}

/// The actions that the loop asks for as those results come in.
pub open spec fn pass_actions(s: LoopState, results: Seq<Result<(), YangtzeError>>) -> Seq<LoopAction>
    decreases results.len(),
{
    if results.len() == 0 {
        Seq::empty()
    } else {
        pass_actions(s, results.drop_last()).push(
            step_spec(pass_state(s, results.drop_last()), LoopEvent::Executed(results.last())).1,
        )
    }
}

proof fn lemma_pass_prefix(n: usize, results: Seq<Result<(), YangtzeError>>)
    requires
        0 < n,
        results.len() <= n,
    ensures
        pass_state(LoopState::Reconciling { total: n, next: 0 }, results) == if results.len() < n {
            LoopState::Reconciling { total: n, next: results.len() as usize }
        } else {
            LoopState::Sleeping { failures: 0 }
        },
        pass_actions(LoopState::Reconciling { total: n, next: 0 }, results).len() == results.len(),
        forall|k: int|
            0 <= k < results.len() ==> #[trigger] pass_actions(LoopState::Reconciling { total: n, next: 0 }, results)[k]
                == if k + 1 < n {
                LoopAction::Execute((k + 1) as usize)
            } else {
                LoopAction::Sleep(POLL_INTERVAL_SECS)
            },
    decreases results.len(),
{
    if results.len() > 0 {
        lemma_pass_prefix(n, results.drop_last());
    }
}

/// Per-object isolation: once a listing returns n objects, the loop executes each of
/// them, in list order, whatever each execution returns, and after the last one goes
/// back to sleep, with no failed listing counted, before the next poll.
pub proof fn lemma_pass_isolation(n: usize, results: Seq<Result<(), YangtzeError>>)
    requires
        0 < n,
        results.len() == n,
    ensures
        forall|failures: u32| step_spec(LoopState::Listing { failures }, LoopEvent::Listed(Ok(n)))
            == (LoopState::Reconciling { total: n, next: 0 }, LoopAction::Execute(0)),
        forall|k: int|
            0 <= k < n - 1 ==> #[trigger] pass_actions(LoopState::Reconciling { total: n, next: 0 }, results)[k]
                == LoopAction::Execute((k + 1) as usize),
        pass_actions(LoopState::Reconciling { total: n, next: 0 }, results)[n - 1]
            == LoopAction::Sleep(POLL_INTERVAL_SECS),
        pass_state(LoopState::Reconciling { total: n, next: 0 }, results) == (LoopState::Sleeping { failures: 0 }),
        step_spec(LoopState::Sleeping { failures: 0 }, LoopEvent::Woke)
            == (LoopState::Listing { failures: 0 }, LoopAction::List),
{
    lemma_pass_prefix(n, results);
}

/// A failed list call ends the loop only when it is the last of `MAX_LIST_ATTEMPTS`
/// failures in a row; before that the loop waits longer and lists again.
pub proof fn lemma_list_failure_retried(failures: u32, err: YangtzeError)
    requires
        failures < MAX_LIST_ATTEMPTS,
    ensures
        failures + 1 < MAX_LIST_ATTEMPTS ==> step_spec(LoopState::Listing { failures }, LoopEvent::Listed(Err(err)))
            == ((LoopState::Sleeping { failures: (failures + 1) as u32 }), LoopAction::Sleep(backoff((failures + 1) as u32))),
        failures + 1 == MAX_LIST_ATTEMPTS ==> step_spec(LoopState::Listing { failures }, LoopEvent::Listed(Err(err)))
            == (LoopState::Stopped, LoopAction::Stop(err)),
        step_spec(LoopState::Sleeping { failures }, LoopEvent::Woke) == (LoopState::Listing { failures }, LoopAction::List),
{
}

/// The status that reconciliation gives a fabric: an existing status becomes ready,
/// its counts kept; a missing one becomes the initial status.
pub open spec fn reconciled_status(status: Option<FabricStatus>) -> Option<FabricStatus> {
    match status {
        Some(st) => Some(FabricStatus { state: FabricState::Ready, ..st }),
        None => Some(spec_initial_status()),
    }
}

/// Reconciles fabrics toward readiness.
#[derive(Debug)]
pub struct FabricController {}

impl FabricController {
    pub fn get_version_kind(&self) -> (r: VersionKind)
        ensures
            r.version@ == "v1alpha1"@,
            r.kind@ == "fabric"@,
    {
        version_kind()
    }

    /// The id to fetch the freshest copy of a listed fabric by.
    pub fn target_id(&self, f: &Fabric) -> (r: Result<String, YangtzeError>)
        ensures
            r is Ok <==> f.meta_data.uuid is Some,
            r is Ok ==> r->Ok_0@ == uuid_text_of(f.meta_data.uuid->Some_0)
                && parsed_uuid(r->Ok_0@) == f.meta_data.uuid,
            r is Err ==> r->Err_0 is InvalidConfig
                && r->Err_0.spec_message() == "The id of <"@ + f.meta_data.name@ + "> is none."@,
    {
        match f.meta_data.uuid {
            Some(id) => Ok(uuid_text(id)),
            None => {
                let mut msg = String::from_str("The id of <");
                msg.append(f.meta_data.name.as_str());
                msg.append("> is none.");
                Err(YangtzeError::InvalidConfig(msg))
            },
        }
    }

    /// The next status of a fabric.
    pub fn next_status(status: Option<FabricStatus>) -> (r: Option<FabricStatus>)
        ensures
            r == reconciled_status(status),
    {
        match status {
            Some(st) => Some(FabricStatus { state: FabricState::Ready, ..st }),
            None => Some(initial_status()),
        }
    }

    /// The fabric to write back: the freshest copy, with its status reconciled.
    pub fn reconcile(&self, f: Fabric) -> (r: Fabric)
        ensures
            r.meta_data@ == f.meta_data@,
            r.spec.selector@ == f.spec.selector@,
            r.status == reconciled_status(f.status),
    {
        let Fabric { meta_data, spec, status } = f;
        Fabric { meta_data, spec, status: Self::next_status(status) }
    }
}

/// Observes fabrics and changes nothing.
#[derive(Debug)]
pub struct SwitchController {}

impl SwitchController {
    pub fn get_version_kind(&self) -> (r: VersionKind)
        ensures
            r.version@ == "v1alpha1"@,
            r.kind@ == "fabric"@,
    {
        version_kind()
    }
}

} // verus!
