//! Capability contracts for compute-backend instances and the
//! status-polling reconciliation engine used by start/stop operations.
//!
//! A state-change request only acknowledges that a transition was asked
//! for. The reconciliation engine therefore re-reads the instance status
//! until the operation's terminal state is observed, treating any status
//! outside the operation's acceptable set as a fatal anomaly.

use vstd::prelude::*;

verus! {

/// The two state-changing operations whose completion is awaited.
#[derive(Clone, Copy, Debug, PartialEq, Eq, Structural)]
pub enum VmOp {
    Start,
    Stop,
}

/// Typed failures of instance operations. Each variant is fatal for the
/// operation that produced it; none is retried.
#[derive(Clone, Debug, PartialEq, Eq)]
pub enum VmError {
    /// The backend acknowledged a state-change request with zero
    /// transitioning instances: nothing changed.
    NoneAcknowledged,
    /// The acknowledgment reported more than one transitioning instance:
    /// the selector matched more instances than intended.
    TooManyAcknowledged,
    /// Polling observed a status outside the operation's acceptable set.
    UnexpectedStatus(String),
    /// The instance no longer resolves in the backend's listing.
    MissingInstance,
    /// The instance resolved but reported no status.
    MissingStatus,
    /// An identifier expected to be unique matched more than one instance.
    AmbiguousMatch,
}

/// The status that signals an operation has fully completed.
pub open spec fn terminal_status(op: VmOp) -> Seq<char> {
    match op {
        VmOp::Start => "running"@,
        VmOp::Stop => "stopped"@,
    }
}

/// The intermediate status that is acceptable while an operation is still
/// in progress.
pub open spec fn transient_status(op: VmOp) -> Seq<char> {
    match op {
        VmOp::Start => "pending"@,
        VmOp::Stop => "stopping"@,
    }
}

/// A status is acceptable during an operation iff it is the operation's
/// terminal or transient status; anything else is an anomaly.
pub open spec fn acceptable_status(op: VmOp, status: Seq<char>) -> bool {
    status == terminal_status(op) || status == transient_status(op)
}

pub fn terminal_status_text(op: &VmOp) -> (s: String)
    ensures
        s@ == terminal_status(*op),
{
    match op {
        VmOp::Start => "running".to_owned(),
        VmOp::Stop => "stopped".to_owned(),
    }
}

pub fn transient_status_text(op: &VmOp) -> (s: String)
    ensures
        s@ == transient_status(*op),
{
    match op {
        VmOp::Start => "pending".to_owned(),
        VmOp::Stop => "stopping".to_owned(),
    }
}

/// What one observed status means for a reconciliation in progress.
#[derive(Clone, Copy, Debug, PartialEq, Eq, Structural)]
pub enum PollDecision {
    /// The terminal status was observed: the operation is complete.
    Settled,
    /// An acceptable transient status was observed: keep polling.
    InProgress,
    /// A status outside the acceptable set was observed: abort.
    Anomaly,
}

/// Classifies one observed status for the given operation.
pub fn poll_decision(op: &VmOp, status: &String) -> (v: PollDecision)
    ensures
        (v is Settled) <==> status@ == terminal_status(*op),
        (v is InProgress) <==> (status@ != terminal_status(*op) && status@ == transient_status(
            *op,
        )),
        (v is Anomaly) <==> !acceptable_status(*op, status@),
{
    let terminal = terminal_status_text(op);
    if *status == terminal {
        PollDecision::Settled
    } else {
        let transient = transient_status_text(op);
        if *status == transient {
            PollDecision::InProgress
        } else {
            PollDecision::Anomaly
        }
    }
}

/// Inspects the acknowledgment of a state-change request: it must report
/// exactly one transitioning instance. Zero means nothing changed; more
/// than one means the request hit more instances than intended, which must
/// abort before any destructive effect is compounded.
pub fn check_ack(acknowledged: usize) -> (r: Result<(), VmError>)
    ensures
        (r is Ok) <==> acknowledged == 1,
        acknowledged == 0 ==> r == Err::<(), VmError>(VmError::NoneAcknowledged),
        acknowledged > 1 ==> r == Err::<(), VmError>(VmError::TooManyAcknowledged),
{
    if acknowledged == 0 {
        Err(VmError::NoneAcknowledged)
    } else if acknowledged > 1 {
        Err(VmError::TooManyAcknowledged)
    } else {
        Ok(())
    }
}

/// The identifier list a state-change request is submitted with: exactly
/// the single target instance, never a broader selection.
pub fn single_target(instance_id: &str) -> (ids: Vec<String>)
    ensures
        ids.deep_view() == seq![instance_id@],
{
    let mut ids: Vec<String> = Vec::new();
    ids.push(instance_id.to_owned());
    proof {
        assert(ids.deep_view() =~= seq![instance_id@]);
    }
    ids
}

/// How a reconciliation ends on a given finite sequence of observations.
#[derive(Clone, Copy, Debug, PartialEq, Eq, Structural)]
pub enum TraceOutcome {
    /// The terminal status was observed after only transient statuses.
    Converged,
    /// A status outside the acceptable set was observed first.
    Anomalous,
    /// The observations ran out before a decision: the instance stopped
    /// resolving.
    Vanished,
}

/// The outcome of polling through `trace` in order for operation `op`.
pub open spec fn trace_outcome(op: VmOp, trace: Seq<Seq<char>>) -> TraceOutcome
    decreases trace.len(),
{
    if trace.len() == 0 {
        TraceOutcome::Vanished
    } else if trace[0] == terminal_status(op) {
        TraceOutcome::Converged
    } else if trace[0] == transient_status(op) {
        trace_outcome(op, trace.drop_first())
    } else {
        TraceOutcome::Anomalous
    }
}

/// How many observations the reconciliation consumes from `trace`: every
/// transient status up to and including the first decisive one.
pub open spec fn polls_consumed(op: VmOp, trace: Seq<Seq<char>>) -> nat
    decreases trace.len(),
{
    if trace.len() == 0 {
        0
    } else if trace[0] == terminal_status(op) {
        1
    } else if trace[0] == transient_status(op) {
        1 + polls_consumed(op, trace.drop_first())
    } else {
        1
    }
}

pub proof fn lemma_polls_consumed_le_len(op: VmOp, trace: Seq<Seq<char>>)
    ensures
        polls_consumed(op, trace) <= trace.len(),
    decreases trace.len(),
{
    if trace.len() != 0 && trace[0] != terminal_status(op) && trace[0] == transient_status(op) {
        lemma_polls_consumed_le_len(op, trace.drop_first());
    }
}

/// Law: a status outside the acceptable set, observed while only
/// transient observations precede it, aborts the reconciliation — the
/// outcome is anomalous, never convergence, whatever follows it.
pub proof fn lemma_unexpected_status_aborts(op: VmOp, trace: Seq<Seq<char>>, i: int)
    requires
        0 <= i < trace.len(),
        forall|j: int| 0 <= j < i ==> trace[j] == transient_status(op),
        forall|j: int| 0 <= j < i ==> trace[j] != terminal_status(op),
        !acceptable_status(op, trace[i]),
    ensures
        trace_outcome(op, trace) is Anomalous,
    decreases i,
{
    if i == 0 {
        assert(trace[0] != terminal_status(op) && trace[0] != transient_status(op));
    } else {
        assert(forall|j: int| 0 <= j < trace.len() - 1 ==> trace.drop_first()[j] == trace[j + 1]);
        assert(trace.drop_first()[i - 1] == trace[i]);
        lemma_unexpected_status_aborts(op, trace.drop_first(), i - 1);
    }
}

/// The reconciliation engine over a finite sequence of observations.
///
/// Consumes statuses from the front of `trace` until the operation's
/// terminal status is observed (success), a status outside the acceptable
/// set is observed (fatal anomaly), or the observations run out (the
/// instance stopped resolving). No bound is placed on how many transient
/// observations precede the decision.
pub fn drain_reconcile(op: &VmOp, trace: &mut Vec<String>) -> (r: Result<String, VmError>)
    ensures
        final(trace).deep_view() == old(trace).deep_view().skip(
            polls_consumed(*op, old(trace).deep_view()) as int,
        ),
        (r is Ok) <==> (trace_outcome(*op, old(trace).deep_view()) is Converged),
        r matches Ok(s) ==> s@ == terminal_status(*op),
        (trace_outcome(*op, old(trace).deep_view()) is Vanished) ==> r == Err::<
            String,
            VmError,
        >(VmError::MissingInstance),
        (trace_outcome(*op, old(trace).deep_view()) is Anomalous) ==> (r matches Err(e)
            && e matches VmError::UnexpectedStatus(a) && a@ == old(trace).deep_view()[
            polls_consumed(*op, old(trace).deep_view()) - 1]),
{
    let ghost orig: Seq<Seq<char>> = old(trace).deep_view();
    proof {
        assert(orig.skip(0) =~= orig);
    }
    loop
        invariant
            orig == old(trace).deep_view(),
            trace.deep_view() == orig.skip((orig.len() - trace@.len()) as int),
            trace@.len() <= orig.len(),
            trace_outcome(*op, orig) == trace_outcome(*op, trace.deep_view()),
            polls_consumed(*op, orig) == (orig.len() - trace@.len()) + polls_consumed(
                *op,
                trace.deep_view(),
            ),
        decreases trace@.len(),
    {
        if trace.len() == 0 {
            proof {
                assert(trace.deep_view() =~= Seq::<Seq<char>>::empty());
                assert(polls_consumed(*op, trace.deep_view()) == 0);
                assert(trace_outcome(*op, trace.deep_view()) is Vanished);
            }
            return Err(VmError::MissingInstance);
        }
        let ghost before: Seq<Seq<char>> = trace.deep_view();
        let ghost consumed: int = orig.len() - before.len();
        let status = trace.remove(0);
        proof {
            assert(status@ == before[0]);
            assert(trace.deep_view() =~= before.drop_first());
            assert(before.drop_first() =~= orig.skip(consumed + 1));
        }
        let decision = poll_decision(op, &status);
        match decision {
            PollDecision::Settled => {
                proof {
                    assert(trace_outcome(*op, before) is Converged);
                    assert(polls_consumed(*op, before) == 1);
                    assert(polls_consumed(*op, orig) == consumed + 1);
                }
                return Ok(status);
            },
            PollDecision::InProgress => {
                proof {
                    assert(trace_outcome(*op, before) == trace_outcome(*op, before.drop_first()));
                    assert(polls_consumed(*op, before) == 1 + polls_consumed(
                        *op,
                        before.drop_first(),
                    ));
                }
            },
            PollDecision::Anomaly => {
                proof {
                    lemma_polls_consumed_le_len(*op, orig);
                    assert(trace_outcome(*op, before) is Anomalous);
                    assert(polls_consumed(*op, before) == 1);
                    assert(polls_consumed(*op, orig) == consumed + 1);
                    assert(orig.skip(consumed)[0] == orig[consumed]);
                    assert(status@ == orig[consumed]);
                }
                return Err(VmError::UnexpectedStatus(status));
            },
        }
    }
}

/// Core operations of a compute-backend instance handle that already
/// exists on the backend.
///
/// `start` and `stop` issue the state-change request and then block until
/// the instance reaches the operation's terminal state; a caller must not
/// start an already-running instance nor stop an already-stopped one, as
/// backend behaviour in that case is provider-defined.
pub trait VMCore: Sized {
    /// The identifier this handle is bound to.
    spec fn id_view(&self) -> Seq<char>;

    /// The status the backend currently reports, or `None` if the
    /// instance no longer resolves.
    spec fn status_view(&self) -> Option<Seq<char>>;

    /// Resolves an instance handle by identifier, using the given
    /// credentials context. Returns `None` if no instance matches; does
    /// not wait for any target state.
    fn retrieve(instance_id: &str, role_arn: &str) -> (r: Option<Self>)
        ensures
            r matches Some(vm) ==> vm.id_view() == instance_id@,
    ;

    /// The current reported status, or `None` if the instance no longer
    /// resolves.
    fn status(&self) -> (r: Option<String>)
        ensures
            match r {
                Some(s) => self.status_view() == Some(s@),
                None => self.status_view() is None,
            },
    ;

    /// Requests a stop and blocks until the instance reports "stopped".
    fn stop(&mut self) -> (r: Result<String, VmError>)
        requires
            old(self).status_view() != Some(terminal_status(VmOp::Stop)),
        ensures
            final(self).id_view() == old(self).id_view(),
            r matches Ok(s) ==> s@ == terminal_status(VmOp::Stop) && final(self).status_view()
                == Some(terminal_status(VmOp::Stop)),
    ;

    /// Requests a start and blocks until the instance reports "running".
    fn start(&mut self) -> (r: Result<String, VmError>)
        requires
            old(self).status_view() != Some(terminal_status(VmOp::Start)),
        ensures
            final(self).id_view() == old(self).id_view(),
            r matches Ok(s) ==> s@ == terminal_status(VmOp::Start) && final(self).status_view()
                == Some(terminal_status(VmOp::Start)),
    ;
}

/// Administrative (destructive or creating) operations on a compute
/// backend.
pub trait VMAdmin: Default {
    /// Provisions a new virtual machine.
    fn new() -> (r: Self);

    /// Requests termination of this virtual machine. Destructive and
    /// irreversible; acknowledged but not polled to a terminal state.
    fn terminate(&mut self) -> (r: Result<String, VmError>);
}

/// Network visibility of a compute-backend instance.
pub trait VMNetwork {
    /// The externally routable address the backend currently reports, if
    /// any.
    spec fn public_ip_view(&self) -> Option<Seq<char>>;

    /// Returns the instance's public address, or `None` if it has none
    /// (for example, when it is not running).
    fn get_public_ip(&self) -> (r: Option<String>)
        ensures
            match r {
                Some(s) => self.public_ip_view() == Some(s@),
                None => self.public_ip_view() is None,
            },
    ;
}

} // verus!
