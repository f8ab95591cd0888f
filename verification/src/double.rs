//! A scripted in-memory backend implementing the capability contracts.
//!
//! The double holds the finite sequence of statuses its backend will
//! report while an operation reconciles, so start/stop transition
//! deterministically after a configured number of polls. It exercises the
//! reconciliation engine without a cloud provider.

use crate::vm::{
    check_ack, drain_reconcile, polls_consumed, terminal_status, trace_outcome, TraceOutcome,
    VMAdmin, VMCore, VMNetwork, VmError, VmOp,
};
use vstd::prelude::*;

verus! {

/// A deterministic stand-in for one backend instance.
///
/// `state` is the steady status the backend reports between operations.
/// `trace` holds the statuses the backend will report, in order, while the
/// next operation polls; observations are consumed from its front, and
/// once it runs out the instance stops resolving. `ack_count` is how many
/// instances the next state-change acknowledgment reports as
/// transitioning.
pub struct ScriptedVm {
    pub instance_id: String,
    pub state: String,
    pub trace: Vec<String>,
    pub ack_count: usize,
    pub public_ip: Option<String>,
}

impl ScriptedVm {
    /// Issues one state-change operation against the script: checks the
    /// acknowledgment, then reconciles by consuming observations from the
    /// front of `trace` until the operation's terminal status, an
    /// unacceptable status, or the end of the script.
    fn run_operation(&mut self, op: VmOp) -> (r: Result<String, VmError>)
        ensures
            final(self).instance_id == old(self).instance_id,
            final(self).ack_count == old(self).ack_count,
            final(self).public_ip == old(self).public_ip,
            old(self).ack_count != 1 ==> final(self).trace == old(self).trace && final(self).state
                == old(self).state,
            old(self).ack_count == 0 ==> r == Err::<String, VmError>(VmError::NoneAcknowledged),
            old(self).ack_count > 1 ==> r == Err::<String, VmError>(VmError::TooManyAcknowledged),
            old(self).ack_count == 1 ==> final(self).trace.deep_view() == old(
                self,
            ).trace.deep_view().skip(polls_consumed(op, old(self).trace.deep_view()) as int),
            (r is Ok) <==> (old(self).ack_count == 1 && trace_outcome(
                op,
                old(self).trace.deep_view(),
            ) is Converged),
            r matches Ok(s) ==> s@ == terminal_status(op) && final(self).state@ == terminal_status(
                op,
            ),
            r is Err ==> final(self).state == old(self).state,
            (old(self).ack_count == 1 && trace_outcome(op, old(self).trace.deep_view())
                is Vanished) ==> r == Err::<String, VmError>(VmError::MissingInstance),
            (old(self).ack_count == 1 && trace_outcome(op, old(self).trace.deep_view())
                is Anomalous) ==> (r matches Err(e) && e matches VmError::UnexpectedStatus(a) && a@
                == old(self).trace.deep_view()[polls_consumed(op, old(self).trace.deep_view())
                - 1]),
    {
        match check_ack(self.ack_count) {
            Ok(_) => {},
            Err(e) => {
                return Err(e);
            },
        }
        match drain_reconcile(&op, &mut self.trace) {
            Ok(s) => {
                self.state = s.clone();
                Ok(s)
            },
            Err(e) => Err(e),
        }
    }
}

impl VMCore for ScriptedVm {
    open spec fn id_view(&self) -> Seq<char> {
        self.instance_id@
    }

    open spec fn status_view(&self) -> Option<Seq<char>> {
        Some(self.state@)
    }

    /// A double is not resolved from a provider listing; it is built
    /// directly. Lookup therefore never finds one.
    fn retrieve(instance_id: &str, role_arn: &str) -> (r: Option<Self>) {
        None
    }

    fn status(&self) -> (r: Option<String>) {
        Some(self.state.clone())
    }

    fn stop(&mut self) -> (r: Result<String, VmError>)
        ensures
            final(self).instance_id == old(self).instance_id,
            final(self).ack_count == old(self).ack_count,
            final(self).public_ip == old(self).public_ip,
            old(self).ack_count != 1 ==> final(self).trace == old(self).trace && final(self).state
                == old(self).state,
            old(self).ack_count == 0 ==> r == Err::<String, VmError>(VmError::NoneAcknowledged),
            old(self).ack_count > 1 ==> r == Err::<String, VmError>(VmError::TooManyAcknowledged),
            old(self).ack_count == 1 ==> final(self).trace.deep_view() == old(
                self,
            ).trace.deep_view().skip(
                polls_consumed(VmOp::Stop, old(self).trace.deep_view()) as int,
            ),
            (r is Ok) <==> (old(self).ack_count == 1 && trace_outcome(
                VmOp::Stop,
                old(self).trace.deep_view(),
            ) is Converged),
            r is Err ==> final(self).state == old(self).state,
            (old(self).ack_count == 1 && trace_outcome(VmOp::Stop, old(self).trace.deep_view())
                is Vanished) ==> r == Err::<String, VmError>(VmError::MissingInstance),
            (old(self).ack_count == 1 && trace_outcome(VmOp::Stop, old(self).trace.deep_view())
                is Anomalous) ==> (r matches Err(e) && e matches VmError::UnexpectedStatus(a) && a@
                == old(self).trace.deep_view()[polls_consumed(
                VmOp::Stop,
                old(self).trace.deep_view(),
            ) - 1]),
    {
        self.run_operation(VmOp::Stop)
    }

    fn start(&mut self) -> (r: Result<String, VmError>)
        ensures
            final(self).instance_id == old(self).instance_id,
            final(self).ack_count == old(self).ack_count,
            final(self).public_ip == old(self).public_ip,
            old(self).ack_count != 1 ==> final(self).trace == old(self).trace && final(self).state
                == old(self).state,
            old(self).ack_count == 0 ==> r == Err::<String, VmError>(VmError::NoneAcknowledged),
            old(self).ack_count > 1 ==> r == Err::<String, VmError>(VmError::TooManyAcknowledged),
            old(self).ack_count == 1 ==> final(self).trace.deep_view() == old(
                self,
            ).trace.deep_view().skip(
                polls_consumed(VmOp::Start, old(self).trace.deep_view()) as int,
            ),
            (r is Ok) <==> (old(self).ack_count == 1 && trace_outcome(
                VmOp::Start,
                old(self).trace.deep_view(),
            ) is Converged),
            r is Err ==> final(self).state == old(self).state,
            (old(self).ack_count == 1 && trace_outcome(VmOp::Start, old(self).trace.deep_view())
                is Vanished) ==> r == Err::<String, VmError>(VmError::MissingInstance),
            (old(self).ack_count == 1 && trace_outcome(VmOp::Start, old(self).trace.deep_view())
                is Anomalous) ==> (r matches Err(e) && e matches VmError::UnexpectedStatus(a) && a@
                == old(self).trace.deep_view()[polls_consumed(
                VmOp::Start,
                old(self).trace.deep_view(),
            ) - 1]),
    {
        self.run_operation(VmOp::Start)
    }
}

impl Default for ScriptedVm {
    /// A fresh double: anonymous, stopped, with nothing scripted, whose
    /// acknowledgments report exactly one transitioning instance.
    fn default() -> (d: Self)
        ensures
            d.instance_id@ == Seq::<char>::empty(),
            d.state@ == "stopped"@,
            d.trace.deep_view() == Seq::<Seq<char>>::empty(),
            d.ack_count == 1,
            d.public_ip is None,
    {
        let d = ScriptedVm {
            instance_id: String::new(),
            state: "stopped".to_owned(),
            trace: Vec::new(),
            ack_count: 1,
            public_ip: None,
        };
        proof {
            assert(d.trace.deep_view() =~= Seq::<Seq<char>>::empty());
        }
        d
    }
}

impl VMAdmin for ScriptedVm {
    /// Provisioning a double yields a fresh instance whose backend has
    /// accepted the launch request and reports it as pending.
    fn new() -> (r: Self)
        ensures
            r.state@ == "pending"@,
            r.ack_count == 1,
            r.trace.deep_view() == Seq::<Seq<char>>::empty(),
    {
        let mut d = ScriptedVm::default();
        d.state = "pending".to_owned();
        d
    }

    /// Termination is acknowledged but not polled: the script is left
    /// untouched and the state moves straight to the acknowledgment's
    /// "shutting-down".
    fn terminate(&mut self) -> (r: Result<String, VmError>)
        ensures
            final(self).instance_id == old(self).instance_id,
            final(self).trace == old(self).trace,
            final(self).ack_count == old(self).ack_count,
            final(self).public_ip == old(self).public_ip,
            old(self).ack_count != 1 ==> final(self).state == old(self).state,
            old(self).ack_count == 0 ==> r == Err::<String, VmError>(VmError::NoneAcknowledged),
            old(self).ack_count > 1 ==> r == Err::<String, VmError>(VmError::TooManyAcknowledged),
            (r is Ok) <==> old(self).ack_count == 1,
            r matches Ok(s) ==> s@ == "shutting-down"@ && final(self).state@ == "shutting-down"@,
    {
        match check_ack(self.ack_count) {
            Ok(_) => {
                let s: String = "shutting-down".to_owned();
                self.state = s.clone();
                Ok(s)
            },
            Err(e) => Err(e),
        }
    }
}

impl VMNetwork for ScriptedVm {
    open spec fn public_ip_view(&self) -> Option<Seq<char>> {
        match self.public_ip {
            Some(s) => Some(s@),
            None => None,
        }
    }

    fn get_public_ip(&self) -> (r: Option<String>) {
        match &self.public_ip {
            Some(s) => Some(s.clone()),
            None => None,
        }
    }
}

} // verus!
