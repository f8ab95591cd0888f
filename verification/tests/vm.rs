use vmcontrol::double::ScriptedVm;
use vmcontrol::vm::{
    check_ack, drain_reconcile, poll_decision, single_target, PollDecision, VMAdmin, VMCore,
    VMNetwork, VmError, VmOp,
};

fn strings(fields: &[&str]) -> Vec<String> {
    fields.iter().map(|f| f.to_string()).collect()
}

fn double(state: &str, trace: &[&str], ack_count: usize) -> ScriptedVm {
    ScriptedVm {
        instance_id: "i-0123".to_string(),
        state: state.to_string(),
        trace: strings(trace),
        ack_count,
        public_ip: None,
    }
}

#[test]
fn check_ack_accepts_exactly_one() {
    assert_eq!(check_ack(1), Ok(()));
    assert_eq!(check_ack(0), Err(VmError::NoneAcknowledged));
    assert_eq!(check_ack(2), Err(VmError::TooManyAcknowledged));
    assert_eq!(check_ack(7), Err(VmError::TooManyAcknowledged));
}

#[test]
fn poll_decision_classifies_start_statuses() {
    assert_eq!(
        poll_decision(&VmOp::Start, &"running".to_string()),
        PollDecision::Settled
    );
    assert_eq!(
        poll_decision(&VmOp::Start, &"pending".to_string()),
        PollDecision::InProgress
    );
    assert_eq!(
        poll_decision(&VmOp::Start, &"stopped".to_string()),
        PollDecision::Anomaly
    );
}

#[test]
fn poll_decision_classifies_stop_statuses() {
    assert_eq!(
        poll_decision(&VmOp::Stop, &"stopped".to_string()),
        PollDecision::Settled
    );
    assert_eq!(
        poll_decision(&VmOp::Stop, &"stopping".to_string()),
        PollDecision::InProgress
    );
    assert_eq!(
        poll_decision(&VmOp::Stop, &"pending".to_string()),
        PollDecision::Anomaly
    );
}

#[test]
fn request_names_exactly_the_target() {
    assert_eq!(single_target("i-0123"), strings(&["i-0123"]));
}

#[test]
fn start_blocks_until_running() {
    let mut vm = double("stopped", &["pending", "pending", "running"], 1);
    let result = vm.start();
    assert_eq!(result.unwrap(), "running");
    assert_eq!(vm.status().unwrap(), "running");
    assert!(vm.trace.is_empty());
}

#[test]
fn stop_blocks_until_stopped() {
    let mut vm = double("running", &["stopping", "stopped"], 1);
    let result = vm.stop();
    assert_eq!(result.unwrap(), "stopped");
    assert_eq!(vm.status().unwrap(), "stopped");
}

#[test]
fn unexpected_status_during_start_aborts() {
    let mut vm = double("stopped", &["pending", "terminated", "running"], 1);
    let result = vm.start();
    assert_eq!(
        result.unwrap_err(),
        VmError::UnexpectedStatus("terminated".to_string())
    );
    assert_eq!(vm.state, "stopped");
}

#[test]
fn broad_acknowledgment_aborts_without_polling() {
    let mut vm = double("stopped", &["pending", "running"], 2);
    let result = vm.start();
    assert_eq!(result.unwrap_err(), VmError::TooManyAcknowledged);
    assert_eq!(vm.trace.len(), 2);
    assert_eq!(vm.state, "stopped");
}

#[test]
fn empty_acknowledgment_aborts_without_polling() {
    let mut vm = double("running", &["stopping", "stopped"], 0);
    let result = vm.stop();
    assert_eq!(result.unwrap_err(), VmError::NoneAcknowledged);
    assert_eq!(vm.trace.len(), 2);
}

#[test]
fn vanishing_instance_aborts_the_wait() {
    let mut vm = double("stopped", &["pending", "pending"], 1);
    let result = vm.start();
    assert_eq!(result.unwrap_err(), VmError::MissingInstance);
}

#[test]
fn drain_reconcile_consumes_through_the_decision() {
    let mut trace = strings(&["stopping", "stopping", "stopped", "stopped"]);
    let result = drain_reconcile(&VmOp::Stop, &mut trace);
    assert_eq!(result.unwrap(), "stopped");
    assert_eq!(trace, strings(&["stopped"]));
}

#[test]
fn terminate_is_acknowledged_but_not_polled() {
    let mut vm = double("running", &["stopping", "stopped"], 1);
    let result = vm.terminate();
    assert_eq!(result.unwrap(), "shutting-down");
    assert_eq!(vm.state, "shutting-down");
    assert_eq!(vm.trace.len(), 2);
}

#[test]
fn terminate_with_broad_acknowledgment_aborts() {
    let mut vm = double("running", &[], 3);
    let result = vm.terminate();
    assert_eq!(result.unwrap_err(), VmError::TooManyAcknowledged);
    assert_eq!(vm.state, "running");
}

#[test]
fn provisioned_double_is_pending() {
    let vm = <ScriptedVm as VMAdmin>::new();
    assert_eq!(vm.state, "pending");
    assert_eq!(vm.ack_count, 1);
}

#[test]
fn default_double_is_stopped() {
    let vm = ScriptedVm::default();
    assert_eq!(vm.state, "stopped");
    assert_eq!(vm.ack_count, 1);
    assert!(vm.trace.is_empty());
}

#[test]
fn double_is_not_resolved_by_lookup() {
    let vm = <ScriptedVm as VMCore>::retrieve("i-0123", "");
    assert!(vm.is_none());
}

#[test]
fn public_ip_reports_the_configured_address() {
    let mut vm = double("running", &[], 1);
    assert_eq!(vm.get_public_ip(), None);
    vm.public_ip = Some("198.51.100.7".to_string());
    assert_eq!(vm.get_public_ip(), Some("198.51.100.7".to_string()));
}
