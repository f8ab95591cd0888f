use vmcontrol::ssh::{compose_exec_result, exit_code_text, ssh_endpoint};

#[test]
fn endpoint_appends_the_standard_port() {
    assert_eq!(ssh_endpoint("198.51.100.7"), "198.51.100.7:22");
}

#[test]
fn exit_codes_render_in_decimal() {
    assert_eq!(exit_code_text(0), "0");
    assert_eq!(exit_code_text(7), "7");
    assert_eq!(exit_code_text(255), "255");
    assert_eq!(exit_code_text(-17), "-17");
    assert_eq!(exit_code_text(i32::MAX), "2147483647");
    assert_eq!(exit_code_text(i32::MIN), "-2147483648");
}

#[test]
fn command_result_is_output_then_exit_status() {
    assert_eq!(compose_exec_result("all good\n", 0), "all good\n0");
    assert_eq!(compose_exec_result("", 130), "130");
}
