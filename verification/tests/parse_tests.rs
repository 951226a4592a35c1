use svcman::flow::interpret_confirmation;
use svcman::flow::manager_result;
use svcman::flow::FlowError;
use svcman::manager::manager_args;
use svcman::manager::ManagerOp;
use svcman::manager::ManagerRequest;
use svcman::num::u64_to_string;
use svcman::registrar::add_domain_args;
use svcman::registrar::allocate_port_args;
use svcman::registrar::parse_port;
use svcman::registrar::port_answer;
use svcman::registrar::remove_domain_args;

#[test]
fn parse_port_plain_announcement() {
    assert_eq!(parse_port("Port 8080"), Some(8080));
}

#[test]
fn parse_port_inside_chatter() {
    assert_eq!(parse_port("allocating...\nChose Port 3000 for you\n"), Some(3000));
}

#[test]
fn parse_port_first_announcement_wins() {
    assert_eq!(parse_port("Port 1 then Port 2"), Some(1));
}

#[test]
fn parse_port_absent_pattern() {
    assert_eq!(parse_port("no ports today"), None);
    assert_eq!(parse_port("Port "), None);
    assert_eq!(parse_port("Port x"), None);
    assert_eq!(parse_port(""), None);
}

#[test]
fn parse_port_bounds() {
    assert_eq!(parse_port("Port 65535"), Some(65535));
    assert_eq!(parse_port("Port 65536"), None);
    assert_eq!(parse_port("Port 000080"), Some(80));
}

#[test]
fn port_answer_digits_only() {
    assert_eq!(port_answer("8080"), Some(8080));
    assert_eq!(port_answer("0"), Some(0));
    assert_eq!(port_answer("65535"), Some(65535));
    assert_eq!(port_answer("65536"), None);
    assert_eq!(port_answer("80a"), None);
    assert_eq!(port_answer(""), None);
}

#[test]
fn decimal_rendering() {
    assert_eq!(u64_to_string(0), "0");
    assert_eq!(u64_to_string(7), "7");
    assert_eq!(u64_to_string(8080), "8080");
    assert_eq!(u64_to_string(65535), "65535");
}

#[test]
fn manager_argument_lists() {
    assert_eq!(
        manager_args(&ManagerRequest::Start { name: String::from("api") }),
        vec!["--user", "start", "api"]
    );
    assert_eq!(
        manager_args(&ManagerRequest::Stop { name: String::from("api") }),
        vec!["--user", "stop", "api"]
    );
    assert_eq!(
        manager_args(&ManagerRequest::Enable { name: String::from("api"), now: true }),
        vec!["--user", "enable", "api", "--now"]
    );
    assert_eq!(
        manager_args(&ManagerRequest::Enable { name: String::from("api"), now: false }),
        vec!["--user", "enable", "api"]
    );
    assert_eq!(
        manager_args(&ManagerRequest::Disable { name: String::from("api"), now: true }),
        vec!["--user", "disable", "api", "--now"]
    );
    assert_eq!(
        manager_args(&ManagerRequest::DaemonReload),
        vec!["--user", "daemon-reload"]
    );
}

#[test]
fn registrar_argument_lists() {
    assert_eq!(allocate_port_args(), vec!["get-port"]);
    assert_eq!(
        add_domain_args("api.example.com", 8080),
        vec!["add", "api.example.com", "--proxy", "http://localhost:8080"]
    );
    assert_eq!(remove_domain_args("api.example.com"), vec!["remove", "api.example.com"]);
}

#[test]
fn confirmation_defaults() {
    assert!(interpret_confirmation("", true));
    assert!(interpret_confirmation("yes", true));
    assert!(!interpret_confirmation("n", true));
    assert!(!interpret_confirmation("N", true));
    assert!(!interpret_confirmation("", false));
    assert!(!interpret_confirmation("sure", false));
    assert!(interpret_confirmation("y", false));
    assert!(interpret_confirmation("Y", false));
}

#[test]
fn exit_status_reading() {
    assert_eq!(manager_result(ManagerOp::Start, 0), Ok(()));
    assert_eq!(
        manager_result(ManagerOp::Stop, 3),
        Err(FlowError::Manager { op: ManagerOp::Stop, status: 3 })
    );
}
