use std::collections::HashMap;

use svcman::create::create_start;
use svcman::create::create_step;
use svcman::create::CreateState;
use svcman::flow::Action;
use svcman::flow::Event;
use svcman::flow::FlowError;
use svcman::flow::Prompt;
use svcman::manager::ManagerOp;
use svcman::manager::ManagerRequest;

fn answer(text: &str) -> Event {
    Event::Answer { text: String::from(text) }
}

#[test]
fn create_with_auto_port_and_domain() {
    let (s, a) = create_start();
    assert!(matches!(a, Action::Ask { prompt: Prompt::Name }));
    let (s, a) = create_step(s, answer("api"));
    assert!(matches!(a, Action::Ask { prompt: Prompt::Description }));
    let (s, a) = create_step(s, answer(""));
    assert!(matches!(a, Action::Ask { prompt: Prompt::Directory }));
    let (s, a) = create_step(s, answer(""));
    assert!(matches!(a, Action::Ask { prompt: Prompt::Port }));
    let (s, a) = create_step(s, answer("auto"));
    assert!(matches!(a, Action::AllocatePort));
    let (s, a) = create_step(s, Event::AllocatorOutput { output: String::from("Port 8080") });
    assert!(matches!(a, Action::Ask { prompt: Prompt::PreStart }));
    match &s {
        CreateState::AskingPreStart { port, .. } => assert_eq!(*port, Some(8080)),
        _ => panic!("unexpected state"),
    }
    let (s, a) = create_step(s, answer(""));
    assert!(matches!(a, Action::Ask { prompt: Prompt::StartCommand }));
    let (s, a) = create_step(s, answer("npm start"));
    assert!(matches!(a, Action::Ask { prompt: Prompt::Domain }));
    let (s, a) = create_step(s, answer("api.example.com"));
    match &a {
        Action::AddDomain { domain, port } => {
            assert_eq!(domain.as_str(), "api.example.com");
            assert_eq!(*port, 8080);
        },
        _ => panic!("expected a domain registration"),
    }
    let (s, a) = create_step(s, Event::Exit { code: 0 });
    match &a {
        Action::WriteUnit { name, text } => {
            assert_eq!(name.as_str(), "api");
            assert_eq!(text.lines().next(), Some("#api.example.com"));
            assert!(text.contains("Environment=\"PORT=8080\""));
            assert!(text.contains("Description=api"));
        },
        _ => panic!("expected the unit file write"),
    }
    let (s, a) = create_step(s, Event::FileOk);
    assert!(matches!(
        a,
        Action::Manager { request: ManagerRequest::DaemonReload }
    ));
    let (s, a) = create_step(s, Event::Exit { code: 0 });
    assert!(matches!(
        a,
        Action::Confirm { prompt: Prompt::EnableNow, default_yes: true }
    ));
    let (_s, a) = create_step(s, Event::Confirmed { yes: false });
    assert!(matches!(a, Action::Finish));
}

#[test]
fn create_without_port() {
    let (s, a) = create_start();
    assert!(matches!(a, Action::Ask { prompt: Prompt::Name }));
    let (s, _) = create_step(s, answer("worker"));
    let (s, _) = create_step(s, answer("background worker"));
    let (s, _) = create_step(s, answer("/srv/worker"));
    let (s, a) = create_step(s, answer("-"));
    // no allocator call and, later, no domain prompt
    assert!(matches!(a, Action::Ask { prompt: Prompt::PreStart }));
    let (s, a) = create_step(s, answer(""));
    assert!(matches!(a, Action::Ask { prompt: Prompt::StartCommand }));
    let (_s, a) = create_step(s, answer("./run.sh"));
    match &a {
        Action::WriteUnit { name, text } => {
            assert_eq!(name.as_str(), "worker");
            assert!(!text.contains("Environment"));
            assert!(!text.starts_with('#'));
        },
        _ => panic!("expected the unit file write right after the start command"),
    }
}

#[test]
fn create_reasks_until_answers_are_usable() {
    let (s, a) = create_start();
    assert!(matches!(a, Action::Ask { prompt: Prompt::Name }));
    let (s, a) = create_step(s, answer(""));
    assert!(matches!(a, Action::Ask { prompt: Prompt::Name }));
    let (s, _) = create_step(s, answer("api"));
    let (s, _) = create_step(s, answer(""));
    let (s, _) = create_step(s, answer(""));
    let (s, a) = create_step(s, answer("not-a-port"));
    assert!(matches!(a, Action::Ask { prompt: Prompt::Port }));
    let (s, a) = create_step(s, answer("-"));
    assert!(matches!(a, Action::Ask { prompt: Prompt::PreStart }));
    let (s, _) = create_step(s, answer(""));
    let (s, a) = create_step(s, answer(""));
    assert!(matches!(a, Action::Ask { prompt: Prompt::StartCommand }));
    let (_s, a) = create_step(s, answer("./run.sh"));
    assert!(matches!(a, Action::WriteUnit { .. }));
}

#[test]
fn create_fails_when_no_port_is_announced() {
    let (s, _) = create_start();
    let (s, _) = create_step(s, answer("api"));
    let (s, _) = create_step(s, answer(""));
    let (s, _) = create_step(s, answer(""));
    let (s, a) = create_step(s, answer(""));
    assert!(matches!(a, Action::AllocatePort));
    let (_s, a) = create_step(s, Event::AllocatorOutput { output: String::from("no luck") });
    assert!(matches!(a, Action::Fail { error: FlowError::PortNotFound }));
}

#[test]
fn create_fails_when_registration_fails() {
    let (s, _) = create_start();
    let (s, _) = create_step(s, answer("api"));
    let (s, _) = create_step(s, answer(""));
    let (s, _) = create_step(s, answer(""));
    let (s, _) = create_step(s, answer("8080"));
    let (s, _) = create_step(s, answer(""));
    let (s, _) = create_step(s, answer("npm start"));
    let (s, a) = create_step(s, answer("api.example.com"));
    assert!(matches!(a, Action::AddDomain { .. }));
    let (_s, a) = create_step(s, Event::Exit { code: 7 });
    assert!(matches!(
        a,
        Action::Fail { error: FlowError::RegistrationFailed { status: 7 } }
    ));
}

#[test]
fn create_fails_when_write_fails() {
    let (s, _) = create_start();
    let (s, _) = create_step(s, answer("worker"));
    let (s, _) = create_step(s, answer(""));
    let (s, _) = create_step(s, answer(""));
    let (s, _) = create_step(s, answer("-"));
    let (s, _) = create_step(s, answer(""));
    let (s, a) = create_step(s, answer("./run.sh"));
    assert!(matches!(a, Action::WriteUnit { .. }));
    let (_s, a) = create_step(s, Event::FileFailed);
    assert!(matches!(a, Action::Fail { error: FlowError::Io }));
}

#[test]
fn create_rolls_back_when_reload_fails() {
    // a model file system, driven by the actions the flow asks for
    let mut files: HashMap<String, String> = HashMap::new();
    let (s, _) = create_start();
    let (s, _) = create_step(s, answer("api"));
    let (s, _) = create_step(s, answer(""));
    let (s, _) = create_step(s, answer(""));
    let (s, _) = create_step(s, answer("-"));
    let (s, _) = create_step(s, answer(""));
    let (s, a) = create_step(s, answer("./run.sh"));
    let written_name = match &a {
        Action::WriteUnit { name, text } => {
            files.insert(name.clone(), text.clone());
            name.clone()
        },
        _ => panic!("expected the unit file write"),
    };
    assert!(files.contains_key("api"));
    let (s, a) = create_step(s, Event::FileOk);
    assert!(matches!(
        a,
        Action::Manager { request: ManagerRequest::DaemonReload }
    ));
    // the manager mock fails the daemon reload
    let (s, a) = create_step(s, Event::Exit { code: 1 });
    match &a {
        Action::DeleteUnit { name } => {
            assert_eq!(*name, written_name);
            files.remove(name);
        },
        _ => panic!("expected the compensating delete"),
    }
    let (_s, a) = create_step(s, Event::FileOk);
    assert!(matches!(
        a,
        Action::Fail {
            error: FlowError::Manager { op: ManagerOp::DaemonReload, status: 1 },
        }
    ));
    // after the failed create, the unit file for that name is gone
    assert!(!files.contains_key("api"));
}

#[test]
fn create_reports_enable_failure() {
    let (s, _) = create_start();
    let (s, _) = create_step(s, answer("worker"));
    let (s, _) = create_step(s, answer(""));
    let (s, _) = create_step(s, answer(""));
    let (s, _) = create_step(s, answer("-"));
    let (s, _) = create_step(s, answer(""));
    let (s, _) = create_step(s, answer("./run.sh"));
    let (s, _) = create_step(s, Event::FileOk);
    let (s, a) = create_step(s, Event::Exit { code: 0 });
    assert!(matches!(
        a,
        Action::Confirm { prompt: Prompt::EnableNow, default_yes: true }
    ));
    let (s, a) = create_step(s, Event::Confirmed { yes: true });
    match &a {
        Action::Manager { request: ManagerRequest::Enable { name, now } } => {
            assert_eq!(name.as_str(), "worker");
            assert!(*now);
        },
        _ => panic!("expected the enable call"),
    }
    let (_s, a) = create_step(s, Event::Exit { code: 4 });
    assert!(matches!(
        a,
        Action::Fail { error: FlowError::Manager { op: ManagerOp::Enable, status: 4 } }
    ));
}
