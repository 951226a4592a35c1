use std::collections::HashMap;

use svcman::delete::delete_start;
use svcman::delete::delete_step;
use svcman::flow::Action;
use svcman::flow::Event;
use svcman::flow::FlowError;
use svcman::flow::Prompt;
use svcman::manager::ManagerOp;
use svcman::manager::ManagerRequest;

fn stored(files: &[(&str, &str)]) -> HashMap<String, String> {
    let mut map = HashMap::new();
    for (name, text) in files {
        map.insert(String::from(*name), String::from(*text));
    }
    map
}

#[test]
fn delete_keeps_file_when_disable_fails() {
    let mut files = stored(&[("api", "#example.com\n[Unit]\n")]);
    let (s, a) = delete_start(String::from("api"), true);
    match &a {
        Action::Manager { request: ManagerRequest::Disable { name, now } } => {
            assert_eq!(name.as_str(), "api");
            assert!(*now);
        },
        _ => panic!("expected the disable-and-stop call first"),
    }
    // the manager mock fails the disable-and-stop call
    let (_s, a) = delete_step(s, Event::Exit { code: 5 });
    match &a {
        Action::Fail { error } => assert_eq!(
            *error,
            FlowError::Manager { op: ManagerOp::Disable, status: 5 }
        ),
        Action::DeleteUnit { name } => {
            files.remove(name);
            panic!("the file must not be touched");
        },
        _ => panic!("expected the flow to stop"),
    }
    // the unit file still exists
    assert!(files.contains_key("api"));
}

#[test]
fn delete_removes_recovered_domain_once() {
    let mut files = stored(&[("api", "#example.com\n[Unit]\n")]);
    let mut removed: Vec<String> = Vec::new();
    let (s, a) = delete_start(String::from("api"), true);
    assert!(matches!(a, Action::Manager { .. }));
    let (s, a) = delete_step(s, Event::Exit { code: 0 });
    let first_line = match &a {
        Action::ReadFirstLine { name } => {
            files.get(name.as_str()).map(|text| {
                String::from(text.lines().next().unwrap_or(""))
            })
        },
        _ => panic!("expected the stored file to be read"),
    };
    let (s, a) = delete_step(s, Event::FirstLine { line: first_line });
    match &a {
        Action::RemoveDomain { domain } => {
            removed.push(domain.clone());
        },
        _ => panic!("expected the domain removal"),
    }
    let (s, a) = delete_step(s, Event::Exit { code: 0 });
    let (s, a) = match &a {
        Action::DeleteUnit { name } => {
            files.remove(name.as_str());
            delete_step(s, Event::FileOk)
        },
        _ => panic!("expected the file deletion"),
    };
    let _ = s;
    assert!(matches!(a, Action::Finish));
    assert_eq!(removed, vec![String::from("example.com")]);
    assert!(!files.contains_key("api"));
}

#[test]
fn delete_goes_on_when_domain_removal_fails() {
    let (s, _) = delete_start(String::from("api"), true);
    let (s, _) = delete_step(s, Event::Exit { code: 0 });
    let (s, a) = delete_step(
        s,
        Event::FirstLine { line: Some(String::from("#example.com")) },
    );
    assert!(matches!(a, Action::RemoveDomain { .. }));
    // best-effort: a failed removal does not block the deletion
    let (_s, a) = delete_step(s, Event::Exit { code: 9 });
    assert!(matches!(a, Action::DeleteUnit { .. }));
}

#[test]
fn delete_without_domain_comment() {
    let (s, _) = delete_start(String::from("worker"), true);
    let (s, a) = delete_step(s, Event::Exit { code: 0 });
    assert!(matches!(a, Action::ReadFirstLine { .. }));
    let (_s, a) = delete_step(
        s,
        Event::FirstLine { line: Some(String::from("[Unit]")) },
    );
    match &a {
        Action::DeleteUnit { name } => assert_eq!(name.as_str(), "worker"),
        _ => panic!("expected the file deletion with no domain removal"),
    }
}

#[test]
fn delete_with_unreadable_file() {
    let (s, _) = delete_start(String::from("worker"), true);
    let (s, _) = delete_step(s, Event::Exit { code: 0 });
    let (_s, a) = delete_step(s, Event::FirstLine { line: None });
    assert!(matches!(a, Action::DeleteUnit { .. }));
}

#[test]
fn delete_asks_for_confirmation() {
    let (s, a) = delete_start(String::from("api"), false);
    assert!(matches!(
        a,
        Action::Confirm { prompt: Prompt::DeleteService, default_yes: false }
    ));
    let (_s, a) = delete_step(s, Event::Confirmed { yes: false });
    assert!(matches!(a, Action::Fail { error: FlowError::UserAborted }));
}

#[test]
fn delete_confirmed_proceeds() {
    let (s, _) = delete_start(String::from("api"), false);
    let (_s, a) = delete_step(s, Event::Confirmed { yes: true });
    match &a {
        Action::Manager { request: ManagerRequest::Disable { name, now } } => {
            assert_eq!(name.as_str(), "api");
            assert!(*now);
        },
        _ => panic!("expected the disable-and-stop call"),
    }
}

#[test]
fn delete_reports_file_deletion_failure() {
    let (s, _) = delete_start(String::from("worker"), true);
    let (s, _) = delete_step(s, Event::Exit { code: 0 });
    let (s, a) = delete_step(s, Event::FirstLine { line: None });
    assert!(matches!(a, Action::DeleteUnit { .. }));
    let (_s, a) = delete_step(s, Event::FileFailed);
    assert!(matches!(a, Action::Fail { error: FlowError::Io }));
}
