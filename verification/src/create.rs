//! The create flow: the state machine that gathers the descriptor
//! interactively, resolves the port, registers the domain, writes the
//! unit file, reloads the manager — and, when the reload fails, rolls
//! the file write back.
//!
//! Ordering: the domain registration happens before the file write, the
//! file write before the reload, and the rollback undoes only the file,
//! never the registration.

use vstd::prelude::*;

use crate::descriptor::DescriptorModel;
use crate::descriptor::ServiceDescriptor;
use crate::flow::Action;
use crate::flow::ActionModel;
use crate::flow::Event;
use crate::flow::EventModel;
use crate::flow::FlowError;
use crate::flow::Prompt;
use crate::flow::spec_files_after;
use crate::flow::string_is;
use crate::manager::ManagerOp;
use crate::manager::ManagerRequest;
use crate::manager::ManagerRequestModel;
use crate::registrar::parse_port;
use crate::registrar::port_answer;
use crate::registrar::spec_port_answer;
use crate::registrar::spec_port_of;
use crate::render::render;
use crate::render::spec_render;

verus! {

/// Where the create flow stands: which answer or outcome it waits for,
/// and the fields gathered so far.
pub enum CreateState {
    AskingName,
    AskingDescription { name: String },
    AskingDirectory { name: String, description: String },
    AskingPort { name: String, description: String, directory: String },
    AwaitingAllocator { name: String, description: String, directory: String },
    AskingPreStart {
        name: String,
        description: String,
        directory: String,
        port: Option<u16>,
    },
    AskingStartCommand {
        name: String,
        description: String,
        directory: String,
        port: Option<u16>,
        pre_start_command: Option<String>,
    },
    AskingDomain {
        name: String,
        description: String,
        directory: String,
        port: u16,
        pre_start_command: Option<String>,
        start_command: String,
    },
    AwaitingRegistration {
        name: String,
        description: String,
        directory: String,
        port: u16,
        pre_start_command: Option<String>,
        start_command: String,
        domain: String,
    },
    AwaitingWrite { descriptor: ServiceDescriptor },
    AwaitingReload { name: String },
    RollingBack { name: String, status: i32 },
    ConfirmingEnable { name: String },
    AwaitingEnable { name: String },
    Finished,
    Failed { error: FlowError },
}

/// The mathematical model of a create-flow state.
pub ghost enum CreateStateModel {
    AskingName,
    AskingDescription { name: Seq<char> },
    AskingDirectory { name: Seq<char>, description: Seq<char> },
    AskingPort { name: Seq<char>, description: Seq<char>, directory: Seq<char> },
    AwaitingAllocator { name: Seq<char>, description: Seq<char>, directory: Seq<char> },
    AskingPreStart {
        name: Seq<char>,
        description: Seq<char>,
        directory: Seq<char>,
        port: Option<u16>,
    },
    AskingStartCommand {
        name: Seq<char>,
        description: Seq<char>,
        directory: Seq<char>,
        port: Option<u16>,
        pre_start_command: Option<Seq<char>>,
    },
    AskingDomain {
        name: Seq<char>,
        description: Seq<char>,
        directory: Seq<char>,
        port: u16,
        pre_start_command: Option<Seq<char>>,
        start_command: Seq<char>,
    },
    AwaitingRegistration {
        name: Seq<char>,
        description: Seq<char>,
        directory: Seq<char>,
        port: u16,
        pre_start_command: Option<Seq<char>>,
        start_command: Seq<char>,
        domain: Seq<char>,
    },
    AwaitingWrite { descriptor: DescriptorModel },
    AwaitingReload { name: Seq<char> },
    RollingBack { name: Seq<char>, status: i32 },
    ConfirmingEnable { name: Seq<char> },
    AwaitingEnable { name: Seq<char> },
    Finished,
    Failed { error: FlowError },
}

impl View for CreateState {
    type V = CreateStateModel;

    open spec fn view(&self) -> CreateStateModel {
        match self {
            CreateState::AskingName => CreateStateModel::AskingName,
            CreateState::AskingDescription { name } => CreateStateModel::AskingDescription {
                name: name@,
            },
            CreateState::AskingDirectory { name, description } => {
                CreateStateModel::AskingDirectory { name: name@, description: description@ }
            },
            CreateState::AskingPort { name, description, directory } => {
                CreateStateModel::AskingPort {
                    name: name@,
                    description: description@,
                    directory: directory@,
                }
            },
            CreateState::AwaitingAllocator { name, description, directory } => {
                CreateStateModel::AwaitingAllocator {
                    name: name@,
                    description: description@,
                    directory: directory@,
                }
            },
            CreateState::AskingPreStart { name, description, directory, port } => {
                CreateStateModel::AskingPreStart {
                    name: name@,
                    description: description@,
                    directory: directory@,
                    port: *port,
                }
            },
            CreateState::AskingStartCommand {
                name,
                description,
                directory,
                port,
                pre_start_command,
            } => CreateStateModel::AskingStartCommand {
                name: name@,
                description: description@,
                directory: directory@,
                port: *port,
                pre_start_command: pre_start_command.deep_view(),
            },
            CreateState::AskingDomain {
                name,
                description,
                directory,
                port,
                pre_start_command,
                start_command,
            } => CreateStateModel::AskingDomain {
                name: name@,
                description: description@,
                directory: directory@,
                port: *port,
                pre_start_command: pre_start_command.deep_view(),
                start_command: start_command@,
            },
            CreateState::AwaitingRegistration {
                name,
                description,
                directory,
                port,
                pre_start_command,
                start_command,
                domain,
            } => CreateStateModel::AwaitingRegistration {
                name: name@,
                description: description@,
                directory: directory@,
                port: *port,
                pre_start_command: pre_start_command.deep_view(),
                start_command: start_command@,
                domain: domain@,
            },
            CreateState::AwaitingWrite { descriptor } => CreateStateModel::AwaitingWrite {
                descriptor: descriptor@,
            },
            CreateState::AwaitingReload { name } => CreateStateModel::AwaitingReload {
                name: name@,
            },
            CreateState::RollingBack { name, status } => CreateStateModel::RollingBack {
                name: name@,
                status: *status,
            },
            CreateState::ConfirmingEnable { name } => CreateStateModel::ConfirmingEnable {
                name: name@,
            },
            CreateState::AwaitingEnable { name } => CreateStateModel::AwaitingEnable {
                name: name@,
            },
            CreateState::Finished => CreateStateModel::Finished,
            CreateState::Failed { error } => CreateStateModel::Failed { error: *error },
        }
    }
}

/// The create flow's invariant: a gathered name is never empty, and a
/// descriptor about to be written is well-formed.
pub open spec fn create_inv(s: CreateStateModel) -> bool {
    match s {
        CreateStateModel::AskingName => true,
        CreateStateModel::AskingDescription { name } => name.len() > 0,
        CreateStateModel::AskingDirectory { name, .. } => name.len() > 0,
        CreateStateModel::AskingPort { name, .. } => name.len() > 0,
        CreateStateModel::AwaitingAllocator { name, .. } => name.len() > 0,
        CreateStateModel::AskingPreStart { name, .. } => name.len() > 0,
        CreateStateModel::AskingStartCommand { name, .. } => name.len() > 0,
        CreateStateModel::AskingDomain { name, .. } => name.len() > 0,
        CreateStateModel::AwaitingRegistration { name, .. } => name.len() > 0,
        CreateStateModel::AwaitingWrite { descriptor } => descriptor.wf(),
        CreateStateModel::AwaitingReload { .. } => true,
        CreateStateModel::RollingBack { .. } => true,
        CreateStateModel::ConfirmingEnable { .. } => true,
        CreateStateModel::AwaitingEnable { .. } => true,
        CreateStateModel::Finished => true,
        CreateStateModel::Failed { .. } => true,
    }
}

/// One step of the create flow: from the current state and the event
/// that answers its pending action, to the next state and the next
/// action. `None` where the event is not the answer the state waits for.
pub open spec fn spec_create_step(s: CreateStateModel, e: EventModel) -> Option<
    (CreateStateModel, ActionModel),
> {
    match (s, e) {
        (CreateStateModel::AskingName, EventModel::Answer { text }) => {
            if text.len() == 0 {
                Some((CreateStateModel::AskingName, ActionModel::Ask { prompt: Prompt::Name }))
            } else {
                Some(
                    (
                        CreateStateModel::AskingDescription { name: text },
                        ActionModel::Ask { prompt: Prompt::Description },
                    ),
                )
            }
        },
        (CreateStateModel::AskingDescription { name }, EventModel::Answer { text }) => {
            let description = if text.len() == 0 {
                name
            } else {
                text
            };
            Some(
                (
                    CreateStateModel::AskingDirectory { name, description },
                    ActionModel::Ask { prompt: Prompt::Directory },
                ),
            )
        },
        (CreateStateModel::AskingDirectory { name, description }, EventModel::Answer { text }) => {
            let directory = if text.len() == 0 {
                "%h"@
            } else {
                text
            };
            Some(
                (
                    CreateStateModel::AskingPort { name, description, directory },
                    ActionModel::Ask { prompt: Prompt::Port },
                ),
            )
        },
        (
            CreateStateModel::AskingPort { name, description, directory },
            EventModel::Answer { text },
        ) => {
            if text.len() == 0 || text == "auto"@ {
                Some(
                    (
                        CreateStateModel::AwaitingAllocator { name, description, directory },
                        ActionModel::AllocatePort,
                    ),
                )
            } else if text == "-"@ {
                Some(
                    (
                        CreateStateModel::AskingPreStart {
                            name,
                            description,
                            directory,
                            port: None,
                        },
                        ActionModel::Ask { prompt: Prompt::PreStart },
                    ),
                )
            } else {
                match spec_port_answer(text) {
                    Some(p) => Some(
                        (
                            CreateStateModel::AskingPreStart {
                                name,
                                description,
                                directory,
                                port: Some(p),
                            },
                            ActionModel::Ask { prompt: Prompt::PreStart },
                        ),
                    ),
                    None => Some(
                        (
                            CreateStateModel::AskingPort { name, description, directory },
                            ActionModel::Ask { prompt: Prompt::Port },
                        ),
                    ),
                }
            }
        },
        (
            CreateStateModel::AwaitingAllocator { name, description, directory },
            EventModel::AllocatorOutput { output },
        ) => {
            match spec_port_of(output) {
                Some(p) => Some(
                    (
                        CreateStateModel::AskingPreStart {
                            name,
                            description,
                            directory,
                            port: Some(p),
                        },
                        ActionModel::Ask { prompt: Prompt::PreStart },
                    ),
                ),
                None => Some(
                    (
                        CreateStateModel::Failed { error: FlowError::PortNotFound },
                        ActionModel::Fail { error: FlowError::PortNotFound },
                    ),
                ),
            }
        },
        (
            CreateStateModel::AskingPreStart { name, description, directory, port },
            EventModel::Answer { text },
        ) => {
            let pre_start_command = if text.len() == 0 {
                None
            } else {
                Some(text)
            };
            Some(
                (
                    CreateStateModel::AskingStartCommand {
                        name,
                        description,
                        directory,
                        port,
                        pre_start_command,
                    },
                    ActionModel::Ask { prompt: Prompt::StartCommand },
                ),
            )
        },
        (
            CreateStateModel::AskingStartCommand {
                name,
                description,
                directory,
                port,
                pre_start_command,
            },
            EventModel::Answer { text },
        ) => {
            if text.len() == 0 {
                Some(
                    (
                        CreateStateModel::AskingStartCommand {
                            name,
                            description,
                            directory,
                            port,
                            pre_start_command,
                        },
                        ActionModel::Ask { prompt: Prompt::StartCommand },
                    ),
                )
            } else {
                match port {
                    Some(p) => Some(
                        (
                            CreateStateModel::AskingDomain {
                                name,
                                description,
                                directory,
                                port: p,
                                pre_start_command,
                                start_command: text,
                            },
                            ActionModel::Ask { prompt: Prompt::Domain },
                        ),
                    ),
                    None => {
                        let descriptor = DescriptorModel {
                            name,
                            description,
                            directory,
                            port: None,
                            pre_start_command,
                            start_command: text,
                            registered_domain: None,
                        };
                        Some(
                            (
                                CreateStateModel::AwaitingWrite { descriptor },
                                ActionModel::WriteUnit {
                                    name,
                                    text: spec_render(descriptor),
                                },
                            ),
                        )
                    },
                }
            }
        },
        (
            CreateStateModel::AskingDomain {
                name,
                description,
                directory,
                port,
                pre_start_command,
                start_command,
            },
            EventModel::Answer { text },
        ) => {
            if text.len() == 0 {
                Some(
                    (
                        CreateStateModel::AskingDomain {
                            name,
                            description,
                            directory,
                            port,
                            pre_start_command,
                            start_command,
                        },
                        ActionModel::Ask { prompt: Prompt::Domain },
                    ),
                )
            } else {
                Some(
                    (
                        CreateStateModel::AwaitingRegistration {
                            name,
                            description,
                            directory,
                            port,
                            pre_start_command,
                            start_command,
                            domain: text,
                        },
                        ActionModel::AddDomain { domain: text, port },
                    ),
                )
            }
        },
        (
            CreateStateModel::AwaitingRegistration {
                name,
                description,
                directory,
                port,
                pre_start_command,
                start_command,
                domain,
            },
            EventModel::Exit { code },
        ) => {
            if code == 0 {
                let descriptor = DescriptorModel {
                    name,
                    description,
                    directory,
                    port: Some(port),
                    pre_start_command,
                    start_command,
                    registered_domain: Some(domain),
                };
                Some(
                    (
                        CreateStateModel::AwaitingWrite { descriptor },
                        ActionModel::WriteUnit { name, text: spec_render(descriptor) },
                    ),
                )
            } else {
                let error = FlowError::RegistrationFailed { status: code };
                Some(
                    (CreateStateModel::Failed { error }, ActionModel::Fail { error }),
                )
            }
        },
        (CreateStateModel::AwaitingWrite { descriptor }, EventModel::FileOk) => Some(
            (
                CreateStateModel::AwaitingReload { name: descriptor.name },
                ActionModel::Manager { request: ManagerRequestModel::DaemonReload },
            ),
        ),
        (CreateStateModel::AwaitingWrite { .. }, EventModel::FileFailed) => Some(
            (
                CreateStateModel::Failed { error: FlowError::Io },
                ActionModel::Fail { error: FlowError::Io },
            ),
        ),
        (CreateStateModel::AwaitingReload { name }, EventModel::Exit { code }) => {
            if code == 0 {
                Some(
                    (
                        CreateStateModel::ConfirmingEnable { name },
                        ActionModel::Confirm { prompt: Prompt::EnableNow, default_yes: true },
                    ),
                )
            } else {
                Some(
                    (
                        CreateStateModel::RollingBack { name, status: code },
                        ActionModel::DeleteUnit { name },
                    ),
                )
            }
        },
        (CreateStateModel::RollingBack { status, .. }, EventModel::FileOk) => {
            let error = FlowError::Manager { op: ManagerOp::DaemonReload, status };
            Some((CreateStateModel::Failed { error }, ActionModel::Fail { error }))
        },
        (CreateStateModel::RollingBack { status, .. }, EventModel::FileFailed) => {
            let error = FlowError::Manager { op: ManagerOp::DaemonReload, status };
            Some((CreateStateModel::Failed { error }, ActionModel::Fail { error }))
        },
        (CreateStateModel::ConfirmingEnable { name }, EventModel::Confirmed { yes }) => {
            if yes {
                Some(
                    (
                        CreateStateModel::AwaitingEnable { name },
                        ActionModel::Manager {
                            request: ManagerRequestModel::Enable { name, now: true },
                        },
                    ),
                )
            } else {
                Some((CreateStateModel::Finished, ActionModel::Finish))
            }
        },
        (CreateStateModel::AwaitingEnable { .. }, EventModel::Exit { code }) => {
            if code == 0 {
                Some((CreateStateModel::Finished, ActionModel::Finish))
            } else {
                let error = FlowError::Manager { op: ManagerOp::Enable, status: code };
                Some((CreateStateModel::Failed { error }, ActionModel::Fail { error }))
            }
        },
        _ => None,
    }
}

/// Where the create flow begins: asking for the service name.
pub fn create_start() -> (r: (CreateState, Action))
    ensures
        r.0@ == CreateStateModel::AskingName,
        r.1@ == (ActionModel::Ask { prompt: Prompt::Name }),
        create_inv(r.0@),
{
    (CreateState::AskingName, Action::Ask { prompt: Prompt::Name })
}

/// Performs one step of the create flow, exactly as [`spec_create_step`]
/// states, and keeps the flow's invariant.
pub fn create_step(s: CreateState, e: Event) -> (r: (CreateState, Action))
    requires
        create_inv(s@),
        spec_create_step(s@, e@) is Some,
    ensures
        spec_create_step(s@, e@) == Some((r.0@, r.1@)),
        create_inv(r.0@),
{
    match (s, e) {
        (CreateState::AskingName, Event::Answer { text }) => {
            if text.as_str().is_empty() {
                (CreateState::AskingName, Action::Ask { prompt: Prompt::Name })
            } else {
                (
                    CreateState::AskingDescription { name: text },
                    Action::Ask { prompt: Prompt::Description },
                )
            }
        },
        (CreateState::AskingDescription { name }, Event::Answer { text }) => {
            let description = if text.as_str().is_empty() {
                name.clone()
            } else {
                text
            };
            (
                CreateState::AskingDirectory { name, description },
                Action::Ask { prompt: Prompt::Directory },
            )
        },
        (CreateState::AskingDirectory { name, description }, Event::Answer { text }) => {
            let directory = if text.as_str().is_empty() {
                String::from_str("%h")
            } else {
                text
            };
            (
                CreateState::AskingPort { name, description, directory },
                Action::Ask { prompt: Prompt::Port },
            )
        },
        (CreateState::AskingPort { name, description, directory }, Event::Answer { text }) => {
            if text.as_str().is_empty() || string_is(&text, "auto") {
                (
                    CreateState::AwaitingAllocator { name, description, directory },
                    Action::AllocatePort,
                )
            } else if string_is(&text, "-") {
                (
                    CreateState::AskingPreStart { name, description, directory, port: None },
                    Action::Ask { prompt: Prompt::PreStart },
                )
            } else {
                match port_answer(text.as_str()) {
                    Some(p) => (
                        CreateState::AskingPreStart {
                            name,
                            description,
                            directory,
                            port: Some(p),
                        },
                        Action::Ask { prompt: Prompt::PreStart },
                    ),
                    None => (
                        CreateState::AskingPort { name, description, directory },
                        Action::Ask { prompt: Prompt::Port },
                    ),
                }
            }
        },
        (
            CreateState::AwaitingAllocator { name, description, directory },
            Event::AllocatorOutput { output },
        ) => {
            match parse_port(output.as_str()) {
                Some(p) => (
                    CreateState::AskingPreStart { name, description, directory, port: Some(p) },
                    Action::Ask { prompt: Prompt::PreStart },
                ),
                None => (
                    CreateState::Failed { error: FlowError::PortNotFound },
                    Action::Fail { error: FlowError::PortNotFound },
                ),
            }
        },
        (
            CreateState::AskingPreStart { name, description, directory, port },
            Event::Answer { text },
        ) => {
            let pre_start_command = if text.as_str().is_empty() {
                None
            } else {
                Some(text)
            };
            (
                CreateState::AskingStartCommand {
                    name,
                    description,
                    directory,
                    port,
                    pre_start_command,
                },
                Action::Ask { prompt: Prompt::StartCommand },
            )
        },
        (
            CreateState::AskingStartCommand {
                name,
                description,
                directory,
                port,
                pre_start_command,
            },
            Event::Answer { text },
        ) => {
            if text.as_str().is_empty() {
                (
                    CreateState::AskingStartCommand {
                        name,
                        description,
                        directory,
                        port,
                        pre_start_command,
                    },
                    Action::Ask { prompt: Prompt::StartCommand },
                )
            } else {
                match port {
                    Some(p) => (
                        CreateState::AskingDomain {
                            name,
                            description,
                            directory,
                            port: p,
                            pre_start_command,
                            start_command: text,
                        },
                        Action::Ask { prompt: Prompt::Domain },
                    ),
                    None => {
                        let file_name = name.clone();
                        match ServiceDescriptor::new(
                            name,
                            description,
                            directory,
                            None,
                            pre_start_command,
                            text,
                            None,
                        ) {
                            Some(descriptor) => {
                                let unit_text = render(&descriptor);
                                (
                                    CreateState::AwaitingWrite { descriptor },
                                    Action::WriteUnit { name: file_name, text: unit_text },
                                )
                            },
                            None => unreached(),
                        }
                    },
                }
            }
        },
        (
            CreateState::AskingDomain {
                name,
                description,
                directory,
                port,
                pre_start_command,
                start_command,
            },
            Event::Answer { text },
        ) => {
            if text.as_str().is_empty() {
                (
                    CreateState::AskingDomain {
                        name,
                        description,
                        directory,
                        port,
                        pre_start_command,
                        start_command,
                    },
                    Action::Ask { prompt: Prompt::Domain },
                )
            } else {
                let domain = text.clone();
                (
                    CreateState::AwaitingRegistration {
                        name,
                        description,
                        directory,
                        port,
                        pre_start_command,
                        start_command,
                        domain,
                    },
                    Action::AddDomain { domain: text, port },
                )
            }
        },
        (
            CreateState::AwaitingRegistration {
                name,
                description,
                directory,
                port,
                pre_start_command,
                start_command,
                domain,
            },
            Event::Exit { code },
        ) => {
            if code == 0 {
                let file_name = name.clone();
                match ServiceDescriptor::new(
                    name,
                    description,
                    directory,
                    Some(port),
                    pre_start_command,
                    start_command,
                    Some(domain),
                ) {
                    Some(descriptor) => {
                        let unit_text = render(&descriptor);
                        (
                            CreateState::AwaitingWrite { descriptor },
                            Action::WriteUnit { name: file_name, text: unit_text },
                        )
                    },
                    None => unreached(),
                }
            } else {
                let error = FlowError::RegistrationFailed { status: code };
                (CreateState::Failed { error }, Action::Fail { error })
            }
        },
        (CreateState::AwaitingWrite { descriptor }, Event::FileOk) => {
            let name = descriptor.name().clone();
            (
                CreateState::AwaitingReload { name },
                Action::Manager { request: ManagerRequest::DaemonReload },
            )
        },
        (CreateState::AwaitingWrite { .. }, Event::FileFailed) => (
            CreateState::Failed { error: FlowError::Io },
            Action::Fail { error: FlowError::Io },
        ),
        (CreateState::AwaitingReload { name }, Event::Exit { code }) => {
            if code == 0 {
                (
                    CreateState::ConfirmingEnable { name },
                    Action::Confirm { prompt: Prompt::EnableNow, default_yes: true },
                )
            } else {
                let file_name = name.clone();
                (
                    CreateState::RollingBack { name, status: code },
                    Action::DeleteUnit { name: file_name },
                )
            }
        },
        (CreateState::RollingBack { status, .. }, Event::FileOk) => {
            let error = FlowError::Manager { op: ManagerOp::DaemonReload, status };
            (CreateState::Failed { error }, Action::Fail { error })
        },
        (CreateState::RollingBack { status, .. }, Event::FileFailed) => {
            let error = FlowError::Manager { op: ManagerOp::DaemonReload, status };
            (CreateState::Failed { error }, Action::Fail { error })
        },
        (CreateState::ConfirmingEnable { name }, Event::Confirmed { yes }) => {
            if yes {
                let unit = name.clone();
                (
                    CreateState::AwaitingEnable { name },
                    Action::Manager { request: ManagerRequest::Enable { name: unit, now: true } },
                )
            } else {
                (CreateState::Finished, Action::Finish)
            }
        },
        (CreateState::AwaitingEnable { .. }, Event::Exit { code }) => {
            if code == 0 {
                (CreateState::Finished, Action::Finish)
            } else {
                let error = FlowError::Manager { op: ManagerOp::Enable, status: code };
                (CreateState::Failed { error }, Action::Fail { error })
            }
        },
        _ => unreached(),
    }
}

/// Create rollback: when the daemon reload fails after the unit file was
/// written, the flow's next action deletes exactly the file it wrote,
/// and the flow then fails with the reload's manager error — whether or
/// not the compensating delete itself succeeded.
pub proof fn lemma_create_rollback(name: Seq<char>, code: i32)
    requires
        code != 0,
    ensures
        spec_create_step(
            CreateStateModel::AwaitingReload { name },
            EventModel::Exit { code },
        ) == Some(
            (
                CreateStateModel::RollingBack { name, status: code },
                ActionModel::DeleteUnit { name },
            ),
        ),
        spec_create_step(
            CreateStateModel::RollingBack { name, status: code },
            EventModel::FileOk,
        ) == Some(
            (
                CreateStateModel::Failed {
                    error: FlowError::Manager { op: ManagerOp::DaemonReload, status: code },
                },
                ActionModel::Fail {
                    error: FlowError::Manager { op: ManagerOp::DaemonReload, status: code },
                },
            ),
        ),
        spec_create_step(
            CreateStateModel::RollingBack { name, status: code },
            EventModel::FileFailed,
        ) == Some(
            (
                CreateStateModel::Failed {
                    error: FlowError::Manager { op: ManagerOp::DaemonReload, status: code },
                },
                ActionModel::Fail {
                    error: FlowError::Manager { op: ManagerOp::DaemonReload, status: code },
                },
            ),
        ),
{
}

/// Create ordering: the unit file is written only with the descriptor
/// complete — either no domain was asked for, or its registration call
/// has already succeeded — so the rollback never has to undo a
/// registration; and the file the flow writes is named by the rendered
/// descriptor itself.
pub proof fn lemma_write_follows_registration(s: CreateStateModel, e: EventModel)
    ensures
        match spec_create_step(s, e) {
            Some((s2, a)) => {
                &&& match a {
                    ActionModel::WriteUnit { name, text } => match s2 {
                        CreateStateModel::AwaitingWrite { descriptor } => {
                            &&& name == descriptor.name
                            &&& text == spec_render(descriptor)
                            &&& ((s is AskingStartCommand && descriptor.registered_domain is None)
                                || (s is AwaitingRegistration && e == (EventModel::Exit { code: 0 })
                                && descriptor.registered_domain is Some))
                        },
                        _ => false,
                    },
                    _ => true,
                }
                &&& (a is AddDomain ==> s is AskingDomain)
            },
            None => true,
        },
{
}

/// Create ordering: the daemon reload is requested only once the unit
/// file of that very name was written successfully, and the flow deletes
/// a file only as that reload's compensation.
pub proof fn lemma_reload_follows_write(s: CreateStateModel, e: EventModel)
    ensures
        match spec_create_step(s, e) {
            Some((s2, a)) => {
                &&& match s2 {
                    CreateStateModel::AwaitingReload { name } => match s {
                        CreateStateModel::AwaitingWrite { descriptor } => e is FileOk && name
                            == descriptor.name,
                        _ => false,
                    },
                    _ => true,
                }
                &&& match a {
                    ActionModel::DeleteUnit { name } => {
                        &&& s == (CreateStateModel::AwaitingReload { name })
                        &&& match e {
                            EventModel::Exit { code } => code != 0,
                            _ => false,
                        }
                    },
                    _ => true,
                }
            },
            None => true,
        },
{
}

/// A whole run of the create flow: from state `s`, with action `pending`
/// outstanding and the files `files` on disk, through the events, to the
/// final state, outstanding action and files. An event the state does
/// not expect stops the run where it stands.
pub open spec fn create_run(
    s: CreateStateModel,
    pending: ActionModel,
    files: Set<Seq<char>>,
    events: Seq<EventModel>,
) -> (CreateStateModel, ActionModel, Set<Seq<char>>)
    decreases events.len(),
{
    if events.len() == 0 {
        (s, pending, files)
    } else {
        match spec_create_step(s, events[0]) {
            Some((s2, a2)) => create_run(
                s2,
                a2,
                spec_files_after(pending, events[0], files),
                events.drop_first(),
            ),
            None => (s, pending, files),
        }
    }
}

/// Whether every compensating delete in the run is answered with
/// success.
pub open spec fn create_deletes_succeed(
    s: CreateStateModel,
    pending: ActionModel,
    events: Seq<EventModel>,
) -> bool
    decreases events.len(),
{
    if events.len() == 0 {
        true
    } else {
        &&& (pending is DeleteUnit ==> events[0] is FileOk)
        &&& match spec_create_step(s, events[0]) {
            Some((s2, a2)) => create_deletes_succeed(s2, a2, events.drop_first()),
            None => true,
        }
    }
}

spec fn no_file_action(pending: ActionModel) -> bool {
    !(pending is WriteUnit) && !(pending is DeleteUnit)
}

spec fn create_files_inv(
    s: CreateStateModel,
    pending: ActionModel,
    files: Set<Seq<char>>,
    files0: Set<Seq<char>>,
) -> bool {
    match s {
        CreateStateModel::AwaitingWrite { descriptor } => files == files0 && match pending {
            ActionModel::WriteUnit { name, .. } => name == descriptor.name,
            _ => false,
        },
        CreateStateModel::AwaitingReload { name } => files == files0.insert(name)
            && no_file_action(pending),
        CreateStateModel::RollingBack { name, .. } => files == files0.insert(name) && pending
            == (ActionModel::DeleteUnit { name }),
        CreateStateModel::ConfirmingEnable { .. } => no_file_action(pending),
        CreateStateModel::AwaitingEnable { .. } => no_file_action(pending),
        CreateStateModel::Finished => true,
        CreateStateModel::Failed { error } => match error {
            FlowError::Manager { op, .. } => op != ManagerOp::Enable ==> files.subset_of(files0),
            _ => files.subset_of(files0),
        },
        _ => files == files0 && no_file_action(pending),
    }
}

proof fn lemma_create_run_inv(
    s: CreateStateModel,
    pending: ActionModel,
    files: Set<Seq<char>>,
    files0: Set<Seq<char>>,
    events: Seq<EventModel>,
)
    requires
        create_files_inv(s, pending, files, files0),
        create_deletes_succeed(s, pending, events),
    ensures
        ({
            let (s2, p2, f2) = create_run(s, pending, files, events);
            create_files_inv(s2, p2, f2, files0)
        }),
    decreases events.len(),
{
    if events.len() > 0 {
        let e = events[0];
        let r = spec_create_step(s, e);
        if r is Some {
            let (s2, a2) = r.unwrap();
            let files2 = spec_files_after(pending, e, files);
            assert(create_files_inv(s2, a2, files2, files0));
            lemma_create_run_inv(s2, a2, files2, files0, events.drop_first());
        }
    }
}

/// Create rollback, over a whole run: however the events drive the
/// create flow from its start, if it ends in failure — other than the
/// enable step's, which by design leaves the already-created service in
/// place — and its compensating delete, if one was asked for, succeeded,
/// then the run has left no unit file on disk that was not there before.
pub proof fn lemma_create_failure_adds_no_file(files0: Set<Seq<char>>, events: Seq<EventModel>)
    requires
        create_deletes_succeed(
            CreateStateModel::AskingName,
            (ActionModel::Ask { prompt: Prompt::Name }),
            events,
        ),
    ensures
        ({
            let (s_end, pending_end, files_end) = create_run(
                CreateStateModel::AskingName,
                (ActionModel::Ask { prompt: Prompt::Name }),
                files0,
                events,
            );
            match s_end {
                CreateStateModel::Failed { error } => match error {
                    FlowError::Manager { op, .. } => op != ManagerOp::Enable
                        ==> files_end.subset_of(files0),
                    _ => files_end.subset_of(files0),
                },
                _ => true,
            }
        }),
{
    lemma_create_run_inv(
        CreateStateModel::AskingName,
        ActionModel::Ask { prompt: Prompt::Name },
        files0,
        files0,
        events,
    );
}

} // verus!
