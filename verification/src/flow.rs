//! What the lifecycle state machines exchange with their runner: the
//! prompts they ask, the actions they request, the events they are
//! answered with, and the errors a command can end in.
//!
//! The machines in [`crate::create`] and [`crate::delete`] only decide;
//! the runner performs each requested action (a prompt, a file write, an
//! external call) and hands the outcome back as the next event.

use vstd::prelude::*;

use crate::manager::ManagerOp;
use crate::manager::ManagerRequest;
use crate::manager::ManagerRequestModel;

verus! {

/// The interactive questions of the create and delete flows.
#[derive(Clone, Copy, Debug, PartialEq, Eq, Structural)]
pub enum Prompt {
    /// The service name; asked again until non-empty.
    Name,
    /// The unit's label; empty defaults to the name.
    Description,
    /// The working directory; empty defaults to the home placeholder.
    Directory,
    /// The port: empty or `auto` allocates one, `-` means none, anything
    /// else must be a decimal port number.
    Port,
    /// The optional pre-start command; empty means none.
    PreStart,
    /// The start command; asked again until non-empty.
    StartCommand,
    /// The full domain to register; asked again until non-empty.
    Domain,
    /// Whether to enable and start the created service now.
    EnableNow,
    /// Whether to really delete the service.
    DeleteService,
}

/// How a command can fail.
#[derive(Clone, Copy, Debug, PartialEq, Eq, Structural)]
pub enum FlowError {
    /// A unit file could not be written, read or deleted.
    Io,
    /// A service-manager call exited with a non-zero status.
    Manager { op: ManagerOp, status: i32 },
    /// The allocator's response announced no usable port.
    PortNotFound,
    /// The domain-registration call exited with a non-zero status.
    RegistrationFailed { status: i32 },
    /// The operator declined the confirmation.
    UserAborted,
}

/// What the runner reports back to a machine: the outcome of the action
/// it was last asked to perform.
pub enum Event {
    /// The operator's (trimmed) reply to an `Ask`.
    Answer { text: String },
    /// The operator's reply to a `Confirm`.
    Confirmed { yes: bool },
    /// What the port allocator printed.
    AllocatorOutput { output: String },
    /// The exit status of a manager or registrar call.
    Exit { code: i32 },
    /// A file write or delete succeeded.
    FileOk,
    /// A file write or delete failed.
    FileFailed,
    /// The stored file's first line, without its terminator; `None` when
    /// the file could not be read or is empty.
    FirstLine { line: Option<String> },
}

/// The mathematical model of an event.
pub ghost enum EventModel {
    Answer { text: Seq<char> },
    Confirmed { yes: bool },
    AllocatorOutput { output: Seq<char> },
    Exit { code: i32 },
    FileOk,
    FileFailed,
    FirstLine { line: Option<Seq<char>> },
}

impl View for Event {
    type V = EventModel;

    open spec fn view(&self) -> EventModel {
        match self {
            Event::Answer { text } => EventModel::Answer { text: text@ },
            Event::Confirmed { yes } => EventModel::Confirmed { yes: *yes },
            Event::AllocatorOutput { output } => EventModel::AllocatorOutput { output: output@ },
            Event::Exit { code } => EventModel::Exit { code: *code },
            Event::FileOk => EventModel::FileOk,
            Event::FileFailed => EventModel::FileFailed,
            Event::FirstLine { line } => EventModel::FirstLine { line: line.deep_view() },
        }
    }
}

/// What a machine asks its runner to do next.
pub enum Action {
    /// Put a question to the operator and answer with `Answer`.
    Ask { prompt: Prompt },
    /// Put a yes/no question to the operator, with the given default,
    /// and answer with `Confirmed`.
    Confirm { prompt: Prompt, default_yes: bool },
    /// Call the port allocator and answer with `AllocatorOutput`.
    AllocatePort,
    /// Register `domain` as a proxy for the local port; answer with
    /// `Exit`.
    AddDomain { domain: String, port: u16 },
    /// Remove a registered domain, best-effort; answer with `Exit`.
    RemoveDomain { domain: String },
    /// Call the service manager; answer with `Exit`.
    Manager { request: ManagerRequest },
    /// Write `text` as the unit file of `name`; answer with `FileOk` or
    /// `FileFailed`.
    WriteUnit { name: String, text: String },
    /// Read the unit file's first line; answer with `FirstLine`.
    ReadFirstLine { name: String },
    /// Delete the unit file of `name`; answer with `FileOk` or
    /// `FileFailed`.
    DeleteUnit { name: String },
    /// The command is done; the flow takes no further event.
    Finish,
    /// The command failed; the flow takes no further event.
    Fail { error: FlowError },
}

/// The mathematical model of an action.
pub ghost enum ActionModel {
    Ask { prompt: Prompt },
    Confirm { prompt: Prompt, default_yes: bool },
    AllocatePort,
    AddDomain { domain: Seq<char>, port: u16 },
    RemoveDomain { domain: Seq<char> },
    Manager { request: ManagerRequestModel },
    WriteUnit { name: Seq<char>, text: Seq<char> },
    ReadFirstLine { name: Seq<char> },
    DeleteUnit { name: Seq<char> },
    Finish,
    Fail { error: FlowError },
}

impl View for Action {
    type V = ActionModel;

    open spec fn view(&self) -> ActionModel {
        match self {
            Action::Ask { prompt } => ActionModel::Ask { prompt: *prompt },
            Action::Confirm { prompt, default_yes } => ActionModel::Confirm {
                prompt: *prompt,
                default_yes: *default_yes,
            },
            Action::AllocatePort => ActionModel::AllocatePort,
            Action::AddDomain { domain, port } => ActionModel::AddDomain {
                domain: domain@,
                port: *port,
            },
            Action::RemoveDomain { domain } => ActionModel::RemoveDomain { domain: domain@ },
            Action::Manager { request } => ActionModel::Manager { request: request@ },
            Action::WriteUnit { name, text } => ActionModel::WriteUnit {
                name: name@,
                text: text@,
            },
            Action::ReadFirstLine { name } => ActionModel::ReadFirstLine { name: name@ },
            Action::DeleteUnit { name } => ActionModel::DeleteUnit { name: name@ },
            Action::Finish => ActionModel::Finish,
            Action::Fail { error } => ActionModel::Fail { error: *error },
        }
    }
}

/// The unit files on disk after the runner has performed the pending
/// action and observed event `e`: a successful write adds the file, a
/// successful delete removes it, and every other action leaves the disk
/// alone.
pub open spec fn spec_files_after(
    pending: ActionModel,
    e: EventModel,
    files: Set<Seq<char>>,
) -> Set<Seq<char>> {
    match pending {
        ActionModel::WriteUnit { name, .. } => if e is FileOk {
            files.insert(name)
        } else {
            files
        },
        ActionModel::DeleteUnit { name } => if e is FileOk {
            files.remove(name)
        } else {
            files
        },
        _ => files,
    }
}

/// How a yes/no answer is read: with a yes default, everything but an
/// explicit `n` agrees; with a no default, only an explicit `y` agrees.
pub open spec fn spec_confirmation(answer: Seq<char>, default_yes: bool) -> bool {
    if default_yes {
        !(answer == "n"@ || answer == "N"@)
    } else {
        answer == "y"@ || answer == "Y"@
    }
}

/// Reads the operator's (trimmed) reply to a yes/no question, exactly as
/// [`spec_confirmation`] states.
pub fn interpret_confirmation(answer: &str, default_yes: bool) -> (r: bool)
    ensures
        r == spec_confirmation(answer@, default_yes),
{
    proof {
        reveal_strlit("n");
        reveal_strlit("N");
        reveal_strlit("y");
        reveal_strlit("Y");
    }
    let len = answer.unicode_len();
    let is_n = len == 1 && answer.get_char(0) == 'n';
    let is_cap_n = len == 1 && answer.get_char(0) == 'N';
    let is_y = len == 1 && answer.get_char(0) == 'y';
    let is_cap_y = len == 1 && answer.get_char(0) == 'Y';
    proof {
        if is_n {
            assert(answer@ =~= "n"@);
        }
        if is_cap_n {
            assert(answer@ =~= "N"@);
        }
        if is_y {
            assert(answer@ =~= "y"@);
        }
        if is_cap_y {
            assert(answer@ =~= "Y"@);
        }
    }
    if default_yes {
        !(is_n || is_cap_n)
    } else {
        is_y || is_cap_y
    }
}

/// The result a manager call's exit status stands for: success on zero,
/// the operation's [`FlowError::Manager`] failure otherwise.
pub open spec fn spec_manager_result(op: ManagerOp, code: i32) -> Result<(), FlowError> {
    if code == 0 {
        Ok(())
    } else {
        Err(FlowError::Manager { op, status: code })
    }
}

/// Reads a manager call's exit status, exactly as [`spec_manager_result`]
/// states.
pub fn manager_result(op: ManagerOp, code: i32) -> (r: Result<(), FlowError>)
    ensures
        r == spec_manager_result(op, code),
{
    if code == 0 {
        Ok(())
    } else {
        Err(FlowError::Manager { op, status: code })
    }
}

/// Compares a string against an expected literal answer.
pub fn string_is(s: &String, expected: &str) -> (r: bool)
    ensures
        r == (s@ == expected@),
{
    let other = String::from_str(expected);
    *s == other
}

} // verus!
