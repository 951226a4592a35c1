//! The service manager's pure parts: the five operations, the argument
//! lists of their invocations, and how an exit status is read.

use vstd::prelude::*;

verus! {

/// One of the five operations the manager is asked for.
#[derive(Clone, Copy, Debug, PartialEq, Eq, Structural)]
pub enum ManagerOp {
    Start,
    Stop,
    Enable,
    Disable,
    DaemonReload,
}

/// One manager invocation: an operation with its service name and,
/// where the operation takes it, the companion flag that also starts or
/// stops the service now.
pub enum ManagerRequest {
    Start { name: String },
    Stop { name: String },
    Enable { name: String, now: bool },
    Disable { name: String, now: bool },
    DaemonReload,
}

/// The mathematical model of a manager invocation.
pub ghost enum ManagerRequestModel {
    Start { name: Seq<char> },
    Stop { name: Seq<char> },
    Enable { name: Seq<char>, now: bool },
    Disable { name: Seq<char>, now: bool },
    DaemonReload,
}

impl View for ManagerRequest {
    type V = ManagerRequestModel;

    open spec fn view(&self) -> ManagerRequestModel {
        match self {
            ManagerRequest::Start { name } => ManagerRequestModel::Start { name: name@ },
            ManagerRequest::Stop { name } => ManagerRequestModel::Stop { name: name@ },
            ManagerRequest::Enable { name, now } => ManagerRequestModel::Enable {
                name: name@,
                now: *now,
            },
            ManagerRequest::Disable { name, now } => ManagerRequestModel::Disable {
                name: name@,
                now: *now,
            },
            ManagerRequest::DaemonReload => ManagerRequestModel::DaemonReload,
        }
    }
}

impl ManagerRequestModel {
    /// The operation a request asks for.
    pub open spec fn op(self) -> ManagerOp {
        match self {
            ManagerRequestModel::Start { .. } => ManagerOp::Start,
            ManagerRequestModel::Stop { .. } => ManagerOp::Stop,
            ManagerRequestModel::Enable { .. } => ManagerOp::Enable,
            ManagerRequestModel::Disable { .. } => ManagerOp::Disable,
            ManagerRequestModel::DaemonReload => ManagerOp::DaemonReload,
        }
    }
}

/// The arguments of a manager invocation: every call is scoped to the
/// invoking user, names its subcommand and service, and carries `--now`
/// where the flag was asked for.
pub open spec fn spec_manager_args(m: ManagerRequestModel) -> Seq<Seq<char>> {
    match m {
        ManagerRequestModel::Start { name } => seq!["--user"@, "start"@, name],
        ManagerRequestModel::Stop { name } => seq!["--user"@, "stop"@, name],
        ManagerRequestModel::Enable { name, now } => if now {
            seq!["--user"@, "enable"@, name, "--now"@]
        } else {
            seq!["--user"@, "enable"@, name]
        },
        ManagerRequestModel::Disable { name, now } => if now {
            seq!["--user"@, "disable"@, name, "--now"@]
        } else {
            seq!["--user"@, "disable"@, name]
        },
        ManagerRequestModel::DaemonReload => seq!["--user"@, "daemon-reload"@],
    }
}

/// Builds the argument list of a manager invocation.
pub fn manager_args(m: &ManagerRequest) -> (r: Vec<String>)
    ensures
        r.deep_view() == spec_manager_args(m@),
{
    let mut v: Vec<String> = Vec::new();
    v.push(String::from_str("--user"));
    match m {
        ManagerRequest::Start { name } => {
            v.push(String::from_str("start"));
            v.push(name.clone());
        },
        ManagerRequest::Stop { name } => {
            v.push(String::from_str("stop"));
            v.push(name.clone());
        },
        ManagerRequest::Enable { name, now } => {
            v.push(String::from_str("enable"));
            v.push(name.clone());
            if *now {
                v.push(String::from_str("--now"));
            }
        },
        ManagerRequest::Disable { name, now } => {
            v.push(String::from_str("disable"));
            v.push(name.clone());
            if *now {
                v.push(String::from_str("--now"));
            }
        },
        ManagerRequest::DaemonReload => {
            v.push(String::from_str("daemon-reload"));
        },
    }
    proof {
        assert(v.deep_view() =~= spec_manager_args(m@));
    }
    v
}

/// Whether an exit status reports success: the invoked program's exit
/// code zero.
pub open spec fn spec_exit_ok(code: i32) -> bool {
    code == 0
}

/// Reads a manager call's exit status: zero is success, anything else
/// is the operation's failure with that status.
pub fn exit_ok(code: i32) -> (r: bool)
    ensures
        r == spec_exit_ok(code),
{
    code == 0
}

} // verus!
