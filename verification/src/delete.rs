//! The delete flow: confirm intent, disable-and-stop through the
//! manager, recover a registered domain from the stored file's first
//! line, remove it best-effort, and delete the file.
//!
//! Ordering: the stored file is read and deleted only after the manager
//! accepted the disable-and-stop call; while the manager still
//! references the service, the file is left untouched.

use vstd::prelude::*;

use crate::descriptor::DescriptorModel;
use crate::flow::Action;
use crate::flow::ActionModel;
use crate::flow::Event;
use crate::flow::EventModel;
use crate::flow::FlowError;
use crate::flow::Prompt;
use crate::flow::spec_files_after;
use crate::manager::ManagerOp;
use crate::manager::ManagerRequest;
use crate::manager::ManagerRequestModel;
use crate::render::spec_render;
use crate::store::lemma_render_round_trip;
use crate::store::spec_comment_domain;
use crate::store::spec_read_first_line;

verus! {

/// Where the delete flow stands.
pub enum DeleteState {
    Confirming { name: String },
    AwaitingDisable { name: String },
    AwaitingFirstLine { name: String },
    AwaitingDomainRemoval { name: String },
    AwaitingDelete { name: String },
    Finished,
    Failed { error: FlowError },
}

/// The mathematical model of a delete-flow state.
pub ghost enum DeleteStateModel {
    Confirming { name: Seq<char> },
    AwaitingDisable { name: Seq<char> },
    AwaitingFirstLine { name: Seq<char> },
    AwaitingDomainRemoval { name: Seq<char> },
    AwaitingDelete { name: Seq<char> },
    Finished,
    Failed { error: FlowError },
}

impl View for DeleteState {
    type V = DeleteStateModel;

    open spec fn view(&self) -> DeleteStateModel {
        match self {
            DeleteState::Confirming { name } => DeleteStateModel::Confirming { name: name@ },
            DeleteState::AwaitingDisable { name } => DeleteStateModel::AwaitingDisable {
                name: name@,
            },
            DeleteState::AwaitingFirstLine { name } => DeleteStateModel::AwaitingFirstLine {
                name: name@,
            },
            DeleteState::AwaitingDomainRemoval { name } => DeleteStateModel::AwaitingDomainRemoval {
                name: name@,
            },
            DeleteState::AwaitingDelete { name } => DeleteStateModel::AwaitingDelete {
                name: name@,
            },
            DeleteState::Finished => DeleteStateModel::Finished,
            DeleteState::Failed { error } => DeleteStateModel::Failed { error: *error },
        }
    }
}

/// Where the delete flow begins: with the confirmation, or, when forced,
/// straight at the disable-and-stop call.
pub open spec fn spec_delete_start(name: Seq<char>, force: bool) -> (
    DeleteStateModel,
    ActionModel,
) {
    if force {
        (
            DeleteStateModel::AwaitingDisable { name },
            ActionModel::Manager { request: ManagerRequestModel::Disable { name, now: true } },
        )
    } else {
        (
            DeleteStateModel::Confirming { name },
            ActionModel::Confirm { prompt: Prompt::DeleteService, default_yes: false },
        )
    }
}

/// Starts the delete flow for the named service.
pub fn delete_start(name: String, force: bool) -> (r: (DeleteState, Action))
    ensures
        spec_delete_start(name@, force) == (r.0@, r.1@),
{
    if force {
        let unit = name.clone();
        (
            DeleteState::AwaitingDisable { name },
            Action::Manager { request: ManagerRequest::Disable { name: unit, now: true } },
        )
    } else {
        (
            DeleteState::Confirming { name },
            Action::Confirm { prompt: Prompt::DeleteService, default_yes: false },
        )
    }
}

/// One step of the delete flow. `None` where the event is not the answer
/// the state waits for.
pub open spec fn spec_delete_step(s: DeleteStateModel, e: EventModel) -> Option<
    (DeleteStateModel, ActionModel),
> {
    match (s, e) {
        (DeleteStateModel::Confirming { name }, EventModel::Confirmed { yes }) => {
            if yes {
                Some(
                    (
                        DeleteStateModel::AwaitingDisable { name },
                        ActionModel::Manager {
                            request: ManagerRequestModel::Disable { name, now: true },
                        },
                    ),
                )
            } else {
                Some(
                    (
                        DeleteStateModel::Failed { error: FlowError::UserAborted },
                        ActionModel::Fail { error: FlowError::UserAborted },
                    ),
                )
            }
        },
        (DeleteStateModel::AwaitingDisable { name }, EventModel::Exit { code }) => {
            if code == 0 {
                Some(
                    (
                        DeleteStateModel::AwaitingFirstLine { name },
                        ActionModel::ReadFirstLine { name },
                    ),
                )
            } else {
                let error = FlowError::Manager { op: ManagerOp::Disable, status: code };
                Some((DeleteStateModel::Failed { error }, ActionModel::Fail { error }))
            }
        },
        (DeleteStateModel::AwaitingFirstLine { name }, EventModel::FirstLine { line }) => {
            match line {
                Some(l) => {
                    if l.len() > 0 && l[0] == '#' {
                        Some(
                            (
                                DeleteStateModel::AwaitingDomainRemoval { name },
                                ActionModel::RemoveDomain { domain: spec_comment_domain(l) },
                            ),
                        )
                    } else {
                        Some(
                            (
                                DeleteStateModel::AwaitingDelete { name },
                                ActionModel::DeleteUnit { name },
                            ),
                        )
                    }
                },
                None => Some(
                    (
                        DeleteStateModel::AwaitingDelete { name },
                        ActionModel::DeleteUnit { name },
                    ),
                ),
            }
        },
        (DeleteStateModel::AwaitingDomainRemoval { name }, EventModel::Exit { .. }) => {
            // best-effort: whatever the removal's exit status, deletion goes on
            Some(
                (DeleteStateModel::AwaitingDelete { name }, ActionModel::DeleteUnit { name }),
            )
        },
        (DeleteStateModel::AwaitingDelete { .. }, EventModel::FileOk) => Some(
            (DeleteStateModel::Finished, ActionModel::Finish),
        ),
        (DeleteStateModel::AwaitingDelete { .. }, EventModel::FileFailed) => Some(
            (
                DeleteStateModel::Failed { error: FlowError::Io },
                ActionModel::Fail { error: FlowError::Io },
            ),
        ),
        _ => None,
    }
}

/// Performs one step of the delete flow, exactly as [`spec_delete_step`]
/// states.
pub fn delete_step(s: DeleteState, e: Event) -> (r: (DeleteState, Action))
    requires
        spec_delete_step(s@, e@) is Some,
    ensures
        spec_delete_step(s@, e@) == Some((r.0@, r.1@)),
{
    match (s, e) {
        (DeleteState::Confirming { name }, Event::Confirmed { yes }) => {
            if yes {
                let unit = name.clone();
                (
                    DeleteState::AwaitingDisable { name },
                    Action::Manager {
                        request: ManagerRequest::Disable { name: unit, now: true },
                    },
                )
            } else {
                (
                    DeleteState::Failed { error: FlowError::UserAborted },
                    Action::Fail { error: FlowError::UserAborted },
                )
            }
        },
        (DeleteState::AwaitingDisable { name }, Event::Exit { code }) => {
            if code == 0 {
                let unit = name.clone();
                (
                    DeleteState::AwaitingFirstLine { name },
                    Action::ReadFirstLine { name: unit },
                )
            } else {
                let error = FlowError::Manager { op: ManagerOp::Disable, status: code };
                (DeleteState::Failed { error }, Action::Fail { error })
            }
        },
        (DeleteState::AwaitingFirstLine { name }, Event::FirstLine { line }) => {
            match line {
                Some(l) => {
                    let len = l.as_str().unicode_len();
                    if len > 0 && l.as_str().get_char(0) == '#' {
                        let domain = String::from_str(l.as_str().substring_char(1, len));
                        (
                            DeleteState::AwaitingDomainRemoval { name },
                            Action::RemoveDomain { domain },
                        )
                    } else {
                        let unit = name.clone();
                        (
                            DeleteState::AwaitingDelete { name },
                            Action::DeleteUnit { name: unit },
                        )
                    }
                },
                None => {
                    let unit = name.clone();
                    (DeleteState::AwaitingDelete { name }, Action::DeleteUnit { name: unit })
                },
            }
        },
        (DeleteState::AwaitingDomainRemoval { name }, Event::Exit { .. }) => {
            let unit = name.clone();
            (DeleteState::AwaitingDelete { name }, Action::DeleteUnit { name: unit })
        },
        (DeleteState::AwaitingDelete { .. }, Event::FileOk) => (
            DeleteState::Finished,
            Action::Finish,
        ),
        (DeleteState::AwaitingDelete { .. }, Event::FileFailed) => (
            DeleteState::Failed { error: FlowError::Io },
            Action::Fail { error: FlowError::Io },
        ),
        _ => unreached(),
    }
}

/// Delete ordering: when the disable-and-stop call fails, the flow stops
/// with that manager error at once — it never reads or deletes the
/// stored file.
pub proof fn lemma_delete_aborts_on_manager_failure(name: Seq<char>, code: i32)
    requires
        code != 0,
    ensures
        spec_delete_step(
            DeleteStateModel::AwaitingDisable { name },
            EventModel::Exit { code },
        ) == Some(
            (
                DeleteStateModel::Failed {
                    error: FlowError::Manager { op: ManagerOp::Disable, status: code },
                },
                ActionModel::Fail {
                    error: FlowError::Manager { op: ManagerOp::Disable, status: code },
                },
            ),
        ),
{
}

/// Delete ordering, the other side: the flow asks for the file to be
/// read or deleted only from the states that follow a successful
/// disable-and-stop call, and those states are entered only through it.
pub proof fn lemma_delete_file_actions_follow_disable(s: DeleteStateModel, e: EventModel)
    ensures
        match spec_delete_step(s, e) {
            Some((s2, a)) => {
                &&& (a is DeleteUnit || a is ReadFirstLine || a is RemoveDomain) ==> (
                s is AwaitingDisable || s is AwaitingFirstLine || s is AwaitingDomainRemoval)
                &&& s2 is AwaitingFirstLine ==> (s is AwaitingDisable && e == (EventModel::Exit {
                    code: 0,
                }))
                &&& (s is AwaitingDisable && !(e == (EventModel::Exit { code: 0 }))) ==> (
                s2 is Failed && a is Fail)
            },
            None => true,
        },
{
}

/// Delete domain-recovery: a stored first line that carries the domain
/// comment makes the flow ask for exactly that domain's removal, before
/// it deletes the file.
pub proof fn lemma_delete_recovers_domain(name: Seq<char>, l: Seq<char>)
    requires
        l.len() > 0,
        l[0] == '#',
    ensures
        spec_delete_step(
            DeleteStateModel::AwaitingFirstLine { name },
            EventModel::FirstLine { line: Some(l) },
        ) == Some(
            (
                DeleteStateModel::AwaitingDomainRemoval { name },
                ActionModel::RemoveDomain { domain: spec_comment_domain(l) },
            ),
        ),
        spec_delete_step(
            DeleteStateModel::AwaitingDomainRemoval { name },
            EventModel::Exit { code: 0 },
        ) == Some(
            (DeleteStateModel::AwaitingDelete { name }, ActionModel::DeleteUnit { name }),
        ),
{
}

/// Create and delete meet: handed the first line of the unit text that
/// [`spec_render`] stored, the delete flow asks to remove exactly the
/// descriptor's registered domain — and, where none was registered, it
/// goes straight to deleting the file.
pub proof fn lemma_stored_domain_is_removed(d: DescriptorModel, name: Seq<char>)
    requires
        d.registered_domain matches Some(x) ==> !x.contains('\n'),
    ensures
        d.registered_domain matches Some(x) ==> spec_delete_step(
            DeleteStateModel::AwaitingFirstLine { name },
            EventModel::FirstLine { line: spec_read_first_line(spec_render(d)) },
        ) == Some(
            (
                DeleteStateModel::AwaitingDomainRemoval { name },
                ActionModel::RemoveDomain { domain: x },
            ),
        ),
        d.registered_domain is None ==> spec_delete_step(
            DeleteStateModel::AwaitingFirstLine { name },
            EventModel::FirstLine { line: spec_read_first_line(spec_render(d)) },
        ) == Some(
            (DeleteStateModel::AwaitingDelete { name }, ActionModel::DeleteUnit { name }),
        ),
{
    lemma_render_round_trip(d);
    match d.registered_domain {
        Some(x) => {
            reveal_strlit("#");
            let line = "#"@ + x;
            assert(line[0] == '#');
        },
        None => {},
    }
}

/// A whole run of the delete flow: from state `s`, with action `pending`
/// outstanding and the files `files` on disk, through the events, to the
/// final state, outstanding action and files. An event the state does
/// not expect stops the run where it stands.
pub open spec fn delete_run(
    s: DeleteStateModel,
    pending: ActionModel,
    files: Set<Seq<char>>,
    events: Seq<EventModel>,
) -> (DeleteStateModel, ActionModel, Set<Seq<char>>)
    decreases events.len(),
{
    if events.len() == 0 {
        (s, pending, files)
    } else {
        match spec_delete_step(s, events[0]) {
            Some((s2, a2)) => delete_run(
                s2,
                a2,
                spec_files_after(pending, events[0], files),
                events.drop_first(),
            ),
            None => (s, pending, files),
        }
    }
}

spec fn delete_no_file_action(pending: ActionModel) -> bool {
    !(pending is WriteUnit) && !(pending is DeleteUnit)
}

spec fn delete_files_inv(
    s: DeleteStateModel,
    pending: ActionModel,
    files: Set<Seq<char>>,
    files0: Set<Seq<char>>,
) -> bool {
    match s {
        DeleteStateModel::AwaitingDelete { name } => files == files0 && pending
            == (ActionModel::DeleteUnit { name }),
        DeleteStateModel::Finished => true,
        DeleteStateModel::Failed { .. } => files == files0,
        _ => files == files0 && delete_no_file_action(pending),
    }
}

proof fn lemma_delete_run_inv(
    s: DeleteStateModel,
    pending: ActionModel,
    files: Set<Seq<char>>,
    files0: Set<Seq<char>>,
    events: Seq<EventModel>,
)
    requires
        delete_files_inv(s, pending, files, files0),
    ensures
        ({
            let (s2, p2, f2) = delete_run(s, pending, files, events);
            delete_files_inv(s2, p2, f2, files0)
        }),
    decreases events.len(),
{
    if events.len() > 0 {
        let e = events[0];
        let r = spec_delete_step(s, e);
        if r is Some {
            let (s2, a2) = r.unwrap();
            let files2 = spec_files_after(pending, e, files);
            assert(delete_files_inv(s2, a2, files2, files0));
            lemma_delete_run_inv(s2, a2, files2, files0, events.drop_first());
        }
    }
}

/// Delete ordering, over a whole run: however the events drive the
/// delete flow from its start, if it ends in failure — the confirmation
/// declined, the disable-and-stop call refused, or the file deletion
/// itself failing — the unit files on disk are exactly what they were:
/// in particular, the stored file of a service whose disable failed is
/// still there.
pub proof fn lemma_delete_failure_keeps_files(
    name: Seq<char>,
    force: bool,
    files0: Set<Seq<char>>,
    events: Seq<EventModel>,
)
    ensures
        ({
            let start = spec_delete_start(name, force);
            let (s_end, pending_end, files_end) = delete_run(start.0, start.1, files0, events);
            s_end is Failed ==> files_end == files0
        }),
{
    let start = spec_delete_start(name, force);
    lemma_delete_run_inv(start.0, start.1, files0, files0, events);
}

} // verus!
