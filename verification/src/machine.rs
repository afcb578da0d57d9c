//! The key manager's decisions: how an operation starts, and what follows
//! from each answer.

use vstd::prelude::*;
use vstd::string::*;
use crate::listing::{discovered_keys, discovered_spec};
use crate::paths::{
    key_path, key_path_spec, public_key_path, public_key_path_spec, storage_dir,
    storage_dir_spec,
};
use crate::protocol::{
    Command, CommandView, ErrorView, Event, EventView, KeyError, Phase, Report, ReportView,
    Request, RequestView, Session, SessionView, Step, StepView,
};

verus! {

/// The comment given to a key that is added without an email address.
pub open spec fn default_comment() -> Seq<char> {
    "your_email@example.com"@
}

/// Whether `event` reports a process that ran and exited with status zero.
pub open spec fn succeeded(event: EventView) -> bool {
    event == EventView::Exited(Some(0i32))
}

/// The first move of the operation `command`, for a user whose home
/// directory is `home` (`None` where it is unknown).
///
/// Every command but `Check` works in the storage directory and fails at once
/// without a home directory. Otherwise adding and switching begin by probing
/// the key's private file, listing by enumerating the storage directory and
/// checking by contacting the remote endpoint.
pub open spec fn start_spec(command: CommandView, home: Option<Seq<char>>) -> StepView {
    match command {
        CommandView::Check => StepView::Next {
            session: SessionView {
                phase: Phase::CheckAuth,
                name: Seq::empty(),
                comment: Seq::empty(),
                path: Seq::empty(),
            },
            request: RequestView::Authenticate,
        },
        CommandView::Add { name, email } => match home {
            None => StepView::Done(Err(ErrorView::EnvironmentUnavailable)),
            Some(h) => StepView::Next {
                session: SessionView {
                    phase: Phase::AddProbe,
                    name: name,
                    comment: match email {
                        Some(e) => e,
                        None => default_comment(),
                    },
                    path: key_path_spec(h, name),
                },
                request: RequestView::Probe { path: key_path_spec(h, name) },
            },
        },
        CommandView::Switch { name } => match home {
            None => StepView::Done(Err(ErrorView::EnvironmentUnavailable)),
            Some(h) => StepView::Next {
                session: SessionView {
                    phase: Phase::SwitchProbe,
                    name: name,
                    comment: Seq::empty(),
                    path: key_path_spec(h, name),
                },
                request: RequestView::Probe { path: key_path_spec(h, name) },
            },
        },
        CommandView::List => match home {
            None => StepView::Done(Err(ErrorView::EnvironmentUnavailable)),
            Some(h) => StepView::Next {
                session: SessionView {
                    phase: Phase::ListRead,
                    name: Seq::empty(),
                    comment: Seq::empty(),
                    path: storage_dir_spec(h),
                },
                request: RequestView::ReadStorage { dir: storage_dir_spec(h) },
            },
        },
    }
}

/// The session `session` in its next phase, with `request` outstanding.
pub open spec fn advance(session: SessionView, phase: Phase, request: RequestView) -> StepView {
    StepView::Next {
        session: SessionView { phase: phase, ..session },
        request: request,
    }
}

/// The end of an operation in failure.
pub open spec fn fail(error: ErrorView) -> StepView {
    StepView::Done(Err(error))
}

/// The move that follows when `event` answers the request that `session`
/// waits on.
///
/// Each phase knows one kind of good answer. Any other answer ends the
/// operation: nothing is retried and nothing that was done is undone.
pub open spec fn step_spec(session: SessionView, event: EventView) -> StepView {
    match session.phase {
        Phase::AddProbe => match event {
            EventView::Exists(true) => fail(ErrorView::AlreadyExists(session.name)),
            EventView::Exists(false) => advance(
                session,
                Phase::AddGenerate,
                RequestView::Generate { comment: session.comment, path: session.path },
            ),
            _ => fail(ErrorView::IoFailed),
        },
        Phase::AddGenerate => if succeeded(event) {
            advance(session, Phase::AddLoad, RequestView::Load { path: session.path })
        } else {
            fail(ErrorView::ExternalProcessFailed)
        },
        Phase::AddLoad => if succeeded(event) {
            advance(
                session,
                Phase::AddRead,
                RequestView::ReadPublicKey { path: public_key_path_spec(session.path) },
            )
        } else {
            fail(ErrorView::ExternalProcessFailed)
        },
        Phase::AddRead => match event {
            EventView::Text(text) => StepView::Done(Ok(ReportView::Added { public_key: text })),
            _ => fail(ErrorView::IoFailed),
        },
        Phase::SwitchProbe => match event {
            EventView::Exists(true) => advance(session, Phase::SwitchFlush, RequestView::Flush),
            EventView::Exists(false) => fail(ErrorView::NotFound(session.name)),
            _ => fail(ErrorView::IoFailed),
        },
        Phase::SwitchFlush => if succeeded(event) {
            advance(session, Phase::SwitchLoad, RequestView::Load { path: session.path })
        } else {
            fail(ErrorView::ExternalProcessFailed)
        },
        Phase::SwitchLoad => if succeeded(event) {
            StepView::Done(Ok(ReportView::Switched { name: session.name }))
        } else {
            fail(ErrorView::ExternalProcessFailed)
        },
        Phase::CheckAuth => match event {
            EventView::Replied { stdout, stderr } => StepView::Done(
                Ok(ReportView::Checked { stdout: stdout, stderr: stderr }),
            ),
            _ => fail(ErrorView::ExternalProcessFailed),
        },
        Phase::ListRead => match event {
            EventView::Entries(entries) => StepView::Done(
                Ok(ReportView::Listed { names: discovered_spec(entries) }),
            ),
            EventView::Failed => fail(ErrorView::DirectoryUnreadable),
            _ => fail(ErrorView::IoFailed),
        },
    }
}

/// The operation that a command line asks for: `verb` names it, `key_name`
/// is the key it is about and `email` the comment for a new key. Adding and
/// switching need a key name; a verb that names no operation, or a missing
/// key name, is an invalid command.
pub open spec fn command_spec(
    verb: Seq<char>,
    key_name: Option<Seq<char>>,
    email: Option<Seq<char>>,
) -> Result<CommandView, ErrorView> {
    if verb == "add"@ {
        match key_name {
            Some(name) => Ok(CommandView::Add { name, email }),
            None => Err(ErrorView::InvalidCommand),
        }
    } else if verb == "switch"@ {
        match key_name {
            Some(name) => Ok(CommandView::Switch { name }),
            None => Err(ErrorView::InvalidCommand),
        }
    } else if verb == "check"@ {
        Ok(CommandView::Check)
    } else if verb == "list"@ {
        Ok(CommandView::List)
    } else {
        Err(ErrorView::InvalidCommand)
    }
}

/// The view of an optional string.
pub open spec fn text_view(text: Option<String>) -> Option<Seq<char>> {
    match text {
        Some(t) => Some(t@),
        None => None,
    }
}

fn same_text(left: &str, right: &str) -> (same: bool)
    ensures
        same == (left@ == right@),
{
    String::from_str(left) == String::from_str(right)
}

/// Reads a command line as an operation.
pub fn command_for(verb: &str, key_name: Option<String>, email: Option<String>) -> (command:
    Result<Command, KeyError>)
    ensures
        match command_spec(verb@, text_view(key_name), text_view(email)) {
            Ok(expected) => command is Ok && command->Ok_0@ == expected,
            Err(expected) => command is Err && command->Err_0@ == expected,
        },
{
    if same_text(verb, "add") {
        match key_name {
            Some(name) => Ok(Command::Add { name, email }),
            None => Err(KeyError::InvalidCommand),
        }
    } else if same_text(verb, "switch") {
        match key_name {
            Some(name) => Ok(Command::Switch { name }),
            None => Err(KeyError::InvalidCommand),
        }
    } else if same_text(verb, "check") {
        Ok(Command::Check)
    } else if same_text(verb, "list") {
        Ok(Command::List)
    } else {
        Err(KeyError::InvalidCommand)
    }
}

/// Whether `event` reports a process that ran and exited with status zero.
pub fn exited_cleanly(event: &Event) -> (ok: bool)
    ensures
        ok == succeeded(event@),
{
    match event {
        Event::Exited(Some(code)) => *code == 0,
        _ => false,
    }
}

/// Begins the operation `command` for a user whose home directory is `home`.
pub fn start(command: Command, home: Option<String>) -> (step: Step)
    ensures
        step@ == start_spec(command@, text_view(home)),
{
    match command {
        Command::Check => Step::Next {
            session: Session {
                phase: Phase::CheckAuth,
                name: String::new(),
                comment: String::new(),
                path: String::new(),
            },
            request: Request::Authenticate,
        },
        Command::Add { name, email } => match home {
            None => Step::Done(Err(KeyError::EnvironmentUnavailable)),
            Some(h) => {
                let path = key_path(h.as_str(), name.as_str());
                let comment = match email {
                    Some(e) => e,
                    None => String::from_str("your_email@example.com"),
                };
                Step::Next {
                    session: Session {
                        phase: Phase::AddProbe,
                        name: name,
                        comment: comment,
                        path: path.clone(),
                    },
                    request: Request::Probe { path: path },
                }
            },
        },
        Command::Switch { name } => match home {
            None => Step::Done(Err(KeyError::EnvironmentUnavailable)),
            Some(h) => {
                let path = key_path(h.as_str(), name.as_str());
                Step::Next {
                    session: Session {
                        phase: Phase::SwitchProbe,
                        name: name,
                        comment: String::new(),
                        path: path.clone(),
                    },
                    request: Request::Probe { path: path },
                }
            },
        },
        Command::List => match home {
            None => Step::Done(Err(KeyError::EnvironmentUnavailable)),
            Some(h) => {
                let dir = storage_dir(h.as_str());
                Step::Next {
                    session: Session {
                        phase: Phase::ListRead,
                        name: String::new(),
                        comment: String::new(),
                        path: dir.clone(),
                    },
                    request: Request::ReadStorage { dir: dir },
                }
            },
        },
    }
}

/// Takes the answer `event` to the request that `session` waits on and makes
/// the next move.
pub fn step(session: Session, event: Event) -> (next: Step)
    ensures
        next@ == step_spec(session@, event@),
{
    let Session { phase, name, comment, path } = session;
    match phase {
        Phase::AddProbe => match event {
            Event::Exists(true) => Step::Done(Err(KeyError::AlreadyExists(name))),
            Event::Exists(false) => {
                let request = Request::Generate { comment: comment.clone(), path: path.clone() };
                Step::Next {
                    session: Session { phase: Phase::AddGenerate, name, comment, path },
                    request,
                }
            },
            _ => Step::Done(Err(KeyError::IoFailed)),
        },
        Phase::AddGenerate => if exited_cleanly(&event) {
            let request = Request::Load { path: path.clone() };
            Step::Next { session: Session { phase: Phase::AddLoad, name, comment, path }, request }
        } else {
            Step::Done(Err(KeyError::ExternalProcessFailed))
        },
        Phase::AddLoad => if exited_cleanly(&event) {
            let request = Request::ReadPublicKey { path: public_key_path(path.as_str()) };
            Step::Next { session: Session { phase: Phase::AddRead, name, comment, path }, request }
        } else {
            Step::Done(Err(KeyError::ExternalProcessFailed))
        },
        Phase::AddRead => match event {
            Event::Text(text) => Step::Done(Ok(Report::Added { public_key: text })),
            _ => Step::Done(Err(KeyError::IoFailed)),
        },
        Phase::SwitchProbe => match event {
            Event::Exists(true) => Step::Next {
                session: Session { phase: Phase::SwitchFlush, name, comment, path },
                request: Request::Flush,
            },
            Event::Exists(false) => Step::Done(Err(KeyError::NotFound(name))),
            _ => Step::Done(Err(KeyError::IoFailed)),
        },
        Phase::SwitchFlush => if exited_cleanly(&event) {
            let request = Request::Load { path: path.clone() };
            Step::Next {
                session: Session { phase: Phase::SwitchLoad, name, comment, path },
                request,
            }
        } else {
            Step::Done(Err(KeyError::ExternalProcessFailed))
        },
        Phase::SwitchLoad => if exited_cleanly(&event) {
            Step::Done(Ok(Report::Switched { name }))
        } else {
            Step::Done(Err(KeyError::ExternalProcessFailed))
        },
        Phase::CheckAuth => match event {
            Event::Replied { stdout, stderr } => Step::Done(Ok(Report::Checked { stdout, stderr })),
            _ => Step::Done(Err(KeyError::ExternalProcessFailed)),
        },
        Phase::ListRead => match event {
            Event::Entries(entries) => Step::Done(
                Ok(Report::Listed { names: discovered_keys(&entries) }),
            ),
            Event::Failed => Step::Done(Err(KeyError::DirectoryUnreadable)),
            _ => Step::Done(Err(KeyError::IoFailed)),
        },
    }
}

} // verus!
