//! The vocabulary of the conversation between the key manager and whoever
//! performs its requests: commands, requests, events, reports and errors,
//! each with the mathematical value that the contracts speak of.

use vstd::prelude::*;
use crate::listing::{entries_view, names_view, DirEntry, EntryView};

verus! {

/// What the user asks for.
#[derive(Debug, PartialEq, Eq)]
pub enum Command {
    /// Generate a key pair called `name` and load it into the agent. The
    /// email, if given, becomes the key's comment.
    Add { name: String, email: Option<String> },
    /// Make the key called `name` the only identity in the agent.
    Switch { name: String },
    /// Ask the remote endpoint who the agent's identity is.
    Check,
    /// List the keys in the storage directory.
    List,
}

/// The mathematical value of a [`Command`].
pub enum CommandView {
    Add { name: Seq<char>, email: Option<Seq<char>> },
    Switch { name: Seq<char> },
    Check,
    List,
}

impl View for Command {
    type V = CommandView;

    open spec fn view(&self) -> CommandView {
        match self {
            Command::Add { name, email } => CommandView::Add {
                name: name@,
                email: match email {
                    Some(e) => Some(e@),
                    None => None,
                },
            },
            Command::Switch { name } => CommandView::Switch { name: name@ },
            Command::Check => CommandView::Check,
            Command::List => CommandView::List,
        }
    }
}

/// Why an operation failed.
#[derive(Debug, PartialEq, Eq)]
pub enum KeyError {
    /// A key of this name is already in the storage directory.
    AlreadyExists(String),
    /// No key of this name is in the storage directory.
    NotFound(String),
    /// The home directory is unknown, so there is no storage directory.
    EnvironmentUnavailable,
    /// The key generator, the agent or the remote client could not be run or
    /// reported failure.
    ExternalProcessFailed,
    /// A file could not be read.
    IoFailed,
    /// The storage directory could not be opened.
    DirectoryUnreadable,
    /// The command line names no known operation.
    InvalidCommand,
}

/// The mathematical value of a [`KeyError`].
pub enum ErrorView {
    AlreadyExists(Seq<char>),
    NotFound(Seq<char>),
    EnvironmentUnavailable,
    ExternalProcessFailed,
    IoFailed,
    DirectoryUnreadable,
    InvalidCommand,
}

impl View for KeyError {
    type V = ErrorView;

    open spec fn view(&self) -> ErrorView {
        match self {
            KeyError::AlreadyExists(name) => ErrorView::AlreadyExists(name@),
            KeyError::NotFound(name) => ErrorView::NotFound(name@),
            KeyError::EnvironmentUnavailable => ErrorView::EnvironmentUnavailable,
            KeyError::ExternalProcessFailed => ErrorView::ExternalProcessFailed,
            KeyError::IoFailed => ErrorView::IoFailed,
            KeyError::DirectoryUnreadable => ErrorView::DirectoryUnreadable,
            KeyError::InvalidCommand => ErrorView::InvalidCommand,
        }
    }
}

/// One thing for the caller to do on the library's behalf.
#[derive(Debug, PartialEq, Eq)]
pub enum Request {
    /// Tell whether anything exists at `path`.
    Probe { path: String },
    /// Have the key generator write an ed25519 key pair with an empty
    /// passphrase and the given comment to `path` and its public sibling.
    Generate { comment: String, path: String },
    /// Have the agent load the private key at `path`.
    Load { path: String },
    /// Have the agent drop every identity it holds.
    Flush,
    /// Open a session with the remote endpoint and collect what it prints.
    Authenticate,
    /// Read the text of the public key file at `path`.
    ReadPublicKey { path: String },
    /// Enumerate the entries of the directory `dir`.
    ReadStorage { dir: String },
}

/// The mathematical value of a [`Request`].
pub enum RequestView {
    Probe { path: Seq<char> },
    Generate { comment: Seq<char>, path: Seq<char> },
    Load { path: Seq<char> },
    Flush,
    Authenticate,
    ReadPublicKey { path: Seq<char> },
    ReadStorage { dir: Seq<char> },
}

impl View for Request {
    type V = RequestView;

    open spec fn view(&self) -> RequestView {
        match self {
            Request::Probe { path } => RequestView::Probe { path: path@ },
            Request::Generate { comment, path } => RequestView::Generate {
                comment: comment@,
                path: path@,
            },
            Request::Load { path } => RequestView::Load { path: path@ },
            Request::Flush => RequestView::Flush,
            Request::Authenticate => RequestView::Authenticate,
            Request::ReadPublicKey { path } => RequestView::ReadPublicKey { path: path@ },
            Request::ReadStorage { dir } => RequestView::ReadStorage { dir: dir@ },
        }
    }
}

/// What came of a request.
#[derive(Debug, PartialEq, Eq)]
pub enum Event {
    /// Answer to a probe.
    Exists(bool),
    /// A process ran and ended with this exit code (none if a signal ended
    /// it).
    Exited(Option<i32>),
    /// The remote client ran; these are its two output streams.
    Replied { stdout: Vec<u8>, stderr: Vec<u8> },
    /// The text of the file that was read.
    Text(String),
    /// The entries of the directory that was enumerated.
    Entries(Vec<DirEntry>),
    /// The directory was opened, but one of its entries could not be read.
    EntryUnreadable,
    /// The request could not be carried out at all.
    Failed,
}

/// The mathematical value of a [`Event`].
pub enum EventView {
    Exists(bool),
    Exited(Option<i32>),
    Replied { stdout: Seq<u8>, stderr: Seq<u8> },
    Text(Seq<char>),
    Entries(Seq<EntryView>),
    EntryUnreadable,
    Failed,
}

impl View for Event {
    type V = EventView;

    open spec fn view(&self) -> EventView {
        match self {
            Event::Exists(found) => EventView::Exists(*found),
            Event::Exited(code) => EventView::Exited(*code),
            Event::Replied { stdout, stderr } => EventView::Replied {
                stdout: stdout@,
                stderr: stderr@,
            },
            Event::Text(text) => EventView::Text(text@),
            Event::Entries(entries) => EventView::Entries(entries_view(entries@)),
            Event::EntryUnreadable => EventView::EntryUnreadable,
            Event::Failed => EventView::Failed,
        }
    }
}

/// What a successful operation has to show.
#[derive(Debug, PartialEq, Eq)]
pub enum Report {
    /// The new key's public half, to be registered with the remote service.
    Added { public_key: String },
    /// The key that is now the agent's only identity.
    Switched { name: String },
    /// The remote endpoint's answer, byte for byte.
    Checked { stdout: Vec<u8>, stderr: Vec<u8> },
    /// The names of the keys in the storage directory.
    Listed { names: Vec<String> },
}

/// The mathematical value of a [`Report`].
pub enum ReportView {
    Added { public_key: Seq<char> },
    Switched { name: Seq<char> },
    Checked { stdout: Seq<u8>, stderr: Seq<u8> },
    Listed { names: Seq<Seq<char>> },
}

impl View for Report {
    type V = ReportView;

    open spec fn view(&self) -> ReportView {
        match self {
            Report::Added { public_key } => ReportView::Added { public_key: public_key@ },
            Report::Switched { name } => ReportView::Switched { name: name@ },
            Report::Checked { stdout, stderr } => ReportView::Checked {
                stdout: stdout@,
                stderr: stderr@,
            },
            Report::Listed { names } => ReportView::Listed { names: names_view(names@) },
        }
    }
}

/// Which answer an operation is waiting for.
#[derive(Clone, Copy, Debug, PartialEq, Eq)]
pub enum Phase {
    AddProbe,
    AddGenerate,
    AddLoad,
    AddRead,
    SwitchProbe,
    SwitchFlush,
    SwitchLoad,
    CheckAuth,
    ListRead,
}

/// An operation under way: the answer it waits for and what it needs to go
/// on. `path` is the key's private file, or the storage directory while
/// listing; fields that an operation does not use are empty.
#[derive(Debug, PartialEq, Eq)]
pub struct Session {
    pub phase: Phase,
    pub name: String,
    pub comment: String,
    pub path: String,
}

/// The mathematical value of a [`Session`].
pub struct SessionView {
    pub phase: Phase,
    pub name: Seq<char>,
    pub comment: Seq<char>,
    pub path: Seq<char>,
}

impl View for Session {
    type V = SessionView;

    open spec fn view(&self) -> SessionView {
        SessionView {
            phase: self.phase,
            name: self.name@,
            comment: self.comment@,
            path: self.path@,
        }
    }
}

/// The library's move: either a request, with the session to resume once it
/// has been answered, or the end of the operation.
#[derive(Debug, PartialEq, Eq)]
pub enum Step {
    Next { session: Session, request: Request },
    Done(Result<Report, KeyError>),
}

/// The mathematical value of a [`Step`].
pub enum StepView {
    Next { session: SessionView, request: RequestView },
    Done(Result<ReportView, ErrorView>),
}

impl View for Step {
    type V = StepView;

    open spec fn view(&self) -> StepView {
        match self {
            Step::Next { session, request } => StepView::Next {
                session: session@,
                request: request@,
            },
            Step::Done(outcome) => StepView::Done(
                match outcome {
                    Ok(report) => Ok(report@),
                    Err(error) => Err(error@),
                },
            ),
        }
    }
}

} // verus!
