//! What the user is told: the text of each error and of each report.

use vstd::prelude::*;
use vstd::string::*;
use crate::listing::names_view;
use crate::protocol::{ErrorView, KeyError, Report, ReportView, Request, RequestView};

verus! {

/// The text that describes `error` to the user.
pub open spec fn message_spec(error: ErrorView) -> Seq<char> {
    match error {
        ErrorView::AlreadyExists(name) => "Key '"@ + name + "' already exists"@,
        ErrorView::NotFound(name) => "Key '"@ + name + "' not found"@,
        ErrorView::EnvironmentUnavailable => "Home directory could not be determined"@,
        ErrorView::ExternalProcessFailed => "An external command failed"@,
        ErrorView::IoFailed => "A file could not be read"@,
        ErrorView::DirectoryUnreadable => "The key directory could not be read"@,
        ErrorView::InvalidCommand => "Invalid command. Use --help for usage information."@,
    }
}

/// The line that shows one listed key.
pub open spec fn listed_line(name: Seq<char>) -> Seq<char> {
    "  - "@ + name
}

/// The lines that present `report`. The remote endpoint's answer is passed
/// on as raw bytes and has no lines of its own.
pub open spec fn report_lines_spec(report: ReportView) -> Seq<Seq<char>> {
    match report {
        ReportView::Added { public_key } => seq![
            "🎉 New SSH key generated! Add the following public key to your GitHub account:"@,
            public_key,
        ],
        ReportView::Switched { name } => seq!["✅ Switched to key: "@ + name],
        ReportView::Checked { stdout, stderr } => Seq::empty(),
        ReportView::Listed { names } => Seq::new(names.len(), |i: int| listed_line(names[i])),
    }
}

/// The line that tells the user what is about to happen, for the requests
/// that open an operation's real work; the others pass in silence.
pub open spec fn notice_spec(request: RequestView) -> Option<Seq<char>> {
    match request {
        RequestView::Generate { comment, path } => Some(
            "🐙 OctoKey is generating a new SSH key..."@,
        ),
        RequestView::Flush => Some("🔄 OctoKey is switching SSH keys..."@),
        RequestView::Authenticate => Some("🔍 OctoKey is checking your GitHub user..."@),
        RequestView::ReadStorage { dir } => Some("🗝️  OctoKey found these SSH keys:"@),
        _ => None,
    }
}

/// The line to show before `request` is carried out, if it has one.
pub fn notice(request: &Request) -> (line: Option<String>)
    ensures
        line is Some <==> notice_spec(request@) is Some,
        line is Some ==> line->Some_0@ == notice_spec(request@)->Some_0,
{
    match request {
        Request::Generate { comment, path } => Some(
            String::from_str("🐙 OctoKey is generating a new SSH key..."),
        ),
        Request::Flush => Some(String::from_str("🔄 OctoKey is switching SSH keys...")),
        Request::Authenticate => Some(
            String::from_str("🔍 OctoKey is checking your GitHub user..."),
        ),
        Request::ReadStorage { dir } => Some(
            String::from_str("🗝️  OctoKey found these SSH keys:"),
        ),
        _ => None,
    }
}

impl KeyError {
    /// The text that describes this error to the user.
    pub fn message(&self) -> (text: String)
        ensures
            text@ == message_spec(self@),
    {
        match self {
            KeyError::AlreadyExists(name) => String::from_str("Key '").concat(
                name.as_str(),
            ).concat("' already exists"),
            KeyError::NotFound(name) => String::from_str("Key '").concat(name.as_str()).concat(
                "' not found",
            ),
            KeyError::EnvironmentUnavailable => String::from_str(
                "Home directory could not be determined",
            ),
            KeyError::ExternalProcessFailed => String::from_str("An external command failed"),
            KeyError::IoFailed => String::from_str("A file could not be read"),
            KeyError::DirectoryUnreadable => String::from_str(
                "The key directory could not be read",
            ),
            KeyError::InvalidCommand => String::from_str(
                "Invalid command. Use --help for usage information.",
            ),
        }
    }
}

/// The lines that present `report` to the user, in order.
pub fn report_lines(report: &Report) -> (lines: Vec<String>)
    ensures
        names_view(lines@) == report_lines_spec(report@),
{
    let mut lines: Vec<String> = Vec::new();
    match report {
        Report::Added { public_key } => {
            lines.push(
                String::from_str(
                    "🎉 New SSH key generated! Add the following public key to your GitHub account:",
                ),
            );
            lines.push(public_key.clone());
            assert(names_view(lines@) =~= report_lines_spec(report@));
        },
        Report::Switched { name } => {
            lines.push(String::from_str("✅ Switched to key: ").concat(name.as_str()));
            assert(names_view(lines@) =~= report_lines_spec(report@));
        },
        Report::Checked { stdout, stderr } => {
            assert(names_view(lines@) =~= report_lines_spec(report@));
        },
        Report::Listed { names } => {
            let mut i: usize = 0;
            while i < names.len()
                invariant
                    i <= names.len(),
                    lines@.len() == i,
                    forall|k: int| 0 <= k < i ==> (#[trigger] lines@[k])@ == listed_line(names@[k]@),
                decreases names.len() - i,
            {
                lines.push(String::from_str("  - ").concat(names[i].as_str()));
                i += 1;
            }
            assert(names_view(lines@) =~= report_lines_spec(report@));
        },
    }
    lines
}

} // verus!
