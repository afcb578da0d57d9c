//! The command lines behind the requests that run a process.

use vstd::prelude::*;
use vstd::string::*;
use crate::listing::names_view;
use crate::protocol::{Request, RequestView};

verus! {

/// A program and the arguments to run it with.
#[derive(Debug, PartialEq, Eq)]
pub struct Invocation {
    pub program: String,
    pub args: Vec<String>,
}

/// The mathematical value of an [`Invocation`].
pub struct InvocationView {
    pub program: Seq<char>,
    pub args: Seq<Seq<char>>,
}

impl View for Invocation {
    type V = InvocationView;

    open spec fn view(&self) -> InvocationView {
        InvocationView { program: self.program@, args: names_view(self.args@) }
    }
}

/// The command line that carries out `request`, for the requests that run a
/// process: the key generator is asked for an ed25519 pair with the given
/// comment, at the given path, with an empty passphrase; the agent is asked
/// to load one key file or to drop all identities; the remote client is asked
/// for a session without a terminal. Probing and reading run no process.
pub open spec fn invocation_spec(request: RequestView) -> Option<InvocationView> {
    match request {
        RequestView::Generate { comment, path } => Some(
            InvocationView {
                program: "ssh-keygen"@,
                args: seq!["-t"@, "ed25519"@, "-C"@, comment, "-f"@, path, "-N"@, ""@],
            },
        ),
        RequestView::Load { path } => Some(
            InvocationView { program: "ssh-add"@, args: seq![path] },
        ),
        RequestView::Flush => Some(InvocationView { program: "ssh-add"@, args: seq!["-D"@] }),
        RequestView::Authenticate => Some(
            InvocationView { program: "ssh"@, args: seq!["-T"@, "git@github.com"@] },
        ),
        _ => None,
    }
}

/// The command line that carries out `request`, if it runs a process.
pub fn invocation(request: &Request) -> (line: Option<Invocation>)
    ensures
        line is Some <==> invocation_spec(request@) is Some,
        line is Some ==> line->Some_0@ == invocation_spec(request@)->Some_0,
{
    let mut args: Vec<String> = Vec::new();
    match request {
        Request::Generate { comment, path } => {
            args.push(String::from_str("-t"));
            args.push(String::from_str("ed25519"));
            args.push(String::from_str("-C"));
            args.push(comment.clone());
            args.push(String::from_str("-f"));
            args.push(path.clone());
            args.push(String::from_str("-N"));
            args.push(String::from_str(""));
            assert(names_view(args@) =~= invocation_spec(request@)->Some_0.args);
            Some(Invocation { program: String::from_str("ssh-keygen"), args })
        },
        Request::Load { path } => {
            args.push(path.clone());
            assert(names_view(args@) =~= invocation_spec(request@)->Some_0.args);
            Some(Invocation { program: String::from_str("ssh-add"), args })
        },
        Request::Flush => {
            args.push(String::from_str("-D"));
            assert(names_view(args@) =~= invocation_spec(request@)->Some_0.args);
            Some(Invocation { program: String::from_str("ssh-add"), args })
        },
        Request::Authenticate => {
            args.push(String::from_str("-T"));
            args.push(String::from_str("git@github.com"));
            assert(names_view(args@) =~= invocation_spec(request@)->Some_0.args);
            Some(Invocation { program: String::from_str("ssh"), args })
        },
        _ => None,
    }
}

} // verus!
