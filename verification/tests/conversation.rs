use octokey::invocation::{invocation, Invocation};
use octokey::listing::DirEntry;
use octokey::machine::{command_for, exited_cleanly, start, step};
use octokey::protocol::{Command, Event, KeyError, Phase, Report, Request, Session, Step};
use octokey::render::report_lines;
use std::collections::{BTreeMap, BTreeSet};

const HOME: &str = "/home/ada";

/// A stand-in for the machine the key manager runs on.
struct Machine {
    files: BTreeMap<String, String>,
    dirs: BTreeSet<String>,
    agent: BTreeSet<String>,
    asked: Vec<Request>,
    agent_works: bool,
    generator_works: bool,
}

fn machine() -> Machine {
    let mut dirs = BTreeSet::new();
    dirs.insert("/home/ada/.ssh".to_string());
    Machine {
        files: BTreeMap::new(),
        dirs,
        agent: BTreeSet::new(),
        asked: Vec::new(),
        agent_works: true,
        generator_works: true,
    }
}

fn copy(request: &Request) -> Request {
    match request {
        Request::Probe { path } => Request::Probe { path: path.clone() },
        Request::Generate { comment, path } => {
            Request::Generate { comment: comment.clone(), path: path.clone() }
        }
        Request::Load { path } => Request::Load { path: path.clone() },
        Request::Flush => Request::Flush,
        Request::Authenticate => Request::Authenticate,
        Request::ReadPublicKey { path } => Request::ReadPublicKey { path: path.clone() },
        Request::ReadStorage { dir } => Request::ReadStorage { dir: dir.clone() },
    }
}

fn answer(m: &mut Machine, request: &Request) -> Event {
    m.asked.push(copy(request));
    match request {
        Request::Probe { path } => {
            Event::Exists(m.files.contains_key(path) || m.dirs.contains(path))
        }
        Request::Generate { comment, path } => {
            if !m.generator_works {
                return Event::Exited(Some(1));
            }
            m.files.insert(path.clone(), "PRIVATE".to_string());
            m.files.insert(format!("{}.pub", path), format!("ssh-ed25519 AAAA {}\n", comment));
            Event::Exited(Some(0))
        }
        Request::Load { path } => {
            if m.agent_works && m.files.contains_key(path) {
                m.agent.insert(path.clone());
                Event::Exited(Some(0))
            } else {
                Event::Exited(Some(2))
            }
        }
        Request::Flush => {
            if m.agent_works {
                m.agent.clear();
                Event::Exited(Some(0))
            } else {
                Event::Failed
            }
        }
        Request::Authenticate => Event::Replied {
            stdout: b"out".to_vec(),
            stderr: b"Hi ada! You've successfully authenticated.\n".to_vec(),
        },
        Request::ReadPublicKey { path } => match m.files.get(path) {
            Some(text) => Event::Text(text.clone()),
            None => Event::Failed,
        },
        Request::ReadStorage { dir } => {
            if !m.dirs.contains(dir) {
                return Event::Failed;
            }
            let prefix = format!("{}/", dir);
            let mut entries = Vec::new();
            for path in m.files.keys() {
                if let Some(name) = path.strip_prefix(&prefix) {
                    entries.push(DirEntry { name: name.to_string(), is_file: true });
                }
            }
            for path in m.dirs.iter() {
                if let Some(name) = path.strip_prefix(&prefix) {
                    entries.push(DirEntry { name: name.to_string(), is_file: false });
                }
            }
            Event::Entries(entries)
        }
    }
}

fn perform(m: &mut Machine, command: Command, home: Option<&str>) -> Result<Report, KeyError> {
    let mut current = start(command, home.map(|h| h.to_string()));
    loop {
        match current {
            Step::Done(outcome) => return outcome,
            Step::Next { session, request } => {
                let event = answer(m, &request);
                current = step(session, event);
            }
        }
    }
}

fn add(name: &str, email: Option<&str>) -> Command {
    Command::Add { name: name.to_string(), email: email.map(|e| e.to_string()) }
}

fn switch(name: &str) -> Command {
    Command::Switch { name: name.to_string() }
}

fn listed(m: &mut Machine) -> Vec<String> {
    match perform(m, Command::List, Some(HOME)) {
        Ok(Report::Listed { names }) => names,
        other => panic!("listing gave {:?}", other),
    }
}

fn waiting(phase: Phase) -> Session {
    Session {
        phase,
        name: "work".to_string(),
        comment: "ada@example.com".to_string(),
        path: "/home/ada/.ssh/work".to_string(),
    }
}

fn failure(phase: Phase, event: Event) -> KeyError {
    match step(waiting(phase), event) {
        Step::Done(Err(error)) => error,
        other => panic!("expected a failure, got {:?}", other),
    }
}

#[test]
fn add_on_empty_storage_creates_both_files_and_reports_public_key() {
    let mut m = machine();
    let outcome = perform(&mut m, add("test", Some("a@b.com")), Some(HOME));
    assert!(m.files.contains_key("/home/ada/.ssh/test"));
    assert!(m.files.contains_key("/home/ada/.ssh/test.pub"));
    assert_eq!(m.files.len(), 2);
    let public_key = m.files["/home/ada/.ssh/test.pub"].clone();
    assert_eq!(public_key, "ssh-ed25519 AAAA a@b.com\n");
    assert_eq!(outcome, Ok(Report::Added { public_key: public_key.clone() }));
    let lines = report_lines(&outcome.unwrap());
    assert_eq!(lines.len(), 2);
    assert_eq!(lines[1], public_key);
    assert!(m.agent.contains("/home/ada/.ssh/test"));
}

#[test]
fn add_asks_in_order_probe_generate_load_read() {
    let mut m = machine();
    perform(&mut m, add("test", Some("a@b.com")), Some(HOME)).unwrap();
    let path = "/home/ada/.ssh/test".to_string();
    assert_eq!(
        m.asked,
        vec![
            Request::Probe { path: path.clone() },
            Request::Generate { comment: "a@b.com".to_string(), path: path.clone() },
            Request::Load { path: path.clone() },
            Request::ReadPublicKey { path: "/home/ada/.ssh/test.pub".to_string() },
        ]
    );
}

#[test]
fn add_without_email_uses_placeholder_comment() {
    let mut m = machine();
    perform(&mut m, add("test", None), Some(HOME)).unwrap();
    assert_eq!(
        m.asked[1],
        Request::Generate {
            comment: "your_email@example.com".to_string(),
            path: "/home/ada/.ssh/test".to_string(),
        }
    );
}

#[test]
fn added_key_is_listed() {
    let mut m = machine();
    assert_eq!(listed(&mut m), Vec::<String>::new());
    perform(&mut m, add("work", None), Some(HOME)).unwrap();
    assert_eq!(listed(&mut m), vec!["work".to_string()]);
    perform(&mut m, add("personal", None), Some(HOME)).unwrap();
    let names = listed(&mut m);
    assert!(names.contains(&"work".to_string()));
    assert!(names.contains(&"personal".to_string()));
    assert_eq!(names.len(), 2);
}

#[test]
fn storage_with_two_public_keys_lists_both() {
    let mut m = machine();
    m.files.insert("/home/ada/.ssh/work.pub".to_string(), "W".to_string());
    m.files.insert("/home/ada/.ssh/personal.pub".to_string(), "P".to_string());
    let mut names = listed(&mut m);
    names.sort();
    assert_eq!(names, vec!["personal".to_string(), "work".to_string()]);
}

#[test]
fn listing_ignores_known_hosts_and_directories() {
    let mut m = machine();
    m.files.insert("/home/ada/.ssh/known_hosts".to_string(), "H".to_string());
    m.files.insert("/home/ada/.ssh/work".to_string(), "K".to_string());
    m.dirs.insert("/home/ada/.ssh/archive.pub".to_string());
    assert_eq!(listed(&mut m), Vec::<String>::new());
}

#[test]
fn add_existing_fails_and_changes_nothing() {
    let mut m = machine();
    m.files.insert("/home/ada/.ssh/work".to_string(), "OLD".to_string());
    m.agent.insert("/elsewhere/key".to_string());
    let outcome = perform(&mut m, add("work", Some("a@b.com")), Some(HOME));
    assert_eq!(outcome, Err(KeyError::AlreadyExists("work".to_string())));
    assert_eq!(m.asked, vec![Request::Probe { path: "/home/ada/.ssh/work".to_string() }]);
    assert_eq!(m.files.len(), 1);
    assert_eq!(m.files["/home/ada/.ssh/work"], "OLD");
    assert_eq!(m.agent.len(), 1);
}

#[test]
fn switch_missing_fails_before_the_flush() {
    let mut m = machine();
    m.agent.insert("/elsewhere/key".to_string());
    let outcome = perform(&mut m, switch("ghost"), Some(HOME));
    assert_eq!(outcome, Err(KeyError::NotFound("ghost".to_string())));
    assert_eq!(m.asked, vec![Request::Probe { path: "/home/ada/.ssh/ghost".to_string() }]);
    assert!(m.agent.contains("/elsewhere/key"));
}

#[test]
fn switch_leaves_exactly_the_chosen_identity() {
    let mut m = machine();
    perform(&mut m, add("work", None), Some(HOME)).unwrap();
    perform(&mut m, add("personal", None), Some(HOME)).unwrap();
    m.agent.insert("/elsewhere/key".to_string());
    assert_eq!(m.agent.len(), 3);
    m.asked.clear();
    let outcome = perform(&mut m, switch("work"), Some(HOME));
    assert_eq!(outcome, Ok(Report::Switched { name: "work".to_string() }));
    assert_eq!(m.agent.len(), 1);
    assert!(m.agent.contains("/home/ada/.ssh/work"));
    assert_eq!(
        m.asked,
        vec![
            Request::Probe { path: "/home/ada/.ssh/work".to_string() },
            Request::Flush,
            Request::Load { path: "/home/ada/.ssh/work".to_string() },
        ]
    );
}

#[test]
fn switch_whose_load_fails_leaves_agent_empty() {
    let mut m = machine();
    m.dirs.insert("/home/ada/.ssh/folder".to_string());
    m.agent.insert("/elsewhere/key".to_string());
    let outcome = perform(&mut m, switch("folder"), Some(HOME));
    assert_eq!(outcome, Err(KeyError::ExternalProcessFailed));
    assert!(m.agent.is_empty());
}

#[test]
fn switch_whose_flush_fails_stops_there() {
    let mut m = machine();
    perform(&mut m, add("work", None), Some(HOME)).unwrap();
    m.agent_works = false;
    m.asked.clear();
    let outcome = perform(&mut m, switch("work"), Some(HOME));
    assert_eq!(outcome, Err(KeyError::ExternalProcessFailed));
    assert_eq!(m.asked.len(), 2);
    assert_eq!(m.asked[1], Request::Flush);
}

#[test]
fn add_whose_registration_fails_keeps_the_files() {
    let mut m = machine();
    m.agent_works = false;
    let outcome = perform(&mut m, add("work", None), Some(HOME));
    assert_eq!(outcome, Err(KeyError::ExternalProcessFailed));
    assert!(m.files.contains_key("/home/ada/.ssh/work"));
    assert!(m.files.contains_key("/home/ada/.ssh/work.pub"));
    assert_eq!(m.asked.len(), 3);
}

#[test]
fn add_whose_generation_fails_stops_there() {
    let mut m = machine();
    m.generator_works = false;
    let outcome = perform(&mut m, add("work", None), Some(HOME));
    assert_eq!(outcome, Err(KeyError::ExternalProcessFailed));
    assert!(m.files.is_empty());
    assert!(m.agent.is_empty());
    assert_eq!(m.asked.len(), 2);
}

#[test]
fn without_home_storage_commands_fail_before_any_request() {
    for command in [add("test", None), switch("test"), Command::List] {
        assert_eq!(start(command, None), Step::Done(Err(KeyError::EnvironmentUnavailable)));
    }
    let mut m = machine();
    assert_eq!(perform(&mut m, add("test", None), None), Err(KeyError::EnvironmentUnavailable));
    assert_eq!(perform(&mut m, switch("test"), None), Err(KeyError::EnvironmentUnavailable));
    assert_eq!(perform(&mut m, Command::List, None), Err(KeyError::EnvironmentUnavailable));
    assert!(m.asked.is_empty());
}

#[test]
fn check_needs_no_home_and_relays_both_streams() {
    let mut m = machine();
    let outcome = perform(&mut m, Command::Check, None);
    assert_eq!(
        outcome,
        Ok(Report::Checked {
            stdout: b"out".to_vec(),
            stderr: b"Hi ada! You've successfully authenticated.\n".to_vec(),
        })
    );
    assert_eq!(m.asked, vec![Request::Authenticate]);
}

#[test]
fn check_that_cannot_launch_fails() {
    assert_eq!(failure(Phase::CheckAuth, Event::Failed), KeyError::ExternalProcessFailed);
}

#[test]
fn list_of_unreadable_directory_fails() {
    let mut m = machine();
    m.dirs.clear();
    assert_eq!(perform(&mut m, Command::List, Some(HOME)), Err(KeyError::DirectoryUnreadable));
    assert_eq!(m.asked, vec![Request::ReadStorage { dir: "/home/ada/.ssh".to_string() }]);
}

#[test]
fn list_with_unreadable_entry_fails() {
    assert_eq!(failure(Phase::ListRead, Event::EntryUnreadable), KeyError::IoFailed);
}

#[test]
fn list_starts_by_reading_the_storage_directory() {
    let expected = Step::Next {
        session: Session {
            phase: Phase::ListRead,
            name: String::new(),
            comment: String::new(),
            path: "/home/ada/.ssh".to_string(),
        },
        request: Request::ReadStorage { dir: "/home/ada/.ssh".to_string() },
    };
    assert_eq!(start(Command::List, Some(HOME.to_string())), expected);
}

#[test]
fn unreadable_public_key_fails_the_add() {
    assert_eq!(failure(Phase::AddRead, Event::Failed), KeyError::IoFailed);
}

#[test]
fn nonzero_exit_and_signal_are_failures() {
    for phase in [Phase::AddGenerate, Phase::AddLoad, Phase::SwitchFlush, Phase::SwitchLoad] {
        assert_eq!(failure(phase, Event::Exited(Some(1))), KeyError::ExternalProcessFailed);
        assert_eq!(failure(phase, Event::Exited(Some(-1))), KeyError::ExternalProcessFailed);
        assert_eq!(failure(phase, Event::Exited(None)), KeyError::ExternalProcessFailed);
        assert_eq!(failure(phase, Event::Failed), KeyError::ExternalProcessFailed);
    }
}

#[test]
fn exit_status_zero_alone_is_success() {
    assert!(exited_cleanly(&Event::Exited(Some(0))));
    assert!(!exited_cleanly(&Event::Exited(Some(1))));
    assert!(!exited_cleanly(&Event::Exited(None)));
    assert!(!exited_cleanly(&Event::Failed));
    assert!(!exited_cleanly(&Event::Exists(true)));
}

#[test]
fn answer_of_the_wrong_kind_ends_the_operation() {
    assert_eq!(failure(Phase::AddProbe, Event::Exited(Some(0))), KeyError::IoFailed);
    assert_eq!(failure(Phase::SwitchProbe, Event::Failed), KeyError::IoFailed);
    assert_eq!(failure(Phase::AddRead, Event::Exists(true)), KeyError::IoFailed);
    assert_eq!(failure(Phase::ListRead, Event::Exists(true)), KeyError::IoFailed);
    assert_eq!(failure(Phase::AddLoad, Event::Exists(true)), KeyError::ExternalProcessFailed);
    assert_eq!(
        failure(Phase::CheckAuth, Event::Exited(Some(0))),
        KeyError::ExternalProcessFailed
    );
}

#[test]
fn step_after_good_load_asks_for_public_key() {
    let next = step(waiting(Phase::AddLoad), Event::Exited(Some(0)));
    assert_eq!(
        next,
        Step::Next {
            session: waiting(Phase::AddRead),
            request: Request::ReadPublicKey { path: "/home/ada/.ssh/work.pub".to_string() },
        }
    );
}

#[test]
fn command_lines_of_process_requests() {
    let words = |items: &[&str]| items.iter().map(|s| s.to_string()).collect::<Vec<String>>();
    assert_eq!(
        invocation(&Request::Generate {
            comment: "a@b.com".to_string(),
            path: "/home/ada/.ssh/test".to_string(),
        }),
        Some(Invocation {
            program: "ssh-keygen".to_string(),
            args: words(&["-t", "ed25519", "-C", "a@b.com", "-f", "/home/ada/.ssh/test", "-N", ""]),
        })
    );
    assert_eq!(
        invocation(&Request::Load { path: "/home/ada/.ssh/test".to_string() }),
        Some(Invocation { program: "ssh-add".to_string(), args: words(&["/home/ada/.ssh/test"]) })
    );
    assert_eq!(
        invocation(&Request::Flush),
        Some(Invocation { program: "ssh-add".to_string(), args: words(&["-D"]) })
    );
    assert_eq!(
        invocation(&Request::Authenticate),
        Some(Invocation { program: "ssh".to_string(), args: words(&["-T", "git@github.com"]) })
    );
}

#[test]
fn requests_without_a_process_have_no_command_line() {
    assert_eq!(invocation(&Request::Probe { path: "/x".to_string() }), None);
    assert_eq!(invocation(&Request::ReadPublicKey { path: "/x.pub".to_string() }), None);
    assert_eq!(invocation(&Request::ReadStorage { dir: "/x".to_string() }), None);
}

#[test]
fn command_line_verbs() {
    assert_eq!(
        command_for("add", Some("work".to_string()), Some("a@b.com".to_string())),
        Ok(add("work", Some("a@b.com")))
    );
    assert_eq!(command_for("add", Some("work".to_string()), None), Ok(add("work", None)));
    assert_eq!(command_for("switch", Some("work".to_string()), None), Ok(switch("work")));
    assert_eq!(command_for("check", None, None), Ok(Command::Check));
    assert_eq!(command_for("list", None, None), Ok(Command::List));
}

#[test]
fn unknown_or_incomplete_command_is_invalid() {
    assert_eq!(command_for("", None, None), Err(KeyError::InvalidCommand));
    assert_eq!(command_for("remove", Some("work".to_string()), None), Err(KeyError::InvalidCommand));
    assert_eq!(command_for("Add", Some("work".to_string()), None), Err(KeyError::InvalidCommand));
    assert_eq!(command_for("add", None, None), Err(KeyError::InvalidCommand));
    assert_eq!(command_for("switch", None, None), Err(KeyError::InvalidCommand));
}
