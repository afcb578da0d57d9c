//! A model of the world outside the key manager, and what the manager's
//! conversations do to it.
//!
//! The world is the set of paths that exist, each a regular file or not, and
//! the set of key paths that the agent holds. A request changes the world only
//! when the process behind it succeeds: the key generator then creates a key's
//! two files, the agent then loads one identity or drops them all. Probing,
//! reading and contacting the remote endpoint change nothing.

use vstd::prelude::*;
use crate::listing::{
    entry_key, lemma_discovered_members, lemma_stem_gives_public_name, lemma_stem_of_public_name,
    EntryView,
};
use crate::machine::{start_spec, step_spec, succeeded};
use crate::paths::{key_path_spec, public_key_path_spec, public_suffix, storage_dir_spec};
use crate::protocol::{CommandView, ErrorView, EventView, ReportView, RequestView, StepView};

verus! {

/// The outside world as far as the key manager can tell.
pub struct World {
    /// The paths that exist; `true` marks a regular file.
    pub files: Map<Seq<char>, bool>,
    /// The private key files whose identities the agent holds.
    pub agent: Set<Seq<char>>,
}

/// A world and the key manager's pending move in it.
pub struct Run {
    pub world: World,
    pub step: StepView,
}

/// Whether `name` can be the name of an entry directly inside a directory:
/// not empty, without a separator, and neither of the two dot entries.
pub open spec fn is_entry_name(name: Seq<char>) -> bool {
    &&& name.len() > 0
    &&& !name.contains('/')
    &&& name != seq!['.']
    &&& name != seq!['.', '.']
}

/// Whether `listing` is an enumeration of the directory `dir` in `world`: it
/// holds exactly the entries directly inside `dir`, each with its kind.
pub open spec fn faithful(world: World, dir: Seq<char>, listing: Seq<EntryView>) -> bool {
    forall|entry: EntryView| #[trigger]
        listing.contains(entry) <==> {
            &&& is_entry_name(entry.name)
            &&& world.files.dom().contains(dir + seq!['/'] + entry.name)
            &&& world.files[dir + seq!['/'] + entry.name] == entry.is_file
        }
}

/// Whether `event` is an answer that `world` can give to `request`. A probe is
/// answered truthfully and an enumeration that succeeds is faithful; a
/// process may end in any way and a read may fail.
pub open spec fn consistent(world: World, request: RequestView, event: EventView) -> bool {
    match request {
        RequestView::Probe { path } => event == EventView::Exists(world.files.dom().contains(path)),
        RequestView::ReadStorage { dir } => match event {
            EventView::Entries(listing) => faithful(world, dir, listing),
            _ => true,
        },
        _ => true,
    }
}

/// The world after `request` was answered by `event`.
pub open spec fn effect(world: World, request: RequestView, event: EventView) -> World {
    if !succeeded(event) {
        world
    } else {
        match request {
            RequestView::Generate { comment, path } => World {
                files: world.files.insert(path, true).insert(public_key_path_spec(path), true),
                ..world
            },
            RequestView::Load { path } => World { agent: world.agent.insert(path), ..world },
            RequestView::Flush => World { agent: Set::empty(), ..world },
            _ => world,
        }
    }
}

/// The world and the pending move after the answers `events` were given in
/// turn, starting from `world` with `step` pending. Answers that arrive after
/// the operation has ended are ignored.
pub open spec fn run(world: World, step: StepView, events: Seq<EventView>) -> Run
    decreases events.len(),
{
    match step {
        StepView::Next { session, request } => if events.len() == 0 {
            Run { world, step }
        } else {
            run(
                effect(world, request, events[0]),
                step_spec(session, events[0]),
                events.skip(1),
            )
        },
        StepView::Done(_) => Run { world, step },
    }
}

/// Whether each of the answers `events` is one that the world could give at
/// the moment it is given.
pub open spec fn plausible(world: World, step: StepView, events: Seq<EventView>) -> bool
    decreases events.len(),
{
    match step {
        StepView::Next { session, request } => events.len() == 0 || {
            &&& consistent(world, request, events[0])
            &&& plausible(
                effect(world, request, events[0]),
                step_spec(session, events[0]),
                events.skip(1),
            )
        },
        StepView::Done(_) => true,
    }
}

/// Without a home directory every operation on the storage directory ends at
/// once in `EnvironmentUnavailable`: no request is made, so no process is
/// launched and nothing is touched.
pub proof fn lemma_no_home_no_request(command: CommandView)
    requires
        command != CommandView::Check,
    ensures
        start_spec(command, None) == StepView::Done(Err(ErrorView::EnvironmentUnavailable)),
{
}

/// Adding a key whose private file already exists fails with `AlreadyExists`
/// after the probe, and leaves files and agent as they were.
pub proof fn lemma_add_existing_changes_nothing(
    world: World,
    home: Seq<char>,
    name: Seq<char>,
    email: Option<Seq<char>>,
    events: Seq<EventView>,
)
    requires
        world.files.dom().contains(key_path_spec(home, name)),
        events.len() > 0,
        plausible(world, start_spec(CommandView::Add { name, email }, Some(home)), events),
    ensures
        run(world, start_spec(CommandView::Add { name, email }, Some(home)), events) == (Run {
            world,
            step: StepView::Done(Err(ErrorView::AlreadyExists(name))),
        }),
{
    reveal_with_fuel(run, 2);
}

/// Switching to a key whose private file does not exist fails with
/// `NotFound` after the probe: the agent is not flushed and nothing else
/// changes.
pub proof fn lemma_switch_missing_changes_nothing(
    world: World,
    home: Seq<char>,
    name: Seq<char>,
    events: Seq<EventView>,
)
    requires
        !world.files.dom().contains(key_path_spec(home, name)),
        events.len() > 0,
        plausible(world, start_spec(CommandView::Switch { name }, Some(home)), events),
    ensures
        run(world, start_spec(CommandView::Switch { name }, Some(home)), events) == (Run {
            world,
            step: StepView::Done(Err(ErrorView::NotFound(name))),
        }),
{
    reveal_with_fuel(run, 2);
}

/// Switching to an existing key, when the flush and the load both succeed,
/// leaves the agent with exactly one identity, the key switched to, whatever
/// it held before; the files are untouched.
pub proof fn lemma_switch_leaves_one_identity(
    world: World,
    home: Seq<char>,
    name: Seq<char>,
    events: Seq<EventView>,
)
    requires
        world.files.dom().contains(key_path_spec(home, name)),
        events.len() >= 3,
        succeeded(events[1]),
        succeeded(events[2]),
        plausible(world, start_spec(CommandView::Switch { name }, Some(home)), events),
    ensures
        run(world, start_spec(CommandView::Switch { name }, Some(home)), events) == (Run {
            world: World { files: world.files, agent: set![key_path_spec(home, name)] },
            step: StepView::Done(Ok(ReportView::Switched { name })),
        }),
{
    reveal_with_fuel(run, 4);
    let path = key_path_spec(home, name);
    assert(events.skip(1)[0] == events[1]);
    assert(events.skip(1).skip(1)[0] == events[2]);
    assert(Set::<Seq<char>>::empty().insert(path) =~= set![path]);
}

/// A key's public file can be an entry of a directory exactly if the key's
/// name, which is not empty, holds no separator.
pub proof fn lemma_public_entry_name(name: Seq<char>)
    requires
        name.len() > 0,
    ensures
        is_entry_name(name + public_suffix()) <==> !name.contains('/'),
{
    let full = name + public_suffix();
    assert(full.len() == name.len() + 4);
    if name.contains('/') {
        let i = choose|i: int| 0 <= i < name.len() && name[i] == '/';
        assert(full[i] == '/');
    } else {
        assert forall|i: int| 0 <= i < full.len() implies full[i] != '/' by {
            if i < name.len() {
                assert(name.contains(name[i]));
            }
        }
    }
}

/// A listing that succeeds changes nothing and shows exactly the keys whose
/// public file is a regular file directly inside the storage directory.
pub proof fn lemma_listing_shows_public_keys(
    world: World,
    home: Seq<char>,
    events: Seq<EventView>,
    name: Seq<char>,
)
    requires
        plausible(world, start_spec(CommandView::List, Some(home)), events),
        run(world, start_spec(CommandView::List, Some(home)), events).step matches StepView::Done(
            Ok(_),
        ),
    ensures
        run(world, start_spec(CommandView::List, Some(home)), events).world == world,
        run(world, start_spec(CommandView::List, Some(home)), events).step matches StepView::Done(
            Ok(ReportView::Listed { names }),
        ) && (names.contains(name) <==> {
            &&& name.len() > 0
            &&& !name.contains('/')
            &&& world.files.dom().contains(public_key_path_spec(key_path_spec(home, name)))
            &&& world.files[public_key_path_spec(key_path_spec(home, name))]
        }),
{
    reveal_with_fuel(run, 2);
    reveal_with_fuel(plausible, 2);
    let dir = storage_dir_spec(home);
    let public_path = public_key_path_spec(key_path_spec(home, name));
    let public_name = name + public_suffix();
    assert(events.len() >= 1);
    assert(events[0] is Entries);
    let entries = events[0]->Entries_0;
    assert(faithful(world, dir, entries));
    assert(dir + seq!['/'] + public_name =~= public_path);
    lemma_discovered_members(entries, name);
    if exists|i: int| 0 <= i < entries.len() && #[trigger] entry_key(entries[i]) == Some(name) {
        let i = choose|i: int| 0 <= i < entries.len() && #[trigger] entry_key(entries[i]) == Some(name);
        lemma_stem_gives_public_name(entries[i].name, name);
        assert(entries.contains(entries[i]));
        lemma_public_entry_name(name);
    }
    if name.len() > 0 && !name.contains('/') && world.files.dom().contains(public_path)
        && world.files[public_path] {
        let entry = EntryView { name: public_name, is_file: true };
        lemma_public_entry_name(name);
        assert(entries.contains(entry));
        lemma_stem_of_public_name(name);
        let i = choose|i: int| 0 <= i < entries.len() && entries[i] == entry;
        assert(entry_key(entries[i]) == Some(name));
    }
}

/// Nothing is rolled back. When a key was generated and the agent then fails
/// to load it, adding fails and the key's two files stay; the agent holds what
/// it held.
pub proof fn lemma_failed_registration_keeps_files(
    world: World,
    home: Seq<char>,
    name: Seq<char>,
    email: Option<Seq<char>>,
    events: Seq<EventView>,
)
    requires
        !world.files.dom().contains(key_path_spec(home, name)),
        events.len() >= 3,
        succeeded(events[1]),
        !succeeded(events[2]),
        plausible(world, start_spec(CommandView::Add { name, email }, Some(home)), events),
    ensures
        run(world, start_spec(CommandView::Add { name, email }, Some(home)), events) == (Run {
            world: World {
                files: world.files.insert(key_path_spec(home, name), true).insert(
                    public_key_path_spec(key_path_spec(home, name)),
                    true,
                ),
                agent: world.agent,
            },
            step: StepView::Done(Err(ErrorView::ExternalProcessFailed)),
        }),
{
    reveal_with_fuel(run, 4);
    assert(events.skip(1)[0] == events[1]);
    assert(events.skip(1).skip(1)[0] == events[2]);
}

/// When the agent was flushed and then fails to load the key switched to,
/// switching fails and the agent is left without any identity.
pub proof fn lemma_failed_switch_leaves_agent_empty(
    world: World,
    home: Seq<char>,
    name: Seq<char>,
    events: Seq<EventView>,
)
    requires
        world.files.dom().contains(key_path_spec(home, name)),
        events.len() >= 3,
        succeeded(events[1]),
        !succeeded(events[2]),
        plausible(world, start_spec(CommandView::Switch { name }, Some(home)), events),
    ensures
        run(world, start_spec(CommandView::Switch { name }, Some(home)), events) == (Run {
            world: World { files: world.files, agent: Set::empty() },
            step: StepView::Done(Err(ErrorView::ExternalProcessFailed)),
        }),
{
    reveal_with_fuel(run, 4);
    assert(events.skip(1)[0] == events[1]);
    assert(events.skip(1).skip(1)[0] == events[2]);
}

/// Every operation ends within four answers, whatever they are.
pub proof fn lemma_operations_end(
    world: World,
    command: CommandView,
    home: Option<Seq<char>>,
    events: Seq<EventView>,
)
    requires
        events.len() >= 4,
    ensures
        run(world, start_spec(command, home), events).step is Done,
{
    reveal_with_fuel(run, 5);
}

/// A key that was just added is listed: if adding `name`, a name that an
/// entry of a directory can have and that was not in storage, ends in
/// success, and a listing made right after it ends in success too, then
/// `name` is among the names listed.
pub proof fn lemma_added_key_is_listed(
    world: World,
    home: Seq<char>,
    name: Seq<char>,
    email: Option<Seq<char>>,
    adding: Seq<EventView>,
    listing: Seq<EventView>,
)
    requires
        is_entry_name(name),
        !world.files.dom().contains(key_path_spec(home, name)),
        plausible(world, start_spec(CommandView::Add { name, email }, Some(home)), adding),
        run(world, start_spec(CommandView::Add { name, email }, Some(home)), adding).step
            matches StepView::Done(Ok(_)),
        plausible(
            run(world, start_spec(CommandView::Add { name, email }, Some(home)), adding).world,
            start_spec(CommandView::List, Some(home)),
            listing,
        ),
        run(
            run(world, start_spec(CommandView::Add { name, email }, Some(home)), adding).world,
            start_spec(CommandView::List, Some(home)),
            listing,
        ).step matches StepView::Done(Ok(_)),
    ensures
        run(
            run(world, start_spec(CommandView::Add { name, email }, Some(home)), adding).world,
            start_spec(CommandView::List, Some(home)),
            listing,
        ).step matches StepView::Done(Ok(ReportView::Listed { names })) && names.contains(name),
{
    reveal_with_fuel(run, 5);
    reveal_with_fuel(plausible, 5);
    let path = key_path_spec(home, name);
    let dir = storage_dir_spec(home);
    assert(adding.len() >= 4);
    let after = run(world, start_spec(CommandView::Add { name, email }, Some(home)), adding).world;
    assert(after.files == world.files.insert(path, true).insert(
        public_key_path_spec(path),
        true,
    ));
    assert(listing.len() >= 1);
    let entries = listing[0]->Entries_0;
    assert(listing[0] is Entries);
    assert(faithful(after, dir, entries));
    let public_name = name + public_suffix();
    let entry = EntryView { name: public_name, is_file: true };
    assert(dir + seq!['/'] + public_name =~= public_key_path_spec(path));
    assert(is_entry_name(public_name)) by {
        assert(public_name.len() == name.len() + 4);
        assert forall|i: int| 0 <= i < public_name.len() implies public_name[i] != '/' by {
            if i < name.len() {
                assert(name.contains(name[i]));
            }
        }
    }
    assert(entries.contains(entry));
    lemma_stem_of_public_name(name);
    let i = choose|i: int| 0 <= i < entries.len() && entries[i] == entry;
    assert(entry_key(entries[i]) == Some(name));
    lemma_discovered_members(entries, name);
}

} // verus!
