//! A handheld that keeps what it is told, and what a run of overwrites
//! leaves on it.
//!
//! The handheld of this module is a yardstick, not the device: it answers
//! every call with success where it can, and keeps the databases that it
//! is asked to create, write and remove. Against it a plan that only
//! overwrites can be followed to its end.

use crate::database::{DatabaseView, EntryView};
use crate::error::{ConduitError, SyncManagerError};
use crate::session::{
    begin, conclude, enter_fill, enter_overwrite, enter_preclean, fail, in_body, next,
    written_record, Install, RequestView, Response, RunView,
};
use crate::syncmgr::{plan_fits, planned_fits, PlanView, PlannedView};
use crate::syncmgr_extern::{openDatabaseHandle, spec_wire_name, RawRecordView};
use vstd::prelude::*;

verus! {

/// How many bytes of a name stand before its first zero.
pub open spec fn first_zero(bytes: Seq<u8>) -> int
    decreases bytes.len(),
{
    if bytes.len() == 0 || bytes[0] == 0 {
        0
    } else {
        1 + first_zero(bytes.skip(1))
    }
}

/// The name that a handheld reads from the bytes of a call: the bytes
/// before the first zero.
pub open spec fn c_name(bytes: Seq<u8>) -> Seq<u8> {
    bytes.subrange(0, first_zero(bytes))
}

/// The databases on a handheld, each with the records and resources that
/// were written to it, and the name of the one that is open.
pub struct Handheld {
    pub databases: Map<Seq<u8>, Seq<RawRecordView>>,
    pub open: Option<Seq<u8>>,
}

/// The handle under which the handheld opens a database.
pub open spec fn the_handle() -> openDatabaseHandle {
    1
}

/// How the handheld serves a request, and what it answers: it loads,
/// registers, logs and unregisters with success; it removes a database
/// that it has, and reports one that it lacks as not found; it creates a
/// database that it lacks and opens it, and refuses one that it has; it
/// adds what is written to the open database; and it closes. What a run
/// asks for its preferences, its drains and its generators is beyond this
/// handheld.
pub open spec fn serve(handheld: Handheld, request: RequestView) -> Option<(Handheld, Response)> {
    match request {
        RequestView::LoadTransport => Some((handheld, Response::Loaded)),
        RequestView::Register => Some(
            (handheld, Response::Registered { code: SyncManagerError::SYNCERR_NONE, token: 1 }),
        ),
        RequestView::Log(_) => Some((handheld, Response::Status(SyncManagerError::SYNCERR_NONE))),
        RequestView::DeleteDb { name, .. } => {
            let key = c_name(name);
            if handheld.databases.dom().contains(key) {
                Some(
                    (
                        Handheld { databases: handheld.databases.remove(key), ..handheld },
                        Response::Status(SyncManagerError::SYNCERR_NONE),
                    ),
                )
            } else {
                Some((handheld, Response::Status(SyncManagerError::SYNCERR_NOT_FOUND)))
            }
        },
        RequestView::CreateDb(database) => {
            let key = c_name(database.name);
            if handheld.databases.dom().contains(key) {
                Some(
                    (
                        handheld,
                        Response::Created {
                            code: SyncManagerError::SYNCERR_FILE_ALREADY_EXIST,
                            handle: 0,
                        },
                    ),
                )
            } else {
                Some(
                    (
                        Handheld {
                            databases: handheld.databases.insert(key, Seq::empty()),
                            open: Some(key),
                        },
                        Response::Created {
                            code: SyncManagerError::SYNCERR_NONE,
                            handle: the_handle(),
                        },
                    ),
                )
            }
        },
        RequestView::WriteRec(record) | RequestView::WriteResourceRec(record) => {
            match handheld.open {
                Some(key) => Some(
                    (
                        Handheld {
                            databases: handheld.databases.insert(
                                key,
                                handheld.databases[key].push(record),
                            ),
                            ..handheld
                        },
                        Response::Status(SyncManagerError::SYNCERR_NONE),
                    ),
                ),
                None => Some(
                    (handheld, Response::Status(SyncManagerError::SYNCERR_NO_FILES_OPEN)),
                ),
            }
        },
        RequestView::CloseDb(_) => Some(
            (Handheld { open: None, ..handheld }, Response::Status(SyncManagerError::SYNCERR_NONE)),
        ),
        RequestView::Unregister(_) => Some(
            (handheld, Response::Status(SyncManagerError::SYNCERR_NONE)),
        ),
        _ => None,
    }
}

/// A run played against the handheld for at most `fuel` requests: the
/// request at which the play stops, and the handheld as it is then. The
/// play stops when the run is over, and at a request that is beyond the
/// handheld.
pub open spec fn play(run: RunView, request: RequestView, handheld: Handheld, fuel: nat) -> (
    RequestView,
    Handheld,
)
    decreases fuel,
{
    if fuel == 0 || request is Done {
        (request, handheld)
    } else {
        match serve(handheld, request) {
            Some((served, response)) => {
                let stepped = next(run, response);
                play(stepped.0, stepped.1, served, (fuel - 1) as nat)
            },
            None => (request, handheld),
        }
    }
}

/// Whether a name reaches the handheld as one name, whether it goes out
/// as it is or laid out for the wire: its bytes before the first zero fit
/// the wire.
pub open spec fn fits_wire(name: Seq<u8>) -> bool {
    first_zero(name) <= 31
}

/// The database that a plan overwrites at a place of its list.
pub open spec fn target(plan: PlanView, at: int) -> DatabaseView {
    match plan.overwrite[at] {
        PlannedView::Ready(database) => database,
        PlannedView::Deferred(_) => arbitrary(),
    }
}

/// The databases that a plan overwrites.
pub open spec fn targets(plan: PlanView) -> Seq<DatabaseView> {
    Seq::new(plan.overwrite.len(), |at: int| target(plan, at))
}

/// Whether a plan does nothing but overwrite databases that stand ready,
/// each under a name that fits the wire.
pub open spec fn overwrites_only(plan: PlanView) -> bool {
    &&& plan.preferences is None
    &&& plan.to_download.len() == 0
    &&& plan.to_remove.len() == 0
    &&& plan.create_if_not_exists.len() == 0
    &&& forall|at: int| 0 <= at < plan.overwrite.len() ==> #[trigger] plan.overwrite[at] is Ready
    &&& forall|at: int| 0 <= at < plan.overwrite.len() ==> fits_wire(#[trigger] target(plan, at).name)
}

/// Whether no two of some databases reach the handheld under one name.
pub open spec fn names_apart(targets: Seq<DatabaseView>) -> bool {
    forall|at: int, other: int|
        0 <= at < other < targets.len() ==> c_name((#[trigger] targets[at]).name) != c_name(
            (#[trigger] targets[other]).name,
        )
}

/// What the handheld keeps of the entries of a database that were written
/// under a handle.
pub open spec fn written(handle: openDatabaseHandle, content: Seq<EntryView>) -> Seq<RawRecordView> {
    content.map_values(|entry: EntryView| written_record(handle, entry))
}

/// The databases of a handheld without those of the names of some
/// databases.
pub open spec fn cleared(
    databases: Map<Seq<u8>, Seq<RawRecordView>>,
    targets: Seq<DatabaseView>,
) -> Map<Seq<u8>, Seq<RawRecordView>>
    decreases targets.len(),
{
    if targets.len() == 0 {
        databases
    } else {
        cleared(databases, targets.drop_last()).remove(c_name(targets.last().name))
    }
}

/// What becomes of the databases of a handheld when some databases are
/// installed from a place of their list on, one after the other: each is
/// created and written, until one is met whose name the handheld has; the
/// installation ends there, with the code of that refusal.
pub open spec fn installed(
    databases: Map<Seq<u8>, Seq<RawRecordView>>,
    targets: Seq<DatabaseView>,
    from: int,
) -> (SyncManagerError, Map<Seq<u8>, Seq<RawRecordView>>)
    decreases targets.len() - from,
{
    if from < 0 || from >= targets.len() {
        (SyncManagerError::SYNCERR_NONE, databases)
    } else if databases.dom().contains(c_name(targets[from].name)) {
        (SyncManagerError::SYNCERR_FILE_ALREADY_EXIST, databases)
    } else {
        installed(
            databases.insert(
                c_name(targets[from].name),
                written(the_handle(), targets[from].content),
            ),
            targets,
            from + 1,
        )
    }
}

/// What becomes of the databases of a handheld when some databases are
/// overwritten: what bore their names is removed, and they are installed.
pub open spec fn overwritten(
    databases: Map<Seq<u8>, Seq<RawRecordView>>,
    targets: Seq<DatabaseView>,
) -> (SyncManagerError, Map<Seq<u8>, Seq<RawRecordView>>) {
    installed(cleared(databases, targets), targets, 0)
}

/// The first zero of some bytes stands where no zero stands before it.
proof fn lemma_first_zero_at(bytes: Seq<u8>, at: int)
    requires
        0 <= at < bytes.len(),
        bytes[at] == 0,
        forall|i: int| 0 <= i < at ==> bytes[i] != 0,
    ensures
        first_zero(bytes) == at,
    decreases at,
{
    if at > 0 {
        let rest = bytes.skip(1);
        assert forall|i: int| 0 <= i < at - 1 implies rest[i] != 0 by {
            assert(rest[i] == bytes[i + 1]);
        }
        lemma_first_zero_at(rest, at - 1);
    }
}

/// No zero stands before the first zero of some bytes, and a zero stands
/// there unless the bytes end.
proof fn lemma_first_zero(bytes: Seq<u8>)
    ensures
        0 <= first_zero(bytes) <= bytes.len(),
        forall|i: int| 0 <= i < first_zero(bytes) ==> bytes[i] != 0,
        first_zero(bytes) < bytes.len() ==> bytes[first_zero(bytes)] == 0,
    decreases bytes.len(),
{
    if bytes.len() > 0 && bytes[0] != 0 {
        let rest = bytes.skip(1);
        lemma_first_zero(rest);
        assert forall|i: int| 0 <= i < first_zero(bytes) implies bytes[i] != 0 by {
            if i > 0 {
                assert(rest[i - 1] == bytes[i]);
            }
        }
        if first_zero(bytes) < bytes.len() {
            assert(rest[first_zero(rest)] == bytes[first_zero(bytes)]);
        }
    }
}

/// A name that fits the wire reaches the handheld as the same name,
/// whether it goes out as it is or laid out for the wire.
pub proof fn lemma_name_arrives(name: Seq<u8>)
    requires
        fits_wire(name),
    ensures
        c_name(spec_wire_name(name)) == c_name(name),
{
    lemma_first_zero(name);
    let wire = spec_wire_name(name);
    let len = first_zero(name);
    lemma_first_zero_at(wire, len);
    assert(wire.subrange(0, len) =~= name.subrange(0, len));
}

/// What is left of some databases when those of the names of some
/// databases are cleared: those of every other name, as they were.
pub proof fn lemma_cleared(
    databases: Map<Seq<u8>, Seq<RawRecordView>>,
    targets: Seq<DatabaseView>,
    name: Seq<u8>,
)
    ensures
        cleared(databases, targets).dom().contains(name) <==> databases.dom().contains(name)
            && forall|at: int|
            0 <= at < targets.len() ==> c_name((#[trigger] targets[at]).name) != name,
        cleared(databases, targets).dom().contains(name) ==> cleared(databases, targets)[name]
            == databases[name],
    decreases targets.len(),
{
    if targets.len() > 0 {
        let before = targets.drop_last();
        lemma_cleared(databases, before, name);
        if cleared(databases, targets).dom().contains(name) {
            assert forall|at: int| 0 <= at < targets.len() implies c_name(
                (#[trigger] targets[at]).name,
            ) != name by {
                if at < before.len() {
                    assert(before[at] == targets[at]);
                }
            }
        } else if databases.dom().contains(name) {
            if c_name(targets.last().name) != name {
                let at = choose|at: int|
                    0 <= at < before.len() && c_name((#[trigger] before[at]).name) == name;
                assert(targets[at] == before[at]);
            }
        }
    }
}

/// What an installation changes: nothing but databases of the names of
/// those that it installs.
pub proof fn lemma_installed_elsewhere(
    databases: Map<Seq<u8>, Seq<RawRecordView>>,
    targets: Seq<DatabaseView>,
    from: int,
    name: Seq<u8>,
)
    requires
        0 <= from,
        forall|at: int| from <= at < targets.len() ==> c_name((#[trigger] targets[at]).name) != name,
    ensures
        installed(databases, targets, from).1.dom().contains(name) <==> databases.dom().contains(
            name,
        ),
        installed(databases, targets, from).1[name] == databases[name],
    decreases targets.len() - from,
{
    if from < targets.len() {
        let key = c_name(targets[from].name);
        if !databases.dom().contains(key) {
            lemma_installed_elsewhere(
                databases.insert(key, written(the_handle(), targets[from].content)),
                targets,
                from + 1,
                name,
            );
        }
    }
}

/// What an installation leaves of databases of names of their own, where
/// the handheld has none of their names: every one of them, as it was
/// written, and success.
pub proof fn lemma_installed_apart(
    databases: Map<Seq<u8>, Seq<RawRecordView>>,
    targets: Seq<DatabaseView>,
    from: int,
    at: int,
)
    requires
        names_apart(targets),
        0 <= from <= at < targets.len(),
        forall|later: int|
            from <= later < targets.len() ==> !databases.dom().contains(
                c_name((#[trigger] targets[later]).name),
            ),
    ensures
        installed(databases, targets, from).0 == SyncManagerError::SYNCERR_NONE,
        installed(databases, targets, from).1.dom().contains(c_name(targets[at].name)),
        installed(databases, targets, from).1[c_name(targets[at].name)] == written(
            the_handle(),
            targets[at].content,
        ),
    decreases targets.len() - from,
{
    let key = c_name(targets[from].name);
    let grown = databases.insert(key, written(the_handle(), targets[from].content));
    assert forall|later: int| from + 1 <= later < targets.len() implies !grown.dom().contains(
        c_name((#[trigger] targets[later]).name),
    ) by {
        assert(c_name(targets[from].name) != c_name(targets[later].name));
    }
    if from < at {
        lemma_installed_apart(grown, targets, from + 1, at);
    } else {
        assert forall|later: int| from + 1 <= later < targets.len() implies c_name(
            (#[trigger] targets[later]).name,
        ) != key by {
            assert(c_name(targets[from].name) != c_name(targets[later].name));
        }
        lemma_installed_elsewhere(grown, targets, from + 1, key);
        if from + 1 < targets.len() {
            lemma_installed_apart(grown, targets, from + 1, from + 1);
        }
    }
}

/// To overwrite again changes nothing: what stands after some databases
/// were overwritten stands after they are overwritten once more, and the
/// second time ends as the first.
pub proof fn lemma_overwritten_again(
    databases: Map<Seq<u8>, Seq<RawRecordView>>,
    targets: Seq<DatabaseView>,
)
    ensures
        overwritten(overwritten(databases, targets).1, targets) == overwritten(databases, targets),
{
    let once = overwritten(databases, targets).1;
    let bare = cleared(databases, targets);
    let again = cleared(once, targets);
    assert forall|name: Seq<u8>| bare.dom().contains(name) <==> again.dom().contains(name) by {
        lemma_cleared(databases, targets, name);
        lemma_cleared(once, targets, name);
        if forall|at: int| 0 <= at < targets.len() ==> c_name((#[trigger] targets[at]).name) != name {
            lemma_installed_elsewhere(bare, targets, 0, name);
        }
    }
    assert forall|name: Seq<u8>| bare.dom().contains(name) implies bare[name] == again[name] by {
        lemma_cleared(databases, targets, name);
        lemma_cleared(once, targets, name);
        lemma_installed_elsewhere(bare, targets, 0, name);
    }
    assert(bare =~= again);
}

/// How many requests it takes to write the entries of a database from a
/// place on: one for a record, two for a resource, which is announced.
pub open spec fn fill_cost(content: Seq<EntryView>, from: int) -> nat
    decreases content.len() - from,
{
    if from < 0 || from >= content.len() {
        0
    } else {
        fill_cost(content, from + 1) + if content[from] is Resource {
            2nat
        } else {
            1nat
        }
    }
}

/// How many requests it takes to install some databases from a place on:
/// for each, to create it, to announce it, to write it, to announce that
/// it is closed, and to close it.
pub open spec fn install_cost(targets: Seq<DatabaseView>, from: int) -> nat
    decreases targets.len() - from,
{
    if from < 0 || from >= targets.len() {
        0
    } else {
        install_cost(targets, from + 1) + fill_cost(targets[from].content, 0) + 4
    }
}

/// How many requests a run of a plan that only overwrites makes at most
/// before it is over.
pub open spec fn run_cost(plan: PlanView) -> nat {
    (5 + 2 * plan.overwrite.len() + install_cost(targets(plan), 0)) as nat
}

/// One request of a play.
proof fn lemma_play_one(run: RunView, request: RequestView, handheld: Handheld, fuel: nat)
    requires
        fuel > 0,
        !(request is Done),
        serve(handheld, request) is Some,
    ensures
        play(run, request, handheld, fuel) == play(
            next(run, serve(handheld, request).unwrap().1).0,
            next(run, serve(handheld, request).unwrap().1).1,
            serve(handheld, request).unwrap().0,
            (fuel - 1) as nat,
        ),
{
}

/// What the play of a run of overwrites needs of the run: a plan that only
/// overwrites, in the body of the run.
spec fn overwriting(run: RunView) -> bool {
    &&& plan_fits(run.plan)
    &&& overwrites_only(run.plan)
    &&& in_body(run)
}

/// The end of a play: the result of the run, and the handheld with no
/// database open.
spec fn ended(end: (SyncManagerError, Map<Seq<u8>, Seq<RawRecordView>>)) -> (RequestView, Handheld) {
    (RequestView::Done(end.0.spec_into_result()), Handheld { databases: end.1, open: None })
}

proof fn lemma_play_end(run: RunView, handheld: Handheld, fuel: nat)
    requires
        in_body(run),
        fuel >= 2,
    ensures
        play(conclude(run).0, conclude(run).1, handheld, fuel) == (
            RequestView::Done(Ok(())),
            handheld,
        ),
{
    let concluding = conclude(run);
    lemma_play_one(concluding.0, concluding.1, handheld, fuel);
    let unregistering = next(concluding.0, Response::Status(SyncManagerError::SYNCERR_NONE));
    lemma_play_one(unregistering.0, unregistering.1, handheld, (fuel - 1) as nat);
}

proof fn lemma_play_failure(run: RunView, code: SyncManagerError, handheld: Handheld, fuel: nat)
    requires
        in_body(run),
        code != SyncManagerError::SYNCERR_NONE,
        fuel >= 2,
    ensures
        play(
            fail(run, ConduitError::Sync(code)).0,
            fail(run, ConduitError::Sync(code)).1,
            handheld,
            fuel,
        ) == (RequestView::Done(Err(ConduitError::Sync(code))), handheld),
{
    let failing = fail(run, ConduitError::Sync(code));
    lemma_play_one(failing.0, failing.1, handheld, fuel);
    let unregistering = next(failing.0, Response::Status(SyncManagerError::SYNCERR_NONE));
    lemma_play_one(unregistering.0, unregistering.1, handheld, (fuel - 1) as nat);
}

proof fn lemma_play_fill(
    run: RunView,
    at: int,
    from: int,
    handheld: Handheld,
    base: Map<Seq<u8>, Seq<RawRecordView>>,
    fuel: nat,
)
    requires
        overwriting(run),
        run.targets == targets(run.plan),
        0 <= at < run.plan.overwrite.len(),
        run.installing == target(run.plan, at),
        0 <= from <= run.installing.content.len(),
        handheld.open == Some(c_name(run.installing.name)),
        handheld.databases == base.insert(
            c_name(run.installing.name),
            written(the_handle(), run.installing.content.take(from)),
        ),
        fuel >= fill_cost(run.installing.content, from) + 2 + install_cost(
            targets(run.plan),
            at + 1,
        ) + 2,
    ensures
        play(
            enter_fill(run, Install::Overwrite(at as usize), the_handle(), from).0,
            enter_fill(run, Install::Overwrite(at as usize), the_handle(), from).1,
            handheld,
            fuel,
        ) == ended(
            installed(
                base.insert(
                    c_name(run.installing.name),
                    written(the_handle(), run.installing.content),
                ),
                targets(run.plan),
                at + 1,
            ),
        ),
    decreases run.plan.overwrite.len() - at, 0int, run.installing.content.len() - from,
{
    let plan = run.plan;
    let all = targets(plan);
    let install = Install::Overwrite(at as usize);
    let content = run.installing.content;
    let name = c_name(run.installing.name);
    let entered = enter_fill(run, install, the_handle(), from);
    assert(planned_fits(plan.overwrite[at]));
    if from < content.len() {
        let entry = content[from];
        let record = written_record(the_handle(), entry);
        let kept = Handheld {
            databases: handheld.databases.insert(name, handheld.databases[name].push(record)),
            ..handheld
        };
        assert(written(the_handle(), content.take(from)).push(record) =~= written(
            the_handle(),
            content.take(from + 1),
        ));
        assert(kept.databases =~= base.insert(
            name,
            written(the_handle(), content.take(from + 1)),
        ));
        match entry {
            EntryView::Record { .. } => {
                lemma_play_one(entered.0, entered.1, handheld, fuel);
                lemma_play_fill(entered.0, at, from + 1, kept, base, (fuel - 1) as nat);
            },
            EntryView::Resource { .. } => {
                lemma_play_one(entered.0, entered.1, handheld, fuel);
                let writing = next(entered.0, Response::Status(SyncManagerError::SYNCERR_NONE));
                lemma_play_one(writing.0, writing.1, handheld, (fuel - 1) as nat);
                lemma_play_fill(writing.0, at, from + 1, kept, base, (fuel - 2) as nat);
            },
        }
    } else {
        lemma_play_one(entered.0, entered.1, handheld, fuel);
        let closing = next(entered.0, Response::Status(SyncManagerError::SYNCERR_NONE));
        lemma_play_one(closing.0, closing.1, handheld, (fuel - 1) as nat);
        let closed = Handheld { open: None, ..handheld };
        assert(content.take(from) =~= content);
        lemma_play_install(closing.0, at + 1, closed, (fuel - 2) as nat);
    }
}

proof fn lemma_play_install(run: RunView, at: int, handheld: Handheld, fuel: nat)
    requires
        overwriting(run),
        run.targets == targets(run.plan),
        0 <= at <= run.plan.overwrite.len(),
        handheld.open is None,
        fuel >= install_cost(targets(run.plan), at) + 2,
    ensures
        play(enter_overwrite(run, at).0, enter_overwrite(run, at).1, handheld, fuel) == ended(
            installed(handheld.databases, targets(run.plan), at),
        ),
    decreases run.plan.overwrite.len() - at, 1int, 0int,
{
    let plan = run.plan;
    let all = targets(plan);
    if at < plan.overwrite.len() {
        let database = all[at];
        let name = c_name(database.name);
        let entered = enter_overwrite(run, at);
        assert(fits_wire(target(plan, at).name));
        lemma_name_arrives(database.name);
        lemma_play_one(entered.0, entered.1, handheld, fuel);
        if handheld.databases.dom().contains(name) {
            lemma_play_failure(
                entered.0,
                SyncManagerError::SYNCERR_FILE_ALREADY_EXIST,
                handheld,
                (fuel - 1) as nat,
            );
        } else {
            let created = Handheld {
                databases: handheld.databases.insert(name, Seq::empty()),
                open: Some(name),
            };
            let announcing = next(
                entered.0,
                Response::Created { code: SyncManagerError::SYNCERR_NONE, handle: the_handle() },
            );
            lemma_play_one(announcing.0, announcing.1, created, (fuel - 1) as nat);
            assert(written(the_handle(), database.content.take(0)) =~= Seq::empty());
            lemma_play_fill(announcing.0, at, 0, created, handheld.databases, (fuel - 2) as nat);
        }
    } else {
        lemma_play_end(run, handheld, fuel);
    }
}

proof fn lemma_play_clear(
    run: RunView,
    at: int,
    handheld: Handheld,
    databases: Map<Seq<u8>, Seq<RawRecordView>>,
    fuel: nat,
)
    requires
        overwriting(run),
        0 <= at <= run.plan.overwrite.len(),
        run.targets == targets(run.plan).take(at),
        handheld.open is None,
        handheld.databases == cleared(databases, targets(run.plan).take(at)),
        fuel >= 2 * (run.plan.overwrite.len() - at) + install_cost(targets(run.plan), 0) + 2,
    ensures
        play(enter_preclean(run, at).0, enter_preclean(run, at).1, handheld, fuel) == ended(
            overwritten(databases, targets(run.plan)),
        ),
    decreases run.plan.overwrite.len() - at,
{
    let plan = run.plan;
    let all = targets(plan);
    if at < plan.overwrite.len() {
        let database = target(plan, at);
        assert(plan.overwrite[at] is Ready);
        assert(fits_wire(target(plan, at).name));
        let entered = enter_preclean(run, at);
        lemma_play_one(entered.0, entered.1, handheld, fuel);
        let removed = serve(handheld, entered.1).unwrap();
        assert(all.take(at + 1).drop_last() =~= all.take(at));
        assert(all.take(at + 1).last() == database);
        assert(removed.0.databases =~= cleared(databases, all.take(at + 1)));
        let reporting = next(entered.0, removed.1);
        lemma_play_one(reporting.0, reporting.1, removed.0, (fuel - 1) as nat);
        assert(reporting.0.targets =~= all.take(at + 1));
        lemma_play_clear(reporting.0, at + 1, removed.0, databases, (fuel - 2) as nat);
    } else {
        assert(all.take(at) =~= all);
        lemma_play_install(run, 0, handheld, fuel);
    }
}

/// What a run of overwrites leaves on a handheld. A run of a plan that
/// does nothing but overwrite databases that stand ready, each under a
/// name that fits the wire, played against a handheld on which no
/// database is open, comes to its end: what bore the names of the
/// databases is removed, and the databases are installed one after the
/// other, each as the plan has it. The run fails only where a database
/// bears the name of one that the same run installed before it.
pub proof fn lemma_overwrite_run(plan: PlanView, handheld: Handheld, fuel: nat)
    requires
        plan_fits(plan),
        overwrites_only(plan),
        handheld.open is None,
        fuel >= run_cost(plan),
    ensures
        play(begin(plan).0, begin(plan).1, handheld, fuel) == (
            RequestView::Done(overwritten(handheld.databases, targets(plan)).0.spec_into_result()),
            Handheld { databases: overwritten(handheld.databases, targets(plan)).1, open: None },
        ),
{
    let started = begin(plan);
    lemma_play_one(started.0, started.1, handheld, fuel);
    let registering = next(started.0, Response::Loaded);
    lemma_play_one(registering.0, registering.1, handheld, (fuel - 1) as nat);
    let announcing = next(
        registering.0,
        Response::Registered { code: SyncManagerError::SYNCERR_NONE, token: 1 },
    );
    lemma_play_one(announcing.0, announcing.1, handheld, (fuel - 2) as nat);
    assert(targets(plan).take(0) =~= Seq::empty());
    lemma_play_clear(announcing.0, 0, handheld, handheld.databases, (fuel - 3) as nat);
}

/// A run of overwrites of databases of names of their own succeeds, and
/// leaves each of them on the handheld as the plan has it, and every
/// database of another name as it was.
pub proof fn lemma_overwrite_apart(plan: PlanView, handheld: Handheld, fuel: nat, name: Seq<u8>)
    requires
        plan_fits(plan),
        overwrites_only(plan),
        names_apart(targets(plan)),
        handheld.open is None,
        fuel >= run_cost(plan),
    ensures
        ({
            let end = play(begin(plan).0, begin(plan).1, handheld, fuel);
            &&& end.0 == RequestView::Done(Ok(()))
            &&& end.1.open is None
            &&& forall|at: int|
                0 <= at < plan.overwrite.len() && c_name(#[trigger] target(plan, at).name)
                    == name ==> end.1.databases.dom().contains(name) && end.1.databases[name]
                    == written(the_handle(), target(plan, at).content)
            &&& (forall|at: int|
                0 <= at < plan.overwrite.len() ==> c_name(#[trigger] target(plan, at).name)
                    != name) ==> {
                &&& end.1.databases.dom().contains(name) <==> handheld.databases.dom().contains(
                    name,
                )
                &&& handheld.databases.dom().contains(name) ==> end.1.databases[name]
                    == handheld.databases[name]
            }
        }),
{
    lemma_overwrite_run(plan, handheld, fuel);
    let all = targets(plan);
    let bare = cleared(handheld.databases, all);
    assert forall|later: int| 0 <= later < all.len() implies !bare.dom().contains(
        c_name((#[trigger] all[later]).name),
    ) by {
        lemma_cleared(handheld.databases, all, c_name(all[later].name));
    }
    if all.len() > 0 {
        lemma_installed_apart(bare, all, 0, 0);
    }
    let end = play(begin(plan).0, begin(plan).1, handheld, fuel);
    assert forall|at: int|
        0 <= at < plan.overwrite.len() && c_name(#[trigger] target(plan, at).name)
            == name implies end.1.databases.dom().contains(name) && end.1.databases[name]
        == written(the_handle(), target(plan, at).content) by {
        assert(all[at] == target(plan, at));
        lemma_installed_apart(bare, all, 0, at);
    }
    if forall|at: int|
        0 <= at < plan.overwrite.len() ==> c_name(#[trigger] target(plan, at).name) != name {
        assert forall|at: int| 0 <= at < all.len() implies c_name((#[trigger] all[at]).name)
            != name by {
            assert(all[at] == target(plan, at));
        }
        lemma_installed_elsewhere(bare, all, 0, name);
        lemma_cleared(handheld.databases, all, name);
    }
}

/// Twice overwritten, a database is what the plan has, and no more. After
/// a run of overwrites of databases of names of their own, and after a
/// second run against the handheld as the first left it, each of the
/// databases holds exactly what was written for the entries of the plan,
/// in their order: nothing of what it held before, and nothing twice.
pub proof fn lemma_overwrite_twice_leaves_the_plan(
    plan: PlanView,
    handheld: Handheld,
    fuel: nat,
    at: int,
)
    requires
        plan_fits(plan),
        overwrites_only(plan),
        names_apart(targets(plan)),
        handheld.open is None,
        fuel >= run_cost(plan),
        0 <= at < plan.overwrite.len(),
    ensures
        ({
            let once = play(begin(plan).0, begin(plan).1, handheld, fuel);
            let twice = play(begin(plan).0, begin(plan).1, once.1, fuel);
            let name = c_name(target(plan, at).name);
            &&& once.0 == RequestView::Done(Ok(()))
            &&& twice.0 == RequestView::Done(Ok(()))
            &&& once.1.databases.dom().contains(name)
            &&& twice.1.databases.dom().contains(name)
            &&& once.1.databases[name] == written(the_handle(), target(plan, at).content)
            &&& twice.1.databases[name] == once.1.databases[name]
            &&& twice.1.databases[name].len() == target(plan, at).content.len()
        }),
{
    let name = c_name(target(plan, at).name);
    lemma_overwrite_apart(plan, handheld, fuel, name);
    lemma_overwrite_twice(plan, handheld, fuel);
}

/// A run of overwrites may be repeated. Played a second time against the
/// handheld as the first run left it, a run of a plan that only overwrites
/// ends as the first did and leaves the handheld as it found it.
pub proof fn lemma_overwrite_twice(plan: PlanView, handheld: Handheld, fuel: nat)
    requires
        plan_fits(plan),
        overwrites_only(plan),
        handheld.open is None,
        fuel >= run_cost(plan),
    ensures
        ({
            let once = play(begin(plan).0, begin(plan).1, handheld, fuel);
            let twice = play(begin(plan).0, begin(plan).1, once.1, fuel);
            twice == once
        }),
{
    lemma_overwrite_run(plan, handheld, fuel);
    let once = play(begin(plan).0, begin(plan).1, handheld, fuel);
    lemma_overwrite_run(plan, once.1, fuel);
    lemma_overwritten_again(handheld.databases, targets(plan));
}

} // verus!
