//! The plan of a conduit and the builder that accumulates it.

use crate::database::{Database, DatabaseContent, DatabaseView};
use crate::error::ConduitError;
use crate::session::{Request, SyncRun};
use vstd::prelude::*;

verus! {

/// Which preference a plan sets, and how its value is found: a fixed value
/// that is written as it is, or a transform of the value on the handheld.
#[derive(Debug, Clone, Copy, PartialEq, Eq, Structural)]
pub enum PreferenceKind {
    Static(u16),
    Dynamic(u16),
}

impl PreferenceKind {
    /// The id of the preference among those of the plan's creator.
    pub open spec fn spec_id(self) -> u16 {
        match self {
            PreferenceKind::Static(id) => id,
            PreferenceKind::Dynamic(id) => id,
        }
    }

    /// The id of the preference among those of the plan's creator.
    pub fn id(&self) -> (id: u16)
        ensures
            id == self.spec_id(),
    {
        match self {
            PreferenceKind::Static(id) => *id,
            PreferenceKind::Dynamic(id) => *id,
        }
    }
}

/// A database that a plan installs: one whose content stood ready when the
/// plan was built, or one that a generator makes when its turn comes; the
/// number is the generator's place among the generators of the plan.
#[derive(Debug)]
pub enum PlannedDatabase {
    Ready(Database),
    Deferred(usize),
}

/// A [`PlannedDatabase`] over sequences of bytes.
pub enum PlannedView {
    Ready(DatabaseView),
    Deferred(usize),
}

impl View for PlannedDatabase {
    type V = PlannedView;

    open spec fn view(&self) -> PlannedView {
        match *self {
            PlannedDatabase::Ready(database) => PlannedView::Ready(database@),
            PlannedDatabase::Deferred(slot) => PlannedView::Deferred(slot),
        }
    }
}

/// The names of a list of databases, each as a sequence of bytes.
pub open spec fn names_view(names: Seq<Vec<u8>>) -> Seq<Seq<u8>> {
    names.map_values(|name: Vec<u8>| name@)
}

/// A list of planned databases over sequences of bytes.
pub open spec fn planned_view(planned: Seq<PlannedDatabase>) -> Seq<PlannedView> {
    planned.map_values(|database: PlannedDatabase| database@)
}

/// What a conduit is to do, as plain data. The directives of each kind
/// stand in the order in which they were declared.
#[derive(Debug)]
pub struct Plan {
    /// The name under which the conduit reports itself.
    pub name: Vec<u8>,
    /// The creator whose databases and preferences the conduit manages.
    pub creator_id: u32,
    /// The preference to set, if any.
    pub preferences: Option<PreferenceKind>,
    /// The databases to drain into a sink and then remove.
    pub to_download: Vec<Vec<u8>>,
    /// The databases to remove.
    pub to_remove: Vec<Vec<u8>>,
    /// The databases to create unless they exist.
    pub create_if_not_exists: Vec<PlannedDatabase>,
    /// The databases to remove and create anew.
    pub overwrite: Vec<PlannedDatabase>,
}

/// A [`Plan`] over sequences of bytes.
pub struct PlanView {
    pub name: Seq<u8>,
    pub creator_id: u32,
    pub preferences: Option<PreferenceKind>,
    pub to_download: Seq<Seq<u8>>,
    pub to_remove: Seq<Seq<u8>>,
    pub create_if_not_exists: Seq<PlannedView>,
    pub overwrite: Seq<PlannedView>,
}

impl View for Plan {
    type V = PlanView;

    open spec fn view(&self) -> PlanView {
        PlanView {
            name: self.name@,
            creator_id: self.creator_id,
            preferences: self.preferences,
            to_download: names_view(self.to_download@),
            to_remove: names_view(self.to_remove@),
            create_if_not_exists: planned_view(self.create_if_not_exists@),
            overwrite: planned_view(self.overwrite@),
        }
    }
}

/// The number that four bytes denote when read most significant byte first.
pub open spec fn be_value(bytes: Seq<u8>) -> int
    recommends
        bytes.len() == 4,
{
    bytes[0] * 0x100_0000 + bytes[1] * 0x1_0000 + bytes[2] * 0x100 + bytes[3]
}

/// The four bytes of a 32-bit number, most significant byte first.
pub open spec fn be_bytes(value: u32) -> Seq<u8> {
    seq![
        (value / 0x100_0000) as u8,
        (value / 0x1_0000 % 0x100) as u8,
        (value / 0x100 % 0x100) as u8,
        (value % 0x100) as u8,
    ]
}

/// Packs a four-byte identifier (a creator or a type code) into the 32-bit
/// number that the transport carries, most significant byte first.
pub fn uchars_to_u32(creator: [u8; 4]) -> (packed: u32)
    ensures
        packed == be_value(creator@),
{
    let b0: u32 = creator[0] as u32;
    let b1: u32 = creator[1] as u32;
    let b2: u32 = creator[2] as u32;
    let b3: u32 = creator[3] as u32;
    assert((b0 << 24 | b1 << 16 | b2 << 8 | b3) == b0 * 0x100_0000 + b1 * 0x1_0000 + b2 * 0x100
        + b3) by (bit_vector)
        requires
            b0 < 0x100,
            b1 < 0x100,
            b2 < 0x100,
            b3 < 0x100,
    ;
    b0 << 24 | b1 << 16 | b2 << 8 | b3
}

/// Packing an identifier loses nothing: the bytes of the packed number, most
/// significant first, are the identifier again, so distinct identifiers pack
/// to distinct numbers.
pub proof fn lemma_packing_round_trips(creator: [u8; 4])
    ensures
        0 <= be_value(creator@) <= u32::MAX,
        be_bytes(be_value(creator@) as u32) == creator@,
{
    let v = be_value(creator@);
    let b0 = creator@[0];
    let b1 = creator@[1];
    let b2 = creator@[2];
    let b3 = creator@[3];
    assert(v / 0x100_0000 == b0 as int);
    assert(v / 0x1_0000 % 0x100 == b1 as int);
    assert(v / 0x100 % 0x100 == b2 as int);
    assert(v % 0x100 == b3 as int);
    assert(be_bytes(v as u32) =~= creator@);
}

/// Whether a planned database, if it stands ready, has no more entries
/// than a machine can count.
pub open spec fn planned_fits(planned: PlannedView) -> bool {
    planned matches PlannedView::Ready(database) ==> database.content.len() <= usize::MAX
}

/// Whether a plan has no more directives, and no database of it more
/// entries, than a machine can count. The plan of every conduit has.
pub open spec fn plan_fits(plan: PlanView) -> bool {
    &&& plan.to_download.len() <= usize::MAX
    &&& plan.to_remove.len() <= usize::MAX
    &&& plan.create_if_not_exists.len() <= usize::MAX
    &&& plan.overwrite.len() <= usize::MAX
    &&& forall|i: int|
        0 <= i < plan.create_if_not_exists.len() ==> planned_fits(
            #[trigger] plan.create_if_not_exists[i],
        )
    &&& forall|i: int|
        0 <= i < plan.overwrite.len() ==> planned_fits(#[trigger] plan.overwrite[i])
}

impl Plan {
    /// The plan of a conduit is one that a machine can count through.
    pub proof fn lemma_fits(&self)
        ensures
            plan_fits(self@),
    {
        assert(self@.to_download.len() == self.to_download.len());
        assert(self@.to_remove.len() == self.to_remove.len());
        assert(self@.create_if_not_exists.len() == self.create_if_not_exists.len());
        assert(self@.overwrite.len() == self.overwrite.len());
        assert forall|i: int| 0 <= i < self@.create_if_not_exists.len() implies planned_fits(
            #[trigger] self@.create_if_not_exists[i],
        ) by {
            let planned = self.create_if_not_exists@[i];
            assert(self@.create_if_not_exists[i] == planned@);
            match planned {
                PlannedDatabase::Ready(database) => {
                    database.lemma_fits();
                },
                PlannedDatabase::Deferred(_) => {},
            }
        }
        assert forall|i: int| 0 <= i < self@.overwrite.len() implies planned_fits(
            #[trigger] self@.overwrite[i],
        ) by {
            let planned = self.overwrite@[i];
            assert(self@.overwrite[i] == planned@);
            match planned {
                PlannedDatabase::Ready(database) => {
                    database.lemma_fits();
                },
                PlannedDatabase::Deferred(_) => {},
            }
        }
    }
}

/// Makes a database when its turn comes in a run, so that what it makes
/// may depend on what the run has done before.
pub trait DatabaseGenerator {
    /// The name, the four-character type and the content of the database.
    fn generate(self: Box<Self>) -> (generated: (Vec<u8>, [u8; 4], DatabaseContent));
}

/// The preference that a conduit sets: a fixed value, or a transform that
/// takes the value on the handheld, or nothing where the handheld has
/// none, and gives the new value, or nothing to leave it as it is.
pub enum PreferenceType<T, F> {
    Static(u16, T),
    Dynamic(u16, F),
}

impl<T, F> PreferenceType<T, F> {
    /// Which preference it is, and how its value is found.
    pub open spec fn spec_kind(self) -> PreferenceKind {
        match self {
            PreferenceType::Static(id, _) => PreferenceKind::Static(id),
            PreferenceType::Dynamic(id, _) => PreferenceKind::Dynamic(id),
        }
    }
}

/// Where a database to install comes from: a content that stands ready, a
/// file that is read when the conduit is built, or a generator that runs
/// when the conduit does. Each of the first two names the database and
/// gives its four-character type.
pub enum ConduitDBSource<G> {
    Static(Vec<u8>, [u8; 4], DatabaseContent),
    File(Vec<u8>, [u8; 4], String),
    Generator(G),
}

/// What takes the records of a drained database.
pub enum ConduitDBSink<S> {
    Dynamic(S),
}

/// What a conduit brings along and its driver runs: the fixed value or
/// the transform of its preference, the sinks of its drains, in the order
/// of the drains, and its generators.
pub struct Hooks<T, F, S, G> {
    pub static_value: Option<T>,
    pub transform: Option<F>,
    pub sinks: Vec<ConduitDBSink<S>>,
    pub generators: Vec<G>,
}

/// Whether every byte of an identity is ASCII.
pub open spec fn spec_is_ascii(identity: [u8; 4]) -> bool {
    forall|i: int| 0 <= i < 4 ==> identity@[i] < 0x80
}

/// Whether every byte of an identity is ASCII.
pub fn is_ascii(identity: &[u8; 4]) -> (ascii: bool)
    ensures
        ascii == spec_is_ascii(*identity),
{
    identity[0] < 0x80 && identity[1] < 0x80 && identity[2] < 0x80 && identity[3] < 0x80
}

/// How many of some sources are files.
pub open spec fn file_count<G>(sources: Seq<ConduitDBSource<G>>) -> nat
    decreases sources.len(),
{
    if sources.len() == 0 {
        0
    } else {
        file_count(sources.drop_last()) + if sources.last() is File {
            1nat
        } else {
            0nat
        }
    }
}

/// The paths of the files among some sources, in the order of the sources.
pub open spec fn file_paths<G>(sources: Seq<ConduitDBSource<G>>) -> Seq<Seq<char>>
    decreases sources.len(),
{
    if sources.len() == 0 {
        Seq::empty()
    } else {
        match sources.last() {
            ConduitDBSource::File(_, _, path) => file_paths(sources.drop_last()).push(path@),
            _ => file_paths(sources.drop_last()),
        }
    }
}

/// What became of a list of sources: the databases planned so far, the
/// generators met so far, how many file contents were used up, and the
/// place, among the file contents, of the first that could not be had.
pub struct Resolution<G> {
    pub planned: Seq<PlannedView>,
    pub generators: Seq<G>,
    pub used: nat,
    pub failed: Option<nat>,
}

/// Resolves a list of sources in order, up to the first file that could
/// not be had. A content that stands ready is planned as it is; a file is
/// planned with the next of the contents in `files`; a generator is
/// planned by its place among all generators, the first of this list
/// having place `first_slot`.
pub open spec fn resolve<G>(
    sources: Seq<ConduitDBSource<G>>,
    files: Seq<Result<DatabaseContent, ConduitError>>,
    first_slot: nat,
) -> Resolution<G>
    decreases sources.len(),
{
    if sources.len() == 0 {
        Resolution { planned: Seq::empty(), generators: Seq::empty(), used: 0, failed: None }
    } else {
        let before = resolve(sources.drop_last(), files, first_slot);
        if before.failed is Some {
            before
        } else {
            match sources.last() {
                ConduitDBSource::Static(name, type_code, content) => Resolution {
                    planned: before.planned.push(
                        PlannedView::Ready(
                            DatabaseView {
                                name: name@,
                                type_code: be_value(type_code@) as u32,
                                content: content@,
                            },
                        ),
                    ),
                    ..before
                },
                ConduitDBSource::File(name, type_code, _) => match files[before.used as int] {
                    Ok(content) => Resolution {
                        planned: before.planned.push(
                            PlannedView::Ready(
                                DatabaseView {
                                    name: name@,
                                    type_code: be_value(type_code@) as u32,
                                    content: content@,
                                },
                            ),
                        ),
                        used: before.used + 1,
                        ..before
                    },
                    Err(_) => Resolution { failed: Some(before.used), ..before },
                },
                ConduitDBSource::Generator(generator) => Resolution {
                    planned: before.planned.push(
                        PlannedView::Deferred((first_slot + before.generators.len()) as usize),
                    ),
                    generators: before.generators.push(generator),
                    ..before
                },
            }
        }
    }
}

/// The place of a source among its list does not change how many files
/// stand before it: a prefix of a list holds no more files than the list.
proof fn lemma_file_count_prefix<G>(sources: Seq<ConduitDBSource<G>>, len: int)
    requires
        0 <= len <= sources.len(),
    ensures
        file_count(sources.take(len)) <= file_count(sources),
    decreases sources.len(),
{
    if len == sources.len() {
        assert(sources.take(len) =~= sources);
    } else {
        lemma_file_count_prefix(sources.drop_last(), len);
        assert(sources.drop_last().take(len) =~= sources.take(len));
    }
}

/// A resolution uses up no more file contents than its sources hold
/// files, and as many if no file failed; and where a file failed, it is
/// the one after those used up.
pub proof fn lemma_resolve_uses_files<G>(
    sources: Seq<ConduitDBSource<G>>,
    files: Seq<Result<DatabaseContent, ConduitError>>,
    first_slot: nat,
)
    ensures
        resolve(sources, files, first_slot).used <= file_count(sources),
        resolve(sources, files, first_slot).failed is None ==> resolve(
            sources,
            files,
            first_slot,
        ).used == file_count(sources) && resolve(sources, files, first_slot).planned.len()
            == sources.len(),
        resolve(sources, files, first_slot).failed matches Some(at) ==> at == resolve(
            sources,
            files,
            first_slot,
        ).used && at < file_count(sources),
    decreases sources.len(),
{
    if sources.len() > 0 {
        lemma_resolve_uses_files(sources.drop_last(), files, first_slot);
    }
}

/// Every generator is kept under the place by which its directive is
/// planned: where the sources of a list are all resolved, a directive is
/// deferred exactly if its source is a generator, to a place that counts
/// from `first_slot` on, at which the resolution holds that generator; and
/// of two generators the later has the later place.
pub proof fn lemma_generators_keep_their_places<G>(
    sources: Seq<ConduitDBSource<G>>,
    files: Seq<Result<DatabaseContent, ConduitError>>,
    first_slot: nat,
    at: int,
)
    requires
        resolve(sources, files, first_slot).failed is None,
        0 <= at < sources.len(),
        first_slot + sources.len() <= usize::MAX,
    ensures
        resolve(sources, files, first_slot).planned.len() == sources.len(),
        resolve(sources, files, first_slot).generators.len() <= sources.len(),
        sources[at] is Generator <==> resolve(sources, files, first_slot).planned[at] is Deferred,
        sources[at] matches ConduitDBSource::Generator(generator) ==> {
            &&& resolve(sources, files, first_slot).planned[at] matches PlannedView::Deferred(slot)
            &&& first_slot <= slot < first_slot + resolve(
                sources,
                files,
                first_slot,
            ).generators.len()
            &&& resolve(sources, files, first_slot).generators[slot - first_slot] == generator
            &&& slot == first_slot + resolve(sources.take(at), files, first_slot).generators.len()
        },
    decreases sources.len(),
{
    let before = sources.drop_last();
    lemma_resolve_uses_files(sources, files, first_slot);
    lemma_resolve_uses_files(before, files, first_slot);
    lemma_resolved_generators(before, files, first_slot);
    if at < before.len() {
        lemma_generators_keep_their_places(before, files, first_slot, at);
        assert(before.take(at) =~= sources.take(at));
    } else {
        assert(sources.take(at) =~= before);
    }
}

/// A resolution holds no more generators than it has sources, and none
/// where it failed before them.
proof fn lemma_resolved_generators<G>(
    sources: Seq<ConduitDBSource<G>>,
    files: Seq<Result<DatabaseContent, ConduitError>>,
    first_slot: nat,
)
    ensures
        resolve(sources, files, first_slot).generators.len() <= sources.len(),
    decreases sources.len(),
{
    if sources.len() > 0 {
        lemma_resolved_generators(sources.drop_last(), files, first_slot);
    }
}

/// Resolves a list of sources, taking the file contents from the front of
/// `files` and adding the generators to the end of `generators`.
fn resolve_sources<G>(
    sources: Vec<ConduitDBSource<G>>,
    files: &mut Vec<Result<DatabaseContent, ConduitError>>,
    generators: &mut Vec<G>,
) -> (resolved: Result<Vec<PlannedDatabase>, ConduitError>)
    requires
        file_count(sources@) <= old(files)@.len(),
    ensures
        resolved is Ok <==> resolve(sources@, old(files)@, old(generators)@.len()).failed
            is None,
        resolved matches Ok(planned) ==> {
            let resolution = resolve(sources@, old(files)@, old(generators)@.len());
            &&& planned_view(planned@) == resolution.planned
            &&& final(generators)@ == old(generators)@ + resolution.generators
            &&& final(files)@ == old(files)@.skip(resolution.used as int)
        },
        resolved matches Err(error) ==> {
            let resolution = resolve(sources@, old(files)@, old(generators)@.len());
            &&& resolution.failed matches Some(at)
            &&& at < old(files)@.len()
            &&& old(files)@[at as int] == Err::<DatabaseContent, ConduitError>(error)
        },
{
    let ghost all = sources@;
    let ghost files0 = files@;
    let ghost generators0 = generators@;
    let mut rest = sources;
    let mut planned: Vec<PlannedDatabase> = Vec::new();
    let ghost mut done: int = 0;
    proof {
        assert(all.take(0) =~= Seq::empty());
        assert(all.skip(0) =~= all);
        assert(files0.skip(0) =~= files0);
        assert(generators0 + Seq::<G>::empty() =~= generators0);
        assert(planned_view(planned@) =~= Seq::<PlannedView>::empty());
    }
    while rest.len() > 0
        invariant
            0 <= done <= all.len(),
            all == sources@,
            files0 == old(files)@,
            generators0 == old(generators)@,
            rest@ == all.skip(done),
            file_count(all) <= files0.len(),
            resolve(all.take(done), files0, generators0.len()).failed is None,
            planned_view(planned@) == resolve(all.take(done), files0, generators0.len()).planned,
            generators@ == generators0 + resolve(
                all.take(done),
                files0,
                generators0.len(),
            ).generators,
            files@ == files0.skip(
                resolve(all.take(done), files0, generators0.len()).used as int,
            ),
        decreases rest.len(),
    {
        let ghost before = resolve(all.take(done), files0, generators0.len());
        proof {
            lemma_resolve_uses_files(all.take(done), files0, generators0.len());
            lemma_resolve_uses_files(all.take(done + 1), files0, generators0.len());
            lemma_file_count_prefix(all, done + 1);
            assert(all.take(done + 1).drop_last() =~= all.take(done));
            assert(all.take(done + 1).last() == all[done]);
            assert(all.skip(done)[0] == all[done]);
            assert(all.skip(done).remove(0) =~= all.skip(done + 1));
        }
        let source = rest.remove(0);
        match source {
            ConduitDBSource::Static(name, type_code, content) => {
                let database = Database { name, type_code: uchars_to_u32(type_code), content };
                planned.push(PlannedDatabase::Ready(database));
                proof {
                    assert(planned_view(planned@) =~= before.planned.push(
                        PlannedView::Ready(database@),
                    ));
                }
            },
            ConduitDBSource::File(name, type_code, _) => {
                proof {
                    assert(before.used < files0.len());
                    assert(files0.skip(before.used as int)[0] == files0[before.used as int]);
                    assert(files0.skip(before.used as int).remove(0) =~= files0.skip(
                        before.used as int + 1,
                    ));
                }
                let loaded = files.remove(0);
                match loaded {
                    Ok(content) => {
                        let database = Database {
                            name,
                            type_code: uchars_to_u32(type_code),
                            content,
                        };
                        planned.push(PlannedDatabase::Ready(database));
                        proof {
                            assert(planned_view(planned@) =~= before.planned.push(
                                PlannedView::Ready(database@),
                            ));
                        }
                    },
                    Err(error) => {
                        proof {
                            assert(files0[before.used as int] == loaded);
                            assert(resolve(all.take(done + 1), files0, generators0.len()).failed
                                == Some(before.used));
                            lemma_failure_stays(all, done + 1, files0, generators0.len());
                        }
                        return Err(error);
                    },
                }
            },
            ConduitDBSource::Generator(generator) => {
                let slot = generators.len();
                generators.push(generator);
                planned.push(PlannedDatabase::Deferred(slot));
                proof {
                    assert(planned_view(planned@) =~= before.planned.push(
                        PlannedView::Deferred(slot),
                    ));
                    assert(generators@ =~= generators0 + before.generators.push(generator));
                }
            },
        }
        proof {
            done = done + 1;
        }
    }
    proof {
        assert(all.take(done) =~= all);
    }
    Ok(planned)
}

/// Once a file has failed, the resolution of a longer list fails at the
/// same file.
proof fn lemma_failure_stays<G>(
    sources: Seq<ConduitDBSource<G>>,
    len: int,
    files: Seq<Result<DatabaseContent, ConduitError>>,
    first_slot: nat,
)
    requires
        0 <= len <= sources.len(),
        resolve(sources.take(len), files, first_slot).failed is Some,
    ensures
        resolve(sources, files, first_slot) == resolve(sources.take(len), files, first_slot),
    decreases sources.len(),
{
    if len == sources.len() {
        assert(sources.take(len) =~= sources);
    } else {
        assert(sources.drop_last().take(len) =~= sources.take(len));
        lemma_failure_stays(sources.drop_last(), len, files, first_slot);
    }
}

/// The directives of a conduit as they are declared, before the conduit is
/// built.
pub struct ConduitBuilder<T, F, S, G> {
    name: Vec<u8>,
    creator: [u8; 4],
    create_if_not_exists: Vec<ConduitDBSource<G>>,
    overwrite: Vec<ConduitDBSource<G>>,
    to_remove: Vec<Vec<u8>>,
    to_download: Vec<(Vec<u8>, ConduitDBSink<S>)>,
    preferences: Option<PreferenceType<T, F>>,
}

/// A [`ConduitBuilder`] with its names as sequences of bytes.
pub struct BuilderView<T, F, S, G> {
    pub name: Seq<u8>,
    pub creator: [u8; 4],
    pub create_if_not_exists: Seq<ConduitDBSource<G>>,
    pub overwrite: Seq<ConduitDBSource<G>>,
    pub to_remove: Seq<Seq<u8>>,
    pub to_download: Seq<(Seq<u8>, ConduitDBSink<S>)>,
    pub preferences: Option<PreferenceType<T, F>>,
}

/// The drains of a builder with each name as a sequence of bytes.
pub open spec fn drains_view<S>(drains: Seq<(Vec<u8>, ConduitDBSink<S>)>) -> Seq<
    (Seq<u8>, ConduitDBSink<S>),
> {
    drains.map_values(|drain: (Vec<u8>, ConduitDBSink<S>)| (drain.0@, drain.1))
}

impl<T, F, S, G> View for ConduitBuilder<T, F, S, G> {
    type V = BuilderView<T, F, S, G>;

    closed spec fn view(&self) -> BuilderView<T, F, S, G> {
        BuilderView {
            name: self.name@,
            creator: self.creator,
            create_if_not_exists: self.create_if_not_exists@,
            overwrite: self.overwrite@,
            to_remove: names_view(self.to_remove@),
            to_download: drains_view(self.to_download@),
            preferences: self.preferences,
        }
    }
}

impl<T, F, S, G> BuilderView<T, F, S, G> {
    /// The builder with one more database to remove.
    pub open spec fn remove_db(self, to_remove: Seq<u8>) -> Self {
        BuilderView { to_remove: self.to_remove.push(to_remove), ..self }
    }

    /// The builder with one more database to drain.
    pub open spec fn download_db_and(self, to_download: Seq<u8>, do_work: ConduitDBSink<S>) -> Self {
        BuilderView { to_download: self.to_download.push((to_download, do_work)), ..self }
    }

    /// The builder with one more database to overwrite.
    pub open spec fn overwrite_db(self, source: ConduitDBSource<G>) -> Self {
        BuilderView { overwrite: self.overwrite.push(source), ..self }
    }

    /// The builder with one more database to create unless it exists.
    pub open spec fn create_db(self, source: ConduitDBSource<G>) -> Self {
        BuilderView { create_if_not_exists: self.create_if_not_exists.push(source), ..self }
    }

    /// The builder with its preference set.
    pub open spec fn set_preferences(self, source: PreferenceType<T, F>) -> Self {
        BuilderView { preferences: Some(source), ..self }
    }
}

/// Directives of different kinds may be declared in any order: each joins
/// the list of its own kind, so that of two directives of different kinds
/// either may be declared first, and the builder is the same.
pub proof fn lemma_kinds_commute<T, F, S, G>(
    builder: BuilderView<T, F, S, G>,
    removed: Seq<u8>,
    drained: Seq<u8>,
    sink: ConduitDBSink<S>,
    overwritten: ConduitDBSource<G>,
    created: ConduitDBSource<G>,
    preference: PreferenceType<T, F>,
)
    ensures
        builder.remove_db(removed).download_db_and(drained, sink) == builder.download_db_and(
            drained,
            sink,
        ).remove_db(removed),
        builder.remove_db(removed).overwrite_db(overwritten) == builder.overwrite_db(
            overwritten,
        ).remove_db(removed),
        builder.remove_db(removed).create_db(created) == builder.create_db(created).remove_db(
            removed,
        ),
        builder.remove_db(removed).set_preferences(preference) == builder.set_preferences(
            preference,
        ).remove_db(removed),
        builder.download_db_and(drained, sink).overwrite_db(overwritten) == builder.overwrite_db(
            overwritten,
        ).download_db_and(drained, sink),
        builder.download_db_and(drained, sink).create_db(created) == builder.create_db(
            created,
        ).download_db_and(drained, sink),
        builder.download_db_and(drained, sink).set_preferences(preference)
            == builder.set_preferences(preference).download_db_and(drained, sink),
        builder.overwrite_db(overwritten).create_db(created) == builder.create_db(
            created,
        ).overwrite_db(overwritten),
        builder.overwrite_db(overwritten).set_preferences(preference) == builder.set_preferences(
            preference,
        ).overwrite_db(overwritten),
        builder.create_db(created).set_preferences(preference) == builder.set_preferences(
            preference,
        ).create_db(created),
{
}

/// A conduit, built and ready to run: its plan, and the hooks that its
/// driver runs for it.
pub struct Conduit<T, F, S, G> {
    plan: Plan,
    hooks: Hooks<T, F, S, G>,
}

/// A [`Conduit`] with its plan over sequences of bytes.
pub struct ConduitView<T, F, S, G> {
    pub plan: PlanView,
    pub static_value: Option<T>,
    pub transform: Option<F>,
    pub sinks: Seq<ConduitDBSink<S>>,
    pub generators: Seq<G>,
}

impl<T, F, S, G> View for Conduit<T, F, S, G> {
    type V = ConduitView<T, F, S, G>;

    closed spec fn view(&self) -> ConduitView<T, F, S, G> {
        ConduitView {
            plan: self.plan@,
            static_value: self.hooks.static_value,
            transform: self.hooks.transform,
            sinks: self.hooks.sinks@,
            generators: self.hooks.generators@,
        }
    }
}

/// What building makes of a builder, given the contents of its files: the
/// create-if-absent list is resolved first, then the overwrite list, whose
/// files and generators are counted on from those of the first.
pub open spec fn built<T, F, S, G>(
    builder: BuilderView<T, F, S, G>,
    files: Seq<Result<DatabaseContent, ConduitError>>,
) -> ConduitView<T, F, S, G> {
    let created = resolve(builder.create_if_not_exists, files, 0);
    let overwritten = resolve(
        builder.overwrite,
        files.skip(created.used as int),
        created.generators.len(),
    );
    ConduitView {
        plan: PlanView {
            name: builder.name,
            creator_id: be_value(builder.creator@) as u32,
            preferences: match builder.preferences {
                Some(preference) => Some(preference.spec_kind()),
                None => None,
            },
            to_download: builder.to_download.map_values(
                |drain: (Seq<u8>, ConduitDBSink<S>)| drain.0,
            ),
            to_remove: builder.to_remove,
            create_if_not_exists: created.planned,
            overwrite: overwritten.planned,
        },
        static_value: match builder.preferences {
            Some(PreferenceType::Static(_, value)) => Some(value),
            _ => None,
        },
        transform: match builder.preferences {
            Some(PreferenceType::Dynamic(_, transform)) => Some(transform),
            _ => None,
        },
        sinks: builder.to_download.map_values(|drain: (Seq<u8>, ConduitDBSink<S>)| drain.1),
        generators: created.generators + overwritten.generators,
    }
}

/// The place, among the file contents of a builder, of the first that
/// could not be had, if there is one.
pub open spec fn first_failed_file<T, F, S, G>(
    builder: BuilderView<T, F, S, G>,
    files: Seq<Result<DatabaseContent, ConduitError>>,
) -> Option<nat> {
    let created = resolve(builder.create_if_not_exists, files, 0);
    match created.failed {
        Some(at) => Some(at),
        None => match resolve(
            builder.overwrite,
            files.skip(created.used as int),
            created.generators.len(),
        ).failed {
            Some(at) => Some(created.used + at),
            None => None,
        },
    }
}

impl<T, F, S, G> ConduitBuilder<T, F, S, G> {
    /// Starts the plan of a conduit of this name, for the databases and
    /// preferences of this creator.
    pub fn new_with_name_creator(conduit_name: Vec<u8>, creator: [u8; 4]) -> (builder: Self)
        ensures
            builder@ == (BuilderView::<T, F, S, G> {
                name: conduit_name@,
                creator,
                create_if_not_exists: Seq::empty(),
                overwrite: Seq::empty(),
                to_remove: Seq::empty(),
                to_download: Seq::empty(),
                preferences: None,
            }),
    {
        let builder = ConduitBuilder {
            name: conduit_name,
            creator,
            create_if_not_exists: Vec::new(),
            overwrite: Vec::new(),
            to_remove: Vec::new(),
            to_download: Vec::new(),
            preferences: None,
        };
        assert(builder@.to_remove =~= Seq::empty());
        assert(builder@.to_download =~= Seq::empty());
        builder
    }

    /// Adds a database to remove from the handheld, if it is there.
    pub fn remove_db(self, to_remove: Vec<u8>) -> (builder: Self)
        ensures
            builder@ == self@.remove_db(to_remove@),
    {
        let mut builder = self;
        builder.to_remove.push(to_remove);
        assert(builder@.to_remove =~= self@.to_remove.push(to_remove@));
        builder
    }

    /// Adds a database whose records go to a sink, and which is then
    /// removed from the handheld.
    pub fn download_db_and(self, to_download: Vec<u8>, do_work: ConduitDBSink<S>) -> (builder: Self)
        ensures
            builder@ == self@.download_db_and(to_download@, do_work),
    {
        let mut builder = self;
        builder.to_download.push((to_download, do_work));
        assert(builder@.to_download =~= self@.to_download.push((to_download@, do_work)));
        builder
    }

    /// Adds a database to install in place of whatever bears its name.
    pub fn overwrite_db(self, source: ConduitDBSource<G>) -> (builder: Self)
        ensures
            builder@ == self@.overwrite_db(source),
    {
        let mut builder = self;
        builder.overwrite.push(source);
        builder
    }

    /// Adds a database to install unless the handheld has one of its name.
    pub fn create_db(self, source: ConduitDBSource<G>) -> (builder: Self)
        ensures
            builder@ == self@.create_db(source),
    {
        let mut builder = self;
        builder.create_if_not_exists.push(source);
        builder
    }

    /// Sets the preference of the conduit, in place of any set before.
    pub fn set_preferences(self, source: PreferenceType<T, F>) -> (builder: Self)
        ensures
            builder@ == self@.set_preferences(source),
    {
        let mut builder = self;
        builder.preferences = Some(source);
        builder
    }

    /// The paths of the files that the conduit is built from: those of the
    /// create-if-absent list, then those of the overwrite list, each in the
    /// order of its list.
    pub fn file_paths(&self) -> (paths: Vec<String>)
        ensures
            paths@.map_values(|path: String| path@) == file_paths(self@.create_if_not_exists)
                + file_paths(self@.overwrite),
            paths@.len() == file_count(self@.create_if_not_exists) + file_count(
                self@.overwrite,
            ),
    {
        let mut paths: Vec<String> = Vec::new();
        collect_paths(&self.create_if_not_exists, &mut paths);
        collect_paths(&self.overwrite, &mut paths);
        proof {
            let shown = |path: String| path@;
            assert(paths@.map_values(shown) =~= file_paths(self@.create_if_not_exists) + file_paths(
                self@.overwrite,
            ));
        }
        paths
    }

    /// Builds the conduit. `files` holds, for each path of
    /// [`ConduitBuilder::file_paths`] in turn, the content of the file, or
    /// why it could not be read or understood.
    ///
    /// Building fails if the creator holds a byte outside ASCII, and else
    /// with the error of the first file that could not be had. A generator
    /// is kept for the run.
    pub fn build(self, files: Vec<Result<DatabaseContent, ConduitError>>) -> (conduit: Result<
        Conduit<T, F, S, G>,
        ConduitError,
    >)
        requires
            files@.len() == file_count(self@.create_if_not_exists) + file_count(self@.overwrite),
        ensures
            conduit is Ok <==> spec_is_ascii(self@.creator) && first_failed_file(self@, files@)
                is None,
            conduit matches Ok(built_conduit) ==> built_conduit@ == built(self@, files@),
            conduit matches Err(error) ==> if !spec_is_ascii(self@.creator) {
                error is NonAsciiErr
            } else {
                &&& first_failed_file(self@, files@) matches Some(at)
                &&& at < files@.len()
                &&& files@[at as int] == Err::<DatabaseContent, ConduitError>(error)
            },
    {
        let ConduitBuilder {
            name,
            creator,
            create_if_not_exists,
            overwrite,
            to_remove,
            to_download,
            preferences,
        } = self;
        if !is_ascii(&creator) {
            return Err(ConduitError::NonAsciiErr);
        }
        let mut files = files;
        let mut generators: Vec<G> = Vec::new();
        let ghost files0 = files@;
        proof {
            lemma_resolve_uses_files(create_if_not_exists@, files0, 0);
        }
        let created = match resolve_sources(create_if_not_exists, &mut files, &mut generators) {
            Ok(planned) => planned,
            Err(error) => {
                return Err(error);
            },
        };
        let ghost first = resolve(create_if_not_exists@, files0, 0);
        let ghost files1 = files@;
        proof {
            lemma_resolve_uses_files(overwrite@, files1, first.generators.len());
            assert(generators@ =~= first.generators);
        }
        let overwritten = match resolve_sources(overwrite, &mut files, &mut generators) {
            Ok(planned) => planned,
            Err(error) => {
                return Err(error);
            },
        };
        let (kind, static_value, transform) = match preferences {
            Some(PreferenceType::Static(id, value)) => (
                Some(PreferenceKind::Static(id)),
                Some(value),
                None,
            ),
            Some(PreferenceType::Dynamic(id, transform)) => (
                Some(PreferenceKind::Dynamic(id)),
                None,
                Some(transform),
            ),
            None => (None, None, None),
        };
        let (names, sinks) = split_drains(to_download);
        let built_conduit = Conduit {
            plan: Plan {
                name,
                creator_id: uchars_to_u32(creator),
                preferences: kind,
                to_download: names,
                to_remove,
                create_if_not_exists: created,
                overwrite: overwritten,
            },
            hooks: Hooks { static_value, transform, sinks, generators },
        };
        proof {
            assert(built_conduit@.plan.to_download =~= built(self@, files0).plan.to_download);
            assert(built_conduit@.sinks =~= built(self@, files0).sinks);
        }
        Ok(built_conduit)
    }
}

/// Adds the paths of the files among some sources to a list.
fn collect_paths<G>(sources: &Vec<ConduitDBSource<G>>, paths: &mut Vec<String>)
    ensures
        final(paths)@.map_values(|path: String| path@) == old(paths)@.map_values(
            |path: String| path@,
        ) + file_paths(sources@),
        final(paths)@.len() == old(paths)@.len() + file_count(sources@),
{
    let ghost shown = |path: String| path@;
    let ghost paths0 = paths@;
    let mut at: usize = 0;
    proof {
        assert(sources@.take(0) =~= Seq::empty());
        assert(paths0.map_values(shown) + Seq::<Seq<char>>::empty() =~= paths0.map_values(shown));
    }
    while at < sources.len()
        invariant
            at <= sources.len(),
            paths0 == old(paths)@,
            shown == (|path: String| path@),
            paths@.map_values(shown) == paths0.map_values(shown) + file_paths(
                sources@.take(at as int),
            ),
            paths@.len() == paths0.len() + file_count(sources@.take(at as int)),
        decreases sources.len() - at,
    {
        proof {
            assert(sources@.take(at + 1).drop_last() =~= sources@.take(at as int));
            assert(sources@.take(at + 1).last() == sources@[at as int]);
        }
        match &sources[at] {
            ConduitDBSource::File(_, _, path) => {
                let ghost earlier = paths@;
                paths.push(path.clone());
                proof {
                    assert(paths@.map_values(shown) =~= earlier.map_values(shown).push(path@));
                    assert(paths0.map_values(shown) + file_paths(sources@.take(at as int)).push(
                        path@,
                    ) =~= (paths0.map_values(shown) + file_paths(sources@.take(at as int))).push(
                        path@,
                    ));
                }
            },
            _ => {},
        }
        at += 1;
    }
    proof {
        assert(sources@.take(at as int) =~= sources@);
    }
}

/// Parts the drains of a builder into their names and their sinks.
fn split_drains<S>(drains: Vec<(Vec<u8>, ConduitDBSink<S>)>) -> (parted: (
    Vec<Vec<u8>>,
    Vec<ConduitDBSink<S>>,
))
    ensures
        names_view(parted.0@) == drains_view(drains@).map_values(
            |drain: (Seq<u8>, ConduitDBSink<S>)| drain.0,
        ),
        parted.1@ == drains_view(drains@).map_values(
            |drain: (Seq<u8>, ConduitDBSink<S>)| drain.1,
        ),
{
    let ghost all = drains@;
    let mut rest = drains;
    let mut names: Vec<Vec<u8>> = Vec::new();
    let mut sinks: Vec<ConduitDBSink<S>> = Vec::new();
    let ghost mut done: int = 0;
    proof {
        assert(all.skip(0) =~= all);
    }
    while rest.len() > 0
        invariant
            0 <= done <= all.len(),
            all == drains@,
            rest@ == all.skip(done),
            names@.len() == done,
            sinks@.len() == done,
            forall|i: int| 0 <= i < done ==> names@[i]@ == all[i].0@,
            forall|i: int| 0 <= i < done ==> sinks@[i] == all[i].1,
        decreases rest.len(),
    {
        proof {
            assert(all.skip(done)[0] == all[done]);
            assert(all.skip(done).remove(0) =~= all.skip(done + 1));
        }
        let (name, sink) = rest.remove(0);
        names.push(name);
        sinks.push(sink);
        proof {
            done = done + 1;
        }
    }
    proof {
        assert(names_view(names@) =~= drains_view(all).map_values(
            |drain: (Seq<u8>, ConduitDBSink<S>)| drain.0,
        ));
        assert(sinks@ =~= drains_view(all).map_values(
            |drain: (Seq<u8>, ConduitDBSink<S>)| drain.1,
        ));
    }
    (names, sinks)
}

impl<T, F, S, G> Conduit<T, F, S, G> {
    /// The plan of the conduit.
    pub fn plan(&self) -> (plan: &Plan)
        ensures
            plan@ == self@.plan,
    {
        &self.plan
    }

    /// Starts a run of the conduit: the run, its first request, and the
    /// hooks that the driver of the run is to call when the run asks.
    pub fn begin_sync(self) -> (started: (SyncRun, Request, Hooks<T, F, S, G>))
        ensures
            (started.0@, started.1@) == crate::session::begin(self@.plan),
            crate::session::inv(started.0@),
            started.2.static_value == self@.static_value,
            started.2.transform == self@.transform,
            started.2.sinks@ == self@.sinks,
            started.2.generators@ == self@.generators,
    {
        let Conduit { plan, hooks } = self;
        let (run, request) = SyncRun::begin(plan);
        (run, request, hooks)
    }
}

} // verus!
