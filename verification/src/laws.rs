//! What holds of every run of a plan, whatever its driver answers.

use crate::database::{DatabaseView, RecordAttributes};
use crate::error::{ConduitError, SyncManagerError};
use crate::session::{
    accepts, after_close, after_removal, begin, clean_target, conclude, enter_create, enter_drain,
    enter_fill, enter_overwrite, enter_preclean, enter_preferences, enter_read, enter_remove, fail,
    fits, generated, in_body, install_ready, inv, next, preference_id, removal_name,
    removal_ready, removal_succeeded, truncated, start_install, start_removal, write_request, Attempt, Closing,
    Install, Purpose, Removal, RequestView, Response, RunView, Stage, Transformed,
};
use crate::syncmgr::{plan_fits, PlanView, PlannedView, PreferenceKind};
use crate::syncmgr_extern::{openDatabaseHandle, spec_wire_name, CDbCreateDB};
use vstd::prelude::*;

verus! {

/// The part of a run that a stage belongs to: 0 for the start, 1 for the
/// preferences, 2 for the drains, 3 for the removals, 4 for the clearing
/// of the overwrite targets, 5 for the create-if-absent directives, 6 for
/// the overwrites, 7 for the last line of the log, 8 for the
/// unregistration, 9 for the end.
pub open spec fn phase(stage: Stage) -> int {
    match stage {
        Stage::Loading | Stage::Registering | Stage::Announcing => 0,
        Stage::OpeningPreferences
        | Stage::Encoding
        | Stage::ReadingPreference { .. }
        | Stage::Transforming
        | Stage::ReportingUnreadable
        | Stage::WritingPreference
        | Stage::ClosingPreferences => 1,
        Stage::Opening { .. }
        | Stage::Counting { .. }
        | Stage::ReadingRecord { .. }
        | Stage::Sinking { .. } => 2,
        Stage::AnnouncingClose { closing, .. } | Stage::Closing { closing, .. } => match closing {
            Closing::Drained(_) => 2,
            Closing::Installed(install) => install_phase(install),
        },
        Stage::Removing { removal } | Stage::ReportingRemoval { removal, .. } => removal_phase(
            removal,
        ),
        Stage::Generating { purpose } => match purpose {
            Purpose::PreClean(_) => 4,
            Purpose::Create(_) => 5,
        },
        Stage::Creating { install }
        | Stage::AnnouncingCreated { install, .. }
        | Stage::AnnouncingResource { install, .. }
        | Stage::Writing { install, .. } => install_phase(install),
        Stage::Concluding => 7,
        Stage::Unregistering => 8,
        Stage::Finished => 9,
    }
}

/// The part of a run that a removal belongs to.
pub open spec fn removal_phase(removal: Removal) -> int {
    match removal {
        Removal::Drained(_) => 2,
        Removal::Explicit(_) => 3,
        Removal::PreClean(_) => 4,
    }
}

/// The part of a run that an installation belongs to.
pub open spec fn install_phase(install: Install) -> int {
    match install {
        Install::Create(_) => 5,
        Install::Overwrite(_) => 6,
    }
}

/// The place of a removal's directive in its list.
pub open spec fn removal_place(removal: Removal) -> int {
    match removal {
        Removal::Drained(at) => at as int,
        Removal::Explicit(at) => at as int,
        Removal::PreClean(at) => at as int,
    }
}

/// The place of an installation's directive in its list.
pub open spec fn install_place(install: Install) -> int {
    match install {
        Install::Create(at) => at as int,
        Install::Overwrite(at) => at as int,
    }
}

/// The place, in its list, of the directive that a stage works on; 0 for a
/// stage that works on none.
pub open spec fn place(stage: Stage) -> int {
    match stage {
        Stage::Opening { drain }
        | Stage::Counting { drain, .. }
        | Stage::ReadingRecord { drain, .. }
        | Stage::Sinking { drain, .. } => drain as int,
        Stage::AnnouncingClose { closing, .. } | Stage::Closing { closing, .. } => match closing {
            Closing::Drained(drain) => drain as int,
            Closing::Installed(install) => install_place(install),
        },
        Stage::Removing { removal } | Stage::ReportingRemoval { removal, .. } => removal_place(
            removal,
        ),
        Stage::Generating { purpose } => match purpose {
            Purpose::PreClean(at) => at as int,
            Purpose::Create(at) => at as int,
        },
        Stage::Creating { install }
        | Stage::AnnouncingCreated { install, .. }
        | Stage::AnnouncingResource { install, .. }
        | Stage::Writing { install, .. } => install_place(install),
        _ => 0,
    }
}

/// How far a run has come: the part of the run, the place of the
/// directive in its list, the step of the work on the directive, the
/// record or entry that the step is at, and the turn at it.
pub struct Progress {
    pub phase: int,
    pub place: int,
    pub step: int,
    pub item: int,
    pub turn: int,
}

/// The step of the work on a directive that a stage is: the steps of each
/// kind of directive are numbered in the order in which they follow each
/// other.
pub open spec fn work_step(stage: Stage) -> int {
    match stage {
        Stage::Loading => 0,
        Stage::Registering => 1,
        Stage::Announcing => 2,
        Stage::OpeningPreferences => 0,
        Stage::Encoding => 1,
        Stage::ReadingPreference { attempt: Attempt::First } => 1,
        Stage::ReadingPreference { attempt: Attempt::Second } => 2,
        Stage::Transforming => 3,
        Stage::ReportingUnreadable => 4,
        Stage::WritingPreference => 4,
        Stage::ClosingPreferences => 5,
        Stage::Opening { .. } => 0,
        Stage::Counting { .. } => 1,
        Stage::ReadingRecord { .. } => 2,
        Stage::Sinking { .. } => 3,
        Stage::AnnouncingClose { .. } => 4,
        Stage::Closing { .. } => 5,
        Stage::Removing { removal } => removal_step(removal),
        Stage::ReportingRemoval { removal, .. } => removal_step(removal) + 1,
        Stage::Generating { .. } => 0,
        Stage::Creating { .. } => 1,
        Stage::AnnouncingCreated { .. } => 2,
        Stage::AnnouncingResource { .. } | Stage::Writing { .. } => 3,
        Stage::Concluding | Stage::Unregistering | Stage::Finished => 0,
    }
}

/// The step at which a database is removed: after it was drained and
/// closed, at once where its removal was declared, and after it was
/// generated where it is the target of an overwrite.
pub open spec fn removal_step(removal: Removal) -> int {
    match removal {
        Removal::Drained(_) => 6,
        Removal::Explicit(_) => 0,
        Removal::PreClean(_) => 1,
    }
}

/// The progress of a run at a stage.
pub open spec fn progress(stage: Stage) -> Progress {
    Progress {
        phase: phase(stage),
        place: place(stage),
        step: work_step(stage),
        item: match stage {
            Stage::ReadingRecord { index, .. } => index as int,
            Stage::AnnouncingResource { entry, .. } | Stage::Writing { entry, .. } => entry as int,
            _ => 0,
        },
        turn: match stage {
            Stage::ReadingRecord { attempt: Attempt::Second, .. } => 1,
            Stage::Writing { .. } => 1,
            _ => 0,
        },
    }
}

/// Whether some progress is less than other progress: an earlier part of
/// the run, or in the same part an earlier directive, or at the same
/// directive an earlier step, or at the same step an earlier record or
/// entry, or at the same an earlier turn.
pub open spec fn less(one: Progress, other: Progress) -> bool {
    ||| one.phase < other.phase
    ||| one.phase == other.phase && one.place < other.place
    ||| one.phase == other.phase && one.place == other.place && one.step < other.step
    ||| one.phase == other.phase && one.place == other.place && one.step == other.step
        && one.item < other.item
    ||| one.phase == other.phase && one.place == other.place && one.step == other.step
        && one.item == other.item && one.turn < other.turn
}

/// Whether a stage has come as far as some progress.
pub open spec fn reaches(stage: Stage, floor: Progress) -> bool {
    !less(progress(stage), floor)
}

/// The progress at the start of a directive.
pub open spec fn start_of(part: int, at: int) -> Progress {
    Progress { phase: part, place: at, step: 0, item: 0, turn: 0 }
}

/// Whether a stage follows another in the order of a run: it stands in a
/// later part of the run, or in the same part at the same directive or at
/// a later one of the list.
pub open spec fn follows(later: Stage, earlier: Stage) -> bool {
    phase(later) > phase(earlier) || (phase(later) == phase(earlier) && place(later) >= place(
        earlier,
    ))
}

/// The source of the database that a generator is asked for.
pub open spec fn purpose_source(run: RunView, purpose: Purpose) -> PlannedView {
    match purpose {
        Purpose::PreClean(at) => run.plan.overwrite[at as int],
        Purpose::Create(at) => run.plan.create_if_not_exists[at as int],
    }
}

/// Whether a request is the one that a stage calls for: each stage has one
/// kind of request out, made for the directive that the stage works on.
pub open spec fn serves(run: RunView, request: RequestView) -> bool {
    match request {
        RequestView::LoadTransport => run.stage is Loading,
        RequestView::Register => run.stage is Registering,
        RequestView::Log(_) => {
            ||| run.stage is Announcing
            ||| run.stage is OpeningPreferences
            ||| run.stage is ReportingUnreadable
            ||| run.stage is ClosingPreferences
            ||| run.stage is AnnouncingClose
            ||| run.stage is ReportingRemoval
            ||| run.stage is AnnouncingCreated
            ||| run.stage is AnnouncingResource
            ||| run.stage is Concluding
        },
        RequestView::EncodeStatic => run.stage is Encoding,
        RequestView::ReadPreference(preference) => {
            &&& run.stage is ReadingPreference
            &&& preference.creator == run.plan.creator_id
            &&& preference.pref_id == preference_id(run.plan)
        },
        RequestView::Transform(_) => run.stage is Transforming,
        RequestView::WritePreference(preference) => {
            &&& run.stage is WritingPreference
            &&& preference.creator == run.plan.creator_id
            &&& preference.pref_id == preference_id(run.plan)
        },
        RequestView::OpenDb { wire_name, card, mode } => {
            &&& run.stage matches Stage::Opening { drain }
            &&& wire_name == spec_wire_name(run.plan.to_download[drain as int])
            &&& card == 0
        },
        RequestView::RecordCount(handle) => {
            run.stage matches Stage::Counting { handle: open, .. } && open == handle
        },
        RequestView::ReadRecordByIndex(record) => {
            &&& run.stage matches Stage::ReadingRecord { handle, index, .. }
            &&& record.handle == handle
            &&& record.rec_index == index % 0x1_0000
        },
        RequestView::Sink { index, .. } => {
            run.stage matches Stage::Sinking { drain, .. } && drain == index
        },
        RequestView::CloseDb(handle) => {
            run.stage matches Stage::Closing { handle: open, .. } && open == handle
        },
        RequestView::DeleteDb { name, card } => {
            &&& run.stage matches Stage::Removing { removal }
            &&& name == removal_name(run, removal)
            &&& card == 0
        },
        RequestView::Generate { slot } => {
            &&& run.stage matches Stage::Generating { purpose }
            &&& purpose_source(run, purpose) == PlannedView::Deferred(slot)
        },
        RequestView::CreateDb(database) => {
            &&& run.stage is Creating
            &&& database == CDbCreateDB::spec_new(
                run.installing.name,
                run.plan.creator_id,
                run.installing.type_code,
                false,
            )
        },
        RequestView::WriteRec(_) | RequestView::WriteResourceRec(_) => {
            &&& run.stage matches Stage::Writing { handle, entry, .. }
            &&& request == write_request(handle, run.installing.content[entry as int])
        },
        RequestView::Unregister(token) => run.stage is Unregistering && token == run.token,
        RequestView::Done(_) => run.stage is Finished,
    }
}

/// Whether the targets that are cleared are those of the plan: each one
/// that stood ready in the plan is the database of its directive.
pub open spec fn targets_kept(run: RunView) -> bool {
    forall|at: int|
        0 <= at < run.targets.len() && at < run.plan.overwrite.len() ==> (
        #[trigger] run.plan.overwrite[at] matches PlannedView::Ready(database)
            ==> run.targets[at] == database)
}

/// Whether a database is the one that an installation installs: for a
/// create-if-absent directive the database of the directive, where it
/// stood ready in the plan, and for an overwrite the target that was
/// cleared for it.
pub open spec fn installs(run: RunView, install: Install, database: DatabaseView) -> bool {
    match install {
        Install::Create(at) => run.plan.create_if_not_exists[at as int] matches PlannedView::Ready(
            planned,
        ) ==> database == planned,
        Install::Overwrite(at) => database == run.targets[at as int],
    }
}

/// Whether a run keeps to its plan: the targets that are cleared are those
/// of the plan, and the database that is being installed is the one of
/// the directive that the stage works on.
pub open spec fn faithful(run: RunView) -> bool {
    &&& targets_kept(run)
    &&& match run.stage {
        Stage::Creating { install }
        | Stage::AnnouncingCreated { install, .. }
        | Stage::AnnouncingResource { install, .. }
        | Stage::Writing { install, .. }
        | Stage::AnnouncingClose { closing: Closing::Installed(install), .. }
        | Stage::Closing { closing: Closing::Installed(install), .. } => installs(
            run,
            install,
            run.installing,
        ),
        Stage::Generating { purpose } => purpose_source(run, purpose) is Deferred,
        _ => true,
    }
}

/// What a step within the body of a run comes to: a run that is well
/// formed and keeps to its plan, of the same plan and registration, with
/// a request out that its stage calls for, which has come as far as some
/// progress.
pub open spec fn lands(run: RunView, stepped: (RunView, RequestView), floor: Progress) -> bool {
    &&& inv(stepped.0)
    &&& faithful(stepped.0)
    &&& stepped.0.plan == run.plan
    &&& stepped.0.registered == run.registered
    &&& stepped.0.token == run.token
    &&& serves(stepped.0, stepped.1)
    &&& reaches(stepped.0.stage, floor)
    &&& phase(stepped.0.stage) <= 7
    &&& !(stepped.0.stage is WritingPreference)
}

pub(crate) proof fn lemma_fail(run: RunView, error: ConduitError)
    requires
        fits(run.plan, run.installing, run.targets),
        targets_kept(run),
        run.registered,
    ensures
        lands(run, fail(run, error), start_of(7, 0)),
{
}

pub(crate) proof fn lemma_conclude(run: RunView)
    requires
        fits(run.plan, run.installing, run.targets),
        targets_kept(run),
        run.registered,
    ensures
        lands(run, conclude(run), start_of(7, 0)),
{
}

pub(crate) proof fn lemma_start_install(run: RunView, install: Install, database: DatabaseView)
    requires
        fits(run.plan, run.installing, run.targets),
        targets_kept(run),
        in_body(run),
        install_ready(run, install),
        installs(run, install, database),
        database.content.len() <= usize::MAX,
    ensures
        lands(
            run,
            start_install(run, install, database),
            Progress { step: 1, ..start_of(install_phase(install), install_place(install)) },
        ),
{
    reveal(fits);
}

pub(crate) proof fn lemma_start_removal(run: RunView, removal: Removal)
    requires
        fits(run.plan, run.installing, run.targets),
        targets_kept(run),
        in_body(run),
        removal_ready(run, removal),
    ensures
        lands(
            run,
            start_removal(run, removal, removal_name(run, removal)),
            Progress {
                step: removal_step(removal),
                ..start_of(removal_phase(removal), removal_place(removal))
            },
        ),
{
}

pub(crate) proof fn lemma_clean_target(run: RunView, at: usize, database: DatabaseView)
    requires
        fits(run.plan, run.installing, run.targets),
        targets_kept(run),
        in_body(run),
        at < run.plan.overwrite.len(),
        run.targets.len() == at,
        run.plan.overwrite[at as int] matches PlannedView::Ready(planned) ==> database == planned,
        database.content.len() <= usize::MAX,
    ensures
        lands(run, clean_target(run, at, database), Progress { step: 1, ..start_of(4, at as int) }),
{
    reveal(fits);
    let cleaned = clean_target(run, at, database).0;
    assert forall|i: int| 0 <= i < cleaned.targets.len() implies (
    #[trigger] cleaned.targets[i]).content.len() <= usize::MAX by {
        if i < run.targets.len() {
            assert(cleaned.targets[i] == run.targets[i]);
        }
    }
}

pub(crate) proof fn lemma_enter_overwrite(run: RunView, at: int)
    requires
        fits(run.plan, run.installing, run.targets),
        targets_kept(run),
        in_body(run),
        run.targets.len() == run.plan.overwrite.len(),
        0 <= at,
    ensures
        lands(run, enter_overwrite(run, at), start_of(6, at)),
{
    reveal(fits);
    if at < run.plan.overwrite.len() {
        lemma_start_install(run, Install::Overwrite(at as usize), run.targets[at]);
    } else {
        lemma_conclude(run);
    }
}

pub(crate) proof fn lemma_enter_create(run: RunView, at: int)
    requires
        fits(run.plan, run.installing, run.targets),
        targets_kept(run),
        in_body(run),
        run.targets.len() == run.plan.overwrite.len(),
        0 <= at,
    ensures
        lands(run, enter_create(run, at), start_of(5, at)),
{
    reveal(fits);
    if at < run.plan.create_if_not_exists.len() {
        match run.plan.create_if_not_exists[at] {
            PlannedView::Ready(database) => {
                lemma_start_install(run, Install::Create(at as usize), database);
            },
            PlannedView::Deferred(_) => {},
        }
    } else {
        lemma_enter_overwrite(run, 0);
    }
}

pub(crate) proof fn lemma_enter_preclean(run: RunView, at: int)
    requires
        fits(run.plan, run.installing, run.targets),
        targets_kept(run),
        in_body(run),
        0 <= at,
        at < run.plan.overwrite.len() ==> run.targets.len() == at,
        at >= run.plan.overwrite.len() ==> run.targets.len() == run.plan.overwrite.len(),
    ensures
        lands(run, enter_preclean(run, at), start_of(4, at)),
{
    reveal(fits);
    if at < run.plan.overwrite.len() {
        match run.plan.overwrite[at] {
            PlannedView::Ready(database) => {
                lemma_clean_target(run, at as usize, database);
            },
            PlannedView::Deferred(_) => {},
        }
    } else {
        lemma_enter_create(run, 0);
    }
}

pub(crate) proof fn lemma_enter_remove(run: RunView, at: int)
    requires
        fits(run.plan, run.installing, run.targets),
        targets_kept(run),
        in_body(run),
        run.targets.len() == 0,
        0 <= at,
    ensures
        lands(run, enter_remove(run, at), start_of(3, at)),
{
    reveal(fits);
    if at < run.plan.to_remove.len() {
        lemma_start_removal(run, Removal::Explicit(at as usize));
    } else {
        lemma_enter_preclean(run, 0);
    }
}

pub(crate) proof fn lemma_enter_drain(run: RunView, at: int)
    requires
        fits(run.plan, run.installing, run.targets),
        targets_kept(run),
        in_body(run),
        run.targets.len() == 0,
        0 <= at,
    ensures
        lands(run, enter_drain(run, at), start_of(2, at)),
{
    reveal(fits);
    if at < run.plan.to_download.len() {
    } else {
        lemma_enter_remove(run, 0);
    }
}

pub(crate) proof fn lemma_enter_preferences(run: RunView)
    requires
        fits(run.plan, run.installing, run.targets),
        targets_kept(run),
        in_body(run),
        run.targets.len() == 0,
    ensures
        lands(run, enter_preferences(run), start_of(1, 0)),
{
    if run.plan.preferences is None {
        lemma_enter_drain(run, 0);
    }
}

pub(crate) proof fn lemma_enter_read(
    run: RunView,
    drain: usize,
    handle: openDatabaseHandle,
    count: u32,
    index: int,
)
    requires
        fits(run.plan, run.installing, run.targets),
        targets_kept(run),
        in_body(run),
        run.targets.len() == 0,
        drain < run.plan.to_download.len(),
        0 <= index <= count,
    ensures
        lands(
            run,
            enter_read(run, drain, handle, count, index),
            Progress { step: 2, item: index, ..start_of(2, drain as int) },
        ),
{
}

pub(crate) proof fn lemma_enter_fill(run: RunView, install: Install, handle: openDatabaseHandle, at: int)
    requires
        fits(run.plan, run.installing, run.targets),
        targets_kept(run),
        in_body(run),
        install_ready(run, install),
        installs(run, install, run.installing),
        0 <= at,
    ensures
        lands(
            run,
            enter_fill(run, install, handle, at),
            Progress {
                step: 3,
                item: at,
                ..start_of(install_phase(install), install_place(install))
            },
        ),
{
    reveal(fits);
}

pub(crate) proof fn lemma_after_close(run: RunView, closing: Closing)
    requires
        inv(run),
        faithful(run),
        run.stage matches Stage::Closing { closing: pending, .. } && pending == closing,
    ensures
        lands(
            run,
            after_close(run, closing),
            Progress { step: 6, ..start_of(phase(run.stage), place(run.stage)) },
        ),
{
    match closing {
        Closing::Drained(drain) => {
            lemma_start_removal(run, Removal::Drained(drain));
        },
        Closing::Installed(Install::Create(at)) => {
            lemma_enter_create(run, at + 1);
        },
        Closing::Installed(Install::Overwrite(at)) => {
            lemma_enter_overwrite(run, at + 1);
        },
    }
}

pub(crate) proof fn lemma_after_removal(run: RunView, removal: Removal)
    requires
        inv(run),
        faithful(run),
        run.stage matches Stage::ReportingRemoval { removal: reported, .. } && reported == removal,
    ensures
        lands(run, after_removal(run, removal), start_of(phase(run.stage), place(run.stage) + 1)),
{
    match removal {
        Removal::Drained(drain) => {
            lemma_enter_drain(run, drain + 1);
        },
        Removal::Explicit(at) => {
            lemma_enter_remove(run, at + 1);
        },
        Removal::PreClean(at) => {
            lemma_enter_preclean(run, at + 1);
        },
    }
}

/// What a step of a run comes to: a run that is well formed, of the same
/// plan, with a request out that its stage calls for, which has made
/// progress; registered as before, unless the step is the registration
/// itself.
pub open spec fn advances(run: RunView, stepped: (RunView, RequestView)) -> bool {
    &&& inv(stepped.0)
    &&& faithful(stepped.0)
    &&& stepped.0.plan == run.plan
    &&& serves(stepped.0, stepped.1)
    &&& less(progress(run.stage), progress(stepped.0.stage))
    &&& !(run.stage is Registering) ==> stepped.0.registered == run.registered && stepped.0.token
        == run.token
    &&& stepped.0.stage is Unregistering <==> run.stage is Concluding
    &&& stepped.0.stage is Finished ==> run.stage is Unregistering || !stepped.0.registered
    &&& stepped.0.stage is WritingPreference ==> run.stage is Encoding || run.stage is Transforming
}

proof fn lemma_step_at_start(run: RunView, response: Response)
    requires
        inv(run),
        faithful(run),
        accepts(run.stage, response),
        phase(run.stage) == 0,
    ensures
        advances(run, next(run, response)),
{
    match (run.stage, response) {
        (Stage::Announcing, Response::Status(code)) => {
            if code.spec_is_ok() {
                lemma_enter_preferences(run);
            } else {
                lemma_fail(run, ConduitError::Sync(code));
            }
        },
        _ => {},
    }
}

proof fn lemma_step_in_preferences(run: RunView, response: Response)
    requires
        inv(run),
        faithful(run),
        accepts(run.stage, response),
        phase(run.stage) == 1,
    ensures
        advances(run, next(run, response)),
{
    match (run.stage, response) {
        (Stage::OpeningPreferences, Response::Status(code)) => {
            lemma_fail(run, ConduitError::Sync(code));
        },
        (Stage::Encoding, Response::Encoded(_)) => {
            lemma_fail(run, ConduitError::PreferenceSerde);
        },
        (Stage::ReadingPreference { .. }, Response::PreferenceRead { code, .. }) => {
            lemma_fail(run, ConduitError::Sync(code));
        },
        (Stage::Transforming, Response::Transformed(_)) => {
            lemma_fail(run, ConduitError::PreferenceSerde);
        },
        (Stage::ReportingUnreadable, Response::Status(_)) => {
            lemma_fail(run, ConduitError::PreferenceSerde);
        },
        (Stage::WritingPreference, Response::Status(code)) => {
            lemma_fail(run, ConduitError::Sync(code));
        },
        (Stage::ClosingPreferences, Response::Status(code)) => {
            lemma_fail(run, ConduitError::Sync(code));
            lemma_enter_drain(run, 0);
        },
        _ => {},
    }
}

proof fn lemma_step_in_drain(run: RunView, response: Response)
    requires
        inv(run),
        faithful(run),
        accepts(run.stage, response),
        run.stage is Opening || run.stage is Counting || run.stage is ReadingRecord
            || run.stage is Sinking,
    ensures
        advances(run, next(run, response)),
{
    match (run.stage, response) {
        (Stage::Opening { drain }, Response::Opened { code, .. }) => {
            lemma_enter_drain(run, drain + 1);
        },
        (Stage::Counting { drain, handle }, Response::Counted { code, count }) => {
            lemma_fail(run, ConduitError::Sync(code));
            lemma_enter_read(RunView { collected: Seq::empty(), ..run }, drain, handle, count, 0);
        },
        (
            Stage::ReadingRecord { drain, handle, count, index, .. },
            Response::RecordRead { code, .. },
        ) => {
            lemma_fail(run, ConduitError::Sync(code));
            let kept = next(run, response).0;
            lemma_enter_read(
                RunView { collected: kept.collected, ..run },
                drain,
                handle,
                count,
                index + 1,
            );
        },
        (Stage::Sinking { .. }, Response::Sunk(result)) => {
            match result {
                Ok(_) => {},
                Err(message) => {
                    lemma_fail(run, ConduitError::Sink(message));
                },
            }
        },
        _ => {},
    }
}

proof fn lemma_step_in_close(run: RunView, response: Response)
    requires
        inv(run),
        faithful(run),
        accepts(run.stage, response),
        run.stage is AnnouncingClose || run.stage is Closing,
    ensures
        advances(run, next(run, response)),
{
    match (run.stage, response) {
        (Stage::AnnouncingClose { .. }, Response::Status(code)) => {
            lemma_fail(run, ConduitError::Sync(code));
        },
        (Stage::Closing { closing, .. }, Response::Status(code)) => {
            lemma_fail(run, ConduitError::Sync(code));
            lemma_after_close(run, closing);
        },
        _ => {},
    }
}

proof fn lemma_step_in_removal(run: RunView, response: Response)
    requires
        inv(run),
        faithful(run),
        accepts(run.stage, response),
        run.stage is Removing || run.stage is ReportingRemoval,
    ensures
        advances(run, next(run, response)),
{
    match (run.stage, response) {
        (Stage::Removing { .. }, Response::Status(_)) => {},
        (Stage::ReportingRemoval { removal, code }, Response::Status(logged)) => {
            lemma_fail(run, ConduitError::Sync(logged));
            lemma_fail(run, ConduitError::Sync(code));
            lemma_after_removal(run, removal);
        },
        _ => {},
    }
}

proof fn lemma_step_in_install(run: RunView, response: Response)
    requires
        inv(run),
        faithful(run),
        accepts(run.stage, response),
        run.stage is Generating || run.stage is Creating || run.stage is AnnouncingCreated
            || run.stage is AnnouncingResource || run.stage is Writing,
    ensures
        advances(run, next(run, response)),
{
    match (run.stage, response) {
        (Stage::Generating { purpose }, Response::Generated { name, type_code, content }) => {
            assert(content@.len() == content.entries.len());
            let database = generated(name@, type_code, content@);
            match purpose {
                Purpose::PreClean(at) => {
                    lemma_clean_target(run, at, database);
                },
                Purpose::Create(at) => {
                    lemma_start_install(run, Install::Create(at), database);
                },
            }
        },
        (Stage::Creating { install }, Response::Created { code, .. }) => {
            lemma_fail(run, ConduitError::Sync(code));
            match install {
                Install::Create(at) => {
                    lemma_enter_create(run, at + 1);
                },
                _ => {},
            }
        },
        (Stage::AnnouncingCreated { install, handle }, Response::Status(code)) => {
            lemma_fail(run, ConduitError::Sync(code));
            lemma_enter_fill(run, install, handle, 0);
        },
        (Stage::AnnouncingResource { .. }, Response::Status(code)) => {
            lemma_fail(run, ConduitError::Sync(code));
        },
        (Stage::Writing { install, handle, entry }, Response::Status(code)) => {
            lemma_fail(run, ConduitError::Sync(code));
            lemma_enter_fill(run, install, handle, entry + 1);
        },
        _ => {},
    }
}

proof fn lemma_step_at_end(run: RunView, response: Response)
    requires
        inv(run),
        faithful(run),
        accepts(run.stage, response),
        run.stage is Concluding || run.stage is Unregistering,
    ensures
        advances(run, next(run, response)),
{
    reveal(fits);
}

/// Every step advances the run: it stays well formed, keeps its plan,
/// makes the request that its new stage calls for, and never goes back in
/// the order of the run.
pub proof fn lemma_step_advances(run: RunView, response: Response)
    requires
        inv(run),
        faithful(run),
        accepts(run.stage, response),
    ensures
        advances(run, next(run, response)),
{
    match run.stage {
        Stage::Loading | Stage::Registering | Stage::Announcing => {
            lemma_step_at_start(run, response);
        },
        Stage::OpeningPreferences
        | Stage::Encoding
        | Stage::ReadingPreference { .. }
        | Stage::Transforming
        | Stage::ReportingUnreadable
        | Stage::WritingPreference
        | Stage::ClosingPreferences => {
            lemma_step_in_preferences(run, response);
        },
        Stage::Opening { .. }
        | Stage::Counting { .. }
        | Stage::ReadingRecord { .. }
        | Stage::Sinking { .. } => {
            lemma_step_in_drain(run, response);
        },
        Stage::AnnouncingClose { .. } | Stage::Closing { .. } => {
            lemma_step_in_close(run, response);
        },
        Stage::Removing { .. } | Stage::ReportingRemoval { .. } => {
            lemma_step_in_removal(run, response);
        },
        Stage::Generating { .. }
        | Stage::Creating { .. }
        | Stage::AnnouncingCreated { .. }
        | Stage::AnnouncingResource { .. }
        | Stage::Writing { .. } => {
            lemma_step_in_install(run, response);
        },
        Stage::Concluding | Stage::Unregistering => {
            lemma_step_at_end(run, response);
        },
        Stage::Finished => {},
    }
}

/// A run begins well formed, with the request to load the transport.
pub proof fn lemma_begin_is_well_formed(plan: PlanView)
    requires
        plan_fits(plan),
    ensures
        inv(begin(plan).0),
        faithful(begin(plan).0),
        begin(plan).0.plan == plan,
        serves(begin(plan).0, begin(plan).1),
{
    reveal(fits);
}

/// The run after a series of responses.
pub open spec fn after(run: RunView, responses: Seq<Response>) -> RunView
    decreases responses.len(),
{
    if responses.len() == 0 {
        run
    } else {
        next(after(run, responses.drop_last()), responses.last()).0
    }
}

/// The requests that a run makes in answer to a series of responses, one
/// for each response.
pub open spec fn requests(run: RunView, responses: Seq<Response>) -> Seq<RequestView>
    decreases responses.len(),
{
    if responses.len() == 0 {
        Seq::empty()
    } else {
        requests(run, responses.drop_last()).push(
            next(after(run, responses.drop_last()), responses.last()).1,
        )
    }
}

/// Whether each of a series of responses answers the request that is out
/// when it comes.
pub open spec fn answered(run: RunView, responses: Seq<Response>) -> bool
    decreases responses.len(),
{
    responses.len() == 0 || (answered(run, responses.drop_last()) && accepts(
        after(run, responses.drop_last()).stage,
        responses.last(),
    ))
}

/// A series of responses that is answered is answered up to any point, and
/// the run and its requests up to that point are those of the shorter
/// series.
pub proof fn lemma_prefix(run: RunView, responses: Seq<Response>, len: int)
    requires
        0 <= len <= responses.len(),
    ensures
        answered(run, responses) ==> answered(run, responses.take(len)),
        requests(run, responses.take(len)) == requests(run, responses).take(len),
        requests(run, responses).len() == responses.len(),
    decreases responses.len(),
{
    if len == responses.len() {
        assert(responses.take(len) =~= responses);
        if responses.len() > 0 {
            lemma_prefix(run, responses.drop_last(), len - 1);
        }
        assert(requests(run, responses).take(len) =~= requests(run, responses));
    } else {
        lemma_prefix(run, responses.drop_last(), len);
        assert(responses.drop_last().take(len) =~= responses.take(len));
        assert(requests(run, responses).take(len) =~= requests(run, responses.drop_last()).take(
            len,
        ));
    }
}

/// A run stays well formed and keeps its plan, whatever it is answered;
/// and after every response it has the request out that its stage calls
/// for.
pub proof fn lemma_run_stays_well_formed(run: RunView, responses: Seq<Response>)
    requires
        inv(run),
        faithful(run),
        answered(run, responses),
    ensures
        inv(after(run, responses)),
        faithful(after(run, responses)),
        after(run, responses).plan == run.plan,
        responses.len() > 0 ==> serves(after(run, responses), requests(run, responses).last()),
    decreases responses.len(),
{
    if responses.len() > 0 {
        lemma_run_stays_well_formed(run, responses.drop_last());
        lemma_step_advances(after(run, responses.drop_last()), responses.last());
    }
}

/// The order of a run. Whatever a run is answered, every step takes it
/// further: of two points of a run, the later stands in a later part of
/// the run than the earlier, or in the same part at a later directive of
/// the list, or at the same directive at a later step of the work on it.
/// So the preferences come before the drains, the drains before the
/// removals, the removals before the clearing of the overwrite targets,
/// that before the create-if-absent directives, and those before the
/// overwrites; the directives of each kind are served in the order in
/// which they were declared; and no run comes to the same stage twice.
pub proof fn lemma_order(run: RunView, responses: Seq<Response>, earlier: int, later: int)
    requires
        inv(run),
        faithful(run),
        answered(run, responses),
        0 <= earlier < later <= responses.len(),
    ensures
        less(
            progress(after(run, responses.take(earlier)).stage),
            progress(after(run, responses.take(later)).stage),
        ),
        follows(
            after(run, responses.take(later)).stage,
            after(run, responses.take(earlier)).stage,
        ),
        after(run, responses.take(later)).stage != after(run, responses.take(earlier)).stage,
    decreases later - earlier,
{
    lemma_prefix(run, responses, later);
    lemma_prefix(run, responses, later - 1);
    let before = responses.take(later - 1);
    assert(responses.take(later).drop_last() =~= before);
    assert(responses.take(later).last() == responses[later - 1]);
    lemma_run_stays_well_formed(run, before);
    lemma_step_advances(after(run, before), responses[later - 1]);
    if earlier < later - 1 {
        lemma_order(run, responses, earlier, later - 1);
    } else {
        assert(responses.take(earlier) =~= before);
    }
}

/// No directive is generated for twice: two requests of a run to
/// generate a database are made for two directives of the plan, each of
/// which the plan defers to the generator that its request names.
pub proof fn lemma_generated_once(run: RunView, responses: Seq<Response>, earlier: int, later: int)
    requires
        inv(run),
        faithful(run),
        answered(run, responses),
        0 <= earlier < later < responses.len(),
        requests(run, responses)[earlier] is Generate,
        requests(run, responses)[later] is Generate,
    ensures
        ({
            let one = after(run, responses.take(earlier + 1)).stage;
            let other = after(run, responses.take(later + 1)).stage;
            &&& one matches Stage::Generating { purpose: first }
            &&& other matches Stage::Generating { purpose: second }
            &&& first != second
            &&& purpose_source(run, first) == PlannedView::Deferred(
                requests(run, responses)[earlier]->slot,
            )
            &&& purpose_source(run, second) == PlannedView::Deferred(
                requests(run, responses)[later]->slot,
            )
        }),
{
    lemma_prefix(run, responses, earlier + 1);
    lemma_prefix(run, responses, later + 1);
    lemma_run_stays_well_formed(run, responses.take(earlier + 1));
    lemma_run_stays_well_formed(run, responses.take(later + 1));
    assert(requests(run, responses)[earlier] == requests(run, responses.take(earlier + 1)).last());
    assert(requests(run, responses)[later] == requests(run, responses.take(later + 1)).last());
    lemma_order(run, responses, earlier + 1, later + 1);
}

/// How many of some requests are requests to unregister.
pub open spec fn unregistrations(requests: Seq<RequestView>) -> nat
    decreases requests.len(),
{
    if requests.len() == 0 {
        0
    } else {
        unregistrations(requests.drop_last()) + if requests.last() is Unregister {
            1nat
        } else {
            0nat
        }
    }
}

/// How often a run has asked to unregister, by where it stands: never
/// before it winds up, once from then on if it was registered.
proof fn lemma_unregistrations(plan: PlanView, responses: Seq<Response>)
    requires
        plan_fits(plan),
        answered(begin(plan).0, responses),
    ensures
        inv(after(begin(plan).0, responses)),
        unregistrations(requests(begin(plan).0, responses)) == if phase(
            after(begin(plan).0, responses).stage,
        ) >= 8 && after(begin(plan).0, responses).registered {
            1nat
        } else {
            0nat
        },
    decreases responses.len(),
{
    lemma_begin_is_well_formed(plan);
    let start = begin(plan).0;
    lemma_run_stays_well_formed(start, responses);
    if responses.len() > 0 {
        let before = after(start, responses.drop_last());
        lemma_unregistrations(plan, responses.drop_last());
        lemma_run_stays_well_formed(start, responses.drop_last());
        lemma_step_advances(before, responses.last());
        assert(requests(start, responses).drop_last() =~= requests(start, responses.drop_last()));
    }
}

/// The teardown of a run. A run that has ended has asked to unregister
/// exactly once if it was registered, and never if it was not; the
/// request came as the last but one, with the token of the registration;
/// and the run ended with the failure of its body, or, where the body did
/// not fail, with what the unregistration returned.
pub proof fn lemma_teardown(plan: PlanView, responses: Seq<Response>)
    requires
        plan_fits(plan),
        answered(begin(plan).0, responses),
        after(begin(plan).0, responses).stage is Finished,
    ensures
        responses.len() >= 1,
        unregistrations(requests(begin(plan).0, responses)) == if after(
            begin(plan).0,
            responses,
        ).registered {
            1nat
        } else {
            0nat
        },
        after(begin(plan).0, responses).registered ==> {
            &&& responses.len() >= 2
            &&& requests(begin(plan).0, responses)[responses.len() - 2] == RequestView::Unregister(
                after(begin(plan).0, responses).token,
            )
            &&& responses.last() matches Response::Status(code)
            &&& requests(begin(plan).0, responses).last() == RequestView::Done(
                crate::session::outcome(
                    after(begin(plan).0, responses.drop_last()).failure,
                    code,
                ),
            )
        },
{
    let start = begin(plan).0;
    lemma_begin_is_well_formed(plan);
    lemma_unregistrations(plan, responses);
    let before = after(start, responses.drop_last());
    lemma_run_stays_well_formed(start, responses.drop_last());
    lemma_step_advances(before, responses.last());
    if after(start, responses).registered {
        assert(before.stage is Unregistering);
        let earlier = responses.drop_last();
        assert(earlier.len() >= 1);
        assert(answered(start, earlier));
        assert(answered(start, earlier.drop_last()));
        lemma_run_stays_well_formed(start, earlier.drop_last());
        lemma_step_advances(after(start, earlier.drop_last()), earlier.last());
        lemma_prefix(start, responses, responses.len() - 1);
        assert(responses.take(responses.len() - 1) =~= earlier);
    }
}

/// A preference is written only on demand: for a fixed value, when its
/// bytes have come, and for a transform, when it has given a new value;
/// and what is written is those bytes, under the creator and the id of the
/// plan.
pub proof fn lemma_preference_written_on_demand(run: RunView, response: Response)
    requires
        inv(run),
        faithful(run),
        accepts(run.stage, response),
    ensures
        next(run, response).1 matches RequestView::WritePreference(written) ==> {
            &&& written.creator == run.plan.creator_id
            &&& written.pref_id == preference_id(run.plan)
            &&& written.backed_up == 1
            &&& {
                ||| {
                    &&& run.plan.preferences matches Some(PreferenceKind::Static(_))
                    &&& response matches Response::Encoded(Some(bytes))
                    &&& written.bytes == bytes@
                }
                ||| {
                    &&& run.plan.preferences matches Some(PreferenceKind::Dynamic(_))
                    &&& response matches Response::Transformed(Transformed::Replace(bytes))
                    &&& written.bytes == bytes@
                }
            }
        },
{
    lemma_step_advances(run, response);
}

/// A transform that gives no new value writes nothing: in a run of a plan
/// with a dynamic preference, in which no answer of the transform is a new
/// value, no request is a write of the preference.
pub proof fn lemma_no_new_value_no_write(plan: PlanView, responses: Seq<Response>, at: int)
    requires
        plan_fits(plan),
        plan.preferences matches Some(PreferenceKind::Dynamic(_)),
        answered(begin(plan).0, responses),
        forall|i: int|
            0 <= i < responses.len() ==> !(#[trigger] responses[i] matches Response::Transformed(
                Transformed::Replace(_),
            )),
        0 <= at < responses.len(),
    ensures
        !(requests(begin(plan).0, responses)[at] is WritePreference),
{
    let start = begin(plan).0;
    lemma_begin_is_well_formed(plan);
    lemma_prefix(start, responses, at + 1);
    lemma_prefix(start, responses, at);
    let upto = responses.take(at + 1);
    assert(upto.drop_last() =~= responses.take(at));
    assert(upto.last() == responses[at]);
    lemma_run_stays_well_formed(start, responses.take(at));
    lemma_preference_written_on_demand(after(start, responses.take(at)), responses[at]);
    assert(requests(start, responses)[at] == requests(start, upto).last());
}

/// A preference that the handheld does not have reads as none: where the
/// read reports that nothing was found, the transform is asked with no
/// value, and nothing fails.
pub proof fn lemma_absent_preference_is_none(run: RunView, response: Response)
    requires
        run.stage is ReadingPreference,
        response matches Response::PreferenceRead {
            code: SyncManagerError::SYNCERR_NOT_FOUND,
            ..
        },
    ensures
        next(run, response) == (
            RunView { stage: Stage::Transforming, ..run },
            RequestView::Transform(None),
        ),
{
}

/// A read of a preference is tried twice at most. The first read is
/// followed by a second exactly if it reports that the buffer was too
/// small, and the second has a buffer of the size that the first
/// reported; whatever the second reports, no third follows.
pub proof fn lemma_preference_read_twice_at_most(run: RunView, response: Response)
    requires
        inv(run),
        run.stage matches Stage::ReadingPreference { .. },
        response is PreferenceRead,
    ensures
        ({
            let retried = next(run, response).0.stage is ReadingPreference;
            &&& retried <==> {
                &&& run.stage matches Stage::ReadingPreference { attempt: Attempt::First }
                &&& response matches Response::PreferenceRead {
                    code: SyncManagerError::SYNCERR_LOCAL_BUFF_TOO_SMALL,
                    ..
                }
            }
            &&& retried ==> {
                &&& next(run, response).0.stage == (Stage::ReadingPreference {
                    attempt: Attempt::Second,
                })
                &&& next(run, response).1 matches RequestView::ReadPreference(again)
                &&& response matches Response::PreferenceRead { preference, .. }
                &&& again.bytes.len() == preference.m_actSize
            }
            &&& next(run, response).1 is ReadPreference <==> retried
        }),
{
    lemma_step_advances(run, response);
}

/// A read of a record is tried twice at most. The first read is followed
/// by a second of the same record exactly if it reports that the buffer
/// was too small, and the second has a buffer of the size that the first
/// reported; whatever the second reports, the next read, if there is one,
/// is the first read of the next record.
pub proof fn lemma_record_read_twice_at_most(run: RunView, response: Response)
    requires
        inv(run),
        run.stage matches Stage::ReadingRecord { .. },
        response is RecordRead,
    ensures
        ({
            let retried = next(run, response).0.stage matches Stage::ReadingRecord {
                attempt: Attempt::Second,
                ..
            };
            &&& retried <==> {
                &&& run.stage matches Stage::ReadingRecord { attempt: Attempt::First, .. }
                &&& response matches Response::RecordRead {
                    code: SyncManagerError::SYNCERR_LOCAL_BUFF_TOO_SMALL,
                    ..
                }
            }
            &&& retried ==> {
                &&& run.stage matches Stage::ReadingRecord { drain, index, .. }
                &&& next(run, response).0.stage matches Stage::ReadingRecord {
                    drain: same_drain,
                    index: same_index,
                    ..
                }
                &&& same_drain == drain
                &&& same_index == index
                &&& next(run, response).1 matches RequestView::ReadRecordByIndex(again)
                &&& response matches Response::RecordRead { record, .. }
                &&& again.bytes.len() == record.m_RecSize
            }
            &&& !retried ==> {
                &&& run.stage matches Stage::ReadingRecord { drain, index, .. }
                &&& next(run, response).0.stage matches Stage::ReadingRecord {
                    drain: same_drain,
                    index: next_index,
                    ..
                } ==> same_drain == drain && next_index == index + 1
            }
        }),
{
    lemma_step_advances(run, response);
}

/// A removal that failed ends the run with its own code: whatever becomes
/// of the line that reports it, what the run keeps as its failure is the
/// code of the removal, and not that of the log.
pub proof fn lemma_failed_removal_stands(run: RunView, logged: SyncManagerError)
    requires
        run.stage matches Stage::ReportingRemoval { code, .. } && !removal_succeeded(code),
    ensures
        run.stage matches Stage::ReportingRemoval { code, .. } && next(
            run,
            Response::Status(logged),
        ) == fail(run, ConduitError::Sync(code)),
{
}

/// The first failure is the result. The failure that a run keeps is kept
/// to its end: no later step changes it, and the run ends with it,
/// whatever the unregistration returns.
pub proof fn lemma_first_failure_is_the_result(run: RunView, response: Response)
    requires
        inv(run),
        accepts(run.stage, response),
        run.failure is Some,
    ensures
        run.stage is Concluding || run.stage is Unregistering,
        run.stage is Concluding ==> next(run, response).0.failure == run.failure && next(
            run,
            response,
        ).1 is Unregister,
        run.stage is Unregistering ==> next(run, response).1 == RequestView::Done(
            Err(run.failure->0),
        ),
{
}

/// A record that was read is kept as its payload: the first bytes of the
/// buffer of the read, as many as the read reports for the record, with
/// the attributes and the id that the read reports.
pub proof fn lemma_record_kept_as_payload(run: RunView, response: Response)
    requires
        inv(run),
        run.stage is ReadingRecord,
        response matches Response::RecordRead { code: SyncManagerError::SYNCERR_NONE, .. },
    ensures
        ({
            let kept = next(run, response).0.collected;
            let sunk = next(run, response).1;
            &&& response matches Response::RecordRead { record, .. }
            &&& (record.m_pBytes, record.m_RecSize, record.m_Attribs, record.m_CatId, record.m_RecId)
                matches (buffer, size, attribs, category, id)
            &&& {
                let payload = (
                    truncated(buffer@, size as nat),
                    RecordAttributes::spec_from_transport(attribs, category),
                    id,
                );
                &&& size <= buffer@.len() ==> payload.0.len() == size
                &&& kept == run.collected.push(payload) || (sunk matches RequestView::Sink {
                    records,
                    ..
                } && records == run.collected.push(payload))
            }
        }),
{
}

/// The handle of the database that is open at a stage, if one is.
pub open spec fn open_handle(stage: Stage) -> Option<openDatabaseHandle> {
    match stage {
        Stage::Counting { handle, .. }
        | Stage::ReadingRecord { handle, .. }
        | Stage::Sinking { handle, .. }
        | Stage::AnnouncingClose { handle, .. }
        | Stage::Closing { handle, .. }
        | Stage::AnnouncingCreated { handle, .. }
        | Stage::AnnouncingResource { handle, .. }
        | Stage::Writing { handle, .. } => Some(handle),
        _ => None,
    }
}

/// At most one database is open at a time. A run asks to open or create a
/// database only while none is open, or when the one that was open has
/// just been closed; while a database is open its handle does not change;
/// and every request on an open database names that handle.
pub proof fn lemma_one_database_open(run: RunView, response: Response)
    requires
        inv(run),
        faithful(run),
        accepts(run.stage, response),
    ensures
        next(run, response).1 is OpenDb || next(run, response).1 is CreateDb ==> {
            ||| open_handle(run.stage) is None
            ||| run.stage is Closing && response matches Response::Status(
                SyncManagerError::SYNCERR_NONE,
            )
        },
        open_handle(run.stage) matches Some(before) ==> (open_handle(
            next(run, response).0.stage,
        ) matches Some(now) ==> now == before),
        match next(run, response).1 {
            RequestView::RecordCount(handle) | RequestView::CloseDb(handle) => open_handle(
                next(run, response).0.stage,
            ) == Some(handle),
            RequestView::ReadRecordByIndex(record)
            | RequestView::WriteRec(record)
            | RequestView::WriteResourceRec(record) => open_handle(next(run, response).0.stage)
                == Some(record.handle),
            _ => true,
        },
{
    lemma_step_advances(run, response);
}

} // verus!
