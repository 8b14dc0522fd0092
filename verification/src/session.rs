//! The session of one run of a plan, as a state machine.
//!
//! A run never calls the transport. It hands out one [`Request`] at a time;
//! its driver performs the request and hands back the [`Response`], and the
//! run answers with the next request, until the request is
//! [`Request::Done`].
//!
//! A run loads the transport, registers, and logs that it begins; it then
//! sets the preference of its plan, drains, removes, clears the targets of
//! its overwrites, creates what is absent, and overwrites; it logs that it
//! is done, or why it failed, and unregisters. The first failure ends the
//! body of the run; nothing that was done before it is undone.
//!
//! Some things a run takes as they come:
//! - A read that fails for want of room reports the size that it needs.
//!   The run trusts that size, reads once more into a buffer of it, and
//!   never a third time.
//! - A database to drain that cannot be opened is passed over in silence.
//! - A database to create that the handheld reports to exist is left as
//!   it is; the same report for a database to overwrite, whose target was
//!   cleared, is a failure.
//! - A record or a preference that was read is the first bytes of the
//!   buffer, as many as the read reports for it; what the buffer holds
//!   beyond them is dropped.
//! - A line that reports a failure may fail to be logged; the failure that
//!   it reports stands. So a removal that failed ends the run with its own
//!   code, whatever became of the line that reports it. Where a removal
//!   went well, a failure to log so ends the run with the code of the log.

use crate::database::{
    records_view, Database, DatabaseContent, DatabaseEntry, DatabaseView, DrainedRecord,
    EntryView, RecordAttributes,
};
use crate::error::{ConduitError, SyncManagerError};
use crate::syncmgr::{
    be_value, plan_fits, uchars_to_u32, Plan, PlanView, PlannedDatabase, PlannedView,
    PreferenceKind,
};
use crate::syncmgr_extern::{
    drain_mode, eDbOpenModes, openDatabaseHandle, spec_drain_mode, spec_wire_name, wire_name,
    CDbCreateDB, CRawPreferenceInfo, CRawRecordInfo, CreateDbView, RawPreferenceView,
    RawRecordView, CONDHANDLE, DEFAULT_BUFFER_LEN,
};
use crate::text::{fixed_line, named_line, text, utf8_lossy};
use vstd::prelude::*;
use vstd::utf8::encode_utf8;

verus! {

/// Whether a read is the first of its kind or the one that follows a
/// buffer that was too small.
#[derive(Debug, Clone, Copy, PartialEq, Eq, Structural)]
pub enum Attempt {
    First,
    Second,
}

/// The directive that a removal belongs to: the drain at a place of the
/// list of drains, the removal at a place of the list of removals, or the
/// overwrite at a place of its list, whose target is cleared beforehand.
#[derive(Debug, Clone, Copy, PartialEq, Eq, Structural)]
pub enum Removal {
    Drained(usize),
    Explicit(usize),
    PreClean(usize),
}

/// The directive that an installation belongs to, by its place in the list
/// of databases to create or to overwrite.
#[derive(Debug, Clone, Copy, PartialEq, Eq, Structural)]
pub enum Install {
    Create(usize),
    Overwrite(usize),
}

/// The directive for which a database is generated.
#[derive(Debug, Clone, Copy, PartialEq, Eq, Structural)]
pub enum Purpose {
    PreClean(usize),
    Create(usize),
}

/// The directive for which a database is closed.
#[derive(Debug, Clone, Copy, PartialEq, Eq, Structural)]
pub enum Closing {
    Drained(usize),
    Installed(Install),
}

/// Where a run stands: which request is out, and on whose behalf.
#[derive(Debug, Clone, Copy, PartialEq, Eq, Structural)]
pub enum Stage {
    /// The transport is being loaded.
    Loading,
    /// The conduit is being registered.
    Registering,
    /// The line that opens the run is being logged.
    Announcing,
    /// The line that opens the preferences is being logged.
    OpeningPreferences,
    /// The fixed preference value is being turned into bytes.
    Encoding,
    /// The preference on the handheld is being read.
    ReadingPreference { attempt: Attempt },
    /// The preference on the handheld is being transformed.
    Transforming,
    /// It is being logged that the preference on the handheld could not be
    /// understood.
    ReportingUnreadable,
    /// The preference is being written.
    WritingPreference,
    /// The line that closes the preferences is being logged.
    ClosingPreferences,
    /// A database to drain is being opened.
    Opening { drain: usize },
    /// The records of an open database are being counted.
    Counting { drain: usize, handle: openDatabaseHandle },
    /// A record is being read.
    ReadingRecord {
        drain: usize,
        handle: openDatabaseHandle,
        count: u32,
        index: u32,
        attempt: Attempt,
    },
    /// The sink is at work on the records of a database.
    Sinking { drain: usize, handle: openDatabaseHandle },
    /// It is being logged that a database is closed.
    AnnouncingClose { closing: Closing, handle: openDatabaseHandle },
    /// A database is being closed.
    Closing { closing: Closing, handle: openDatabaseHandle },
    /// A database is being removed.
    Removing { removal: Removal },
    /// The outcome of a removal is being logged.
    ReportingRemoval { removal: Removal, code: SyncManagerError },
    /// A generator is at work.
    Generating { purpose: Purpose },
    /// A database is being created.
    Creating { install: Install },
    /// It is being logged that a database was created.
    AnnouncingCreated { install: Install, handle: openDatabaseHandle },
    /// It is being logged that a resource is written.
    AnnouncingResource { install: Install, handle: openDatabaseHandle, entry: usize },
    /// An entry is being written.
    Writing { install: Install, handle: openDatabaseHandle, entry: usize },
    /// The last line of the run is being logged: that it succeeded, or why
    /// it failed.
    Concluding,
    /// The conduit is being unregistered.
    Unregistering,
    /// The run is over.
    Finished,
}

/// What the hooks of a dynamic preference made of the value on the
/// handheld.
#[derive(Debug)]
pub enum Transformed {
    /// The bytes on the handheld could not be understood.
    Unreadable,
    /// The transform asked for no change.
    Keep,
    /// The transform gave this value.
    Replace(Vec<u8>),
    /// The value of the transform could not be turned into bytes.
    Unwritable,
}

/// What a run asks of its driver.
#[derive(Debug)]
pub enum Request {
    /// Load the transport.
    LoadTransport,
    /// Register the conduit with the transport.
    Register,
    /// Append the line to the log of the handheld.
    Log(Vec<u8>),
    /// Turn the fixed preference value of the plan into bytes.
    EncodeStatic,
    /// Read a preference into the buffer of the request.
    ReadPreference(CRawPreferenceInfo),
    /// Apply the transform of the plan to the preference on the handheld:
    /// to these bytes, or to none where the handheld has no such
    /// preference.
    Transform(Option<Vec<u8>>),
    /// Write the preference in the buffer of the request.
    WritePreference(CRawPreferenceInfo),
    /// Open the database of this name on this card in this mode.
    OpenDb { wire_name: [u8; 32], card: i32, mode: eDbOpenModes },
    /// Count the records of the open database.
    RecordCount(openDatabaseHandle),
    /// Read a record into the buffer of the request.
    ReadRecordByIndex(CRawRecordInfo),
    /// Hand the records to the sink at this place of the plan's drains.
    Sink { index: usize, records: Vec<DrainedRecord> },
    /// Close the open database.
    CloseDb(openDatabaseHandle),
    /// Remove the database of this name from this card.
    DeleteDb { name: Vec<u8>, card: i32 },
    /// Run the generator at this place among the plan's generators.
    Generate { slot: usize },
    /// Create a database; the transport fills in the handle.
    CreateDb(CDbCreateDB),
    /// Write a record.
    WriteRec(CRawRecordInfo),
    /// Write a resource.
    WriteResourceRec(CRawRecordInfo),
    /// Unregister the conduit.
    Unregister(CONDHANDLE),
    /// Nothing more: the run is over, with this result.
    Done(Result<(), ConduitError>),
}

/// A [`Request`] over sequences of bytes.
pub enum RequestView {
    LoadTransport,
    Register,
    Log(Seq<u8>),
    EncodeStatic,
    ReadPreference(RawPreferenceView),
    Transform(Option<Seq<u8>>),
    WritePreference(RawPreferenceView),
    OpenDb { wire_name: Seq<u8>, card: i32, mode: eDbOpenModes },
    RecordCount(openDatabaseHandle),
    ReadRecordByIndex(RawRecordView),
    Sink { index: usize, records: Seq<(Seq<u8>, RecordAttributes, u32)> },
    CloseDb(openDatabaseHandle),
    DeleteDb { name: Seq<u8>, card: i32 },
    Generate { slot: usize },
    CreateDb(CreateDbView),
    WriteRec(RawRecordView),
    WriteResourceRec(RawRecordView),
    Unregister(CONDHANDLE),
    Done(Result<(), ConduitError>),
}

impl View for Request {
    type V = RequestView;

    open spec fn view(&self) -> RequestView {
        match *self {
            Request::LoadTransport => RequestView::LoadTransport,
            Request::Register => RequestView::Register,
            Request::Log(line) => RequestView::Log(line@),
            Request::EncodeStatic => RequestView::EncodeStatic,
            Request::ReadPreference(info) => RequestView::ReadPreference(info@),
            Request::Transform(current) => RequestView::Transform(
                match current {
                    Some(bytes) => Some(bytes@),
                    None => None,
                },
            ),
            Request::WritePreference(info) => RequestView::WritePreference(info@),
            Request::OpenDb { wire_name, card, mode } => RequestView::OpenDb {
                wire_name: wire_name@,
                card,
                mode,
            },
            Request::RecordCount(handle) => RequestView::RecordCount(handle),
            Request::ReadRecordByIndex(info) => RequestView::ReadRecordByIndex(info@),
            Request::Sink { index, records } => RequestView::Sink {
                index,
                records: records_view(records@),
            },
            Request::CloseDb(handle) => RequestView::CloseDb(handle),
            Request::DeleteDb { name, card } => RequestView::DeleteDb { name: name@, card },
            Request::Generate { slot } => RequestView::Generate { slot },
            Request::CreateDb(info) => RequestView::CreateDb(info@),
            Request::WriteRec(info) => RequestView::WriteRec(info@),
            Request::WriteResourceRec(info) => RequestView::WriteResourceRec(info@),
            Request::Unregister(token) => RequestView::Unregister(token),
            Request::Done(result) => RequestView::Done(result),
        }
    }
}

/// What the driver of a run answers.
#[derive(Debug)]
pub enum Response {
    /// The transport is loaded.
    Loaded,
    /// The transport could not be loaded.
    LoadFailed(ConduitError),
    /// The answer to [`Request::Register`]: the result code and, where it
    /// reports success, the token of the registration.
    Registered { code: SyncManagerError, token: CONDHANDLE },
    /// The result code of a call that returns nothing else.
    Status(SyncManagerError),
    /// The fixed preference value as bytes, or nothing where it cannot be
    /// turned into bytes.
    Encoded(Option<Vec<u8>>),
    /// The answer to [`Request::ReadPreference`]: the result code, and the
    /// request as the transport left it.
    PreferenceRead { code: SyncManagerError, preference: CRawPreferenceInfo },
    /// The answer to [`Request::Transform`].
    Transformed(Transformed),
    /// The answer to [`Request::OpenDb`]: the result code and, where it
    /// reports success, the handle of the open database.
    Opened { code: SyncManagerError, handle: openDatabaseHandle },
    /// The answer to [`Request::RecordCount`].
    Counted { code: SyncManagerError, count: u32 },
    /// The answer to [`Request::ReadRecordByIndex`]: the result code, and
    /// the request as the transport left it.
    RecordRead { code: SyncManagerError, record: CRawRecordInfo },
    /// The answer to [`Request::Sink`]: success, or the sink's message.
    Sunk(Result<(), String>),
    /// The answer to [`Request::Generate`]: the name, the four-character
    /// type and the content of the database.
    Generated { name: Vec<u8>, type_code: [u8; 4], content: DatabaseContent },
    /// The answer to [`Request::CreateDb`]: the result code and, where it
    /// reports success, the handle that the transport filled in.
    Created { code: SyncManagerError, handle: openDatabaseHandle },
}

/// A run over sequences of bytes: the plan, where the run stands in it, and
/// what it has gathered on the way.
pub struct RunView {
    pub plan: PlanView,
    pub stage: Stage,
    /// Whether the conduit was registered.
    pub registered: bool,
    /// The token of the registration.
    pub token: CONDHANDLE,
    /// The records read so far from the database that is being drained.
    pub collected: Seq<(Seq<u8>, RecordAttributes, u32)>,
    /// The databases to overwrite, as far as their targets were cleared.
    pub targets: Seq<DatabaseView>,
    /// The database that is being created and filled.
    pub installing: DatabaseView,
    /// Why the body of the run failed, if it did.
    pub failure: Option<ConduitError>,
}

/// A buffer of zeros.
pub open spec fn zeros(len: nat) -> Seq<u8> {
    Seq::new(len, |i: int| 0u8)
}

/// A buffer brought to a length: cut, or filled up with zeros.
pub open spec fn resized(buffer: Seq<u8>, len: nat) -> Seq<u8> {
    if len <= buffer.len() {
        buffer.subrange(0, len as int)
    } else {
        buffer + zeros((len - buffer.len()) as nat)
    }
}

/// A buffer cut to a length, if it is longer.
pub open spec fn truncated(buffer: Seq<u8>, len: nat) -> Seq<u8> {
    if len <= buffer.len() {
        buffer.subrange(0, len as int)
    } else {
        buffer
    }
}

/// The line that opens a run.
pub open spec fn beginning_line(name: Seq<u8>) -> Seq<u8> {
    text("Beginning sync of ") + utf8_lossy(name) + text("\n")
}

/// The line that reports how the removal of a database went.
pub open spec fn removal_line(code: SyncManagerError, name: Seq<u8>) -> Seq<u8> {
    (match code {
        SyncManagerError::SYNCERR_NOT_FOUND => text("Database not found: "),
        SyncManagerError::SYNCERR_NONE => text("Database deleted: "),
        _ => text("Error while deleting: "),
    }) + utf8_lossy(name) + text("\n")
}

/// The line that reports that a database was created.
pub open spec fn created_line(name: Seq<u8>) -> Seq<u8> {
    text("Created database: ") + utf8_lossy(name) + text("\n")
}

/// The line that reports why a run failed.
pub open spec fn failure_line(error: ConduitError, name: Seq<u8>) -> Seq<u8> {
    text("Encountered error ") + encode_utf8(error.spec_text()) + text(" during sync of ")
        + utf8_lossy(name) + text("\n")
}

/// Whether a removal went well enough to go on: the database is gone, or
/// was never there.
pub open spec fn removal_succeeded(code: SyncManagerError) -> bool {
    code == SyncManagerError::SYNCERR_NONE || code == SyncManagerError::SYNCERR_NOT_FOUND
}

/// The id of the preference that a plan sets.
pub open spec fn preference_id(plan: PlanView) -> u16 {
    match plan.preferences {
        Some(kind) => kind.spec_id(),
        None => 0,
    }
}

/// The database that a generator returned.
pub open spec fn generated(name: Seq<u8>, type_code: [u8; 4], content: Seq<EntryView>)
    -> DatabaseView {
    DatabaseView { name, type_code: be_value(type_code@) as u32, content }
}

/// What is written for an entry into an open database. A record goes out
/// without attributes, category or id, all of which the handheld assigns;
/// a resource goes out under its type and its id.
pub open spec fn written_record(handle: openDatabaseHandle, entry: EntryView) -> RawRecordView {
    match entry {
        EntryView::Record { attributes, data } => CRawRecordInfo::spec_new_for_writing(
            handle,
            0,
            0,
            None,
            data,
        ),
        EntryView::Resource { name, id, data } => CRawRecordInfo::spec_new_for_writing(
            handle,
            0,
            0,
            Some((be_value(name@) as u32, id)),
            data,
        ),
    }
}

/// The request that writes an entry into an open database: a write of a
/// record, or a write of a resource.
pub open spec fn write_request(handle: openDatabaseHandle, entry: EntryView) -> RequestView {
    match entry {
        EntryView::Record { .. } => RequestView::WriteRec(written_record(handle, entry)),
        EntryView::Resource { .. } => RequestView::WriteResourceRec(written_record(handle, entry)),
    }
}

/// The name of the database that a removal removes.
pub open spec fn removal_name(run: RunView, removal: Removal) -> Seq<u8> {
    match removal {
        Removal::Drained(drain) => run.plan.to_download[drain as int],
        Removal::Explicit(at) => run.plan.to_remove[at as int],
        Removal::PreClean(at) => run.targets[at as int].name,
    }
}

/// Which response answers the request that is out at a stage.
pub open spec fn accepts(stage: Stage, response: Response) -> bool {
    match stage {
        Stage::Loading => response is Loaded || response is LoadFailed,
        Stage::Registering => response is Registered,
        Stage::Encoding => response is Encoded,
        Stage::ReadingPreference { .. } => response is PreferenceRead,
        Stage::Transforming => response is Transformed,
        Stage::Opening { .. } => response is Opened,
        Stage::Counting { .. } => response is Counted,
        Stage::ReadingRecord { .. } => response is RecordRead,
        Stage::Sinking { .. } => response is Sunk,
        Stage::Generating { .. } => response is Generated,
        Stage::Creating { .. } => response is Created,
        Stage::Finished => false,
        _ => response is Status,
    }
}

/// A run whose body failed: the failure is kept, and the line that reports
/// it goes to the log.
pub open spec fn fail(run: RunView, error: ConduitError) -> (RunView, RequestView) {
    (
        RunView { stage: Stage::Concluding, failure: Some(error), ..run },
        RequestView::Log(failure_line(error, run.plan.name)),
    )
}

/// A run whose body succeeded: the line that says so goes to the log.
pub open spec fn conclude(run: RunView) -> (RunView, RequestView) {
    (RunView { stage: Stage::Concluding, ..run }, RequestView::Log(text("Sync completed!")))
}

/// The start of an installation: the database is created, for records.
pub open spec fn start_install(run: RunView, install: Install, database: DatabaseView) -> (
    RunView,
    RequestView,
) {
    (
        RunView { stage: Stage::Creating { install }, installing: database, ..run },
        RequestView::CreateDb(
            CDbCreateDB::spec_new(database.name, run.plan.creator_id, database.type_code, false),
        ),
    )
}

/// The start of a removal.
pub open spec fn start_removal(run: RunView, removal: Removal, name: Seq<u8>) -> (
    RunView,
    RequestView,
) {
    (
        RunView { stage: Stage::Removing { removal }, ..run },
        RequestView::DeleteDb { name, card: 0 },
    )
}

/// The clearing of the target of an overwrite: the database joins the
/// targets, and whatever bears its name is removed.
pub open spec fn clean_target(run: RunView, at: usize, database: DatabaseView) -> (
    RunView,
    RequestView,
) {
    start_removal(
        RunView { targets: run.targets.push(database), ..run },
        Removal::PreClean(at),
        database.name,
    )
}

/// The overwrite directive at a place of its list, or, past the last one,
/// the end of the body.
pub open spec fn enter_overwrite(run: RunView, at: int) -> (RunView, RequestView) {
    if at < run.plan.overwrite.len() {
        start_install(run, Install::Overwrite(at as usize), run.targets[at])
    } else {
        conclude(run)
    }
}

/// The create-if-absent directive at a place of its list, or, past the
/// last one, the first overwrite.
pub open spec fn enter_create(run: RunView, at: int) -> (RunView, RequestView) {
    if at < run.plan.create_if_not_exists.len() {
        match run.plan.create_if_not_exists[at] {
            PlannedView::Ready(database) => start_install(
                run,
                Install::Create(at as usize),
                database,
            ),
            PlannedView::Deferred(slot) => (
                RunView {
                    stage: Stage::Generating { purpose: Purpose::Create(at as usize) },
                    ..run
                },
                RequestView::Generate { slot },
            ),
        }
    } else {
        enter_overwrite(run, 0)
    }
}

/// The clearing of the target of the overwrite directive at a place of its
/// list, or, past the last one, the first create-if-absent directive.
pub open spec fn enter_preclean(run: RunView, at: int) -> (RunView, RequestView) {
    if at < run.plan.overwrite.len() {
        match run.plan.overwrite[at] {
            PlannedView::Ready(database) => clean_target(run, at as usize, database),
            PlannedView::Deferred(slot) => (
                RunView {
                    stage: Stage::Generating { purpose: Purpose::PreClean(at as usize) },
                    ..run
                },
                RequestView::Generate { slot },
            ),
        }
    } else {
        enter_create(run, 0)
    }
}

/// The removal at a place of the list of removals, or, past the last one,
/// the clearing of the first overwrite target.
pub open spec fn enter_remove(run: RunView, at: int) -> (RunView, RequestView) {
    if at < run.plan.to_remove.len() {
        start_removal(run, Removal::Explicit(at as usize), run.plan.to_remove[at])
    } else {
        enter_preclean(run, 0)
    }
}

/// The drain at a place of the list of drains, or, past the last one, the
/// first removal.
pub open spec fn enter_drain(run: RunView, at: int) -> (RunView, RequestView) {
    if at < run.plan.to_download.len() {
        (
            RunView { stage: Stage::Opening { drain: at as usize }, ..run },
            RequestView::OpenDb {
                wire_name: spec_wire_name(run.plan.to_download[at]),
                card: 0,
                mode: spec_drain_mode(),
            },
        )
    } else {
        enter_remove(run, 0)
    }
}

/// The preferences of the plan, or, where it sets none, the first drain.
pub open spec fn enter_preferences(run: RunView) -> (RunView, RequestView) {
    match run.plan.preferences {
        Some(_) => (
            RunView { stage: Stage::OpeningPreferences, ..run },
            RequestView::Log(text("Syncing preferences")),
        ),
        None => enter_drain(run, 0),
    }
}

/// The read of the record at an index, into a buffer of the default size,
/// or, past the last record, the hand-over of what was read to the sink.
pub open spec fn enter_read(
    run: RunView,
    drain: usize,
    handle: openDatabaseHandle,
    count: u32,
    index: int,
) -> (RunView, RequestView) {
    if index < count {
        (
            RunView {
                stage: Stage::ReadingRecord {
                    drain,
                    handle,
                    count,
                    index: index as u32,
                    attempt: Attempt::First,
                },
                ..run
            },
            RequestView::ReadRecordByIndex(
                CRawRecordInfo::spec_new_for_reading_by_index(
                    handle,
                    (index % 0x1_0000) as u16,
                    zeros(DEFAULT_BUFFER_LEN as nat),
                ),
            ),
        )
    } else {
        (
            RunView { stage: Stage::Sinking { drain, handle }, collected: Seq::empty(), ..run },
            RequestView::Sink { index: drain, records: run.collected },
        )
    }
}

/// The write of the entry at a place of the database that is being
/// installed, or, past the last entry, the close of the database.
pub open spec fn enter_fill(run: RunView, install: Install, handle: openDatabaseHandle, at: int)
    -> (RunView, RequestView) {
    if at < run.installing.content.len() {
        match run.installing.content[at] {
            EntryView::Record { .. } => (
                RunView { stage: Stage::Writing { install, handle, entry: at as usize }, ..run },
                write_request(handle, run.installing.content[at]),
            ),
            EntryView::Resource { .. } => (
                RunView {
                    stage: Stage::AnnouncingResource { install, handle, entry: at as usize },
                    ..run
                },
                RequestView::Log(text("Writing resource for some reason??\n")),
            ),
        }
    } else {
        (
            RunView {
                stage: Stage::AnnouncingClose { closing: Closing::Installed(install), handle },
                ..run
            },
            RequestView::Log(text("Closing database\n")),
        )
    }
}

/// What follows the close of a database: the removal of a drained one, or
/// the next directive after an installed one.
pub open spec fn after_close(run: RunView, closing: Closing) -> (RunView, RequestView) {
    match closing {
        Closing::Drained(drain) => start_removal(
            run,
            Removal::Drained(drain),
            run.plan.to_download[drain as int],
        ),
        Closing::Installed(Install::Create(at)) => enter_create(run, at + 1),
        Closing::Installed(Install::Overwrite(at)) => enter_overwrite(run, at + 1),
    }
}

/// What follows a removal that went well: the next directive of its kind.
pub open spec fn after_removal(run: RunView, removal: Removal) -> (RunView, RequestView) {
    match removal {
        Removal::Drained(drain) => enter_drain(run, drain + 1),
        Removal::Explicit(at) => enter_remove(run, at + 1),
        Removal::PreClean(at) => enter_preclean(run, at + 1),
    }
}

/// The result of a run: the failure of its body, or else what the
/// unregistration returned.
pub open spec fn outcome(failure: Option<ConduitError>, unregistered: SyncManagerError) -> Result<
    (),
    ConduitError,
> {
    match failure {
        Some(error) => Err(error),
        None => unregistered.spec_into_result(),
    }
}

/// The start of a run: the transport is loaded first.
pub open spec fn begin(plan: PlanView) -> (RunView, RequestView) {
    (
        RunView {
            plan,
            stage: Stage::Loading,
            registered: false,
            token: 0,
            collected: Seq::empty(),
            targets: Seq::empty(),
            installing: DatabaseView { name: Seq::empty(), type_code: 0, content: Seq::empty() },
            failure: None,
        },
        RequestView::LoadTransport,
    )
}

/// One step of a run: the run after a response, and the request that it
/// then makes. The response is one that the stage accepts.
pub open spec fn next(run: RunView, response: Response) -> (RunView, RequestView)
    recommends
        accepts(run.stage, response),
{
    match (run.stage, response) {
        (Stage::Loading, Response::Loaded) => (
            RunView { stage: Stage::Registering, ..run },
            RequestView::Register,
        ),
        (Stage::Loading, Response::LoadFailed(error)) => (
            RunView { stage: Stage::Finished, ..run },
            RequestView::Done(Err(error)),
        ),
        (Stage::Registering, Response::Registered { code, token }) => if code.spec_is_ok() {
            (
                RunView { stage: Stage::Announcing, registered: true, token, ..run },
                RequestView::Log(beginning_line(run.plan.name)),
            )
        } else {
            (
                RunView { stage: Stage::Finished, ..run },
                RequestView::Done(Err(ConduitError::Sync(code))),
            )
        },
        (Stage::Announcing, Response::Status(code)) => if code.spec_is_ok() {
            enter_preferences(run)
        } else {
            fail(run, ConduitError::Sync(code))
        },
        (Stage::OpeningPreferences, Response::Status(code)) => if !code.spec_is_ok() {
            fail(run, ConduitError::Sync(code))
        } else {
            match run.plan.preferences {
                Some(PreferenceKind::Static(_)) => (
                    RunView { stage: Stage::Encoding, ..run },
                    RequestView::EncodeStatic,
                ),
                _ => (
                    RunView {
                        stage: Stage::ReadingPreference { attempt: Attempt::First },
                        ..run
                    },
                    RequestView::ReadPreference(
                        CRawPreferenceInfo::spec_new_with_buffer(
                            0,
                            run.plan.creator_id,
                            preference_id(run.plan),
                            zeros(DEFAULT_BUFFER_LEN as nat),
                        ),
                    ),
                ),
            }
        },
        (Stage::Encoding, Response::Encoded(encoded)) => match encoded {
            Some(bytes) => (
                RunView { stage: Stage::WritingPreference, ..run },
                RequestView::WritePreference(
                    CRawPreferenceInfo::spec_new_with_buffer(
                        1,
                        run.plan.creator_id,
                        preference_id(run.plan),
                        bytes@,
                    ),
                ),
            ),
            None => fail(run, ConduitError::PreferenceSerde),
        },
        (Stage::ReadingPreference { attempt }, Response::PreferenceRead { code, preference }) => if code
            == SyncManagerError::SYNCERR_LOCAL_BUFF_TOO_SMALL && attempt == Attempt::First {
            (
                RunView { stage: Stage::ReadingPreference { attempt: Attempt::Second }, ..run },
                RequestView::ReadPreference(
                    CRawPreferenceInfo::spec_new_with_buffer(
                        0,
                        run.plan.creator_id,
                        preference_id(run.plan),
                        resized(preference.m_pBytes@, preference.m_actSize as nat),
                    ),
                ),
            )
        } else if code == SyncManagerError::SYNCERR_NOT_FOUND {
            (RunView { stage: Stage::Transforming, ..run }, RequestView::Transform(None))
        } else if !code.spec_is_ok() {
            fail(run, ConduitError::Sync(code))
        } else {
            (
                RunView { stage: Stage::Transforming, ..run },
                RequestView::Transform(Some(truncated(preference.m_pBytes@, preference.m_actSize as nat))),
            )
        },
        (Stage::Transforming, Response::Transformed(transformed)) => match transformed {
            Transformed::Unreadable => (
                RunView { stage: Stage::ReportingUnreadable, ..run },
                RequestView::Log(text("Failure reading prefs from device\n")),
            ),
            Transformed::Keep => (
                RunView { stage: Stage::ClosingPreferences, ..run },
                RequestView::Log(text("Finished syncing preferences")),
            ),
            Transformed::Replace(bytes) => (
                RunView { stage: Stage::WritingPreference, ..run },
                RequestView::WritePreference(
                    CRawPreferenceInfo::spec_new_with_buffer(
                        1,
                        run.plan.creator_id,
                        preference_id(run.plan),
                        bytes@,
                    ),
                ),
            ),
            Transformed::Unwritable => fail(run, ConduitError::PreferenceSerde),
        },
        (Stage::ReportingUnreadable, Response::Status(_)) => fail(
            run,
            ConduitError::PreferenceSerde,
        ),
        (Stage::WritingPreference, Response::Status(code)) => if code.spec_is_ok() {
            (
                RunView { stage: Stage::ClosingPreferences, ..run },
                RequestView::Log(text("Finished syncing preferences")),
            )
        } else {
            fail(run, ConduitError::Sync(code))
        },
        (Stage::ClosingPreferences, Response::Status(code)) => if code.spec_is_ok() {
            enter_drain(run, 0)
        } else {
            fail(run, ConduitError::Sync(code))
        },
        (Stage::Opening { drain }, Response::Opened { code, handle }) => if code.spec_is_ok() {
            (
                RunView { stage: Stage::Counting { drain, handle }, ..run },
                RequestView::RecordCount(handle),
            )
        } else {
            enter_drain(run, drain + 1)
        },
        (Stage::Counting { drain, handle }, Response::Counted { code, count }) => if code
            .spec_is_ok() {
            enter_read(RunView { collected: Seq::empty(), ..run }, drain, handle, count, 0)
        } else {
            fail(run, ConduitError::Sync(code))
        },
        (
            Stage::ReadingRecord { drain, handle, count, index, attempt },
            Response::RecordRead { code, record },
        ) => if code == SyncManagerError::SYNCERR_LOCAL_BUFF_TOO_SMALL && attempt
            == Attempt::First {
            (
                RunView {
                    stage: Stage::ReadingRecord {
                        drain,
                        handle,
                        count,
                        index,
                        attempt: Attempt::Second,
                    },
                    ..run
                },
                RequestView::ReadRecordByIndex(
                    CRawRecordInfo::spec_new_for_reading_by_index(
                        handle,
                        (index % 0x1_0000) as u16,
                        resized(record.m_pBytes@, record.m_RecSize as nat),
                    ),
                ),
            )
        } else if !code.spec_is_ok() {
            fail(run, ConduitError::Sync(code))
        } else {
            enter_read(
                RunView {
                    collected: run.collected.push(
                        (
                            truncated(record.m_pBytes@, record.m_RecSize as nat),
                            RecordAttributes::spec_from_transport(
                                record.m_Attribs,
                                record.m_CatId,
                            ),
                            record.m_RecId,
                        ),
                    ),
                    ..run
                },
                drain,
                handle,
                count,
                index + 1,
            )
        },
        (Stage::Sinking { drain, handle }, Response::Sunk(result)) => match result {
            Ok(_) => (
                RunView {
                    stage: Stage::AnnouncingClose { closing: Closing::Drained(drain), handle },
                    ..run
                },
                RequestView::Log(text("Closing database\n")),
            ),
            Err(message) => fail(run, ConduitError::Sink(message)),
        },
        (Stage::AnnouncingClose { closing, handle }, Response::Status(code)) => if code
            .spec_is_ok() {
            (
                RunView { stage: Stage::Closing { closing, handle }, ..run },
                RequestView::CloseDb(handle),
            )
        } else {
            fail(run, ConduitError::Sync(code))
        },
        (Stage::Closing { closing, .. }, Response::Status(code)) => if code.spec_is_ok() {
            after_close(run, closing)
        } else {
            fail(run, ConduitError::Sync(code))
        },
        (Stage::Removing { removal }, Response::Status(code)) => (
            RunView { stage: Stage::ReportingRemoval { removal, code }, ..run },
            RequestView::Log(removal_line(code, removal_name(run, removal))),
        ),
        (Stage::ReportingRemoval { removal, code }, Response::Status(logged)) => if
            !removal_succeeded(code) {
            fail(run, ConduitError::Sync(code))
        } else if !logged.spec_is_ok() {
            fail(run, ConduitError::Sync(logged))
        } else {
            after_removal(run, removal)
        },
        (Stage::Generating { purpose }, Response::Generated { name, type_code, content }) => {
            let database = generated(name@, type_code, content@);
            match purpose {
                Purpose::PreClean(at) => clean_target(run, at, database),
                Purpose::Create(at) => start_install(run, Install::Create(at), database),
            }
        },
        (Stage::Creating { install }, Response::Created { code, handle }) => if code.spec_is_ok() {
            (
                RunView {
                    stage: Stage::AnnouncingCreated { install, handle },
                    ..run
                },
                RequestView::Log(created_line(run.installing.name)),
            )
        } else {
            match install {
                Install::Create(at) if code == SyncManagerError::SYNCERR_FILE_ALREADY_EXIST =>
                    enter_create(run, at + 1),
                _ => fail(run, ConduitError::Sync(code)),
            }
        },
        (Stage::AnnouncingCreated { install, handle }, Response::Status(code)) => if code
            .spec_is_ok() {
            enter_fill(run, install, handle, 0)
        } else {
            fail(run, ConduitError::Sync(code))
        },
        (Stage::AnnouncingResource { install, handle, entry }, Response::Status(code)) => if code
            .spec_is_ok() {
            (
                RunView { stage: Stage::Writing { install, handle, entry }, ..run },
                write_request(handle, run.installing.content[entry as int]),
            )
        } else {
            fail(run, ConduitError::Sync(code))
        },
        (Stage::Writing { install, handle, entry }, Response::Status(code)) => if code
            .spec_is_ok() {
            enter_fill(run, install, handle, entry + 1)
        } else {
            fail(run, ConduitError::Sync(code))
        },
        (Stage::Concluding, Response::Status(_)) => (
            RunView { stage: Stage::Unregistering, ..run },
            RequestView::Unregister(run.token),
        ),
        (Stage::Unregistering, Response::Status(code)) => (
            RunView { stage: Stage::Finished, failure: None, ..run },
            RequestView::Done(outcome(run.failure, code)),
        ),
        _ => arbitrary(),
    }
}

/// Whether the targets of all overwrites are cleared and an installation
/// names a directive of the plan.
pub open spec fn install_ready(run: RunView, install: Install) -> bool {
    &&& run.targets.len() == run.plan.overwrite.len()
    &&& match install {
        Install::Create(at) => at < run.plan.create_if_not_exists.len(),
        Install::Overwrite(at) => at < run.plan.overwrite.len(),
    }
}

/// Whether a removal names a directive of the plan, at a time at which the
/// targets of the overwrites are cleared as far as that directive.
pub open spec fn removal_ready(run: RunView, removal: Removal) -> bool {
    match removal {
        Removal::Drained(drain) => drain < run.plan.to_download.len() && run.targets.len() == 0,
        Removal::Explicit(at) => at < run.plan.to_remove.len() && run.targets.len() == 0,
        Removal::PreClean(at) => at < run.plan.overwrite.len() && run.targets.len() == at + 1,
    }
}

/// Whether the body of the run is under way: the conduit is registered and
/// nothing has failed.
pub open spec fn in_body(run: RunView) -> bool {
    run.registered && run.failure is None
}

/// Whether a plan, the database that is being installed and the targets
/// that are cleared hold no more of anything than a machine can count.
#[verifier::opaque]
pub open spec fn fits(plan: PlanView, installing: DatabaseView, targets: Seq<DatabaseView>) -> bool {
    &&& plan_fits(plan)
    &&& installing.content.len() <= usize::MAX
    &&& targets.len() <= usize::MAX
    &&& forall|i: int| 0 <= i < targets.len() ==> (#[trigger] targets[i]).content.len() <= usize::MAX
}

/// What holds of every run, whatever its driver answers: the stage names
/// directives, records and entries that exist; the conduit is registered
/// from the first line of the log to the last; and a failure is kept only
/// while the run winds up.
pub open spec fn inv(run: RunView) -> bool {
    fits(run.plan, run.installing, run.targets) && stage_fits(run)
}

/// Whether the stage of a run names directives, records and entries that
/// exist, and the run is registered and has failed as its stage tells.
pub open spec fn stage_fits(run: RunView) -> bool {
    match run.stage {
        Stage::Loading | Stage::Registering => {
            !run.registered && run.failure is None && run.targets.len() == 0
        },
        Stage::Announcing => in_body(run) && run.targets.len() == 0,
        Stage::OpeningPreferences | Stage::WritingPreference | Stage::ClosingPreferences => {
            in_body(run) && run.targets.len() == 0 && run.plan.preferences is Some
        },
        Stage::Encoding => {
            in_body(run) && run.targets.len() == 0 && run.plan.preferences matches Some(
                PreferenceKind::Static(_),
            )
        },
        Stage::ReadingPreference { .. } | Stage::Transforming | Stage::ReportingUnreadable => {
            in_body(run) && run.targets.len() == 0 && run.plan.preferences matches Some(
                PreferenceKind::Dynamic(_),
            )
        },
        Stage::Opening { drain } | Stage::Counting { drain, .. } | Stage::Sinking { drain, .. } => {
            in_body(run) && run.targets.len() == 0 && drain < run.plan.to_download.len()
        },
        Stage::ReadingRecord { drain, count, index, .. } => {
            in_body(run) && run.targets.len() == 0 && drain < run.plan.to_download.len() && index
                < count
        },
        Stage::AnnouncingClose { closing, .. } | Stage::Closing { closing, .. } => {
            in_body(run) && match closing {
                Closing::Drained(drain) => removal_ready(run, Removal::Drained(drain)),
                Closing::Installed(install) => install_ready(run, install),
            }
        },
        Stage::Removing { removal } | Stage::ReportingRemoval { removal, .. } => {
            in_body(run) && removal_ready(run, removal)
        },
        Stage::Generating { purpose } => {
            in_body(run) && match purpose {
                Purpose::PreClean(at) => at < run.plan.overwrite.len() && run.targets.len() == at,
                Purpose::Create(at) => install_ready(run, Install::Create(at)),
            }
        },
        Stage::Creating { install } | Stage::AnnouncingCreated { install, .. } => {
            in_body(run) && install_ready(run, install)
        },
        Stage::AnnouncingResource { install, entry, .. } | Stage::Writing { install, entry, .. } => {
            in_body(run) && install_ready(run, install) && entry < run.installing.content.len()
        },
        Stage::Concluding | Stage::Unregistering => run.registered,
        Stage::Finished => run.failure is None,
    }
}

/// A list of databases over sequences of bytes.
pub open spec fn databases_view(databases: Seq<Database>) -> Seq<DatabaseView> {
    databases.map_values(|database: Database| database@)
}

/// One run of a plan.
pub struct SyncRun {
    plan: Plan,
    stage: Stage,
    registered: bool,
    token: CONDHANDLE,
    collected: Vec<DrainedRecord>,
    targets: Vec<Database>,
    installing: Database,
    failure: Option<ConduitError>,
}

impl View for SyncRun {
    type V = RunView;

    closed spec fn view(&self) -> RunView {
        RunView {
            plan: self.plan@,
            stage: self.stage,
            registered: self.registered,
            token: self.token,
            collected: records_view(self.collected@),
            targets: databases_view(self.targets@),
            installing: self.installing@,
            failure: self.failure,
        }
    }
}

/// A buffer of zeros of the default size.
fn default_buffer() -> (buffer: Vec<u8>)
    ensures
        buffer@ == zeros(DEFAULT_BUFFER_LEN as nat),
{
    let buffer = vec![0u8; DEFAULT_BUFFER_LEN];
    assert(buffer@ =~= zeros(DEFAULT_BUFFER_LEN as nat));
    buffer
}

/// Brings a buffer to a length: cuts it, or fills it up with zeros.
fn resize_buffer(buffer: Vec<u8>, len: usize) -> (fitted: Vec<u8>)
    ensures
        fitted@ == resized(buffer@, len as nat),
{
    let mut fitted = buffer;
    fitted.resize(len, 0u8);
    assert(fitted@ =~= resized(buffer@, len as nat));
    fitted
}

/// Cuts a buffer to a length, if it is longer.
fn truncate_buffer(buffer: Vec<u8>, len: usize) -> (cut: Vec<u8>)
    ensures
        cut@ == truncated(buffer@, len as nat),
{
    let mut cut = buffer;
    cut.truncate(len);
    cut
}

/// Builds the request that writes an entry into an open database.
fn entry_request(handle: openDatabaseHandle, entry: &DatabaseEntry) -> (request: Request)
    ensures
        request@ == write_request(handle, entry@),
{
    match entry {
        DatabaseEntry::Record { attributes, data } => Request::WriteRec(
            CRawRecordInfo::new_for_writing(handle, 0, 0, None, data.clone()),
        ),
        DatabaseEntry::Resource { name, id, data } => {
            let resource_type = uchars_to_u32(*name);
            Request::WriteResourceRec(
                CRawRecordInfo::new_for_writing(
                    handle,
                    0,
                    0,
                    Some((resource_type, *id)),
                    data.clone(),
                ),
            )
        },
    }
}

impl SyncRun {
    #[verifier::type_invariant]
    closed spec fn well_formed(&self) -> bool {
        inv(self@)
    }

    /// The lists of a run are as long as their views, so that every place
    /// in them is a number of the machine.
    proof fn lemma_lengths(&self)
        ensures
            self@.plan.to_download.len() == self.plan.to_download.len(),
            self@.plan.to_remove.len() == self.plan.to_remove.len(),
            self@.plan.create_if_not_exists.len() == self.plan.create_if_not_exists.len(),
            self@.plan.overwrite.len() == self.plan.overwrite.len(),
            self@.targets.len() == self.targets.len(),
            self@.installing.content.len() == self.installing.content.entries.len(),
            fits(self@.plan, self@.installing, self@.targets),
    {
        reveal(fits);
        assert(self@.targets.len() == self.targets.len());
        self.installing.lemma_fits();
        self.plan.lemma_fits();
        assert forall|i: int| 0 <= i < self@.targets.len() implies (
        #[trigger] self@.targets[i]).content.len() <= usize::MAX by {
            let target = self.targets@[i];
            assert(self@.targets[i] == target@);
            target.lemma_fits();
        }
    }

    /// Starts a run of a plan. The first request is to load the transport.
    pub fn begin(plan: Plan) -> (started: (SyncRun, Request))
        ensures
            (started.0@, started.1@) == begin(plan@),
            inv(started.0@),
    {
        proof {
            reveal(fits);
            plan.lemma_fits();
        }
        let run = SyncRun {
            plan,
            stage: Stage::Loading,
            registered: false,
            token: 0,
            collected: Vec::new(),
            targets: Vec::new(),
            installing: Database {
                name: Vec::new(),
                type_code: 0,
                content: DatabaseContent { entries: Vec::new() },
            },
            failure: None,
        };
        assert(run@.collected =~= Seq::empty());
        assert(run@.targets =~= Seq::empty());
        assert(run@.installing.name =~= Seq::empty());
        assert(run@.installing.content =~= Seq::empty());
        (run, Request::LoadTransport)
    }

    /// Where the run stands.
    pub fn stage(&self) -> (stage: Stage)
        ensures
            stage == self@.stage,
    {
        self.stage
    }

    /// Whether the run is over.
    pub fn is_finished(&self) -> (finished: bool)
        ensures
            finished == (self@.stage is Finished),
    {
        match self.stage {
            Stage::Finished => true,
            _ => false,
        }
    }

    /// Whether a response answers the request that is out.
    pub fn accepts(&self, response: &Response) -> (accepted: bool)
        ensures
            accepted == accepts(self@.stage, *response),
    {
        match self.stage {
            Stage::Loading => match response {
                Response::Loaded => true,
                Response::LoadFailed(_) => true,
                _ => false,
            },
            Stage::Registering => match response {
                Response::Registered { .. } => true,
                _ => false,
            },
            Stage::Encoding => match response {
                Response::Encoded(_) => true,
                _ => false,
            },
            Stage::ReadingPreference { .. } => match response {
                Response::PreferenceRead { .. } => true,
                _ => false,
            },
            Stage::Transforming => match response {
                Response::Transformed(_) => true,
                _ => false,
            },
            Stage::Opening { .. } => match response {
                Response::Opened { .. } => true,
                _ => false,
            },
            Stage::Counting { .. } => match response {
                Response::Counted { .. } => true,
                _ => false,
            },
            Stage::ReadingRecord { .. } => match response {
                Response::RecordRead { .. } => true,
                _ => false,
            },
            Stage::Sinking { .. } => match response {
                Response::Sunk(_) => true,
                _ => false,
            },
            Stage::Generating { .. } => match response {
                Response::Generated { .. } => true,
                _ => false,
            },
            Stage::Creating { .. } => match response {
                Response::Created { .. } => true,
                _ => false,
            },
            Stage::Finished => false,
            _ => match response {
                Response::Status(_) => true,
                _ => false,
            },
        }
    }

    /// The run fails: the failure is kept and reported to the log.
    fn fail(self, error: ConduitError) -> (stepped: (SyncRun, Request))
        requires
            error.spec_is_native(),
            self@.registered,
        ensures
            (stepped.0@, stepped.1@) == fail(self@, error),
    {
        proof {
            use_type_invariant(&self);
            self.lemma_lengths();
        }
        let shown = error.to_string();
        let mut line = fixed_line("Encountered error ");
        line.extend_from_slice(shown.as_str().as_bytes());
        let tail = named_line(" during sync of ", &self.plan.name, "\n");
        line.extend_from_slice(tail.as_slice());
        assert(line@ =~= failure_line(error, self@.plan.name));
        (SyncRun { stage: Stage::Concluding, failure: Some(error), ..self }, Request::Log(line))
    }

    /// The body of the run is done: the last line goes to the log.
    fn conclude(self) -> (stepped: (SyncRun, Request))
        requires
            self@.registered,
        ensures
            (stepped.0@, stepped.1@) == conclude(self@),
    {
        proof {
            use_type_invariant(&self);
            self.lemma_lengths();
        }
        let line = fixed_line("Sync completed!");
        (SyncRun { stage: Stage::Concluding, ..self }, Request::Log(line))
    }

    /// Starts to install a database for a directive.
    fn start_install(self, install: Install, database: Database) -> (stepped: (SyncRun, Request))
        requires
            in_body(self@),
            install_ready(self@, install),
        ensures
            (stepped.0@, stepped.1@) == start_install(self@, install, database@),
    {
        proof {
            use_type_invariant(&self);
            self.lemma_lengths();
            database.lemma_fits();
            reveal(fits);
        }
        let request = CDbCreateDB::new(
            database.name.clone(),
            self.plan.creator_id,
            database.type_code,
            false,
        );
        (
            SyncRun { stage: Stage::Creating { install }, installing: database, ..self },
            Request::CreateDb(request),
        )
    }

    /// Starts to remove a database for a directive.
    fn start_removal(self, removal: Removal, name: Vec<u8>) -> (stepped: (SyncRun, Request))
        requires
            in_body(self@),
            removal_ready(self@, removal),
        ensures
            (stepped.0@, stepped.1@) == start_removal(self@, removal, name@),
    {
        proof {
            use_type_invariant(&self);
            self.lemma_lengths();
        }
        (
            SyncRun { stage: Stage::Removing { removal }, ..self },
            Request::DeleteDb { name, card: 0 },
        )
    }

    /// Goes on with the overwrite at a place of its list, or, past the last,
    /// concludes.
    fn enter_overwrite(self, at: usize) -> (stepped: (SyncRun, Request))
        requires
            in_body(self@),
            self@.targets.len() == self@.plan.overwrite.len(),
        ensures
            (stepped.0@, stepped.1@) == enter_overwrite(self@, at as int),
    {
        proof {
            use_type_invariant(&self);
            self.lemma_lengths();
        }
        if at < self.plan.overwrite.len() {
            let database = self.targets[at].clone();
            self.start_install(Install::Overwrite(at), database)
        } else {
            self.conclude()
        }
    }

    /// Goes on with the create-if-absent directive at a place of its list,
    /// or, past the last, with the first overwrite.
    fn enter_create(self, at: usize) -> (stepped: (SyncRun, Request))
        requires
            in_body(self@),
            self@.targets.len() == self@.plan.overwrite.len(),
        ensures
            (stepped.0@, stepped.1@) == enter_create(self@, at as int),
    {
        proof {
            use_type_invariant(&self);
            self.lemma_lengths();
        }
        if at < self.plan.create_if_not_exists.len() {
            match &self.plan.create_if_not_exists[at] {
                PlannedDatabase::Ready(database) => {
                    let database = database.clone();
                    self.start_install(Install::Create(at), database)
                },
                PlannedDatabase::Deferred(slot) => {
                    let slot = *slot;
                    (
                        SyncRun {
                            stage: Stage::Generating { purpose: Purpose::Create(at) },
                            ..self
                        },
                        Request::Generate { slot },
                    )
                },
            }
        } else {
            self.enter_overwrite(0)
        }
    }

    /// Keeps the target of an overwrite and removes what bears its name.
    fn clean_target(self, at: usize, database: Database) -> (stepped: (SyncRun, Request))
        requires
            in_body(self@),
            at < self@.plan.overwrite.len(),
            self@.targets.len() == at,
        ensures
            (stepped.0@, stepped.1@) == clean_target(self@, at, database@),
    {
        proof {
            use_type_invariant(&self);
            self.lemma_lengths();
            database.lemma_fits();
            reveal(fits);
        }
        let name = database.name.clone();
        let SyncRun { plan, stage, registered, token, collected, targets, installing, failure } =
            self;
        let mut targets = targets;
        targets.push(database);
        proof {
            reveal(fits);
            let pushed = databases_view(targets@);
            assert(pushed =~= self@.targets.push(database@));
            assert forall|i: int| 0 <= i < pushed.len() implies (#[trigger] pushed[i]).content.len()
                <= usize::MAX by {
                if i < self@.targets.len() {
                    assert(pushed[i] == self@.targets[i]);
                }
            }
        }
        let cleaned = SyncRun {
            plan,
            stage: Stage::Removing { removal: Removal::PreClean(at) },
            registered,
            token,
            collected,
            targets,
            installing,
            failure,
        };
        assert(cleaned@.targets =~= self@.targets.push(database@));
        (cleaned, Request::DeleteDb { name, card: 0 })
    }

    /// Goes on with the clearing of the overwrite target at a place of its
    /// list, or, past the last, with the first create-if-absent directive.
    fn enter_preclean(self, at: usize) -> (stepped: (SyncRun, Request))
        requires
            in_body(self@),
            self@.targets.len() == at || at >= self@.plan.overwrite.len(),
            at >= self@.plan.overwrite.len() ==> self@.targets.len() == self@.plan.overwrite.len(),
        ensures
            (stepped.0@, stepped.1@) == enter_preclean(self@, at as int),
    {
        proof {
            use_type_invariant(&self);
            self.lemma_lengths();
        }
        if at < self.plan.overwrite.len() {
            match &self.plan.overwrite[at] {
                PlannedDatabase::Ready(database) => {
                    let database = database.clone();
                    self.clean_target(at, database)
                },
                PlannedDatabase::Deferred(slot) => {
                    let slot = *slot;
                    (
                        SyncRun {
                            stage: Stage::Generating { purpose: Purpose::PreClean(at) },
                            ..self
                        },
                        Request::Generate { slot },
                    )
                },
            }
        } else {
            self.enter_create(0)
        }
    }
}

impl SyncRun {
    /// Goes on with the removal at a place of its list, or, past the last,
    /// with the clearing of the first overwrite target.
    fn enter_remove(self, at: usize) -> (stepped: (SyncRun, Request))
        requires
            in_body(self@),
            self@.targets.len() == 0,
        ensures
            (stepped.0@, stepped.1@) == enter_remove(self@, at as int),
    {
        proof {
            use_type_invariant(&self);
            self.lemma_lengths();
        }
        if at < self.plan.to_remove.len() {
            let name = self.plan.to_remove[at].clone();
            self.start_removal(Removal::Explicit(at), name)
        } else {
            self.enter_preclean(0)
        }
    }

    /// Goes on with the drain at a place of its list, or, past the last, with
    /// the first removal.
    fn enter_drain(self, at: usize) -> (stepped: (SyncRun, Request))
        requires
            in_body(self@),
            self@.targets.len() == 0,
        ensures
            (stepped.0@, stepped.1@) == enter_drain(self@, at as int),
    {
        proof {
            use_type_invariant(&self);
            self.lemma_lengths();
        }
        if at < self.plan.to_download.len() {
            let wire_name = wire_name(&self.plan.to_download[at]);
            (
                SyncRun { stage: Stage::Opening { drain: at }, ..self },
                Request::OpenDb { wire_name, card: 0, mode: drain_mode() },
            )
        } else {
            self.enter_remove(0)
        }
    }

    /// Goes on with the preferences, or, where the plan sets none, with the
    /// first drain.
    fn enter_preferences(self) -> (stepped: (SyncRun, Request))
        requires
            in_body(self@),
            self@.targets.len() == 0,
        ensures
            (stepped.0@, stepped.1@) == enter_preferences(self@),
    {
        proof {
            use_type_invariant(&self);
            self.lemma_lengths();
        }
        match self.plan.preferences {
            Some(_) => {
                let line = fixed_line("Syncing preferences");
                (SyncRun { stage: Stage::OpeningPreferences, ..self }, Request::Log(line))
            },
            None => self.enter_drain(0),
        }
    }

    /// Goes on with the read of the record at an index, or, past the last,
    /// hands the records to the sink.
    fn enter_read(self, drain: usize, handle: openDatabaseHandle, count: u32, index: u32) -> (stepped:
        (SyncRun, Request))
        requires
            in_body(self@),
            self@.targets.len() == 0,
            drain < self@.plan.to_download.len(),
            index <= count,
        ensures
            (stepped.0@, stepped.1@) == enter_read(self@, drain, handle, count, index as int),
    {
        proof {
            use_type_invariant(&self);
            self.lemma_lengths();
        }
        if index < count {
            let request = CRawRecordInfo::new_for_reading_by_index(
                handle,
                (index % 0x1_0000) as u16,
                default_buffer(),
            );
            (
                SyncRun {
                    stage: Stage::ReadingRecord {
                        drain,
                        handle,
                        count,
                        index,
                        attempt: Attempt::First,
                    },
                    ..self
                },
                Request::ReadRecordByIndex(request),
            )
        } else {
            let SyncRun {
                plan,
                stage,
                registered,
                token,
                collected,
                targets,
                installing,
                failure,
            } = self;
            let emptied = SyncRun {
                plan,
                stage: Stage::Sinking { drain, handle },
                registered,
                token,
                collected: Vec::new(),
                targets,
                installing,
                failure,
            };
            assert(emptied@.collected =~= Seq::empty());
            (emptied, Request::Sink { index: drain, records: collected })
        }
    }

    /// Goes on with the write of the entry at a place, or, past the last,
    /// closes the database.
    fn enter_fill(self, install: Install, handle: openDatabaseHandle, at: usize) -> (stepped: (
        SyncRun,
        Request,
    ))
        requires
            in_body(self@),
            install_ready(self@, install),
        ensures
            (stepped.0@, stepped.1@) == enter_fill(self@, install, handle, at as int),
    {
        proof {
            use_type_invariant(&self);
            self.lemma_lengths();
        }
        if at < self.installing.content.entries.len() {
            let entry = &self.installing.content.entries[at];
            assert(self@.installing.content[at as int] == entry@);
            match entry {
                DatabaseEntry::Record { .. } => {
                    let request = entry_request(handle, entry);
                    (
                        SyncRun { stage: Stage::Writing { install, handle, entry: at }, ..self },
                        request,
                    )
                },
                DatabaseEntry::Resource { .. } => {
                    let line = fixed_line("Writing resource for some reason??\n");
                    (
                        SyncRun {
                            stage: Stage::AnnouncingResource { install, handle, entry: at },
                            ..self
                        },
                        Request::Log(line),
                    )
                },
            }
        } else {
            let line = fixed_line("Closing database\n");
            (
                SyncRun {
                    stage: Stage::AnnouncingClose { closing: Closing::Installed(install), handle },
                    ..self
                },
                Request::Log(line),
            )
        }
    }

    /// Goes on after a database was closed.
    fn after_close(self, closing: Closing) -> (stepped: (SyncRun, Request))
        requires
            in_body(self@),
            self@.stage matches Stage::Closing { closing: pending, .. } && pending == closing,
        ensures
            (stepped.0@, stepped.1@) == after_close(self@, closing),
    {
        proof {
            use_type_invariant(&self);
            self.lemma_lengths();
        }
        match closing {
            Closing::Drained(drain) => {
                let name = self.plan.to_download[drain].clone();
                self.start_removal(Removal::Drained(drain), name)
            },
            Closing::Installed(Install::Create(at)) => self.enter_create(at + 1),
            Closing::Installed(Install::Overwrite(at)) => self.enter_overwrite(at + 1),
        }
    }

    /// Goes on after a database was removed, or was not there.
    fn after_removal(self, removal: Removal) -> (stepped: (SyncRun, Request))
        requires
            in_body(self@),
            self@.stage matches Stage::ReportingRemoval { removal: reported, .. } && reported
                == removal,
        ensures
            (stepped.0@, stepped.1@) == after_removal(self@, removal),
    {
        proof {
            use_type_invariant(&self);
            self.lemma_lengths();
        }
        match removal {
            Removal::Drained(drain) => self.enter_drain(drain + 1),
            Removal::Explicit(at) => self.enter_remove(at + 1),
            Removal::PreClean(at) => self.enter_preclean(at + 1),
        }
    }

    /// The name of the database that a removal removes.
    fn removal_name(&self, removal: Removal) -> (name: &Vec<u8>)
        requires
            removal_ready(self@, removal),
        ensures
            name@ == removal_name(self@, removal),
    {
        match removal {
            Removal::Drained(drain) => &self.plan.to_download[drain],
            Removal::Explicit(at) => &self.plan.to_remove[at],
            Removal::PreClean(at) => &self.targets[at].name,
        }
    }

    /// Asks to write the preference with these bytes.
    fn write_preference(self, bytes: Vec<u8>) -> (stepped: (SyncRun, Request))
        requires
            in_body(self@),
            self@.targets.len() == 0,
            self@.plan.preferences is Some,
        ensures
            (stepped.0@, stepped.1@) == (
                RunView { stage: Stage::WritingPreference, ..self@ },
                RequestView::WritePreference(
                    CRawPreferenceInfo::spec_new_with_buffer(
                        1,
                        self@.plan.creator_id,
                        preference_id(self@.plan),
                        bytes@,
                    ),
                ),
            ),
    {
        proof {
            use_type_invariant(&self);
            self.lemma_lengths();
        }
        let request = CRawPreferenceInfo::new_with_buffer(
            1,
            self.plan.creator_id,
            self.preference_id(),
            bytes,
        );
        (SyncRun { stage: Stage::WritingPreference, ..self }, Request::WritePreference(request))
    }

    /// Asks to read the preference into this buffer.
    fn read_preference(self, attempt: Attempt, buffer: Vec<u8>) -> (stepped: (SyncRun, Request))
        requires
            in_body(self@),
            self@.targets.len() == 0,
            self@.plan.preferences matches Some(PreferenceKind::Dynamic(_)),
        ensures
            (stepped.0@, stepped.1@) == (
                RunView { stage: Stage::ReadingPreference { attempt }, ..self@ },
                RequestView::ReadPreference(
                    CRawPreferenceInfo::spec_new_with_buffer(
                        0,
                        self@.plan.creator_id,
                        preference_id(self@.plan),
                        buffer@,
                    ),
                ),
            ),
    {
        proof {
            use_type_invariant(&self);
            self.lemma_lengths();
        }
        let request = CRawPreferenceInfo::new_with_buffer(
            0,
            self.plan.creator_id,
            self.preference_id(),
            buffer,
        );
        (
            SyncRun { stage: Stage::ReadingPreference { attempt }, ..self },
            Request::ReadPreference(request),
        )
    }

    /// Asks to log that the preferences are done.
    fn close_preferences(self) -> (stepped: (SyncRun, Request))
        requires
            in_body(self@),
            self@.targets.len() == 0,
            self@.plan.preferences is Some,
        ensures
            (stepped.0@, stepped.1@) == (
                RunView { stage: Stage::ClosingPreferences, ..self@ },
                RequestView::Log(text("Finished syncing preferences")),
            ),
    {
        proof {
            use_type_invariant(&self);
            self.lemma_lengths();
        }
        let line = fixed_line("Finished syncing preferences");
        (SyncRun { stage: Stage::ClosingPreferences, ..self }, Request::Log(line))
    }

    /// The id of the preference that the plan sets.
    fn preference_id(&self) -> (id: u16)
        ensures
            id == preference_id(self@.plan),
    {
        match &self.plan.preferences {
            Some(kind) => kind.id(),
            None => 0,
        }
    }

    /// Takes the answer to the request that is out, and makes the next
    /// request. The run is over when the request is [`Request::Done`].
    pub fn step(self, response: Response) -> (stepped: (SyncRun, Request))
        requires
            accepts(self@.stage, response),
        ensures
            (stepped.0@, stepped.1@) == next(self@, response),
            inv(stepped.0@),
    {
        proof {
            use_type_invariant(&self);
            self.lemma_lengths();
        }
        let stage = self.stage;
        let stepped = match stage {
            Stage::Loading => match response {
                Response::Loaded => (
                    SyncRun { stage: Stage::Registering, ..self },
                    Request::Register,
                ),
                Response::LoadFailed(error) => (
                    SyncRun { stage: Stage::Finished, ..self },
                    Request::Done(Err(error)),
                ),
                _ => unreached(),
            },
            Stage::Registering => match response {
                Response::Registered { code, token } => {
                    if code == SyncManagerError::SYNCERR_NONE {
                        let line = named_line("Beginning sync of ", &self.plan.name, "\n");
                        (
                            SyncRun { stage: Stage::Announcing, registered: true, token, ..self },
                            Request::Log(line),
                        )
                    } else {
                        (
                            SyncRun { stage: Stage::Finished, ..self },
                            Request::Done(Err(ConduitError::Sync(code))),
                        )
                    }
                },
                _ => unreached(),
            },
            Stage::Encoding => match response {
                Response::Encoded(Some(bytes)) => self.write_preference(bytes),
                Response::Encoded(None) => self.fail(ConduitError::PreferenceSerde),
                _ => unreached(),
            },
            Stage::ReadingPreference { attempt } => match response {
                Response::PreferenceRead { code, preference } => {
                    if code == SyncManagerError::SYNCERR_LOCAL_BUFF_TOO_SMALL && attempt
                        == Attempt::First {
                        let needed = preference.get_required_size() as usize;
                        let buffer = resize_buffer(preference.m_pBytes, needed);
                        self.read_preference(Attempt::Second, buffer)
                    } else if code == SyncManagerError::SYNCERR_NOT_FOUND {
                        (SyncRun { stage: Stage::Transforming, ..self }, Request::Transform(None))
                    } else if code != SyncManagerError::SYNCERR_NONE {
                        self.fail(ConduitError::Sync(code))
                    } else {
                        let size = preference.m_actSize as usize;
                        let current = truncate_buffer(preference.m_pBytes, size);
                        (
                            SyncRun { stage: Stage::Transforming, ..self },
                            Request::Transform(Some(current)),
                        )
                    }
                },
                _ => unreached(),
            },
            Stage::Transforming => match response {
                Response::Transformed(Transformed::Unreadable) => {
                    let line = fixed_line("Failure reading prefs from device\n");
                    (SyncRun { stage: Stage::ReportingUnreadable, ..self }, Request::Log(line))
                },
                Response::Transformed(Transformed::Keep) => self.close_preferences(),
                Response::Transformed(Transformed::Replace(bytes)) => self.write_preference(bytes),
                Response::Transformed(Transformed::Unwritable) => self.fail(
                    ConduitError::PreferenceSerde,
                ),
                _ => unreached(),
            },
            Stage::Opening { drain } => match response {
                Response::Opened { code, handle } => {
                    if code == SyncManagerError::SYNCERR_NONE {
                        (
                            SyncRun { stage: Stage::Counting { drain, handle }, ..self },
                            Request::RecordCount(handle),
                        )
                    } else {
                        self.enter_drain(drain + 1)
                    }
                },
                _ => unreached(),
            },
            Stage::Counting { drain, handle } => match response {
                Response::Counted { code, count } => {
                    if code == SyncManagerError::SYNCERR_NONE {
                        self.forget_records().enter_read(drain, handle, count, 0)
                    } else {
                        self.fail(ConduitError::Sync(code))
                    }
                },
                _ => unreached(),
            },
            Stage::ReadingRecord { drain, handle, count, index, attempt } => match response {
                Response::RecordRead { code, record } => {
                    if code == SyncManagerError::SYNCERR_LOCAL_BUFF_TOO_SMALL && attempt
                        == Attempt::First {
                        let needed = record.m_RecSize as usize;
                        let buffer = resize_buffer(record.m_pBytes, needed);
                        let request = CRawRecordInfo::new_for_reading_by_index(
                            handle,
                            (index % 0x1_0000) as u16,
                            buffer,
                        );
                        (
                            SyncRun {
                                stage: Stage::ReadingRecord {
                                    drain,
                                    handle,
                                    count,
                                    index,
                                    attempt: Attempt::Second,
                                },
                                ..self
                            },
                            Request::ReadRecordByIndex(request),
                        )
                    } else if code != SyncManagerError::SYNCERR_NONE {
                        self.fail(ConduitError::Sync(code))
                    } else {
                        let attributes = RecordAttributes::from_transport(
                            record.m_Attribs,
                            record.m_CatId,
                        );
                        let size = record.m_RecSize as usize;
                        let payload = truncate_buffer(record.m_pBytes, size);
                        self.keep_record((payload, attributes, record.m_RecId)).enter_read(
                            drain,
                            handle,
                            count,
                            index + 1,
                        )
                    }
                },
                _ => unreached(),
            },
            Stage::Sinking { drain, handle } => match response {
                Response::Sunk(Ok(_)) => {
                    let line = fixed_line("Closing database\n");
                    (
                        SyncRun {
                            stage: Stage::AnnouncingClose {
                                closing: Closing::Drained(drain),
                                handle,
                            },
                            ..self
                        },
                        Request::Log(line),
                    )
                },
                Response::Sunk(Err(message)) => self.fail(ConduitError::Sink(message)),
                _ => unreached(),
            },
            Stage::Generating { purpose } => match response {
                Response::Generated { name, type_code, content } => {
                    let database = Database {
                        name,
                        type_code: uchars_to_u32(type_code),
                        content,
                    };
                    match purpose {
                        Purpose::PreClean(at) => self.clean_target(at, database),
                        Purpose::Create(at) => self.start_install(Install::Create(at), database),
                    }
                },
                _ => unreached(),
            },
            Stage::Creating { install } => match response {
                Response::Created { code, handle } => {
                    if code == SyncManagerError::SYNCERR_NONE {
                        let line = named_line("Created database: ", &self.installing.name, "\n");
                        (
                            SyncRun {
                                stage: Stage::AnnouncingCreated { install, handle },
                                ..self
                            },
                            Request::Log(line),
                        )
                    } else {
                        match install {
                            Install::Create(at) if code
                                == SyncManagerError::SYNCERR_FILE_ALREADY_EXIST =>
                                self.enter_create(at + 1),
                            _ => self.fail(ConduitError::Sync(code)),
                        }
                    }
                },
                _ => unreached(),
            },
            Stage::Finished => unreached(),
            _ => match response {
                Response::Status(code) => self.after_status(code),
                _ => unreached(),
            },
        };
        proof {
            use_type_invariant(&stepped.0);
        }
        stepped
    }

    /// Empties the list of the records that were read.
    fn forget_records(self) -> (emptied: SyncRun)
        requires
            self@.stage is Counting,
        ensures
            emptied@ == (RunView { collected: Seq::empty(), ..self@ }),
    {
        proof {
            use_type_invariant(&self);
        }
        let SyncRun { plan, stage, registered, token, collected, targets, installing, failure } =
            self;
        let emptied = SyncRun {
            plan,
            stage,
            registered,
            token,
            collected: Vec::new(),
            targets,
            installing,
            failure,
        };
        assert(emptied@.collected =~= Seq::empty());
        emptied
    }

    /// Adds a record to those that were read.
    fn keep_record(self, record: DrainedRecord) -> (kept: SyncRun)
        requires
            self@.stage is ReadingRecord,
        ensures
            kept@ == (
                RunView { collected: self@.collected.push((record.0@, record.1, record.2)), ..self@ }
            ),
    {
        proof {
            use_type_invariant(&self);
        }
        let SyncRun { plan, stage, registered, token, collected, targets, installing, failure } =
            self;
        let mut collected = collected;
        collected.push(record);
        let kept = SyncRun {
            plan,
            stage,
            registered,
            token,
            collected,
            targets,
            installing,
            failure,
        };
        assert(kept@.collected =~= self@.collected.push((record.0@, record.1, record.2)));
        kept
    }

    /// The step after a call that returned only a result code.
    fn after_status(self, code: SyncManagerError) -> (stepped: (SyncRun, Request))
        requires
            accepts(self@.stage, Response::Status(code)),
        ensures
            (stepped.0@, stepped.1@) == next(self@, Response::Status(code)),
    {
        proof {
            use_type_invariant(&self);
            self.lemma_lengths();
        }
        let ok = code == SyncManagerError::SYNCERR_NONE;
        let stage = self.stage;
        match stage {
            Stage::Announcing => if ok {
                self.enter_preferences()
            } else {
                self.fail(ConduitError::Sync(code))
            },
            Stage::OpeningPreferences => if !ok {
                self.fail(ConduitError::Sync(code))
            } else {
                match self.plan.preferences {
                    Some(PreferenceKind::Static(_)) => (
                        SyncRun { stage: Stage::Encoding, ..self },
                        Request::EncodeStatic,
                    ),
                    _ => self.read_preference(Attempt::First, default_buffer()),
                }
            },
            Stage::ReportingUnreadable => self.fail(ConduitError::PreferenceSerde),
            Stage::WritingPreference => if ok {
                self.close_preferences()
            } else {
                self.fail(ConduitError::Sync(code))
            },
            Stage::ClosingPreferences => if ok {
                self.enter_drain(0)
            } else {
                self.fail(ConduitError::Sync(code))
            },
            Stage::AnnouncingClose { closing, handle } => if ok {
                (
                    SyncRun { stage: Stage::Closing { closing, handle }, ..self },
                    Request::CloseDb(handle),
                )
            } else {
                self.fail(ConduitError::Sync(code))
            },
            Stage::Closing { closing, .. } => if ok {
                self.after_close(closing)
            } else {
                self.fail(ConduitError::Sync(code))
            },
            Stage::Removing { removal } => {
                let head = match code {
                    SyncManagerError::SYNCERR_NOT_FOUND => "Database not found: ",
                    SyncManagerError::SYNCERR_NONE => "Database deleted: ",
                    _ => "Error while deleting: ",
                };
                let line = named_line(head, self.removal_name(removal), "\n");
                (
                    SyncRun { stage: Stage::ReportingRemoval { removal, code }, ..self },
                    Request::Log(line),
                )
            },
            Stage::ReportingRemoval { removal, code: removed } => if !(removed
                == SyncManagerError::SYNCERR_NONE || removed
                == SyncManagerError::SYNCERR_NOT_FOUND) {
                self.fail(ConduitError::Sync(removed))
            } else if !ok {
                self.fail(ConduitError::Sync(code))
            } else {
                self.after_removal(removal)
            },
            Stage::AnnouncingCreated { install, handle } => if ok {
                self.enter_fill(install, handle, 0)
            } else {
                self.fail(ConduitError::Sync(code))
            },
            Stage::AnnouncingResource { install, handle, entry } => if ok {
                let request = entry_request(handle, &self.installing.content.entries[entry]);
                (SyncRun { stage: Stage::Writing { install, handle, entry }, ..self }, request)
            } else {
                self.fail(ConduitError::Sync(code))
            },
            Stage::Writing { install, handle, entry } => if ok {
                self.enter_fill(install, handle, entry + 1)
            } else {
                self.fail(ConduitError::Sync(code))
            },
            Stage::Concluding => {
                let token = self.token;
                (SyncRun { stage: Stage::Unregistering, ..self }, Request::Unregister(token))
            },
            Stage::Unregistering => {
                let SyncRun {
                    plan,
                    stage,
                    registered,
                    token,
                    collected,
                    targets,
                    installing,
                    failure,
                } = self;
                let result = match failure {
                    Some(error) => Err(error),
                    None => code.into_result(),
                };
                (
                    SyncRun {
                        plan,
                        stage: Stage::Finished,
                        registered,
                        token,
                        collected,
                        targets,
                        installing,
                        failure: None,
                    },
                    Request::Done(result),
                )
            },
            _ => unreached(),
        }
    }
}

} // verus!
