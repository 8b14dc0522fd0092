//! A conduit for a handheld's synchronization transport: a plan of
//! database and preference directives is declared with a builder and then
//! run, one transport call at a time, by a session state machine.
//!
//! The library decides; it never touches the transport itself. A run hands
//! out one [`session::Request`] at a time, and whoever drives it performs
//! the call and hands back the [`session::Response`].
//!
//! - [`syncmgr`] holds the builder, the plan and the conduit.
//! - [`session`] holds the run of a plan: its stages, its requests, and the
//!   step from one to the next.
//! - [`laws`] states what holds of every run: its order, its teardown, how
//!   often it reads and when it writes.
//! - [`handheld`] follows a run of overwrites to what it leaves on a
//!   handheld that keeps what it is told.
//! - [`syncmgr_extern`] holds what the transport exchanges with its
//!   caller, and [`database`] the content of a database.
//! - [`condmgr`] holds the installation of a conduit, [`error`] the result
//!   codes and the error of a conduit, and [`text`] the lines of the log.

pub mod condmgr;
pub mod database;
pub mod error;
pub mod handheld;
pub mod laws;
pub mod session;
pub mod syncmgr;
pub mod syncmgr_extern;
pub mod text;

pub use condmgr::{
    install_outcome, u32_to_nonzero_u8, ConduitInstallation, RegistrationCall,
};
pub use database::{Database, DatabaseContent, DatabaseEntry, DrainedRecord, RecordAttributes};
pub use error::{ConduitError, ConduitRegistrationError, SyncManagerError};
pub use session::{Request, Response, Stage, SyncRun, Transformed};
pub use syncmgr::{
    uchars_to_u32, Conduit, ConduitBuilder, ConduitDBSink, ConduitDBSource, DatabaseGenerator,
    Hooks, Plan, PlannedDatabase, PreferenceKind, PreferenceType,
};
pub use syncmgr_extern::{
    eConnType, eDbFlags, eDbOpenModes, eFirstSync, eSyncPref, eSyncRecAttrs, eSyncTypes,
    openDatabaseHandle, CCallAppParams, CCardInfo, CDbCreateDB, CDbGenInfo, CDbList,
    CPositionInfo, CRawPreferenceInfo, CRawRecordInfo, CSystemInfo, CUserIDInfo, CONDHANDLE,
};
