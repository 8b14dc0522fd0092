//! The structures that the synchronization transport exchanges with its
//! caller, as plain data: names are fixed arrays of bytes, and every buffer
//! is owned by the structure that describes it.

use vstd::prelude::*;

verus! {

/// Length of a database name on the wire, its closing zero included.
pub const SYNC_DB_NAMELEN: usize = 32;

/// Length of a database name on the wire, its closing zero included.
pub const DB_NAMELEN: usize = 32;

/// Size of the buffer for the remote user's name.
pub const SYNC_REMOTE_USERNAME_BUF_SIZE: usize = 64;

/// Size of the buffer for the remote user's password.
pub const SYNC_REMOTE_PASSWORD_BUF_SIZE: usize = 64;

/// Size of the buffer that every read starts with.
pub const DEFAULT_BUFFER_LEN: usize = 1024;

/// The token of a registered conduit.
#[allow(non_camel_case_types)]
pub type CONDHANDLE = u32;

/// The handle of an open remote database.
#[allow(non_camel_case_types)]
pub type openDatabaseHandle = u8;

/// How the desktop and the handheld are to be synchronized.
#[derive(Debug, Clone, Copy, PartialEq, Eq, Structural)]
#[allow(non_camel_case_types)]
pub enum eSyncTypes {
    eFast,
    eSlow,
    eHHtoPC,
    ePCtoHH,
    eInstall,
    eBackup,
    eDoNothing,
    eProfileInstall,
    eSyncTypeDoNotUse,
}

impl eSyncTypes {
    /// The number that stands for the value on the wire.
    pub open spec fn spec_code(self) -> u32 {
        match self {
            eSyncTypes::eFast => 0,
            eSyncTypes::eSlow => 1,
            eSyncTypes::eHHtoPC => 2,
            eSyncTypes::ePCtoHH => 3,
            eSyncTypes::eInstall => 4,
            eSyncTypes::eBackup => 5,
            eSyncTypes::eDoNothing => 6,
            eSyncTypes::eProfileInstall => 7,
            eSyncTypes::eSyncTypeDoNotUse => 0xffff_ffff,
        }
    }

    /// The number that stands for the value on the wire.
    pub fn code(&self) -> (code: u32)
        ensures
            code == self.spec_code(),
    {
        match self {
            eSyncTypes::eFast => 0,
            eSyncTypes::eSlow => 1,
            eSyncTypes::eHHtoPC => 2,
            eSyncTypes::ePCtoHH => 3,
            eSyncTypes::eInstall => 4,
            eSyncTypes::eBackup => 5,
            eSyncTypes::eDoNothing => 6,
            eSyncTypes::eProfileInstall => 7,
            eSyncTypes::eSyncTypeDoNotUse => 0xffff_ffff,
        }
    }
}

/// Which side synchronizes for the first time.
#[derive(Debug, Clone, Copy, PartialEq, Eq, Structural)]
#[allow(non_camel_case_types)]
pub enum eFirstSync {
    eNeither,
    ePC,
    eHH,
    eFirstSyncDoNotUse,
}

impl eFirstSync {
    /// The number that stands for the value on the wire.
    pub open spec fn spec_code(self) -> u32 {
        match self {
            eFirstSync::eNeither => 0,
            eFirstSync::ePC => 1,
            eFirstSync::eHH => 2,
            eFirstSync::eFirstSyncDoNotUse => 0xffff_ffff,
        }
    }

    /// The number that stands for the value on the wire.
    pub fn code(&self) -> (code: u32)
        ensures
            code == self.spec_code(),
    {
        match self {
            eFirstSync::eNeither => 0,
            eFirstSync::ePC => 1,
            eFirstSync::eHH => 2,
            eFirstSync::eFirstSyncDoNotUse => 0xffff_ffff,
        }
    }
}

/// How the handheld is connected.
#[derive(Debug, Clone, Copy, PartialEq, Eq, Structural)]
#[allow(non_camel_case_types)]
pub enum eConnType {
    eCable,
    eModemConnType,
    eConnTypeDoNotUse,
}

impl eConnType {
    /// The number that stands for the value on the wire.
    pub open spec fn spec_code(self) -> u32 {
        match self {
            eConnType::eCable => 0,
            eConnType::eModemConnType => 1,
            eConnType::eConnTypeDoNotUse => 0xffff_ffff,
        }
    }

    /// The number that stands for the value on the wire.
    pub fn code(&self) -> (code: u32)
        ensures
            code == self.spec_code(),
    {
        match self {
            eConnType::eCable => 0,
            eConnType::eModemConnType => 1,
            eConnType::eConnTypeDoNotUse => 0xffff_ffff,
        }
    }
}

/// How long a chosen kind of synchronization stays in force.
#[derive(Debug, Clone, Copy, PartialEq, Eq, Structural)]
#[allow(non_camel_case_types)]
pub enum eSyncPref {
    eNoPreference,
    ePermanentPreference,
    eTemporaryPreference,
    eSyncPrefDoNotUse,
}

impl eSyncPref {
    /// The number that stands for the value on the wire.
    pub open spec fn spec_code(self) -> u32 {
        match self {
            eSyncPref::eNoPreference => 0,
            eSyncPref::ePermanentPreference => 1,
            eSyncPref::eTemporaryPreference => 2,
            eSyncPref::eSyncPrefDoNotUse => 0xffff_ffff,
        }
    }

    /// The number that stands for the value on the wire.
    pub fn code(&self) -> (code: u32)
        ensures
            code == self.spec_code(),
    {
        match self {
            eSyncPref::eNoPreference => 0,
            eSyncPref::ePermanentPreference => 1,
            eSyncPref::eTemporaryPreference => 2,
            eSyncPref::eSyncPrefDoNotUse => 0xffff_ffff,
        }
    }
}

/// The flags of a remote database, as a set of bits.
#[derive(Debug, Clone, Copy, PartialEq, Eq, Structural)]
#[allow(non_camel_case_types)]
pub struct eDbFlags {
    pub bits: u32,
}

#[allow(non_snake_case)]
impl eDbFlags {
    /// A database of records: no bit is set.
    pub fn eRecord() -> (flags: Self)
        ensures
            flags.bits == 0x0000,
    {
        eDbFlags { bits: 0x0000 }
    }

    /// A database of resources.
    pub fn eResource() -> (flags: Self)
        ensures
            flags.bits == 0x0001,
    {
        eDbFlags { bits: 0x0001 }
    }

    /// A database that cannot be written.
    pub fn eReadOnly() -> (flags: Self)
        ensures
            flags.bits == 0x0002,
    {
        eDbFlags { bits: 0x0002 }
    }

    /// The application information block has changed.
    pub fn eAppInfoDirty() -> (flags: Self)
        ensures
            flags.bits == 0x0004,
    {
        eDbFlags { bits: 0x0004 }
    }

    /// A database that is backed up when no conduit claims it.
    pub fn eBackupDb() -> (flags: Self)
        ensures
            flags.bits == 0x0008,
    {
        eDbFlags { bits: 0x0008 }
    }

    /// A newer version may be installed over an open database.
    pub fn eOkToInstallNewer() -> (flags: Self)
        ensures
            flags.bits == 0x0010,
    {
        eDbFlags { bits: 0x0010 }
    }

    /// The handheld is reset after the database is installed.
    pub fn eResetAfterInstall() -> (flags: Self)
        ensures
            flags.bits == 0x0020,
    {
        eDbFlags { bits: 0x0020 }
    }

    /// The database may not be copied to another handheld.
    pub fn eCopyPRevention() -> (flags: Self)
        ensures
            flags.bits == 0x0040,
    {
        eDbFlags { bits: 0x0040 }
    }

    /// The database is open.
    pub fn eOpenDb() -> (flags: Self)
        ensures
            flags.bits == 0x8000,
    {
        eDbFlags { bits: 0x8000 }
    }

    /// The bits of the set.
    pub fn bits(&self) -> (bits: u32)
        ensures
            bits == self.bits,
    {
        self.bits
    }

    /// The set that holds every flag of either set.
    pub fn union(self, other: Self) -> (both: Self)
        ensures
            both.bits == self.bits | other.bits,
    {
        eDbFlags { bits: self.bits | other.bits }
    }

    /// Whether every flag of `other` is in this set.
    pub fn contains(&self, other: Self) -> (all: bool)
        ensures
            all == (self.bits & other.bits == other.bits),
    {
        self.bits & other.bits == other.bits
    }
}

/// The attributes of a remote record, as a set of bits.
#[derive(Debug, Clone, Copy, PartialEq, Eq, Structural)]
#[allow(non_camel_case_types)]
pub struct eSyncRecAttrs {
    pub bits: u32,
}

#[allow(non_snake_case)]
impl eSyncRecAttrs {
    /// The record has been deleted on the handheld.
    pub fn eRecAttrDeleted() -> (flags: Self)
        ensures
            flags.bits == 0x80,
    {
        eSyncRecAttrs { bits: 0x80 }
    }

    /// The record has been modified.
    pub fn eRecAttrDirty() -> (flags: Self)
        ensures
            flags.bits == 0x40,
    {
        eSyncRecAttrs { bits: 0x40 }
    }

    /// The record is in use by an application on the handheld. A caller
    /// only ever reads this flag.
    pub fn eRecAttrBusy() -> (flags: Self)
        ensures
            flags.bits == 0x20,
    {
        eSyncRecAttrs { bits: 0x20 }
    }

    /// The record is private: it is shown only with a password.
    pub fn eRecAttrSecret() -> (flags: Self)
        ensures
            flags.bits == 0x10,
    {
        eSyncRecAttrs { bits: 0x10 }
    }

    /// The record is marked to be archived.
    pub fn eRecAttrArchived() -> (flags: Self)
        ensures
            flags.bits == 0x08,
    {
        eSyncRecAttrs { bits: 0x08 }
    }

    /// The bits of the set.
    pub fn bits(&self) -> (bits: u32)
        ensures
            bits == self.bits,
    {
        self.bits
    }

    /// The set that holds every flag of either set.
    pub fn union(self, other: Self) -> (both: Self)
        ensures
            both.bits == self.bits | other.bits,
    {
        eSyncRecAttrs { bits: self.bits | other.bits }
    }

    /// Whether every flag of `other` is in this set.
    pub fn contains(&self, other: Self) -> (all: bool)
        ensures
            all == (self.bits & other.bits == other.bits),
    {
        self.bits & other.bits == other.bits
    }
}

/// The modes in which a remote database is opened, as a set of bits.
#[derive(Debug, Clone, Copy, PartialEq, Eq, Structural)]
#[allow(non_camel_case_types)]
pub struct eDbOpenModes {
    pub bits: u8,
}

#[allow(non_snake_case)]
impl eDbOpenModes {
    /// Private records are shown.
    pub fn eDbShowSecret() -> (flags: Self)
        ensures
            flags.bits == 0x10,
    {
        eDbOpenModes { bits: 0x10 }
    }

    /// Nobody else may open the database meanwhile.
    pub fn eDbExclusive() -> (flags: Self)
        ensures
            flags.bits == 0x20,
    {
        eDbOpenModes { bits: 0x20 }
    }

    /// The database is opened for writing.
    pub fn eDbWrite() -> (flags: Self)
        ensures
            flags.bits == 0x40,
    {
        eDbOpenModes { bits: 0x40 }
    }

    /// The database is opened for reading.
    pub fn eDbRead() -> (flags: Self)
        ensures
            flags.bits == 0x80,
    {
        eDbOpenModes { bits: 0x80 }
    }

    /// The bits of the set.
    pub fn bits(&self) -> (bits: u8)
        ensures
            bits == self.bits,
    {
        self.bits
    }

    /// The set that holds every flag of either set.
    pub fn union(self, other: Self) -> (both: Self)
        ensures
            both.bits == self.bits | other.bits,
    {
        eDbOpenModes { bits: self.bits | other.bits }
    }

    /// Whether every flag of `other` is in this set.
    pub fn contains(&self, other: Self) -> (all: bool)
        ensures
            all == (self.bits & other.bits == other.bits),
    {
        self.bits & other.bits == other.bits
    }
}

/// The mode in which the engine opens a database that it drains: for
/// reading and writing, and for itself alone.
pub open spec fn spec_drain_mode() -> eDbOpenModes {
    eDbOpenModes { bits: 0xe0 }
}

/// The mode in which the engine opens a database that it drains.
pub fn drain_mode() -> (mode: eDbOpenModes)
    ensures
        mode == spec_drain_mode(),
{
    let mode = eDbOpenModes::eDbExclusive().union(eDbOpenModes::eDbRead()).union(
        eDbOpenModes::eDbWrite(),
    );
    assert(0x20u8 | 0x80u8 | 0x40u8 == 0xe0u8) by (bit_vector);
    mode
}

/// A database name as it goes on the wire: the first 31 bytes of the name,
/// then zeros up to 32 bytes, so that the last byte is always zero.
pub open spec fn spec_wire_name(name: Seq<u8>) -> Seq<u8> {
    Seq::new(
        DB_NAMELEN as nat,
        |i: int|
            if i < name.len() && i < DB_NAMELEN - 1 {
                name[i]
            } else {
                0u8
            },
    )
}

/// Lays a database name out for the wire: at most 31 bytes of it, padded
/// with zeros to 32.
pub fn wire_name(name: &Vec<u8>) -> (wire: [u8; 32])
    ensures
        wire@ == spec_wire_name(name@),
{
    let mut wire: [u8; 32] = [0u8; 32];
    let mut idx: usize = 0;
    while idx < name.len() && idx < DB_NAMELEN - 1
        invariant
            idx <= name.len(),
            idx <= DB_NAMELEN - 1,
            wire@.len() == 32,
            forall|i: int| 0 <= i < idx ==> wire@[i] == name@[i],
            forall|i: int| idx <= i < 32 ==> wire@[i] == 0u8,
        decreases name.len() - idx,
    {
        wire[idx] = name[idx];
        idx += 1;
    }
    assert(wire@ =~= spec_wire_name(name@));
    wire
}

/// The low 16 bits of a length: what a 16-bit size field keeps of it.
pub open spec fn spec_low16(len: int) -> int {
    len % 0x1_0000
}

/// The low 32 bits of a length: what a 32-bit size field keeps of it.
pub open spec fn spec_low32(len: int) -> int {
    len % 0x1_0000_0000
}

/// What a call to create a remote database carries, and what it brings
/// back: the transport fills in the handle.
#[derive(Debug, Clone, Copy, PartialEq, Eq)]
#[allow(non_snake_case)]
pub struct CDbCreateDB {
    /// Filled in by the transport on return.
    pub m_FileHandle: openDatabaseHandle,
    /// The creator of the new database.
    pub m_Creator: u32,
    /// Record or resource database, and its other flags.
    pub m_Flags: u32,
    /// The card on which the database is created.
    pub m_CardNo: u8,
    /// The name of the database, closed by a zero.
    pub m_Name: [u8; 32],
    /// The four-character type of the new database.
    pub m_Type: u32,
    pub m_Version: u16,
    pub m_dwReserved: u32,
}

/// A [`CDbCreateDB`] with its name as a sequence of bytes.
pub struct CreateDbView {
    pub handle: openDatabaseHandle,
    pub creator: u32,
    pub flags: u32,
    pub card_no: u8,
    pub name: Seq<u8>,
    pub type_code: u32,
    pub version: u16,
    pub reserved: u32,
}

impl View for CDbCreateDB {
    type V = CreateDbView;

    open spec fn view(&self) -> CreateDbView {
        CreateDbView {
            handle: self.m_FileHandle,
            creator: self.m_Creator,
            flags: self.m_Flags,
            card_no: self.m_CardNo,
            name: self.m_Name@,
            type_code: self.m_Type,
            version: self.m_Version,
            reserved: self.m_dwReserved,
        }
    }
}

impl CDbCreateDB {
    /// The request that [`CDbCreateDB::new`] builds.
    pub open spec fn spec_new(to_create: Seq<u8>, creator_id: u32, ty: u32, resource: bool)
        -> CreateDbView {
        CreateDbView {
            handle: 0,
            creator: creator_id,
            flags: if resource {
                0x0001
            } else {
                0x0000
            },
            card_no: 0,
            name: spec_wire_name(to_create),
            type_code: ty,
            version: 0,
            reserved: 0,
        }
    }

    /// The request to create the database `to_create` on card 0, with the
    /// given creator and type, for resources or for records. The name goes
    /// in cut to 31 bytes; the handle is zero until the transport fills it.
    pub fn new(to_create: Vec<u8>, creator_id: u32, ty: u32, resource: bool) -> (request: Self)
        ensures
            request@ == Self::spec_new(to_create@, creator_id, ty, resource),
    {
        let flags = if resource {
            eDbFlags::eResource().bits()
        } else {
            eDbFlags::eRecord().bits()
        };
        let name = wire_name(&to_create);
        CDbCreateDB {
            m_FileHandle: 0,
            m_Creator: creator_id,
            m_Flags: flags,
            m_CardNo: 0,
            m_Name: name,
            m_Type: ty,
            m_Version: 0,
            m_dwReserved: 0,
        }
    }

    /// The handle of the database that the call created.
    pub fn handle(self) -> (handle: openDatabaseHandle)
        ensures
            handle == self.m_FileHandle,
    {
        self.m_FileHandle
    }
}

/// What a call to read or write the application or sort block of a
/// database carries.
#[derive(Debug, Clone, PartialEq, Eq)]
#[allow(non_snake_case)]
pub struct CDbGenInfo {
    /// The name of the remote database.
    pub m_FileName: [u8; 32],
    /// For a read, the size of the buffer; for a write, the size of the
    /// block.
    pub m_TotalBytes: i16,
    /// After a read, the size of the block on the handheld, which may be
    /// more than the buffer took; for a write, the size of the block.
    pub m_BytesRead: i16,
    /// The caller's buffer.
    pub m_pBytes: Vec<u8>,
    pub m_dwReserved: i32,
}

/// What a call on one record or resource carries and brings back.
#[derive(Debug, Clone, PartialEq, Eq)]
#[allow(non_snake_case)]
pub struct CRawRecordInfo {
    /// The open database.
    pub m_FileHandle: openDatabaseHandle,
    /// The id of the record, or the type of the resource. Supplied for a
    /// read by id, filled in by the handheld for every other read.
    pub m_RecId: u32,
    /// The index of the record, or the id of the resource.
    pub m_RecIndex: u16,
    /// The attribute bits: filled in by the handheld for a read, supplied
    /// for a write.
    pub m_Attribs: u8,
    /// The category: filled in by the handheld for a read, supplied for a
    /// write.
    pub m_CatId: i16,
    pub m_ConduitId: i32,
    /// After a read, the size of the record on the handheld, which may be
    /// more than the buffer took; for a write, the size of the data.
    pub m_RecSize: u32,
    /// For a read, the size of the buffer; for a write, the size of the
    /// data. The field is 16 bits wide: a record has fewer than 64K bytes.
    pub m_TotalBytes: u16,
    /// The buffer that the call reads into or writes from.
    pub m_pBytes: Vec<u8>,
    pub m_dwReserved: u32,
}

/// A [`CRawRecordInfo`] with its buffer as a sequence of bytes.
pub struct RawRecordView {
    pub handle: openDatabaseHandle,
    pub rec_id: u32,
    pub rec_index: u16,
    pub attribs: u8,
    pub cat_id: i16,
    pub conduit_id: i32,
    pub rec_size: u32,
    pub total_bytes: u16,
    pub bytes: Seq<u8>,
    pub reserved: u32,
}

impl View for CRawRecordInfo {
    type V = RawRecordView;

    open spec fn view(&self) -> RawRecordView {
        RawRecordView {
            handle: self.m_FileHandle,
            rec_id: self.m_RecId,
            rec_index: self.m_RecIndex,
            attribs: self.m_Attribs,
            cat_id: self.m_CatId,
            conduit_id: self.m_ConduitId,
            rec_size: self.m_RecSize,
            total_bytes: self.m_TotalBytes,
            bytes: self.m_pBytes@,
            reserved: self.m_dwReserved,
        }
    }
}

impl CRawRecordInfo {
    /// The request that [`CRawRecordInfo::new_for_writing`] builds.
    pub open spec fn spec_new_for_writing(
        handle: openDatabaseHandle,
        attribs: u8,
        cat_id: i16,
        resource_type_and_id: Option<(u32, u16)>,
        bytes: Seq<u8>,
    ) -> RawRecordView {
        RawRecordView {
            handle,
            rec_id: match resource_type_and_id {
                Some(pair) => pair.0,
                None => 0,
            },
            rec_index: match resource_type_and_id {
                Some(pair) => pair.1,
                None => 0,
            },
            attribs,
            cat_id,
            conduit_id: 0,
            rec_size: spec_low32(bytes.len() as int) as u32,
            total_bytes: spec_low16(bytes.len() as int) as u16,
            bytes,
            reserved: 0,
        }
    }

    /// The request to write `bytes` into the open database `handle`: as a
    /// record with the given attributes and category, whose id the handheld
    /// assigns, or, where a type and an id are given, as that resource.
    /// Both size fields hold the length of the data, as far as they are
    /// wide.
    #[allow(non_snake_case)]
    pub fn new_for_writing(
        m_FileHandle: openDatabaseHandle,
        m_Attribs: u8,
        m_CatId: i16,
        resource_type_and_id: Option<(u32, u16)>,
        bytes: Vec<u8>,
    ) -> (request: Self)
        ensures
            request@ == Self::spec_new_for_writing(
                m_FileHandle,
                m_Attribs,
                m_CatId,
                resource_type_and_id,
                bytes@,
            ),
    {
        let (rec_id, rec_index) = match resource_type_and_id {
            Some((ty, id)) => (ty, id),
            None => (0u32, 0u16),
        };
        let rec_size = (bytes.len() as u64 % 0x1_0000_0000) as u32;
        let total_bytes = (bytes.len() % 0x1_0000) as u16;
        CRawRecordInfo {
            m_FileHandle,
            m_RecId: rec_id,
            m_RecIndex: rec_index,
            m_Attribs,
            m_CatId,
            m_ConduitId: 0,
            m_RecSize: rec_size,
            m_TotalBytes: total_bytes,
            m_pBytes: bytes,
            m_dwReserved: 0,
        }
    }

    /// The request that [`CRawRecordInfo::new_for_reading_by_index`] builds.
    pub open spec fn spec_new_for_reading_by_index(
        handle: openDatabaseHandle,
        index: u16,
        bytes: Seq<u8>,
    ) -> RawRecordView {
        RawRecordView {
            handle,
            rec_id: 0,
            rec_index: index,
            attribs: 0,
            cat_id: 0,
            conduit_id: 0,
            rec_size: 0,
            total_bytes: spec_low16(bytes.len() as int) as u16,
            bytes,
            reserved: 0,
        }
    }

    /// The request to read the record at `index` of the open database
    /// `handle` into the buffer `bytes`, whose length goes in as the buffer
    /// size, as far as that field is wide.
    pub fn new_for_reading_by_index(handle: openDatabaseHandle, index: u16, bytes: Vec<u8>) -> (request: Self)
        ensures
            request@ == Self::spec_new_for_reading_by_index(handle, index, bytes@),
    {
        let total_bytes = (bytes.len() % 0x1_0000) as u16;
        CRawRecordInfo {
            m_FileHandle: handle,
            m_RecId: 0,
            m_RecIndex: index,
            m_Attribs: 0,
            m_CatId: 0,
            m_ConduitId: 0,
            m_RecSize: 0,
            m_TotalBytes: total_bytes,
            m_pBytes: bytes,
            m_dwReserved: 0,
        }
    }
}

/// What a call to read or write a preference block carries and brings
/// back.
#[derive(Debug, Clone, PartialEq, Eq)]
#[allow(non_snake_case)]
pub struct CRawPreferenceInfo {
    pub m_version: u16,
    /// The creator that owns the preference.
    pub m_creator: u32,
    /// The id of the preference among those of its creator.
    pub m_prefId: u16,
    /// How many bytes a read asks for; `0xffff` asks for all of them.
    pub m_reqBytes: u16,
    /// How many bytes a read returned.
    pub m_retBytes: u16,
    /// After a read, the size of the preference on the handheld, which may
    /// be more than the buffer took.
    pub m_actSize: u16,
    /// Whether the call is on the preferences that are backed up.
    pub m_backedUp: i32,
    /// For a read, the size of the buffer; for a write, the size of the
    /// data; both at most `i32::MAX`.
    pub m_nBytes: i32,
    /// The buffer that the call reads into or writes from.
    pub m_pBytes: Vec<u8>,
    pub m_dwReserved: u32,
}

/// A [`CRawPreferenceInfo`] with its buffer as a sequence of bytes.
pub struct RawPreferenceView {
    pub version: u16,
    pub creator: u32,
    pub pref_id: u16,
    pub req_bytes: u16,
    pub ret_bytes: u16,
    pub act_size: u16,
    pub backed_up: i32,
    pub n_bytes: i32,
    pub bytes: Seq<u8>,
    pub reserved: u32,
}

impl View for CRawPreferenceInfo {
    type V = RawPreferenceView;

    open spec fn view(&self) -> RawPreferenceView {
        RawPreferenceView {
            version: self.m_version,
            creator: self.m_creator,
            pref_id: self.m_prefId,
            req_bytes: self.m_reqBytes,
            ret_bytes: self.m_retBytes,
            act_size: self.m_actSize,
            backed_up: self.m_backedUp,
            n_bytes: self.m_nBytes,
            bytes: self.m_pBytes@,
            reserved: self.m_dwReserved,
        }
    }
}

impl CRawPreferenceInfo {
    /// The request that [`CRawPreferenceInfo::new_with_buffer`] builds.
    pub open spec fn spec_new_with_buffer(backed_up: i32, creator: u32, pref_id: u16, bytes: Seq<u8>)
        -> RawPreferenceView {
        RawPreferenceView {
            version: 0,
            creator,
            pref_id,
            req_bytes: 0xffff,
            ret_bytes: 0,
            act_size: 0,
            backed_up,
            n_bytes: if bytes.len() <= i32::MAX {
                bytes.len() as i32
            } else {
                i32::MAX
            },
            bytes,
            reserved: 0,
        }
    }

    /// The request to read the whole preference `pref_id` of `creator` into
    /// the buffer `bytes`, or to write `bytes` as that preference.
    pub fn new_with_buffer(backed_up: i32, creator: u32, pref_id: u16, bytes: Vec<u8>) -> (request: Self)
        ensures
            request@ == Self::spec_new_with_buffer(backed_up, creator, pref_id, bytes@),
    {
        let n_bytes: i32 = if bytes.len() <= 0x7fff_ffff {
            bytes.len() as i32
        } else {
            0x7fff_ffff
        };
        CRawPreferenceInfo {
            m_version: 0,
            m_creator: creator,
            m_prefId: pref_id,
            m_reqBytes: 0xffff,
            m_retBytes: 0,
            m_actSize: 0,
            m_backedUp: backed_up,
            m_nBytes: n_bytes,
            m_pBytes: bytes,
            m_dwReserved: 0,
        }
    }

    /// The size that the handheld reported for the preference: what a
    /// buffer must hold to take all of it.
    pub fn get_required_size(&self) -> (size: u16)
        ensures
            size == self.m_actSize,
    {
        self.m_actSize
    }
}

/// What the handheld knows of its user.
#[derive(Debug, Clone, PartialEq, Eq)]
#[allow(non_snake_case)]
pub struct CUserIDInfo {
    pub m_pName: [u8; 64],
    pub m_NameLength: i16,
    pub m_Password: [u8; 64],
    pub m_PasswdLength: i16,
    /// Date and time of the last synchronization.
    pub m_LastSyncDate: i32,
    pub m_LastSyncPC: u32,
    pub m_Id: u32,
    pub m_ViewerId: u32,
    pub m_dwReserved: u32,
}

/// One entry of a listing of the remote databases.
#[derive(Debug, Clone, PartialEq, Eq)]
#[allow(non_snake_case)]
pub struct CDbList {
    pub m_CardNum: i16,
    /// The flags of the database, see [`eDbFlags`].
    pub m_DbFlags: u16,
    pub m_DbType: u32,
    pub m_Name: [u8; 32],
    pub m_Creator: u32,
    pub m_Version: u16,
    pub m_ModNumber: u32,
    pub m_Index: u16,
    pub m_CreateDate: i32,
    pub m_ModDate: i32,
    pub m_BackupDate: i32,
    pub m_miscFlags: i32,
    pub m_RecCount: i32,
    pub m_dwReserved: i32,
}

/// What the handheld tells of its system software.
#[derive(Debug, Clone, PartialEq, Eq)]
#[allow(non_snake_case)]
pub struct CSystemInfo {
    pub m_RomSoftVersion: u32,
    pub m_LocalId: u32,
    /// The length of the product id that the handheld returned.
    pub m_ProdIdLength: u8,
    /// The size of the buffer for the product id.
    pub m_AllocedLen: u8,
    /// The buffer for the product id.
    pub m_ProductIdText: Vec<u8>,
    pub m_dwReserved: u32,
}

impl CSystemInfo {
    /// The most bytes that a product id takes.
    pub const SYNC_MAX_PROD_ID_SIZE: usize = 255;
}

/// What the handheld tells of one memory card.
#[derive(Debug, Clone, PartialEq, Eq)]
#[allow(non_snake_case)]
pub struct CCardInfo {
    pub m_CardNo: u8,
    pub m_CardVersion: u16,
    pub m_CreateDate: i32,
    pub m_RomSize: u32,
    pub m_RamSize: u32,
    pub m_FreeRam: u32,
    pub m_CardNameLen: u8,
    pub m_ManufNameLen: u8,
    pub m_CardName: [u8; 32],
    pub m_ManufName: [u8; 32],
    /// The number of databases in ROM.
    pub m_romDbCount: u16,
    /// The number of databases in RAM.
    pub m_ramDbCount: u16,
    pub m_dwReserved: u32,
}

impl CCardInfo {
    /// Size of the buffer for the name of a card.
    pub const SYNC_REMOTE_CARDNAME_BUF_SIZE: usize = 32;

    /// Size of the buffer for the name of a card's maker.
    pub const SYNC_REMOTE_MANUFNAME_BUF_SIZE: usize = 32;
}

/// The parameters of a call into an application on the handheld.
#[derive(Debug, Clone, PartialEq, Eq)]
#[allow(non_snake_case)]
pub struct CCallAppParams {
    pub m_CreatorID: u32,
    pub m_ActionCode: u16,
    pub m_ResultCode: u16,
    pub m_ParamSize: u16,
    /// The parameter block.
    pub m_pParams: Vec<u8>,
}

/// What a call to read the positions of records carries and brings back.
#[derive(Debug, Clone, PartialEq, Eq)]
#[allow(non_snake_case)]
pub struct CPositionInfo {
    /// The open database.
    pub m_FileHandle: openDatabaseHandle,
    /// The first position to read.
    pub m_FirstPos: u16,
    /// The most record ids to read.
    pub m_MaxEntries: u16,
    /// How many were read.
    pub m_NumReadIn: u16,
    /// The length of the buffer.
    pub m_TotalBytes: u16,
    /// The buffer that takes the record ids.
    pub m_pBytes: Vec<u8>,
}

} // verus!
