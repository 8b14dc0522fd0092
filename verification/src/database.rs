//! The content of a database as the conduit sees it: a listing of records
//! and resources, each with its payload.

use vstd::prelude::*;

verus! {

/// The attributes of a record: five flags and the category.
#[derive(Debug, Clone, Copy, PartialEq, Eq, Structural)]
pub struct RecordAttributes {
    /// The record has been deleted on the handheld.
    pub deleted: bool,
    /// The record has been modified.
    pub dirty: bool,
    /// The record is in use on the handheld.
    pub busy: bool,
    /// The record is private.
    pub secret: bool,
    /// The record is marked to be archived.
    pub archived: bool,
    /// The category of the record.
    pub category: i16,
}

impl RecordAttributes {
    /// The attributes that an attribute byte and a category of the
    /// transport stand for: one flag for each of the five high bits.
    pub open spec fn spec_from_transport(attribs: u8, category: i16) -> RecordAttributes {
        RecordAttributes {
            deleted: attribs & 0x80 != 0,
            dirty: attribs & 0x40 != 0,
            busy: attribs & 0x20 != 0,
            secret: attribs & 0x10 != 0,
            archived: attribs & 0x08 != 0,
            category,
        }
    }

    /// The attribute byte of the transport that holds the five flags; its
    /// three low bits are zero.
    pub open spec fn spec_bits(self) -> u8 {
        (if self.deleted {
            0x80u8
        } else {
            0u8
        }) | (if self.dirty {
            0x40u8
        } else {
            0u8
        }) | (if self.busy {
            0x20u8
        } else {
            0u8
        }) | (if self.secret {
            0x10u8
        } else {
            0u8
        }) | (if self.archived {
            0x08u8
        } else {
            0u8
        })
    }

    /// Reads the attribute byte and the category that the transport
    /// reports for a record.
    pub fn from_transport(attribs: u8, category: i16) -> (attributes: RecordAttributes)
        ensures
            attributes == Self::spec_from_transport(attribs, category),
    {
        RecordAttributes {
            deleted: attribs & 0x80 != 0,
            dirty: attribs & 0x40 != 0,
            busy: attribs & 0x20 != 0,
            secret: attribs & 0x10 != 0,
            archived: attribs & 0x08 != 0,
            category,
        }
    }

    /// The attribute byte of the transport that holds the five flags.
    pub fn bits(&self) -> (bits: u8)
        ensures
            bits == self.spec_bits(),
    {
        let deleted: u8 = if self.deleted {
            0x80
        } else {
            0
        };
        let dirty: u8 = if self.dirty {
            0x40
        } else {
            0
        };
        let busy: u8 = if self.busy {
            0x20
        } else {
            0
        };
        let secret: u8 = if self.secret {
            0x10
        } else {
            0
        };
        let archived: u8 = if self.archived {
            0x08
        } else {
            0
        };
        deleted | dirty | busy | secret | archived
    }
}

/// The attribute byte loses nothing of the flags: reading the byte of some
/// attributes, with their category, gives the attributes back; and the byte
/// of what was read from a byte is that byte without its three low bits.
pub proof fn lemma_attribute_bits_round_trip(attributes: RecordAttributes, attribs: u8)
    ensures
        RecordAttributes::spec_from_transport(attributes.spec_bits(), attributes.category)
            == attributes,
        RecordAttributes::spec_from_transport(attribs, attributes.category).spec_bits() == attribs
            & 0xf8,
{
    let a: u8 = if attributes.deleted {
        0x80
    } else {
        0
    };
    let b: u8 = if attributes.dirty {
        0x40
    } else {
        0
    };
    let c: u8 = if attributes.busy {
        0x20
    } else {
        0
    };
    let d: u8 = if attributes.secret {
        0x10
    } else {
        0
    };
    let e: u8 = if attributes.archived {
        0x08
    } else {
        0
    };
    let bits = a | b | c | d | e;
    assert((bits & 0x80 != 0) == (a == 0x80) && (bits & 0x40 != 0) == (b == 0x40) && (bits & 0x20
        != 0) == (c == 0x20) && (bits & 0x10 != 0) == (d == 0x10) && (bits & 0x08 != 0) == (e
        == 0x08)) by (bit_vector)
        requires
            bits == a | b | c | d | e,
            a == 0x80 || a == 0,
            b == 0x40 || b == 0,
            c == 0x20 || c == 0,
            d == 0x10 || d == 0,
            e == 0x08 || e == 0,
    ;
    let a2: u8 = if attribs & 0x80 != 0 {
        0x80
    } else {
        0
    };
    let b2: u8 = if attribs & 0x40 != 0 {
        0x40
    } else {
        0
    };
    let c2: u8 = if attribs & 0x20 != 0 {
        0x20
    } else {
        0
    };
    let d2: u8 = if attribs & 0x10 != 0 {
        0x10
    } else {
        0
    };
    let e2: u8 = if attribs & 0x08 != 0 {
        0x08
    } else {
        0
    };
    assert(a2 | b2 | c2 | d2 | e2 == attribs & 0xf8) by (bit_vector)
        requires
            a2 == (if attribs & 0x80 != 0 {
                0x80u8
            } else {
                0u8
            }),
            b2 == (if attribs & 0x40 != 0 {
                0x40u8
            } else {
                0u8
            }),
            c2 == (if attribs & 0x20 != 0 {
                0x20u8
            } else {
                0u8
            }),
            d2 == (if attribs & 0x10 != 0 {
                0x10u8
            } else {
                0u8
            }),
            e2 == (if attribs & 0x08 != 0 {
                0x08u8
            } else {
                0u8
            }),
    ;
}

/// One entry of a database: a record with its attributes, or a resource
/// with its four-character type and its id; each with its payload.
#[derive(Debug, PartialEq, Eq)]
pub enum DatabaseEntry {
    Record { attributes: RecordAttributes, data: Vec<u8> },
    Resource { name: [u8; 4], id: u16, data: Vec<u8> },
}

/// A [`DatabaseEntry`] with its payload as a sequence of bytes.
pub enum EntryView {
    Record { attributes: RecordAttributes, data: Seq<u8> },
    Resource { name: [u8; 4], id: u16, data: Seq<u8> },
}

impl View for DatabaseEntry {
    type V = EntryView;

    open spec fn view(&self) -> EntryView {
        match *self {
            DatabaseEntry::Record { attributes, data } => EntryView::Record {
                attributes,
                data: data@,
            },
            DatabaseEntry::Resource { name, id, data } => EntryView::Resource {
                name,
                id,
                data: data@,
            },
        }
    }
}

impl Clone for DatabaseEntry {
    fn clone(&self) -> (copy: Self)
        ensures
            copy@ == self@,
    {
        match self {
            DatabaseEntry::Record { attributes, data } => DatabaseEntry::Record {
                attributes: *attributes,
                data: data.clone(),
            },
            DatabaseEntry::Resource { name, id, data } => DatabaseEntry::Resource {
                name: *name,
                id: *id,
                data: data.clone(),
            },
        }
    }
}

/// The entries of a database, in the order of its listing.
#[derive(Debug, PartialEq, Eq)]
pub struct DatabaseContent {
    pub entries: Vec<DatabaseEntry>,
}

impl View for DatabaseContent {
    type V = Seq<EntryView>;

    open spec fn view(&self) -> Seq<EntryView> {
        self.entries@.map_values(|entry: DatabaseEntry| entry@)
    }
}

impl Clone for DatabaseContent {
    fn clone(&self) -> (copy: Self)
        ensures
            copy@ == self@,
    {
        let mut entries: Vec<DatabaseEntry> = Vec::new();
        let mut at: usize = 0;
        while at < self.entries.len()
            invariant
                at <= self.entries.len(),
                entries.len() == at,
                forall|i: int| 0 <= i < at ==> entries@[i]@ == self.entries@[i]@,
            decreases self.entries.len() - at,
        {
            entries.push(self.entries[at].clone());
            at += 1;
        }
        let copy = DatabaseContent { entries };
        assert(copy@ =~= self@);
        copy
    }
}

/// A database to install on the handheld: its name, its type and its
/// content.
#[derive(Debug, PartialEq, Eq)]
pub struct Database {
    pub name: Vec<u8>,
    /// The four-character type, packed most significant byte first.
    pub type_code: u32,
    pub content: DatabaseContent,
}

/// A [`Database`] with its name and payloads as sequences of bytes.
pub struct DatabaseView {
    pub name: Seq<u8>,
    pub type_code: u32,
    pub content: Seq<EntryView>,
}

impl View for Database {
    type V = DatabaseView;

    open spec fn view(&self) -> DatabaseView {
        DatabaseView { name: self.name@, type_code: self.type_code, content: self.content@ }
    }
}

impl Database {
    /// A database has no more entries than a machine can count.
    pub proof fn lemma_fits(&self)
        ensures
            self@.content.len() <= usize::MAX,
    {
        assert(self@.content.len() == self.content.entries.len());
    }
}

impl Clone for Database {
    fn clone(&self) -> (copy: Self)
        ensures
            copy@ == self@,
    {
        Database {
            name: self.name.clone(),
            type_code: self.type_code,
            content: self.content.clone(),
        }
    }
}

/// One record as it was read from the handheld: its payload, its
/// attributes and its id.
pub type DrainedRecord = (Vec<u8>, RecordAttributes, u32);

/// A list of drained records with each payload as a sequence of bytes.
pub open spec fn records_view(records: Seq<DrainedRecord>) -> Seq<(Seq<u8>, RecordAttributes, u32)> {
    records.map_values(|record: DrainedRecord| (record.0@, record.1, record.2))
}

} // verus!
