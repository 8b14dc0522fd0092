use hotsync_conduit_rs::{
    ConduitBuilder, ConduitDBSink, ConduitDBSource, ConduitError, DatabaseContent, DatabaseEntry,
    DatabaseGenerator, DrainedRecord, Hooks, PreferenceType, RecordAttributes, Request, Response,
    Stage, SyncManagerError, SyncRun, Transformed,
};
use std::cell::RefCell;
use std::rc::Rc;

type Transform = Box<dyn Fn(Option<Vec<u8>>) -> Option<Vec<u8>>>;
type Sink = Box<dyn FnMut(Vec<DrainedRecord>) -> Result<(), String>>;
type Generator = Box<dyn DatabaseGenerator>;
type Builder = ConduitBuilder<Vec<u8>, Transform, Sink, Generator>;
type TestHooks = Hooks<Vec<u8>, Transform, Sink, Generator>;

const CREATOR: [u8; 4] = *b"HEFf";
const NONE: SyncManagerError = SyncManagerError::SYNCERR_NONE;

/// One entry of a database on the handheld of the tests.
#[derive(Debug, Clone, PartialEq)]
struct Stored {
    bytes: Vec<u8>,
    attribs: u8,
    category: i16,
    id: u32,
    index: u16,
    resource: bool,
}

/// A handheld in memory. It keeps databases and preferences, counts its
/// calls, and fails the call of a chosen number with a chosen code.
struct Handheld {
    loads: bool,
    databases: Vec<(Vec<u8>, Vec<Stored>)>,
    preferences: Vec<((u32, u16), Vec<u8>)>,
    open: Option<(u8, Vec<u8>)>,
    next_handle: u8,
    calls: Vec<String>,
    log: Vec<Vec<u8>>,
    made: usize,
    fault: Option<(usize, SyncManagerError)>,
    unregistered: Vec<u32>,
    most_open: usize,
    reads: usize,
    writes: usize,
}

fn shown(bytes: &[u8]) -> String {
    String::from_utf8_lossy(bytes).into_owned()
}

fn c_name(wire: &[u8]) -> Vec<u8> {
    wire.iter().take_while(|byte| **byte != 0).copied().collect()
}

impl Handheld {
    fn new() -> Self {
        Handheld {
            loads: true,
            databases: Vec::new(),
            preferences: Vec::new(),
            open: None,
            next_handle: 1,
            calls: Vec::new(),
            log: Vec::new(),
            made: 0,
            fault: None,
            unregistered: Vec::new(),
            most_open: 0,
            reads: 0,
            writes: 0,
        }
    }

    fn with_database(mut self, name: &[u8], records: Vec<Vec<u8>>) -> Self {
        let stored = records
            .into_iter()
            .enumerate()
            .map(|(at, bytes)| Stored {
                bytes,
                attribs: 0x40,
                category: 2,
                id: 100 + at as u32,
                index: at as u16,
                resource: false,
            })
            .collect();
        self.databases.push((name.to_vec(), stored));
        self
    }

    fn database(&self, name: &[u8]) -> Option<&Vec<Stored>> {
        self.databases.iter().find(|(known, _)| known == name).map(|(_, stored)| stored)
    }

    /// The code of the call that is made now: the fault, if this is the
    /// call that is to fail.
    fn called(&mut self, call: String) -> Option<SyncManagerError> {
        self.calls.push(call);
        self.made += 1;
        match self.fault {
            Some((at, code)) if at == self.made => Some(code),
            _ => None,
        }
    }

    fn serve(&mut self, request: Request, hooks: &mut Served) -> Response {
        match request {
            Request::LoadTransport => {
                if self.loads {
                    Response::Loaded
                } else {
                    Response::LoadFailed(ConduitError::DlOpen2(dlopen2::Error::NullSymbol))
                }
            }
            Request::Register => match self.called("register".to_string()) {
                Some(code) => Response::Registered { code, token: 0 },
                None => Response::Registered { code: NONE, token: 77 },
            },
            Request::Log(line) => {
                let fault = self.called(format!("log {}", shown(&line).trim_end()));
                self.log.push(line);
                Response::Status(fault.unwrap_or(NONE))
            }
            Request::EncodeStatic => Response::Encoded(hooks.static_value.take()),
            Request::ReadPreference(mut preference) => {
                self.reads += 1;
                let call = format!("read preference {} into {}", preference.m_prefId, preference.m_pBytes.len());
                if let Some(code) = self.called(call) {
                    return Response::PreferenceRead { code, preference };
                }
                let key = (preference.m_creator, preference.m_prefId);
                let found = self.preferences.iter().find(|(known, _)| *known == key);
                let code = match found {
                    None => SyncManagerError::SYNCERR_NOT_FOUND,
                    Some((_, value)) => {
                        preference.m_actSize = value.len() as u16;
                        if value.len() > preference.m_pBytes.len() {
                            SyncManagerError::SYNCERR_LOCAL_BUFF_TOO_SMALL
                        } else {
                            preference.m_pBytes[..value.len()].copy_from_slice(value);
                            preference.m_retBytes = value.len() as u16;
                            NONE
                        }
                    }
                };
                Response::PreferenceRead { code, preference }
            }
            Request::Transform(current) => {
                hooks.transform_inputs.push(current.clone());
                let transform = hooks.transform.as_ref().expect("a transform");
                if hooks.unreadable {
                    return Response::Transformed(Transformed::Unreadable);
                }
                Response::Transformed(match transform(current) {
                    Some(_) if hooks.unwritable => Transformed::Unwritable,
                    Some(value) => Transformed::Replace(value),
                    None => Transformed::Keep,
                })
            }
            Request::WritePreference(preference) => {
                self.writes += 1;
                let call = format!("write preference {} of {}", preference.m_prefId, preference.m_pBytes.len());
                if let Some(code) = self.called(call) {
                    return Response::Status(code);
                }
                let key = (preference.m_creator, preference.m_prefId);
                self.preferences.retain(|(known, _)| *known != key);
                self.preferences.push((key, preference.m_pBytes));
                Response::Status(NONE)
            }
            Request::OpenDb { wire_name, card, mode } => {
                assert_eq!(card, 0);
                assert_eq!(mode.bits(), 0xe0);
                let name = c_name(&wire_name);
                if let Some(code) = self.called(format!("open {}", shown(&name))) {
                    return Response::Opened { code, handle: 0 };
                }
                if self.database(&name).is_none() {
                    return Response::Opened {
                        code: SyncManagerError::SYNCERR_NOT_FOUND,
                        handle: 0,
                    };
                }
                let handle = self.opened(name);
                Response::Opened { code: NONE, handle }
            }
            Request::RecordCount(handle) => {
                if let Some(code) = self.called("count".to_string()) {
                    return Response::Counted { code, count: 0 };
                }
                let count = self.open_database(handle).len() as u32;
                Response::Counted { code: NONE, count }
            }
            Request::ReadRecordByIndex(mut record) => {
                self.reads += 1;
                let call = format!("read record {} into {}", record.m_RecIndex, record.m_pBytes.len());
                if let Some(code) = self.called(call) {
                    return Response::RecordRead { code, record };
                }
                let stored = self.open_database(record.m_FileHandle)[record.m_RecIndex as usize].clone();
                record.m_RecSize = stored.bytes.len() as u32;
                record.m_RecId = stored.id;
                record.m_Attribs = stored.attribs;
                record.m_CatId = stored.category;
                let code = if stored.bytes.len() > record.m_pBytes.len() {
                    SyncManagerError::SYNCERR_LOCAL_BUFF_TOO_SMALL
                } else {
                    record.m_pBytes[..stored.bytes.len()].copy_from_slice(&stored.bytes);
                    NONE
                };
                Response::RecordRead { code, record }
            }
            Request::Sink { index, records } => {
                hooks.sunk.push(index);
                let ConduitDBSink::Dynamic(sink) = &mut hooks.sinks[index];
                Response::Sunk(sink(records))
            }
            Request::CloseDb(handle) => {
                if let Some(code) = self.called("close".to_string()) {
                    return Response::Status(code);
                }
                assert_eq!(self.open.as_ref().map(|(open, _)| *open), Some(handle));
                self.open = None;
                Response::Status(NONE)
            }
            Request::DeleteDb { name, card } => {
                assert_eq!(card, 0);
                if let Some(code) = self.called(format!("delete {}", shown(&name))) {
                    return Response::Status(code);
                }
                let before = self.databases.len();
                self.databases.retain(|(known, _)| *known != name);
                Response::Status(if self.databases.len() < before {
                    NONE
                } else {
                    SyncManagerError::SYNCERR_NOT_FOUND
                })
            }
            Request::Generate { slot } => {
                hooks.generated.push(slot);
                let generator = hooks.generators[slot].take().expect("a generator to run once");
                let (name, type_code, content) = generator.generate();
                Response::Generated { name, type_code, content }
            }
            Request::CreateDb(mut database) => {
                let name = c_name(&database.m_Name);
                if let Some(code) = self.called(format!("create {}", shown(&name))) {
                    return Response::Created { code, handle: 0 };
                }
                assert_eq!(database.m_Creator, u32::from_be_bytes(CREATOR));
                assert_eq!(database.m_Flags, 0);
                assert_eq!(database.m_CardNo, 0);
                if self.database(&name).is_some() {
                    return Response::Created {
                        code: SyncManagerError::SYNCERR_FILE_ALREADY_EXIST,
                        handle: 0,
                    };
                }
                self.databases.push((name.clone(), Vec::new()));
                database.m_FileHandle = self.opened(name);
                Response::Created { code: NONE, handle: database.handle() }
            }
            Request::WriteRec(record) => {
                let call = format!("write record of {}", record.m_pBytes.len());
                if let Some(code) = self.called(call) {
                    return Response::Status(code);
                }
                assert_eq!(record.m_TotalBytes as usize, record.m_pBytes.len());
                assert_eq!(record.m_RecSize as usize, record.m_pBytes.len());
                let stored = Stored {
                    bytes: record.m_pBytes,
                    attribs: record.m_Attribs,
                    category: record.m_CatId,
                    id: record.m_RecId,
                    index: record.m_RecIndex,
                    resource: false,
                };
                self.open_database_mut(record.m_FileHandle).push(stored);
                Response::Status(NONE)
            }
            Request::WriteResourceRec(record) => {
                let call = format!("write resource of {}", record.m_pBytes.len());
                if let Some(code) = self.called(call) {
                    return Response::Status(code);
                }
                let stored = Stored {
                    bytes: record.m_pBytes,
                    attribs: record.m_Attribs,
                    category: record.m_CatId,
                    id: record.m_RecId,
                    index: record.m_RecIndex,
                    resource: true,
                };
                self.open_database_mut(record.m_FileHandle).push(stored);
                Response::Status(NONE)
            }
            Request::Unregister(token) => {
                let fault = self.called("unregister".to_string());
                self.unregistered.push(token);
                Response::Status(fault.unwrap_or(NONE))
            }
            Request::Done(_) => unreachable!("a finished run asks nothing"),
        }
    }

    fn opened(&mut self, name: Vec<u8>) -> u8 {
        assert!(self.open.is_none(), "one database is open at a time");
        let handle = self.next_handle;
        self.next_handle += 1;
        self.open = Some((handle, name));
        self.most_open = 1;
        handle
    }

    fn open_database(&self, handle: u8) -> &Vec<Stored> {
        let (open, name) = self.open.as_ref().expect("an open database");
        assert_eq!(*open, handle);
        self.database(name).expect("the open database")
    }

    fn open_database_mut(&mut self, handle: u8) -> &mut Vec<Stored> {
        let (open, name) = self.open.clone().expect("an open database");
        assert_eq!(open, handle);
        &mut self.databases.iter_mut().find(|(known, _)| *known == name).expect("the open database").1
    }
}

/// The hooks of a conduit as the driver of the tests holds them.
struct Served {
    static_value: Option<Vec<u8>>,
    transform: Option<Transform>,
    sinks: Vec<ConduitDBSink<Sink>>,
    generators: Vec<Option<Generator>>,
    transform_inputs: Vec<Option<Vec<u8>>>,
    sunk: Vec<usize>,
    generated: Vec<usize>,
    unreadable: bool,
    unwritable: bool,
}

impl Served {
    fn new(hooks: TestHooks) -> Self {
        Served {
            static_value: hooks.static_value,
            transform: hooks.transform,
            sinks: hooks.sinks,
            generators: hooks.generators.into_iter().map(Some).collect(),
            transform_inputs: Vec::new(),
            sunk: Vec::new(),
            generated: Vec::new(),
            unreadable: false,
            unwritable: false,
        }
    }
}

/// Drives a run to its end on a handheld.
fn drive(run: SyncRun, first: Request, served: &mut Served, handheld: &mut Handheld) -> Result<(), ConduitError> {
    let mut run = run;
    let mut request = first;
    loop {
        if let Request::Done(result) = request {
            assert!(run.is_finished());
            assert_eq!(run.stage(), Stage::Finished);
            return result;
        }
        assert!(!run.is_finished());
        let response = handheld.serve(request, served);
        assert!(run.accepts(&response));
        let (stepped, asked) = run.step(response);
        run = stepped;
        request = asked;
    }
}

fn sync(builder: Builder, handheld: &mut Handheld) -> (Result<(), ConduitError>, Served) {
    let conduit = builder.build(Vec::new()).expect("a conduit");
    let (run, first, hooks) = conduit.begin_sync();
    let mut served = Served::new(hooks);
    let result = drive(run, first, &mut served, handheld);
    (result, served)
}

fn builder(name: &[u8]) -> Builder {
    ConduitBuilder::new_with_name_creator(name.to_vec(), CREATOR)
}

fn record(data: &[u8]) -> DatabaseEntry {
    DatabaseEntry::Record {
        attributes: RecordAttributes {
            deleted: false,
            dirty: true,
            busy: false,
            secret: true,
            archived: false,
            category: 4,
        },
        data: data.to_vec(),
    }
}

fn content(entries: Vec<DatabaseEntry>) -> DatabaseContent {
    DatabaseContent { entries }
}

fn fixed(name: &[u8], type_code: &[u8; 4], entries: Vec<DatabaseEntry>) -> ConduitDBSource<Generator> {
    ConduitDBSource::Static(name.to_vec(), *type_code, content(entries))
}

fn collecting_sink(into: Rc<RefCell<Vec<Vec<DrainedRecord>>>>) -> ConduitDBSink<Sink> {
    ConduitDBSink::Dynamic(Box::new(move |records| {
        into.borrow_mut().push(records);
        Ok(())
    }))
}

fn calls(handheld: &Handheld) -> Vec<&str> {
    handheld.calls.iter().map(|call| call.as_str()).collect()
}

fn transport_calls(handheld: &Handheld) -> Vec<&str> {
    handheld.calls.iter().map(|call| call.as_str()).filter(|call| !call.starts_with("log ")).collect()
}

#[test]
fn an_overwrite_of_two_records_makes_the_expected_calls() {
    let plan = builder(b"heffalump").overwrite_db(fixed(b"Foo", b"DATA", vec![record(b"one"), record(b"second")]));
    let mut handheld = Handheld::new();
    let (result, _) = sync(plan, &mut handheld);
    assert!(result.is_ok());
    assert_eq!(
        calls(&handheld),
        vec![
            "register",
            "log Beginning sync of heffalump",
            "delete Foo",
            "log Database not found: Foo",
            "create Foo",
            "log Created database: Foo",
            "write record of 3",
            "write record of 6",
            "log Closing database",
            "close",
            "log Sync completed!",
            "unregister",
        ]
    );
    let stored = handheld.database(b"Foo").expect("the database");
    assert_eq!(stored.len(), 2);
    assert_eq!(stored[0].bytes, b"one");
    assert_eq!(stored[1].bytes, b"second");
    for entry in stored {
        assert_eq!((entry.attribs, entry.category, entry.id, entry.index), (0, 0, 0, 0));
        assert!(!entry.resource);
    }
}

#[test]
fn the_lines_of_the_log_are_exact() {
    let plan = builder(b"heffalump").overwrite_db(fixed(b"Foo", b"DATA", vec![record(b"one")]));
    let mut handheld = Handheld::new().with_database(b"Foo", vec![b"old".to_vec()]);
    let (result, _) = sync(plan, &mut handheld);
    assert!(result.is_ok());
    assert_eq!(
        handheld.log,
        vec![
            b"Beginning sync of heffalump\n".to_vec(),
            b"Database deleted: Foo\n".to_vec(),
            b"Created database: Foo\n".to_vec(),
            b"Closing database\n".to_vec(),
            b"Sync completed!".to_vec(),
        ]
    );
}

#[test]
fn a_create_request_carries_the_creator_and_the_type() {
    let plan = builder(b"c").create_db(fixed(b"Foo", b"DATA", Vec::new()));
    let conduit = plan.build(Vec::new()).expect("a conduit");
    let (run, _, _) = conduit.begin_sync();
    let (run, _) = run.step(Response::Loaded);
    let (run, _) = run.step(Response::Registered { code: NONE, token: 1 });
    let (_, request) = run.step(Response::Status(NONE));
    match request {
        Request::CreateDb(database) => {
            assert_eq!(database.m_Creator, 0x48454666);
            assert_eq!(database.m_Type, 0x44415441);
            assert_eq!(database.m_Flags, 0);
            assert_eq!(&database.m_Name[..4], b"Foo\0");
        }
        other => panic!("unexpected request {:?}", other),
    }
}

#[test]
fn the_parts_of_a_run_come_in_their_order_whatever_the_order_of_the_builder() {
    let drained = Rc::new(RefCell::new(Vec::new()));
    let plan = builder(b"c")
        .overwrite_db(fixed(b"Over", b"DATA", vec![record(b"o")]))
        .create_db(fixed(b"Fresh", b"DATA", vec![record(b"f")]))
        .remove_db(b"Gone".to_vec())
        .download_db_and(b"Notes".to_vec(), collecting_sink(drained.clone()))
        .set_preferences(PreferenceType::Static(5, vec![1, 2, 3]));
    let mut handheld = Handheld::new()
        .with_database(b"Notes", vec![b"n1".to_vec()])
        .with_database(b"Gone", Vec::new())
        .with_database(b"Over", vec![b"stale".to_vec()]);
    let (result, served) = sync(plan, &mut handheld);
    assert!(result.is_ok());
    assert_eq!(
        transport_calls(&handheld),
        vec![
            "register",
            "write preference 5 of 3",
            "open Notes",
            "count",
            "read record 0 into 1024",
            "close",
            "delete Notes",
            "delete Gone",
            "delete Over",
            "create Fresh",
            "write record of 1",
            "close",
            "create Over",
            "write record of 1",
            "close",
            "unregister",
        ]
    );
    assert_eq!(served.sunk, vec![0]);
    assert_eq!(drained.borrow().len(), 1);
    assert!(handheld.database(b"Notes").is_none());
    assert!(handheld.database(b"Gone").is_none());
    assert_eq!(handheld.database(b"Fresh").map(|stored| stored.len()), Some(1));
    assert_eq!(handheld.database(b"Over").map(|stored| stored[0].bytes.clone()), Some(b"o".to_vec()));
    assert_eq!(handheld.preferences, vec![((0x48454666, 5), vec![1, 2, 3])]);
}

#[test]
fn directives_of_one_kind_are_served_in_the_order_of_their_declaration() {
    let plan = builder(b"c")
        .remove_db(b"B".to_vec())
        .overwrite_db(fixed(b"Y", b"DATA", Vec::new()))
        .remove_db(b"A".to_vec())
        .overwrite_db(fixed(b"X", b"DATA", Vec::new()))
        .create_db(fixed(b"Q", b"DATA", Vec::new()))
        .create_db(fixed(b"P", b"DATA", Vec::new()));
    let mut handheld = Handheld::new();
    let (result, _) = sync(plan, &mut handheld);
    assert!(result.is_ok());
    assert_eq!(
        transport_calls(&handheld),
        vec![
            "register", "delete B", "delete A", "delete Y", "delete X", "create Q", "close",
            "create P", "close", "create Y", "close", "create X", "close", "unregister",
        ]
    );
}

#[test]
fn a_static_preference_is_written_without_a_read() {
    let plan = builder(b"c").set_preferences(PreferenceType::Static(9, vec![4, 5]));
    let mut handheld = Handheld::new();
    handheld.preferences.push(((0x48454666, 9), vec![0; 8]));
    let (result, _) = sync(plan, &mut handheld);
    assert!(result.is_ok());
    assert_eq!(
        calls(&handheld),
        vec![
            "register",
            "log Beginning sync of c",
            "log Syncing preferences",
            "write preference 9 of 2",
            "log Finished syncing preferences",
            "log Sync completed!",
            "unregister",
        ]
    );
    assert_eq!(handheld.reads, 0);
    assert_eq!(handheld.preferences, vec![((0x48454666, 9), vec![4, 5])]);
}

#[test]
fn a_static_preference_that_cannot_be_encoded_fails_the_run() {
    let plan = builder(b"c").set_preferences(PreferenceType::Static(9, vec![4, 5]));
    let conduit = plan.build(Vec::new()).expect("a conduit");
    let (run, first, hooks) = conduit.begin_sync();
    let mut served = Served::new(hooks);
    served.static_value = None;
    let mut handheld = Handheld::new();
    let result = drive(run, first, &mut served, &mut handheld);
    assert!(matches!(result, Err(ConduitError::PreferenceSerde)));
    assert_eq!(handheld.writes, 0);
    assert_eq!(handheld.unregistered, vec![77]);
    assert_eq!(
        handheld.log.last().map(|line| shown(line)),
        Some(
            "Encountered error Conduit Error Encountered\nPreferences could not be converted during sync of c\n"
                .to_string()
        )
    );
}

#[test]
fn a_transform_that_gives_nothing_writes_nothing() {
    let plan = builder(b"c").set_preferences(PreferenceType::Dynamic(2, Box::new(|_| None) as Transform));
    let mut handheld = Handheld::new();
    handheld.preferences.push(((0x48454666, 2), vec![7, 7, 7]));
    let (result, served) = sync(plan, &mut handheld);
    assert!(result.is_ok());
    assert_eq!(handheld.writes, 0);
    assert_eq!(served.transform_inputs, vec![Some(vec![7, 7, 7])]);
    assert_eq!(handheld.preferences, vec![((0x48454666, 2), vec![7, 7, 7])]);
    assert_eq!(
        calls(&handheld),
        vec![
            "register",
            "log Beginning sync of c",
            "log Syncing preferences",
            "read preference 2 into 1024",
            "log Finished syncing preferences",
            "log Sync completed!",
            "unregister",
        ]
    );
}

#[test]
fn a_transform_of_an_absent_preference_gets_nothing() {
    let plan = builder(b"c").set_preferences(PreferenceType::Dynamic(
        2,
        Box::new(|current: Option<Vec<u8>>| {
            assert!(current.is_none());
            Some(vec![1u8])
        }) as Transform,
    ));
    let mut handheld = Handheld::new();
    let (result, served) = sync(plan, &mut handheld);
    assert!(result.is_ok());
    assert_eq!(served.transform_inputs, vec![None]);
    assert_eq!(handheld.reads, 1);
    assert_eq!(handheld.writes, 1);
    assert_eq!(handheld.preferences, vec![((0x48454666, 2), vec![1])]);
}

#[test]
fn a_transform_gets_the_value_cut_to_its_size_and_its_value_is_written() {
    let plan = builder(b"c").set_preferences(PreferenceType::Dynamic(
        2,
        Box::new(|current: Option<Vec<u8>>| {
            let mut value = current.expect("a value");
            value.push(9);
            Some(value)
        }) as Transform,
    ));
    let mut handheld = Handheld::new();
    handheld.preferences.push(((0x48454666, 2), vec![1, 2, 3]));
    let (result, served) = sync(plan, &mut handheld);
    assert!(result.is_ok());
    assert_eq!(served.transform_inputs, vec![Some(vec![1, 2, 3])]);
    assert_eq!(handheld.preferences, vec![((0x48454666, 2), vec![1, 2, 3, 9])]);
    assert_eq!((handheld.reads, handheld.writes), (1, 1));
}

#[test]
fn a_preference_that_fits_is_read_once() {
    let plan = builder(b"c").set_preferences(PreferenceType::Dynamic(2, Box::new(|_| None) as Transform));
    let mut handheld = Handheld::new();
    handheld.preferences.push(((0x48454666, 2), vec![5; 1024]));
    let (result, served) = sync(plan, &mut handheld);
    assert!(result.is_ok());
    assert_eq!(handheld.reads, 1);
    assert_eq!(served.transform_inputs, vec![Some(vec![5; 1024])]);
}

#[test]
fn a_preference_that_is_too_large_is_read_twice() {
    let plan = builder(b"c").set_preferences(PreferenceType::Dynamic(2, Box::new(|_| None) as Transform));
    let mut handheld = Handheld::new();
    handheld.preferences.push(((0x48454666, 2), vec![5; 3000]));
    let (result, served) = sync(plan, &mut handheld);
    assert!(result.is_ok());
    assert_eq!(handheld.reads, 2);
    assert_eq!(
        transport_calls(&handheld),
        vec!["register", "read preference 2 into 1024", "read preference 2 into 3000", "unregister"]
    );
    assert_eq!(served.transform_inputs, vec![Some(vec![5; 3000])]);
}

fn after_first_preference_read(run: SyncRun) -> (SyncRun, Request) {
    let (run, _) = run.step(Response::Loaded);
    let (run, _) = run.step(Response::Registered { code: NONE, token: 1 });
    let (run, _) = run.step(Response::Status(NONE));
    run.step(Response::Status(NONE))
}

#[test]
fn a_second_read_that_is_too_small_again_fails_the_run() {
    let plan = builder(b"c").set_preferences(PreferenceType::Dynamic(2, Box::new(|_| None) as Transform));
    let conduit = plan.build(Vec::new()).expect("a conduit");
    let (run, _, _) = conduit.begin_sync();
    let (run, request) = after_first_preference_read(run);
    let Request::ReadPreference(mut preference) = request else { panic!("a read") };
    assert_eq!(preference.m_pBytes.len(), 1024);
    preference.m_actSize = 2000;
    let (run, request) = run.step(Response::PreferenceRead {
        code: SyncManagerError::SYNCERR_LOCAL_BUFF_TOO_SMALL,
        preference,
    });
    let Request::ReadPreference(mut preference) = request else { panic!("a second read") };
    assert_eq!(preference.m_pBytes.len(), 2000);
    assert_eq!(preference.m_nBytes, 2000);
    preference.m_actSize = 4000;
    let (run, request) = run.step(Response::PreferenceRead {
        code: SyncManagerError::SYNCERR_LOCAL_BUFF_TOO_SMALL,
        preference,
    });
    assert!(matches!(request, Request::Log(_)));
    assert_eq!(run.stage(), Stage::Concluding);
    let (run, request) = run.step(Response::Status(NONE));
    assert!(matches!(request, Request::Unregister(1)));
    let (_, request) = run.step(Response::Status(NONE));
    assert!(matches!(
        request,
        Request::Done(Err(ConduitError::Sync(SyncManagerError::SYNCERR_LOCAL_BUFF_TOO_SMALL)))
    ));
}

#[test]
fn a_smaller_size_than_the_buffer_cuts_the_second_buffer() {
    let plan = builder(b"c").set_preferences(PreferenceType::Dynamic(2, Box::new(|_| None) as Transform));
    let conduit = plan.build(Vec::new()).expect("a conduit");
    let (run, _, _) = conduit.begin_sync();
    let (run, request) = after_first_preference_read(run);
    let Request::ReadPreference(mut preference) = request else { panic!("a read") };
    preference.m_actSize = 10;
    preference.m_pBytes[0] = 0xaa;
    let (_, request) = run.step(Response::PreferenceRead {
        code: SyncManagerError::SYNCERR_LOCAL_BUFF_TOO_SMALL,
        preference,
    });
    let Request::ReadPreference(preference) = request else { panic!("a second read") };
    assert_eq!(preference.m_pBytes, vec![0xaa, 0, 0, 0, 0, 0, 0, 0, 0, 0]);
}

#[test]
fn a_preference_that_cannot_be_understood_is_reported_and_fails_the_run() {
    let plan = builder(b"c").set_preferences(PreferenceType::Dynamic(2, Box::new(|_| None) as Transform));
    let conduit = plan.build(Vec::new()).expect("a conduit");
    let (run, first, hooks) = conduit.begin_sync();
    let mut served = Served::new(hooks);
    served.unreadable = true;
    let mut handheld = Handheld::new();
    handheld.preferences.push(((0x48454666, 2), vec![1]));
    handheld.fault = Some((5, SyncManagerError::SYNCERR_REMOTE_MEM));
    let result = drive(run, first, &mut served, &mut handheld);
    assert!(matches!(result, Err(ConduitError::PreferenceSerde)));
    assert_eq!(
        calls(&handheld),
        vec![
            "register",
            "log Beginning sync of c",
            "log Syncing preferences",
            "read preference 2 into 1024",
            "log Failure reading prefs from device",
            "log Encountered error Conduit Error Encountered\nPreferences could not be converted during sync of c",
            "unregister",
        ]
    );
    assert_eq!(handheld.log[2], b"Failure reading prefs from device\n".to_vec());
}

#[test]
fn a_new_value_that_cannot_be_encoded_fails_the_run() {
    let plan = builder(b"c").set_preferences(PreferenceType::Dynamic(2, Box::new(|_| Some(vec![1u8])) as Transform));
    let conduit = plan.build(Vec::new()).expect("a conduit");
    let (run, first, hooks) = conduit.begin_sync();
    let mut served = Served::new(hooks);
    served.unwritable = true;
    let mut handheld = Handheld::new();
    let result = drive(run, first, &mut served, &mut handheld);
    assert!(matches!(result, Err(ConduitError::PreferenceSerde)));
    assert_eq!(handheld.writes, 0);
    assert_eq!(handheld.unregistered.len(), 1);
}

#[test]
fn a_drain_hands_every_record_to_the_sink_and_removes_the_database() {
    let drained = Rc::new(RefCell::new(Vec::new()));
    let plan = builder(b"c").download_db_and(b"Notes".to_vec(), collecting_sink(drained.clone()));
    let mut handheld = Handheld::new().with_database(b"Notes", vec![b"first".to_vec(), b"2".to_vec()]);
    let (result, _) = sync(plan, &mut handheld);
    assert!(result.is_ok());
    assert_eq!(
        calls(&handheld),
        vec![
            "register",
            "log Beginning sync of c",
            "open Notes",
            "count",
            "read record 0 into 1024",
            "read record 1 into 1024",
            "log Closing database",
            "close",
            "delete Notes",
            "log Database deleted: Notes",
            "log Sync completed!",
            "unregister",
        ]
    );
    let drained = drained.borrow();
    assert_eq!(drained.len(), 1);
    let records = &drained[0];
    assert_eq!(records.len(), 2);
    let attributes = RecordAttributes {
        deleted: false,
        dirty: true,
        busy: false,
        secret: false,
        archived: false,
        category: 2,
    };
    assert_eq!(records[0], (b"first".to_vec(), attributes, 100));
    assert_eq!(records[1], (b"2".to_vec(), attributes, 101));
    assert!(handheld.database(b"Notes").is_none());
}

#[test]
fn a_record_that_is_too_large_is_read_twice() {
    let drained = Rc::new(RefCell::new(Vec::new()));
    let plan = builder(b"c").download_db_and(b"Notes".to_vec(), collecting_sink(drained.clone()));
    let mut handheld =
        Handheld::new().with_database(b"Notes", vec![vec![3; 10], vec![4; 5000], vec![5; 1024]]);
    let (result, _) = sync(plan, &mut handheld);
    assert!(result.is_ok());
    assert_eq!(handheld.reads, 4);
    assert_eq!(
        transport_calls(&handheld),
        vec![
            "register",
            "open Notes",
            "count",
            "read record 0 into 1024",
            "read record 1 into 1024",
            "read record 1 into 5000",
            "read record 2 into 1024",
            "close",
            "delete Notes",
            "unregister",
        ]
    );
    let drained = drained.borrow();
    assert_eq!(drained[0][0].0, vec![3; 10]);
    assert_eq!(drained[0][1].0, vec![4; 5000]);
    assert_eq!(drained[0][2].0, vec![5; 1024]);
}

#[test]
fn a_record_is_kept_as_its_payload_and_no_more() {
    let conduit = builder(b"c")
        .download_db_and(b"Notes".to_vec(), ConduitDBSink::Dynamic(Box::new(|_| Ok(())) as Sink))
        .build(Vec::new())
        .expect("a conduit");
    let (run, _, _) = conduit.begin_sync();
    let (run, _) = run.step(Response::Loaded);
    let (run, _) = run.step(Response::Registered { code: NONE, token: 1 });
    let (run, _) = run.step(Response::Status(NONE));
    let (run, _) = run.step(Response::Opened { code: NONE, handle: 3 });
    let (run, request) = run.step(Response::Counted { code: NONE, count: 3 });
    let Request::ReadRecordByIndex(mut record) = request else { panic!("a read") };
    record.m_pBytes[..4].copy_from_slice(b"abcd");
    record.m_pBytes[4] = 0xee;
    record.m_RecSize = 4;
    record.m_RecId = 11;
    let (run, request) = run.step(Response::RecordRead { code: NONE, record });
    let Request::ReadRecordByIndex(mut record) = request else { panic!("a read") };
    record.m_RecSize = 0;
    record.m_RecId = 12;
    let (run, request) = run.step(Response::RecordRead { code: NONE, record });
    let Request::ReadRecordByIndex(mut record) = request else { panic!("a read") };
    record.m_pBytes = vec![7; 5];
    record.m_RecSize = 9;
    record.m_RecId = 13;
    let (_, request) = run.step(Response::RecordRead { code: NONE, record });
    let Request::Sink { records, .. } = request else { panic!("the sink") };
    let payloads: Vec<(Vec<u8>, u32)> = records.into_iter().map(|(bytes, _, id)| (bytes, id)).collect();
    assert_eq!(payloads, vec![(b"abcd".to_vec(), 11), (Vec::new(), 12), (vec![7; 5], 13)]);
}

#[test]
fn a_record_whose_second_read_fails_fails_the_run() {
    let drained = Rc::new(RefCell::new(Vec::new()));
    let plan = builder(b"c").download_db_and(b"Notes".to_vec(), collecting_sink(drained.clone()));
    let mut handheld = Handheld::new().with_database(b"Notes", vec![vec![4; 5000]]);
    handheld.fault = Some((6, SyncManagerError::SYNCERR_LOCAL_BUFF_TOO_SMALL));
    let (result, served) = sync(plan, &mut handheld);
    assert!(matches!(
        result,
        Err(ConduitError::Sync(SyncManagerError::SYNCERR_LOCAL_BUFF_TOO_SMALL))
    ));
    assert_eq!(handheld.reads, 2);
    assert!(served.sunk.is_empty());
    assert!(handheld.database(b"Notes").is_some());
}

#[test]
fn a_database_that_cannot_be_opened_is_skipped_in_silence() {
    let drained = Rc::new(RefCell::new(Vec::new()));
    let plan = builder(b"c")
        .download_db_and(b"Missing".to_vec(), collecting_sink(drained.clone()))
        .download_db_and(b"Notes".to_vec(), collecting_sink(drained.clone()));
    let mut handheld = Handheld::new().with_database(b"Notes", Vec::new());
    let (result, served) = sync(plan, &mut handheld);
    assert!(result.is_ok());
    assert_eq!(
        calls(&handheld),
        vec![
            "register",
            "log Beginning sync of c",
            "open Missing",
            "open Notes",
            "count",
            "log Closing database",
            "close",
            "delete Notes",
            "log Database deleted: Notes",
            "log Sync completed!",
            "unregister",
        ]
    );
    assert_eq!(served.sunk, vec![1]);
    assert_eq!(drained.borrow().len(), 1);
    assert!(drained.borrow()[0].is_empty());
}

#[test]
fn a_sink_that_fails_aborts_the_run_and_leaves_the_rest_undone() {
    let failing: ConduitDBSink<Sink> = ConduitDBSink::Dynamic(Box::new(|_| Err("cannot keep".to_string())));
    let plan = builder(b"c")
        .set_preferences(PreferenceType::Static(1, vec![1]))
        .download_db_and(b"Notes".to_vec(), failing)
        .remove_db(b"Gone".to_vec());
    let mut handheld = Handheld::new().with_database(b"Notes", vec![b"n".to_vec()]).with_database(b"Gone", Vec::new());
    let (result, _) = sync(plan, &mut handheld);
    match result {
        Err(ConduitError::Sink(message)) => assert_eq!(message, "cannot keep"),
        other => panic!("unexpected result {:?}", other),
    }
    assert_eq!(handheld.preferences.len(), 1);
    assert!(handheld.database(b"Notes").is_some());
    assert!(handheld.database(b"Gone").is_some());
    assert_eq!(handheld.unregistered, vec![77]);
    assert_eq!(
        handheld.log.last().map(|line| shown(line)),
        Some("Encountered error Conduit Error Encountered\ncannot keep during sync of c\n".to_string())
    );
    assert!(!handheld.calls.iter().any(|call| call == "close"));
}

#[test]
fn a_removal_reports_what_became_of_the_database() {
    let plan = builder(b"c").remove_db(b"There".to_vec()).remove_db(b"Absent".to_vec()).remove_db(b"Stuck".to_vec());
    let mut handheld = Handheld::new().with_database(b"There", Vec::new()).with_database(b"Stuck", Vec::new());
    handheld.fault = Some((7, SyncManagerError::SYNCERR_READ_ONLY));
    let (result, _) = sync(plan, &mut handheld);
    assert!(matches!(result, Err(ConduitError::Sync(SyncManagerError::SYNCERR_READ_ONLY))));
    assert_eq!(
        handheld.log,
        vec![
            b"Beginning sync of c\n".to_vec(),
            b"Database deleted: There\n".to_vec(),
            b"Database not found: Absent\n".to_vec(),
            b"Error while deleting: Stuck\n".to_vec(),
            b"Encountered error Conduit Error Encountered\nSYNCERR_READ_ONLY during sync of c\n".to_vec(),
        ]
    );
    assert_eq!(handheld.unregistered, vec![77]);
}

#[test]
fn a_removal_that_failed_ends_the_run_with_its_own_code_whatever_the_log_does() {
    let plan = builder(b"c").remove_db(b"Stuck".to_vec());
    let conduit = plan.build(Vec::new()).expect("a conduit");
    let (run, _, _) = conduit.begin_sync();
    let (run, _) = run.step(Response::Loaded);
    let (run, _) = run.step(Response::Registered { code: NONE, token: 1 });
    let (run, request) = run.step(Response::Status(NONE));
    assert!(matches!(request, Request::DeleteDb { .. }));
    let (run, request) = run.step(Response::Status(SyncManagerError::SYNCERR_READ_ONLY));
    let Request::Log(line) = request else { panic!("the report of the removal") };
    assert_eq!(line, b"Error while deleting: Stuck\n".to_vec());
    let (run, request) = run.step(Response::Status(SyncManagerError::SYNCERR_LIMIT_EXCEEDED));
    let Request::Log(line) = request else { panic!("the report of the failure") };
    assert_eq!(
        line,
        b"Encountered error Conduit Error Encountered\nSYNCERR_READ_ONLY during sync of c\n".to_vec()
    );
    assert_eq!(run.stage(), Stage::Concluding);
    let (run, request) = run.step(Response::Status(SyncManagerError::SYNCERR_LIMIT_EXCEEDED));
    assert!(matches!(request, Request::Unregister(1)));
    let (_, request) = run.step(Response::Status(NONE));
    assert!(matches!(
        request,
        Request::Done(Err(ConduitError::Sync(SyncManagerError::SYNCERR_READ_ONLY)))
    ));
}

#[test]
fn a_removal_that_went_well_but_could_not_be_logged_ends_the_run_with_the_code_of_the_log() {
    for removed in [NONE, SyncManagerError::SYNCERR_NOT_FOUND] {
        let plan = builder(b"c").remove_db(b"Gone".to_vec()).remove_db(b"Next".to_vec());
        let conduit = plan.build(Vec::new()).expect("a conduit");
        let (run, _, _) = conduit.begin_sync();
        let (run, _) = run.step(Response::Loaded);
        let (run, _) = run.step(Response::Registered { code: NONE, token: 1 });
        let (run, _) = run.step(Response::Status(NONE));
        let (run, request) = run.step(Response::Status(removed));
        assert!(matches!(request, Request::Log(_)));
        let (run, request) = run.step(Response::Status(SyncManagerError::SYNCERR_LIMIT_EXCEEDED));
        assert!(matches!(request, Request::Log(_)));
        assert_eq!(run.stage(), Stage::Concluding);
        let (run, _) = run.step(Response::Status(NONE));
        let (_, request) = run.step(Response::Status(NONE));
        assert!(matches!(
            request,
            Request::Done(Err(ConduitError::Sync(SyncManagerError::SYNCERR_LIMIT_EXCEEDED)))
        ));
    }
}

#[test]
fn a_database_that_exists_satisfies_a_create_if_absent() {
    let plan = builder(b"c")
        .create_db(fixed(b"Kept", b"DATA", vec![record(b"new")]))
        .create_db(fixed(b"Fresh", b"DATA", vec![record(b"f")]));
    let mut handheld = Handheld::new().with_database(b"Kept", vec![b"old".to_vec()]);
    let (result, _) = sync(plan, &mut handheld);
    assert!(result.is_ok());
    assert_eq!(
        calls(&handheld),
        vec![
            "register",
            "log Beginning sync of c",
            "create Kept",
            "create Fresh",
            "log Created database: Fresh",
            "write record of 1",
            "log Closing database",
            "close",
            "log Sync completed!",
            "unregister",
        ]
    );
    assert_eq!(handheld.database(b"Kept").map(|stored| stored[0].bytes.clone()), Some(b"old".to_vec()));
}

#[test]
fn a_create_if_absent_that_fails_otherwise_fails_the_run() {
    let plan = builder(b"c").create_db(fixed(b"Fresh", b"DATA", Vec::new()));
    let mut handheld = Handheld::new();
    handheld.fault = Some((3, SyncManagerError::SYNCERR_REMOTE_NO_SPACE));
    let (result, _) = sync(plan, &mut handheld);
    assert!(matches!(result, Err(ConduitError::Sync(SyncManagerError::SYNCERR_REMOTE_NO_SPACE))));
}

#[test]
fn an_overwrite_whose_target_exists_after_all_fails_the_run() {
    let plan = builder(b"c").overwrite_db(fixed(b"Foo", b"DATA", Vec::new()));
    let mut handheld = Handheld::new();
    handheld.fault = Some((5, SyncManagerError::SYNCERR_FILE_ALREADY_EXIST));
    let (result, _) = sync(plan, &mut handheld);
    assert!(matches!(
        result,
        Err(ConduitError::Sync(SyncManagerError::SYNCERR_FILE_ALREADY_EXIST))
    ));
    assert_eq!(handheld.unregistered, vec![77]);
}

#[test]
fn an_overwrite_run_twice_leaves_the_same_content() {
    let source = || fixed(b"Foo", b"DATA", vec![record(b"one"), record(b"two")]);
    let mut handheld = Handheld::new().with_database(b"Foo", vec![b"stale".to_vec()]).with_database(b"Other", vec![b"x".to_vec()]);
    let (first, _) = sync(builder(b"c").overwrite_db(source()), &mut handheld);
    assert!(first.is_ok());
    let after_first = handheld.databases.clone();
    let (second, _) = sync(builder(b"c").overwrite_db(source()), &mut handheld);
    assert!(second.is_ok());
    let mut expected = after_first.clone();
    expected.sort_by(|left, right| left.0.cmp(&right.0));
    let mut found = handheld.databases.clone();
    found.sort_by(|left, right| left.0.cmp(&right.0));
    assert_eq!(found, expected);
    assert_eq!(handheld.database(b"Foo").map(|stored| stored.len()), Some(2));
    assert_eq!(handheld.database(b"Other").map(|stored| stored.len()), Some(1));
}

#[test]
fn a_resource_is_announced_and_written_under_its_type_and_id() {
    let entries = vec![
        DatabaseEntry::Resource { name: *b"tAIB", id: 1000, data: vec![1, 2, 3, 4] },
        record(b"r"),
    ];
    let plan = builder(b"c").create_db(fixed(b"App", b"appl", entries));
    let mut handheld = Handheld::new();
    let (result, _) = sync(plan, &mut handheld);
    assert!(result.is_ok());
    assert_eq!(
        calls(&handheld),
        vec![
            "register",
            "log Beginning sync of c",
            "create App",
            "log Created database: App",
            "log Writing resource for some reason??",
            "write resource of 4",
            "write record of 1",
            "log Closing database",
            "close",
            "log Sync completed!",
            "unregister",
        ]
    );
    assert_eq!(handheld.log[2], b"Writing resource for some reason??\n".to_vec());
    let stored = handheld.database(b"App").expect("the database");
    assert_eq!(stored[0].id, 0x74414942);
    assert_eq!(stored[0].index, 1000);
    assert!(stored[0].resource);
    assert_eq!((stored[0].attribs, stored[0].category), (0, 0));
}

struct Counting {
    runs: Rc<RefCell<Vec<&'static str>>>,
    name: &'static str,
}

impl DatabaseGenerator for Counting {
    fn generate(self: Box<Self>) -> (Vec<u8>, [u8; 4], DatabaseContent) {
        self.runs.borrow_mut().push(self.name);
        (self.name.as_bytes().to_vec(), *b"DATA", content(vec![record(self.name.as_bytes())]))
    }
}

#[test]
fn a_generator_runs_once_when_its_turn_comes() {
    let runs = Rc::new(RefCell::new(Vec::new()));
    let seen = Rc::new(RefCell::new(Vec::new()));
    let during = runs.clone();
    let at_drain = seen.clone();
    let sink: ConduitDBSink<Sink> = ConduitDBSink::Dynamic(Box::new(move |_| {
        at_drain.borrow_mut().push(during.borrow().len());
        Ok(())
    }));
    let plan = builder(b"c")
        .create_db(ConduitDBSource::Generator(Box::new(Counting { runs: runs.clone(), name: "Made" }) as Generator))
        .overwrite_db(ConduitDBSource::Generator(Box::new(Counting { runs: runs.clone(), name: "Redone" }) as Generator))
        .download_db_and(b"Notes".to_vec(), sink);
    let conduit = plan.build(Vec::new()).expect("a conduit");
    assert!(runs.borrow().is_empty());
    let (run, first, hooks) = conduit.begin_sync();
    assert_eq!(hooks.generators.len(), 2);
    let mut served = Served::new(hooks);
    let mut handheld = Handheld::new().with_database(b"Notes", Vec::new()).with_database(b"Redone", vec![b"stale".to_vec()]);
    let result = drive(run, first, &mut served, &mut handheld);
    assert!(result.is_ok());
    assert_eq!(*seen.borrow(), vec![0]);
    assert_eq!(*runs.borrow(), vec!["Redone", "Made"]);
    assert_eq!(served.generated, vec![1, 0]);
    assert_eq!(
        transport_calls(&handheld),
        vec![
            "register",
            "open Notes",
            "count",
            "close",
            "delete Notes",
            "delete Redone",
            "create Made",
            "write record of 4",
            "close",
            "create Redone",
            "write record of 6",
            "close",
            "unregister",
        ]
    );
    assert_eq!(handheld.database(b"Redone").map(|stored| stored[0].bytes.clone()), Some(b"Redone".to_vec()));
}

#[test]
fn a_transport_that_cannot_be_loaded_ends_the_run_without_a_call() {
    let plan = builder(b"c").remove_db(b"Gone".to_vec());
    let mut handheld = Handheld::new();
    handheld.loads = false;
    let (result, _) = sync(plan, &mut handheld);
    assert!(matches!(result, Err(ConduitError::DlOpen2(dlopen2::Error::NullSymbol))));
    assert!(handheld.calls.is_empty());
    assert!(handheld.unregistered.is_empty());
}

#[test]
fn a_registration_that_fails_ends_the_run_without_an_unregistration() {
    let plan = builder(b"c").remove_db(b"Gone".to_vec());
    let mut handheld = Handheld::new();
    handheld.fault = Some((1, SyncManagerError::SYNCERR_COMM_NOT_INIT));
    let (result, _) = sync(plan, &mut handheld);
    assert!(matches!(result, Err(ConduitError::Sync(SyncManagerError::SYNCERR_COMM_NOT_INIT))));
    assert_eq!(calls(&handheld), vec!["register"]);
    assert!(handheld.unregistered.is_empty());
}

fn busy_plan(drained: Rc<RefCell<Vec<Vec<DrainedRecord>>>>) -> Builder {
    builder(b"c")
        .set_preferences(PreferenceType::Dynamic(2, Box::new(|_| Some(vec![1u8, 2])) as Transform))
        .download_db_and(b"Notes".to_vec(), collecting_sink(drained))
        .remove_db(b"Gone".to_vec())
        .create_db(fixed(
            b"Fresh",
            b"DATA",
            vec![record(b"f"), DatabaseEntry::Resource { name: *b"tAIB", id: 1, data: vec![1] }],
        ))
        .overwrite_db(fixed(b"Over", b"DATA", vec![record(b"o")]))
}

fn busy_handheld() -> Handheld {
    let mut handheld = Handheld::new()
        .with_database(b"Notes", vec![b"n".to_vec(), vec![8; 2000]])
        .with_database(b"Gone", Vec::new());
    handheld.preferences.push(((0x48454666, 2), vec![5; 1500]));
    handheld
}

#[test]
fn whatever_call_fails_the_conduit_is_unregistered_once_and_the_failure_is_the_result() {
    let mut clean = busy_handheld();
    let (result, _) = sync(busy_plan(Rc::new(RefCell::new(Vec::new()))), &mut clean);
    assert!(result.is_ok());
    let total = clean.made;
    assert_eq!(clean.calls.last().map(|call| call.as_str()), Some("unregister"));
    assert_eq!(clean.unregistered, vec![77]);
    let completed = clean.calls.iter().position(|call| call == "log Sync completed!").expect("the last line");
    for at in 2..=total {
        let mut handheld = busy_handheld();
        handheld.fault = Some((at, SyncManagerError::SYNCERR_REMOTE_SYS));
        let (result, _) = sync(busy_plan(Rc::new(RefCell::new(Vec::new()))), &mut handheld);
        assert_eq!(handheld.unregistered, vec![77], "call {}", at);
        assert_eq!(handheld.calls.iter().filter(|call| *call == "unregister").count(), 1);
        assert_eq!(handheld.calls.last().map(|call| call.as_str()), Some("unregister"));
        let failed = clean.calls[at - 1].as_str();
        let tolerated = failed == "open Notes" || at - 1 == completed;
        if tolerated {
            assert!(result.is_ok(), "call {} ({})", at, failed);
        } else {
            assert!(
                matches!(result, Err(ConduitError::Sync(SyncManagerError::SYNCERR_REMOTE_SYS))),
                "call {} ({})",
                at,
                failed
            );
        }
        if !tolerated && at != total {
            let rest: Vec<&str> = handheld.calls[at..].iter().map(|call| call.as_str()).collect();
            if failed.starts_with("delete ") {
                assert_eq!(rest.len(), 3, "call {} ({})", at, failed);
                assert!(rest[0].starts_with("log Error while deleting: "));
                assert!(rest[1].starts_with("log Encountered error"));
            } else {
                assert_eq!(rest.len(), 2, "call {} ({})", at, failed);
                assert!(rest[0].starts_with("log Encountered error"));
            }
        }
    }
}

#[test]
fn a_failure_to_unregister_shows_only_if_the_body_succeeded() {
    let mut handheld = Handheld::new();
    let plan = builder(b"c").remove_db(b"Gone".to_vec());
    handheld.fault = Some((6, SyncManagerError::SYNCERR_LOST_CONNECTION));
    let (result, _) = sync(plan, &mut handheld);
    assert_eq!(handheld.calls.last().map(|call| call.as_str()), Some("unregister"));
    assert_eq!(handheld.made, 6);
    assert!(matches!(result, Err(ConduitError::Sync(SyncManagerError::SYNCERR_LOST_CONNECTION))));

    let conduit = builder(b"c").remove_db(b"Gone".to_vec()).build(Vec::new()).expect("a conduit");
    let (run, _, _) = conduit.begin_sync();
    let (run, _) = run.step(Response::Loaded);
    let (run, _) = run.step(Response::Registered { code: NONE, token: 5 });
    let (run, _) = run.step(Response::Status(SyncManagerError::SYNCERR_REMOTE_MEM));
    assert_eq!(run.stage(), Stage::Concluding);
    let (run, request) = run.step(Response::Status(SyncManagerError::SYNCERR_BAD_ARG));
    assert!(matches!(request, Request::Unregister(5)));
    let (run, request) = run.step(Response::Status(SyncManagerError::SYNCERR_LOST_CONNECTION));
    assert!(matches!(request, Request::Done(Err(ConduitError::Sync(SyncManagerError::SYNCERR_REMOTE_MEM)))));
    assert!(run.is_finished());
    assert!(!run.accepts(&Response::Status(NONE)));
}

#[test]
fn a_response_of_the_wrong_kind_is_not_accepted() {
    let conduit = builder(b"c").build(Vec::new()).expect("a conduit");
    let (run, request, _) = conduit.begin_sync();
    assert!(matches!(request, Request::LoadTransport));
    assert_eq!(run.stage(), Stage::Loading);
    assert!(run.accepts(&Response::Loaded));
    assert!(run.accepts(&Response::LoadFailed(ConduitError::NonAsciiErr)));
    assert!(!run.accepts(&Response::Status(NONE)));
    assert!(!run.accepts(&Response::Registered { code: NONE, token: 1 }));
    let (run, request) = run.step(Response::Loaded);
    assert!(matches!(request, Request::Register));
    assert!(run.accepts(&Response::Registered { code: NONE, token: 1 }));
    assert!(!run.accepts(&Response::Loaded));
    assert!(!run.accepts(&Response::Sunk(Ok(()))));
}

#[test]
fn a_name_that_is_no_text_is_shown_with_replacement_characters() {
    let plan = builder(b"caf\xe9").remove_db(b"N\xffme".to_vec());
    let mut handheld = Handheld::new();
    let (result, _) = sync(plan, &mut handheld);
    assert!(result.is_ok());
    assert_eq!(handheld.log[0], "Beginning sync of caf\u{fffd}\n".as_bytes().to_vec());
    assert_eq!(handheld.log[1], "Database not found: N\u{fffd}me\n".as_bytes().to_vec());
    assert_eq!(handheld.calls[2], "delete N\u{fffd}me");
}

#[test]
fn a_name_of_other_than_ascii_text_is_shown_as_it_is() {
    let plan = builder("caf\u{e9}".as_bytes()).create_db(fixed("B\u{fc}cher".as_bytes(), b"DATA", Vec::new()));
    let mut handheld = Handheld::new();
    let (result, _) = sync(plan, &mut handheld);
    assert!(result.is_ok());
    assert_eq!(handheld.log[0], "Beginning sync of caf\u{e9}\n".as_bytes().to_vec());
    assert_eq!(handheld.log[1], "Created database: B\u{fc}cher\n".as_bytes().to_vec());
}

#[test]
fn an_empty_plan_registers_logs_and_unregisters() {
    let mut handheld = Handheld::new();
    let (result, _) = sync(builder(b"idle"), &mut handheld);
    assert!(result.is_ok());
    assert_eq!(
        calls(&handheld),
        vec!["register", "log Beginning sync of idle", "log Sync completed!", "unregister"]
    );
}

#[test]
fn at_most_one_database_is_open_at_a_time() {
    let mut handheld = busy_handheld();
    let (result, _) = sync(busy_plan(Rc::new(RefCell::new(Vec::new()))), &mut handheld);
    assert!(result.is_ok());
    assert_eq!(handheld.most_open, 1);
    assert!(handheld.open.is_none());
}

#[test]
fn the_index_of_a_record_keeps_its_low_16_bits() {
    let conduit = builder(b"c")
        .download_db_and(b"Notes".to_vec(), ConduitDBSink::Dynamic(Box::new(|_| Ok(())) as Sink))
        .build(Vec::new())
        .expect("a conduit");
    let (run, _, _) = conduit.begin_sync();
    let (run, _) = run.step(Response::Loaded);
    let (run, _) = run.step(Response::Registered { code: NONE, token: 1 });
    let (run, _) = run.step(Response::Status(NONE));
    let (run, _) = run.step(Response::Opened { code: NONE, handle: 3 });
    let (mut run, mut request) = run.step(Response::Counted { code: NONE, count: 0x1_0002 });
    for index in 0..0x1_0002u32 {
        let Request::ReadRecordByIndex(mut record) = request else { panic!("a read of record {}", index) };
        assert_eq!(record.m_RecIndex, (index % 0x1_0000) as u16);
        assert_eq!(record.m_FileHandle, 3);
        record.m_pBytes = Vec::new();
        let stepped = run.step(Response::RecordRead { code: NONE, record });
        run = stepped.0;
        request = stepped.1;
    }
    let Request::Sink { index, records } = request else { panic!("the sink") };
    assert_eq!(index, 0);
    assert_eq!(records.len(), 0x1_0002);
    assert_eq!(run.stage(), Stage::Sinking { drain: 0, handle: 3 });
}
