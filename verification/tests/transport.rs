use hotsync_conduit_rs::syncmgr_extern::{drain_mode, wire_name};
use hotsync_conduit_rs::{
    eConnType, eDbFlags, eDbOpenModes, eFirstSync, eSyncPref, eSyncRecAttrs, eSyncTypes,
    CDbCreateDB, CRawPreferenceInfo, CRawRecordInfo, RecordAttributes,
};

#[test]
fn wire_values_have_their_numbers() {
    assert_eq!(eSyncTypes::eFast.code(), 0);
    assert_eq!(eSyncTypes::eSlow.code(), 1);
    assert_eq!(eSyncTypes::eHHtoPC.code(), 2);
    assert_eq!(eSyncTypes::ePCtoHH.code(), 3);
    assert_eq!(eSyncTypes::eInstall.code(), 4);
    assert_eq!(eSyncTypes::eBackup.code(), 5);
    assert_eq!(eSyncTypes::eDoNothing.code(), 6);
    assert_eq!(eSyncTypes::eProfileInstall.code(), 7);
    assert_eq!(eSyncTypes::eSyncTypeDoNotUse.code(), 0xffff_ffff);
    assert_eq!(eFirstSync::eNeither.code(), 0);
    assert_eq!(eFirstSync::ePC.code(), 1);
    assert_eq!(eFirstSync::eHH.code(), 2);
    assert_eq!(eFirstSync::eFirstSyncDoNotUse.code(), 0xffff_ffff);
    assert_eq!(eConnType::eCable.code(), 0);
    assert_eq!(eConnType::eModemConnType.code(), 1);
    assert_eq!(eConnType::eConnTypeDoNotUse.code(), 0xffff_ffff);
    assert_eq!(eSyncPref::eNoPreference.code(), 0);
    assert_eq!(eSyncPref::ePermanentPreference.code(), 1);
    assert_eq!(eSyncPref::eTemporaryPreference.code(), 2);
    assert_eq!(eSyncPref::eSyncPrefDoNotUse.code(), 0xffff_ffff);
}

#[test]
fn flags_have_their_bits() {
    assert_eq!(eDbFlags::eRecord().bits(), 0x0000);
    assert_eq!(eDbFlags::eResource().bits(), 0x0001);
    assert_eq!(eDbFlags::eReadOnly().bits(), 0x0002);
    assert_eq!(eDbFlags::eAppInfoDirty().bits(), 0x0004);
    assert_eq!(eDbFlags::eBackupDb().bits(), 0x0008);
    assert_eq!(eDbFlags::eOkToInstallNewer().bits(), 0x0010);
    assert_eq!(eDbFlags::eResetAfterInstall().bits(), 0x0020);
    assert_eq!(eDbFlags::eCopyPRevention().bits(), 0x0040);
    assert_eq!(eDbFlags::eOpenDb().bits(), 0x8000);
    assert_eq!(eSyncRecAttrs::eRecAttrDeleted().bits(), 0x80);
    assert_eq!(eSyncRecAttrs::eRecAttrDirty().bits(), 0x40);
    assert_eq!(eSyncRecAttrs::eRecAttrBusy().bits(), 0x20);
    assert_eq!(eSyncRecAttrs::eRecAttrSecret().bits(), 0x10);
    assert_eq!(eSyncRecAttrs::eRecAttrArchived().bits(), 0x08);
    assert_eq!(eDbOpenModes::eDbShowSecret().bits(), 0x10);
    assert_eq!(eDbOpenModes::eDbExclusive().bits(), 0x20);
    assert_eq!(eDbOpenModes::eDbWrite().bits(), 0x40);
    assert_eq!(eDbOpenModes::eDbRead().bits(), 0x80);
}

#[test]
fn flags_unite_and_contain() {
    let both = eDbFlags::eResource().union(eDbFlags::eBackupDb());
    assert_eq!(both.bits(), 0x0009);
    assert!(both.contains(eDbFlags::eResource()));
    assert!(both.contains(eDbFlags::eBackupDb()));
    assert!(!both.contains(eDbFlags::eReadOnly()));
    assert!(both.contains(eDbFlags::eRecord()));
    let attrs = eSyncRecAttrs::eRecAttrDirty().union(eSyncRecAttrs::eRecAttrSecret());
    assert_eq!(attrs.bits(), 0x50);
    assert!(attrs.contains(eSyncRecAttrs::eRecAttrDirty()));
    assert!(!attrs.contains(eSyncRecAttrs::eRecAttrDeleted()));
    let modes = eDbOpenModes::eDbRead().union(eDbOpenModes::eDbWrite());
    assert_eq!(modes.bits(), 0xc0);
    assert!(modes.contains(eDbOpenModes::eDbWrite()));
    assert!(!modes.contains(eDbOpenModes::eDbExclusive()));
}

#[test]
fn a_drained_database_is_opened_for_itself_alone() {
    assert_eq!(drain_mode().bits(), 0xe0);
}

#[test]
fn a_short_name_is_padded_with_zeros() {
    let wire = wire_name(&b"Foo".to_vec());
    let mut expected = [0u8; 32];
    expected[..3].copy_from_slice(b"Foo");
    assert_eq!(wire, expected);
}

#[test]
fn an_empty_name_is_all_zeros() {
    assert_eq!(wire_name(&Vec::new()), [0u8; 32]);
}

#[test]
fn a_name_of_31_bytes_fits_as_it_is() {
    let name: Vec<u8> = (1..=31).collect();
    let wire = wire_name(&name);
    assert_eq!(&wire[..31], &name[..]);
    assert_eq!(wire[31], 0);
}

#[test]
fn a_long_name_is_cut_to_31_bytes() {
    let name: Vec<u8> = (1..=40).collect();
    let wire = wire_name(&name);
    assert_eq!(&wire[..31], &name[..31]);
    assert_eq!(wire[31], 0);
}

#[test]
fn a_create_request_names_creator_type_and_kind() {
    let request = CDbCreateDB::new(b"HeffalumpAuthorDB".to_vec(), 0x48454666, 0x41757468, false);
    assert_eq!(request.m_FileHandle, 0);
    assert_eq!(request.m_Creator, 0x48454666);
    assert_eq!(request.m_Flags, 0x0000);
    assert_eq!(request.m_CardNo, 0);
    assert_eq!(&request.m_Name[..17], b"HeffalumpAuthorDB");
    assert!(request.m_Name[17..].iter().all(|byte| *byte == 0));
    assert_eq!(request.m_Type, 0x41757468);
    assert_eq!(request.m_Version, 0);
    assert_eq!(request.m_dwReserved, 0);
    let resources = CDbCreateDB::new(b"R".to_vec(), 1, 2, true);
    assert_eq!(resources.m_Flags, 0x0001);
}

#[test]
fn the_handle_of_a_create_request_is_what_the_transport_filled_in() {
    let mut request = CDbCreateDB::new(b"Foo".to_vec(), 1, 2, false);
    assert_eq!(request.handle(), 0);
    request.m_FileHandle = 9;
    assert_eq!(request.handle(), 9);
}

#[test]
fn a_record_to_write_carries_its_length_twice() {
    let request = CRawRecordInfo::new_for_writing(3, 0, 0, None, vec![7u8; 10]);
    assert_eq!(request.m_FileHandle, 3);
    assert_eq!(request.m_RecId, 0);
    assert_eq!(request.m_RecIndex, 0);
    assert_eq!(request.m_Attribs, 0);
    assert_eq!(request.m_CatId, 0);
    assert_eq!(request.m_ConduitId, 0);
    assert_eq!(request.m_RecSize, 10);
    assert_eq!(request.m_TotalBytes, 10);
    assert_eq!(request.m_pBytes, vec![7u8; 10]);
    assert_eq!(request.m_dwReserved, 0);
}

#[test]
fn a_resource_to_write_carries_its_type_and_id() {
    let request =
        CRawRecordInfo::new_for_writing(3, 0x40, 5, Some((0x74414944, 1000)), vec![1, 2, 3]);
    assert_eq!(request.m_RecId, 0x74414944);
    assert_eq!(request.m_RecIndex, 1000);
    assert_eq!(request.m_Attribs, 0x40);
    assert_eq!(request.m_CatId, 5);
    assert_eq!(request.m_RecSize, 3);
    assert_eq!(request.m_TotalBytes, 3);
}

#[test]
fn the_16_bit_size_keeps_the_low_bits_of_a_long_record() {
    let request = CRawRecordInfo::new_for_writing(1, 0, 0, None, vec![0u8; 0x1_0005]);
    assert_eq!(request.m_RecSize, 0x1_0005);
    assert_eq!(request.m_TotalBytes, 5);
    let reading = CRawRecordInfo::new_for_reading_by_index(1, 2, vec![0u8; 0x1_0000]);
    assert_eq!(reading.m_TotalBytes, 0);
}

#[test]
fn a_record_to_read_names_its_index_and_buffer() {
    let request = CRawRecordInfo::new_for_reading_by_index(4, 17, vec![0u8; 1024]);
    assert_eq!(request.m_FileHandle, 4);
    assert_eq!(request.m_RecIndex, 17);
    assert_eq!(request.m_RecId, 0);
    assert_eq!(request.m_RecSize, 0);
    assert_eq!(request.m_TotalBytes, 1024);
    assert_eq!(request.m_pBytes.len(), 1024);
}

#[test]
fn a_preference_request_asks_for_the_whole_preference() {
    let request = CRawPreferenceInfo::new_with_buffer(0, 0x48454666, 3, vec![0u8; 1024]);
    assert_eq!(request.m_version, 0);
    assert_eq!(request.m_creator, 0x48454666);
    assert_eq!(request.m_prefId, 3);
    assert_eq!(request.m_reqBytes, 0xffff);
    assert_eq!(request.m_retBytes, 0);
    assert_eq!(request.m_actSize, 0);
    assert_eq!(request.m_backedUp, 0);
    assert_eq!(request.m_nBytes, 1024);
    assert_eq!(request.m_pBytes, vec![0u8; 1024]);
    assert_eq!(request.get_required_size(), 0);
    let writing = CRawPreferenceInfo::new_with_buffer(1, 1, 2, vec![9, 9]);
    assert_eq!(writing.m_backedUp, 1);
    assert_eq!(writing.m_nBytes, 2);
}

#[test]
fn attributes_are_read_from_their_bits() {
    let attributes = RecordAttributes::from_transport(0xf8, 3);
    assert_eq!(
        attributes,
        RecordAttributes {
            deleted: true,
            dirty: true,
            busy: true,
            secret: true,
            archived: true,
            category: 3
        }
    );
    let none = RecordAttributes::from_transport(0x07, 0);
    assert_eq!(
        none,
        RecordAttributes {
            deleted: false,
            dirty: false,
            busy: false,
            secret: false,
            archived: false,
            category: 0
        }
    );
    let some = RecordAttributes::from_transport(0x50, -2);
    assert!(!some.deleted && some.dirty && !some.busy && some.secret && !some.archived);
    assert_eq!(some.category, -2);
}

#[test]
fn attributes_and_their_bits_round_trip() {
    for bits in 0..=255u8 {
        let attributes = RecordAttributes::from_transport(bits, 7);
        assert_eq!(attributes.bits(), bits & 0xf8);
        assert_eq!(RecordAttributes::from_transport(attributes.bits(), 7), attributes);
    }
}
