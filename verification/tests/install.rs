use hotsync_conduit_rs::condmgr::{
    closed_text, install_outcome, removal_outcome, CONDUIT_APPLICATION,
};
use hotsync_conduit_rs::{
    u32_to_nonzero_u8, ConduitError, ConduitInstallation, ConduitRegistrationError,
    RegistrationCall,
};

fn plain() -> ConduitInstallation {
    ConduitInstallation::new_with_creator(['H', 'E', 'F', 'f'], b"heffalump_conduit.dll".to_vec())
        .expect("an installation")
}

#[test]
fn a_character_becomes_one_nonzero_byte() {
    assert!(matches!(u32_to_nonzero_u8(1), Ok(1)));
    assert!(matches!(u32_to_nonzero_u8(0x48), Ok(0x48)));
    assert!(matches!(u32_to_nonzero_u8(0x7f), Ok(0x7f)));
    assert!(matches!(u32_to_nonzero_u8(0xff), Ok(0xff)));
}

#[test]
fn a_zero_or_a_wide_character_is_refused() {
    assert!(matches!(u32_to_nonzero_u8(0), Err(ConduitError::NonAsciiErr)));
    assert!(matches!(u32_to_nonzero_u8(0x100), Err(ConduitError::NonAsciiErr)));
    assert!(matches!(u32_to_nonzero_u8(0x20ac), Err(ConduitError::NonAsciiErr)));
    assert!(matches!(u32_to_nonzero_u8(u32::MAX), Err(ConduitError::NonAsciiErr)));
}

#[test]
fn an_installation_keeps_the_bytes_of_its_creator() {
    let installation = plain();
    assert_eq!(installation.creator(), b"HEFf");
    assert_eq!(installation.creator_name(), b"heffalump_conduit.dll");
    let latin = ConduitInstallation::new_with_creator(['\u{e9}', 'a', '\u{ff}', '\u{1}'], Vec::new())
        .expect("an installation");
    assert_eq!(latin.creator(), &vec![0xe9, b'a', 0xff, 1]);
}

#[test]
fn a_creator_with_a_zero_or_a_wide_character_is_refused() {
    for creator in [['\0', 'a', 'b', 'c'], ['a', 'b', 'c', '\u{100}'], ['a', '\u{20ac}', 'b', 'c']] {
        assert!(matches!(
            ConduitInstallation::new_with_creator(creator, b"n".to_vec()),
            Err(ConduitError::NonAsciiErr)
        ));
    }
}

fn creator() -> Vec<u8> {
    b"HEFf".to_vec()
}

#[test]
fn a_plain_installation_registers_names_and_titles_the_conduit() {
    assert_eq!(CONDUIT_APPLICATION, 1);
    assert_eq!(
        plain().install_calls(),
        vec![
            RegistrationCall::InstallCreator { creator: creator(), kind: 1 },
            RegistrationCall::SetCreatorName { creator: creator(), name: b"heffalump_conduit.dll".to_vec() },
            RegistrationCall::SetCreatorTitle { creator: creator(), title: b"heffalump_conduit.dll".to_vec() },
        ]
    );
}

#[test]
fn a_full_installation_sets_every_value_in_order() {
    let installation = plain()
        .with_user(b"me".to_vec())
        .with_title(b"Heffalump".to_vec())
        .with_remote(b"HeffalumpDB".to_vec())
        .with_file(b"heffalump.dat".to_vec())
        .with_directory(b"Heffalump".to_vec());
    assert_eq!(
        installation.install_calls(),
        vec![
            RegistrationCall::InstallCreator { creator: creator(), kind: 1 },
            RegistrationCall::SetCreatorName { creator: creator(), name: b"heffalump_conduit.dll".to_vec() },
            RegistrationCall::SetCreatorDirectory { creator: creator(), directory: b"Heffalump".to_vec() },
            RegistrationCall::SetCreatorFile { creator: creator(), file: b"heffalump.dat".to_vec() },
            RegistrationCall::SetCreatorRemote { creator: creator(), remote: b"HeffalumpDB".to_vec() },
            RegistrationCall::SetCreatorTitle { creator: creator(), title: b"Heffalump".to_vec() },
            RegistrationCall::SetCreatorUser { creator: creator(), user: b"me".to_vec() },
        ]
    );
}

#[test]
fn a_value_set_twice_is_set_to_the_later() {
    let installation = plain().with_title(b"First".to_vec()).with_title(b"Second".to_vec());
    assert_eq!(
        installation.install_calls().last(),
        Some(&RegistrationCall::SetCreatorTitle { creator: creator(), title: b"Second".to_vec() })
    );
}

#[test]
fn the_file_of_a_conduit_bears_its_name() {
    assert_eq!(plain().file_name().expect("a name"), "heffalump_conduit.dll");
    let accented = ConduitInstallation::new_with_creator(['H', 'E', 'F', 'f'], "caf\u{e9}.dll".as_bytes().to_vec())
        .expect("an installation");
    assert_eq!(accented.file_name().expect("a name"), "caf\u{e9}.dll");
}

#[test]
fn a_name_that_is_no_text_names_no_file() {
    let broken = ConduitInstallation::new_with_creator(['H', 'E', 'F', 'f'], b"caf\xe9.dll".to_vec())
        .expect("an installation");
    assert!(matches!(broken.file_name(), Err(ConduitError::NonAsciiErr)));
}

#[test]
fn a_removal_of_nothing_is_no_failure() {
    assert!(removal_outcome(ConduitRegistrationError::ERR_NONE).is_ok());
    assert!(removal_outcome(ConduitRegistrationError::ERR_NO_CONDUIT).is_ok());
    assert!(matches!(
        removal_outcome(ConduitRegistrationError::ERR_REGISTRY_ACCESS),
        Err(ConduitError::Registration(ConduitRegistrationError::ERR_REGISTRY_ACCESS))
    ));
    assert!(matches!(
        removal_outcome(ConduitRegistrationError::ERR_UNABLE_TO_DELETE),
        Err(ConduitError::Registration(ConduitRegistrationError::ERR_UNABLE_TO_DELETE))
    ));
}

#[test]
fn a_closed_text_is_read_up_to_its_zero() {
    let mut buffer = vec![0u8; 100];
    buffer[..11].copy_from_slice(b"C:\\Palm\\HS\0");
    assert_eq!(closed_text(&buffer, 11), Some(b"C:\\Palm\\HS".to_vec()));
    assert_eq!(closed_text(&vec![0], 1), Some(Vec::new()));
    assert_eq!(closed_text(&b"ab\0".to_vec(), 3), Some(b"ab".to_vec()));
}

#[test]
fn a_text_that_is_not_closed_by_its_only_zero_is_none() {
    let buffer = b"abc\0def\0".to_vec();
    assert_eq!(closed_text(&buffer, 0), None);
    assert_eq!(closed_text(&buffer, -1), None);
    assert_eq!(closed_text(&buffer, i32::MIN), None);
    assert_eq!(closed_text(&buffer, 9), None);
    assert_eq!(closed_text(&buffer, i32::MAX), None);
    assert_eq!(closed_text(&buffer, 3), None);
    assert_eq!(closed_text(&buffer, 8), None);
    assert_eq!(closed_text(&buffer, 4), Some(b"abc".to_vec()));
    assert_eq!(closed_text(&Vec::new(), 0), None);
    assert_eq!(closed_text(&Vec::new(), 1), None);
}

#[test]
fn an_installation_goes_well_if_no_call_is_refused() {
    assert!(install_outcome(&Vec::new()).is_ok());
    assert!(install_outcome(&vec![ConduitRegistrationError::ERR_NONE]).is_ok());
    assert!(install_outcome(&vec![ConduitRegistrationError::ERR_NONE; 7]).is_ok());
}

#[test]
fn an_installation_fails_with_the_first_refusal() {
    let none = ConduitRegistrationError::ERR_NONE;
    assert!(matches!(
        install_outcome(&vec![ConduitRegistrationError::ERR_CREATORID_ALREADY_IN_USE]),
        Err(ConduitError::Registration(ConduitRegistrationError::ERR_CREATORID_ALREADY_IN_USE))
    ));
    assert!(matches!(
        install_outcome(&vec![
            none,
            none,
            ConduitRegistrationError::ERR_REGISTRY_ACCESS,
            none,
            ConduitRegistrationError::ERR_NO_MEMORY,
        ]),
        Err(ConduitError::Registration(ConduitRegistrationError::ERR_REGISTRY_ACCESS))
    ));
    assert!(matches!(
        install_outcome(&vec![none, none, none, ConduitRegistrationError::ERR_NO_CONDUIT]),
        Err(ConduitError::Registration(ConduitRegistrationError::ERR_NO_CONDUIT))
    ));
}

#[test]
fn a_driver_that_asks_after_each_call_stops_at_the_first_refusal() {
    let installation = plain().with_directory(b"d".to_vec()).with_user(b"u".to_vec());
    let calls = installation.install_calls();
    assert_eq!(calls.len(), 5);
    let answers = [
        ConduitRegistrationError::ERR_NONE,
        ConduitRegistrationError::ERR_NONE,
        ConduitRegistrationError::ERR_UNABLE_TO_SET_CONDUIT_VALUE,
        ConduitRegistrationError::ERR_NONE,
        ConduitRegistrationError::ERR_NONE,
    ];
    let mut replies = Vec::new();
    for (at, _) in calls.iter().enumerate() {
        replies.push(answers[at]);
        if install_outcome(&replies).is_err() {
            break;
        }
    }
    assert_eq!(replies.len(), 3);
    assert!(matches!(
        install_outcome(&replies),
        Err(ConduitError::Registration(ConduitRegistrationError::ERR_UNABLE_TO_SET_CONDUIT_VALUE))
    ));
}
