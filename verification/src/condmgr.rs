//! The installation of a conduit with the registration manager: what is
//! registered, and by which calls, in which order.

use crate::error::{ConduitError, ConduitRegistrationError};
use crate::text::utf8_text;
use vstd::prelude::*;
use vstd::utf8::{encode_utf8, valid_utf8};

verus! {

/// The kind under which a conduit is registered: an application.
pub const CONDUIT_APPLICATION: i32 = 1;

/// The byte that a character of an identity stands for, if it is one of
/// the 255 characters that one nonzero byte can hold.
pub open spec fn spec_nonzero_u8(value: u32) -> Option<u8> {
    if 0 < value <= 0xff {
        Some(value as u8)
    } else {
        None
    }
}

/// Turns the number of a character into one nonzero byte. A zero, and a
/// number that one byte cannot hold, are refused.
pub fn u32_to_nonzero_u8(value: u32) -> (byte: Result<u8, ConduitError>)
    ensures
        byte is Ok <==> spec_nonzero_u8(value) is Some,
        byte matches Ok(found) ==> spec_nonzero_u8(value) == Some(found) && found != 0,
        byte matches Err(error) ==> error is NonAsciiErr,
{
    if 0 < value && value <= 0xff {
        Ok(value as u8)
    } else {
        Err(ConduitError::NonAsciiErr)
    }
}

/// What is registered for a conduit: the creator whose data it handles,
/// its name, and what else the registration manager may be told of it.
#[derive(Debug)]
pub struct ConduitInstallation {
    creator: Vec<u8>,
    creator_name: Vec<u8>,
    creator_directory: Option<Vec<u8>>,
    creator_file: Option<Vec<u8>>,
    creator_remote: Option<Vec<u8>>,
    creator_title: Option<Vec<u8>>,
    creator_user: Option<Vec<u8>>,
}

/// A [`ConduitInstallation`] over sequences of bytes.
pub struct InstallationView {
    pub creator: Seq<u8>,
    pub creator_name: Seq<u8>,
    pub creator_directory: Option<Seq<u8>>,
    pub creator_file: Option<Seq<u8>>,
    pub creator_remote: Option<Seq<u8>>,
    pub creator_title: Option<Seq<u8>>,
    pub creator_user: Option<Seq<u8>>,
}

/// Some bytes, if there are any, as a sequence.
pub open spec fn optional_view(bytes: Option<Vec<u8>>) -> Option<Seq<u8>> {
    match bytes {
        Some(bytes) => Some(bytes@),
        None => None,
    }
}

impl View for ConduitInstallation {
    type V = InstallationView;

    closed spec fn view(&self) -> InstallationView {
        InstallationView {
            creator: self.creator@,
            creator_name: self.creator_name@,
            creator_directory: optional_view(self.creator_directory),
            creator_file: optional_view(self.creator_file),
            creator_remote: optional_view(self.creator_remote),
            creator_title: optional_view(self.creator_title),
            creator_user: optional_view(self.creator_user),
        }
    }
}

/// One call to the registration manager. Each names the creator; all but
/// the first set one of its values.
#[derive(Debug, Clone, PartialEq, Eq)]
pub enum RegistrationCall {
    /// Registers the creator as a conduit of a kind.
    InstallCreator { creator: Vec<u8>, kind: i32 },
    SetCreatorName { creator: Vec<u8>, name: Vec<u8> },
    SetCreatorDirectory { creator: Vec<u8>, directory: Vec<u8> },
    SetCreatorFile { creator: Vec<u8>, file: Vec<u8> },
    SetCreatorRemote { creator: Vec<u8>, remote: Vec<u8> },
    SetCreatorTitle { creator: Vec<u8>, title: Vec<u8> },
    SetCreatorUser { creator: Vec<u8>, user: Vec<u8> },
}

/// A [`RegistrationCall`] over sequences of bytes.
pub enum CallView {
    InstallCreator { creator: Seq<u8>, kind: i32 },
    SetCreatorName { creator: Seq<u8>, name: Seq<u8> },
    SetCreatorDirectory { creator: Seq<u8>, directory: Seq<u8> },
    SetCreatorFile { creator: Seq<u8>, file: Seq<u8> },
    SetCreatorRemote { creator: Seq<u8>, remote: Seq<u8> },
    SetCreatorTitle { creator: Seq<u8>, title: Seq<u8> },
    SetCreatorUser { creator: Seq<u8>, user: Seq<u8> },
}

impl View for RegistrationCall {
    type V = CallView;

    open spec fn view(&self) -> CallView {
        match *self {
            RegistrationCall::InstallCreator { creator, kind } => CallView::InstallCreator {
                creator: creator@,
                kind,
            },
            RegistrationCall::SetCreatorName { creator, name } => CallView::SetCreatorName {
                creator: creator@,
                name: name@,
            },
            RegistrationCall::SetCreatorDirectory {
                creator,
                directory,
            } => CallView::SetCreatorDirectory { creator: creator@, directory: directory@ },
            RegistrationCall::SetCreatorFile { creator, file } => CallView::SetCreatorFile {
                creator: creator@,
                file: file@,
            },
            RegistrationCall::SetCreatorRemote { creator, remote } => CallView::SetCreatorRemote {
                creator: creator@,
                remote: remote@,
            },
            RegistrationCall::SetCreatorTitle { creator, title } => CallView::SetCreatorTitle {
                creator: creator@,
                title: title@,
            },
            RegistrationCall::SetCreatorUser { creator, user } => CallView::SetCreatorUser {
                creator: creator@,
                user: user@,
            },
        }
    }
}

/// A call, if there is a value to set.
pub open spec fn optional_call(value: Option<Seq<u8>>, call: spec_fn(Seq<u8>) -> CallView) -> Seq<
    CallView,
> {
    match value {
        Some(value) => seq![call(value)],
        None => Seq::empty(),
    }
}

/// The calls that install a conduit, in their order: the creator is
/// registered as an application and named; its directory, file and remote
/// database are set where they are given; its title is set, to the name
/// of the conduit where none is given; and its user is set where one is
/// given.
pub open spec fn spec_install_calls(installation: InstallationView) -> Seq<CallView> {
    let creator = installation.creator;
    seq![
        CallView::InstallCreator { creator, kind: CONDUIT_APPLICATION },
        CallView::SetCreatorName { creator, name: installation.creator_name },
    ] + optional_call(
        installation.creator_directory,
        |directory: Seq<u8>| CallView::SetCreatorDirectory { creator, directory },
    ) + optional_call(
        installation.creator_file,
        |file: Seq<u8>| CallView::SetCreatorFile { creator, file },
    ) + optional_call(
        installation.creator_remote,
        |remote: Seq<u8>| CallView::SetCreatorRemote { creator, remote },
    ) + seq![
        CallView::SetCreatorTitle {
            creator,
            title: match installation.creator_title {
                Some(title) => title,
                None => installation.creator_name,
            },
        },
    ] + optional_call(
        installation.creator_user,
        |user: Seq<u8>| CallView::SetCreatorUser { creator, user },
    )
}

/// The calls of a list over sequences of bytes.
pub open spec fn calls_view(calls: Seq<RegistrationCall>) -> Seq<CallView> {
    calls.map_values(|call: RegistrationCall| call@)
}

impl ConduitInstallation {
    /// The installation of the conduit of a name for a creator. Each of
    /// the four characters of the creator must fit one nonzero byte.
    pub fn new_with_creator(creator: [char; 4], conduit_name: Vec<u8>) -> (installation: Result<
        Self,
        ConduitError,
    >)
        ensures
            installation is Ok <==> forall|i: int|
                0 <= i < 4 ==> spec_nonzero_u8(#[trigger] creator@[i] as u32) is Some,
            installation matches Ok(made) ==> made@ == (InstallationView {
                creator: Seq::new(4, |i: int| creator@[i] as u32 as u8),
                creator_name: conduit_name@,
                creator_directory: None,
                creator_file: None,
                creator_remote: None,
                creator_title: None,
                creator_user: None,
            }),
            installation matches Err(error) ==> error is NonAsciiErr,
    {
        let mut bytes: Vec<u8> = Vec::new();
        let mut at: usize = 0;
        while at < 4
            invariant
                at <= 4,
                bytes@.len() == at,
                forall|i: int| 0 <= i < at ==> spec_nonzero_u8(#[trigger] creator@[i] as u32) is Some,
                forall|i: int| 0 <= i < at ==> bytes@[i] == creator@[i] as u32 as u8,
            decreases 4 - at,
        {
            let byte = match u32_to_nonzero_u8(creator[at] as u32) {
                Ok(byte) => byte,
                Err(error) => {
                    return Err(error);
                },
            };
            bytes.push(byte);
            at += 1;
        }
        let made = ConduitInstallation {
            creator: bytes,
            creator_name: conduit_name,
            creator_directory: None,
            creator_file: None,
            creator_remote: None,
            creator_title: None,
            creator_user: None,
        };
        assert(made@.creator =~= Seq::new(4, |i: int| creator@[i] as u32 as u8));
        Ok(made)
    }

    /// Sets the directory in which the conduit keeps its files.
    pub fn with_directory(self, creator_directory: Vec<u8>) -> (installation: Self)
        ensures
            installation@ == (InstallationView {
                creator_directory: Some(creator_directory@),
                ..self@
            }),
    {
        let mut installation = self;
        installation.creator_directory = Some(creator_directory);
        installation
    }

    /// Sets the file of the conduit in its directory.
    pub fn with_file(self, creator_file: Vec<u8>) -> (installation: Self)
        ensures
            installation@ == (InstallationView { creator_file: Some(creator_file@), ..self@ }),
    {
        let mut installation = self;
        installation.creator_file = Some(creator_file);
        installation
    }

    /// Sets the database that is created on the handheld if it is not
    /// there.
    pub fn with_remote(self, creator_remote: Vec<u8>) -> (installation: Self)
        ensures
            installation@ == (InstallationView { creator_remote: Some(creator_remote@), ..self@ }),
    {
        let mut installation = self;
        installation.creator_remote = Some(creator_remote);
        installation
    }

    /// Sets the name under which the conduit is shown.
    pub fn with_title(self, creator_title: Vec<u8>) -> (installation: Self)
        ensures
            installation@ == (InstallationView { creator_title: Some(creator_title@), ..self@ }),
    {
        let mut installation = self;
        installation.creator_title = Some(creator_title);
        installation
    }

    /// Sets the user for whom the conduit is installed.
    pub fn with_user(self, creator_user: Vec<u8>) -> (installation: Self)
        ensures
            installation@ == (InstallationView { creator_user: Some(creator_user@), ..self@ }),
    {
        let mut installation = self;
        installation.creator_user = Some(creator_user);
        installation
    }

    /// The creator of the conduit, as the bytes of its four characters.
    pub fn creator(&self) -> (creator: &Vec<u8>)
        ensures
            creator@ == self@.creator,
    {
        &self.creator
    }

    /// The name of the conduit.
    pub fn creator_name(&self) -> (name: &Vec<u8>)
        ensures
            name@ == self@.creator_name,
    {
        &self.creator_name
    }

    /// The name of the file in which the conduit itself is installed: the
    /// name of the conduit as text. A name that is not valid UTF-8 names
    /// no file.
    pub fn file_name(&self) -> (name: Result<String, ConduitError>)
        ensures
            name is Ok <==> valid_utf8(self@.creator_name),
            name matches Ok(text) ==> encode_utf8(text@) == self@.creator_name,
            name matches Err(error) ==> error is NonAsciiErr,
    {
        match utf8_text(self.creator_name.clone()) {
            Some(text) => Ok(text),
            None => Err(ConduitError::NonAsciiErr),
        }
    }

    /// The calls that install the conduit, in the order in which they are
    /// to be made; the installation stops at the first call that fails.
    pub fn install_calls(&self) -> (calls: Vec<RegistrationCall>)
        ensures
            calls_view(calls@) == spec_install_calls(self@),
    {
        let mut calls: Vec<RegistrationCall> = Vec::new();
        calls.push(
            RegistrationCall::InstallCreator {
                creator: self.creator.clone(),
                kind: CONDUIT_APPLICATION,
            },
        );
        calls.push(
            RegistrationCall::SetCreatorName {
                creator: self.creator.clone(),
                name: self.creator_name.clone(),
            },
        );
        match &self.creator_directory {
            Some(directory) => {
                calls.push(
                    RegistrationCall::SetCreatorDirectory {
                        creator: self.creator.clone(),
                        directory: directory.clone(),
                    },
                );
            },
            None => {},
        }
        match &self.creator_file {
            Some(file) => {
                calls.push(
                    RegistrationCall::SetCreatorFile {
                        creator: self.creator.clone(),
                        file: file.clone(),
                    },
                );
            },
            None => {},
        }
        match &self.creator_remote {
            Some(remote) => {
                calls.push(
                    RegistrationCall::SetCreatorRemote {
                        creator: self.creator.clone(),
                        remote: remote.clone(),
                    },
                );
            },
            None => {},
        }
        let title = match &self.creator_title {
            Some(title) => title.clone(),
            None => self.creator_name.clone(),
        };
        calls.push(RegistrationCall::SetCreatorTitle { creator: self.creator.clone(), title });
        match &self.creator_user {
            Some(user) => {
                calls.push(
                    RegistrationCall::SetCreatorUser {
                        creator: self.creator.clone(),
                        user: user.clone(),
                    },
                );
            },
            None => {},
        }
        assert(calls_view(calls@) =~= spec_install_calls(self@));
        calls
    }
}

/// The place of the first of some replies that reports a failure, or the
/// number of the replies where none does.
pub open spec fn first_refusal(replies: Seq<ConduitRegistrationError>) -> int
    decreases replies.len(),
{
    if replies.len() == 0 {
        0
    } else if first_refusal(replies.drop_last()) < replies.len() - 1 {
        first_refusal(replies.drop_last())
    } else if replies.last() != ConduitRegistrationError::ERR_NONE {
        replies.len() - 1
    } else {
        replies.len() as int
    }
}

/// The first refusal among some replies is a refusal, and no reply before
/// it is one.
pub proof fn lemma_first_refusal(replies: Seq<ConduitRegistrationError>)
    ensures
        0 <= first_refusal(replies) <= replies.len(),
        forall|at: int|
            0 <= at < first_refusal(replies) ==> replies[at] == ConduitRegistrationError::ERR_NONE,
        first_refusal(replies) < replies.len() ==> replies[first_refusal(replies)]
            != ConduitRegistrationError::ERR_NONE,
    decreases replies.len(),
{
    if replies.len() > 0 {
        let before = replies.drop_last();
        lemma_first_refusal(before);
        assert forall|at: int| 0 <= at < first_refusal(replies) implies replies[at]
            == ConduitRegistrationError::ERR_NONE by {
            if at < before.len() {
                assert(before[at] == replies[at]);
            }
        }
        if first_refusal(before) < before.len() {
            assert(before[first_refusal(before)] == replies[first_refusal(before)]);
        }
    }
}

/// What became of an installation, by the replies to its calls in their
/// order: the installation failed with the first reply that is not
/// `ERR_NONE`, and went well if there is none. A driver makes the calls of
/// [`ConduitInstallation::install_calls`] one by one and asks after each;
/// it makes no call after a failure, and installs the file of the conduit
/// only when every call was made and the outcome is still good.
pub fn install_outcome(replies: &Vec<ConduitRegistrationError>) -> (outcome: Result<
    (),
    ConduitError,
>)
    ensures
        outcome is Ok <==> first_refusal(replies@) == replies@.len(),
        outcome is Ok <==> forall|at: int|
            0 <= at < replies@.len() ==> replies@[at] == ConduitRegistrationError::ERR_NONE,
        outcome matches Err(error) ==> first_refusal(replies@) < replies@.len() && error
            == ConduitError::Registration(replies@[first_refusal(replies@)]),
{
    let mut at: usize = 0;
    proof {
        assert(replies@.take(0) =~= Seq::empty());
    }
    while at < replies.len()
        invariant
            at <= replies.len(),
            first_refusal(replies@.take(at as int)) == at,
        decreases replies.len() - at,
    {
        proof {
            assert(replies@.take(at + 1).drop_last() =~= replies@.take(at as int));
            assert(replies@.take(at + 1).last() == replies@[at as int]);
        }
        if replies[at] != ConduitRegistrationError::ERR_NONE {
            proof {
                lemma_refusal_stays(replies@, at + 1);
                lemma_first_refusal(replies@);
            }
            return Err(ConduitError::Registration(replies[at]));
        }
        at += 1;
    }
    proof {
        assert(replies@.take(at as int) =~= replies@);
        lemma_first_refusal(replies@);
    }
    Ok(())
}

/// A refusal among the first of some replies is the first refusal of them
/// all.
proof fn lemma_refusal_stays(replies: Seq<ConduitRegistrationError>, len: int)
    requires
        0 <= len <= replies.len(),
        first_refusal(replies.take(len)) < len,
    ensures
        first_refusal(replies) == first_refusal(replies.take(len)),
    decreases replies.len(),
{
    if len == replies.len() {
        assert(replies.take(len) =~= replies);
    } else {
        assert(replies.drop_last().take(len) =~= replies.take(len));
        lemma_refusal_stays(replies.drop_last(), len);
    }
}

/// Whether the removal of an earlier installation went well enough to
/// install anew: the conduit was removed, or there was none.
pub open spec fn spec_removal_outcome(code: ConduitRegistrationError) -> Result<(), ConduitError> {
    if code == ConduitRegistrationError::ERR_NONE || code
        == ConduitRegistrationError::ERR_NO_CONDUIT {
        Ok(())
    } else {
        Err(ConduitError::Registration(code))
    }
}

/// Judges the removal that comes before a conduit is installed anew. That
/// there was no conduit to remove is no failure.
pub fn removal_outcome(code: ConduitRegistrationError) -> (outcome: Result<(), ConduitError>)
    ensures
        outcome == spec_removal_outcome(code),
{
    if code.code() < 0 && code != ConduitRegistrationError::ERR_NO_CONDUIT {
        Err(ConduitError::Registration(code))
    } else {
        Ok(())
    }
}

/// The text that stands in the first `size` bytes of a buffer, if they are
/// a text closed by its only zero.
pub open spec fn spec_closed_text(buffer: Seq<u8>, size: int) -> Option<Seq<u8>> {
    if 0 < size <= buffer.len() && buffer[size - 1] == 0 && forall|i: int|
        0 <= i < size - 1 ==> buffer[i] != 0 {
        Some(buffer.subrange(0, size - 1))
    } else {
        None
    }
}

/// Reads the text that the registration manager wrote into a buffer, of
/// which it reports to have used `size` bytes, the closing zero included.
/// There is no text if the size is not within the buffer, or if the bytes
/// are not closed by their only zero.
pub fn closed_text(buffer: &Vec<u8>, size: i32) -> (found: Option<Vec<u8>>)
    ensures
        optional_view(found) == spec_closed_text(buffer@, size as int),
{
    if size <= 0 || size as usize > buffer.len() {
        return None;
    }
    let len = size as usize - 1;
    if buffer[len] != 0 {
        return None;
    }
    let mut found: Vec<u8> = Vec::new();
    let mut at: usize = 0;
    while at < len
        invariant
            at <= len,
            len == size - 1,
            len < buffer.len(),
            buffer@[len as int] == 0,
            found@ == buffer@.subrange(0, at as int),
            forall|i: int| 0 <= i < at ==> buffer@[i] != 0,
        decreases len - at,
    {
        if buffer[at] == 0 {
            return None;
        }
        found.push(buffer[at]);
        assert(found@ =~= buffer@.subrange(0, at + 1));
        at += 1;
    }
    Some(found)
}

} // verus!
