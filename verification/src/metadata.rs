//! The rules that gate every change of one character: who may touch it,
//! which revision may come next, and what each answer of the file system
//! means for the caller.
use vstd::prelude::*;
use crate::codec::{
    decode_character,
    decode_metadata,
    encode_character,
    encode_metadata,
    character_bytes,
    metadata_bytes,
    parse_character,
    parse_metadata,
    Character,
    CharacterMetadata,
    CharacterView,
    MetadataView,
};
use crate::errors::{fails_with, Error, ErrorCode, ErrorView};
use crate::layout::{Action, ActionView, Event, EventView, IoFailure};
use crate::text::{decimal, numbered};

verus! {

/// A failure of the given kind with the given message.
pub open spec fn failure(code: ErrorCode, message: Seq<char>) -> ErrorView {
    ErrorView { code, message }
}

/// Whether `new_revision` may follow: the first revision is 0, and every
/// later one is greater than the latest.
pub open spec fn in_order(latest: Option<u64>, new_revision: u64) -> bool {
    match latest {
        None => new_revision == 0,
        Some(n) => new_revision > n,
    }
}

/// The latest revision, or 0 where there is none.
pub open spec fn latest_or_zero(latest: Option<u64>) -> u64 {
    match latest {
        None => 0,
        Some(n) => n,
    }
}

/// The failure that answers a revision out of order.
pub open spec fn out_of_order(latest: Option<u64>) -> ErrorView {
    failure(
        ErrorCode::OutOfOrder,
        "revisions need to be sent in order, last known revision is "@ + decimal(
            latest_or_zero(latest) as nat,
        ),
    )
}

/// What the answer to creating a character's directory means.
pub open spec fn directory_failure(event: EventView) -> Option<ErrorView> {
    match event {
        EventView::Completed => None,
        _ => Some(failure(ErrorCode::Internal, "failed to create character"@)),
    }
}

/// What the answer to writing a metadata file means.
pub open spec fn metadata_write_failure(event: EventView) -> Option<ErrorView> {
    match event {
        EventView::Completed => None,
        EventView::OpenFailed(IoFailure::AlreadyExists) => Some(
            failure(ErrorCode::Exists, "metadata file already exists"@),
        ),
        EventView::OpenFailed(IoFailure::NotFound) => Some(
            failure(ErrorCode::NotFound, "metadata file doesn't exists"@),
        ),
        EventView::OpenFailed(IoFailure::Other) => Some(
            failure(ErrorCode::Internal, "unexpected error writing metadata"@),
        ),
        _ => Some(failure(ErrorCode::Internal, "failed to write metadata"@)),
    }
}

/// What the answer to creating a revision file means, as far as the
/// creation goes.
pub open spec fn revision_create_failure(revision: u64, event: EventView) -> Option<ErrorView> {
    match event {
        EventView::OpenFailed(IoFailure::AlreadyExists) => Some(
            failure(
                ErrorCode::Exists,
                "revision "@ + decimal(revision as nat) + " already exists"@,
            ),
        ),
        EventView::OpenFailed(_) => Some(
            failure(ErrorCode::Internal, "unexpected error writing revision"@),
        ),
        _ => None,
    }
}

/// What the answer to creating a revision file means for the bytes that
/// were to go into it.
pub open spec fn revision_fill_failure(event: EventView) -> Option<ErrorView> {
    match event {
        EventView::Completed => None,
        _ => Some(failure(ErrorCode::Internal, "failed to write character revision"@)),
    }
}

/// What the answer to writing a revision means.
pub open spec fn revision_write_failure(revision: u64, event: EventView) -> Option<ErrorView> {
    match revision_create_failure(revision, event) {
        Some(e) => Some(e),
        None => revision_fill_failure(event),
    }
}

/// What the answer to reading a revision means, as far as opening the file
/// goes.
pub open spec fn revision_open_failure(revision: u64, event: EventView) -> Option<ErrorView> {
    match event {
        EventView::OpenFailed(IoFailure::NotFound) => Some(
            failure(
                ErrorCode::NotFound,
                "revision "@ + decimal(revision as nat) + " doesn't exists"@,
            ),
        ),
        EventView::OpenFailed(_) => Some(
            failure(ErrorCode::Internal, "unexpected error opening revision"@),
        ),
        _ => None,
    }
}

/// What the answer to reading a revision means.
pub open spec fn revision_read_result(revision: u64, event: EventView) -> Result<
    CharacterView,
    ErrorView,
> {
    match revision_open_failure(revision, event) {
        Some(e) => Err(e),
        None => match event {
            EventView::Content(bytes) => match parse_character(bytes) {
                Some(c) => Ok(c),
                None => Err(failure(ErrorCode::Internal, "could not decode character"@)),
            },
            _ => Err(failure(ErrorCode::Internal, "could not decode character"@)),
        },
    }
}

/// What the answer to reading a metadata file means.
pub open spec fn metadata_read_result(event: EventView) -> Result<MetadataView, ErrorView> {
    match event {
        EventView::OpenFailed(IoFailure::NotFound) => Err(
            failure(ErrorCode::NotFound, "metadata file doesn't exists"@),
        ),
        EventView::OpenFailed(_) => Err(
            failure(ErrorCode::Internal, "unexpected error opening revision"@),
        ),
        EventView::Content(bytes) => match parse_metadata(bytes) {
            Some(m) => Ok(m),
            None => Err(failure(ErrorCode::Internal, "could not decode metadata"@)),
        },
        _ => Err(failure(ErrorCode::Internal, "could not decode metadata"@)),
    }
}

/// Whether `r` is the executable form of `failed`.
pub open spec fn reports(r: Result<(), Error>, failed: Option<ErrorView>) -> bool {
    match r {
        Ok(_) => failed is None,
        Err(e) => failed == Some(e@),
    }
}

impl CharacterMetadata {
    /// The record of a character that has no revision yet.
    pub fn new(uuid: String, owner: String) -> (r: CharacterMetadata)
        ensures
            r@ == (MetadataView { uuid: uuid@, owner: owner@, latest_revision: None }),
    {
        CharacterMetadata { uuid, owner, latest_revision: None }
    }

    /// The latest revision, or 0 where there is none.
    pub fn get_latest_revision(&self) -> (r: u64)
        ensures
            r == latest_or_zero(self@.latest_revision),
    {
        match self.latest_revision {
            Some(n) => n,
            None => 0,
        }
    }

    /// Whether a revision was written.
    pub fn has_latest_revision(&self) -> (r: bool)
        ensures
            r == self@.latest_revision is Some,
    {
        self.latest_revision.is_some()
    }

    /// Records `revision` as the latest.
    pub fn set_latest_revision(&mut self, revision: u64)
        ensures
            final(self)@ == (MetadataView { latest_revision: Some(revision), ..old(self)@ }),
    {
        self.latest_revision = Some(revision);
    }

    /// The record as it is once `revision` is the latest.
    pub fn with_latest_revision(&self, revision: u64) -> (r: CharacterMetadata)
        ensures
            r@ == (MetadataView { latest_revision: Some(revision), ..self@ }),
    {
        CharacterMetadata {
            uuid: self.uuid.clone(),
            owner: self.owner.clone(),
            latest_revision: Some(revision),
        }
    }

    /// Only the owner may touch a character.
    pub fn authorize(&self, user: String) -> (r: Result<(), Error>)
        ensures
            user@ == self@.owner ==> r is Ok,
            user@ != self@.owner ==> fails_with(r, ErrorCode::Unauthorized, "unauthorized"@),
    {
        if user == self.owner {
            Ok(())
        } else {
            Err(Error::new(ErrorCode::Unauthorized, "unauthorized"))
        }
    }

    /// The first revision is 0 and every later one is greater than the
    /// latest. The failure names the latest revision, or 0 where there is
    /// none.
    pub fn check_revision_order(&self, new_revision: u64) -> (r: Result<(), Error>)
        ensures
            in_order(self@.latest_revision, new_revision) ==> r is Ok,
            !in_order(self@.latest_revision, new_revision) ==> reports(
                r,
                Some(out_of_order(self@.latest_revision)),
            ),
    {
        let accepted = match self.latest_revision {
            None => new_revision == 0,
            Some(latest) => new_revision > latest,
        };
        if accepted {
            Ok(())
        } else {
            let message = numbered(
                "revisions need to be sent in order, last known revision is ",
                self.get_latest_revision(),
                "",
            );
            proof {
                reveal_strlit("");
            }
            assert(message@ =~= out_of_order(self@.latest_revision).message);
            Err(Error::new(ErrorCode::OutOfOrder, message.as_str()))
        }
    }

    /// The action that creates the character's directory.
    pub fn directory_request(&self) -> (r: Action)
        ensures
            r@ == (ActionView::CreateDirectory { uuid: self@.uuid }),
    {
        Action::CreateDirectory { uuid: self.uuid.clone() }
    }

    /// The action that writes the record into a metadata file of its own.
    pub fn create_request(&self) -> (r: Action)
        ensures
            r@ == (ActionView::CreateMetadata { uuid: self@.uuid, bytes: metadata_bytes(self@) }),
    {
        Action::CreateMetadata { uuid: self.uuid.clone(), bytes: encode_metadata(self) }
    }

    /// The action that writes the record over the metadata file.
    pub fn replace_request(&self) -> (r: Action)
        ensures
            r@ == (ActionView::ReplaceMetadata { uuid: self@.uuid, bytes: metadata_bytes(self@) }),
    {
        Action::ReplaceMetadata { uuid: self.uuid.clone(), bytes: encode_metadata(self) }
    }

    /// The action that reads the metadata file of the directory `uuid`.
    pub fn load_request(uuid: &str) -> (r: Action)
        ensures
            r@ == (ActionView::ReadMetadata { uuid: uuid@ }),
    {
        Action::ReadMetadata { uuid: uuid.to_owned() }
    }

    /// The action that writes `character` as the revision `revision`.
    pub fn write_request(&self, revision: u64, character: &Character) -> (r: Action)
        ensures
            r@ == (ActionView::CreateRevision {
                uuid: self@.uuid,
                revision,
                bytes: character_bytes(character@),
            }),
    {
        Action::CreateRevision {
            uuid: self.uuid.clone(),
            revision,
            bytes: encode_character(character),
        }
    }

    /// The action that reads the revision `revision`.
    pub fn read_request(&self, revision: u64) -> (r: Action)
        ensures
            r@ == (ActionView::ReadRevision { uuid: self@.uuid, revision }),
    {
        Action::ReadRevision { uuid: self.uuid.clone(), revision }
    }

    /// What came of creating the character's directory.
    pub fn create_character_directory(event: &Event) -> (r: Result<(), Error>)
        ensures
            reports(r, directory_failure(event@)),
    {
        match event {
            Event::Completed => Ok(()),
            _ => Err(Error::new(ErrorCode::Internal, "failed to create character")),
        }
    }

    /// What came of writing a metadata file, new or not.
    pub fn write_to_file(event: &Event) -> (r: Result<(), Error>)
        ensures
            reports(r, metadata_write_failure(event@)),
    {
        match event {
            Event::Completed => Ok(()),
            Event::OpenFailed(IoFailure::AlreadyExists) => Err(
                Error::new(ErrorCode::Exists, "metadata file already exists"),
            ),
            Event::OpenFailed(IoFailure::NotFound) => Err(
                Error::new(ErrorCode::NotFound, "metadata file doesn't exists"),
            ),
            Event::OpenFailed(IoFailure::Other) => Err(
                Error::new(ErrorCode::Internal, "unexpected error writing metadata"),
            ),
            _ => Err(Error::new(ErrorCode::Internal, "failed to write metadata")),
        }
    }

    /// What came of writing the record into a metadata file of its own.
    pub fn write_to_root(event: &Event) -> (r: Result<(), Error>)
        ensures
            reports(r, metadata_write_failure(event@)),
    {
        CharacterMetadata::write_to_file(event)
    }

    /// What came of writing the record over the metadata file.
    pub fn update_at_root(event: &Event) -> (r: Result<(), Error>)
        ensures
            reports(r, metadata_write_failure(event@)),
    {
        CharacterMetadata::write_to_file(event)
    }

    /// What came of reading a metadata file: the record it holds.
    pub fn read_from_root(event: &Event) -> (r: Result<CharacterMetadata, Error>)
        ensures
            match r {
                Ok(m) => metadata_read_result(event@) == Ok::<MetadataView, ErrorView>(m@),
                Err(e) => metadata_read_result(event@) == Err::<MetadataView, ErrorView>(e@),
            },
    {
        match event {
            Event::OpenFailed(IoFailure::NotFound) => Err(
                Error::new(ErrorCode::NotFound, "metadata file doesn't exists"),
            ),
            Event::OpenFailed(_) => Err(
                Error::new(ErrorCode::Internal, "unexpected error opening revision"),
            ),
            Event::Content(bytes) => match decode_metadata(bytes.as_slice()) {
                Some(m) => Ok(m),
                None => Err(Error::new(ErrorCode::Internal, "could not decode metadata")),
            },
            _ => Err(Error::new(ErrorCode::Internal, "could not decode metadata")),
        }
    }

    /// What came of creating the file of a revision: a file that is there
    /// already is never written over.
    pub fn create_revision_file(revision: u64, event: &Event) -> (r: Result<(), Error>)
        ensures
            reports(r, revision_create_failure(revision, event@)),
    {
        match event {
            Event::OpenFailed(IoFailure::AlreadyExists) => {
                let message = numbered("revision ", revision, " already exists");
                Err(Error::new(ErrorCode::Exists, message.as_str()))
            },
            Event::OpenFailed(_) => Err(
                Error::new(ErrorCode::Internal, "unexpected error writing revision"),
            ),
            _ => Ok(()),
        }
    }

    /// What came of filling the file of a revision, once it was created.
    pub fn write_revision_file(event: &Event) -> (r: Result<(), Error>)
        ensures
            reports(r, revision_fill_failure(event@)),
    {
        match event {
            Event::Completed => Ok(()),
            _ => Err(Error::new(ErrorCode::Internal, "failed to write character revision")),
        }
    }

    /// What came of opening the file of a revision.
    pub fn open_revision_file(revision: u64, event: &Event) -> (r: Result<(), Error>)
        ensures
            reports(r, revision_open_failure(revision, event@)),
    {
        match event {
            Event::OpenFailed(IoFailure::NotFound) => {
                let message = numbered("revision ", revision, " doesn't exists");
                Err(Error::new(ErrorCode::NotFound, message.as_str()))
            },
            Event::OpenFailed(_) => Err(
                Error::new(ErrorCode::Internal, "unexpected error opening revision"),
            ),
            _ => Ok(()),
        }
    }

    /// What came of writing the revision `revision`: the revision, once its
    /// file was created and filled.
    pub fn write_revision(&self, revision: u64, event: &Event) -> (r: Result<u64, Error>)
        ensures
            match r {
                Ok(n) => n == revision && revision_write_failure(revision, event@) is None,
                Err(e) => revision_write_failure(revision, event@) == Some(e@),
            },
    {
        match CharacterMetadata::create_revision_file(revision, event) {
            Ok(_) => {},
            Err(e) => {
                return Err(e);
            },
        }
        match CharacterMetadata::write_revision_file(event) {
            Ok(_) => {},
            Err(e) => {
                return Err(e);
            },
        }
        Ok(revision)
    }

    /// Records `revision` as the latest, whatever came of writing the record
    /// over the metadata file, and says what came of it.
    pub fn update_latest_revision(&mut self, revision: u64, event: &Event) -> (r: Result<
        (),
        Error,
    >)
        ensures
            final(self)@ == (MetadataView { latest_revision: Some(revision), ..old(self)@ }),
            reports(r, metadata_write_failure(event@)),
    {
        self.set_latest_revision(revision);
        CharacterMetadata::update_at_root(event)
    }

    /// What came of reading the revision `revision`: the character that the
    /// file holds.
    pub fn read_revision(&self, revision: u64, event: &Event) -> (r: Result<Character, Error>)
        ensures
            match r {
                Ok(c) => revision_read_result(revision, event@) == Ok::<CharacterView, ErrorView>(
                    c@,
                ),
                Err(e) => revision_read_result(revision, event@) == Err::<
                    CharacterView,
                    ErrorView,
                >(e@),
            },
    {
        match CharacterMetadata::open_revision_file(revision, event) {
            Ok(_) => {},
            Err(e) => {
                return Err(e);
            },
        }
        match event {
            Event::Content(bytes) => match decode_character(bytes.as_slice()) {
                Some(c) => Ok(c),
                None => Err(Error::new(ErrorCode::Internal, "could not decode character")),
            },
            _ => Err(Error::new(ErrorCode::Internal, "could not decode character")),
        }
    }
}

} // verus!
