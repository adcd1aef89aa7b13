//! The service: what each request of a remote caller comes to.
//!
//! The service knows no users yet: every request is made in the name of
//! one fixed user, to whom every character belongs.
use vstd::prelude::*;
use crate::codec::Character;
use crate::disk::Disk;
use crate::errors::{Error, ErrorView};
use crate::identifier::is_identifier;
use crate::rpc::{status_of, RpcStatus, RpcStatusCode, RpcStatusView};
use crate::run::{create_outcome, read_latest_outcome, read_outcome, write_outcome};
use crate::store::{FileStore, RevisionRead};

verus! {

/// The request to create a character.
#[derive(Debug, Clone, Copy)]
pub struct CreateCharacter {}

/// The answer to [`CreateCharacter`].
#[derive(Debug, Clone)]
pub struct CharacterCreated {
    pub uuid: String,
}

/// The request to write a revision of a character.
#[derive(Debug, Clone)]
pub struct WriteRevision {
    pub character: Option<Character>,
    pub revision: u64,
}

/// The answer to [`WriteRevision`].
#[derive(Debug, Clone)]
pub struct RevisionWritten {
    pub revision: u64,
    pub uuid: String,
}

/// The request to read a revision of a character.
#[derive(Debug, Clone)]
pub struct ReadRevision {
    pub uuid: String,
    pub revision: u64,
}

/// The request to read the latest revision of a character.
#[derive(Debug, Clone)]
pub struct ReadLatestRevision {
    pub uuid: String,
}

/// The request to delete a character.
#[derive(Debug, Clone)]
pub struct DeleteCharacter {
    pub uuid: String,
}

/// The answer to [`DeleteCharacter`].
#[derive(Debug, Clone, Copy)]
pub struct CharacterDeleted {}

/// The user in whose name every request is made.
pub open spec fn service_user() -> Seq<char> {
    "test_user"@
}

/// The status that answers a write request without a character.
pub open spec fn missing_character() -> RpcStatusView {
    RpcStatusView { code: RpcStatusCode::InvalidArgument, message: "missing character data"@ }
}

/// The status that answers an operation that is not offered.
pub open spec fn not_offered() -> RpcStatusView {
    RpcStatusView { code: RpcStatusCode::Unimplemented, message: Seq::empty() }
}

/// Whether the status `r` tells of the failure `failed`.
pub open spec fn tells<T>(r: Result<T, RpcStatus>, failed: ErrorView) -> bool {
    r matches Err(status) && status@ == status_of(failed)
}

/// The user in whose name every request is made.
pub fn user() -> (r: String)
    ensures
        r@ == service_user(),
{
    "test_user".to_owned()
}

/// The answer to a creation, from what the store made of it.
pub fn created(result: Result<String, Error>) -> (r: Result<CharacterCreated, RpcStatus>)
    ensures
        match result {
            Ok(uuid) => r matches Ok(answer) && answer.uuid@ == uuid@,
            Err(e) => tells(r, e@),
        },
{
    match result {
        Ok(uuid) => Ok(CharacterCreated { uuid }),
        Err(e) => Err(RpcStatus::of(&e)),
    }
}

/// The character and the revision of a write request. A request without a
/// character is refused.
pub fn character_to_write(req: WriteRevision) -> (r: Result<(Character, u64), RpcStatus>)
    ensures
        match req.character {
            Some(character) => r == Ok::<(Character, u64), RpcStatus>((character, req.revision)),
            None => r matches Err(status) && status@ == missing_character(),
        },
{
    match req.character {
        Some(character) => Ok((character, req.revision)),
        None => Err(
            RpcStatus::with_message(
                RpcStatusCode::InvalidArgument,
                "missing character data".to_owned(),
            ),
        ),
    }
}

/// The answer to a write of a revision of `uuid`, from what the store made
/// of it.
pub fn written(uuid: String, result: Result<u64, Error>) -> (r: Result<RevisionWritten, RpcStatus>)
    ensures
        match result {
            Ok(revision) => r matches Ok(answer) && answer.revision == revision && answer.uuid@
                == uuid@,
            Err(e) => tells(r, e@),
        },
{
    match result {
        Ok(revision) => Ok(RevisionWritten { revision, uuid }),
        Err(e) => Err(RpcStatus::of(&e)),
    }
}

/// The answer to a read, from what the store made of it.
pub fn read(result: Result<RevisionRead, Error>) -> (r: Result<RevisionRead, RpcStatus>)
    ensures
        match result {
            Ok(revision) => r == Ok::<RevisionRead, RpcStatus>(revision),
            Err(e) => tells(r, e@),
        },
{
    match result {
        Ok(revision) => Ok(revision),
        Err(e) => Err(RpcStatus::of(&e)),
    }
}

/// The operations of the service. Each answers a request with a reply or
/// with a status, and is not offered unless it is implemented.
pub trait Characters {
    fn create(&mut self, disk: &mut Disk, req: CreateCharacter) -> (r: Result<
        CharacterCreated,
        RpcStatus,
    >)
        default_ensures
            r matches Err(status) && status@ == not_offered(),
    {
        Err(RpcStatus::unimplemented())
    }

    fn write_character_revision(&mut self, disk: &mut Disk, req: WriteRevision) -> (r: Result<
        RevisionWritten,
        RpcStatus,
    >)
        default_ensures
            r matches Err(status) && status@ == not_offered(),
    {
        Err(RpcStatus::unimplemented())
    }

    fn read_character_revision(&mut self, disk: &Disk, req: ReadRevision) -> (r: Result<
        RevisionRead,
        RpcStatus,
    >)
        default_ensures
            r matches Err(status) && status@ == not_offered(),
    {
        Err(RpcStatus::unimplemented())
    }

    fn read_latest_character_revision(&mut self, disk: &Disk, req: ReadLatestRevision) -> (r:
        Result<RevisionRead, RpcStatus>)
        default_ensures
            r matches Err(status) && status@ == not_offered(),
    {
        Err(RpcStatus::unimplemented())
    }

    fn delete(&mut self, disk: &mut Disk, req: DeleteCharacter) -> (r: Result<
        CharacterDeleted,
        RpcStatus,
    >)
        default_ensures
            r matches Err(status) && status@ == not_offered(),
    {
        Err(RpcStatus::unimplemented())
    }
}

/// The service over one store.
pub struct CharacterService {
    pub db: FileStore,
}

impl Characters for CharacterService {
    /// Creates a character under a fresh identifier.
    fn create(&mut self, disk: &mut Disk, req: CreateCharacter) -> (r: Result<
        CharacterCreated,
        RpcStatus,
    >)
        ensures
            exists|uuid: Seq<char>|
                is_identifier(uuid) && ({
                    let (db, written, result) = #[trigger] create_outcome(
                        old(self).db@,
                        old(disk)@,
                        uuid,
                        service_user(),
                    );
                    &&& final(self).db@ == db
                    &&& final(disk)@ == written
                    &&& match result {
                        Ok(uuid) => r matches Ok(answer) && answer.uuid@ == uuid,
                        Err(e) => tells(r, e),
                    }
                }),
    {
        let result = self.db.create_character(disk, user());
        created(result)
    }

    /// Writes the character of the request as the revision of the request,
    /// under the identifier that the character bears.
    fn write_character_revision(&mut self, disk: &mut Disk, req: WriteRevision) -> (r: Result<
        RevisionWritten,
        RpcStatus,
    >)
        ensures
            match req.character {
                None => {
                    &&& final(self).db@ == old(self).db@
                    &&& final(disk)@ == old(disk)@
                    &&& r matches Err(status) && status@ == missing_character()
                },
                Some(character) => {
                    let (db, written, result) = write_outcome(
                        old(self).db@,
                        old(disk)@,
                        character@.uuid,
                        service_user(),
                        character@,
                        req.revision,
                    );
                    &&& final(self).db@ == db
                    &&& final(disk)@ == written
                    &&& match result {
                        Ok(revision) => r matches Ok(answer) && answer.revision == revision
                            && answer.uuid@ == character@.uuid,
                        Err(e) => tells(r, e),
                    }
                },
            },
    {
        let (character, revision) = match character_to_write(req) {
            Ok(found) => found,
            Err(status) => {
                return Err(status);
            },
        };
        let uuid = character.uuid.clone();
        let result = self.db.write_revision(disk, uuid.as_str(), user(), character, revision);
        written(uuid, result)
    }

    /// Reads the revision of the request.
    fn read_character_revision(&mut self, disk: &Disk, req: ReadRevision) -> (r: Result<
        RevisionRead,
        RpcStatus,
    >)
        ensures
            final(self).db@ == old(self).db@,
            match read_outcome(old(self).db@, disk@, req.uuid@, service_user(), req.revision) {
                Ok(revision) => r matches Ok(answer) && answer@ == revision,
                Err(e) => tells(r, e),
            },
    {
        let result = self.db.read_revision(disk, req.uuid.as_str(), user(), req.revision);
        read(result)
    }

    /// Reads the latest revision of the character of the request.
    fn read_latest_character_revision(&mut self, disk: &Disk, req: ReadLatestRevision) -> (r:
        Result<RevisionRead, RpcStatus>)
        ensures
            final(self).db@ == old(self).db@,
            match read_latest_outcome(old(self).db@, disk@, req.uuid@, service_user()) {
                Ok(revision) => r matches Ok(answer) && answer@ == revision,
                Err(e) => tells(r, e),
            },
    {
        let result = self.db.read_latest_revision(disk, req.uuid.as_str(), user());
        read(result)
    }
}

/// The root directory of the store that the service runs on.
pub open spec fn service_root() -> Seq<char> {
    "./testdata/"@
}

/// The store of the service, loaded from what the disk holds below
/// `./testdata/`, or the failure to load it.
pub fn new_file_store(disk: &Disk) -> (r: Result<FileStore, Error>)
    ensures
        match r {
            Ok(db) => FileStore::new_spec(service_root(), disk@) == Some(db@),
            Err(_) => FileStore::new_spec(service_root(), disk@) is None,
        },
{
    FileStore::new("./testdata/".to_owned(), disk)
}

} // verus!
