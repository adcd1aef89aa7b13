//! The operations of the store, run to their end against the disk model.
//!
//! Each operation here drives the state machine of the store: it carries
//! every action out on a [`Disk`] and resumes the store with the answer.
//! What an operation leaves behind, in the index and on the disk, and what
//! it hands back is stated in full by the `_outcome` functions.
use vstd::prelude::*;
use vstd::pervasive::unreached;
use crate::codec::{character_bytes, metadata_bytes, text_fits, Character, CharacterView, MetadataView};
use crate::laws::{in_sync, law_create_in_sync, law_reload, law_write_in_sync};
use crate::disk::{metadata_name, revision_name, Disk, DiskView};
use crate::errors::{Error, ErrorView};
use crate::identifier::{is_identifier, new_uuid};
use crate::layout::{DirEntryView, EventView};
use crate::metadata::{
    failure,
    in_order,
    metadata_read_result,
    metadata_write_failure,
    out_of_order,
    revision_read_result,
    revision_write_failure,
};
use crate::store::{
    collision,
    directory_names,
    failed,
    finished,
    load_next,
    no_character,
    no_listing,
    no_revision,
    resume_spec,
    unauthorized,
    FileStore,
    Pending,
    PendingView,
    Reply,
    ReplyView,
    RevisionRead,
    RevisionReadView,
    Step,
    StepView,
    StoreView,
};

verus! {

/// What creating the character `uuid` for `owner` comes to: the index and
/// the disk afterwards, and the identifier or the failure.
pub open spec fn create_outcome(s: StoreView, d: DiskView, uuid: Seq<char>, owner: Seq<char>) -> (
    StoreView,
    DiskView,
    Result<Seq<char>, ErrorView>,
) {
    if s.characters.contains_key(uuid) {
        (s, d, Err(collision()))
    } else {
        let metadata = MetadataView { uuid, owner, latest_revision: None };
        let (written, event) = d.with_directory(uuid).create(
            uuid,
            metadata_name(),
            metadata_bytes(metadata),
        );
        match metadata_write_failure(event) {
            Some(e) => (s, written, Err(e)),
            None => (s.with_character(uuid, metadata), written, Ok(uuid)),
        }
    }
}

/// What writing `character` as the revision `revision` of `uuid` comes to:
/// the index and the disk afterwards, and the revision or the failure.
pub open spec fn write_outcome(
    s: StoreView,
    d: DiskView,
    uuid: Seq<char>,
    user: Seq<char>,
    character: CharacterView,
    revision: u64,
) -> (StoreView, DiskView, Result<u64, ErrorView>) {
    if !s.characters.contains_key(uuid) {
        (s, d, Err(no_character()))
    } else if user != s.characters[uuid].owner {
        (s, d, Err(unauthorized()))
    } else if !in_order(s.characters[uuid].latest_revision, revision) {
        (s, d, Err(out_of_order(s.characters[uuid].latest_revision)))
    } else {
        let metadata = s.characters[uuid];
        let (created, creation) = d.create(
            metadata.uuid,
            revision_name(revision),
            character_bytes(character),
        );
        match revision_write_failure(revision, creation) {
            Some(e) => (s, created, Err(e)),
            None => {
                let updated = MetadataView { latest_revision: Some(revision), ..metadata };
                let (replaced, replacement) = created.replace(
                    metadata.uuid,
                    metadata_name(),
                    metadata_bytes(updated),
                );
                (
                    s.with_character(uuid, updated),
                    replaced,
                    match metadata_write_failure(replacement) {
                        Some(e) => Err(e),
                        None => Ok(revision),
                    },
                )
            },
        }
    }
}

/// What reading the revision `revision` of `uuid` comes to.
pub open spec fn read_outcome(
    s: StoreView,
    d: DiskView,
    uuid: Seq<char>,
    user: Seq<char>,
    revision: u64,
) -> Result<RevisionReadView, ErrorView> {
    if !s.characters.contains_key(uuid) {
        Err(no_character())
    } else if user != s.characters[uuid].owner {
        Err(unauthorized())
    } else {
        let metadata = s.characters[uuid];
        match revision_read_result(revision, d.read(metadata.uuid, revision_name(revision))) {
            Err(e) => Err(e),
            Ok(character) => Ok(
                RevisionReadView { uuid: metadata.uuid, revision, character: Some(character) },
            ),
        }
    }
}

/// What reading the latest revision of `uuid` comes to.
pub open spec fn read_latest_outcome(s: StoreView, d: DiskView, uuid: Seq<char>, user: Seq<char>) -> Result<
    RevisionReadView,
    ErrorView,
> {
    if !s.characters.contains_key(uuid) {
        Err(no_character())
    } else if user != s.characters[uuid].owner {
        Err(unauthorized())
    } else {
        match s.characters[uuid].latest_revision {
            None => Err(no_revision()),
            Some(revision) => read_outcome(s, d, uuid, user, revision),
        }
    }
}

/// Whether the directory `uuid` holds a metadata file that can be read.
pub open spec fn loadable(d: DiskView, uuid: Seq<char>) -> bool {
    metadata_read_result(d.read(uuid, metadata_name())) is Ok
}

/// The record that the metadata file of the directory `uuid` holds.
pub open spec fn stored_metadata(d: DiskView, uuid: Seq<char>) -> MetadataView {
    metadata_read_result(d.read(uuid, metadata_name()))->Ok_0
}

/// The failure that the metadata file of the directory `uuid` gives rise to.
pub open spec fn load_failure(d: DiskView, uuid: Seq<char>) -> ErrorView {
    metadata_read_result(d.read(uuid, metadata_name()))->Err_0
}

/// The index that loading builds from a disk: one record for each
/// directory, under the name of the directory.
pub open spec fn loaded(root: Seq<char>, d: DiskView) -> StoreView {
    StoreView {
        root,
        characters: Map::new(
            |uuid: Seq<char>| d.directories.contains_key(uuid),
            |uuid: Seq<char>| stored_metadata(d, uuid),
        ),
    }
}

/// The view of a result that holds an identifier.
pub open spec fn created_view(r: Result<String, Error>) -> Result<Seq<char>, ErrorView> {
    match r {
        Ok(uuid) => Ok(uuid@),
        Err(e) => Err(e@),
    }
}

/// The view of a result that holds a revision number.
pub open spec fn written_view(r: Result<u64, Error>) -> Result<u64, ErrorView> {
    match r {
        Ok(revision) => Ok(revision),
        Err(e) => Err(e@),
    }
}

/// The view of a result that holds a revision.
pub open spec fn read_view(r: Result<RevisionRead, Error>) -> Result<RevisionReadView, ErrorView> {
    match r {
        Ok(read) => Ok(read@),
        Err(e) => Err(e@),
    }
}

/// Whether the operation waits for an action.
fn is_perform(step: &Step) -> (r: bool)
    ensures
        r == step@ is Perform,
{
    match step {
        Step::Perform { .. } => true,
        Step::Finish { .. } => false,
    }
}

/// One turn of an operation: the disk carries the action out and the
/// store goes on with the answer.
fn advance(store: &mut FileStore, disk: &mut Disk, step: Step) -> (r: Step)
    ensures
        match step@ {
            StepView::Finish { .. } => r@ == step@ && final(store)@ == old(store)@ && final(disk)@
                == old(disk)@,
            StepView::Perform { action, pending } => exists|event: EventView|
                old(disk)@.performs(action, final(disk)@, event) && (final(store)@, r@)
                    == resume_spec(old(store)@, pending, event),
        },
{
    match step {
        Step::Perform { action, pending } => {
            let event = disk.perform(&action);
            let ghost answer = event@;
            let next = store.resume(pending, event);
            assert(old(disk)@.performs(action@, disk@, answer) && (store@, next@) == resume_spec(
                old(store)@,
                pending@,
                answer,
            ));
            next
        },
        Step::Finish { result } => Step::Finish { result },
    }
}

/// One turn of an operation that only reads the disk.
fn look(store: &mut FileStore, disk: &Disk, step: Step) -> (r: Step)
    requires
        step@ matches StepView::Perform { action, .. } ==> action is ReadMetadata || action
            is ReadRevision || action is ListRoot,
    ensures
        match step@ {
            StepView::Finish { .. } => r@ == step@ && final(store)@ == old(store)@,
            StepView::Perform { action, pending } => exists|event: EventView|
                disk@.performs(action, disk@, event) && (final(store)@, r@) == resume_spec(
                    old(store)@,
                    pending,
                    event,
                ),
        },
{
    match step {
        Step::Perform { action, pending } => {
            let event = disk.inspect(&action);
            let ghost answer = event@;
            let next = store.resume(pending, event);
            assert(disk@.performs(action@, disk@, answer) && (store@, next@) == resume_spec(
                old(store)@,
                pending@,
                answer,
            ));
            next
        },
        Step::Finish { result } => Step::Finish { result },
    }
}

/// What a finished operation hands back.
fn finish(step: Step) -> (r: Result<Reply, Error>)
    requires
        step@ is Finish,
    ensures
        match r {
            Ok(reply) => step@ == finished(reply@),
            Err(e) => step@ == failed(e@),
        },
{
    match step {
        Step::Finish { result } => result,
        Step::Perform { .. } => unreached(),
    }
}

/// Whether `name` is one of the first `done` of `names`.
spec fn among(names: Seq<Seq<char>>, done: int, name: Seq<char>) -> bool {
    exists|j: int| 0 <= j < done && names[j] == name
}

proof fn lemma_names_of_directories(entries: Seq<DirEntryView>)
    requires
        forall|i: int| 0 <= i < entries.len() ==> (#[trigger] entries[i]) is Directory,
    ensures
        directory_names(entries).len() == entries.len(),
        forall|i: int|
            0 <= i < entries.len() ==> #[trigger] directory_names(entries)[i] == entries[i]->0,
    decreases entries.len(),
{
    if entries.len() > 0 {
        lemma_names_of_directories(entries.drop_last());
        assert(entries.last() is Directory);
    }
}

impl FileStore {
    /// The index that is loaded from the disk `d`, where loading succeeds.
    pub open spec fn new_spec(root: Seq<char>, d: DiskView) -> Option<StoreView> {
        if d.present && forall|uuid: Seq<char>|
            d.directories.contains_key(uuid) ==> loadable(d, uuid) {
            Some(loaded(root, d))
        } else {
            None
        }
    }

    /// One turn of the reading of a revision, which leaves the store as
    /// it is.
    fn look_up(&self, disk: &Disk, step: Step) -> (r: Step)
        requires
            step@ matches StepView::Perform { action, pending } ==> action is ReadRevision
                && pending is Revision,
        ensures
            match step@ {
                StepView::Finish { .. } => r@ == step@,
                StepView::Perform { action, pending } => (self@, r@) == resume_spec(
                    self@,
                    pending,
                    disk@.read(action->ReadRevision_uuid, revision_name(action->ReadRevision_revision)),
                ),
            },
    {
        match step {
            Step::Perform { action, pending } => {
                let event = disk.inspect(&action);
                match pending {
                    Pending::Revision { uuid, revision } => self.resume_read(
                        &uuid,
                        revision,
                        &event,
                    ),
                    _ => unreached(),
                }
            },
            Step::Finish { result } => Step::Finish { result },
        }
    }

    /// Loads the index from what the disk holds: one record for each
    /// directory, read from its metadata file. Loading fails where the root
    /// directory cannot be listed and where a directory holds no metadata
    /// file that can be read; with several such directories, the failure is
    /// that of one of them.
    fn load_from_storage(&mut self, disk: &Disk) -> (r: Result<(), Error>)
        requires
            old(self)@.characters == Map::<Seq<char>, MetadataView>::empty(),
        ensures
            final(self)@.root == old(self)@.root,
            match r {
                Ok(_) => FileStore::new_spec(old(self)@.root, disk@) == Some(final(self)@),
                Err(e) => FileStore::new_spec(old(self)@.root, disk@) is None && if disk@.present {
                    exists|uuid: Seq<char>|
                        disk@.directories.contains_key(uuid) && !loadable(disk@, uuid) && e@
                            == #[trigger] load_failure(disk@, uuid)
                } else {
                    e@ == no_listing()
                },
            },
    {
        let ghost root = self@.root;
        let first = self.begin_load();
        let mut step = look(self, disk, first);
        let ghost d = disk@;
        let ghost entries: Seq<DirEntryView> = choose|entries: Seq<DirEntryView>|
            d.listed(entries) && step@ == load_next(directory_names(entries));
        let ghost names = directory_names(entries);
        let ghost mut done: int = 0;
        proof {
            if d.present {
                lemma_names_of_directories(entries);
                assert(names.subrange(0, names.len() as int) =~= names);
            }
            assert(self@.characters =~= Map::new(
                |k: Seq<char>| among(names, done, k),
                |k: Seq<char>| stored_metadata(d, k),
            ));
        }
        while is_perform(&step)
            invariant
                d == disk@,
                d.present ==> d.listed(entries) && names.len() == entries.len() && forall|i: int|
                    0 <= i < entries.len() ==> #[trigger] names[i] == entries[i]->0,
                0 <= done <= names.len(),
                self@.root == root,
                self@.characters == Map::new(
                    |k: Seq<char>| among(names, done, k),
                    |k: Seq<char>| stored_metadata(d, k),
                ),
                forall|j: int| 0 <= j < done ==> loadable(d, #[trigger] names[j]),
                !d.present ==> step@ == failed(no_listing()),
                d.present ==> match step@ {
                    StepView::Perform { .. } => done < names.len() && step@ == load_next(
                        names.subrange(done, names.len() as int),
                    ),
                    StepView::Finish { result } => (result == Ok::<ReplyView, ErrorView>(
                        ReplyView::Loaded,
                    ) && done == names.len()) || exists|uuid: Seq<char>|
                        d.directories.contains_key(uuid) && !loadable(d, uuid) && result == Err::<
                            ReplyView,
                            ErrorView,
                        >(#[trigger] load_failure(d, uuid)),
                },
            decreases
                    (if step@ is Perform {
                        names.len() - done + 1
                    } else {
                        0
                    }),
        {
            let ghost before = self@;
            let ghost rest = names.subrange(done, names.len() as int);
            let ghost name = names[done];
            assert(rest[0] == name);
            assert(rest.remove(0) =~= names.subrange(done + 1, names.len() as int));
            step = look(self, disk, step);
            proof {
                assert(entries[done] is Directory && d.directories.contains_key(entries[done]->0));
                let answer = d.read(name, metadata_name());
                assert((self@, step@) == resume_spec(
                    before,
                    PendingView::Loading { name, rest: rest.remove(0) },
                    answer,
                ));
                if metadata_read_result(answer) is Ok {
                    assert(self@.characters =~= Map::new(
                        |k: Seq<char>| among(names, done + 1, k),
                        |k: Seq<char>| stored_metadata(d, k),
                    )) by {
                        assert forall|k: Seq<char>| #[trigger]
                            among(names, done + 1, k) <==> (k == name || among(names, done, k)) by {
                            if k == name {
                                assert(names[done] == k);
                            }
                        }
                    }
                    done = done + 1;
                } else {
                    assert(step@ == failed(load_failure(d, name)));
                }
            }
        }
        match finish(step) {
            Ok(_) => {
                proof {
                    assert forall|uuid: Seq<char>|
                        d.directories.contains_key(uuid) implies #[trigger] among(
                        names,
                        done,
                        uuid,
                    ) by {
                        let i = choose|i: int|
                            0 <= i < entries.len() && #[trigger] entries[i]
                                == DirEntryView::Directory(uuid);
                        assert(names[i] == uuid);
                    }
                    assert forall|uuid: Seq<char>| #[trigger]
                        among(names, done, uuid) implies d.directories.contains_key(uuid) by {
                        let j = choose|j: int| 0 <= j < done && names[j] == uuid;
                        assert(entries[j] is Directory);
                    }
                    assert(self@.characters =~= loaded(root, d).characters);
                    assert(self@ =~= loaded(root, d));
                    assert(d.present);
                    assert forall|uuid: Seq<char>| d.directories.contains_key(uuid) implies loadable(
                        d,
                        uuid,
                    ) by {
                        assert(among(names, done, uuid));
                        let j = choose|j: int| 0 <= j < done && names[j] == uuid;
                        assert(loadable(d, names[j]));
                    }
                }
                Ok(())
            },
            Err(e) => Err(e),
        }
    }

    /// A store over `root`, its index loaded from what the disk holds: one
    /// record for each directory, read from its metadata file. There is no
    /// store where the root directory cannot be listed and where a
    /// directory holds no metadata file that can be read; with several such
    /// directories, the failure is that of one of them. From a disk that
    /// agrees with a store over `root`, that store is loaded again.
    pub fn new(root: String, disk: &Disk) -> (r: Result<FileStore, Error>)
        ensures
            match r {
                Ok(store) => FileStore::new_spec(root@, disk@) == Some(store@),
                Err(e) => FileStore::new_spec(root@, disk@) is None && if disk@.present {
                    exists|uuid: Seq<char>|
                        disk@.directories.contains_key(uuid) && !loadable(disk@, uuid) && e@
                            == #[trigger] load_failure(disk@, uuid)
                } else {
                    e@ == no_listing()
                },
            },
            forall|s: StoreView| #[trigger]
                in_sync(s, disk@) && s.root == root@ ==> (r matches Ok(store) && store@ == s),
    {
        proof {
            assert forall|s: StoreView| #[trigger] in_sync(s, disk@) && s.root == root@ implies (
            FileStore::new_spec(root@, disk@) == Some(s)) by {
                law_reload(s, disk@);
            }
        }
        let mut store = FileStore::empty(root);
        match store.load_from_storage(disk) {
            Ok(_) => Ok(store),
            Err(e) => Err(e),
        }
    }

    /// Creates a character for `owner` under the identifier `uuid`. A
    /// store and a disk that agree still agree afterwards.
    pub fn create_character_as(&mut self, disk: &mut Disk, uuid: String, owner: String) -> (r:
        Result<String, Error>)
        ensures
            (final(self)@, final(disk)@, created_view(r)) == create_outcome(
                old(self)@,
                old(disk)@,
                uuid@,
                owner@,
            ),
            in_sync(old(self)@, old(disk)@) ==> in_sync(final(self)@, final(disk)@),
    {
        text_fits(uuid.as_str());
        text_fits(owner.as_str());
        proof {
            if in_sync(self@, disk@) {
                law_create_in_sync(self@, disk@, uuid@, owner@);
            }
        }
        let step = self.begin_create(uuid, owner);
        let step = advance(self, disk, step);
        let step = advance(self, disk, step);
        match finish(step) {
            Ok(Reply::Created(uuid)) => Ok(uuid),
            Ok(_) => unreached(),
            Err(e) => Err(e),
        }
    }

    /// Creates a character for `owner` under a fresh random identifier. A
    /// store and a disk that agree still agree afterwards.
    pub fn create_character(&mut self, disk: &mut Disk, owner: String) -> (r: Result<String, Error>)
        ensures
            exists|uuid: Seq<char>|
                is_identifier(uuid) && (final(self)@, final(disk)@, created_view(r))
                    == #[trigger] create_outcome(old(self)@, old(disk)@, uuid, owner@),
            in_sync(old(self)@, old(disk)@) ==> in_sync(final(self)@, final(disk)@),
    {
        let uuid = new_uuid();
        let ghost chosen = uuid@;
        let r = self.create_character_as(disk, uuid, owner);
        assert((self@, disk@, created_view(r)) == create_outcome(
            old(self)@,
            old(disk)@,
            chosen,
            owner@,
        ));
        r
    }

    /// Writes `character` as the revision `revision` of `uuid`. A store and
    /// a disk that agree still agree afterwards.
    pub fn write_revision(
        &mut self,
        disk: &mut Disk,
        uuid: &str,
        user: String,
        character: Character,
        revision: u64,
    ) -> (r: Result<u64, Error>)
        ensures
            (final(self)@, final(disk)@, written_view(r)) == write_outcome(
                old(self)@,
                old(disk)@,
                uuid@,
                user@,
                character@,
                revision,
            ),
            in_sync(old(self)@, old(disk)@) ==> in_sync(final(self)@, final(disk)@),
    {
        text_fits(character.uuid.as_str());
        proof {
            if in_sync(self@, disk@) {
                law_write_in_sync(self@, disk@, uuid@, user@, character@, revision);
            }
        }
        let step = self.begin_write(uuid, user, &character, revision);
        let step = advance(self, disk, step);
        let step = advance(self, disk, step);
        match finish(step) {
            Ok(Reply::Written(revision)) => Ok(revision),
            Ok(_) => unreached(),
            Err(e) => Err(e),
        }
    }

    /// Reads the revision `revision` of `uuid`.
    pub fn read_revision(&self, disk: &Disk, uuid: &str, user: String, revision: u64) -> (r: Result<
        RevisionRead,
        Error,
    >)
        ensures
            read_view(r) == read_outcome(self@, disk@, uuid@, user@, revision),
    {
        let step = self.begin_read(uuid, user, revision);
        let step = self.look_up(disk, step);
        match finish(step) {
            Ok(Reply::Read(read)) => Ok(read),
            Ok(_) => unreached(),
            Err(e) => Err(e),
        }
    }

    /// Reads the latest revision of `uuid`.
    pub fn read_latest_revision(&self, disk: &Disk, uuid: &str, user: String) -> (r: Result<
        RevisionRead,
        Error,
    >)
        ensures
            read_view(r) == read_latest_outcome(self@, disk@, uuid@, user@),
    {
        let step = self.begin_read_latest(uuid, user);
        let step = self.look_up(disk, step);
        match finish(step) {
            Ok(Reply::Read(read)) => Ok(read),
            Ok(_) => unreached(),
            Err(e) => Err(e),
        }
    }
}

} // verus!
