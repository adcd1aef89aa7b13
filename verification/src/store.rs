//! The registry: the index of all characters, and the operations of the
//! store as a state machine.
//!
//! An operation begins with one of the `begin_` functions, which answers
//! with a [`Step`]: either the operation is finished, or the store needs an
//! [`Action`] carried out and waits for what comes of it. Whoever runs the
//! store carries the action out and hands the [`Event`] to
//! [`FileStore::resume`], together with the [`Pending`] that came with the
//! action, until the operation is finished. The store keeps no lock of its
//! own: one operation at a time runs on one character, and creating and
//! loading run alone.
use vstd::prelude::*;
use vstd::pervasive::unreached;
use crate::codec::{character_bytes, metadata_bytes, Character, CharacterMetadata, CharacterView, MetadataView};
use crate::errors::{Error, ErrorCode, ErrorView};
use crate::layout::{entry_views, texts, Action, ActionView, DirEntry, DirEntryView, Event, EventView};
use crate::metadata::{
    directory_failure,
    failure,
    in_order,
    metadata_read_result,
    metadata_write_failure,
    out_of_order,
    revision_read_result,
    revision_write_failure,
};
use crate::table::Table;

verus! {

/// The store: its root directory and the index of its characters.
pub struct FileStore {
    root: String,
    characters: Table<CharacterMetadata>,
}

/// A store as mathematical values.
#[verifier::ext_equal]
pub ghost struct StoreView {
    pub root: Seq<char>,
    pub characters: Map<Seq<char>, MetadataView>,
}

impl View for FileStore {
    type V = StoreView;

    closed spec fn view(&self) -> StoreView {
        StoreView {
            root: self.root@,
            characters: Map::new(
                |uuid: Seq<char>| self.characters.contains(uuid),
                |uuid: Seq<char>| self.characters.lookup(uuid)->0@,
            ),
        }
    }
}

impl StoreView {
    /// The store with `metadata` in the index under `uuid`.
    pub open spec fn with_character(self, uuid: Seq<char>, metadata: MetadataView) -> StoreView {
        StoreView { root: self.root, characters: self.characters.insert(uuid, metadata) }
    }
}

/// What a read hands back: the character as it was at one revision.
#[derive(Debug, Clone)]
pub struct RevisionRead {
    pub uuid: String,
    pub revision: u64,
    pub character: Option<Character>,
}

/// A [`RevisionRead`] as mathematical values.
pub ghost struct RevisionReadView {
    pub uuid: Seq<char>,
    pub revision: u64,
    pub character: Option<CharacterView>,
}

impl View for RevisionRead {
    type V = RevisionReadView;

    open spec fn view(&self) -> RevisionReadView {
        RevisionReadView {
            uuid: self.uuid@,
            revision: self.revision,
            character: match self.character {
                Some(c) => Some(c@),
                None => None,
            },
        }
    }
}

/// What the store waits for while an action is carried out.
#[derive(Debug, Clone)]
pub enum Pending {
    /// Creating a character: its directory is being created.
    Directory { metadata: CharacterMetadata },
    /// Creating a character: its metadata file is being written.
    Metadata { metadata: CharacterMetadata },
    /// Writing a revision: its file is being written.
    RevisionFile { uuid: String, revision: u64 },
    /// Writing a revision: the metadata file is being written over.
    LatestRevision { uuid: String, revision: u64 },
    /// Reading a revision: its file is being read.
    Revision { uuid: String, revision: u64 },
    /// Loading: the root directory is being listed.
    Listing,
    /// Loading: the metadata file of the directory `name` is being read,
    /// and those of `rest` are still to be read.
    Loading { name: String, rest: Vec<String> },
}

/// A [`Pending`] as mathematical values.
pub ghost enum PendingView {
    Directory { metadata: MetadataView },
    Metadata { metadata: MetadataView },
    RevisionFile { uuid: Seq<char>, revision: u64 },
    LatestRevision { uuid: Seq<char>, revision: u64 },
    Revision { uuid: Seq<char>, revision: u64 },
    Listing,
    Loading { name: Seq<char>, rest: Seq<Seq<char>> },
}

impl View for Pending {
    type V = PendingView;

    open spec fn view(&self) -> PendingView {
        match self {
            Pending::Directory { metadata } => PendingView::Directory { metadata: metadata@ },
            Pending::Metadata { metadata } => PendingView::Metadata { metadata: metadata@ },
            Pending::RevisionFile { uuid, revision } => PendingView::RevisionFile {
                uuid: uuid@,
                revision: *revision,
            },
            Pending::LatestRevision { uuid, revision } => PendingView::LatestRevision {
                uuid: uuid@,
                revision: *revision,
            },
            Pending::Revision { uuid, revision } => PendingView::Revision {
                uuid: uuid@,
                revision: *revision,
            },
            Pending::Listing => PendingView::Listing,
            Pending::Loading { name, rest } => PendingView::Loading {
                name: name@,
                rest: texts(rest@),
            },
        }
    }
}

/// What a finished operation hands back.
#[derive(Debug, Clone)]
pub enum Reply {
    /// A character was created: its identifier.
    Created(String),
    /// A revision was written: its number.
    Written(u64),
    /// A revision was read.
    Read(RevisionRead),
    /// The index was loaded.
    Loaded,
}

/// A [`Reply`] as mathematical values.
pub ghost enum ReplyView {
    Created(Seq<char>),
    Written(u64),
    Read(RevisionReadView),
    Loaded,
}

impl View for Reply {
    type V = ReplyView;

    open spec fn view(&self) -> ReplyView {
        match self {
            Reply::Created(uuid) => ReplyView::Created(uuid@),
            Reply::Written(revision) => ReplyView::Written(*revision),
            Reply::Read(read) => ReplyView::Read(read@),
            Reply::Loaded => ReplyView::Loaded,
        }
    }
}

/// Where an operation stands.
#[derive(Debug)]
pub enum Step {
    /// The store needs `action` carried out, and is to be resumed with
    /// `pending` and with what came of the action.
    Perform { action: Action, pending: Pending },
    /// The operation is finished.
    Finish { result: Result<Reply, Error> },
}

/// A [`Step`] as mathematical values.
pub ghost enum StepView {
    Perform { action: ActionView, pending: PendingView },
    Finish { result: Result<ReplyView, ErrorView> },
}

impl View for Step {
    type V = StepView;

    open spec fn view(&self) -> StepView {
        match self {
            Step::Perform { action, pending } => StepView::Perform {
                action: action@,
                pending: pending@,
            },
            Step::Finish { result } => StepView::Finish {
                result: match result {
                    Ok(reply) => Ok(reply@),
                    Err(e) => Err(e@),
                },
            },
        }
    }
}

/// The step that ends an operation in a failure.
pub open spec fn failed(e: ErrorView) -> StepView {
    StepView::Finish { result: Err(e) }
}

/// The step that ends an operation well.
pub open spec fn finished(reply: ReplyView) -> StepView {
    StepView::Finish { result: Ok(reply) }
}

/// The failure that answers an identifier that the index does not hold.
pub open spec fn no_character() -> ErrorView {
    failure(ErrorCode::NotFound, "character does not exist"@)
}

/// The failure that answers an identifier that the index holds already.
pub open spec fn collision() -> ErrorView {
    failure(ErrorCode::Internal, "failed to create new character, please retry"@)
}

/// The failure that answers a user who is not the owner.
pub open spec fn unauthorized() -> ErrorView {
    failure(ErrorCode::Unauthorized, "unauthorized"@)
}

/// The failure that answers the request for the latest revision of a
/// character that has none.
pub open spec fn no_revision() -> ErrorView {
    failure(
        ErrorCode::NotFound,
        "failed to read latest revision for character without revisions"@,
    )
}

/// The failure that answers a root directory that cannot be listed.
pub open spec fn no_listing() -> ErrorView {
    failure(ErrorCode::Internal, "failed to read characters from root"@)
}

/// The names of the directories among `entries`, in their order. Entries
/// that could not be read, that are no directories or that have no name in
/// text are passed over.
pub open spec fn directory_names(entries: Seq<DirEntryView>) -> Seq<Seq<char>>
    decreases entries.len(),
{
    if entries.len() == 0 {
        seq![]
    } else {
        match entries.last() {
            DirEntryView::Directory(name) => directory_names(entries.drop_last()).push(name),
            _ => directory_names(entries.drop_last()),
        }
    }
}

/// The step that reads the metadata of the first of `names`, or ends the
/// loading where there is none.
pub open spec fn load_next(names: Seq<Seq<char>>) -> StepView {
    if names.len() == 0 {
        finished(ReplyView::Loaded)
    } else {
        StepView::Perform {
            action: ActionView::ReadMetadata { uuid: names[0] },
            pending: PendingView::Loading { name: names[0], rest: names.remove(0) },
        }
    }
}

/// How creating the character `uuid` for `owner` begins.
pub open spec fn begin_create_spec(s: StoreView, uuid: Seq<char>, owner: Seq<char>) -> StepView {
    if s.characters.contains_key(uuid) {
        failed(collision())
    } else {
        StepView::Perform {
            action: ActionView::CreateDirectory { uuid },
            pending: PendingView::Directory {
                metadata: MetadataView { uuid, owner, latest_revision: None },
            },
        }
    }
}

/// How writing a revision begins: the character must be known, the user
/// its owner and the revision in order, before any file is touched.
pub open spec fn begin_write_spec(
    s: StoreView,
    uuid: Seq<char>,
    user: Seq<char>,
    character: CharacterView,
    revision: u64,
) -> StepView {
    if !s.characters.contains_key(uuid) {
        failed(no_character())
    } else if user != s.characters[uuid].owner {
        failed(unauthorized())
    } else if !in_order(s.characters[uuid].latest_revision, revision) {
        failed(out_of_order(s.characters[uuid].latest_revision))
    } else {
        StepView::Perform {
            action: ActionView::CreateRevision {
                uuid: s.characters[uuid].uuid,
                revision,
                bytes: character_bytes(character),
            },
            pending: PendingView::RevisionFile { uuid, revision },
        }
    }
}

/// How reading a revision begins.
pub open spec fn begin_read_spec(s: StoreView, uuid: Seq<char>, user: Seq<char>, revision: u64) -> StepView {
    if !s.characters.contains_key(uuid) {
        failed(no_character())
    } else if user != s.characters[uuid].owner {
        failed(unauthorized())
    } else {
        StepView::Perform {
            action: ActionView::ReadRevision { uuid: s.characters[uuid].uuid, revision },
            pending: PendingView::Revision { uuid, revision },
        }
    }
}

/// How reading the latest revision begins.
pub open spec fn begin_read_latest_spec(s: StoreView, uuid: Seq<char>, user: Seq<char>) -> StepView {
    if !s.characters.contains_key(uuid) {
        failed(no_character())
    } else if user != s.characters[uuid].owner {
        failed(unauthorized())
    } else {
        match s.characters[uuid].latest_revision {
            None => failed(no_revision()),
            Some(revision) => begin_read_spec(s, uuid, user, revision),
        }
    }
}

/// How loading begins.
pub open spec fn begin_load_spec() -> StepView {
    StepView::Perform { action: ActionView::ListRoot, pending: PendingView::Listing }
}

/// How an operation goes on once the file system has answered: the store
/// afterwards, and the next step.
pub open spec fn resume_spec(s: StoreView, pending: PendingView, event: EventView) -> (
    StoreView,
    StepView,
) {
    match pending {
        PendingView::Directory { metadata } => match directory_failure(event) {
            Some(e) => (s, failed(e)),
            None => (
                s,
                StepView::Perform {
                    action: ActionView::CreateMetadata {
                        uuid: metadata.uuid,
                        bytes: metadata_bytes(metadata),
                    },
                    pending: PendingView::Metadata { metadata },
                },
            ),
        },
        PendingView::Metadata { metadata } => match metadata_write_failure(event) {
            Some(e) => (s, failed(e)),
            None => (
                s.with_character(metadata.uuid, metadata),
                finished(ReplyView::Created(metadata.uuid)),
            ),
        },
        PendingView::RevisionFile { uuid, revision } => if !s.characters.contains_key(uuid) {
            (s, failed(no_character()))
        } else {
            match revision_write_failure(revision, event) {
                Some(e) => (s, failed(e)),
                None => {
                    let updated = MetadataView {
                        latest_revision: Some(revision),
                        ..s.characters[uuid]
                    };
                    (
                        s,
                        StepView::Perform {
                            action: ActionView::ReplaceMetadata {
                                uuid: updated.uuid,
                                bytes: metadata_bytes(updated),
                            },
                            pending: PendingView::LatestRevision { uuid, revision },
                        },
                    )
                },
            }
        },
        PendingView::LatestRevision { uuid, revision } => if !s.characters.contains_key(uuid) {
            (s, failed(no_character()))
        } else {
            let updated = MetadataView { latest_revision: Some(revision), ..s.characters[uuid] };
            (
                s.with_character(uuid, updated),
                match metadata_write_failure(event) {
                    Some(e) => failed(e),
                    None => finished(ReplyView::Written(revision)),
                },
            )
        },
        PendingView::Revision { uuid, revision } => if !s.characters.contains_key(uuid) {
            (s, failed(no_character()))
        } else {
            match revision_read_result(revision, event) {
                Err(e) => (s, failed(e)),
                Ok(character) => (
                    s,
                    finished(
                        ReplyView::Read(
                            RevisionReadView {
                                uuid: s.characters[uuid].uuid,
                                revision,
                                character: Some(character),
                            },
                        ),
                    ),
                ),
            }
        },
        PendingView::Listing => match event {
            EventView::Entries(entries) => (s, load_next(directory_names(entries))),
            _ => (s, failed(no_listing())),
        },
        PendingView::Loading { name, rest } => match metadata_read_result(event) {
            Err(e) => (s, failed(e)),
            Ok(metadata) => (s.with_character(name, metadata), load_next(rest)),
        },
    }
}

/// The names of the directories among `entries`, in their order.
fn directories(entries: &Vec<DirEntry>) -> (r: Vec<String>)
    ensures
        texts(r@) == directory_names(entry_views(entries@)),
{
    let mut names: Vec<String> = Vec::new();
    let mut i: usize = 0;
    assert(texts(names@) =~= directory_names(entry_views(entries@).subrange(0, 0)));
    while i < entries.len()
        invariant
            i <= entries@.len(),
            texts(names@) == directory_names(entry_views(entries@).subrange(0, i as int)),
        decreases entries@.len() - i,
    {
        let ghost before = entry_views(entries@).subrange(0, i as int);
        let ghost now = entry_views(entries@).subrange(0, i + 1);
        assert(now.drop_last() =~= before);
        assert(now.last() == entries@[i as int]@);
        match &entries[i] {
            DirEntry::Directory(name) => {
                let ghost listed = names@;
                names.push(name.clone());
                assert(texts(names@) =~= texts(listed).push(name@));
            },
            _ => {},
        }
        i += 1;
    }
    assert(entry_views(entries@).subrange(0, i as int) =~= entry_views(entries@));
    names
}

/// The step that reads the metadata of the first of `names`, or ends the
/// loading where there is none.
fn load_next_step(names: Vec<String>) -> (r: Step)
    ensures
        r@ == load_next(texts(names@)),
{
    let mut names = names;
    if names.len() == 0 {
        Step::Finish { result: Ok(Reply::Loaded) }
    } else {
        let ghost all = names@;
        let name = names.remove(0);
        assert(texts(names@) =~= texts(all).remove(0));
        assert(texts(all)[0] == name@);
        Step::Perform {
            action: CharacterMetadata::load_request(name.as_str()),
            pending: Pending::Loading { name, rest: names },
        }
    }
}

/// The step that ends an operation in a failure of the given kind.
fn fail(code: ErrorCode, message: &str) -> (r: Step)
    ensures
        r@ == failed(failure(code, message@)),
{
    Step::Finish { result: Err(Error::new(code, message)) }
}

/// The step that ends an operation in the failure `e`.
fn fail_with(e: Error) -> (r: Step)
    ensures
        r@ == failed(e@),
{
    Step::Finish { result: Err(e) }
}

impl FileStore {
    /// A store over `root` that knows no character.
    pub fn empty(root: String) -> (r: FileStore)
        ensures
            r@ == (StoreView { root: root@, characters: Map::empty() }),
    {
        let store = FileStore { root, characters: Table::new() };
        assert(store@.characters =~= Map::empty());
        store
    }

    /// The root directory of the store.
    pub fn root(&self) -> (r: &String)
        ensures
            r@ == self@.root,
    {
        &self.root
    }

    /// The record that the index holds under `uuid`.
    pub fn metadata(&self, uuid: &str) -> (r: Option<&CharacterMetadata>)
        ensures
            match r {
                Some(m) => self@.characters.contains_key(uuid@) && self@.characters[uuid@] == m@,
                None => !self@.characters.contains_key(uuid@),
            },
    {
        let key = uuid.to_owned();
        self.characters.get(&key)
    }

    /// The store in pieces: for each character of the index a store over
    /// the same root that knows this character alone, under the same name.
    /// Whoever runs operations on several characters at once keeps one such
    /// piece for each of them.
    pub fn shards(&self) -> (r: Vec<(String, FileStore)>)
        ensures
            forall|i: int|
                0 <= i < r@.len() ==> self@.characters.contains_key((#[trigger] r@[i]).0@)
                    && r@[i].1@ == (StoreView {
                    root: self@.root,
                    characters: Map::empty().insert(r@[i].0@, self@.characters[r@[i].0@]),
                }),
            forall|uuid: Seq<char>|
                self@.characters.contains_key(uuid) ==> exists|i: int|
                    0 <= i < r@.len() && #[trigger] r@[i].0@ == uuid,
    {
        let names = self.characters.keys();
        let mut shards: Vec<(String, FileStore)> = Vec::new();
        let mut i: usize = 0;
        while i < names.len()
            invariant
                i <= names@.len(),
                shards@.len() == i,
                forall|j: int| 0 <= j < names@.len() ==> self.characters.contains(#[trigger] names@[j]@),
                forall|j: int| 0 <= j < i ==> (#[trigger] shards@[j]).0@ == names@[j]@,
                forall|j: int|
                    0 <= j < i ==> (#[trigger] shards@[j]).1@ == (StoreView {
                        root: self@.root,
                        characters: Map::empty().insert(
                            names@[j]@,
                            self@.characters[names@[j]@],
                        ),
                    }),
            decreases names@.len() - i,
        {
            assert(self.characters.contains(names@[i as int]@));
            let metadata = match self.characters.get(&names[i]) {
                Some(metadata) => metadata,
                None => unreached(),
            };
            let copy = CharacterMetadata {
                uuid: metadata.uuid.clone(),
                owner: metadata.owner.clone(),
                latest_revision: metadata.latest_revision,
            };
            let mut shard = FileStore::empty(self.root.clone());
            shard.characters.insert(names[i].clone(), copy);
            assert(shard@.characters =~= Map::empty().insert(
                names@[i as int]@,
                self@.characters[names@[i as int]@],
            ));
            shards.push((names[i].clone(), shard));
            i += 1;
        }
        assert forall|uuid: Seq<char>| self@.characters.contains_key(uuid) implies exists|i: int|
            0 <= i < shards@.len() && #[trigger] shards@[i].0@ == uuid by {
            let j = choose|j: int| 0 <= j < names@.len() && #[trigger] names@[j]@ == uuid;
            assert(shards@[j].0@ == uuid);
        }
        shards
    }

    /// Begins the creation of the character `uuid` for `owner`. An
    /// identifier that the index holds already is refused.
    pub fn begin_create(&self, uuid: String, owner: String) -> (r: Step)
        ensures
            r@ == begin_create_spec(self@, uuid@, owner@),
    {
        if self.characters.position(&uuid).is_some() {
            return fail(ErrorCode::Internal, "failed to create new character, please retry");
        }
        let metadata = CharacterMetadata::new(uuid, owner);
        Step::Perform {
            action: metadata.directory_request(),
            pending: Pending::Directory { metadata },
        }
    }

    /// Begins the writing of `character` as the revision `revision` of
    /// `uuid`.
    pub fn begin_write(&self, uuid: &str, user: String, character: &Character, revision: u64) -> (r:
        Step)
        ensures
            r@ == begin_write_spec(self@, uuid@, user@, character@, revision),
    {
        let key = uuid.to_owned();
        let metadata = match self.characters.get(&key) {
            Some(metadata) => metadata,
            None => {
                return fail(ErrorCode::NotFound, "character does not exist");
            },
        };
        match metadata.authorize(user) {
            Ok(_) => {},
            Err(e) => {
                return fail_with(e);
            },
        }
        match metadata.check_revision_order(revision) {
            Ok(_) => {},
            Err(e) => {
                return fail_with(e);
            },
        }
        Step::Perform {
            action: metadata.write_request(revision, character),
            pending: Pending::RevisionFile { uuid: key, revision },
        }
    }

    /// Begins the reading of the revision `revision` of `uuid`.
    pub fn begin_read(&self, uuid: &str, user: String, revision: u64) -> (r: Step)
        ensures
            r@ == begin_read_spec(self@, uuid@, user@, revision),
    {
        let key = uuid.to_owned();
        let metadata = match self.characters.get(&key) {
            Some(metadata) => metadata,
            None => {
                return fail(ErrorCode::NotFound, "character does not exist");
            },
        };
        match metadata.authorize(user) {
            Ok(_) => {},
            Err(e) => {
                return fail_with(e);
            },
        }
        Step::Perform {
            action: metadata.read_request(revision),
            pending: Pending::Revision { uuid: key, revision },
        }
    }

    /// Begins the reading of the latest revision of `uuid`.
    pub fn begin_read_latest(&self, uuid: &str, user: String) -> (r: Step)
        ensures
            r@ == begin_read_latest_spec(self@, uuid@, user@),
    {
        let key = uuid.to_owned();
        let metadata = match self.characters.get(&key) {
            Some(metadata) => metadata,
            None => {
                return fail(ErrorCode::NotFound, "character does not exist");
            },
        };
        match metadata.authorize(user) {
            Ok(_) => {},
            Err(e) => {
                return fail_with(e);
            },
        }
        if !metadata.has_latest_revision() {
            return fail(
                ErrorCode::NotFound,
                "failed to read latest revision for character without revisions",
            );
        }
        let revision = metadata.get_latest_revision();
        Step::Perform {
            action: metadata.read_request(revision),
            pending: Pending::Revision { uuid: key, revision },
        }
    }

    /// Begins the loading of the index from the root directory.
    pub fn begin_load(&self) -> (r: Step)
        ensures
            r@ == begin_load_spec(),
    {
        Step::Perform { action: Action::ListRoot, pending: Pending::Listing }
    }

    /// Goes on with the reading of the revision `revision` of `uuid`, now
    /// that the file system has answered with `event`: what
    /// [`FileStore::resume`] does where a revision is read, which leaves the
    /// store as it is.
    pub fn resume_read(&self, uuid: &String, revision: u64, event: &Event) -> (r: Step)
        ensures
            (self@, r@) == resume_spec(
                self@,
                PendingView::Revision { uuid: uuid@, revision },
                event@,
            ),
    {
        let metadata = match self.characters.get(uuid) {
            Some(metadata) => metadata,
            None => {
                return fail(ErrorCode::NotFound, "character does not exist");
            },
        };
        match metadata.read_revision(revision, event) {
            Ok(character) => Step::Finish {
                result: Ok(
                    Reply::Read(
                        RevisionRead {
                            uuid: metadata.uuid.clone(),
                            revision,
                            character: Some(character),
                        },
                    ),
                ),
            },
            Err(e) => fail_with(e),
        }
    }

    /// Goes on with the operation that waits in `pending`, now that the
    /// file system has answered with `event`.
    pub fn resume(&mut self, pending: Pending, event: Event) -> (r: Step)
        ensures
            (final(self)@, r@) == resume_spec(old(self)@, pending@, event@),
    {
        match pending {
            Pending::Directory { metadata } => {
                match CharacterMetadata::create_character_directory(&event) {
                    Ok(_) => Step::Perform {
                        action: metadata.create_request(),
                        pending: Pending::Metadata { metadata },
                    },
                    Err(e) => fail_with(e),
                }
            },
            Pending::Metadata { metadata } => {
                match CharacterMetadata::write_to_root(&event) {
                    Ok(_) => {
                        let uuid = metadata.uuid.clone();
                        self.characters.insert(metadata.uuid.clone(), metadata);
                        assert(self@.characters =~= old(self)@.with_character(
                            metadata@.uuid,
                            metadata@,
                        ).characters);
                        Step::Finish { result: Ok(Reply::Created(uuid)) }
                    },
                    Err(e) => fail_with(e),
                }
            },
            Pending::RevisionFile { uuid, revision } => {
                let metadata = match self.characters.get(&uuid) {
                    Some(metadata) => metadata,
                    None => {
                        return fail(ErrorCode::NotFound, "character does not exist");
                    },
                };
                match metadata.write_revision(revision, &event) {
                    Ok(_) => Step::Perform {
                        action: metadata.with_latest_revision(revision).replace_request(),
                        pending: Pending::LatestRevision { uuid, revision },
                    },
                    Err(e) => fail_with(e),
                }
            },
            Pending::LatestRevision { uuid, revision } => {
                match self.characters.position(&uuid) {
                    None => fail(ErrorCode::NotFound, "character does not exist"),
                    Some(i) => {
                        let metadata = self.characters.value_mut(i, Ghost(uuid@));
                        let updated = metadata.update_latest_revision(revision, &event);
                        assert(self@.characters =~= old(self)@.with_character(
                            uuid@,
                            MetadataView {
                                latest_revision: Some(revision),
                                ..old(self)@.characters[uuid@]
                            },
                        ).characters);
                        match updated {
                            Ok(_) => Step::Finish { result: Ok(Reply::Written(revision)) },
                            Err(e) => fail_with(e),
                        }
                    },
                }
            },
            Pending::Revision { uuid, revision } => self.resume_read(&uuid, revision, &event),
            Pending::Listing => {
                match event {
                    Event::Entries(entries) => load_next_step(directories(&entries)),
                    _ => fail(ErrorCode::Internal, "failed to read characters from root"),
                }
            },
            Pending::Loading { name, rest } => {
                match CharacterMetadata::read_from_root(&event) {
                    Ok(metadata) => {
                        self.characters.insert(name, metadata);
                        assert(self@.characters =~= old(self)@.with_character(
                            name@,
                            metadata@,
                        ).characters);
                        load_next_step(rest)
                    },
                    Err(e) => fail_with(e),
                }
            },
        }
    }
}

} // verus!
