//! A model of the durable layout: the root directory, the directories in
//! it, and the files in those.
//!
//! The model answers every [`Action`] as a file system does on which nothing
//! fails but what the layout itself explains: a file that is created must
//! not exist and its directory must, a file that is read or written over
//! must exist. The store runs against it as it runs against real files, and
//! the laws of the store are stated over it.
use vstd::prelude::*;
use vstd::slice::slice_to_vec;
use crate::layout::{Action, ActionView, DirEntry, DirEntryView, Event, EventView, IoFailure};
use crate::table::Table;
use crate::text::{decimal, decimal_string};

verus! {

/// The model of a disk.
pub struct Disk {
    present: bool,
    directories: Table<Table<Vec<u8>>>,
}

/// A disk as mathematical values: whether the root directory exists, and
/// the files of each directory in it, by name.
#[verifier::ext_equal]
pub ghost struct DiskView {
    pub present: bool,
    pub directories: Map<Seq<char>, Map<Seq<char>, Seq<u8>>>,
}

/// The files that a directory of the model holds.
pub closed spec fn files_of(files: Table<Vec<u8>>) -> Map<Seq<char>, Seq<u8>> {
    Map::new(|name: Seq<char>| files.contains(name), |name: Seq<char>| files.lookup(name)->0@)
}

impl View for Disk {
    type V = DiskView;

    closed spec fn view(&self) -> DiskView {
        DiskView {
            present: self.present,
            directories: Map::new(
                |uuid: Seq<char>| self.directories.contains(uuid),
                |uuid: Seq<char>| files_of(self.directories.lookup(uuid)->0),
            ),
        }
    }
}

/// The name of the metadata file.
pub open spec fn metadata_name() -> Seq<char> {
    "metadata"@
}

/// The name of the file of a revision.
pub open spec fn revision_name(revision: u64) -> Seq<char> {
    decimal(revision as nat)
}

impl DiskView {
    /// The bytes of the file `name` in the directory `uuid`.
    pub open spec fn file(self, uuid: Seq<char>, name: Seq<char>) -> Option<Seq<u8>> {
        if self.directories.contains_key(uuid) && self.directories[uuid].contains_key(name) {
            Some(self.directories[uuid][name])
        } else {
            None
        }
    }

    /// The bytes of the metadata file of `uuid`.
    pub open spec fn metadata(self, uuid: Seq<char>) -> Option<Seq<u8>> {
        self.file(uuid, metadata_name())
    }

    /// The bytes of the revision `revision` of `uuid`.
    pub open spec fn revision(self, uuid: Seq<char>, revision: u64) -> Option<Seq<u8>> {
        self.file(uuid, revision_name(revision))
    }

    /// The disk with the file `name` of the directory `uuid` holding `bytes`.
    pub open spec fn with_file(self, uuid: Seq<char>, name: Seq<char>, bytes: Seq<u8>) -> DiskView {
        DiskView {
            present: self.present,
            directories: self.directories.insert(uuid, self.directories[uuid].insert(name, bytes)),
        }
    }

    /// The disk after the directory `uuid` and all above it were created.
    pub open spec fn with_directory(self, uuid: Seq<char>) -> DiskView {
        DiskView {
            present: true,
            directories: if self.directories.contains_key(uuid) {
                self.directories
            } else {
                self.directories.insert(uuid, Map::empty())
            },
        }
    }

    /// Creating a file and writing it: the disk afterwards, and the answer.
    pub open spec fn create(self, uuid: Seq<char>, name: Seq<char>, bytes: Seq<u8>) -> (
        DiskView,
        EventView,
    ) {
        if !self.directories.contains_key(uuid) {
            (self, EventView::OpenFailed(IoFailure::NotFound))
        } else if self.directories[uuid].contains_key(name) {
            (self, EventView::OpenFailed(IoFailure::AlreadyExists))
        } else {
            (self.with_file(uuid, name, bytes), EventView::Completed)
        }
    }

    /// Writing over a file: the disk afterwards, and the answer.
    pub open spec fn replace(self, uuid: Seq<char>, name: Seq<char>, bytes: Seq<u8>) -> (
        DiskView,
        EventView,
    ) {
        if self.file(uuid, name) is None {
            (self, EventView::OpenFailed(IoFailure::NotFound))
        } else {
            (self.with_file(uuid, name, bytes), EventView::Completed)
        }
    }

    /// Reading a file: the answer.
    pub open spec fn read(self, uuid: Seq<char>, name: Seq<char>) -> EventView {
        match self.file(uuid, name) {
            None => EventView::OpenFailed(IoFailure::NotFound),
            Some(bytes) => EventView::Content(bytes),
        }
    }

    /// Whether `entries` lists the directories of the disk: each of them,
    /// and nothing else. The order is left open.
    pub open spec fn listed(self, entries: Seq<DirEntryView>) -> bool {
        &&& forall|i: int|
            0 <= i < entries.len() ==> (#[trigger] entries[i]) is Directory
                && self.directories.contains_key(entries[i]->0)
        &&& forall|uuid: Seq<char>|
            self.directories.contains_key(uuid) ==> exists|i: int|
                0 <= i < entries.len() && #[trigger] entries[i] == DirEntryView::Directory(uuid)
    }

    /// Whether the disk `after` and the answer `event` are what the model
    /// makes of `action` on the disk `self`.
    pub open spec fn performs(self, action: ActionView, after: DiskView, event: EventView) -> bool {
        match action {
            ActionView::CreateDirectory { uuid } => after == self.with_directory(uuid) && event
                == EventView::Completed,
            ActionView::CreateMetadata { uuid, bytes } => (after, event) == self.create(
                uuid,
                metadata_name(),
                bytes,
            ),
            ActionView::ReplaceMetadata { uuid, bytes } => (after, event) == self.replace(
                uuid,
                metadata_name(),
                bytes,
            ),
            ActionView::ReadMetadata { uuid } => after == self && event == self.read(
                uuid,
                metadata_name(),
            ),
            ActionView::CreateRevision { uuid, revision, bytes } => (after, event) == self.create(
                uuid,
                revision_name(revision),
                bytes,
            ),
            ActionView::ReadRevision { uuid, revision } => after == self && event == self.read(
                uuid,
                revision_name(revision),
            ),
            ActionView::ListRoot => after == self && if self.present {
                event matches EventView::Entries(entries) && self.listed(entries)
            } else {
                event == EventView::OpenFailed(IoFailure::NotFound)
            },
        }
    }
}

impl Disk {
    /// A disk whose root directory exists and is empty.
    pub fn new() -> (r: Disk)
        ensures
            r@ == (DiskView { present: true, directories: Map::empty() }),
    {
        let disk = Disk { present: true, directories: Table::new() };
        assert(disk@.directories =~= Map::empty());
        disk
    }

    /// A disk on which not even the root directory exists.
    pub fn missing() -> (r: Disk)
        ensures
            r@ == (DiskView { present: false, directories: Map::empty() }),
    {
        let disk = Disk { present: false, directories: Table::new() };
        assert(disk@.directories =~= Map::empty());
        disk
    }

    /// The bytes of the file `name` in the directory `uuid`.
    pub fn file(&self, uuid: &str, name: &str) -> (r: Option<Vec<u8>>)
        ensures
            match r {
                Some(bytes) => self@.file(uuid@, name@) == Some(bytes@),
                None => self@.file(uuid@, name@) is None,
            },
    {
        let uuid = uuid.to_owned();
        let name = name.to_owned();
        match self.directories.get(&uuid) {
            None => None,
            Some(files) => match files.get(&name) {
                None => None,
                Some(bytes) => Some(slice_to_vec(bytes.as_slice())),
            },
        }
    }

    fn create_directory(&mut self, uuid: &String)
        ensures
            final(self)@ == old(self)@.with_directory(uuid@),
    {
        self.present = true;
        if self.directories.position(uuid).is_none() {
            let files: Table<Vec<u8>> = Table::new();
            assert(files_of(files) =~= Map::empty());
            self.directories.insert(uuid.clone(), files);
        }
        assert(self@.directories =~= old(self)@.with_directory(uuid@).directories);
    }

    fn create_file(&mut self, uuid: &String, name: String, bytes: &Vec<u8>) -> (r: Event)
        ensures
            (final(self)@, r@) == old(self)@.create(uuid@, name@, bytes@),
    {
        match self.directories.position(uuid) {
            None => Event::OpenFailed(IoFailure::NotFound),
            Some(i) => {
                let files = self.directories.value_mut(i, Ghost(uuid@));
                let ghost before = *files;
                if files.position(&name).is_some() {
                    assert(self@.directories =~= old(self)@.directories);
                    Event::OpenFailed(IoFailure::AlreadyExists)
                } else {
                    files.insert(name, slice_to_vec(bytes.as_slice()));
                    assert(files_of(*files) =~= files_of(before).insert(name@, bytes@));
                    assert(self@.directories =~= old(self)@.with_file(
                        uuid@,
                        name@,
                        bytes@,
                    ).directories);
                    Event::Completed
                }
            },
        }
    }

    fn replace_file(&mut self, uuid: &String, name: String, bytes: &Vec<u8>) -> (r: Event)
        ensures
            (final(self)@, r@) == old(self)@.replace(uuid@, name@, bytes@),
    {
        match self.directories.position(uuid) {
            None => Event::OpenFailed(IoFailure::NotFound),
            Some(i) => {
                let files = self.directories.value_mut(i, Ghost(uuid@));
                let ghost before = *files;
                if files.position(&name).is_none() {
                    assert(self@.directories =~= old(self)@.directories);
                    Event::OpenFailed(IoFailure::NotFound)
                } else {
                    files.insert(name, slice_to_vec(bytes.as_slice()));
                    assert(files_of(*files) =~= files_of(before).insert(name@, bytes@));
                    assert(self@.directories =~= old(self)@.with_file(
                        uuid@,
                        name@,
                        bytes@,
                    ).directories);
                    Event::Completed
                }
            },
        }
    }

    fn read_file(&self, uuid: &String, name: String) -> (r: Event)
        ensures
            r@ == self@.read(uuid@, name@),
    {
        match self.directories.get(uuid) {
            None => Event::OpenFailed(IoFailure::NotFound),
            Some(files) => match files.get(&name) {
                None => Event::OpenFailed(IoFailure::NotFound),
                Some(bytes) => Event::Content(slice_to_vec(bytes.as_slice())),
            },
        }
    }

    fn list(&self) -> (r: Event)
        ensures
            self@.performs(ActionView::ListRoot, self@, r@),
    {
        if !self.present {
            return Event::OpenFailed(IoFailure::NotFound);
        }
        let names = self.directories.keys();
        let mut entries: Vec<DirEntry> = Vec::new();
        let mut i: usize = 0;
        while i < names.len()
            invariant
                i <= names@.len(),
                entries@.len() == i,
                forall|j: int|
                    0 <= j < i ==> (#[trigger] entries@[j])@ == DirEntryView::Directory(names@[j]@),
            decreases names@.len() - i,
        {
            entries.push(DirEntry::Directory(names[i].clone()));
            i += 1;
        }
        let event = Event::Entries(entries);
        proof {
            let listed = event@->Entries_0;
            assert forall|j: int| 0 <= j < listed.len() implies (#[trigger] listed[j]) is Directory
                && self@.directories.contains_key(listed[j]->0) by {
                assert(listed[j] == entries@[j]@);
                assert(names@[j]@ == names@[j]@);
            }
            assert forall|uuid: Seq<char>| self@.directories.contains_key(uuid) implies exists|
                j: int,
            |
                0 <= j < listed.len() && #[trigger] listed[j] == DirEntryView::Directory(uuid) by {
                let j = choose|j: int| 0 <= j < names@.len() && #[trigger] names@[j]@ == uuid;
                assert(listed[j] == entries@[j]@);
            }
        }
        event
    }

    /// Answers an action that only reads: one that reads a file or lists
    /// the root directory.
    pub(crate) fn inspect(&self, action: &Action) -> (r: Event)
        requires
            action@ is ReadMetadata || action@ is ReadRevision || action@ is ListRoot,
        ensures
            self@.performs(action@, self@, r@),
    {
        match action {
            Action::ReadMetadata { uuid } => self.read_file(uuid, "metadata".to_owned()),
            Action::ReadRevision { uuid, revision } => self.read_file(
                uuid,
                decimal_string(*revision),
            ),
            _ => self.list(),
        }
    }

    /// Carries out `action` on the model and answers as the file system
    /// would.
    pub fn perform(&mut self, action: &Action) -> (r: Event)
        ensures
            old(self)@.performs(action@, final(self)@, r@),
    {
        match action {
            Action::CreateDirectory { uuid } => {
                self.create_directory(uuid);
                Event::Completed
            },
            Action::CreateMetadata { uuid, bytes } => self.create_file(
                uuid,
                "metadata".to_owned(),
                bytes,
            ),
            Action::ReplaceMetadata { uuid, bytes } => self.replace_file(
                uuid,
                "metadata".to_owned(),
                bytes,
            ),
            Action::ReadMetadata { uuid } => self.read_file(uuid, "metadata".to_owned()),
            Action::CreateRevision { uuid, revision, bytes } => self.create_file(
                uuid,
                decimal_string(*revision),
                bytes,
            ),
            Action::ReadRevision { uuid, revision } => self.read_file(
                uuid,
                decimal_string(*revision),
            ),
            Action::ListRoot => self.list(),
        }
    }
}

} // verus!
