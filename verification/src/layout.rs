//! The durable layout, and the vocabulary in which the store and the file
//! system speak to each other.
//!
//! Below the root directory each character has a directory named by its
//! identifier. That directory holds the file `metadata` and one file per
//! revision, named by the revision's decimal numeral. The store itself
//! touches no file: it hands out an [`Action`] and is given the [`Event`]
//! that came of it.
use vstd::prelude::*;
use crate::text::{decimal, decimal_string};

verus! {

/// Something the store asks of the file system.
#[derive(Debug, Clone)]
pub enum Action {
    /// Create the character's directory and every missing directory above it.
    CreateDirectory { uuid: String },
    /// Create the metadata file, which must not exist yet, and write it.
    CreateMetadata { uuid: String, bytes: Vec<u8> },
    /// Open the metadata file, which must exist, empty it and write it anew.
    ReplaceMetadata { uuid: String, bytes: Vec<u8> },
    /// Read the metadata file.
    ReadMetadata { uuid: String },
    /// Create the file of a revision, which must not exist yet, and write it.
    CreateRevision { uuid: String, revision: u64, bytes: Vec<u8> },
    /// Read the file of a revision.
    ReadRevision { uuid: String, revision: u64 },
    /// List what the root directory holds.
    ListRoot,
}

/// An [`Action`] as mathematical values.
pub ghost enum ActionView {
    CreateDirectory { uuid: Seq<char> },
    CreateMetadata { uuid: Seq<char>, bytes: Seq<u8> },
    ReplaceMetadata { uuid: Seq<char>, bytes: Seq<u8> },
    ReadMetadata { uuid: Seq<char> },
    CreateRevision { uuid: Seq<char>, revision: u64, bytes: Seq<u8> },
    ReadRevision { uuid: Seq<char>, revision: u64 },
    ListRoot,
}

impl View for Action {
    type V = ActionView;

    open spec fn view(&self) -> ActionView {
        match self {
            Action::CreateDirectory { uuid } => ActionView::CreateDirectory { uuid: uuid@ },
            Action::CreateMetadata { uuid, bytes } => ActionView::CreateMetadata {
                uuid: uuid@,
                bytes: bytes@,
            },
            Action::ReplaceMetadata { uuid, bytes } => ActionView::ReplaceMetadata {
                uuid: uuid@,
                bytes: bytes@,
            },
            Action::ReadMetadata { uuid } => ActionView::ReadMetadata { uuid: uuid@ },
            Action::CreateRevision { uuid, revision, bytes } => ActionView::CreateRevision {
                uuid: uuid@,
                revision: *revision,
                bytes: bytes@,
            },
            Action::ReadRevision { uuid, revision } => ActionView::ReadRevision {
                uuid: uuid@,
                revision: *revision,
            },
            Action::ListRoot => ActionView::ListRoot,
        }
    }
}

/// Why a file could not be opened or created.
#[derive(Debug, PartialEq, Eq, Clone, Copy, Structural)]
pub enum IoFailure {
    AlreadyExists,
    NotFound,
    Other,
}

/// One entry of the root directory.
#[derive(Debug, Clone)]
pub enum DirEntry {
    /// The entry could not be read.
    Unreadable,
    /// The entry is not a directory.
    NotDirectory,
    /// The entry is a directory whose name is not text.
    Unnamed,
    /// A directory and its name.
    Directory(String),
}

/// A [`DirEntry`] as mathematical values.
pub ghost enum DirEntryView {
    Unreadable,
    NotDirectory,
    Unnamed,
    Directory(Seq<char>),
}

impl View for DirEntry {
    type V = DirEntryView;

    open spec fn view(&self) -> DirEntryView {
        match self {
            DirEntry::Unreadable => DirEntryView::Unreadable,
            DirEntry::NotDirectory => DirEntryView::NotDirectory,
            DirEntry::Unnamed => DirEntryView::Unnamed,
            DirEntry::Directory(name) => DirEntryView::Directory(name@),
        }
    }
}

/// What came of an [`Action`].
#[derive(Debug, Clone)]
pub enum Event {
    /// The action was carried out and there is nothing to hand back.
    Completed,
    /// The file was read: its bytes.
    Content(Vec<u8>),
    /// The directory was listed: its entries.
    Entries(Vec<DirEntry>),
    /// The file or directory could not be opened or created.
    OpenFailed(IoFailure),
    /// The file was opened, but reading or writing it failed.
    TransferFailed,
}

/// An [`Event`] as mathematical values.
pub ghost enum EventView {
    Completed,
    Content(Seq<u8>),
    Entries(Seq<DirEntryView>),
    OpenFailed(IoFailure),
    TransferFailed,
}

/// The views of a sequence of directory entries.
pub open spec fn entry_views(entries: Seq<DirEntry>) -> Seq<DirEntryView> {
    Seq::new(entries.len(), |i: int| entries[i]@)
}

impl View for Event {
    type V = EventView;

    open spec fn view(&self) -> EventView {
        match self {
            Event::Completed => EventView::Completed,
            Event::Content(bytes) => EventView::Content(bytes@),
            Event::Entries(entries) => EventView::Entries(entry_views(entries@)),
            Event::OpenFailed(failure) => EventView::OpenFailed(*failure),
            Event::TransferFailed => EventView::TransferFailed,
        }
    }
}

/// The views of a sequence of strings.
pub open spec fn texts(strings: Seq<String>) -> Seq<Seq<char>> {
    Seq::new(strings.len(), |i: int| strings[i]@)
}

/// Where an action takes place: the names that lead from the root directory
/// to the file or directory it is about.
pub open spec fn location_of(action: ActionView) -> Seq<Seq<char>> {
    match action {
        ActionView::CreateDirectory { uuid } => seq![uuid],
        ActionView::CreateMetadata { uuid, .. } => seq![uuid, "metadata"@],
        ActionView::ReplaceMetadata { uuid, .. } => seq![uuid, "metadata"@],
        ActionView::ReadMetadata { uuid } => seq![uuid, "metadata"@],
        ActionView::CreateRevision { uuid, revision, .. } => seq![uuid, decimal(revision as nat)],
        ActionView::ReadRevision { uuid, revision } => seq![uuid, decimal(revision as nat)],
        ActionView::ListRoot => seq![],
    }
}

/// The way to the directory of a character.
fn character_path(uuid: &String) -> (r: Vec<String>)
    ensures
        texts(r@) == seq![uuid@],
        r@.len() == 1,
        r@[0]@ == uuid@,
{
    let mut path: Vec<String> = Vec::new();
    path.push(uuid.clone());
    assert(texts(path@) =~= seq![uuid@]);
    path
}

/// The way to the metadata file of a character.
fn metadata_path(uuid: &String) -> (r: Vec<String>)
    ensures
        texts(r@) == seq![uuid@, "metadata"@],
{
    let mut path = character_path(uuid);
    path.push("metadata".to_owned());
    assert(texts(path@) =~= seq![uuid@, "metadata"@]);
    path
}

/// The way to the file of a revision of a character.
fn revision_path(uuid: &String, revision: u64) -> (r: Vec<String>)
    ensures
        texts(r@) == seq![uuid@, decimal(revision as nat)],
{
    let mut path = character_path(uuid);
    path.push(decimal_string(revision));
    assert(texts(path@) =~= seq![uuid@, decimal(revision as nat)]);
    path
}

impl Action {
    /// The names that lead from the root directory to the file or directory
    /// that the action is about.
    pub fn location(&self) -> (r: Vec<String>)
        ensures
            texts(r@) == location_of(self@),
    {
        match self {
            Action::CreateDirectory { uuid } => character_path(uuid),
            Action::CreateMetadata { uuid, .. } => metadata_path(uuid),
            Action::ReplaceMetadata { uuid, .. } => metadata_path(uuid),
            Action::ReadMetadata { uuid } => metadata_path(uuid),
            Action::CreateRevision { uuid, revision, .. } => revision_path(uuid, *revision),
            Action::ReadRevision { uuid, revision } => revision_path(uuid, *revision),
            Action::ListRoot => {
                let path: Vec<String> = Vec::new();
                assert(texts(path@) =~= Seq::<Seq<char>>::empty());
                path
            },
        }
    }
}

} // verus!
