use cypher_sheet::codec::{encode_metadata, Character, CharacterMetadata};
use cypher_sheet::errors::{Error, ErrorCode};
use cypher_sheet::layout::{Action, DirEntry, Event, IoFailure};
use cypher_sheet::store::{FileStore, Pending, Reply, Step};

fn finished(step: Step) -> Result<Reply, Error> {
    match step {
        Step::Finish { result } => result,
        Step::Perform { action, .. } => panic!("the store asks for {:?}", action),
    }
}

fn asked(step: Step) -> (Action, Pending) {
    match step {
        Step::Perform { action, pending } => (action, pending),
        Step::Finish { result } => panic!("the store has finished with {:?}", result),
    }
}

fn with_character(uuid: &str, owner: &str) -> FileStore {
    let mut store = FileStore::empty("root".to_owned());
    let (_, pending) = asked(store.begin_create(uuid.to_owned(), owner.to_owned()));
    let (_, pending) = asked(store.resume(pending, Event::Completed));
    finished(store.resume(pending, Event::Completed)).unwrap();
    store
}

fn blank() -> Character {
    Character { uuid: String::new(), sheet: Vec::new() }
}

#[test]
fn create_asks_for_directory_then_metadata() {
    let mut store = FileStore::empty("root".to_owned());
    let (action, pending) = asked(store.begin_create("abc".to_owned(), "alice".to_owned()));
    assert!(matches!(&action, Action::CreateDirectory { uuid } if uuid == "abc"));
    assert_eq!(action.location(), vec!["abc".to_owned()]);
    let (action, pending) = asked(store.resume(pending, Event::Completed));
    let expected = encode_metadata(&CharacterMetadata::new("abc".to_owned(), "alice".to_owned()));
    assert!(
        matches!(&action, Action::CreateMetadata { uuid, bytes } if uuid == "abc" && *bytes == expected)
    );
    assert_eq!(action.location(), vec!["abc".to_owned(), "metadata".to_owned()]);
    assert!(store.metadata("abc").is_none());
    let reply = finished(store.resume(pending, Event::Completed)).unwrap();
    assert!(matches!(reply, Reply::Created(uuid) if uuid == "abc"));
    assert_eq!(store.metadata("abc").unwrap().owner, "alice");
}

#[test]
fn create_fails_when_directory_cannot_be_made() {
    let mut store = FileStore::empty("root".to_owned());
    for event in [Event::OpenFailed(IoFailure::Other), Event::TransferFailed] {
        let (_, pending) = asked(store.begin_create("abc".to_owned(), "alice".to_owned()));
        let err = finished(store.resume(pending, event)).unwrap_err();
        assert_eq!(err.code(), ErrorCode::Internal);
        assert_eq!(err.message(), "failed to create character");
        assert!(store.metadata("abc").is_none());
    }
}

#[test]
fn metadata_write_failures_are_told_apart() {
    let cases = [
        (Event::OpenFailed(IoFailure::AlreadyExists), ErrorCode::Exists, "metadata file already exists"),
        (Event::OpenFailed(IoFailure::NotFound), ErrorCode::NotFound, "metadata file doesn't exists"),
        (Event::OpenFailed(IoFailure::Other), ErrorCode::Internal, "unexpected error writing metadata"),
        (Event::TransferFailed, ErrorCode::Internal, "failed to write metadata"),
    ];
    for (event, code, message) in cases {
        let mut store = FileStore::empty("root".to_owned());
        let (_, pending) = asked(store.begin_create("abc".to_owned(), "alice".to_owned()));
        let (_, pending) = asked(store.resume(pending, Event::Completed));
        let err = finished(store.resume(pending, event)).unwrap_err();
        assert_eq!(err.code(), code);
        assert_eq!(err.message(), message);
        assert!(store.metadata("abc").is_none());
    }
}

#[test]
fn write_checks_before_it_asks_for_anything() {
    let store = with_character("abc", "alice");
    let err = finished(store.begin_write("nobody", "alice".to_owned(), &blank(), 0)).unwrap_err();
    assert_eq!(err.code(), ErrorCode::NotFound);
    let err = finished(store.begin_write("abc", "bob".to_owned(), &blank(), 0)).unwrap_err();
    assert_eq!(err.code(), ErrorCode::Unauthorized);
    let err = finished(store.begin_write("abc", "alice".to_owned(), &blank(), 1)).unwrap_err();
    assert_eq!(err.code(), ErrorCode::OutOfOrder);
    let (action, _) = asked(store.begin_write("abc", "alice".to_owned(), &blank(), 0));
    assert!(matches!(&action, Action::CreateRevision { uuid, revision: 0, .. } if uuid == "abc"));
    assert_eq!(action.location(), vec!["abc".to_owned(), "0".to_owned()]);
}

#[test]
fn write_updates_latest_revision_after_the_file_is_written() {
    let mut store = with_character("abc", "alice");
    let (_, pending) = asked(store.begin_write("abc", "alice".to_owned(), &blank(), 0));
    let (action, pending) = asked(store.resume(pending, Event::Completed));
    let mut updated = CharacterMetadata::new("abc".to_owned(), "alice".to_owned());
    updated.set_latest_revision(0);
    let expected = encode_metadata(&updated);
    assert!(
        matches!(&action, Action::ReplaceMetadata { uuid, bytes } if uuid == "abc" && *bytes == expected)
    );
    assert_eq!(store.metadata("abc").unwrap().latest_revision, None);
    let reply = finished(store.resume(pending, Event::Completed)).unwrap();
    assert!(matches!(reply, Reply::Written(0)));
    assert_eq!(store.metadata("abc").unwrap().latest_revision, Some(0));
}

#[test]
fn revision_write_failures_are_told_apart() {
    let cases = [
        (Event::OpenFailed(IoFailure::AlreadyExists), ErrorCode::Exists, "revision 3 already exists"),
        (Event::OpenFailed(IoFailure::NotFound), ErrorCode::Internal, "unexpected error writing revision"),
        (Event::OpenFailed(IoFailure::Other), ErrorCode::Internal, "unexpected error writing revision"),
        (Event::TransferFailed, ErrorCode::Internal, "failed to write character revision"),
    ];
    for (event, code, message) in cases {
        let mut store = with_character("abc", "alice");
        let (_, pending) = asked(store.begin_write("abc", "alice".to_owned(), &blank(), 0));
        let (_, pending) = asked(store.resume(pending, Event::Completed));
        finished(store.resume(pending, Event::Completed)).unwrap();
        let (_, pending) = asked(store.begin_write("abc", "alice".to_owned(), &blank(), 3));
        let err = finished(store.resume(pending, event)).unwrap_err();
        assert_eq!(err.code(), code);
        assert_eq!(err.message(), message);
        assert_eq!(store.metadata("abc").unwrap().latest_revision, Some(0));
    }
}

#[test]
fn latest_revision_is_recorded_even_if_metadata_cannot_be_written() {
    let mut store = with_character("abc", "alice");
    let (_, pending) = asked(store.begin_write("abc", "alice".to_owned(), &blank(), 0));
    let (_, pending) = asked(store.resume(pending, Event::Completed));
    let err = finished(store.resume(pending, Event::TransferFailed)).unwrap_err();
    assert_eq!(err.code(), ErrorCode::Internal);
    assert_eq!(err.message(), "failed to write metadata");
    assert_eq!(store.metadata("abc").unwrap().latest_revision, Some(0));
}

#[test]
fn revision_read_failures_are_told_apart() {
    let cases = [
        (Event::OpenFailed(IoFailure::NotFound), ErrorCode::NotFound, "revision 2 doesn't exists"),
        (Event::OpenFailed(IoFailure::Other), ErrorCode::Internal, "unexpected error opening revision"),
        (Event::OpenFailed(IoFailure::AlreadyExists), ErrorCode::Internal, "unexpected error opening revision"),
        (Event::TransferFailed, ErrorCode::Internal, "could not decode character"),
        (Event::Content(vec![1]), ErrorCode::Internal, "could not decode character"),
        (Event::Completed, ErrorCode::Internal, "could not decode character"),
    ];
    for (event, code, message) in cases {
        let mut store = with_character("abc", "alice");
        let (action, pending) = asked(store.begin_read("abc", "alice".to_owned(), 2));
        assert!(matches!(&action, Action::ReadRevision { uuid, revision: 2 } if uuid == "abc"));
        let err = finished(store.resume(pending, event)).unwrap_err();
        assert_eq!(err.code(), code);
        assert_eq!(err.message(), message);
    }
}

#[test]
fn load_passes_over_what_is_no_directory() {
    let mut store = FileStore::empty("root".to_owned());
    let (action, pending) = asked(store.begin_load());
    assert!(matches!(action, Action::ListRoot));
    assert!(action.location().is_empty());
    let entries = vec![
        DirEntry::Unreadable,
        DirEntry::Directory("one".to_owned()),
        DirEntry::NotDirectory,
        DirEntry::Unnamed,
        DirEntry::Directory("two".to_owned()),
    ];
    let (action, pending) = asked(store.resume(pending, Event::Entries(entries)));
    assert!(matches!(&action, Action::ReadMetadata { uuid } if uuid == "one"));
    let one = encode_metadata(&CharacterMetadata::new("one".to_owned(), "alice".to_owned()));
    let (action, pending) = asked(store.resume(pending, Event::Content(one)));
    assert!(matches!(&action, Action::ReadMetadata { uuid } if uuid == "two"));
    let mut second = CharacterMetadata::new("two".to_owned(), "bob".to_owned());
    second.set_latest_revision(8);
    let reply = finished(store.resume(pending, Event::Content(encode_metadata(&second)))).unwrap();
    assert!(matches!(reply, Reply::Loaded));
    assert_eq!(store.metadata("one").unwrap().owner, "alice");
    assert_eq!(store.metadata("two").unwrap().latest_revision, Some(8));
}

#[test]
fn load_of_empty_root_finishes_at_once() {
    let mut store = FileStore::empty("root".to_owned());
    let (_, pending) = asked(store.begin_load());
    let entries = vec![DirEntry::NotDirectory, DirEntry::Unreadable];
    let reply = finished(store.resume(pending, Event::Entries(entries))).unwrap();
    assert!(matches!(reply, Reply::Loaded));
}

#[test]
fn load_failures_are_told_apart() {
    let cases = [
        (Event::OpenFailed(IoFailure::NotFound), ErrorCode::NotFound, "metadata file doesn't exists"),
        (Event::OpenFailed(IoFailure::Other), ErrorCode::Internal, "unexpected error opening revision"),
        (Event::Content(vec![0, 1]), ErrorCode::Internal, "could not decode metadata"),
        (Event::TransferFailed, ErrorCode::Internal, "could not decode metadata"),
    ];
    for (event, code, message) in cases {
        let mut store = FileStore::empty("root".to_owned());
        let (_, pending) = asked(store.begin_load());
        let entries = vec![DirEntry::Directory("one".to_owned())];
        let (_, pending) = asked(store.resume(pending, Event::Entries(entries)));
        let err = finished(store.resume(pending, event)).unwrap_err();
        assert_eq!(err.code(), code);
        assert_eq!(err.message(), message);
    }
    let mut store = FileStore::empty("root".to_owned());
    let (_, pending) = asked(store.begin_load());
    let err = finished(store.resume(pending, Event::OpenFailed(IoFailure::NotFound))).unwrap_err();
    assert_eq!(err.code(), ErrorCode::Internal);
    assert_eq!(err.message(), "failed to read characters from root");
}
