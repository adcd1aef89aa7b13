use cypher_sheet::codec::{encode_character, encode_metadata, Character, CharacterMetadata};
use cypher_sheet::disk::Disk;
use cypher_sheet::errors::ErrorCode;
use cypher_sheet::layout::{Action, Event, IoFailure};
use cypher_sheet::store::FileStore;

fn character(uuid: &str, sheet: &[u8]) -> Character {
    Character { uuid: uuid.to_owned(), sheet: sheet.to_vec() }
}

fn blank() -> Character {
    character("", b"")
}

fn open(disk: &Disk) -> FileStore {
    FileStore::new("root".to_owned(), disk).expect("should load")
}

#[test]
fn new_file_store() {
    let disk = Disk::new();
    let s = FileStore::new("root".to_owned(), &disk).unwrap();
    assert_eq!(s.root(), "root");
}

#[test]
fn new_fails_without_root_directory() {
    let disk = Disk::missing();
    let err = FileStore::new("root".to_owned(), &disk).err().expect("should fail");
    assert_eq!(err.code(), ErrorCode::Internal);
    assert_eq!(err.message(), "failed to read characters from root");
}

#[test]
fn create_character() {
    let mut disk = Disk::new();
    let mut s = open(&disk);
    let uuid = s.create_character(&mut disk, "test_user".to_owned());
    assert!(!uuid.expect("should return a new uuid").is_empty());
}

#[test]
fn create_character_gives_lowercase_hex_identifier() {
    let mut disk = Disk::new();
    let mut s = open(&disk);
    let first = s.create_character(&mut disk, "test_user".to_owned()).unwrap();
    let second = s.create_character(&mut disk, "test_user".to_owned()).unwrap();
    for uuid in [&first, &second] {
        assert_eq!(uuid.len(), 32);
        assert!(uuid.chars().all(|c| c.is_ascii_digit() || ('a'..='f').contains(&c)));
    }
    assert_ne!(first, second);
}

#[test]
fn create_character_writes_metadata_without_revisions() {
    let mut disk = Disk::new();
    let mut s = open(&disk);
    let uuid = s.create_character(&mut disk, "alice".to_owned()).unwrap();
    let expected = encode_metadata(&CharacterMetadata::new(uuid.clone(), "alice".to_owned()));
    assert_eq!(disk.file(&uuid, "metadata"), Some(expected));
    assert_eq!(disk.file(&uuid, "0"), None);
    let metadata = s.metadata(&uuid).expect("should be in the index");
    assert_eq!(metadata.owner, "alice");
    assert_eq!(metadata.latest_revision, None);
}

#[test]
fn create_character_reports_collision() {
    let mut disk = Disk::new();
    let mut s = open(&disk);
    let uuid = s
        .create_character_as(&mut disk, "0123".to_owned(), "alice".to_owned())
        .unwrap();
    assert_eq!(uuid, "0123");
    let before = disk.file("0123", "metadata");
    let err = s
        .create_character_as(&mut disk, "0123".to_owned(), "bob".to_owned())
        .expect_err("should refuse the identifier");
    assert_eq!(err.code(), ErrorCode::Internal);
    assert_eq!(err.message(), "failed to create new character, please retry");
    assert_eq!(disk.file("0123", "metadata"), before);
    assert_eq!(s.metadata("0123").unwrap().owner, "alice");
}

#[test]
fn create_character_does_not_write_over_metadata_on_disk() {
    let mut disk = Disk::new();
    disk.perform(&Action::CreateDirectory { uuid: "abc".to_owned() });
    disk.perform(&Action::CreateMetadata { uuid: "abc".to_owned(), bytes: vec![1, 2, 3] });
    let mut s = FileStore::empty("root".to_owned());
    let err = s
        .create_character_as(&mut disk, "abc".to_owned(), "alice".to_owned())
        .expect_err("should not write over the file");
    assert_eq!(err.code(), ErrorCode::Exists);
    assert_eq!(err.message(), "metadata file already exists");
    assert_eq!(disk.file("abc", "metadata"), Some(vec![1, 2, 3]));
    assert!(s.metadata("abc").is_none());
}

#[test]
fn write_revision() {
    let mut disk = Disk::new();
    let mut s = open(&disk);
    let uuid = s.create_character(&mut disk, "test_user".to_owned()).unwrap();
    let res = s.write_revision(&mut disk, &uuid, "test_user".to_owned(), blank(), 0);
    assert_eq!(res.expect("should return 0 for first write"), 0);
}

#[test]
fn write_revision_requires_created_character() {
    let mut disk = Disk::new();
    let mut s = open(&disk);
    let res = s.write_revision(&mut disk, "test_uuid", "test_user".to_owned(), blank(), 0);
    assert!(res.is_err(), "write should return error if the character was not created");
    let err = res.unwrap_err();
    assert_eq!(err.code(), ErrorCode::NotFound);
    assert_eq!(err.message(), "character does not exist");
}

#[test]
fn write_revision_restricts_access_to_owner() {
    let mut disk = Disk::new();
    let mut s = open(&disk);
    let uuid = s.create_character(&mut disk, "owner".to_owned()).unwrap();
    let res = s.write_revision(&mut disk, &uuid, "other_user".to_owned(), blank(), 0);
    assert!(res.is_err(), "write should return error if the writer is not owner");
    let err = res.unwrap_err();
    assert_eq!(err.code(), ErrorCode::Unauthorized);
    assert_eq!(err.message(), "unauthorized");
    assert_eq!(disk.file(&uuid, "0"), None);
    assert_eq!(s.metadata(&uuid).unwrap().latest_revision, None);
}

#[test]
fn write_revision_enforces_increasing_revisions() {
    let mut disk = Disk::new();
    let mut s = open(&disk);
    let uuid = s.create_character(&mut disk, "test_user".to_owned()).unwrap();

    let res = s.write_revision(&mut disk, &uuid, "test_user".to_owned(), blank(), 0);
    assert_eq!(res.expect("should return 0 for first write"), 0);

    let res = s.write_revision(&mut disk, &uuid, "test_user".to_owned(), blank(), 1);
    assert_eq!(res.expect("should return 1 for second second"), 1);

    let res = s.write_revision(&mut disk, &uuid, "test_user".to_owned(), blank(), 1);
    assert_eq!(
        res.expect_err("should return error for third write").code(),
        ErrorCode::OutOfOrder,
    );

    let res = s.write_revision(&mut disk, &uuid, "test_user".to_owned(), blank(), 0);
    assert_eq!(
        res.expect_err("should return error for fourth write").code(),
        ErrorCode::OutOfOrder,
    );
}

#[test]
fn write_revision_names_latest_revision_when_out_of_order() {
    let mut disk = Disk::new();
    let mut s = open(&disk);
    let uuid = s.create_character(&mut disk, "alice".to_owned()).unwrap();
    for revision in [0, 3, 12] {
        s.write_revision(&mut disk, &uuid, "alice".to_owned(), blank(), revision).unwrap();
    }
    let err = s
        .write_revision(&mut disk, &uuid, "alice".to_owned(), blank(), 12)
        .expect_err("should be out of order");
    assert_eq!(err.code(), ErrorCode::OutOfOrder);
    assert_eq!(
        err.message(),
        "revisions need to be sent in order, last known revision is 12"
    );
    assert_eq!(
        err.to_string(),
        "OutOfOrder: revisions need to be sent in order, last known revision is 12"
    );
}

#[test]
fn first_revision_must_be_zero() {
    let mut disk = Disk::new();
    let mut s = open(&disk);
    let uuid = s.create_character(&mut disk, "alice".to_owned()).unwrap();
    let err = s
        .write_revision(&mut disk, &uuid, "alice".to_owned(), blank(), 5)
        .expect_err("the first revision is 0");
    assert_eq!(err.code(), ErrorCode::OutOfOrder);
    assert_eq!(
        err.message(),
        "revisions need to be sent in order, last known revision is 0"
    );
    assert_eq!(disk.file(&uuid, "5"), None);
    assert_eq!(s.metadata(&uuid).unwrap().latest_revision, None);
}

#[test]
fn revisions_may_leave_gaps() {
    let mut disk = Disk::new();
    let mut s = open(&disk);
    let uuid = s.create_character(&mut disk, "alice".to_owned()).unwrap();
    assert_eq!(s.write_revision(&mut disk, &uuid, "alice".to_owned(), blank(), 0).unwrap(), 0);
    assert_eq!(s.write_revision(&mut disk, &uuid, "alice".to_owned(), blank(), 7).unwrap(), 7);
    assert_eq!(
        s.write_revision(&mut disk, &uuid, "alice".to_owned(), blank(), u64::MAX).unwrap(),
        u64::MAX
    );
    assert!(disk.file(&uuid, "18446744073709551615").is_some());
    assert_eq!(s.metadata(&uuid).unwrap().latest_revision, Some(u64::MAX));
}

#[test]
fn out_of_order_write_leaves_disk_unchanged() {
    let mut disk = Disk::new();
    let mut s = open(&disk);
    let uuid = s.create_character(&mut disk, "alice".to_owned()).unwrap();
    s.write_revision(&mut disk, &uuid, "alice".to_owned(), character(&uuid, b"first"), 0).unwrap();
    let metadata = disk.file(&uuid, "metadata");
    let revision = disk.file(&uuid, "0");
    let res = s.write_revision(&mut disk, &uuid, "alice".to_owned(), character(&uuid, b"again"), 0);
    assert_eq!(res.unwrap_err().code(), ErrorCode::OutOfOrder);
    assert_eq!(disk.file(&uuid, "metadata"), metadata);
    assert_eq!(disk.file(&uuid, "0"), revision);
    assert_eq!(revision, Some(encode_character(&character(&uuid, b"first"))));
}

#[test]
fn write_revision_does_not_write_over_a_revision_on_disk() {
    let mut disk = Disk::new();
    let mut s = open(&disk);
    let uuid = s.create_character(&mut disk, "alice".to_owned()).unwrap();
    let first = character(&uuid, b"first");
    let other = FileStore::new("root".to_owned(), &disk).unwrap();
    s.write_revision(&mut disk, &uuid, "alice".to_owned(), first.clone(), 0).unwrap();
    // a second store that was loaded before the write still expects revision 0
    let mut stale = other;
    let err = stale
        .write_revision(&mut disk, &uuid, "alice".to_owned(), character(&uuid, b"second"), 0)
        .expect_err("the revision is on the disk");
    assert_eq!(err.code(), ErrorCode::Exists);
    assert_eq!(err.message(), "revision 0 already exists");
    assert_eq!(disk.file(&uuid, "0"), Some(encode_character(&first)));
    assert_eq!(stale.metadata(&uuid).unwrap().latest_revision, None);
}

#[test]
fn create_revision_file_does_not_overwrite() {
    let mut disk = Disk::new();
    let metadata = CharacterMetadata::new("test_uuid".to_owned(), String::new());
    let made = disk.perform(&metadata.directory_request());
    CharacterMetadata::create_character_directory(&made).expect("should create character directory");

    let created = disk.perform(&metadata.write_request(0, &blank()));
    assert!(CharacterMetadata::create_revision_file(0, &created).is_ok());

    let created = disk.perform(&metadata.write_request(0, &blank()));
    assert_eq!(
        CharacterMetadata::create_revision_file(0, &created)
            .expect_err("should fail to overwrite existing file")
            .code(),
        ErrorCode::Exists
    );
}

#[test]
fn open_revision_file_does_not_create() {
    let mut disk = Disk::new();
    let metadata = CharacterMetadata::new("test_uuid".to_owned(), String::new());
    disk.perform(&metadata.directory_request());
    let created = disk.perform(&metadata.write_request(0, &blank()));
    assert!(CharacterMetadata::create_revision_file(0, &created).is_ok());

    // let's open another revision that does not exist
    let opened = disk.perform(&metadata.read_request(1));
    let err = CharacterMetadata::open_revision_file(1, &opened)
        .expect_err("should fail to open missing file");
    assert_eq!(err.code(), ErrorCode::NotFound);
    assert_eq!(err.message(), "revision 1 doesn't exists");
    assert_eq!(disk.file("test_uuid", "1"), None);
}

#[test]
fn open_revision_file_read_only() {
    let mut disk = Disk::new();
    let metadata = CharacterMetadata::new("test_uuid".to_owned(), String::new());
    disk.perform(&metadata.directory_request());
    let created = disk.perform(&metadata.write_request(0, &blank()));
    assert!(CharacterMetadata::create_revision_file(0, &created).is_ok());

    let opened = disk.perform(&metadata.read_request(0));
    assert!(CharacterMetadata::open_revision_file(0, &opened).is_ok(), "should open revision file");

    // a file that was opened to be read takes no bytes
    assert_eq!(
        CharacterMetadata::write_revision_file(&Event::TransferFailed)
            .expect_err("should fail to write to opened file")
            .code(),
        ErrorCode::Internal
    );
}

#[test]
fn write_revision_roundtrip() {
    let mut disk = Disk::new();
    let mut s = open(&disk);
    let uuid = s.create_character(&mut disk, "test_user".to_owned()).unwrap();
    let written = character(&uuid, &[0, 1, 2, 0xff, 0x80]);

    let res = s.write_revision(&mut disk, &uuid, "test_user".to_owned(), written.clone(), 0);
    assert_eq!(res.expect("should return 0 for first write"), 0);

    let res = s.read_revision(&disk, &uuid, "test_user".to_owned(), 0);
    let read = res.expect("should return revision 0");
    assert_eq!(read.uuid, uuid);
    assert_eq!(read.revision, 0);
    let found = read.character.unwrap();
    assert_eq!(found.uuid, written.uuid);
    assert_eq!(found.sheet, written.sheet);
}

#[test]
fn read_revision_requires_created_character() {
    let disk = Disk::new();
    let s = open(&disk);
    let res = s.read_revision(&disk, "test_uuid", "test_user".to_owned(), 0);
    assert!(res.is_err(), "read should return error if the character was not created");
    assert_eq!(res.unwrap_err().code(), ErrorCode::NotFound);
}

#[test]
fn read_revision_restricts_access_to_owner() {
    let mut disk = Disk::new();
    let mut s = open(&disk);
    let uuid = s.create_character(&mut disk, "owner".to_owned()).unwrap();
    let res = s.write_revision(&mut disk, &uuid, "owner".to_owned(), blank(), 0);
    assert_eq!(res.expect("should return 0 for first write"), 0);

    let res = s.read_revision(&disk, &uuid, "other_user".to_owned(), 0);
    assert!(res.is_err(), "read should return error if the reader is not owner");
    assert_eq!(res.unwrap_err().code(), ErrorCode::Unauthorized);

    let res = s.read_latest_revision(&disk, &uuid, "other_user".to_owned());
    assert_eq!(res.unwrap_err().code(), ErrorCode::Unauthorized);
}

#[test]
fn read_revision_reports_missing_revision() {
    let mut disk = Disk::new();
    let mut s = open(&disk);
    let uuid = s.create_character(&mut disk, "alice".to_owned()).unwrap();
    s.write_revision(&mut disk, &uuid, "alice".to_owned(), blank(), 0).unwrap();
    let err = s.read_revision(&disk, &uuid, "alice".to_owned(), 4).unwrap_err();
    assert_eq!(err.code(), ErrorCode::NotFound);
    assert_eq!(err.message(), "revision 4 doesn't exists");
}

#[test]
fn read_revision_reports_undecodable_revision() {
    let mut disk = Disk::new();
    let mut s = open(&disk);
    let uuid = s.create_character(&mut disk, "alice".to_owned()).unwrap();
    disk.perform(&Action::CreateRevision { uuid: uuid.clone(), revision: 0, bytes: vec![9, 9] });
    let err = s.read_revision(&disk, &uuid, "alice".to_owned(), 0).unwrap_err();
    assert_eq!(err.code(), ErrorCode::Internal);
    assert_eq!(err.message(), "could not decode character");
}

#[test]
fn new_loads_existing_data() {
    let mut disk = Disk::new();
    let uuid: String;
    {
        let mut s = open(&disk);
        uuid = s.create_character(&mut disk, "test_user".to_owned()).unwrap();
        let res = s.write_revision(&mut disk, &uuid, "test_user".to_owned(), blank(), 0);
        assert_eq!(res.expect("should create first revision"), 0);
    }
    {
        let mut s = open(&disk);
        let res = s.write_revision(&mut disk, &uuid, "test_user".to_owned(), blank(), 1);
        assert_eq!(res.expect("should create second revision"), 1);
    }
    {
        let s = open(&disk);
        let res = s.read_latest_revision(&disk, &uuid, "test_user".to_owned());
        assert_eq!(res.expect("should return latest revision").revision, 1);
    }
    {
        let mut s = open(&disk);
        let res = s.write_revision(&mut disk, &uuid, "test_user".to_owned(), blank(), 0);
        assert_eq!(
            res.expect_err("should fail to create out of order revision").code(),
            ErrorCode::OutOfOrder
        );
    }
}

#[test]
fn reload_gives_back_the_index() {
    let mut disk = Disk::new();
    let mut s = open(&disk);
    let a = s.create_character(&mut disk, "alice".to_owned()).unwrap();
    let b = s.create_character(&mut disk, "bob".to_owned()).unwrap();
    let c = s.create_character(&mut disk, "carol".to_owned()).unwrap();
    s.write_revision(&mut disk, &a, "alice".to_owned(), character(&a, b"a0"), 0).unwrap();
    s.write_revision(&mut disk, &a, "alice".to_owned(), character(&a, b"a4"), 4).unwrap();
    s.write_revision(&mut disk, &b, "bob".to_owned(), character(&b, b"b0"), 0).unwrap();

    let reloaded = open(&disk);
    for (uuid, owner, latest) in [(&a, "alice", Some(4)), (&b, "bob", Some(0)), (&c, "carol", None)] {
        let before = s.metadata(uuid).unwrap();
        let after = reloaded.metadata(uuid).unwrap();
        assert_eq!(after.uuid, before.uuid);
        assert_eq!(after.owner, owner);
        assert_eq!(after.owner, before.owner);
        assert_eq!(after.latest_revision, latest);
        assert_eq!(after.latest_revision, before.latest_revision);
    }
    assert!(reloaded.metadata("someone else").is_none());
    let read = reloaded.read_revision(&disk, &a, "alice".to_owned(), 0).unwrap();
    assert_eq!(read.character.unwrap().sheet, b"a0".to_vec());
    let read = reloaded.read_latest_revision(&disk, &a, "alice".to_owned()).unwrap();
    assert_eq!(read.revision, 4);
    assert_eq!(read.character.unwrap().sheet, b"a4".to_vec());
}

#[test]
fn new_fails_on_directory_without_metadata() {
    let mut disk = Disk::new();
    disk.perform(&Action::CreateDirectory { uuid: "stray".to_owned() });
    let err = FileStore::new("root".to_owned(), &disk).err().expect("should fail");
    assert_eq!(err.code(), ErrorCode::NotFound);
    assert_eq!(err.message(), "metadata file doesn't exists");
}

#[test]
fn new_fails_on_undecodable_metadata() {
    let mut disk = Disk::new();
    disk.perform(&Action::CreateDirectory { uuid: "broken".to_owned() });
    disk.perform(&Action::CreateMetadata { uuid: "broken".to_owned(), bytes: vec![1, 2, 3] });
    let err = FileStore::new("root".to_owned(), &disk).err().expect("should fail");
    assert_eq!(err.code(), ErrorCode::Internal);
    assert_eq!(err.message(), "could not decode metadata");
}

#[test]
fn read_latest_revision_fails_on_fresh_character() {
    let mut disk = Disk::new();
    let mut s = open(&disk);
    let uuid = s.create_character(&mut disk, "test_user".to_owned()).unwrap();

    let res = s.read_latest_revision(&disk, &uuid, "test_user".to_owned());
    assert_eq!(
        res.as_ref().expect_err("should not return revision").code(),
        ErrorCode::NotFound
    );
    assert_eq!(
        res.as_ref().expect_err("should not return revision").message(),
        "failed to read latest revision for character without revisions"
    );
}

#[test]
fn read_latest_revision_returns_highest_revision() {
    let mut disk = Disk::new();
    let mut s = open(&disk);
    let uuid = s.create_character(&mut disk, "alice".to_owned()).unwrap();
    for revision in [0u64, 1, 5, 9] {
        let sheet = vec![revision as u8];
        s.write_revision(&mut disk, &uuid, "alice".to_owned(), character(&uuid, &sheet), revision)
            .unwrap();
        let read = s.read_latest_revision(&disk, &uuid, "alice".to_owned()).unwrap();
        assert_eq!(read.revision, revision);
        assert_eq!(read.character.unwrap().sheet, sheet);
    }
}

#[test]
fn scenario_create_write_read() {
    let mut disk = Disk::new();
    let mut s = open(&disk);
    let u = s.create_character(&mut disk, "alice".to_owned()).unwrap();
    let written = character(&u, b"sheet zero");
    assert_eq!(s.write_revision(&mut disk, &u, "alice".to_owned(), written.clone(), 0).unwrap(), 0);
    let read = s.read_revision(&disk, &u, "alice".to_owned(), 0).unwrap();
    assert_eq!(read.character.unwrap().sheet, written.sheet);
}

#[test]
fn scenario_second_write_of_a_revision_is_out_of_order() {
    let mut disk = Disk::new();
    let mut s = open(&disk);
    let u = s.create_character(&mut disk, "alice".to_owned()).unwrap();
    s.write_revision(&mut disk, &u, "alice".to_owned(), character(&u, b"sheet zero"), 0).unwrap();
    assert_eq!(
        s.write_revision(&mut disk, &u, "alice".to_owned(), character(&u, b"sheet one"), 1).unwrap(),
        1
    );
    let err = s
        .write_revision(&mut disk, &u, "alice".to_owned(), character(&u, b"sheet two"), 1)
        .unwrap_err();
    assert_eq!(err.code(), ErrorCode::OutOfOrder);
    assert_eq!(disk.file(&u, "1"), Some(encode_character(&character(&u, b"sheet one"))));
}

#[test]
fn scenario_other_user_is_unauthorized() {
    let mut disk = Disk::new();
    let mut s = open(&disk);
    let u = s.create_character(&mut disk, "alice".to_owned()).unwrap();
    s.write_revision(&mut disk, &u, "alice".to_owned(), character(&u, b"sheet zero"), 0).unwrap();
    s.write_revision(&mut disk, &u, "alice".to_owned(), character(&u, b"sheet one"), 1).unwrap();
    let err = s
        .write_revision(&mut disk, &u, "bob".to_owned(), character(&u, b"sheet three"), 2)
        .unwrap_err();
    assert_eq!(err.code(), ErrorCode::Unauthorized);
    assert_eq!(disk.file(&u, "2"), None);
    assert_eq!(s.metadata(&u).unwrap().latest_revision, Some(1));
}

#[test]
fn scenario_fresh_character_has_no_latest_revision() {
    let mut disk = Disk::new();
    let mut s = open(&disk);
    let v = s.create_character(&mut disk, "alice".to_owned()).unwrap();
    let err = s.read_latest_revision(&disk, &v, "alice".to_owned()).unwrap_err();
    assert_eq!(err.code(), ErrorCode::NotFound);
}

#[test]
fn scenario_restart_keeps_latest_revision() {
    let mut disk = Disk::new();
    let u;
    {
        let mut s = open(&disk);
        u = s.create_character(&mut disk, "alice".to_owned()).unwrap();
        s.write_revision(&mut disk, &u, "alice".to_owned(), character(&u, b"sheet zero"), 0).unwrap();
        s.write_revision(&mut disk, &u, "alice".to_owned(), character(&u, b"sheet one"), 1).unwrap();
        let _ = s.write_revision(&mut disk, &u, "alice".to_owned(), character(&u, b"sheet two"), 1);
        let _ = s.write_revision(&mut disk, &u, "bob".to_owned(), character(&u, b"sheet three"), 2);
    }
    let s = open(&disk);
    let read = s.read_latest_revision(&disk, &u, "alice".to_owned()).unwrap();
    assert_eq!(read.revision, 1);
    assert_eq!(read.uuid, u);
    assert_eq!(read.character.unwrap().sheet, b"sheet one".to_vec());
}

#[test]
fn disk_answers_as_the_layout_explains() {
    let mut disk = Disk::new();
    let create = Action::CreateRevision { uuid: "a".to_owned(), revision: 0, bytes: vec![7] };
    assert!(matches!(disk.perform(&create), Event::OpenFailed(IoFailure::NotFound)));
    assert!(matches!(
        disk.perform(&Action::ReplaceMetadata { uuid: "a".to_owned(), bytes: vec![] }),
        Event::OpenFailed(IoFailure::NotFound)
    ));
    assert!(matches!(
        disk.perform(&Action::CreateDirectory { uuid: "a".to_owned() }),
        Event::Completed
    ));
    assert!(matches!(
        disk.perform(&Action::ReplaceMetadata { uuid: "a".to_owned(), bytes: vec![] }),
        Event::OpenFailed(IoFailure::NotFound)
    ));
    assert!(matches!(disk.perform(&create), Event::Completed));
    assert!(matches!(disk.perform(&create), Event::OpenFailed(IoFailure::AlreadyExists)));
    assert!(matches!(
        disk.perform(&Action::CreateDirectory { uuid: "a".to_owned() }),
        Event::Completed
    ));
    match disk.perform(&Action::ReadRevision { uuid: "a".to_owned(), revision: 0 }) {
        Event::Content(bytes) => assert_eq!(bytes, vec![7]),
        other => panic!("unexpected answer: {:?}", other),
    }
    match disk.perform(&Action::ListRoot) {
        Event::Entries(entries) => assert_eq!(entries.len(), 1),
        other => panic!("unexpected answer: {:?}", other),
    }
    assert!(matches!(
        Disk::missing().perform(&Action::ListRoot),
        Event::OpenFailed(IoFailure::NotFound)
    ));
}
