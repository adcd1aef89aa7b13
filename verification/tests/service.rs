use cypher_sheet::client::{
    create_characters, method, CallOption, Channel, CharactersClient, MethodType, Rpc, Wait,
};
use cypher_sheet::codec::Character;
use cypher_sheet::disk::Disk;
use cypher_sheet::rpc::RpcStatusCode;
use cypher_sheet::service::{
    character_to_write, user, CharacterService, Characters, CreateCharacter, DeleteCharacter,
    ReadLatestRevision, ReadRevision, WriteRevision,
};
use cypher_sheet::store::FileStore;

fn service(disk: &Disk) -> CharacterService {
    CharacterService { db: FileStore::new("./testdata/".to_owned(), disk).unwrap() }
}

fn write(uuid: &str, sheet: &[u8], revision: u64) -> WriteRevision {
    WriteRevision {
        character: Some(Character { uuid: uuid.to_owned(), sheet: sheet.to_vec() }),
        revision,
    }
}

#[test]
fn service_runs_on_testdata() {
    let disk = Disk::new();
    let db = cypher_sheet::service::new_file_store(&disk).unwrap();
    assert_eq!(db.root(), "./testdata/");
    assert!(cypher_sheet::service::new_file_store(&Disk::missing()).is_err());
    assert_eq!(user(), "test_user");
}

#[test]
fn service_creates_writes_and_reads() {
    let mut disk = Disk::new();
    let mut service = service(&disk);
    let created = service.create(&mut disk, CreateCharacter {}).unwrap();
    assert_eq!(created.uuid.len(), 32);
    assert_eq!(service.db.metadata(&created.uuid).unwrap().owner, "test_user");

    let written = service
        .write_character_revision(&mut disk, write(&created.uuid, b"sheet", 0))
        .unwrap();
    assert_eq!(written.revision, 0);
    assert_eq!(written.uuid, created.uuid);

    let read = service
        .read_character_revision(&disk, ReadRevision { uuid: created.uuid.clone(), revision: 0 })
        .unwrap();
    assert_eq!(read.revision, 0);
    assert_eq!(read.character.unwrap().sheet, b"sheet".to_vec());

    service.write_character_revision(&mut disk, write(&created.uuid, b"later", 2)).unwrap();
    let read = service
        .read_latest_character_revision(&disk, ReadLatestRevision { uuid: created.uuid.clone() })
        .unwrap();
    assert_eq!(read.revision, 2);
    assert_eq!(read.uuid, created.uuid);
    assert_eq!(read.character.unwrap().sheet, b"later".to_vec());
}

#[test]
fn service_refuses_write_without_character() {
    let mut disk = Disk::new();
    let mut service = service(&disk);
    let status = service
        .write_character_revision(&mut disk, WriteRevision { character: None, revision: 0 })
        .unwrap_err();
    assert_eq!(status.code, RpcStatusCode::InvalidArgument);
    assert_eq!(status.message, "missing character data");
    let status = character_to_write(WriteRevision { character: None, revision: 3 }).unwrap_err();
    assert_eq!(status.code, RpcStatusCode::InvalidArgument);
    let (character, revision) = character_to_write(write("abc", b"x", 3)).unwrap();
    assert_eq!(character.uuid, "abc");
    assert_eq!(revision, 3);
}

#[test]
fn service_tells_failures_as_statuses() {
    let mut disk = Disk::new();
    let mut service = service(&disk);
    let status = service.write_character_revision(&mut disk, write("nobody", b"", 0)).unwrap_err();
    assert_eq!(status.code, RpcStatusCode::NotFound);
    assert_eq!(status.message, "NotFound: character does not exist");

    let created = service.create(&mut disk, CreateCharacter {}).unwrap();
    let status = service
        .write_character_revision(&mut disk, write(&created.uuid, b"", 1))
        .unwrap_err();
    assert_eq!(status.code, RpcStatusCode::InvalidArgument);
    assert_eq!(
        status.message,
        "OutOfOrder: revisions need to be sent in order, last known revision is 0"
    );
    let status = service
        .read_latest_character_revision(&disk, ReadLatestRevision { uuid: created.uuid.clone() })
        .unwrap_err();
    assert_eq!(status.code, RpcStatusCode::NotFound);
    let status = service
        .read_character_revision(&disk, ReadRevision { uuid: created.uuid, revision: 9 })
        .unwrap_err();
    assert_eq!(status.code, RpcStatusCode::NotFound);
    assert_eq!(status.message, "NotFound: revision 9 doesn't exists");
}

#[test]
fn service_does_not_offer_delete() {
    let mut disk = Disk::new();
    let mut service = service(&disk);
    let status = service.delete(&mut disk, DeleteCharacter { uuid: "abc".to_owned() }).unwrap_err();
    assert_eq!(status.code, RpcStatusCode::Unimplemented);
    assert_eq!(status.message, "");
}

#[test]
fn methods_have_their_paths() {
    let paths = [
        (Rpc::Create, "/characters.Characters/Create"),
        (Rpc::WriteCharacterRevision, "/characters.Characters/WriteCharacterRevision"),
        (Rpc::ReadCharacterRevision, "/characters.Characters/ReadCharacterRevision"),
        (Rpc::ReadLatestCharacterRevision, "/characters.Characters/ReadLatestCharacterRevision"),
        (Rpc::Delete, "/characters.Characters/Delete"),
    ];
    let bound = create_characters();
    assert_eq!(bound.len(), paths.len());
    for (i, (rpc, path)) in paths.into_iter().enumerate() {
        assert_eq!(method(rpc).name, path);
        assert_eq!(method(rpc).ty, MethodType::Unary);
        assert_eq!(bound[i].name, path);
        assert_eq!(bound[i].ty, MethodType::Unary);
    }
}

#[test]
fn client_names_the_call_of_each_operation() {
    let client = CharactersClient::new(Channel { target: "127.0.0.1:8080".to_owned() });
    assert_eq!(client.channel().target, "127.0.0.1:8080");
    let option = CallOption { timeout: Some(250), wait_for_ready: true };
    let fallback = CallOption::default();
    assert_eq!(fallback, CallOption { timeout: None, wait_for_ready: false });

    let req = CreateCharacter {};
    let calls = [
        (client.create_opt(&req, option), option, Wait::Blocking),
        (client.create(&req), fallback, Wait::Blocking),
        (client.create_async_opt(&req, option), option, Wait::Receiver),
        (client.create_async(&req), fallback, Wait::Receiver),
    ];
    for (call, expected, wait) in calls {
        assert_eq!(call.method.name, "/characters.Characters/Create");
        assert_eq!(call.option, expected);
        assert_eq!(call.wait, wait);
    }

    let req = WriteRevision { character: None, revision: 1 };
    let calls = [
        (client.write_character_revision_opt(&req, option), option, Wait::Blocking),
        (client.write_character_revision(&req), fallback, Wait::Blocking),
        (client.write_character_revision_async_opt(&req, option), option, Wait::Receiver),
        (client.write_character_revision_async(&req), fallback, Wait::Receiver),
    ];
    for (call, expected, wait) in calls {
        assert_eq!(call.request.revision, 1);
        assert_eq!(call.method.name, "/characters.Characters/WriteCharacterRevision");
        assert_eq!(call.option, expected);
        assert_eq!(call.wait, wait);
    }

    let req = ReadRevision { uuid: "abc".to_owned(), revision: 1 };
    let calls = [
        (client.read_character_revision_opt(&req, option), option, Wait::Blocking),
        (client.read_character_revision(&req), fallback, Wait::Blocking),
        (client.read_character_revision_async_opt(&req, option), option, Wait::Receiver),
        (client.read_character_revision_async(&req), fallback, Wait::Receiver),
    ];
    for (call, expected, wait) in calls {
        assert_eq!(call.method.name, "/characters.Characters/ReadCharacterRevision");
        assert_eq!(call.option, expected);
        assert_eq!(call.wait, wait);
    }

    let req = ReadLatestRevision { uuid: "abc".to_owned() };
    let calls = [
        (client.read_latest_character_revision_opt(&req, option), option, Wait::Blocking),
        (client.read_latest_character_revision(&req), fallback, Wait::Blocking),
        (client.read_latest_character_revision_async_opt(&req, option), option, Wait::Receiver),
        (client.read_latest_character_revision_async(&req), fallback, Wait::Receiver),
    ];
    for (call, expected, wait) in calls {
        assert_eq!(call.request.uuid, "abc");
        assert_eq!(call.method.name, "/characters.Characters/ReadLatestCharacterRevision");
        assert_eq!(call.option, expected);
        assert_eq!(call.wait, wait);
    }

    let req = DeleteCharacter { uuid: "abc".to_owned() };
    let calls = [
        (client.delete_opt(&req, option), option, Wait::Blocking),
        (client.delete(&req), fallback, Wait::Blocking),
        (client.delete_async_opt(&req, option), option, Wait::Receiver),
        (client.delete_async(&req), fallback, Wait::Receiver),
    ];
    for (call, expected, wait) in calls {
        assert_eq!(call.method.name, "/characters.Characters/Delete");
        assert_eq!(call.method.ty, MethodType::Unary);
        assert_eq!(call.option, expected);
        assert_eq!(call.wait, wait);
    }
}
