//! The laws of the store, proved of the operations as they run against the
//! disk model.
use vstd::prelude::*;
use crate::codec::{
    character_bytes,
    character_round_trip,
    fits,
    metadata_bytes,
    metadata_round_trip,
    parse_character,
    CharacterView,
    MetadataView,
};
use crate::disk::{metadata_name, revision_name, DiskView};
use crate::errors::{ErrorCode, ErrorView};
use crate::layout::EventView;
use crate::metadata::{failure, in_order, out_of_order};
use crate::run::{
    create_outcome,
    loadable,
    loaded,
    read_latest_outcome,
    read_outcome,
    write_outcome,
};
use crate::store::{no_revision, unauthorized, FileStore, RevisionReadView, StoreView};
use crate::text::{decimal, lemma_decimal_digits, lemma_decimal_injective};

verus! {

/// Whether what the disk holds for the directory `uuid` is what the record
/// `metadata` says: the metadata file holds the record, a revision file
/// holds a character, no revision is later than the latest, and the latest
/// is there.
pub open spec fn consistent(d: DiskView, uuid: Seq<char>, metadata: MetadataView) -> bool {
    &&& metadata.uuid == uuid
    &&& fits(metadata.uuid)
    &&& fits(metadata.owner)
    &&& d.metadata(uuid) == Some(metadata_bytes(metadata))
    &&& forall|n: u64| #[trigger]
        d.revision(uuid, n) is Some ==> parse_character(d.revision(uuid, n)->0) is Some && (
        metadata.latest_revision matches Some(latest) && n <= latest)
    &&& metadata.latest_revision matches Some(latest) ==> d.revision(uuid, latest) is Some
}

/// Whether the index and the disk agree: the root directory exists, the
/// index knows the directories of the disk and no others, and each record
/// is consistent with its directory.
pub open spec fn in_sync(s: StoreView, d: DiskView) -> bool {
    &&& d.present
    &&& forall|uuid: Seq<char>|
        s.characters.contains_key(uuid) <==> #[trigger] d.directories.contains_key(uuid)
    &&& forall|uuid: Seq<char>| #[trigger]
        s.characters.contains_key(uuid) ==> consistent(d, uuid, s.characters[uuid])
}

/// The layout keeps the files of a directory apart: no revision is kept in
/// the metadata file, and no two revisions in one file.
pub proof fn law_files_apart(a: u64, b: u64)
    ensures
        revision_name(a) != metadata_name(),
        revision_name(a) == revision_name(b) ==> a == b,
{
    lemma_decimal_digits(a as nat);
    reveal_strlit("metadata");
    assert(metadata_name()[0] == 'm');
    if revision_name(a) == revision_name(b) {
        lemma_decimal_injective(a as nat, b as nat);
    }
}

proof fn lemma_with_file(d: DiskView, uuid: Seq<char>, name: Seq<char>, bytes: Seq<u8>)
    requires
        d.directories.contains_key(uuid),
    ensures
        forall|u: Seq<char>, f: Seq<char>| #[trigger]
            d.with_file(uuid, name, bytes).file(u, f) == if u == uuid && f == name {
                Some(bytes)
            } else {
                d.file(u, f)
            },
        forall|u: Seq<char>|
            d.with_file(uuid, name, bytes).directories.contains_key(u)
                <==> d.directories.contains_key(u),
        d.with_file(uuid, name, bytes).present == d.present,
{
}

proof fn lemma_with_directory(d: DiskView, uuid: Seq<char>)
    ensures
        forall|u: Seq<char>, f: Seq<char>| #[trigger]
            d.with_directory(uuid).file(u, f) == d.file(u, f),
        forall|u: Seq<char>|
            d.with_directory(uuid).directories.contains_key(u) <==> (u == uuid
                || d.directories.contains_key(u)),
        d.with_directory(uuid).present,
{
}

proof fn lemma_revision_files(d: DiskView, uuid: Seq<char>, name: Seq<char>, bytes: Seq<u8>)
    requires
        d.directories.contains_key(uuid),
    ensures
        forall|u: Seq<char>, n: u64| #[trigger]
            d.with_file(uuid, name, bytes).revision(u, n) == if u == uuid && revision_name(n)
                == name {
                Some(bytes)
            } else {
                d.revision(u, n)
            },
        forall|u: Seq<char>| #[trigger]
            d.with_file(uuid, name, bytes).metadata(u) == if u == uuid && metadata_name() == name {
                Some(bytes)
            } else {
                d.metadata(u)
            },
{
    lemma_with_file(d, uuid, name, bytes);
}

/// A store that knows no character is in sync with a disk whose root
/// directory is empty.
pub proof fn law_empty_in_sync(root: Seq<char>)
    ensures
        in_sync(
            StoreView { root, characters: Map::empty() },
            DiskView { present: true, directories: Map::empty() },
        ),
{
}

/// Creating a character keeps the index and the disk in sync, and on a
/// store in sync it succeeds for every identifier that the index does not
/// hold yet. The new character has no revision.
pub proof fn law_create_in_sync(s: StoreView, d: DiskView, uuid: Seq<char>, owner: Seq<char>)
    requires
        in_sync(s, d),
        fits(uuid),
        fits(owner),
    ensures
        in_sync(create_outcome(s, d, uuid, owner).0, create_outcome(s, d, uuid, owner).1),
        !s.characters.contains_key(uuid) ==> {
            &&& create_outcome(s, d, uuid, owner).2 == Ok::<Seq<char>, ErrorView>(uuid)
            &&& create_outcome(s, d, uuid, owner).0.characters.contains_key(uuid)
            &&& create_outcome(s, d, uuid, owner).0.characters[uuid] == (MetadataView {
                uuid,
                owner,
                latest_revision: None,
            })
        },
        s.characters.contains_key(uuid) ==> create_outcome(s, d, uuid, owner) == (
            s,
            d,
            Err::<Seq<char>, ErrorView>(crate::store::collision()),
        ),
{
    if !s.characters.contains_key(uuid) {
        let metadata = MetadataView { uuid, owner, latest_revision: None };
        let made = d.with_directory(uuid);
        lemma_with_directory(d, uuid);
        assert(made.directories[uuid] =~= Map::<Seq<char>, Seq<u8>>::empty());
        let written = made.with_file(uuid, metadata_name(), metadata_bytes(metadata));
        lemma_revision_files(made, uuid, metadata_name(), metadata_bytes(metadata));
        lemma_with_file(made, uuid, metadata_name(), metadata_bytes(metadata));
        let s1 = s.with_character(uuid, metadata);
        assert(create_outcome(s, d, uuid, owner) == (s1, written, Ok::<Seq<char>, ErrorView>(uuid)));
        assert forall|u: Seq<char>| #[trigger] s1.characters.contains_key(u) implies consistent(
            written,
            u,
            s1.characters[u],
        ) by {
            if u == uuid {
                assert forall|n: u64| #[trigger] written.revision(u, n) is Some implies false by {
                    law_files_apart(n, n);
                }
            } else {
                assert(consistent(d, u, s.characters[u]));
                assert forall|n: u64| #[trigger] written.revision(u, n) is Some implies d.revision(
                    u,
                    n,
                ) is Some by {}
            }
        }
    }
}

/// Writing a revision keeps the index and the disk in sync, and on a store
/// in sync the owner's write of a revision that is in order succeeds: it
/// leaves the revision as the latest, its file holding the character.
pub proof fn law_write_in_sync(
    s: StoreView,
    d: DiskView,
    uuid: Seq<char>,
    user: Seq<char>,
    character: CharacterView,
    revision: u64,
)
    requires
        in_sync(s, d),
        fits(character.uuid),
    ensures
        in_sync(
            write_outcome(s, d, uuid, user, character, revision).0,
            write_outcome(s, d, uuid, user, character, revision).1,
        ),
        write_outcome(s, d, uuid, user, character, revision).2 is Ok <==> s.characters.contains_key(
            uuid,
        ) && user == s.characters[uuid].owner && in_order(
            s.characters[uuid].latest_revision,
            revision,
        ),
        write_outcome(s, d, uuid, user, character, revision).2 is Ok ==> {
            &&& write_outcome(s, d, uuid, user, character, revision).2 == Ok::<u64, ErrorView>(
                revision,
            )
            &&& write_outcome(s, d, uuid, user, character, revision).0 == s.with_character(
                uuid,
                MetadataView { latest_revision: Some(revision), ..s.characters[uuid] },
            )
            &&& write_outcome(s, d, uuid, user, character, revision).1.revision(uuid, revision)
                == Some(character_bytes(character))
        },
        write_outcome(s, d, uuid, user, character, revision).2 is Err ==> write_outcome(
            s,
            d,
            uuid,
            user,
            character,
            revision,
        ).0 == s && write_outcome(s, d, uuid, user, character, revision).1 == d,
{
    if s.characters.contains_key(uuid) && user == s.characters[uuid].owner && in_order(
        s.characters[uuid].latest_revision,
        revision,
    ) {
        let metadata = s.characters[uuid];
        let bytes = character_bytes(character);
        assert(consistent(d, uuid, metadata));
        assert(d.directories.contains_key(uuid));
        law_files_apart(revision, revision);
        assert(d.revision(uuid, revision) is None);
        let created = d.with_file(uuid, revision_name(revision), bytes);
        lemma_with_file(d, uuid, revision_name(revision), bytes);
        lemma_revision_files(d, uuid, revision_name(revision), bytes);
        assert(d.create(uuid, revision_name(revision), bytes) == (created, EventView::Completed));
        let updated = MetadataView { latest_revision: Some(revision), ..metadata };
        let replaced = created.with_file(uuid, metadata_name(), metadata_bytes(updated));
        lemma_with_file(created, uuid, metadata_name(), metadata_bytes(updated));
        lemma_revision_files(created, uuid, metadata_name(), metadata_bytes(updated));
        assert(created.metadata(uuid) is Some);
        assert(created.replace(uuid, metadata_name(), metadata_bytes(updated)) == (
            replaced,
            EventView::Completed,
        ));
        let s1 = s.with_character(uuid, updated);
        assert(write_outcome(s, d, uuid, user, character, revision) == (
            s1,
            replaced,
            Ok::<u64, ErrorView>(revision),
        ));
        character_round_trip(character);
        assert forall|u: Seq<char>| #[trigger] s1.characters.contains_key(u) implies consistent(
            replaced,
            u,
            s1.characters[u],
        ) by {
            assert(consistent(d, u, s.characters[u]));
            assert forall|n: u64| #[trigger] replaced.revision(u, n) is Some implies parse_character(
                replaced.revision(u, n)->0,
            ) is Some && (s1.characters[u].latest_revision matches Some(latest) && n <= latest) by {
                law_files_apart(n, revision);
                if u == uuid && n == revision {
                } else {
                    assert(replaced.revision(u, n) == d.revision(u, n));
                }
            }
        }
    }
}

/// What was written is what is read: after a write that succeeded, the
/// owner reads the character back under the same revision as it was
/// written.
pub proof fn law_round_trip(
    s: StoreView,
    d: DiskView,
    uuid: Seq<char>,
    user: Seq<char>,
    character: CharacterView,
    revision: u64,
)
    requires
        fits(character.uuid),
        write_outcome(s, d, uuid, user, character, revision).2 is Ok,
    ensures
        read_outcome(
            write_outcome(s, d, uuid, user, character, revision).0,
            write_outcome(s, d, uuid, user, character, revision).1,
            uuid,
            user,
            revision,
        ) == Ok::<RevisionReadView, ErrorView>(
            RevisionReadView {
                uuid: s.characters[uuid].uuid,
                revision,
                character: Some(character),
            },
        ),
{
    let metadata = s.characters[uuid];
    let bytes = character_bytes(character);
    let created = d.with_file(metadata.uuid, revision_name(revision), bytes);
    let updated = MetadataView { latest_revision: Some(revision), ..metadata };
    let replaced = created.with_file(metadata.uuid, metadata_name(), metadata_bytes(updated));
    law_files_apart(revision, revision);
    lemma_with_file(d, metadata.uuid, revision_name(revision), bytes);
    lemma_with_file(created, metadata.uuid, metadata_name(), metadata_bytes(updated));
    character_round_trip(character);
    assert(replaced.file(metadata.uuid, revision_name(revision)) == Some(bytes));
}

/// No operation writes over a revision: the file of a revision that is on
/// the disk holds the same bytes after any creation and after any write.
pub proof fn law_revisions_immutable(
    s: StoreView,
    d: DiskView,
    uuid: Seq<char>,
    user: Seq<char>,
    character: CharacterView,
    revision: u64,
    of: Seq<char>,
    n: u64,
)
    requires
        d.revision(of, n) is Some,
    ensures
        write_outcome(s, d, uuid, user, character, revision).1.revision(of, n) == d.revision(of, n),
        create_outcome(s, d, uuid, user).1.revision(of, n) == d.revision(of, n),
{
    law_files_apart(n, revision);
    if s.characters.contains_key(uuid) {
        let metadata = s.characters[uuid];
        let bytes = character_bytes(character);
        if d.directories.contains_key(metadata.uuid) {
            lemma_with_file(d, metadata.uuid, revision_name(revision), bytes);
            let created = d.with_file(metadata.uuid, revision_name(revision), bytes);
            let updated = MetadataView { latest_revision: Some(revision), ..metadata };
            lemma_with_file(created, metadata.uuid, metadata_name(), metadata_bytes(updated));
        }
    }
    lemma_with_directory(d, uuid);
    let made = d.with_directory(uuid);
    let fresh = MetadataView { uuid, owner: user, latest_revision: None };
    lemma_with_file(made, uuid, metadata_name(), metadata_bytes(fresh));
}

/// A revision that is on the disk is never written again: where the
/// request passes every check of the index, the write fails because the
/// file exists, and neither the index nor the disk changes.
pub proof fn law_written_once(
    s: StoreView,
    d: DiskView,
    uuid: Seq<char>,
    user: Seq<char>,
    character: CharacterView,
    revision: u64,
)
    requires
        s.characters.contains_key(uuid),
        user == s.characters[uuid].owner,
        in_order(s.characters[uuid].latest_revision, revision),
        d.revision(s.characters[uuid].uuid, revision) is Some,
    ensures
        write_outcome(s, d, uuid, user, character, revision) == (
            s,
            d,
            Err::<u64, ErrorView>(
                failure(
                    ErrorCode::Exists,
                    "revision "@ + decimal(revision as nat) + " already exists"@,
                ),
            ),
        ),
{
}

/// After a write that succeeded, the same revision is refused whatever
/// the payload, and the refusal changes nothing.
pub proof fn law_no_second_write(
    s: StoreView,
    d: DiskView,
    uuid: Seq<char>,
    user: Seq<char>,
    character: CharacterView,
    revision: u64,
    again: CharacterView,
)
    requires
        write_outcome(s, d, uuid, user, character, revision).2 is Ok,
    ensures
        ({
            let (s1, d1, _) = write_outcome(s, d, uuid, user, character, revision);
            write_outcome(s1, d1, uuid, user, again, revision) == (
                s1,
                d1,
                Err::<u64, ErrorView>(out_of_order(Some(revision))),
            )
        }),
{
}

/// A revision out of order is refused before anything is touched: the
/// failure names the latest revision, and neither the index nor the disk
/// changes.
pub proof fn law_out_of_order(
    s: StoreView,
    d: DiskView,
    uuid: Seq<char>,
    user: Seq<char>,
    character: CharacterView,
    revision: u64,
)
    requires
        s.characters.contains_key(uuid),
        user == s.characters[uuid].owner,
        !in_order(s.characters[uuid].latest_revision, revision),
    ensures
        write_outcome(s, d, uuid, user, character, revision) == (
            s,
            d,
            Err::<u64, ErrorView>(out_of_order(s.characters[uuid].latest_revision)),
        ),
{
}

/// A write is accepted only in order: the revision accepted first is 0,
/// and every revision accepted later is greater than the latest.
pub proof fn law_accepted_in_order(
    s: StoreView,
    d: DiskView,
    uuid: Seq<char>,
    user: Seq<char>,
    character: CharacterView,
    revision: u64,
)
    requires
        write_outcome(s, d, uuid, user, character, revision).2 is Ok,
    ensures
        s.characters.contains_key(uuid),
        in_order(s.characters[uuid].latest_revision, revision),
        write_outcome(s, d, uuid, user, character, revision).0.characters[uuid].latest_revision
            == Some(revision),
{
}

/// The latest revision of a character never falls and never goes away,
/// whatever is asked of the store and whatever comes of it; and nothing
/// that is asked about one character changes the record of another.
pub proof fn law_latest_never_falls(
    s: StoreView,
    d: DiskView,
    uuid: Seq<char>,
    user: Seq<char>,
    character: CharacterView,
    revision: u64,
    of: Seq<char>,
)
    requires
        s.characters.contains_key(of),
    ensures
        ({
            let after = write_outcome(s, d, uuid, user, character, revision).0;
            &&& after.characters.contains_key(of)
            &&& after.characters[of].uuid == s.characters[of].uuid
            &&& after.characters[of].owner == s.characters[of].owner
            &&& of != uuid ==> after.characters[of] == s.characters[of]
            &&& s.characters[of].latest_revision matches Some(latest)
                ==> after.characters[of].latest_revision matches Some(later) && latest <= later
        }),
        create_outcome(s, d, uuid, user).0.characters.contains_key(of),
        create_outcome(s, d, uuid, user).0.characters[of] == s.characters[of],
{
}

/// Whoever is not the owner is refused, and the refusal changes nothing:
/// neither a write nor a read gets past the check.
pub proof fn law_owner_only(
    s: StoreView,
    d: DiskView,
    uuid: Seq<char>,
    user: Seq<char>,
    character: CharacterView,
    revision: u64,
)
    requires
        s.characters.contains_key(uuid),
        user != s.characters[uuid].owner,
    ensures
        write_outcome(s, d, uuid, user, character, revision) == (
            s,
            d,
            Err::<u64, ErrorView>(unauthorized()),
        ),
        read_outcome(s, d, uuid, user, revision) == Err::<RevisionReadView, ErrorView>(
            unauthorized(),
        ),
        read_latest_outcome(s, d, uuid, user) == Err::<RevisionReadView, ErrorView>(unauthorized()),
{
}

/// The latest revision of a character without revisions is not found.
pub proof fn law_no_latest_before_first_write(
    s: StoreView,
    d: DiskView,
    uuid: Seq<char>,
    user: Seq<char>,
)
    requires
        s.characters.contains_key(uuid),
        user == s.characters[uuid].owner,
        s.characters[uuid].latest_revision is None,
    ensures
        read_latest_outcome(s, d, uuid, user) == Err::<RevisionReadView, ErrorView>(no_revision()),
{
}

/// On a store in sync, the latest revision of a character that has one is
/// read, and no revision on the disk is later.
pub proof fn law_latest_is_highest(s: StoreView, d: DiskView, uuid: Seq<char>, user: Seq<char>)
    requires
        in_sync(s, d),
        s.characters.contains_key(uuid),
        user == s.characters[uuid].owner,
        s.characters[uuid].latest_revision is Some,
    ensures
        read_latest_outcome(s, d, uuid, user) matches Ok(read) && read.uuid == uuid
            && read.revision == s.characters[uuid].latest_revision->0 && read.character
            == parse_character(d.revision(uuid, read.revision)->0),
        forall|n: u64| #[trigger]
            d.revision(uuid, n) is Some ==> n <= s.characters[uuid].latest_revision->0,
{
    assert(consistent(d, uuid, s.characters[uuid]));
    let latest = s.characters[uuid].latest_revision->0;
    assert(d.revision(uuid, latest) is Some);
}

/// After a write that succeeded, the latest revision is the one that was
/// written.
pub proof fn law_latest_after_write(
    s: StoreView,
    d: DiskView,
    uuid: Seq<char>,
    user: Seq<char>,
    character: CharacterView,
    revision: u64,
)
    requires
        fits(character.uuid),
        write_outcome(s, d, uuid, user, character, revision).2 is Ok,
    ensures
        read_latest_outcome(
            write_outcome(s, d, uuid, user, character, revision).0,
            write_outcome(s, d, uuid, user, character, revision).1,
            uuid,
            user,
        ) == Ok::<RevisionReadView, ErrorView>(
            RevisionReadView {
                uuid: s.characters[uuid].uuid,
                revision,
                character: Some(character),
            },
        ),
{
    law_round_trip(s, d, uuid, user, character, revision);
}

/// Loading gives back the index: from a disk that is in sync with a store,
/// a store over the same root is loaded that is equal to it.
pub proof fn law_reload(s: StoreView, d: DiskView)
    requires
        in_sync(s, d),
    ensures
        d.present,
        forall|uuid: Seq<char>| d.directories.contains_key(uuid) ==> loadable(d, uuid),
        loaded(s.root, d) == s,
        FileStore::new_spec(s.root, d) == Some(s),
{
    assert forall|uuid: Seq<char>| d.directories.contains_key(uuid) implies loadable(d, uuid)
        && crate::run::stored_metadata(d, uuid) == s.characters[uuid] by {
        assert(s.characters.contains_key(uuid));
        assert(consistent(d, uuid, s.characters[uuid]));
        metadata_round_trip(s.characters[uuid]);
    }
    assert(loaded(s.root, d).characters =~= s.characters);
}

/// The index and the disk after a run of write requests for the character
/// `uuid`, each a user, a character and a revision, and the revisions of
/// the requests that were accepted, in their order.
pub open spec fn after_writes(
    s: StoreView,
    d: DiskView,
    uuid: Seq<char>,
    writes: Seq<(Seq<char>, CharacterView, u64)>,
) -> (StoreView, DiskView, Seq<u64>)
    decreases writes.len(),
{
    if writes.len() == 0 {
        (s, d, seq![])
    } else {
        let (before, disk, accepted) = after_writes(s, d, uuid, writes.drop_last());
        let (user, character, revision) = writes.last();
        let (after, written, result) = write_outcome(before, disk, uuid, user, character, revision);
        (
            after,
            written,
            if result is Ok {
                accepted.push(revision)
            } else {
                accepted
            },
        )
    }
}

/// Over any run of write requests for one character, whoever sends them,
/// the revisions that are accepted increase strictly. They start at 0 where
/// the character had no revision, and above the latest where it had one.
/// The index and the disk stay in sync, and the last revision accepted is
/// the latest.
pub proof fn law_accepted_revisions_increase(
    s: StoreView,
    d: DiskView,
    uuid: Seq<char>,
    writes: Seq<(Seq<char>, CharacterView, u64)>,
)
    requires
        in_sync(s, d),
        s.characters.contains_key(uuid),
        forall|i: int| 0 <= i < writes.len() ==> fits((#[trigger] writes[i]).1.uuid),
    ensures
        ({
            let (after, disk, accepted) = after_writes(s, d, uuid, writes);
            &&& in_sync(after, disk)
            &&& after.characters.contains_key(uuid)
            &&& forall|i: int, j: int| 0 <= i < j < accepted.len() ==> accepted[i] < accepted[j]
            &&& accepted.len() > 0 ==> in_order(s.characters[uuid].latest_revision, accepted[0])
            &&& after.characters[uuid].latest_revision == if accepted.len() == 0 {
                s.characters[uuid].latest_revision
            } else {
                Some(accepted.last())
            }
        }),
    decreases writes.len(),
{
    if writes.len() > 0 {
        let earlier = writes.drop_last();
        assert forall|i: int| 0 <= i < earlier.len() implies fits((#[trigger] earlier[i]).1.uuid) by {
            assert(earlier[i] == writes[i]);
        }
        law_accepted_revisions_increase(s, d, uuid, earlier);
        let (before, disk, accepted) = after_writes(s, d, uuid, earlier);
        let (user, character, revision) = writes.last();
        assert(fits(writes[writes.len() - 1].1.uuid));
        law_write_in_sync(before, disk, uuid, user, character, revision);
    }
}

} // verus!
