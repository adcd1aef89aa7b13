//! The byte format of the two records that the store keeps on disk.
//!
//! A text field is the length of its UTF-8 form, as eight bytes in
//! little-endian order, followed by that form. A metadata record is the
//! identifier, the owner, and a mark for the latest revision: the byte 0
//! where none was written yet, or the byte 1 and the revision as eight bytes
//! in little-endian order. A character is its identifier followed by the
//! sheet, which runs to the end of the file.
use vstd::prelude::*;
use vstd::bytes::*;
use vstd::slice::*;
use vstd::utf8::*;
use vstd::string::*;

verus! {

/// The durable record of one character.
#[derive(Debug, Clone)]
pub struct CharacterMetadata {
    pub uuid: String,
    pub owner: String,
    pub latest_revision: Option<u64>,
}

/// A metadata record as mathematical values.
pub ghost struct MetadataView {
    pub uuid: Seq<char>,
    pub owner: Seq<char>,
    pub latest_revision: Option<u64>,
}

impl View for CharacterMetadata {
    type V = MetadataView;

    open spec fn view(&self) -> MetadataView {
        MetadataView {
            uuid: self.uuid@,
            owner: self.owner@,
            latest_revision: self.latest_revision,
        }
    }
}

/// One revision's payload: the identifier of the character it belongs to and
/// the sheet itself, which the store never looks into.
#[derive(Debug, Clone)]
pub struct Character {
    pub uuid: String,
    pub sheet: Vec<u8>,
}

/// A character as mathematical values.
pub ghost struct CharacterView {
    pub uuid: Seq<char>,
    pub sheet: Seq<u8>,
}

impl View for Character {
    type V = CharacterView;

    open spec fn view(&self) -> CharacterView {
        CharacterView { uuid: self.uuid@, sheet: self.sheet@ }
    }
}

/// Whether the UTF-8 form of `s` is short enough for its length to be
/// written in eight bytes.
pub open spec fn fits(s: Seq<char>) -> bool {
    encode_utf8(s).len() <= u64::MAX
}

/// The bytes of a text field.
pub open spec fn text_field(s: Seq<char>) -> Seq<u8> {
    spec_u64_to_le_bytes(encode_utf8(s).len() as u64) + encode_utf8(s)
}

/// Reads a text field from the front of `bytes`: the text and the bytes
/// that follow it, or `None` where `bytes` does not start with a text field.
pub open spec fn parse_text(bytes: Seq<u8>) -> Option<(Seq<char>, Seq<u8>)> {
    if bytes.len() < 8 {
        None
    } else {
        let n = spec_u64_from_le_bytes(bytes.subrange(0, 8)) as int;
        if bytes.len() - 8 < n {
            None
        } else if !valid_utf8(bytes.subrange(8, 8 + n)) {
            None
        } else {
            Some((decode_utf8(bytes.subrange(8, 8 + n)), bytes.subrange(8 + n, bytes.len() as int)))
        }
    }
}

/// The bytes of the mark for the latest revision.
pub open spec fn revision_mark(latest: Option<u64>) -> Seq<u8> {
    match latest {
        None => seq![0u8],
        Some(n) => seq![1u8] + spec_u64_to_le_bytes(n),
    }
}

/// Reads the mark for the latest revision, which must fill `bytes`.
pub open spec fn parse_revision_mark(bytes: Seq<u8>) -> Option<Option<u64>> {
    if bytes.len() == 1 && bytes[0] == 0 {
        Some(None)
    } else if bytes.len() == 9 && bytes[0] == 1 {
        Some(Some(spec_u64_from_le_bytes(bytes.subrange(1, 9))))
    } else {
        None
    }
}

/// The bytes of a metadata record.
pub open spec fn metadata_bytes(m: MetadataView) -> Seq<u8> {
    text_field(m.uuid) + text_field(m.owner) + revision_mark(m.latest_revision)
}

/// The metadata record that `bytes` holds, if they hold one.
pub open spec fn parse_metadata(bytes: Seq<u8>) -> Option<MetadataView> {
    match parse_text(bytes) {
        None => None,
        Some((uuid, after_uuid)) => match parse_text(after_uuid) {
            None => None,
            Some((owner, after_owner)) => match parse_revision_mark(after_owner) {
                None => None,
                Some(latest_revision) => Some(MetadataView { uuid, owner, latest_revision }),
            },
        },
    }
}

/// The bytes of a character.
pub open spec fn character_bytes(c: CharacterView) -> Seq<u8> {
    text_field(c.uuid) + c.sheet
}

/// The character that `bytes` hold, if they hold one.
pub open spec fn parse_character(bytes: Seq<u8>) -> Option<CharacterView> {
    match parse_text(bytes) {
        None => None,
        Some((uuid, sheet)) => Some(CharacterView { uuid, sheet }),
    }
}

/// `std::str::from_utf8`, followed by a copy into a `String`: the text that
/// the bytes spell where they are well-formed UTF-8, and `None` where they
/// are not.
#[verifier::external_body]
fn text_from_utf8(bytes: &[u8]) -> (r: Option<String>)
    ensures
        r is Some <==> valid_utf8(bytes@),
        r matches Some(s) ==> s@ == decode_utf8(bytes@),
{
    match std::str::from_utf8(bytes) {
        Ok(s) => Some(s.to_owned()),
        Err(_) => None,
    }
}

/// Every text that is held in memory fits.
pub fn text_fits(s: &str)
    ensures
        fits(s@),
{
    let bytes = s.as_bytes();
    let length = bytes.len();
}

/// Appends `bytes` to `out`.
fn append_bytes(out: &mut Vec<u8>, bytes: &[u8])
    ensures
        final(out)@ == old(out)@ + bytes@,
{
    let mut i: usize = 0;
    while i < bytes.len()
        invariant
            i <= bytes@.len(),
            out@ == old(out)@ + bytes@.subrange(0, i as int),
        decreases bytes@.len() - i,
    {
        out.push(bytes[i]);
        i += 1;
        assert(out@ =~= old(out)@ + bytes@.subrange(0, i as int));
    }
    assert(bytes@.subrange(0, i as int) =~= bytes@);
}

/// Appends the text field of `s` to `out`.
fn append_text(out: &mut Vec<u8>, s: &str)
    ensures
        final(out)@ == old(out)@ + text_field(s@),
{
    let bytes = s.as_bytes();
    let length = u64_to_le_bytes(bytes.len() as u64);
    append_bytes(out, length.as_slice());
    append_bytes(out, bytes);
    assert(out@ =~= old(out)@ + text_field(s@));
}

/// Reads a text field that starts at `start`: the text, and where the
/// bytes after it start.
fn read_text(bytes: &[u8], start: usize) -> (r: Option<(String, usize)>)
    requires
        start <= bytes@.len(),
    ensures
        match r {
            Some((s, next)) => start <= next <= bytes@.len() && parse_text(
                bytes@.subrange(start as int, bytes@.len() as int),
            ) == Some((s@, bytes@.subrange(next as int, bytes@.len() as int))),
            None => parse_text(bytes@.subrange(start as int, bytes@.len() as int)) is None,
        },
{
    let ghost tail = bytes@.subrange(start as int, bytes@.len() as int);
    if bytes.len() - start < 8 {
        return None;
    }
    let n = u64_from_le_bytes(slice_subrange(bytes, start, start + 8));
    assert(bytes@.subrange(start as int, start + 8) =~= tail.subrange(0, 8));
    if ((bytes.len() - start - 8) as u64) < n {
        return None;
    }
    let end = start + 8 + n as usize;
    assert(bytes@.subrange(start + 8, end as int) =~= tail.subrange(8, 8 + n));
    assert(bytes@.subrange(end as int, bytes@.len() as int) =~= tail.subrange(
        8 + n,
        tail.len() as int,
    ));
    match text_from_utf8(slice_subrange(bytes, start + 8, end)) {
        Some(s) => Some((s, end)),
        None => None,
    }
}

/// Writes a metadata record.
pub fn encode_metadata(m: &CharacterMetadata) -> (r: Vec<u8>)
    ensures
        r@ == metadata_bytes(m@),
{
    let mut out: Vec<u8> = Vec::new();
    append_text(&mut out, m.uuid.as_str());
    append_text(&mut out, m.owner.as_str());
    match m.latest_revision {
        None => {
            out.push(0u8);
        },
        Some(n) => {
            out.push(1u8);
            let number = u64_to_le_bytes(n);
            append_bytes(&mut out, number.as_slice());
        },
    }
    assert(out@ =~= metadata_bytes(m@));
    out
}

/// Reads a metadata record: `None` where the bytes are not one.
pub fn decode_metadata(bytes: &[u8]) -> (r: Option<CharacterMetadata>)
    ensures
        match r {
            Some(m) => parse_metadata(bytes@) == Some(m@),
            None => parse_metadata(bytes@) is None,
        },
{
    assert(bytes@.subrange(0, bytes@.len() as int) =~= bytes@);
    let (uuid, after_uuid) = match read_text(bytes, 0) {
        Some(found) => found,
        None => {
            return None;
        },
    };
    let (owner, after_owner) = match read_text(bytes, after_uuid) {
        Some(found) => found,
        None => {
            return None;
        },
    };
    let ghost mark = bytes@.subrange(after_owner as int, bytes@.len() as int);
    let left = bytes.len() - after_owner;
    if left == 1 && bytes[after_owner] == 0 {
        assert(mark[0] == bytes@[after_owner as int]);
        Some(CharacterMetadata { uuid, owner, latest_revision: None })
    } else if left == 9 && bytes[after_owner] == 1 {
        assert(mark[0] == bytes@[after_owner as int]);
        let n = u64_from_le_bytes(slice_subrange(bytes, after_owner + 1, after_owner + 9));
        assert(bytes@.subrange(after_owner + 1, after_owner + 9) =~= mark.subrange(1, 9));
        Some(CharacterMetadata { uuid, owner, latest_revision: Some(n) })
    } else {
        assert(left >= 1 ==> mark[0] == bytes@[after_owner as int]);
        None
    }
}

/// Writes a character.
pub fn encode_character(c: &Character) -> (r: Vec<u8>)
    ensures
        r@ == character_bytes(c@),
{
    let mut out: Vec<u8> = Vec::new();
    append_text(&mut out, c.uuid.as_str());
    append_bytes(&mut out, c.sheet.as_slice());
    assert(out@ =~= character_bytes(c@));
    out
}

/// Reads a character: `None` where the bytes are not one.
pub fn decode_character(bytes: &[u8]) -> (r: Option<Character>)
    ensures
        match r {
            Some(c) => parse_character(bytes@) == Some(c@),
            None => parse_character(bytes@) is None,
        },
{
    assert(bytes@.subrange(0, bytes@.len() as int) =~= bytes@);
    match read_text(bytes, 0) {
        Some((uuid, start)) => {
            let sheet = slice_to_vec(slice_subrange(bytes, start, bytes.len()));
            Some(Character { uuid, sheet })
        },
        None => None,
    }
}

/// A text field is read back as it was written, whatever follows it.
pub proof fn text_field_round_trip(s: Seq<char>, rest: Seq<u8>)
    requires
        fits(s),
    ensures
        parse_text(text_field(s) + rest) == Some((s, rest)),
{
    lemma_auto_spec_u64_to_from_le_bytes();
    encode_utf8_valid_utf8(s);
    encode_utf8_decode_utf8(s);
    let body = encode_utf8(s);
    let n = body.len() as u64;
    let bytes = text_field(s) + rest;
    assert(bytes.subrange(0, 8) =~= spec_u64_to_le_bytes(n));
    assert(bytes.subrange(8, 8 + n) =~= body);
    assert(bytes.subrange(8 + n, bytes.len() as int) =~= rest);
}

/// What was read as a text field is that text field, written out.
pub proof fn text_field_canonical(bytes: Seq<u8>)
    ensures
        parse_text(bytes) matches Some((s, rest)) ==> bytes == text_field(s) + rest && fits(s),
{
    if parse_text(bytes) is Some {
        lemma_auto_spec_u64_to_from_le_bytes();
        let head = bytes.subrange(0, 8);
        let n = spec_u64_from_le_bytes(head);
        let body = bytes.subrange(8, 8 + n);
        decode_utf8_encode_utf8(body);
        assert(spec_u64_to_le_bytes(spec_u64_from_le_bytes(head)) == head);
        assert(bytes =~= head + body + bytes.subrange(8 + n, bytes.len() as int));
    }
}

/// A metadata record is read back as it was written.
pub proof fn metadata_round_trip(m: MetadataView)
    requires
        fits(m.uuid),
        fits(m.owner),
    ensures
        parse_metadata(metadata_bytes(m)) == Some(m),
{
    lemma_auto_spec_u64_to_from_le_bytes();
    let mark = revision_mark(m.latest_revision);
    let tail = text_field(m.owner) + mark;
    assert(metadata_bytes(m) =~= text_field(m.uuid) + tail);
    text_field_round_trip(m.uuid, tail);
    text_field_round_trip(m.owner, mark);
    match m.latest_revision {
        None => {},
        Some(n) => {
            assert(mark.subrange(1, 9) =~= spec_u64_to_le_bytes(n));
        },
    }
}

/// Only the bytes that `metadata_bytes` writes are read as a record.
pub proof fn metadata_canonical(bytes: Seq<u8>)
    requires
        parse_metadata(bytes) is Some,
    ensures
        metadata_bytes(parse_metadata(bytes)->0) == bytes,
{
    lemma_auto_spec_u64_to_from_le_bytes();
    text_field_canonical(bytes);
    let (uuid, after_uuid) = parse_text(bytes)->0;
    text_field_canonical(after_uuid);
    let (owner, mark) = parse_text(after_uuid)->0;
    let m = parse_metadata(bytes)->0;
    if mark.len() == 9 {
        assert(spec_u64_to_le_bytes(spec_u64_from_le_bytes(mark.subrange(1, 9))) == mark.subrange(
            1,
            9,
        ));
    }
    assert(revision_mark(m.latest_revision) =~= mark);
    assert(metadata_bytes(m) =~= bytes);
}

/// A character is read back as it was written.
pub proof fn character_round_trip(c: CharacterView)
    requires
        fits(c.uuid),
    ensures
        parse_character(character_bytes(c)) == Some(c),
{
    text_field_round_trip(c.uuid, c.sheet);
}

} // verus!
