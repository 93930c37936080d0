//! The persisted byte layout of the counter record.
//!
//! The hosting runtime's storage convention prefixes every record with a
//! fixed-size type tag; the tag is followed by the record's one field. A
//! persisted counter record is therefore exactly [`RECORD_SIZE`] bytes: the
//! eight tag bytes, then the count. The tag carries no meaning for the
//! counter's own logic, but every byte image this program writes must
//! populate it, and every byte image it reads must be checked against it.

use vstd::prelude::*;

use crate::Votedapp;

verus! {

/// Width of the type tag that prefixes every persisted record.
pub const DISCRIMINATOR_LEN: usize = 8;

/// Total size of a persisted counter record: the tag plus one count byte.
pub const RECORD_SIZE: usize = 9;

/// The eight tag bytes that mark a byte image as a counter record.
pub open spec fn spec_discriminator() -> Seq<u8> {
    seq![0x22u8, 0x52u8, 0x60u8, 0xa7u8, 0x9au8, 0x83u8, 0xe3u8, 0x33u8]
}

/// The byte image of a record holding `count`: the tag, then the count.
pub open spec fn spec_serialized(count: u8) -> Seq<u8> {
    spec_discriminator().push(count)
}

/// The tag byte at position `i`.
pub fn discriminator_byte(i: usize) -> (r: u8)
    requires
        i < DISCRIMINATOR_LEN,
    ensures
        r == spec_discriminator()[i as int],
{
    if i == 0 {
        0x22
    } else if i == 1 {
        0x52
    } else if i == 2 {
        0x60
    } else if i == 3 {
        0xa7
    } else if i == 4 {
        0x9a
    } else if i == 5 {
        0x83
    } else if i == 6 {
        0xe3
    } else {
        0x33
    }
}

/// Writes the byte image of `record`: the eight tag bytes, then the count.
pub fn serialize_record(record: &Votedapp) -> (r: Vec<u8>)
    ensures
        r@ == spec_serialized(record.count),
{
    let mut out: Vec<u8> = Vec::new();
    let mut i: usize = 0;
    while i < DISCRIMINATOR_LEN
        invariant
            i <= DISCRIMINATOR_LEN,
            out@.len() == i,
            forall|j: int| 0 <= j < i ==> out@[j] == spec_discriminator()[j],
        decreases DISCRIMINATOR_LEN - i,
    {
        let b = discriminator_byte(i);
        out.push(b);
        i = i + 1;
    }
    out.push(record.count);
    proof {
        assert(out@ =~= spec_serialized(record.count));
    }
    out
}

/// Reads a record back from a byte image. Exactly the images
/// `serialize_record` writes are accepted: nine bytes whose first eight are
/// the tag; anything else is rejected.
pub fn deserialize_record(bytes: &Vec<u8>) -> (r: Option<Votedapp>)
    ensures
        r is Some <==> bytes@.len() == RECORD_SIZE && bytes@.subrange(
            0,
            DISCRIMINATOR_LEN as int,
        ) == spec_discriminator(),
        r matches Some(v) ==> bytes@ == spec_serialized(v.count),
{
    if bytes.len() != RECORD_SIZE {
        return None;
    }
    let mut i: usize = 0;
    while i < DISCRIMINATOR_LEN
        invariant
            i <= DISCRIMINATOR_LEN,
            bytes@.len() == RECORD_SIZE,
            forall|j: int| 0 <= j < i ==> bytes@[j] == spec_discriminator()[j],
        decreases DISCRIMINATOR_LEN - i,
    {
        let expected = discriminator_byte(i);
        if bytes[i] != expected {
            proof {
                assert(bytes@.subrange(0, DISCRIMINATOR_LEN as int)[i as int] == bytes@[i as int]);
            }
            return None;
        }
        i = i + 1;
    }
    let record = Votedapp { count: bytes[DISCRIMINATOR_LEN] };
    proof {
        assert(bytes@.subrange(0, DISCRIMINATOR_LEN as int) =~= spec_discriminator());
        assert(bytes@ =~= spec_serialized(record.count));
    }
    Some(record)
}

/// Law: the byte image of any count is a well-formed record image, and the
/// count can be read back from its last byte.
pub proof fn lemma_serialized_well_formed(count: u8)
    ensures
        spec_serialized(count).len() == RECORD_SIZE,
        spec_serialized(count).subrange(0, DISCRIMINATOR_LEN as int) == spec_discriminator(),
        spec_serialized(count)[RECORD_SIZE - 1] == count,
{
    assert(spec_serialized(count).subrange(0, DISCRIMINATOR_LEN as int) =~= spec_discriminator());
}

} // verus!
