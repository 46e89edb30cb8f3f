//! How a task is written to bytes and read back.
//!
//! A task is written as a CBOR array of its four fields in the order id, title, completion
//! flag, owner; the owner is an array of integers, one for each byte. Bytes in any other
//! layout, such as a CBOR map of named fields with the owner as a byte string, decode to no
//! task, and a store is not restored from records that hold them.

use crate::task::{Identity, Task, TaskView};
use vstd::prelude::*;

verus! {

/// The CBOR encoding of the four fields of a task, taken as a tuple.
pub uninterp spec fn cbor(id: u64, title: Seq<char>, completed: bool, owner: Seq<u8>) -> Seq<u8>;

/// The four fields that a run of bytes decodes to, where it is the CBOR encoding of such a tuple.
pub uninterp spec fn cbor_fields(bytes: Seq<u8>) -> Option<(u64, Seq<char>, bool, Seq<u8>)>;

/// Bytes that an encoded task takes beyond its title and its owner: one for the tuple, nine
/// for the id, one for the flag, and nine for each of the two lengths.
pub const FRAME: u64 = 29;

/// An upper bound on the length of an encoded task: a character takes at most four bytes,
/// a byte of the owner at most two.
pub open spec fn encoded_limit(title: Seq<char>, owner: Seq<u8>) -> int {
    FRAME + 4 * title.len() + 2 * owner.len()
}

/// Whether a task with this title and this owner is small enough to store: the storage
/// records the length of a value in 32 bits.
pub open spec fn fits(title: Seq<char>, owner: Seq<u8>) -> bool {
    encoded_limit(title, owner) <= u32::MAX
}

/// The bytes that stand for a task.
pub open spec fn encoding(task: TaskView) -> Seq<u8> {
    cbor(task.id, task.title, task.completed, task.owner)
}

/// The task that a run of bytes stands for, if any.
pub open spec fn decoding(bytes: Seq<u8>) -> Option<TaskView> {
    match cbor_fields(bytes) {
        Some((id, title, completed, owner)) => Some(TaskView { id, title, completed, owner }),
        None => None,
    }
}

/// `serde_cbor::to_vec` on the tuple of the four fields. Writing into a vector cannot fail.
/// The result depends on the fields alone, reads back as the same fields, and is no longer
/// than `encoded_limit` says.
#[verifier::external_body]
fn cbor_encode(id: u64, title: &String, completed: bool, owner: &Vec<u8>) -> (bytes: Vec<u8>)
    ensures
        bytes@ == cbor(id, title@, completed, owner@),
        cbor_fields(bytes@) == Some((id, title@, completed, owner@)),
        bytes@.len() <= encoded_limit(title@, owner@),
{
    serde_cbor::to_vec(&(id, title, completed, owner)).unwrap()
}

/// `serde_cbor::from_slice` for a tuple of the four fields: the fields that the bytes encode,
/// or nothing where the bytes are not such an encoding.
#[verifier::external_body]
fn cbor_decode(bytes: &Vec<u8>) -> (fields: Option<(u64, String, bool, Vec<u8>)>)
    ensures
        match fields {
            Some((id, title, completed, owner)) => cbor_fields(bytes@) == Some(
                (id, title@, completed, owner@),
            ),
            None => cbor_fields(bytes@) is None,
        },
{
    serde_cbor::from_slice::<(u64, String, bool, Vec<u8>)>(bytes).ok()
}

impl Task {
    /// Encodes the task.
    pub fn to_bytes(&self) -> (bytes: Vec<u8>)
        ensures
            bytes@ == encoding(self@),
            decoding(bytes@) == Some(self@),
            bytes@.len() <= encoded_limit(self@.title, self@.owner),
    {
        cbor_encode(self.id, &self.title, self.completed, &self.owner.bytes)
    }

    /// Decodes a task; `None` where the bytes encode none.
    pub fn from_bytes(bytes: &Vec<u8>) -> (task: Option<Task>)
        ensures
            match task {
                Some(t) => decoding(bytes@) == Some(t@),
                None => decoding(bytes@) is None,
            },
    {
        match cbor_decode(bytes) {
            Some((id, title, completed, owner)) => Some(
                Task { id, title, completed, owner: Identity::new(owner) },
            ),
            None => None,
        }
    }
}

/// Tests `fits` on a title and an owner.
pub fn storable(title: &String, owner: &Identity) -> (ok: bool)
    ensures
        ok == fits(title@, owner@),
{
    let chars: usize = title.as_str().unicode_len();
    let bytes: usize = owner.bytes.len();
    chars <= 0x3FFF_FFFF && bytes <= 0x7FFF_FFFF && FRAME + 4 * (chars as u64) + 2 * (
    bytes as u64) <= 0xFFFF_FFFF
}

} // verus!
