//! Feeding values to a hasher: the byte strings that each kind of value writes.
//!
//! A feed is the sequence of byte strings written, one per call of `write`.
//! Feeds are functions of what equality inspects, so values that are equal
//! write the same feed and hash alike.

use crate::structure::{Head, Ty};
use std::collections::hash_map::DefaultHasher;
use std::hash::Hasher;
use vstd::bytes::{spec_u64_to_le_bytes, u64_to_le_bytes};
use vstd::prelude::*;
use vstd::std_specs::hash::DefaultHasherAdditionalSpecFns;
use vstd::utf8::encode_utf8;

verus! {

/// An integer is written as its eight bytes, least significant first.
pub open spec fn feed_u64(v: u64) -> Seq<Seq<u8>> {
    seq![spec_u64_to_le_bytes(v)]
}

/// A flag is written as the integer 1 or 0.
pub open spec fn feed_bool(b: bool) -> Seq<Seq<u8>> {
    feed_u64(
        if b {
            1
        } else {
            0
        },
    )
}

/// A name is written as its UTF-8 encoding.
pub open spec fn feed_name(name: Seq<char>) -> Seq<Seq<u8>> {
    seq![encode_utf8(name)]
}

/// The first `n` of `parts`, one after the other.
pub open spec fn concat_feeds(parts: Seq<Seq<Seq<u8>>>, n: int) -> Seq<Seq<u8>>
    decreases n,
{
    if n <= 0 || n > parts.len() {
        Seq::empty()
    } else {
        concat_feeds(parts, n - 1) + parts[n - 1]
    }
}

/// A list is written as its length, then its items in order.
pub open spec fn feed_list(parts: Seq<Seq<Seq<u8>>>) -> Seq<Seq<u8>> {
    feed_u64(parts.len() as u64) + concat_feeds(parts, parts.len() as int)
}

/// A head is written as its rank, then what it carries.
pub open spec fn feed_head(head: Head) -> Seq<Seq<u8>> {
    feed_u64(head.rank() as u64) + match head {
        Head::UnsignedInteger(bits) => feed_u64(bits as u64),
        Head::Placeholder(name) => feed_name(name),
        Head::Array(len) => feed_u64(len as u64),
        Head::Custom(name) => feed_name(name),
        _ => Seq::empty(),
    }
}

/// A structural type is written as its head, then the list of its arguments.
/// `Unknown` is written as a rank that no head has.
pub open spec fn feed_ty(t: Ty) -> Seq<Seq<u8>>
    decreases t,
{
    match t {
        Ty::Unknown => feed_u64(6),
        Ty::Node { head, args } => feed_head(head) + feed_list(feed_args(args)),
    }
}

/// What each of `args` writes.
pub open spec fn feed_args(args: Seq<Ty>) -> Seq<Seq<Seq<u8>>>
    decreases args,
{
    Seq::new(
        args.len(),
        |i: int|
            if 0 <= i < args.len() {
                feed_ty(args[i])
            } else {
                Seq::empty()
            },
    )
}

/// What a hasher returns once `feed` has been written to a fresh one.
pub open spec fn digest(feed: Seq<Seq<u8>>) -> u64 {
    DefaultHasher::spec_finish(feed)
}

/// Writes an integer.
pub fn write_u64(state: &mut DefaultHasher, v: u64)
    ensures
        final(state)@ == old(state)@ + feed_u64(v),
{
    let bytes = u64_to_le_bytes(v);
    state.write(bytes.as_slice());
}

/// Writes an integer of the machine's word size.
pub fn write_usize(state: &mut DefaultHasher, v: usize)
    ensures
        final(state)@ == old(state)@ + feed_u64(v as u64),
{
    write_u64(state, v as u64);
}

/// Writes a flag.
pub fn write_bool(state: &mut DefaultHasher, b: bool)
    ensures
        final(state)@ == old(state)@ + feed_bool(b),
{
    write_u64(
        state,
        if b {
            1
        } else {
            0
        },
    );
}

/// Writes a name.
pub fn write_str(state: &mut DefaultHasher, s: &str)
    ensures
        final(state)@ == old(state)@ + feed_name(s@),
{
    state.write(s.as_bytes());
}

} // verus!
