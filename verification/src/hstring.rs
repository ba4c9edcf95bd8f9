//! Trusted surface over `heapless::String`, the fixed-capacity text buffer
//! the formatter and the display lines are built in.
//!
//! Only ASCII bytes ever pass through these wrappers, so the contents of a
//! string are modelled as the sequence of its bytes.

use vstd::prelude::*;

verus! {

#[verifier::external_type_specification]
#[verifier::external_body]
pub struct ExHeaplessString<const N: usize>(heapless::String<N>);

/// The bytes held by a 7-byte-capacity string.
pub uninterp spec fn str7_bytes(s: heapless::String<7>) -> Seq<u8>;

/// The bytes held by a 32-byte-capacity string.
pub uninterp spec fn str32_bytes(s: heapless::String<32>) -> Seq<u8>;

/// Relies on heapless::String::new: a fresh string is empty.
#[verifier::external_body]
pub fn str7_new() -> (s: heapless::String<7>)
    ensures
        str7_bytes(s) == Seq::<u8>::empty(),
{
    heapless::String::new()
}

/// Relies on heapless::String::push: an ASCII character is appended as one
/// byte when there is room; a full string (its capacity of 7 bytes reached)
/// is left unchanged and the push reports an error.
#[verifier::external_body]
pub fn str7_push(s: &mut heapless::String<7>, b: u8) -> (r: Result<(), ()>)
    requires
        b < 128,
    ensures
        r is Ok <==> str7_bytes(*old(s)).len() < 7,
        r is Ok ==> str7_bytes(*final(s)) == str7_bytes(*old(s)).push(b),
        r is Err ==> str7_bytes(*final(s)) == str7_bytes(*old(s)),
{
    s.push(b as char)
}

/// Relies on str::as_bytes via heapless::String::as_str: the string's bytes,
/// never more than its capacity of 7.
#[verifier::external_body]
pub fn str7_as_bytes(s: &heapless::String<7>) -> (r: &[u8])
    ensures
        r@ == str7_bytes(*s),
        r@.len() <= 7,
{
    s.as_str().as_bytes()
}

/// Relies on heapless::String::new: a fresh string is empty.
#[verifier::external_body]
pub fn str32_new() -> (s: heapless::String<32>)
    ensures
        str32_bytes(s) == Seq::<u8>::empty(),
{
    heapless::String::new()
}

/// Relies on heapless::String::push: an ASCII character is appended as one
/// byte when there is room; a full string (its capacity of 32 bytes reached)
/// is left unchanged and the push reports an error.
#[verifier::external_body]
pub fn str32_push(s: &mut heapless::String<32>, b: u8) -> (r: Result<(), ()>)
    requires
        b < 128,
    ensures
        r is Ok <==> str32_bytes(*old(s)).len() < 32,
        r is Ok ==> str32_bytes(*final(s)) == str32_bytes(*old(s)).push(b),
        r is Err ==> str32_bytes(*final(s)) == str32_bytes(*old(s)),
{
    s.push(b as char)
}

/// Relies on str::as_bytes via heapless::String::as_str: the string's bytes,
/// never more than its capacity of 32.
#[verifier::external_body]
pub fn str32_as_bytes(s: &heapless::String<32>) -> (r: &[u8])
    ensures
        r@ == str32_bytes(*s),
        r@.len() <= 32,
{
    s.as_str().as_bytes()
}

} // verus!
