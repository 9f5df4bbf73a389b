//! The process-wide random source and the draws the library asks of it.
//!
//! Nothing here is proved: each item states what the `rand` crate documents
//! of one of its functions, and the rest of the library is verified against
//! these statements.

use rand::rngs::ThreadRng;
use rand::seq::SliceRandom;
use rand::Rng;
use vstd::prelude::*;

verus! {

/// `rand::rngs::ThreadRng`, the handle on the calling thread's generator.
/// Nothing inside it is visible to the proofs.
#[verifier::external_type_specification]
#[verifier::external_body]
pub struct ExThreadRng(ThreadRng);

/// `rand::thread_rng`: hands out the calling thread's generator. Nothing is
/// claimed of the handle.
pub assume_specification[ rand::thread_rng ]() -> (rng: ThreadRng);

/// `SliceRandom::choose` on the items of a vector: `None` for an empty
/// vector, otherwise a reference to one of its items.
#[verifier::external_body]
pub(crate) fn choose_item<'a, T>(rng: &mut ThreadRng, items: &'a Vec<T>) -> (picked: Option<&'a T>)
    ensures
        items@.len() == 0 ==> picked is None,
        items@.len() > 0 ==> picked is Some && items@.contains(*picked->Some_0),
{
    items.choose(rng)
}

/// `Rng::gen` for `usize`: any value of the type may come back.
#[verifier::external_body]
pub(crate) fn gen_usize(rng: &mut ThreadRng) -> (value: usize) {
    rng.gen()
}

/// `Rng::gen_range` over `start..end` for `usize`: the value is at least
/// `start` and below `end`. The outside function panics when `start` is not
/// below `end`.
#[verifier::external_body]
pub(crate) fn gen_range_usize(rng: &mut ThreadRng, start: usize, end: usize) -> (value: usize)
    requires
        start < end,
    ensures
        start <= value < end,
{
    rng.gen_range(start..end)
}

/// `Rng::gen_range` over `start..=end` for `usize`: the value is at least
/// `start` and at most `end`. The outside function panics when `start` is
/// above `end`.
#[verifier::external_body]
pub(crate) fn gen_range_inclusive_usize(
    rng: &mut ThreadRng,
    start: usize,
    end: usize,
) -> (value: usize)
    requires
        start <= end,
    ensures
        start <= value <= end,
{
    rng.gen_range(start..=end)
}

/// `Rng::gen` for `isize`: any value of the type may come back.
#[verifier::external_body]
pub(crate) fn gen_isize(rng: &mut ThreadRng) -> (value: isize) {
    rng.gen()
}

/// `Rng::gen_range` over `start..end` for `isize`: the value is at least
/// `start` and below `end`. The outside function panics when `start` is not
/// below `end`.
#[verifier::external_body]
pub(crate) fn gen_range_isize(rng: &mut ThreadRng, start: isize, end: isize) -> (value: isize)
    requires
        start < end,
    ensures
        start <= value < end,
{
    rng.gen_range(start..end)
}

/// `Rng::gen_range` over `start..=end` for `isize`: the value is at least
/// `start` and at most `end`. The outside function panics when `start` is
/// above `end`.
#[verifier::external_body]
pub(crate) fn gen_range_inclusive_isize(
    rng: &mut ThreadRng,
    start: isize,
    end: isize,
) -> (value: isize)
    requires
        start <= end,
    ensures
        start <= value <= end,
{
    rng.gen_range(start..=end)
}

/// `Rng::gen` for `u8`: any value of the type may come back.
#[verifier::external_body]
pub(crate) fn gen_u8(rng: &mut ThreadRng) -> (value: u8) {
    rng.gen()
}

/// `Rng::gen_range` over `start..end` for `u8`: the value is at least
/// `start` and below `end`. The outside function panics when `start` is not
/// below `end`.
#[verifier::external_body]
pub(crate) fn gen_range_u8(rng: &mut ThreadRng, start: u8, end: u8) -> (value: u8)
    requires
        start < end,
    ensures
        start <= value < end,
{
    rng.gen_range(start..end)
}

/// `Rng::gen_range` over `start..=end` for `u8`: the value is at least
/// `start` and at most `end`. The outside function panics when `start` is
/// above `end`.
#[verifier::external_body]
pub(crate) fn gen_range_inclusive_u8(
    rng: &mut ThreadRng,
    start: u8,
    end: u8,
) -> (value: u8)
    requires
        start <= end,
    ensures
        start <= value <= end,
{
    rng.gen_range(start..=end)
}

/// `Rng::gen` for `u16`: any value of the type may come back.
#[verifier::external_body]
pub(crate) fn gen_u16(rng: &mut ThreadRng) -> (value: u16) {
    rng.gen()
}

/// `Rng::gen_range` over `start..end` for `u16`: the value is at least
/// `start` and below `end`. The outside function panics when `start` is not
/// below `end`.
#[verifier::external_body]
pub(crate) fn gen_range_u16(rng: &mut ThreadRng, start: u16, end: u16) -> (value: u16)
    requires
        start < end,
    ensures
        start <= value < end,
{
    rng.gen_range(start..end)
}

/// `Rng::gen_range` over `start..=end` for `u16`: the value is at least
/// `start` and at most `end`. The outside function panics when `start` is
/// above `end`.
#[verifier::external_body]
pub(crate) fn gen_range_inclusive_u16(
    rng: &mut ThreadRng,
    start: u16,
    end: u16,
) -> (value: u16)
    requires
        start <= end,
    ensures
        start <= value <= end,
{
    rng.gen_range(start..=end)
}

/// `Rng::gen` for `u32`: any value of the type may come back.
#[verifier::external_body]
pub(crate) fn gen_u32(rng: &mut ThreadRng) -> (value: u32) {
    rng.gen()
}

/// `Rng::gen_range` over `start..end` for `u32`: the value is at least
/// `start` and below `end`. The outside function panics when `start` is not
/// below `end`.
#[verifier::external_body]
pub(crate) fn gen_range_u32(rng: &mut ThreadRng, start: u32, end: u32) -> (value: u32)
    requires
        start < end,
    ensures
        start <= value < end,
{
    rng.gen_range(start..end)
}

/// `Rng::gen_range` over `start..=end` for `u32`: the value is at least
/// `start` and at most `end`. The outside function panics when `start` is
/// above `end`.
#[verifier::external_body]
pub(crate) fn gen_range_inclusive_u32(
    rng: &mut ThreadRng,
    start: u32,
    end: u32,
) -> (value: u32)
    requires
        start <= end,
    ensures
        start <= value <= end,
{
    rng.gen_range(start..=end)
}

/// `Rng::gen` for `u64`: any value of the type may come back.
#[verifier::external_body]
pub(crate) fn gen_u64(rng: &mut ThreadRng) -> (value: u64) {
    rng.gen()
}

/// `Rng::gen_range` over `start..end` for `u64`: the value is at least
/// `start` and below `end`. The outside function panics when `start` is not
/// below `end`.
#[verifier::external_body]
pub(crate) fn gen_range_u64(rng: &mut ThreadRng, start: u64, end: u64) -> (value: u64)
    requires
        start < end,
    ensures
        start <= value < end,
{
    rng.gen_range(start..end)
}

/// `Rng::gen_range` over `start..=end` for `u64`: the value is at least
/// `start` and at most `end`. The outside function panics when `start` is
/// above `end`.
#[verifier::external_body]
pub(crate) fn gen_range_inclusive_u64(
    rng: &mut ThreadRng,
    start: u64,
    end: u64,
) -> (value: u64)
    requires
        start <= end,
    ensures
        start <= value <= end,
{
    rng.gen_range(start..=end)
}

/// `Rng::gen` for `u128`: any value of the type may come back.
#[verifier::external_body]
pub(crate) fn gen_u128(rng: &mut ThreadRng) -> (value: u128) {
    rng.gen()
}

/// `Rng::gen_range` over `start..end` for `u128`: the value is at least
/// `start` and below `end`. The outside function panics when `start` is not
/// below `end`.
#[verifier::external_body]
pub(crate) fn gen_range_u128(rng: &mut ThreadRng, start: u128, end: u128) -> (value: u128)
    requires
        start < end,
    ensures
        start <= value < end,
{
    rng.gen_range(start..end)
}

/// `Rng::gen_range` over `start..=end` for `u128`: the value is at least
/// `start` and at most `end`. The outside function panics when `start` is
/// above `end`.
#[verifier::external_body]
pub(crate) fn gen_range_inclusive_u128(
    rng: &mut ThreadRng,
    start: u128,
    end: u128,
) -> (value: u128)
    requires
        start <= end,
    ensures
        start <= value <= end,
{
    rng.gen_range(start..=end)
}

/// `Rng::gen` for `i8`: any value of the type may come back.
#[verifier::external_body]
pub(crate) fn gen_i8(rng: &mut ThreadRng) -> (value: i8) {
    rng.gen()
}

/// `Rng::gen_range` over `start..end` for `i8`: the value is at least
/// `start` and below `end`. The outside function panics when `start` is not
/// below `end`.
#[verifier::external_body]
pub(crate) fn gen_range_i8(rng: &mut ThreadRng, start: i8, end: i8) -> (value: i8)
    requires
        start < end,
    ensures
        start <= value < end,
{
    rng.gen_range(start..end)
}

/// `Rng::gen_range` over `start..=end` for `i8`: the value is at least
/// `start` and at most `end`. The outside function panics when `start` is
/// above `end`.
#[verifier::external_body]
pub(crate) fn gen_range_inclusive_i8(
    rng: &mut ThreadRng,
    start: i8,
    end: i8,
) -> (value: i8)
    requires
        start <= end,
    ensures
        start <= value <= end,
{
    rng.gen_range(start..=end)
}

/// `Rng::gen` for `i16`: any value of the type may come back.
#[verifier::external_body]
pub(crate) fn gen_i16(rng: &mut ThreadRng) -> (value: i16) {
    rng.gen()
}

/// `Rng::gen_range` over `start..end` for `i16`: the value is at least
/// `start` and below `end`. The outside function panics when `start` is not
/// below `end`.
#[verifier::external_body]
pub(crate) fn gen_range_i16(rng: &mut ThreadRng, start: i16, end: i16) -> (value: i16)
    requires
        start < end,
    ensures
        start <= value < end,
{
    rng.gen_range(start..end)
}

/// `Rng::gen_range` over `start..=end` for `i16`: the value is at least
/// `start` and at most `end`. The outside function panics when `start` is
/// above `end`.
#[verifier::external_body]
pub(crate) fn gen_range_inclusive_i16(
    rng: &mut ThreadRng,
    start: i16,
    end: i16,
) -> (value: i16)
    requires
        start <= end,
    ensures
        start <= value <= end,
{
    rng.gen_range(start..=end)
}

/// `Rng::gen` for `i32`: any value of the type may come back.
#[verifier::external_body]
pub(crate) fn gen_i32(rng: &mut ThreadRng) -> (value: i32) {
    rng.gen()
}

/// `Rng::gen_range` over `start..end` for `i32`: the value is at least
/// `start` and below `end`. The outside function panics when `start` is not
/// below `end`.
#[verifier::external_body]
pub(crate) fn gen_range_i32(rng: &mut ThreadRng, start: i32, end: i32) -> (value: i32)
    requires
        start < end,
    ensures
        start <= value < end,
{
    rng.gen_range(start..end)
}

/// `Rng::gen_range` over `start..=end` for `i32`: the value is at least
/// `start` and at most `end`. The outside function panics when `start` is
/// above `end`.
#[verifier::external_body]
pub(crate) fn gen_range_inclusive_i32(
    rng: &mut ThreadRng,
    start: i32,
    end: i32,
) -> (value: i32)
    requires
        start <= end,
    ensures
        start <= value <= end,
{
    rng.gen_range(start..=end)
}

/// `Rng::gen` for `i64`: any value of the type may come back.
#[verifier::external_body]
pub(crate) fn gen_i64(rng: &mut ThreadRng) -> (value: i64) {
    rng.gen()
}

/// `Rng::gen_range` over `start..end` for `i64`: the value is at least
/// `start` and below `end`. The outside function panics when `start` is not
/// below `end`.
#[verifier::external_body]
pub(crate) fn gen_range_i64(rng: &mut ThreadRng, start: i64, end: i64) -> (value: i64)
    requires
        start < end,
    ensures
        start <= value < end,
{
    rng.gen_range(start..end)
}

/// `Rng::gen_range` over `start..=end` for `i64`: the value is at least
/// `start` and at most `end`. The outside function panics when `start` is
/// above `end`.
#[verifier::external_body]
pub(crate) fn gen_range_inclusive_i64(
    rng: &mut ThreadRng,
    start: i64,
    end: i64,
) -> (value: i64)
    requires
        start <= end,
    ensures
        start <= value <= end,
{
    rng.gen_range(start..=end)
}

/// `Rng::gen` for `i128`: any value of the type may come back.
#[verifier::external_body]
pub(crate) fn gen_i128(rng: &mut ThreadRng) -> (value: i128) {
    rng.gen()
}

/// `Rng::gen_range` over `start..end` for `i128`: the value is at least
/// `start` and below `end`. The outside function panics when `start` is not
/// below `end`.
#[verifier::external_body]
pub(crate) fn gen_range_i128(rng: &mut ThreadRng, start: i128, end: i128) -> (value: i128)
    requires
        start < end,
    ensures
        start <= value < end,
{
    rng.gen_range(start..end)
}

/// `Rng::gen_range` over `start..=end` for `i128`: the value is at least
/// `start` and at most `end`. The outside function panics when `start` is
/// above `end`.
#[verifier::external_body]
pub(crate) fn gen_range_inclusive_i128(
    rng: &mut ThreadRng,
    start: i128,
    end: i128,
) -> (value: i128)
    requires
        start <= end,
    ensures
        start <= value <= end,
{
    rng.gen_range(start..=end)
}

} // verus!
