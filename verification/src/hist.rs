//! Bounded collections of the console, kept in `heapless` vectors.
//!
//! The console's line history and the extraction buffer are fixed-capacity
//! vectors.  Verified code reaches them only through the wrappers below,
//! whose contracts state how each call moves the vector's contents.

use vstd::prelude::*;

verus! {

#[verifier::external_type_specification]
#[verifier::external_body]
#[verifier::reject_recursive_types(T)]
pub struct ExHeaplessVec<T, const N: usize>(heapless::Vec<T, N>);

/// The lines a history vector holds, oldest first.
pub uninterp spec fn history_entries(v: heapless::Vec<String, 128>) -> Seq<Seq<char>>;

/// Relies on `heapless::Vec::new`: an empty vector.
#[verifier::external_body]
pub(crate) fn hist_new() -> (r: heapless::Vec<String, 128>)
    ensures
        history_entries(r) == Seq::<Seq<char>>::empty(),
{
    heapless::Vec::new()
}

/// Relies on `heapless::Vec::len`.
#[verifier::external_body]
pub(crate) fn hist_len(v: &heapless::Vec<String, 128>) -> (r: usize)
    ensures
        r == history_entries(*v).len(),
{
    v.len()
}

/// Relies on `heapless::Vec::push`: appends while the vector is below its
/// capacity, and hands the item back untouched once it is full.
#[verifier::external_body]
pub(crate) fn hist_push(v: &mut heapless::Vec<String, 128>, s: String) -> (r: Result<(), String>)
    ensures
        history_entries(*old(v)).len() < 128 ==> (r is Ok && history_entries(*final(v))
            == history_entries(*old(v)).push(s@)),
        history_entries(*old(v)).len() >= 128 ==> (r == Err::<(), String>(s) && history_entries(
            *final(v),
        ) == history_entries(*old(v))),
{
    v.push(s)
}

/// Relies on `heapless::Vec::remove`: removes the entry at index 0 and
/// shifts the rest down.
#[verifier::external_body]
pub(crate) fn hist_remove_front(v: &mut heapless::Vec<String, 128>) -> (r: String)
    requires
        history_entries(*old(v)).len() > 0,
    ensures
        r@ == history_entries(*old(v))[0],
        history_entries(*final(v)) == history_entries(*old(v)).drop_first(),
{
    v.remove(0)
}

/// Relies on `heapless::Vec::clear`.
#[verifier::external_body]
pub(crate) fn hist_clear(v: &mut heapless::Vec<String, 128>)
    ensures
        history_entries(*final(v)) == Seq::<Seq<char>>::empty(),
{
    v.clear()
}

/// Relies on `heapless::Vec`'s slice indexing.
#[verifier::external_body]
pub(crate) fn hist_get<'a>(v: &'a heapless::Vec<String, 128>, i: usize) -> (r: &'a String)
    requires
        i < history_entries(*v).len(),
    ensures
        r@ == history_entries(*v)[i as int],
{
    &v[i]
}

/// The bytes an extraction buffer holds, in order.
pub uninterp spec fn extract_bytes(v: heapless::Vec<u8, 4096>) -> Seq<u8>;

/// Relies on `heapless::Vec::new`: an empty vector.
#[verifier::external_body]
pub(crate) fn ebuf_new() -> (r: heapless::Vec<u8, 4096>)
    ensures
        extract_bytes(r) == Seq::<u8>::empty(),
{
    heapless::Vec::new()
}

/// Relies on `heapless::Vec::len`.
#[verifier::external_body]
pub(crate) fn ebuf_len(v: &heapless::Vec<u8, 4096>) -> (r: usize)
    ensures
        r == extract_bytes(*v).len(),
{
    v.len()
}

/// Relies on `heapless::Vec::as_slice`.
#[verifier::external_body]
pub(crate) fn ebuf_as_slice(v: &heapless::Vec<u8, 4096>) -> (r: &[u8])
    ensures
        r@ == extract_bytes(*v),
{
    v.as_slice()
}

/// Relies on `heapless::Vec::push`: appends while the vector is below its
/// capacity, and hands the byte back once it is full.
#[verifier::external_body]
pub(crate) fn ebuf_push(v: &mut heapless::Vec<u8, 4096>, b: u8) -> (r: Result<(), u8>)
    ensures
        extract_bytes(*old(v)).len() < 4096 ==> (r is Ok && extract_bytes(*final(v))
            == extract_bytes(*old(v)).push(b)),
        extract_bytes(*old(v)).len() >= 4096 ==> (r == Err::<(), u8>(b) && extract_bytes(*final(v))
            == extract_bytes(*old(v))),
{
    v.push(b)
}

} // verus!
