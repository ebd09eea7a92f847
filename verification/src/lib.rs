//! In-place splice operations on `Vec`.
//!
//! Whereas `Vec::insert` inserts a single element into the middle of a vector,
//! and `append` and `extend` add elements at the end, the functions here take
//! a slice or another vector and insert its contents at an arbitrary position,
//! shifting the existing tail to the right. Three variants cover the three
//! ways elements can be transferred into the destination: bitwise copy for
//! `Copy` types, explicit duplication for `Clone` types, and ownership
//! transfer, which leaves the source vector empty.

use vstd::prelude::*;

verus! {

/// The sequence obtained by inserting `src` into `dest` at position `index`:
/// the elements of `dest` before `index`, then all of `src`, then the
/// elements of `dest` from `index` on.
pub open spec fn spliced<T>(dest: Seq<T>, index: int, src: Seq<T>) -> Seq<T>
    recommends
        0 <= index <= dest.len(),
{
    dest.take(index) + src + dest.skip(index)
}

/// The single error of the defensive variants: the insertion index lies
/// beyond the destination's length. The plain variants treat such an index as
/// a contract violation and exclude it by precondition instead.
#[derive(Clone, Copy, Debug, PartialEq, Eq, Structural)]
pub enum SpliceError {
    IndexOutOfRange,
}

/// Clones the contents of the given slice into the given vector at the given
/// index, shifting all existing elements at or after that position to the
/// right. Each inserted element is a clone of the corresponding source
/// element, taken in source order; the slice itself is left untouched.
pub fn splice_clone<T: Clone>(dest: &mut Vec<T>, index: usize, src: &[T])
    requires
        index <= old(dest)@.len(),
    ensures
        final(dest)@.len() == old(dest)@.len() + src@.len(),
        final(dest)@.take(index as int) == old(dest)@.take(index as int),
        forall|k: int|
            0 <= k < src@.len() ==> cloned::<T>(src@[k], #[trigger] final(dest)@[index + k]),
        final(dest)@.skip(index as int + src@.len() as int) == old(dest)@.skip(index as int),
{
    let ghost orig = dest@;
    let mut tail = dest.split_off(index);
    let mut i: usize = 0;
    while i < src.len()
        invariant
            i <= src@.len(),
            index <= orig.len(),
            dest@.len() == index + i,
            dest@.take(index as int) == orig.take(index as int),
            forall|k: int| 0 <= k < i ==> cloned::<T>(src@[k], #[trigger] dest@[index + k]),
        decreases src@.len() - i,
    {
        let elem = src[i].clone();
        dest.push(elem);
        i = i + 1;
        proof {
            assert(dest@.take(index as int) =~= orig.take(index as int));
        }
    }
    let ghost mid = dest@;
    dest.append(&mut tail);
    proof {
        assert(dest@.take(index as int) =~= orig.take(index as int));
        assert(dest@.skip(index as int + src@.len() as int) =~= orig.skip(index as int));
        assert forall|k: int|
            0 <= k < src@.len() implies cloned::<T>(src@[k], #[trigger] dest@[index + k]) by {
            assert(dest@[index + k] == mid[index + k]);
        }
    }
}

/// Copies the contents of the given slice into the given vector at the given
/// index, shifting all existing elements at or after that position to the
/// right. The slice is read through a shared borrow and is left untouched.
pub fn splice_copy<T: Copy>(dest: &mut Vec<T>, index: usize, src: &[T])
    requires
        index <= old(dest)@.len(),
    ensures
        final(dest)@ == spliced(old(dest)@, index as int, src@),
{
    let ghost orig = dest@;
    let mut tail = dest.split_off(index);
    let mut i: usize = 0;
    while i < src.len()
        invariant
            i <= src@.len(),
            index <= orig.len(),
            dest@ == orig.take(index as int) + src@.take(i as int),
        decreases src@.len() - i,
    {
        dest.push(src[i]);
        i = i + 1;
        proof {
            assert(dest@ =~= orig.take(index as int) + src@.take(i as int));
        }
    }
    dest.append(&mut tail);
    proof {
        assert(src@.take(src@.len() as int) =~= src@);
        assert(dest@ =~= spliced(orig, index as int, src@));
    }
}

/// Moves the contents of the source vector into the destination vector at the
/// given index, shifting all existing elements at or after that position to
/// the right and leaving the source empty. The source's allocation may be
/// retained, but its length becomes 0.
pub fn splice<T>(dest: &mut Vec<T>, index: usize, src: &mut Vec<T>)
    requires
        index <= old(dest)@.len(),
    ensures
        final(dest)@ == spliced(old(dest)@, index as int, old(src)@),
        final(src)@ == Seq::<T>::empty(),
{
    let mut tail = dest.split_off(index);
    dest.append(src);
    dest.append(&mut tail);
    proof {
        assert(dest@ =~= spliced(old(dest)@, index as int, old(src)@));
    }
}

/// Defensive form of [`splice_clone`]: checks the index before doing
/// anything, and reports an out-of-range index as an error, with the
/// destination left untouched, instead of treating it as a contract
/// violation.
pub fn try_splice_clone<T: Clone>(dest: &mut Vec<T>, index: usize, src: &[T]) -> (result: Result<
    (),
    SpliceError,
>)
    ensures
        result is Ok <==> index <= old(dest)@.len(),
        result is Ok ==> {
            &&& final(dest)@.len() == old(dest)@.len() + src@.len()
            &&& final(dest)@.take(index as int) == old(dest)@.take(index as int)
            &&& forall|k: int|
                0 <= k < src@.len() ==> cloned::<T>(src@[k], #[trigger] final(dest)@[index + k])
            &&& final(dest)@.skip(index as int + src@.len() as int) == old(dest)@.skip(
                index as int,
            )
        },
        result is Err ==> result == Err::<(), SpliceError>(SpliceError::IndexOutOfRange)
            && final(dest)@ == old(dest)@,
{
    if index <= dest.len() {
        splice_clone(dest, index, src);
        Ok(())
    } else {
        Err(SpliceError::IndexOutOfRange)
    }
}

/// Defensive form of [`splice_copy`]: checks the index before doing anything,
/// and reports an out-of-range index as an error, with the destination left
/// untouched, instead of treating it as a contract violation.
pub fn try_splice_copy<T: Copy>(dest: &mut Vec<T>, index: usize, src: &[T]) -> (result: Result<
    (),
    SpliceError,
>)
    ensures
        result is Ok <==> index <= old(dest)@.len(),
        result is Ok ==> final(dest)@ == spliced(old(dest)@, index as int, src@),
        result is Err ==> result == Err::<(), SpliceError>(SpliceError::IndexOutOfRange)
            && final(dest)@ == old(dest)@,
{
    if index <= dest.len() {
        splice_copy(dest, index, src);
        Ok(())
    } else {
        Err(SpliceError::IndexOutOfRange)
    }
}

/// Defensive form of [`splice`]: checks the index before doing anything, and
/// reports an out-of-range index as an error, with both vectors left
/// untouched, instead of treating it as a contract violation.
pub fn try_splice<T>(dest: &mut Vec<T>, index: usize, src: &mut Vec<T>) -> (result: Result<
    (),
    SpliceError,
>)
    ensures
        result is Ok <==> index <= old(dest)@.len(),
        result is Ok ==> final(dest)@ == spliced(old(dest)@, index as int, old(src)@)
            && final(src)@ == Seq::<T>::empty(),
        result is Err ==> result == Err::<(), SpliceError>(SpliceError::IndexOutOfRange)
            && final(dest)@ == old(dest)@ && final(src)@ == old(src)@,
{
    if index <= dest.len() {
        splice(dest, index, src);
        Ok(())
    } else {
        Err(SpliceError::IndexOutOfRange)
    }
}

/// Splicing a source of M elements into a destination of N elements yields
/// exactly N + M elements, for every valid index.
pub proof fn lemma_spliced_len<T>(dest: Seq<T>, index: int, src: Seq<T>)
    requires
        0 <= index <= dest.len(),
    ensures
        spliced(dest, index, src).len() == dest.len() + src.len(),
{
}

/// The elements before the insertion point are unchanged and keep their
/// order: the spliced sequence agrees with the destination on `[0, index)`.
pub proof fn lemma_spliced_prefix<T>(dest: Seq<T>, index: int, src: Seq<T>)
    requires
        0 <= index <= dest.len(),
    ensures
        forall|k: int| 0 <= k < index ==> #[trigger] spliced(dest, index, src)[k] == dest[k],
{
}

/// The inserted segment matches the source in order: the spliced sequence
/// holds the source's elements at `[index, index + M)`.
pub proof fn lemma_spliced_inserted<T>(dest: Seq<T>, index: int, src: Seq<T>)
    requires
        0 <= index <= dest.len(),
    ensures
        forall|k: int|
            0 <= k < src.len() ==> #[trigger] spliced(dest, index, src)[index + k] == src[k],
{
}

/// The tail is preserved and shifted: each destination element at or after
/// the insertion point reappears M slots to the right, in the same order.
pub proof fn lemma_spliced_tail<T>(dest: Seq<T>, index: int, src: Seq<T>)
    requires
        0 <= index <= dest.len(),
    ensures
        forall|k: int|
            index <= k < dest.len() ==> #[trigger] spliced(dest, index, src)[k + src.len()]
                == dest[k],
{
}

/// Splicing an empty source is a no-op: the destination's contents and length
/// are unchanged.
pub proof fn lemma_spliced_empty_source<T>(dest: Seq<T>, index: int)
    requires
        0 <= index <= dest.len(),
    ensures
        spliced(dest, index, Seq::<T>::empty()) == dest,
{
    assert(spliced(dest, index, Seq::<T>::empty()) =~= dest);
}

/// Splicing at the destination's length is a pure append.
pub proof fn lemma_spliced_at_len_is_append<T>(dest: Seq<T>, src: Seq<T>)
    ensures
        spliced(dest, dest.len() as int, src) == dest + src,
{
    assert(spliced(dest, dest.len() as int, src) =~= dest + src);
}

/// Splicing at index 0 is a pure prepend.
pub proof fn lemma_spliced_at_zero_is_prepend<T>(dest: Seq<T>, src: Seq<T>)
    ensures
        spliced(dest, 0, src) == src + dest,
{
    assert(spliced(dest, 0, src) =~= src + dest);
}

} // verus!
