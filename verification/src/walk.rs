//! The queue of directories that a walk of the asset tree has still to read.

use vstd::prelude::*;
use vstd::utf8::encode_utf8;

verus! {

/// Whether `a` comes no later than `b` when bytes are compared one by one
/// from the front, a proper prefix coming first.
pub open spec fn lex_le(a: Seq<u8>, b: Seq<u8>) -> bool
    decreases a.len(),
{
    if a.len() == 0 {
        true
    } else if b.len() == 0 {
        false
    } else if a[0] != b[0] {
        a[0] < b[0]
    } else {
        lex_le(a.drop_first(), b.drop_first())
    }
}

/// The order of directory names: that of their UTF-8 bytes.
pub open spec fn name_le(a: Seq<char>, b: Seq<char>) -> bool {
    lex_le(encode_utf8(a), encode_utf8(b))
}

/// Whether `names` stand in ascending order.
pub open spec fn sorted(names: Seq<Seq<char>>) -> bool {
    forall|i: int, j: int| 0 <= i < j < names.len() ==> name_le(names[i], names[j])
}

/// Calls `sort_unstable` of std's slices on the names.
///
/// Claimed, as std documents it: the names afterwards are those before, each
/// as often, in ascending order; and std orders strings by their bytes, one
/// by one from the front.
#[verifier::external_body]
fn sort_names(names: &mut Vec<String>)
    ensures
        final(names).deep_view().to_multiset() == old(names).deep_view().to_multiset(),
        sorted(final(names).deep_view()),
{
    names.sort_unstable();
}

/// Appends a copy of each of `found` to `queue`.
fn enqueue(queue: &mut Vec<String>, found: &Vec<String>)
    ensures
        final(queue).deep_view() == old(queue).deep_view() + found.deep_view(),
{
    let mut i: usize = 0;
    while i < found.len()
        invariant
            0 <= i <= found.len(),
            queue.deep_view() == old(queue).deep_view() + found.deep_view().take(i as int),
        decreases found.len() - i,
    {
        let ghost before = queue.deep_view();
        queue.push(found[i].clone());
        proof {
            assert(queue.deep_view() =~= before.push(found.deep_view()[i as int]));
            assert(found.deep_view().take(i + 1) =~= found.deep_view().take(i as int).push(
                found.deep_view()[i as int],
            ));
        }
        i += 1;
    }
    proof {
        assert(found.deep_view().take(i as int) =~= found.deep_view());
    }
}

/// The queue once `dir` has been read: the directories `found` in it have
/// joined the queue, the queue has been put in ascending order, and one
/// `dir` has left it.
///
/// The result says whether there was a `dir` to take out. Where there was
/// none, the queue is still extended and ordered.
pub fn after_reading(queue: &mut Vec<String>, dir: &str, found: &Vec<String>) -> (removed: bool)
    ensures
        removed == (old(queue).deep_view() + found.deep_view()).contains(dir@),
        final(queue).deep_view().to_multiset() == (old(queue).deep_view()
            + found.deep_view()).to_multiset().remove(dir@),
        sorted(final(queue).deep_view()),
{
    enqueue(queue, found);
    let ghost joined = queue.deep_view();
    sort_names(queue);
    let ghost ordered = queue.deep_view();
    let wanted = dir.to_owned();
    let mut i: usize = 0;
    while i < queue.len()
        invariant
            0 <= i <= queue.len(),
            wanted@ == dir@,
            queue.deep_view() == ordered,
            sorted(ordered),
            ordered.to_multiset() == joined.to_multiset(),
            joined == old(queue).deep_view() + found.deep_view(),
            forall|k: int| 0 <= k < i ==> ordered[k] != dir@,
        decreases queue.len() - i,
    {
        if queue[i] == wanted {
            queue.remove(i);
            proof {
                let left = ordered.remove(i as int);
                assert(queue.deep_view() =~= left);
                assert(ordered[i as int] == dir@);
                assert(ordered.contains(dir@));
                vstd::seq_lib::to_multiset_remove(ordered, i as int);
                ordered.to_multiset_ensures();
                joined.to_multiset_ensures();
                assert(ordered.to_multiset().count(dir@) > 0);
                assert(joined.to_multiset().count(dir@) > 0);
                assert(joined.contains(dir@));
                assert forall|a: int, b: int| 0 <= a < b < left.len() implies name_le(
                    left[a],
                    left[b],
                ) by {
                    let from_a = if a < i { a } else { a + 1 };
                    let from_b = if b < i { b } else { b + 1 };
                    assert(left[a] == ordered[from_a] && left[b] == ordered[from_b]);
                }
            }
            return true;
        }
        i += 1;
    }
    proof {
        assert(!ordered.contains(dir@));
        ordered.to_multiset_ensures();
        joined.to_multiset_ensures();
        assert(joined.to_multiset().count(dir@) == 0);
        assert(!joined.contains(dir@));
        assert(joined.to_multiset().remove(dir@) =~= joined.to_multiset());
    }
    false
}

} // verus!
