//! Copying zero-terminated strings, as the C library does it, over slices
//! instead of pointers.

use vstd::prelude::*;

verus! {

/// The position of the first zero in `source`, or `source.len()` when it holds
/// none.
pub open spec fn terminator(source: Seq<i8>) -> int
    decreases source.len(),
{
    if source.len() == 0 {
        0
    } else if source[0] == 0 {
        0
    } else {
        1 + terminator(source.drop_first())
    }
}

/// `dest` once the string at the start of `source` was copied over its start,
/// terminator included. What lies behind the copy is kept.
pub open spec fn copied(dest: Seq<i8>, source: Seq<i8>) -> Seq<i8> {
    source.subrange(0, terminator(source) + 1) + dest.subrange(
        terminator(source) + 1,
        dest.len() as int,
    )
}

pub proof fn lemma_terminator(source: Seq<i8>)
    ensures
        0 <= terminator(source) <= source.len(),
        forall|j: int| 0 <= j < terminator(source) ==> source[j] != 0,
        terminator(source) < source.len() ==> source[terminator(source)] == 0,
    decreases source.len(),
{
    if source.len() > 0 && source[0] != 0 {
        let rest = source.drop_first();
        lemma_terminator(rest);
        assert forall|j: int| 0 <= j < terminator(source) implies source[j] != 0 by {
            if j > 0 {
                assert(source[j] == rest[j - 1]);
            }
        }
    }
}

/// Copies the string at the start of `source` over the start of `dest`,
/// terminator included. `source` must hold a terminator, and `dest` must have
/// room for the string and its terminator.
pub fn stpcpy(dest: &mut Vec<i8>, source: &Vec<i8>)
    requires
        terminator(source@) < source@.len(),
        terminator(source@) < old(dest)@.len(),
    ensures
        final(dest)@ == copied(old(dest)@, source@),
{
    proof {
        lemma_terminator(source@);
    }
    let n = source.len();
    let mut i: usize = 0;
    while source[i] != 0
        invariant
            n == source@.len(),
            i <= terminator(source@) < source@.len(),
            terminator(source@) < dest@.len(),
            dest@.len() == old(dest)@.len(),
            forall|j: int| 0 <= j < terminator(source@) ==> source@[j] != 0,
            source@[terminator(source@)] == 0,
            forall|j: int| 0 <= j < i ==> dest@[j] == source@[j],
            forall|j: int| i <= j < dest@.len() ==> dest@[j] == old(dest)@[j],
        decreases terminator(source@) - i,
    {
        dest.set(i, source[i]);
        i = i + 1;
    }
    dest.set(i, 0);
    proof {
        assert(dest@ =~= copied(old(dest)@, source@));
    }
}

/// Copies the string at the start of `source` over the start of `dest`,
/// terminator included.
pub fn strcpy(dest: &mut Vec<i8>, source: &Vec<i8>)
    requires
        terminator(source@) < source@.len(),
        terminator(source@) < old(dest)@.len(),
    ensures
        final(dest)@ == copied(old(dest)@, source@),
{
    stpcpy(dest, source);
}

} // verus!
