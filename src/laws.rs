//! What holds of every pipe request, whatever the OS answered.
use vstd::prelude::*;

use crate::endpoints::{is_pair, outcome_of};

verus! {

/// A successful request yields both ends together, as two distinct open
/// descriptors: never one end without the other.
pub proof fn lemma_pairing(status: int, read_fd: int, write_fd: int, errno: int)
    requires
        status == 0 ==> is_pair(read_fd, write_fd),
    ensures
        outcome_of(status, read_fd, write_fd, errno) matches Ok(p) ==> is_pair(p.0, p.1)
            && p == (read_fd, write_fd),
{
}

/// A failed request yields no pipe, only the error that the OS reported: a
/// non-zero error number stays the same non-zero number.
pub proof fn lemma_failure_surfaced(status: int, read_fd: int, write_fd: int, errno: int)
    requires
        status != 0,
        errno != 0,
    ensures
        outcome_of(status, read_fd, write_fd, errno) == Err::<(int, int), int>(errno),
        outcome_of(status, read_fd, write_fd, errno) !is Ok,
{
}

/// The descriptors that a process holds after a run of successful requests:
/// those it held before, and both ends of each of the first `n` pipes.
pub open spec fn held_after(held: Set<int>, pairs: Seq<(int, int)>, n: nat) -> Set<int>
    decreases n,
{
    if n == 0 || n > pairs.len() {
        held
    } else {
        held_after(held, pairs, (n - 1) as nat).insert(pairs[n - 1].0).insert(pairs[n - 1].1)
    }
}

/// Each answer in a run of requests is a pair of descriptors that were not open
/// when it was requested, as the OS hands them out.
pub open spec fn fresh_run(held: Set<int>, pairs: Seq<(int, int)>) -> bool {
    forall|i: int|
        #![trigger pairs[i]]
        0 <= i < pairs.len() ==> {
            &&& is_pair(pairs[i].0, pairs[i].1)
            &&& !held_after(held, pairs, i as nat).contains(pairs[i].0)
            &&& !held_after(held, pairs, i as nat).contains(pairs[i].1)
        }
}

/// Two pipes share no descriptor.
pub open spec fn disjoint(p: (int, int), q: (int, int)) -> bool {
    &&& p.0 != q.0
    &&& p.0 != q.1
    &&& p.1 != q.0
    &&& p.1 != q.1
}

proof fn lemma_held_grows(held: Set<int>, pairs: Seq<(int, int)>, i: nat, j: nat)
    requires
        i < j <= pairs.len(),
    ensures
        held_after(held, pairs, j).contains(pairs[i as int].0),
        held_after(held, pairs, j).contains(pairs[i as int].1),
    decreases j,
{
    if j > i + 1 {
        lemma_held_grows(held, pairs, i, (j - 1) as nat);
    }
}

/// Requests made one after another all succeed and give independent pipes:
/// each pipe is the pair the OS handed out, and no two pipes share a
/// descriptor.
pub proof fn lemma_repeated_creation(held: Set<int>, pairs: Seq<(int, int)>, errno: int)
    requires
        fresh_run(held, pairs),
    ensures
        forall|i: int|
            #![trigger pairs[i]]
            0 <= i < pairs.len() ==> outcome_of(0, pairs[i].0, pairs[i].1, errno) == Ok::<
                (int, int),
                int,
            >(pairs[i]),
        forall|i: int, j: int|
            #![trigger pairs[i], pairs[j]]
            0 <= i < pairs.len() && 0 <= j < pairs.len() && i != j ==> disjoint(pairs[i], pairs[j]),
{
    assert forall|i: int, j: int|
        #![trigger pairs[i], pairs[j]]
        0 <= i < pairs.len() && 0 <= j < pairs.len() && i != j implies disjoint(
            pairs[i],
            pairs[j],
        ) by {
        let (a, b) = if i < j { (i, j) } else { (j, i) };
        lemma_held_grows(held, pairs, a as nat, b as nat);
    }
}

} // verus!
