//! Which source roots are watched, and when watching cannot start at all.

use vstd::prelude::*;

verus! {

/// Watching could not start: no root could be watched.
#[derive(Clone, Copy, Debug, PartialEq, Eq, Structural)]
pub enum WatchError {
    NoRootWatchable,
}

/// The positions of the roots that could be watched, in order.
pub open spec fn watchable(ok: Seq<bool>) -> Seq<usize>
    decreases ok.len(),
{
    if ok.len() == 0 {
        Seq::empty()
    } else {
        let before = watchable(ok.drop_last());
        if ok.last() { before.push((ok.len() - 1) as usize) } else { before }
    }
}

pub proof fn lemma_watchable_empty(ok: Seq<bool>)
    ensures
        watchable(ok).len() == 0 <==> forall|i: int| 0 <= i < ok.len() ==> !(#[trigger] ok[i]),
    decreases ok.len(),
{
    if ok.len() > 0 {
        lemma_watchable_empty(ok.drop_last());
        assert forall|i: int| 0 <= i < ok.len() - 1 implies ok.drop_last()[i] == #[trigger] ok[i] by {}
    }
}

/// Given whether each root could be watched, the roots to keep watching; a
/// root that failed is passed over, and only when every root failed (or
/// there is none) does watching fail.
pub fn watched_roots(ok: &Vec<bool>) -> (r: Result<Vec<usize>, WatchError>)
    ensures
        r is Err <==> forall|i: int| 0 <= i < ok@.len() ==> !(#[trigger] ok@[i]),
        r matches Ok(roots) ==> roots@ == watchable(ok@),
{
    let mut roots: Vec<usize> = Vec::new();
    let mut i: usize = 0;
    while i < ok.len()
        invariant
            0 <= i <= ok@.len(),
            roots@ == watchable(ok@.take(i as int)),
        decreases ok@.len() - i,
    {
        if ok[i] {
            roots.push(i);
        }
        proof {
            assert(ok@.take(i as int + 1).drop_last() =~= ok@.take(i as int));
        }
        i = i + 1;
    }
    proof {
        assert(ok@.take(i as int) =~= ok@);
        lemma_watchable_empty(ok@);
    }
    if roots.len() == 0 {
        Err(WatchError::NoRootWatchable)
    } else {
        Ok(roots)
    }
}

} // verus!
