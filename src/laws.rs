//! Laws of the wrapper's lifecycle over several calls.

use vstd::prelude::*;
use crate::MaybeDone;
use core::future::Future;
use core::task::Poll;

verus! {

proof fn lemma_pending_prefix<Fut: Future>(fut: Fut, outcomes: Seq<Poll<Fut::Output>>, j: int)
    requires
        0 <= j < outcomes.len(),
        forall|i: int| 0 <= i < outcomes.len() - 1 ==> outcomes[i] is Pending,
    ensures
        MaybeDone::Future(fut).driven(outcomes.take(j)) == MaybeDone::<Fut>::Future(fut),
    decreases j,
{
    if j > 0 {
        lemma_pending_prefix(fut, outcomes, j - 1);
        assert(outcomes.take(j).drop_last() == outcomes.take(j - 1));
    }
}

/// A computation that completes on its `k`-th resumption with `v`: the
/// wrapper reports pending on each of the first `k - 1` resumptions and done
/// on the `k`-th; it is not terminated before the `k`-th and is terminated,
/// holding `v`, after it.
pub proof fn lemma_completes_after_resumes<Fut: Future>(
    fut: Fut,
    outcomes: Seq<Poll<Fut::Output>>,
    v: Fut::Output,
)
    requires
        outcomes.len() > 0,
        forall|i: int| 0 <= i < outcomes.len() - 1 ==> outcomes[i] is Pending,
        outcomes.last() == Poll::Ready(v),
    ensures
        forall|j: int|
            #![trigger outcomes.take(j)]
            0 <= j < outcomes.len() ==> {
                let s = MaybeDone::Future(fut).driven(outcomes.take(j));
                &&& s == MaybeDone::<Fut>::Future(fut)
                &&& !s.terminated()
                &&& s.can_resume(s.event(outcomes[j]))
                &&& s.resume_report(s.event(outcomes[j])) == if j + 1 < outcomes.len() {
                    Poll::<()>::Pending
                } else {
                    Poll::Ready(())
                }
            },
        MaybeDone::Future(fut).driven(outcomes) == MaybeDone::<Fut>::Done(v),
        MaybeDone::Future(fut).driven(outcomes).terminated(),
{
    assert forall|j: int|
        #![trigger outcomes.take(j)]
        0 <= j < outcomes.len() implies {
            let s = MaybeDone::Future(fut).driven(outcomes.take(j));
            &&& s == MaybeDone::<Fut>::Future(fut)
            &&& !s.terminated()
            &&& s.can_resume(s.event(outcomes[j]))
            &&& s.resume_report(s.event(outcomes[j])) == if j + 1 < outcomes.len() {
                Poll::<()>::Pending
            } else {
                Poll::Ready(())
            }
        } by {
        lemma_pending_prefix(fut, outcomes, j);
    }
    let k = outcomes.len() - 1;
    lemma_pending_prefix(fut, outcomes, k);
    assert(outcomes.drop_last() == outcomes.take(k));
}

/// The output is handed out at most once: taking from a wrapper that still
/// runs yields nothing and changes nothing, taking from a completed one
/// yields its output, and once one attempt has been made every further
/// attempt yields nothing and changes nothing.
pub proof fn lemma_take_output_once<Fut: Future>(s: MaybeDone<Fut>, n: nat)
    requires
        n >= 1,
    ensures
        s is Future ==> s.output() is None && s.after_take() == s,
        s is Done ==> s.output() == Some(s->Done_0),
        s.taken_times(n) == s.after_take(),
        s.taken_times(n).output() is None,
    decreases n,
{
    if n > 1 {
        lemma_take_output_once(s, (n - 1) as nat);
    } else {
        assert(s.taken_times(0) == s);
    }
}

/// No output is available while the computation runs; once it has
/// completed, the output stays available through any number of resumptions
/// until it is taken, and not after.
pub proof fn lemma_output_until_taken<Fut: Future>(
    fut: Fut,
    v: Fut::Output,
    outcomes: Seq<Poll<Fut::Output>>,
)
    ensures
        MaybeDone::<Fut>::Done(v).driven(outcomes).output() == Some(v),
        MaybeDone::<Fut>::Done(v).driven(outcomes).after_take().output() is None,
        MaybeDone::Future(fut).output() is None,
{
    lemma_resume_when_done::<Fut>(v, outcomes);
}

/// Resuming a wrapper that holds its output, any number of times, reports
/// done each time and leaves the output as it was.
pub proof fn lemma_resume_when_done<Fut: Future>(
    v: Fut::Output,
    outcomes: Seq<Poll<Fut::Output>>,
)
    ensures
        MaybeDone::<Fut>::Done(v).driven(outcomes) == MaybeDone::<Fut>::Done(v),
        forall|o: Poll<Fut::Output>|
            #![trigger MaybeDone::<Fut>::Done(v).event(o)]
            {
                let s = MaybeDone::<Fut>::Done(v);
                &&& s.can_resume(s.event(o))
                &&& s.resume_report(s.event(o)) == Poll::<()>::Ready(())
                &&& s.resumed(s.event(o)) == s
            },
    decreases outcomes.len(),
{
    if outcomes.len() > 0 {
        lemma_resume_when_done::<Fut>(v, outcomes.drop_last());
    }
}

} // verus!
