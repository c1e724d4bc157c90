//! A wrapper that drives an asynchronous computation to completion once,
//! keeps its output in place, and hands that output out exactly once.
//!
//! The library holds the wrapper's state machine. Resuming the wrapped
//! computation itself needs a pinned reference and a task context, which the
//! driver supplies: it resumes the computation reached through
//! [`MaybeDone::future_mut`] and reports what happened to [`MaybeDone::poll`].

use vstd::prelude::*;

pub mod laws;

verus! {

/// Declares core's `Poll` with its two variants as they stand in core,
/// `Ready(T)` and `Pending`, so that verified code can build and match it.
#[verifier::external_type_specification]
pub struct ExPoll<T>(core::task::Poll<T>);

/// A computation that may have completed.
pub enum MaybeDone<Fut: core::future::Future> {
    /// The computation, not yet completed.
    Future(Fut),
    /// The output of the completed computation, not yet taken.
    Done(Fut::Output),
    /// Nothing: the output was taken with [`MaybeDone::take_output`].
    Gone,
}

/// Wraps a computation into a `MaybeDone`, in the state where it still runs.
pub fn maybe_done<Fut: core::future::Future>(future: Fut) -> (r: MaybeDone<Fut>)
    ensures
        r == MaybeDone::Future(future),
{
    MaybeDone::Future(future)
}

impl<Fut: core::future::Future> MaybeDone<Fut> {
    /// The wrapper can make no further progress toward a new outcome.
    pub open spec fn terminated(self) -> bool {
        !(self is Future)
    }

    /// The output held, if the computation completed and it was not taken.
    pub open spec fn output(self) -> Option<Fut::Output> {
        match self {
            MaybeDone::Done(v) => Some(v),
            _ => None,
        }
    }

    /// A resumption can be reported: the output was not taken, and the
    /// wrapped computation was resumed exactly when there is one.
    pub open spec fn can_resume(self, inner: Option<core::task::Poll<Fut::Output>>) -> bool {
        !(self is Gone) && (self is Future <==> inner is Some)
    }

    /// The state after a resumption in which the wrapped computation, if
    /// any, reported `inner`.
    pub open spec fn resumed(self, inner: Option<core::task::Poll<Fut::Output>>) -> Self {
        match (self, inner) {
            (MaybeDone::Future(_), Some(core::task::Poll::Ready(v))) => MaybeDone::Done(v),
            _ => self,
        }
    }

    /// What a resumption reports: done as soon as an output is held.
    pub open spec fn resume_report(self, inner: Option<core::task::Poll<Fut::Output>>) -> core::task::Poll<()> {
        if self.resumed(inner) is Done {
            core::task::Poll::Ready(())
        } else {
            core::task::Poll::Pending
        }
    }

    /// What the driver hands to a resumption when the wrapped computation,
    /// if resumed, would report `outcome`.
    pub open spec fn event(self, outcome: core::task::Poll<Fut::Output>) -> Option<core::task::Poll<Fut::Output>> {
        if self is Future {
            Some(outcome)
        } else {
            None
        }
    }

    /// The state after one resumption per item of `outcomes`, where each
    /// item is what the wrapped computation reports when it is resumed.
    pub open spec fn driven(self, outcomes: Seq<core::task::Poll<Fut::Output>>) -> Self
        decreases outcomes.len(),
    {
        if outcomes.len() == 0 {
            self
        } else {
            let before = self.driven(outcomes.drop_last());
            before.resumed(before.event(outcomes.last()))
        }
    }

    /// The state after `n` attempts to take the output.
    pub open spec fn taken_times(self, n: nat) -> Self
        decreases n,
    {
        if n == 0 {
            self
        } else {
            self.taken_times((n - 1) as nat).after_take()
        }
    }

    /// The state after an attempt to take the output.
    pub open spec fn after_take(self) -> Self {
        match self {
            MaybeDone::Done(_) => MaybeDone::Gone,
            _ => self,
        }
    }

    /// Reports whether the wrapper is in `Done` or `Gone`.
    pub fn is_terminated(&self) -> (r: bool)
        ensures
            r == self.terminated(),
    {
        match self {
            MaybeDone::Future(_) => false,
            MaybeDone::Done(_) | MaybeDone::Gone => true,
        }
    }

    /// A mutable reference to the output, if the computation completed and
    /// the output was not taken. The state does not change.
    pub fn output_mut(&mut self) -> (r: Option<&mut Fut::Output>)
        ensures
            r is Some <==> *old(self) is Done,
            match r {
                Some(out) => old(self).output() == Some(*out)
                    && *final(self) == MaybeDone::<Fut>::Done(*final(out)),
                None => *final(self) == *old(self),
            },
    {
        match self {
            MaybeDone::Done(res) => Some(res),
            _ => None,
        }
    }

    /// Takes the output out without driving the computation: it is handed
    /// out once, and the wrapper is left in `Gone`.
    pub fn take_output(&mut self) -> (r: Option<Fut::Output>)
        ensures
            r == old(self).output(),
            *final(self) == old(self).after_take(),
    {
        match self {
            MaybeDone::Done(_) => {},
            MaybeDone::Future(_) | MaybeDone::Gone => return None,
        }
        let mut taken = MaybeDone::Gone;
        core::mem::swap(self, &mut taken);
        match taken {
            MaybeDone::Done(output) => Some(output),
            _ => None,
        }
    }

    /// A mutable reference to the wrapped computation while it has not
    /// completed, so that the driver can resume it in place.
    pub fn future_mut(&mut self) -> (r: Option<&mut Fut>)
        ensures
            r is Some <==> *old(self) is Future,
            match r {
                Some(fut) => *old(self) == MaybeDone::<Fut>::Future(*fut)
                    && *final(self) == MaybeDone::<Fut>::Future(*final(fut)),
                None => *final(self) == *old(self),
            },
    {
        match self {
            MaybeDone::Future(fut) => Some(fut),
            _ => None,
        }
    }

    /// One resumption of the wrapper, given what the wrapped computation
    /// reported when it was resumed in place (`None` when there is none).
    /// On completion the output is stored and the wrapper reports done;
    /// a wrapper that holds its output reports done again, unchanged.
    /// Resuming after the output was taken is a caller's error and is
    /// excluded.
    pub fn poll(&mut self, inner: Option<core::task::Poll<Fut::Output>>) -> (r: core::task::Poll<()>)
        requires
            old(self).can_resume(inner),
        ensures
            *final(self) == old(self).resumed(inner),
            r == old(self).resume_report(inner),
    {
        match inner {
            Some(core::task::Poll::Ready(res)) => {
                *self = MaybeDone::Done(res);
                core::task::Poll::Ready(())
            },
            Some(core::task::Poll::Pending) => core::task::Poll::Pending,
            None => core::task::Poll::Ready(()),
        }
    }
}

} // verus!
