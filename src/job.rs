//! A single-slot asynchronous job: at most one query in flight, the last
//! completed answer cached, one event for each completed query.
//!
//! The slot decides; its owner runs the query on a worker thread when told
//! to, and hands the outcome back.

use vstd::prelude::*;
use vstd::std_specs::cmp::PartialEqSpec;

verus! {

/// The kind of job that an event is about.
#[derive(Copy, Clone, Hash, PartialEq, Eq, Debug, Structural)]
pub enum AsyncGitNotification {
    Status,
    Diff,
    Log,
    CommitFiles,
}

/// What the owner of a slot does with a request.
#[derive(Copy, Clone, Hash, PartialEq, Eq, Debug, Structural)]
pub enum FetchDecision {
    /// Nothing: a query is in flight, or the cached answer is for the same
    /// parameters.
    Skip,
    /// Run the query for the requested parameters and complete the slot
    /// with its outcome.
    Dispatch,
}

/// The event that a completed query emits.
#[derive(Clone, PartialEq, Eq, Debug)]
pub enum JobEvent<E> {
    Finished(AsyncGitNotification),
    Failed(AsyncGitNotification, E),
}

impl<E> JobEvent<E> {
    pub open spec fn spec_kind(self) -> AsyncGitNotification {
        match self {
            JobEvent::Finished(k) => k,
            JobEvent::Failed(k, _) => k,
        }
    }

    /// The kind of job that the event is about.
    pub fn kind(&self) -> (r: AsyncGitNotification)
        ensures
            r == self.spec_kind(),
    {
        match self {
            JobEvent::Finished(k) => *k,
            JobEvent::Failed(k, _) => *k,
        }
    }
}

/// The state of one job kind: the last completed `(params, result)` pair
/// and the parameters of the query in flight, if any.
pub struct JobSlot<P, R> {
    kind: AsyncGitNotification,
    last: Option<(P, R)>,
    in_flight: Option<P>,
}

/// Two parameter values are the same request.
pub open spec fn same_params<P: PartialEq>(a: P, b: P) -> bool {
    a.eq_spec(&b)
}

impl<P: Copy + PartialEq, R: Clone> JobSlot<P, R> {
    pub closed spec fn spec_kind(&self) -> AsyncGitNotification {
        self.kind
    }

    pub closed spec fn spec_last(&self) -> Option<(P, R)> {
        self.last
    }

    pub closed spec fn spec_in_flight(&self) -> Option<P> {
        self.in_flight
    }

    pub open spec fn is_pending_spec(&self) -> bool {
        self.spec_in_flight() is Some
    }

    /// A fetch of `p` is skipped in this state.
    pub open spec fn skips(&self, p: P) -> bool {
        self.spec_in_flight() is Some || match self.spec_last() {
            Some(l) => same_params(l.0, p),
            None => false,
        }
    }

    /// `post` and `d` are the state and the decision after a fetch of `p`
    /// in state `pre`.
    pub open spec fn fetch_step(pre: Self, p: P, post: Self, d: FetchDecision) -> bool {
        &&& pre.skips(p) ==> d == FetchDecision::Skip && post == pre
        &&& !pre.skips(p) ==> d == FetchDecision::Dispatch && post.spec_in_flight() == Some(p)
        &&& post.spec_last() == pre.spec_last()
        &&& post.spec_kind() == pre.spec_kind()
    }

    /// `post` and `ev` are the state and the event after the query in flight
    /// in state `pre` ended with `result`.
    pub open spec fn complete_step<E>(pre: Self, result: Result<R, E>, post: Self, ev: JobEvent<E>) -> bool {
        &&& post.spec_in_flight() is None
        &&& post.spec_kind() == pre.spec_kind()
        &&& match result {
            Ok(v) => post.spec_last() == Some((pre.spec_in_flight()->0, v)) && ev == JobEvent::<E>::Finished(
                pre.spec_kind(),
            ),
            Err(e) => post.spec_last() == pre.spec_last() && ev == JobEvent::Failed(pre.spec_kind(), e),
        }
    }

    /// An empty slot: nothing cached, nothing in flight.
    pub fn new(kind: AsyncGitNotification) -> (r: Self)
        ensures
            r.spec_kind() == kind,
            r.spec_last() is None,
            r.spec_in_flight() is None,
    {
        JobSlot { kind, last: None, in_flight: None }
    }

    pub fn kind(&self) -> (r: AsyncGitNotification)
        ensures
            r == self.spec_kind(),
    {
        self.kind
    }

    /// A copy of the last completed pair.
    pub fn current(&self) -> (r: Option<(P, R)>)
        ensures
            match (r, self.spec_last()) {
                (Some((p, v)), Some((lp, lv))) => p == lp && cloned(lv, v),
                (None, None) => true,
                _ => false,
            },
    {
        match &self.last {
            Some(l) => Some((l.0, l.1.clone())),
            None => None,
        }
    }

    /// A query is in flight.
    pub fn is_pending(&self) -> (r: bool)
        ensures
            r == self.spec_in_flight() is Some,
    {
        self.in_flight.is_some()
    }

    /// A request for the result of the query for `params`. It is dropped
    /// while a query is in flight or when the cached pair is for the same
    /// parameters; else the query for `params` is in flight from now on and
    /// the caller is to run it.
    pub fn fetch(&mut self, params: P) -> (r: FetchDecision)
        requires
            P::obeys_eq_spec(),
        ensures
            Self::fetch_step(*old(self), params, *final(self), r),
    {
        if self.in_flight.is_some() {
            return FetchDecision::Skip;
        }
        let same = match &self.last {
            Some(l) => l.0 == params,
            None => false,
        };
        if same {
            return FetchDecision::Skip;
        }
        self.in_flight = Some(params);
        FetchDecision::Dispatch
    }

    /// The query in flight ended with `result`. A success replaces the
    /// cached pair with the query's parameters and its result; a failure
    /// leaves the cached pair as it was. Either way nothing is in flight
    /// afterwards, and one event of this slot's kind tells which it was.
    pub fn complete<E>(&mut self, result: Result<R, E>) -> (ev: JobEvent<E>)
        requires
            old(self).spec_in_flight() is Some,
        ensures
            Self::complete_step(*old(self), result, *final(self), ev),
    {
        let params = match self.in_flight {
            Some(p) => p,
            None => {
                return JobEvent::Finished(self.kind);
            },
        };
        self.in_flight = None;
        match result {
            Ok(v) => {
                self.last = Some((params, v));
                JobEvent::Finished(self.kind)
            },
            Err(e) => JobEvent::Failed(self.kind, e),
        }
    }
}

/// Fetching the same parameters twice in a row, before the first query has
/// completed, dispatches at most one query: the second fetch is skipped and
/// changes nothing. Where the first is not skipped, exactly one query runs,
/// and its completion emits exactly one event, of the slot's kind.
pub proof fn lemma_repeated_fetch_runs_once<P: Copy + PartialEq, R: Clone, E>(
    s0: JobSlot<P, R>,
    p: P,
    s1: JobSlot<P, R>,
    d1: FetchDecision,
    s2: JobSlot<P, R>,
    d2: FetchDecision,
    result: Result<R, E>,
    s3: JobSlot<P, R>,
    ev: JobEvent<E>,
)
    requires
        JobSlot::fetch_step(s0, p, s1, d1),
        JobSlot::fetch_step(s1, p, s2, d2),
        d1 == FetchDecision::Dispatch ==> JobSlot::complete_step(s2, result, s3, ev),
    ensures
        d2 == FetchDecision::Skip,
        s2 == s1,
        !s0.skips(p) ==> d1 == FetchDecision::Dispatch,
        d1 == FetchDecision::Dispatch ==> !s3.is_pending_spec() && ev.spec_kind() == s0.spec_kind(),
{
}

/// A new slot holds no pair. A fetch that is not skipped, once its query
/// has completed with `v`, leaves the slot holding exactly the fetched
/// parameters and `v`.
pub proof fn lemma_current_after_fetch<P: Copy + PartialEq, R: Clone, E>(
    s0: JobSlot<P, R>,
    p: P,
    s1: JobSlot<P, R>,
    d: FetchDecision,
    v: R,
    s2: JobSlot<P, R>,
    ev: JobEvent<E>,
)
    requires
        JobSlot::fetch_step(s0, p, s1, d),
        d == FetchDecision::Dispatch,
        JobSlot::complete_step(s1, Ok::<R, E>(v), s2, ev),
    ensures
        s2.spec_last() == Some((p, v)),
        !s2.is_pending_spec(),
        ev == JobEvent::<E>::Finished(s0.spec_kind()),
        s0.spec_last() is None && s0.spec_in_flight() is None ==> !s0.skips(p),
{
}

} // verus!
