//! The decisions of a cached call, as a state machine.
//!
//! A cached call looks its key up; on a hit it returns what the cache held
//! and never runs the wrapped computation; on a miss it runs the computation
//! once, stores what the filter of the call picked out of the result (if it
//! picked anything), and returns the computed value. A failed lookup,
//! encoding or store ends the call with the error. The caller performs each
//! action and reports its outcome as the next event.

use vstd::prelude::*;

verus! {

/// Where a cached call stands.
pub enum CacheState<T> {
    /// Nothing has been done yet.
    Start,
    /// The key is being looked up.
    Looking,
    /// The cache missed and the wrapped computation runs.
    Computing,
    /// The computed value is being stored; it is returned afterwards.
    Storing(T),
    /// The call has returned.
    Done,
}

/// What the caller reports back.
pub enum CacheEvent<T, R> {
    /// The call begins.
    Begin,
    /// The lookup finished: the cached value, if the cache held one.
    Looked(Option<T>),
    /// The computation finished: its value, and what of it is to be cached,
    /// if anything.
    Computed(T, Option<R>),
    /// The value was stored.
    Stored,
    /// The lookup, the encoding of what is to be cached, or the store
    /// failed.
    Failed,
}

/// What the caller does next.
pub enum CacheAction<T, R> {
    /// Look the key up in the cache.
    Lookup,
    /// Run the wrapped computation.
    Compute,
    /// Store this under the key.
    Store(R),
    /// Return this value from the call.
    Return(T),
    /// End the call with the error that was reported; the computed value,
    /// if any, is dropped.
    Fail,
}

/// Whether `event` is one that can follow in `state`.
pub open spec fn fits<T, R>(state: CacheState<T>, event: CacheEvent<T, R>) -> bool {
    match (state, event) {
        (CacheState::Start, CacheEvent::Begin) => true,
        (CacheState::Looking, CacheEvent::Looked(_)) => true,
        (CacheState::Computing, CacheEvent::Computed(_, _)) => true,
        (CacheState::Storing(_), CacheEvent::Stored) => true,
        (CacheState::Looking, CacheEvent::Failed) => true,
        (CacheState::Computing, CacheEvent::Failed) => true,
        (CacheState::Storing(_), CacheEvent::Failed) => true,
        _ => false,
    }
}

/// The state after `event` in `state`, and what to do next.
pub open spec fn next<T, R>(state: CacheState<T>, event: CacheEvent<T, R>) -> (
    CacheState<T>,
    CacheAction<T, R>,
) {
    match event {
        CacheEvent::Begin => (CacheState::Looking, CacheAction::Lookup),
        CacheEvent::Looked(Some(v)) => (CacheState::Done, CacheAction::Return(v)),
        CacheEvent::Looked(None) => (CacheState::Computing, CacheAction::Compute),
        CacheEvent::Computed(v, Some(r)) => (CacheState::Storing(v), CacheAction::Store(r)),
        CacheEvent::Computed(v, None) => (CacheState::Done, CacheAction::Return(v)),
        CacheEvent::Stored => match state {
            CacheState::Storing(v) => (CacheState::Done, CacheAction::Return(v)),
            // `Stored` fits no other state.
            _ => (CacheState::Done, CacheAction::Compute),
        },
        CacheEvent::Failed => (CacheState::Done, CacheAction::Fail),
    }
}

/// Takes a cached call one step further.
pub fn step<T, R>(state: CacheState<T>, event: CacheEvent<T, R>) -> (out: (
    CacheState<T>,
    CacheAction<T, R>,
))
    requires
        fits(state, event),
    ensures
        out == next(state, event),
{
    match event {
        CacheEvent::Begin => (CacheState::Looking, CacheAction::Lookup),
        CacheEvent::Looked(Some(v)) => (CacheState::Done, CacheAction::Return(v)),
        CacheEvent::Looked(None) => (CacheState::Computing, CacheAction::Compute),
        CacheEvent::Computed(v, Some(r)) => (CacheState::Storing(v), CacheAction::Store(r)),
        CacheEvent::Computed(v, None) => (CacheState::Done, CacheAction::Return(v)),
        CacheEvent::Stored => match state {
            CacheState::Storing(v) => (CacheState::Done, CacheAction::Return(v)),
            // `Stored` fits no other state.
            _ => (CacheState::Done, CacheAction::Compute),
        },
        CacheEvent::Failed => (CacheState::Done, CacheAction::Fail),
    }
}

/// What a call that caches `Option`s keeps: the value inside `Some`, and
/// nothing of `None`.
pub fn option_to_cache<T>(value: &Option<T>) -> (kept: Option<&T>)
    ensures
        kept == match value {
            Some(v) => Some(v),
            None => None::<&T>,
        },
{
    match value {
        Some(v) => Some(v),
        None => None,
    }
}

/// What a call that caches `Result`s keeps: the value inside `Ok`, and
/// nothing of an error.
pub fn result_to_cache<T, E>(value: &Result<T, E>) -> (kept: Option<&T>)
    ensures
        kept == match value {
            Ok(v) => Some(v),
            Err(_) => None::<&T>,
        },
{
    match value {
        Ok(v) => Some(v),
        Err(_) => None,
    }
}

/// On a hit, a cached call returns what the cache held, and never runs the
/// computation: after the lookup it is done.
pub proof fn hit_returns_cached<T, R>(cached: T)
    ensures
        next::<T, R>(CacheState::Start, CacheEvent::Begin) == (
            CacheState::<T>::Looking,
            CacheAction::<T, R>::Lookup,
        ),
        next::<T, R>(CacheState::Looking, CacheEvent::Looked(Some(cached))) == (
            CacheState::<T>::Done,
            CacheAction::<T, R>::Return(cached),
        ),
{
}

/// On a miss, a cached call runs the computation once; where the filter
/// keeps nothing of the computed value, nothing is stored and the computed
/// value is returned.
pub proof fn miss_without_store_returns_computed<T, R>(computed: T)
    ensures
        next::<T, R>(CacheState::Looking, CacheEvent::Looked(None)) == (
            CacheState::<T>::Computing,
            CacheAction::<T, R>::Compute,
        ),
        next::<T, R>(CacheState::Computing, CacheEvent::Computed(computed, None)) == (
            CacheState::<T>::Done,
            CacheAction::<T, R>::Return(computed),
        ),
{
}

/// On a miss where the filter keeps something of the computed value, a cached
/// call stores exactly what was kept, and after the store it returns the
/// computed value itself.
pub proof fn miss_with_store_returns_computed<T, R>(computed: T, kept: R)
    ensures
        next::<T, R>(CacheState::Computing, CacheEvent::Computed(computed, Some(kept))) == (
            CacheState::Storing(computed),
            CacheAction::<T, R>::Store(kept),
        ),
        next::<T, R>(CacheState::Storing(computed), CacheEvent::Stored) == (
            CacheState::<T>::Done,
            CacheAction::<T, R>::Return(computed),
        ),
{
}

/// A failure ends the call, wherever it comes: a failed lookup ends it
/// without running the computation, and a failure after the computation
/// drops the computed value.
pub proof fn failure_ends_the_call<T, R>(computed: T)
    ensures
        next::<T, R>(CacheState::Looking, CacheEvent::Failed) == (
            CacheState::<T>::Done,
            CacheAction::<T, R>::Fail,
        ),
        next::<T, R>(CacheState::Computing, CacheEvent::Failed) == (
            CacheState::<T>::Done,
            CacheAction::<T, R>::Fail,
        ),
        next::<T, R>(CacheState::Storing(computed), CacheEvent::Failed) == (
            CacheState::<T>::Done,
            CacheAction::<T, R>::Fail,
        ),
{
}

/// The actions that a run of `events` from `state` asks for, in order, or
/// `None` where some event cannot follow.
pub open spec fn run<T, R>(state: CacheState<T>, events: Seq<CacheEvent<T, R>>) -> Option<
    Seq<CacheAction<T, R>>,
>
    decreases events.len(),
{
    if events.len() == 0 {
        Some(Seq::empty())
    } else if !fits(state, events[0]) {
        None
    } else {
        let (after, action) = next(state, events[0]);
        match run(after, events.drop_first()) {
            Some(rest) => Some(seq![action] + rest),
            None => None,
        }
    }
}

/// How many times `actions` asks to run the computation.
pub open spec fn compute_count<T, R>(actions: Seq<CacheAction<T, R>>) -> nat
    decreases actions.len(),
{
    if actions.len() == 0 {
        0
    } else {
        (if actions[0] is Compute { 1nat } else { 0nat }) + compute_count(actions.drop_first())
    }
}

/// How many times `actions` ends the call, by returning or by failing.
pub open spec fn end_count<T, R>(actions: Seq<CacheAction<T, R>>) -> nat
    decreases actions.len(),
{
    if actions.len() == 0 {
        0
    } else {
        (if actions[0] is Return || actions[0] is Fail { 1nat } else { 0nat }) + end_count(actions.drop_first())
    }
}

proof fn run_bounds<T, R>(state: CacheState<T>, events: Seq<CacheEvent<T, R>>)
    requires
        run(state, events) is Some,
    ensures
        compute_count(run(state, events)->0) <= (if state is Start || state is Looking {
            1nat
        } else {
            0nat
        }),
        end_count(run(state, events)->0) <= (if state is Done { 0nat } else { 1nat }),
    decreases events.len(),
{
    if events.len() > 0 {
        let (after, action) = next(state, events[0]);
        run_bounds(after, events.drop_first());
        let rest = run(after, events.drop_first())->0;
        let all = seq![action] + rest;
        assert(all.drop_first() =~= rest);
        assert(all[0] == action);
    }
}

/// Whatever the caller reports, a cached call runs the computation at most
/// once and ends (returns or fails) at most once.
pub proof fn computes_and_returns_at_most_once<T, R>(events: Seq<CacheEvent<T, R>>)
    requires
        run(CacheState::<T>::Start, events) is Some,
    ensures
        compute_count(run(CacheState::<T>::Start, events)->0) <= 1,
        end_count(run(CacheState::<T>::Start, events)->0) <= 1,
{
    run_bounds(CacheState::<T>::Start, events);
}

} // verus!
