//! The search: workers that take keypairs from a source and test their
//! addresses until one matches or the search is cancelled.
//!
//! A worker deals with its surroundings through three functions: a source
//! of keypairs, a probe that tells whether the search was cancelled, and an
//! announcement that a keypair was found. `run_worker_with` and
//! `search_with` take the three as they are, which is where their laws are
//! stated; `run_worker`, `search_from` and `search` bind the probe and the
//! announcement to one shared atomic flag.

use vstd::prelude::*;
use std::sync::atomic::{AtomicBool, Ordering};
use rayon::iter::{IntoParallelIterator, ParallelIterator};
use crate::config::MatchConfig;
use crate::keys::{generate, Candidate};

verus! {

/// How a search ended.
pub enum SearchResult {
    /// A worker found this keypair, whose address satisfies the pattern.
    Found(Candidate),
    /// The search ended without a keypair.
    NotFound,
}

/// Whether `answer` is the only answer that `probe` ever gives.
pub open spec fn always_answers<C: Fn() -> bool>(probe: &C, answer: bool) -> bool {
    forall|b: bool| call_ensures(*probe, (), b) ==> b == answer
}

/// Whether `probe` can tell that the search goes on.
pub open spec fn may_go_on<C: Fn() -> bool>(probe: &C) -> bool {
    exists|b: bool| call_ensures(*probe, (), b) && !b
}

/// Whether every keypair that `source` can hand out satisfies `config`.
pub open spec fn always_accepted<G: Fn() -> Candidate>(source: &G, config: &MatchConfig) -> bool {
    forall|k: Candidate| call_ensures(*source, (), k) ==> config.accepts(k.address_bytes())
}

/// Whether `k` is a keypair from `source` whose address satisfies `config`.
pub open spec fn found_by<G: Fn() -> Candidate>(
    k: Candidate,
    source: &G,
    config: &MatchConfig,
) -> bool {
    call_ensures(*source, (), k) && config.accepts(k.address_bytes())
}

/// Calls `find_map_any` of `rayon` on the parallel iterator over `0..count`:
/// `f` is applied to the indices in parallel on the current thread pool.
/// What comes back is one of the values that `f` returned inside `Some`; it
/// is `None` only when `f` returned `None` for every index.
#[verifier::external_body]
fn find_map_any_index<R, F>(count: usize, f: F) -> (r: Option<R>) where
    F: Fn(usize) -> Option<R> + Sync + Send,
    R: Send,

    requires
        forall|i: usize| i < count ==> call_requires(f, (i,)),
    ensures
        r matches Some(v) ==> exists|i: usize| i < count && call_ensures(f, (i,), Some(v)),
        r is None ==> forall|i: usize| i < count ==> call_ensures(f, (i,), None::<R>),
{
    (0..count).into_par_iter().find_map_any(f)
}

/// Keeps `candidate` if its address satisfies `config`.
pub fn judge(config: &MatchConfig, candidate: Candidate) -> (r: Option<Candidate>)
    ensures
        r == if config.accepts(candidate.address_bytes()) {
            Some(candidate)
        } else {
            None::<Candidate>
        },
{
    if config.matches(candidate.address.as_str().as_bytes()) {
        Some(candidate)
    } else {
        None
    }
}

/// One worker. It repeats, `attempts` times at most: ask `cancelled` and
/// leave with nothing if the search was cancelled; take a keypair from
/// `source`; if its address satisfies `config`, call `announce` and leave
/// with the keypair.
///
/// The probe is asked before each keypair is taken. So a worker of a search
/// that was cancelled beforehand finds nothing and takes no keypair: the
/// source need not even admit a call unless the probe can tell that the
/// search goes on. And a worker that is never cancelled and whose source
/// hands out matching keypairs only comes back with one of them.
pub fn run_worker_with<G, C, S>(
    config: &MatchConfig,
    source: &G,
    cancelled: &C,
    announce: &S,
    attempts: u64,
) -> (r: Option<Candidate>) where G: Fn() -> Candidate, C: Fn() -> bool, S: Fn() -> ()
    requires
        call_requires(*cancelled, ()),
        call_requires(*announce, ()),
        may_go_on(cancelled) ==> call_requires(*source, ()),
    ensures
        r matches Some(k) ==> found_by(k, source, config),
        attempts == 0 ==> r is None,
        always_answers(cancelled, true) ==> r is None,
        attempts > 0 && always_answers(cancelled, false) && always_accepted(source, config)
            ==> r is Some,
{
    let mut tries: u64 = 0;
    while tries < attempts
        invariant
            call_requires(*cancelled, ()),
            call_requires(*announce, ()),
            may_go_on(cancelled) ==> call_requires(*source, ()),
            tries > 0 ==> !(always_answers(cancelled, false) && always_accepted(source, config)),
        decreases attempts - tries,
    {
        let stop = cancelled();
        if stop {
            return None;
        }
        match judge(config, source()) {
            Some(found) => {
                announce();
                return Some(found);
            },
            None => {},
        }
        tries += 1;
    }
    None
}

/// Runs `worker_count` workers in parallel on the current thread pool, each
/// with a budget of `attempts` keypairs, and answers with the keypair of a
/// worker that found one. Which one, where several find one at the same
/// moment, is not determined.
///
/// A search without workers or without a budget finds nothing, and so does
/// a search that was cancelled beforehand. A search with a worker and a
/// budget that is never cancelled, on a source that hands out matching
/// keypairs only, finds one of them.
pub fn search_with<G, C, S>(
    config: &MatchConfig,
    worker_count: usize,
    source: &G,
    cancelled: &C,
    announce: &S,
    attempts: u64,
) -> (r: SearchResult) where
    G: Fn() -> Candidate + Sync,
    C: Fn() -> bool + Sync,
    S: Fn() -> () + Sync,

    requires
        call_requires(*cancelled, ()),
        call_requires(*announce, ()),
        may_go_on(cancelled) ==> call_requires(*source, ()),
    ensures
        r matches SearchResult::Found(k) ==> found_by(k, source, config),
        worker_count == 0 || attempts == 0 ==> r is NotFound,
        always_answers(cancelled, true) ==> r is NotFound,
        worker_count > 0 && attempts > 0 && always_answers(cancelled, false) && always_accepted(
            source,
            config,
        ) ==> r is Found,
{
    let worker = |_index: usize| -> (out: Option<Candidate>)
        ensures
            out matches Some(k) ==> found_by(k, source, config),
            attempts == 0 ==> out is None,
            always_answers(cancelled, true) ==> out is None,
            attempts > 0 && always_answers(cancelled, false) && always_accepted(source, config)
                ==> out is Some,
        { run_worker_with(config, source, cancelled, announce, attempts) };
    let outcome = find_map_any_index(worker_count, worker);
    proof {
        if worker_count > 0 && outcome is None {
            assert(call_ensures(worker, (0usize,), None::<Candidate>));
        }
    }
    match outcome {
        Some(found) => SearchResult::Found(found),
        None => SearchResult::NotFound,
    }
}

/// One worker on a shared flag: the search counts as cancelled once the
/// flag is set, and the worker that finds a keypair sets it. Both are done
/// with relaxed ordering: the flag guards no other data.
pub fn run_worker<G>(config: &MatchConfig, source: &G, cancel: &AtomicBool, attempts: u64) -> (r:
    Option<Candidate>) where G: Fn() -> Candidate
    requires
        call_requires(*source, ()),
    ensures
        r matches Some(k) ==> found_by(k, source, config),
        attempts == 0 ==> r is None,
{
    let cancelled = || -> (set: bool) { cancel.load(Ordering::Relaxed) };
    let announce = || -> (done: ()) { cancel.store(true, Ordering::Relaxed) };
    run_worker_with(config, source, &cancelled, &announce, attempts)
}

/// A search on a shared flag. Setting the flag from outside cancels the
/// search: each worker leaves when it next reads the flag.
pub fn search_from<G>(
    config: &MatchConfig,
    worker_count: usize,
    source: &G,
    cancel: &AtomicBool,
    attempts: u64,
) -> (r: SearchResult) where G: Fn() -> Candidate + Sync
    requires
        call_requires(*source, ()),
    ensures
        r matches SearchResult::Found(k) ==> found_by(k, source, config),
        worker_count == 0 || attempts == 0 ==> r is NotFound,
{
    let cancelled = || -> (set: bool) { cancel.load(Ordering::Relaxed) };
    let announce = || -> (done: ()) { cancel.store(true, Ordering::Relaxed) };
    search_with(config, worker_count, source, &cancelled, &announce, attempts)
}

/// Searches with `worker_count` workers for a fresh random keypair whose
/// address satisfies `config`. The search has a flag of its own, which only
/// a worker that found a keypair sets, and each worker may take `u64::MAX`
/// keypairs.
pub fn search(config: &MatchConfig, worker_count: usize) -> (r: SearchResult)
    ensures
        r matches SearchResult::Found(k) ==> k.well_formed() && config.accepts(k.address_bytes()),
        worker_count == 0 ==> r is NotFound,
{
    let cancel = AtomicBool::new(false);
    search_from(config, worker_count, &generate, &cancel, u64::MAX)
}

} // verus!
