//! The session pool of a model: how many sessions it holds, which graph
//! optimization level they are built with, and the idle sessions that
//! requests check out and give back.

use vstd::prelude::*;
use vstd::string::StringExecFns;
use crate::error::InferenceError;

verus! {

/// The graph optimization level sessions are built with.
#[derive(Debug, Clone, Copy, PartialEq, Eq, Structural)]
pub enum GraphLevel {
    /// No graph optimizations.
    Disable,
    /// Basic optimizations (level 1).
    Basic,
    /// Extended optimizations (level 2).
    Extended,
    /// All optimizations (level 3).
    All,
}

/// The graph level named by a configuration value: "disable", "basic" and
/// "extended" name their levels; anything else means all optimizations.
pub open spec fn graph_level_spec(name: Seq<char>) -> GraphLevel {
    if name == "disable"@ {
        GraphLevel::Disable
    } else if name == "basic"@ {
        GraphLevel::Basic
    } else if name == "extended"@ {
        GraphLevel::Extended
    } else {
        GraphLevel::All
    }
}

/// Maps a configured optimization level name to a graph level.
pub fn graph_level(name: &str) -> (l: GraphLevel)
    ensures
        l == graph_level_spec(name@),
{
    let n = String::from_str(name);
    if n == String::from_str("disable") {
        GraphLevel::Disable
    } else if n == String::from_str("basic") {
        GraphLevel::Basic
    } else if n == String::from_str("extended") {
        GraphLevel::Extended
    } else {
        GraphLevel::All
    }
}

/// The number of sessions a pool holds: the configured size, at least one.
pub fn effective_pool_size(configured: usize) -> (n: usize)
    ensures
        n == (if configured == 0 { 1 } else { configured }),
{
    if configured == 0 { 1 } else { configured }
}

/// The blocking threads the runtime needs: one per pooled session of every
/// registered model, plus eight spare workers.
pub fn blocking_thread_budget(models: usize, pool_size: usize) -> (n: usize)
    requires
        models * pool_size + 8 <= usize::MAX,
    ensures
        n == models * pool_size + 8,
{
    proof {
        assert(models * pool_size <= usize::MAX - 8);
    }
    models * pool_size + 8
}

/// The sessions of a pool that are not checked out, most recently returned last.
pub struct IdleSessions<T> {
    sessions: Vec<T>,
}

impl<T> View for IdleSessions<T> {
    type V = Seq<T>;

    closed spec fn view(&self) -> Seq<T> {
        self.sessions@
    }
}

impl<T> IdleSessions<T> {
    /// A pool whose sessions are all idle.
    pub fn new(sessions: Vec<T>) -> (r: Self)
        ensures
            r@ == sessions@,
    {
        IdleSessions { sessions }
    }

    /// The number of idle sessions.
    pub fn idle_count(&self) -> (n: usize)
        ensures
            n == self@.len(),
    {
        self.sessions.len()
    }

    /// Checks out the most recently returned idle session. With none idle
    /// (which a permit of the pool's semaphore rules out) the error is a pool
    /// error of the model and nothing changes.
    pub fn acquire(&mut self, model_id: &str) -> (r: Result<T, InferenceError>)
        ensures
            old(self)@.len() > 0 ==> (r matches Ok(t) && t == old(self)@.last()
                && final(self)@ == old(self)@.drop_last()),
            old(self)@.len() == 0 ==> (r matches Err(InferenceError::PoolExhausted { model, message })
                && model@ == model_id@
                && message@ == "session pool was empty despite semaphore permit"@
                && final(self)@ == old(self)@),
    {
        match self.sessions.pop() {
            Some(t) => Ok(t),
            None => Err(InferenceError::PoolExhausted {
                model: String::from_str(model_id),
                message: String::from_str("session pool was empty despite semaphore permit"),
            }),
        }
    }

    /// Gives a session back to the pool.
    pub fn release(&mut self, session: T)
        ensures
            final(self)@ == old(self)@.push(session),
    {
        self.sessions.push(session);
    }
}

/// Checking out a session and giving it back leaves the idle sessions as
/// they were.
pub proof fn law_release_undoes_acquire<T>(idle: Seq<T>)
    requires
        idle.len() > 0,
    ensures
        idle.drop_last().push(idle.last()) == idle,
{
    assert(idle.drop_last().push(idle.last()) =~= idle);
}

} // verus!
