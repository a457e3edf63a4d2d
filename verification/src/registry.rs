//! The session registry: a mapping from opaque integer handles to live
//! sessions, plus the monotonic handle allocator.
//!
//! A handle is a strictly positive 64-bit integer, unique for the life of
//! the registry and never reused, even after the session it names is torn
//! down. The host guards the registry with one mutual-exclusion lock and
//! holds it only for the brief map accesses these methods perform.

use vstd::prelude::*;
use std::collections::HashMap;
use std::sync::Arc;
use crate::config::SessionConfig;

verus! {

broadcast use vstd::std_specs::hash::group_hash_axioms;

#[verifier::external_type_specification]
#[verifier::external_body]
pub struct ExRuntime(tokio::runtime::Runtime);

/// Relies on `tokio::runtime::Runtime::new`: builds a fresh multi-thread
/// execution context, or reports an environmental failure. Nothing further
/// is assumed of either outcome.
#[verifier::external_body]
pub(crate) fn new_runtime() -> (r: Result<tokio::runtime::Runtime, String>) {
    tokio::runtime::Runtime::new().map_err(|e| e.to_string())
}

/// One logical agent instance: an owned asynchronous execution context and
/// an immutable-after-construction configuration snapshot. Only the bridge
/// submits work to the context; a bridged call holds a shared handle to
/// it, so teardown can never deallocate the context under an in-flight
/// call.
pub struct Session {
    pub config: SessionConfig,
    pub context: Arc<tokio::runtime::Runtime>,
}

/// Relies on `Arc::clone`: another handle to the same shared execution
/// context.
#[verifier::external_body]
fn share_context(c: &Arc<tokio::runtime::Runtime>) -> (r: Arc<tokio::runtime::Runtime>)
    ensures
        r == *c,
{
    Arc::clone(c)
}

/// The registry of live sessions and the allocator of their handles.
pub struct Registry {
    /// The next handle to hand out; strictly above every handle issued so
    /// far, so handles are never reused.
    pub next_id: i64,
    /// Every handle issued so far, in allocation order.
    pub issued: Ghost<Seq<i64>>,
    /// The live sessions, keyed by handle.
    pub sessions: HashMap<i64, Session>,
}

impl Registry {
    /// Well-formedness: handles are strictly positive, issued in strictly
    /// increasing order below the allocator's cursor, and every live
    /// session is keyed by an issued handle.
    pub open spec fn wf(self) -> bool {
        &&& 1 <= self.next_id
        &&& forall|i: int|
            0 <= i < self.issued@.len() ==> 0 < #[trigger] self.issued@[i] < self.next_id
        &&& forall|i: int, j: int|
            0 <= i < j < self.issued@.len() ==> self.issued@[i] < self.issued@[j]
        &&& forall|h: i64| self.sessions@.contains_key(h) ==> #[trigger] self.issued@.contains(h)
    }

    /// Whether the allocator can still mint a handle.
    pub open spec fn spec_can_allocate(self) -> bool {
        self.next_id < i64::MAX
    }

    pub fn can_allocate(&self) -> (r: bool)
        ensures
            r == self.spec_can_allocate(),
    {
        self.next_id < i64::MAX
    }

    /// Mints a fresh handle: strictly greater than every handle issued
    /// before it, hence pairwise distinct across any sequence of calls.
    pub fn next_handle_id(&mut self) -> (r: i64)
        requires
            old(self).wf(),
            old(self).spec_can_allocate(),
        ensures
            final(self).wf(),
            r == old(self).next_id,
            0 < r,
            !old(self).issued@.contains(r),
            forall|i: int| 0 <= i < old(self).issued@.len() ==> old(self).issued@[i] < r,
            final(self).issued@ == old(self).issued@.push(r),
            final(self).next_id == old(self).next_id + 1,
            final(self).sessions == old(self).sessions,
    {
        let r = self.next_id;
        self.next_id = self.next_id + 1;
        proof {
            self.issued@ = self.issued@.push(r);
            if old(self).issued@.contains(r) {
                let i = old(self).issued@.index_of(r);
                assert(0 < old(self).issued@[i] < old(self).next_id);
            }
            assert forall|h: i64| old(self).issued@.contains(h) implies self.issued@.contains(
                h,
            ) by {
                let i = choose|i: int|
                    0 <= i < old(self).issued@.len() && old(self).issued@[i] == h;
                assert(self.issued@[i] == h);
            }
        }
        r
    }

    /// Adds a fully constructed session under a handle the allocator
    /// issued and that is not in use.
    pub fn insert_session(&mut self, handle: i64, session: Session)
        requires
            old(self).wf(),
            old(self).issued@.contains(handle),
            !old(self).sessions@.contains_key(handle),
        ensures
            final(self).wf(),
            final(self).sessions@ == old(self).sessions@.insert(handle, session),
            final(self).next_id == old(self).next_id,
            final(self).issued == old(self).issued,
    {
        self.sessions.insert(handle, session);
    }

    /// Pure lookup: whether the handle currently names a live session.
    pub fn is_healthy(&self, handle: i64) -> (r: bool)
        ensures
            r == self.sessions@.contains_key(handle),
    {
        self.sessions.contains_key(&handle)
    }

    /// Resolves a handle to its session for the duration of the borrow.
    pub fn lookup(&self, handle: i64) -> (r: Option<&Session>)
        ensures
            r is Some <==> self.sessions@.contains_key(handle),
            r is Some ==> *r->0 == self.sessions@[handle],
    {
        self.sessions.get(&handle)
    }

    /// Resolves a handle to a duplicate of its session's configuration
    /// snapshot, so the caller can release the registry before any
    /// blocking work begins.
    pub fn config_of(&self, handle: i64) -> (r: Option<SessionConfig>)
        ensures
            r is Some <==> self.sessions@.contains_key(handle),
            r is Some ==> r->0@ == self.sessions@[handle].config@,
    {
        match self.sessions.get(&handle) {
            Some(s) => Some(s.config.duplicate()),
            None => None,
        }
    }

    /// Resolves a handle to a shared handle on its session's execution
    /// context, so the caller can release the registry and still drive
    /// work on that very context.
    pub fn context_of(&self, handle: i64) -> (r: Option<Arc<tokio::runtime::Runtime>>)
        ensures
            r is Some <==> self.sessions@.contains_key(handle),
            r is Some ==> r->0 == self.sessions@[handle].context,
    {
        match self.sessions.get(&handle) {
            Some(s) => Some(share_context(&s.context)),
            None => None,
        }
    }

    /// Removes the session and transfers its ownership to the caller for
    /// teardown; the handle is never reissued.
    pub fn remove_session(&mut self, handle: i64) -> (r: Option<Session>)
        requires
            old(self).wf(),
        ensures
            final(self).wf(),
            final(self).sessions@ == old(self).sessions@.remove(handle),
            r is Some <==> old(self).sessions@.contains_key(handle),
            r is Some ==> r->0 == old(self).sessions@[handle],
            final(self).next_id == old(self).next_id,
            final(self).issued == old(self).issued,
    {
        self.sessions.remove(&handle)
    }
}

/// Creates the registry, empty, with the allocator at its first handle.
/// The host builds it once, at first use, and shares it behind its lock.
pub fn init_handles() -> (r: Registry)
    ensures
        r.wf(),
        r.sessions@ == Map::<i64, Session>::empty(),
        r.issued@ == Seq::<i64>::empty(),
        r.next_id == 1,
        r.spec_can_allocate(),
{
    Registry { next_id: 1, issued: Ghost(Seq::empty()), sessions: HashMap::new() }
}

/// Law: handles are pairwise distinct and strictly increasing in
/// allocation order — for any sequence of allocations, a later handle is
/// strictly greater than every earlier one.
pub proof fn lemma_handles_distinct_and_increasing(reg: Registry)
    requires
        reg.wf(),
    ensures
        forall|i: int, j: int|
            0 <= i < j < reg.issued@.len() ==> reg.issued@[i] < reg.issued@[j]
                && reg.issued@[i] != reg.issued@[j],
{
}

/// Law: sessions are isolated — installing a session under one handle
/// leaves what every other handle resolves to untouched, so no session's
/// call can observe another session's configuration.
pub proof fn lemma_session_isolation(
    before: Map<i64, Session>,
    handle: i64,
    session: Session,
    other: i64,
)
    requires
        other != handle,
    ensures
        before.insert(handle, session).contains_key(other) == before.contains_key(other),
        before.contains_key(other) ==> before.insert(handle, session)[other] == before[other],
{
}

} // verus!
