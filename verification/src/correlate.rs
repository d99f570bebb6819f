//! Correlation of inbound bus traffic with the request that caused it.
//!
//! Protocol progress arrives as out-of-band signals, not as method
//! returns.  Only messages of the signal class are interpreted; a signal
//! is bound to the one outstanding request positionally, by the shared
//! session-handle path, because the service does not echo the caller's
//! token on its `Response` signals.  Request tokens still double as
//! idempotency keys, so they must never be reused within a connection's
//! lifetime: [`TokenRegistry`] enforces that.

use vstd::prelude::*;

verus! {

/// The class of an inbound bus message.
#[derive(Debug, PartialEq, Eq)]
pub enum MessageClass {
    MethodCall,
    MethodReturn,
    Signal,
    Error,
}

/// Which protocol step an outstanding request belongs to.
#[derive(Debug, PartialEq, Eq)]
pub enum RequestKind {
    CreateSession,
    SelectSources,
    Start,
    OpenPipeWireRemote,
}

/// One in-flight call awaiting its signal.  The protocol is strictly
/// sequential: at most one of these exists per session at any time.
#[derive(Debug, PartialEq, Eq)]
pub struct PendingRequest {
    /// The caller-chosen opaque token the call carried.
    pub token: String,
    /// The protocol step the call performs.
    pub kind: RequestKind,
    /// When the call was issued, in the caller's clock ticks.
    pub issued_at: u64,
}

impl PendingRequest {
    /// Records a freshly issued call.
    pub fn new(token: String, kind: RequestKind, issued_at: u64) -> (r: PendingRequest)
        ensures
            r.token == token,
            r.kind == kind,
            r.issued_at == issued_at,
    {
        PendingRequest { token, kind, issued_at }
    }
}

/// Only messages of the signal class carry protocol progress; method
/// returns and everything else are normal traffic to be skipped.
pub fn should_process(class: &MessageClass) -> (r: bool)
    ensures
        r == (*class is Signal),
{
    match class {
        MessageClass::Signal => true,
        _ => false,
    }
}

/// Whether a signal arriving on `signal_path` answers the request bound to
/// `session_handle`: the binding is by equal handle path.
pub open spec fn spec_matches(session_handle: Seq<char>, signal_path: Seq<char>) -> bool {
    session_handle == signal_path
}

/// Whether the signal on `signal_path` belongs to the session negotiation
/// owning `session_handle`.
pub fn signal_matches(session_handle: &String, signal_path: &String) -> (r: bool)
    ensures
        r == spec_matches(session_handle@, signal_path@),
{
    *session_handle == *signal_path
}

/// Signals are bound to a request by the session-handle path alone, so two
/// negotiation runs whose handle paths differ can never steal each other's
/// signals: a signal originating from one run's path does not match the
/// other run's pending request.  Distinct per-run request tokens keep the
/// paths distinct, because the service derives the handle path from the
/// caller's token.
pub proof fn lemma_no_cross_run_match(own_handle: Seq<char>, foreign_signal_path: Seq<char>)
    requires
        own_handle != foreign_signal_path,
    ensures
        !spec_matches(own_handle, foreign_signal_path),
{
}

/// The tokens handed out so far within one connection's lifetime.
pub struct TokenRegistry {
    /// Every token ever registered, in order of registration.
    pub used: Vec<String>,
}

impl TokenRegistry {
    /// No two registered tokens read the same.
    pub open spec fn wf(self) -> bool {
        forall|i: int, j: int|
            0 <= i < j < self.used@.len() ==> self.used@[i]@ != self.used@[j]@
    }

    /// Whether a token reading `t` has been registered.
    pub open spec fn token_used(self, t: Seq<char>) -> bool {
        exists|i: int| 0 <= i < self.used@.len() && self.used@[i]@ == t
    }

    /// An empty registry: no token is taken yet.
    pub fn new() -> (r: TokenRegistry)
        ensures
            r.wf(),
            forall|t: Seq<char>| !r.token_used(t),
    {
        TokenRegistry { used: Vec::new() }
    }

    /// Whether `token` has been registered.
    pub fn contains(&self, token: &String) -> (r: bool)
        ensures
            r == self.token_used(token@),
    {
        let n = self.used.len();
        let mut i: usize = 0;
        while i < n
            invariant
                n == self.used@.len(),
                i <= n,
                forall|j: int| 0 <= j < i ==> self.used@[j]@ != token@,
            decreases n - i,
        {
            if self.used[i] == *token {
                return true;
            }
            i += 1;
        }
        false
    }

    /// Claims `token` if no token reading the same was claimed before.
    /// Returns whether the token was fresh; a reused token is refused and
    /// the registry is unchanged, so a stale signal can never be matched
    /// under a recycled token.
    pub fn register(&mut self, token: String) -> (fresh: bool)
        requires
            old(self).wf(),
        ensures
            final(self).wf(),
            fresh == !old(self).token_used(token@),
            forall|t: Seq<char>|
                final(self).token_used(t) == (old(self).token_used(t) || (fresh && t == token@)),
    {
        if self.contains(&token) {
            return false;
        }
        self.used.push(token);
        proof {
            let last = self.used@.len() - 1;
            assert forall|t: Seq<char>|
                self.token_used(t) == (old(self).token_used(t) || t == token@) by {
                if old(self).token_used(t) {
                    let i = choose|i: int|
                        0 <= i < old(self).used@.len() && old(self).used@[i]@ == t;
                    assert(self.used@[i]@ == t);
                }
                if t == token@ {
                    assert(self.used@[last]@ == t);
                }
                if self.token_used(t) {
                    let i = choose|i: int| 0 <= i < self.used@.len() && self.used@[i]@ == t;
                    if i < last {
                        assert(old(self).used@[i]@ == t);
                    }
                }
            }
            assert forall|i: int, j: int|
                0 <= i < j < self.used@.len() implies self.used@[i]@ != self.used@[j]@ by {
                if j < last {
                    assert(old(self).used@[i]@ != old(self).used@[j]@);
                } else {
                    assert(!old(self).token_used(token@));
                    assert(old(self).used@[i]@ != token@);
                }
            }
        }
        true
    }
}

} // verus!
