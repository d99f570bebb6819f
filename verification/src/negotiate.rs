//! The session negotiation state machine.
//!
//! One negotiator drives one capture session through the handshake
//! create session, select sources, start.  It owns the session handle the
//! service assigns and decides, from each decoded signal, which step to
//! advance; the caller performs the [`Action`]s it emits (issuing bus
//! calls, opening the remote-core descriptor, starting capture) and feeds
//! events back in.  The machine is single-shot: once `Ready` or `Failed`
//! it reacts to nothing further.

use vstd::prelude::*;

use crate::decode::{DecodedResponse, SpecDecoded, decode_signal, spec_decode};
use crate::pipeline::CaptureTarget;
use crate::value::{DecodeError, Value};

verus! {

/// Why a negotiation ended without a capture.
#[derive(Debug, PartialEq, Eq)]
pub enum FailReason {
    /// The service answered with this non-zero status and no results.
    Denied { status: u32 },
    /// A payload did not have the shape the protocol promises.
    BadPayload { error: DecodeError },
}

/// Where the negotiation stands.
#[derive(Debug, PartialEq, Eq)]
pub enum NegState {
    /// No call issued yet.
    Idle,
    /// The session-create call is out; its signal carries the handle.
    AwaitingSessionHandle,
    /// Source selection and start are out; their confirmations carry no
    /// data this design needs, so the next awaited payload is the streams
    /// one.
    AwaitingSources,
    /// The start signal with the `streams` payload is awaited.
    AwaitingStreams,
    /// The remote-core descriptor is being acquired.
    AwaitingRemoteFd,
    /// Capture was handed off; the machine is quiescent.
    Ready,
    /// The negotiation ended without a capture.
    Failed(FailReason),
}

/// An effect the caller must perform on the negotiator's behalf.
#[derive(Debug, PartialEq, Eq)]
pub enum Action {
    /// Issue the session-create call with these tokens.
    CreateSession { handle_token: String, session_handle_token: String },
    /// Issue source selection against the session.
    SelectSources { session_handle: String, handle_token: String },
    /// Issue the start call against the session.
    Start { session_handle: String, parent_window: String, handle_token: String },
    /// Acquire a descriptor to the remote media core for the session.
    OpenPipeWireRemote { session_handle: String },
    /// Hand this target to capture; do it exactly once.
    StartCapture { target: CaptureTarget },
}

/// States in which a signal can still advance the protocol.
pub open spec fn is_awaiting(s: NegState) -> bool {
    ||| s is AwaitingSessionHandle
    ||| s is AwaitingSources
    ||| s is AwaitingStreams
    ||| s is AwaitingRemoteFd
}

/// The negotiator: the session's state, its handle once assigned, and the
/// caller-chosen constants every call carries.
pub struct Negotiator {
    /// Where the negotiation stands.
    pub state: NegState,
    /// The handle path the service assigned; set at most once, immutable
    /// thereafter.
    pub session_handle: Option<String>,
    /// The request token each call carries for correlation.
    pub handle_token: String,
    /// The parent-window identifier the start call names.
    pub parent_window: String,
    /// Whether capture attaches over a remote-core descriptor rather than
    /// referencing the node directly.
    pub use_remote_fd: bool,
    /// The decoded node identifier held while the descriptor is acquired.
    pub pending_node_id: Option<u32>,
}

impl Negotiator {
    /// The states tie down what else must be known: a handle exists from
    /// source selection on, never before, and a node identifier is held
    /// exactly while the descriptor is acquired.
    pub open spec fn wf(self) -> bool {
        &&& (self.state is AwaitingSources || self.state is AwaitingStreams || self.state
            is AwaitingRemoteFd || self.state is Ready ==> self.session_handle is Some)
        &&& (self.state is Idle || self.state is AwaitingSessionHandle
            ==> self.session_handle is None)
        &&& (self.state is AwaitingRemoteFd ==> self.pending_node_id is Some)
    }

    /// What one event does: the relation between the state before, the
    /// state after, the decoded response, and the actions emitted.
    pub open spec fn spec_step(
        pre: Negotiator,
        post: Negotiator,
        d: SpecDecoded,
        actions: Seq<Action>,
    ) -> bool {
        if !is_awaiting(pre.state) {
            post == pre && actions.len() == 0
        } else {
            match d {
                SpecDecoded::Ignored => post == pre && actions.len() == 0,
                SpecDecoded::SessionCreated { session_handle } => if pre.state
                    is AwaitingSessionHandle {
                    &&& post.state is AwaitingSources
                    &&& post.session_handle matches Some(h) && h@ == session_handle
                    &&& post.pending_node_id == pre.pending_node_id
                    &&& actions.len() == 2
                    &&& actions[0] matches Action::SelectSources {
                        session_handle: s0,
                        handle_token: t0,
                    } && s0@ == session_handle && t0 == pre.handle_token
                    &&& actions[1] matches Action::Start {
                        session_handle: s1,
                        parent_window: w,
                        handle_token: t1,
                    } && s1@ == session_handle && w == pre.parent_window && t1 == pre.handle_token
                } else {
                    post == pre && actions.len() == 0
                },
                SpecDecoded::StreamsReady { node_id } => if pre.state is AwaitingSources
                    || pre.state is AwaitingStreams {
                    if pre.use_remote_fd {
                        &&& post.state is AwaitingRemoteFd
                        &&& post.session_handle == pre.session_handle
                        &&& post.pending_node_id == Some(node_id)
                        &&& actions.len() == 1
                        &&& actions[0] matches Action::OpenPipeWireRemote { session_handle: s }
                            && pre.session_handle == Some(s)
                    } else {
                        &&& post.state is Ready
                        &&& post.session_handle == pre.session_handle
                        &&& post.pending_node_id == pre.pending_node_id
                        &&& actions.len() == 1
                        &&& actions[0] == Action::StartCapture {
                            target: CaptureTarget { node_id: Some(node_id), pipewire_fd: None },
                        }
                    }
                } else {
                    post == pre && actions.len() == 0
                },
                SpecDecoded::Denied { status } => {
                    &&& post.state matches NegState::Failed(r) && r matches FailReason::Denied {
                        status: st,
                    } && st == status
                    &&& post.session_handle == pre.session_handle
                    &&& post.pending_node_id == pre.pending_node_id
                    &&& actions.len() == 0
                },
                SpecDecoded::Malformed { error } => {
                    &&& post.state matches NegState::Failed(r) && r matches FailReason::BadPayload {
                        error: e,
                    } && e@ == error
                    &&& post.session_handle == pre.session_handle
                    &&& post.pending_node_id == pre.pending_node_id
                    &&& actions.len() == 0
                },
            }
        }
    }

    /// The caller-chosen constants never change across an event.
    pub open spec fn config_kept(pre: Negotiator, post: Negotiator) -> bool {
        &&& post.handle_token == pre.handle_token
        &&& post.parent_window == pre.parent_window
        &&& post.use_remote_fd == pre.use_remote_fd
    }

    /// A fresh negotiator, before any call is issued.
    pub fn new(handle_token: String, parent_window: String, use_remote_fd: bool) -> (r: Negotiator)
        ensures
            r.state is Idle,
            r.session_handle is None,
            r.pending_node_id is None,
            r.handle_token == handle_token,
            r.parent_window == parent_window,
            r.use_remote_fd == use_remote_fd,
            r.wf(),
    {
        Negotiator {
            state: NegState::Idle,
            session_handle: None,
            handle_token,
            parent_window,
            use_remote_fd,
            pending_node_id: None,
        }
    }

    /// Issues the opening step: the session-create call, carrying the
    /// request token both as handle token and as session-handle token.
    /// The machine advances immediately; it does not wait for the reply.
    pub fn begin(&mut self) -> (a: Action)
        requires
            old(self).state is Idle,
            old(self).wf(),
        ensures
            final(self).state is AwaitingSessionHandle,
            final(self).session_handle is None,
            final(self).pending_node_id == old(self).pending_node_id,
            Self::config_kept(*old(self), *final(self)),
            final(self).wf(),
            a == (Action::CreateSession {
                handle_token: old(self).handle_token,
                session_handle_token: old(self).handle_token,
            }),
    {
        self.state = NegState::AwaitingSessionHandle;
        Action::CreateSession {
            handle_token: self.handle_token.clone(),
            session_handle_token: self.handle_token.clone(),
        }
    }

    /// Advances the machine on one decoded response.  In a quiescent
    /// state, or on a response that carries nothing to act on, nothing
    /// changes and nothing is emitted; the session handle, once set, is
    /// never overwritten.
    pub fn on_response(&mut self, resp: DecodedResponse) -> (actions: Vec<Action>)
        requires
            old(self).wf(),
        ensures
            final(self).wf(),
            Self::config_kept(*old(self), *final(self)),
            old(self).session_handle is Some ==> final(self).session_handle == old(
                self,
            ).session_handle,
            Self::spec_step(*old(self), *final(self), resp@, actions@),
    {
        let awaiting = match self.state {
            NegState::AwaitingSessionHandle => true,
            NegState::AwaitingSources => true,
            NegState::AwaitingStreams => true,
            NegState::AwaitingRemoteFd => true,
            _ => false,
        };
        if !awaiting {
            return Vec::new();
        }
        match resp {
            DecodedResponse::Ignored => Vec::new(),
            DecodedResponse::SessionCreated { session_handle } => {
                match self.state {
                    NegState::AwaitingSessionHandle => {
                        let mut actions: Vec<Action> = Vec::new();
                        actions.push(Action::SelectSources {
                            session_handle: session_handle.clone(),
                            handle_token: self.handle_token.clone(),
                        });
                        actions.push(Action::Start {
                            session_handle: session_handle.clone(),
                            parent_window: self.parent_window.clone(),
                            handle_token: self.handle_token.clone(),
                        });
                        self.session_handle = Some(session_handle);
                        self.state = NegState::AwaitingSources;
                        actions
                    },
                    _ => Vec::new(),
                }
            },
            DecodedResponse::StreamsReady { node_id } => {
                match self.state {
                    NegState::AwaitingSources | NegState::AwaitingStreams => {
                        if self.use_remote_fd {
                            let handle = match &self.session_handle {
                                Some(h) => h.clone(),
                                None => {
                                    proof {
                                        assert(false);
                                    }
                                    return Vec::new();
                                },
                            };
                            self.pending_node_id = Some(node_id);
                            self.state = NegState::AwaitingRemoteFd;
                            let mut actions: Vec<Action> = Vec::new();
                            actions.push(Action::OpenPipeWireRemote { session_handle: handle });
                            actions
                        } else {
                            self.state = NegState::Ready;
                            let mut actions: Vec<Action> = Vec::new();
                            actions.push(Action::StartCapture {
                                target: CaptureTarget {
                                    node_id: Some(node_id),
                                    pipewire_fd: None,
                                },
                            });
                            actions
                        }
                    },
                    _ => Vec::new(),
                }
            },
            DecodedResponse::Denied { status } => {
                self.state = NegState::Failed(FailReason::Denied { status });
                Vec::new()
            },
            DecodedResponse::Malformed { error } => {
                self.state = NegState::Failed(FailReason::BadPayload { error });
                Vec::new()
            },
        }
    }

    /// Marks the source-selection and start calls as issued.  The advance
    /// from awaiting sources to awaiting streams is implicit: the
    /// source-selection confirmation carries no data this design needs, so
    /// no payload is waited for and the next awaited signal is the
    /// streams-bearing one.  In any other state this changes nothing.
    pub fn calls_issued(&mut self)
        requires
            old(self).wf(),
        ensures
            final(self).wf(),
            Self::config_kept(*old(self), *final(self)),
            final(self).session_handle == old(self).session_handle,
            final(self).pending_node_id == old(self).pending_node_id,
            old(self).state is AwaitingSources ==> final(self).state is AwaitingStreams,
            !(old(self).state is AwaitingSources) ==> *final(self) == *old(self),
    {
        match self.state {
            NegState::AwaitingSources => {
                self.state = NegState::AwaitingStreams;
            },
            _ => {},
        }
    }

    /// Decodes one response signal and advances on it: the composition of
    /// [`decode_signal`] and [`Self::on_response`].
    pub fn on_signal(&mut self, status: u32, results: &Value) -> (actions: Vec<Action>)
        requires
            old(self).wf(),
        ensures
            final(self).wf(),
            Self::config_kept(*old(self), *final(self)),
            old(self).session_handle is Some ==> final(self).session_handle == old(
                self,
            ).session_handle,
            Self::spec_step(*old(self), *final(self), spec_decode(status, *results), actions@),
    {
        let resp = decode_signal(status, results);
        self.on_response(resp)
    }

    /// Feeds back the descriptor the remote-core call returned.  Only
    /// meaningful while one is awaited; then capture is handed the held
    /// node identifier together with the descriptor, exactly once.
    pub fn on_remote_fd(&mut self, fd: i32) -> (actions: Vec<Action>)
        requires
            old(self).wf(),
            fd >= 0,
        ensures
            final(self).wf(),
            Self::config_kept(*old(self), *final(self)),
            final(self).session_handle == old(self).session_handle,
            old(self).state is AwaitingRemoteFd ==> {
                &&& final(self).state is Ready
                &&& actions@.len() == 1
                &&& (old(self).pending_node_id matches Some(id) ==> actions@[0]
                    == (Action::StartCapture {
                    target: CaptureTarget { node_id: Some(id), pipewire_fd: Some(fd) },
                }))
            },
            !(old(self).state is AwaitingRemoteFd) ==> *final(self) == *old(self) && actions@.len()
                == 0,
    {
        match self.state {
            NegState::AwaitingRemoteFd => {
                let node_id = match self.pending_node_id {
                    Some(id) => id,
                    None => {
                        proof {
                            assert(false);
                        }
                        return Vec::new();
                    },
                };
                self.state = NegState::Ready;
                let mut actions: Vec<Action> = Vec::new();
                actions.push(Action::StartCapture {
                    target: CaptureTarget { node_id: Some(node_id), pipewire_fd: Some(fd) },
                });
                actions
            },
            _ => Vec::new(),
        }
    }
}

} // verus!
