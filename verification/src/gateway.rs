//! The gateway protocol adapter: a bot client over a persistent
//! bidirectional text-message connection.
//!
//! The adapter is a state machine fed one inbound item at a time. The
//! transport itself (connecting, reading, writing, closing) lives outside
//! this crate; it hands every inbound text to [`GatewaySession::on_text`]
//! and performs the [`GatewayAction`]s that come back: writing frames,
//! yielding content snapshots or errors to the consumer, or tearing the
//! connection down.
//!
//! A session walks the phases challenge -> hello -> streaming: the server
//! opens with a `connect.challenge` event, answered by a `connect`
//! request; a `hello-ok` response is answered by an `agent` request
//! carrying the user's latest turn; after that, agent events accumulate
//! content, and every snapshot yielded is cumulative. A response with
//! `ok=false` or an `agent.error` event ends the session with a
//! `Response` error; unrecognized events are ignored for forward
//! compatibility.

use vstd::prelude::*;
use vstd::string::StringExecFns;

use crate::client::{ClientError, ClientErrorKind};
use crate::json::{build_request, json_quote, quoted, request_envelope};
use crate::jsonval::{json_as_array, json_as_bool, json_as_str, json_get, json_to_text, parse_json};
use crate::model::{Bot, BotCapabilities, BotId, EntityAvatar, EntityIdV, Message, MessageContent,
    MessageContentV, MessageV};

verus! {

/// Relies on uuid::Uuid::new_v4 and its hyphenated Display form: a fresh
/// random request id. Nothing is promised of the result: it is random.
#[verifier::external_body]
fn fresh_request_id() -> String {
    uuid::Uuid::new_v4().to_string()
}

/// Where a session stands in the connect-then-stream sub-protocol.
#[derive(Clone, Copy, Debug, PartialEq, Eq, Structural)]
pub enum GatewayPhase {
    /// Waiting for the server's `connect.challenge` event.
    AwaitChallenge,
    /// The connect request is out; waiting for the `hello-ok` response.
    AwaitHello,
    /// The agent request is out; inbound events carry content.
    Streaming,
    /// The session is over; nothing further is acted on.
    Closed,
}

/// The mathematical view of a [`GatewayEvent`].
pub struct GatewayEventV {
    pub name: Seq<char>,
    pub text: Option<Seq<char>>,
    pub delta: Option<Seq<char>>,
    pub data_delta: Option<Seq<char>>,
    pub state: Option<Seq<char>>,
}

/// A server-initiated event, reduced to the fields the protocol reads:
/// the event name, the payload's `text`, `delta` and `state` members, and
/// the `delta` member of the payload's `data` object.
#[derive(Debug)]
pub struct GatewayEvent {
    pub name: String,
    pub text: Option<String>,
    pub delta: Option<String>,
    pub data_delta: Option<String>,
    pub state: Option<String>,
}

impl View for GatewayEvent {
    type V = GatewayEventV;

    open spec fn view(&self) -> GatewayEventV {
        GatewayEventV {
            name: self.name@,
            text: self.text.deep_view(),
            delta: self.delta.deep_view(),
            data_delta: self.data_delta.deep_view(),
            state: self.state.deep_view(),
        }
    }
}

/// The mathematical view of a [`GatewayResponse`].
pub struct GatewayResponseV {
    pub ok: bool,
    pub payload_type: Option<Seq<char>>,
    pub status: Option<Seq<char>>,
    pub has_result: bool,
    pub result_texts: Seq<Seq<char>>,
}

/// A response envelope, reduced to the fields the protocol reads: the
/// `ok` flag, the payload's `type` and `status` markers, and the `text`
/// members of `payload.result.payloads[]` when that array is present.
#[derive(Debug)]
pub struct GatewayResponse {
    pub ok: bool,
    pub error_text: Option<String>,
    pub payload_type: Option<String>,
    pub status: Option<String>,
    pub has_result: bool,
    pub result_texts: Vec<String>,
}

impl View for GatewayResponse {
    type V = GatewayResponseV;

    open spec fn view(&self) -> GatewayResponseV {
        GatewayResponseV {
            ok: self.ok,
            payload_type: self.payload_type.deep_view(),
            status: self.status.deep_view(),
            has_result: self.has_result,
            result_texts: self.result_texts.deep_view(),
        }
    }
}

/// The mathematical view of a [`GatewayIncoming`].
pub enum GatewayIncomingV {
    Event(GatewayEventV),
    Response(GatewayResponseV),
    Ignored,
}

/// One inbound text message, classified. Anything unparseable or of an
/// unrecognized envelope type is `Ignored`.
#[derive(Debug)]
pub enum GatewayIncoming {
    Event(GatewayEvent),
    Response(GatewayResponse),
    Ignored,
}

impl View for GatewayIncoming {
    type V = GatewayIncomingV;

    open spec fn view(&self) -> GatewayIncomingV {
        match self {
            GatewayIncoming::Event(e) => GatewayIncomingV::Event(e@),
            GatewayIncoming::Response(r) => GatewayIncomingV::Response(r@),
            GatewayIncoming::Ignored => GatewayIncomingV::Ignored,
        }
    }
}

/// What one protocol step asks the surrounding transport loop to do, in
/// order.
#[derive(Debug)]
pub enum GatewayAction {
    /// Write this text frame on the transport.
    SendFrame(String),
    /// Hand the consumer the full accumulated content so far.
    YieldContent(MessageContent),
    /// Hand the consumer a failure; the stream is over.
    YieldError(ClientError),
    /// The stream completed; release the transport.
    EndOfStream,
}

/// The abstract counterpart of a [`GatewayAction`], as the transition
/// function speaks of it. Frame texts are pinned separately (they embed a
/// fresh random request id); error messages are advisory and only their
/// kind is pinned.
pub enum GwEffect {
    SendConnect,
    SendAgent,
    Content(Seq<char>),
    Failure(ClientErrorKind),
    End,
}

/// The outcome of one abstract protocol step.
pub struct GwStep {
    pub phase: GatewayPhase,
    pub text: Seq<char>,
    pub effects: Seq<GwEffect>,
}

/// A step that changes nothing and emits nothing.
pub open spec fn gw_stay(phase: GatewayPhase, text: Seq<char>) -> GwStep {
    GwStep { phase, text, effects: Seq::empty() }
}

/// All result payload texts, concatenated in order.
pub open spec fn joined(ts: Seq<Seq<char>>) -> Seq<char>
    decreases ts.len(),
{
    if ts.len() == 0 {
        Seq::empty()
    } else {
        ts.first() + joined(ts.drop_first())
    }
}

/// The transition of a streaming session on one classified inbound item.
pub open spec fn gw_step(phase: GatewayPhase, text: Seq<char>, ev: GatewayIncomingV) -> GwStep {
    match phase {
        GatewayPhase::AwaitChallenge => match ev {
            GatewayIncomingV::Event(e) => if e.name == "connect.challenge"@ {
                GwStep { phase: GatewayPhase::AwaitHello, text, effects: seq![GwEffect::SendConnect] }
            } else {
                gw_stay(phase, text)
            },
            GatewayIncomingV::Response(r) => if !r.ok {
                gw_fail(text, ClientErrorKind::Response)
            } else {
                gw_stay(phase, text)
            },
            GatewayIncomingV::Ignored => gw_stay(phase, text),
        },
        GatewayPhase::AwaitHello => match ev {
            GatewayIncomingV::Response(r) => if !r.ok {
                gw_fail(text, ClientErrorKind::Response)
            } else if r.payload_type == Option::Some("hello-ok"@) {
                GwStep { phase: GatewayPhase::Streaming, text, effects: seq![GwEffect::SendAgent] }
            } else {
                gw_stay(phase, text)
            },
            _ => gw_stay(phase, text),
        },
        GatewayPhase::Streaming => match ev {
            GatewayIncomingV::Event(e) => gw_streaming_event(text, e),
            GatewayIncomingV::Response(r) => gw_streaming_response(text, r),
            GatewayIncomingV::Ignored => gw_stay(phase, text),
        },
        GatewayPhase::Closed => gw_stay(phase, text),
    }
}

/// A step that ends the session with an error of the given kind.
pub open spec fn gw_fail(text: Seq<char>, kind: ClientErrorKind) -> GwStep {
    GwStep { phase: GatewayPhase::Closed, text, effects: seq![GwEffect::Failure(kind)] }
}

/// A step that replaces the accumulated text with a new cumulative
/// snapshot and yields it.
pub open spec fn gw_snapshot(text: Seq<char>) -> GwStep {
    GwStep { phase: GatewayPhase::Streaming, text, effects: seq![GwEffect::Content(text)] }
}

/// The transition on a server event while streaming.
pub open spec fn gw_streaming_event(text: Seq<char>, e: GatewayEventV) -> GwStep {
    if e.name == "agent.text"@ || e.name == "agent.content"@ {
        match e.text {
            Option::Some(t) => gw_snapshot(t),
            Option::None => gw_stay(GatewayPhase::Streaming, text),
        }
    } else if e.name == "agent.text.delta"@ || e.name == "agent.content.delta"@ {
        match e.delta {
            Option::Some(d) => gw_snapshot(text + d),
            Option::None => match e.text {
                Option::Some(t) => gw_snapshot(text + t),
                Option::None => gw_stay(GatewayPhase::Streaming, text),
            },
        }
    } else if e.name == "agent.done"@ || e.name == "agent.complete"@ || e.name == "agent.end"@ {
        GwStep {
            phase: GatewayPhase::Closed,
            text,
            effects: seq![GwEffect::Content(text), GwEffect::End],
        }
    } else if e.name == "agent.error"@ {
        gw_fail(text, ClientErrorKind::Response)
    } else if e.name == "agent"@ {
        match e.data_delta {
            Option::Some(d) => gw_snapshot(text + d),
            Option::None => gw_stay(GatewayPhase::Streaming, text),
        }
    } else if e.name == "chat"@ {
        match e.state {
            Option::Some(st) => if st == "done"@ || st == "complete"@ {
                GwStep {
                    phase: GatewayPhase::Closed,
                    text,
                    effects: seq![GwEffect::Content(text), GwEffect::End],
                }
            } else {
                gw_stay(GatewayPhase::Streaming, text)
            },
            Option::None => gw_stay(GatewayPhase::Streaming, text),
        }
    } else {
        gw_stay(GatewayPhase::Streaming, text)
    }
}

/// The transition on a response envelope while streaming.
pub open spec fn gw_streaming_response(text: Seq<char>, r: GatewayResponseV) -> GwStep {
    if !r.ok {
        gw_fail(text, ClientErrorKind::Response)
    } else if (r.status == Option::Some("ok"@) || r.status == Option::Some("completed"@))
        && r.has_result {
        let full = text + joined(r.result_texts);
        if full.len() > 0 {
            GwStep {
                phase: GatewayPhase::Closed,
                text: full,
                effects: seq![GwEffect::Content(full), GwEffect::End],
            }
        } else {
            gw_stay(GatewayPhase::Streaming, full)
        }
    } else {
        gw_stay(GatewayPhase::Streaming, text)
    }
}

/// The transition when the transport closes cleanly.
pub open spec fn gw_closed(phase: GatewayPhase, text: Seq<char>) -> GwStep {
    if phase is Closed {
        gw_stay(phase, text)
    } else {
        GwStep { phase: GatewayPhase::Closed, text, effects: seq![GwEffect::End] }
    }
}

/// The transition when the transport fails.
pub open spec fn gw_transport_failed(phase: GatewayPhase, text: Seq<char>) -> GwStep {
    if phase is Closed {
        gw_stay(phase, text)
    } else {
        gw_fail(text, ClientErrorKind::Network)
    }
}

/// The exact text of the connect request's parameter object: fixed
/// protocol bounds, role, scopes and client identity, and the bearer
/// token when one is set.
pub open spec fn connect_params_text(token: Option<Seq<char>>) -> Seq<char> {
    "{\"minProtocol\":3,\"maxProtocol\":3,\"role\":\"operator\",\"scopes\":[\"operator.read\",\"operator.write\"],\"client\":{\"id\":\"gateway-client\",\"version\":\"1.0.0\",\"platform\":\"desktop\",\"mode\":\"cli\"}"@
        + (match token {
        Option::None => Seq::<char>::empty(),
        Option::Some(t) => ",\"auth\":{\"token\":"@ + quoted(t) + "}"@,
    }) + "}"@
}

/// The exact text of the agent request's parameter object: the user's
/// message, an idempotency key, and the fixed agent id.
pub open spec fn agent_params_text(message: Seq<char>, key: Seq<char>) -> Seq<char> {
    "{\"message\":"@ + quoted(message) + ",\"idempotencyKey\":"@ + quoted(key)
        + ",\"agentId\":\"main\"}"@
}

/// Whether one performed action realizes one abstract effect. Frames
/// embed a fresh random request id (and, for the agent request, a fresh
/// idempotency key), so they are pinned up to those.
pub open spec fn effect_matches(
    a: GatewayAction,
    e: GwEffect,
    prompt: Seq<char>,
    token: Option<Seq<char>>,
) -> bool {
    match e {
        GwEffect::SendConnect => a matches GatewayAction::SendFrame(f) && (exists|id: Seq<char>|
            f@ == request_envelope(id, "connect"@, connect_params_text(token))),
        GwEffect::SendAgent => a matches GatewayAction::SendFrame(f) && (exists|
            id: Seq<char>,
            key: Seq<char>,
        |
            f@ == request_envelope(id, "agent"@, agent_params_text(prompt, key))),
        GwEffect::Content(t) => a matches GatewayAction::YieldContent(c) && c@
            == MessageContentV::of_text(t),
        GwEffect::Failure(kind) => a matches GatewayAction::YieldError(err) && err.kind == kind,
        GwEffect::End => a is EndOfStream,
    }
}

/// Whether a list of performed actions realizes a list of abstract
/// effects, one for one and in order.
pub open spec fn actions_match(
    acts: Seq<GatewayAction>,
    effects: Seq<GwEffect>,
    prompt: Seq<char>,
    token: Option<Seq<char>>,
) -> bool {
    acts.len() == effects.len() && (forall|i: int|
        0 <= i < acts.len() ==> effect_matches(#[trigger] acts[i], effects[i], prompt, token))
}

/// The mathematical view of a [`GatewaySession`].
pub struct GatewaySessionV {
    pub phase: GatewayPhase,
    pub text: Seq<char>,
    pub prompt: Seq<char>,
    pub token: Option<Seq<char>>,
}

/// One `send` call's protocol state: the phase, the accumulated content
/// text, the user turn to submit, and the bearer token to present.
#[derive(Debug)]
pub struct GatewaySession {
    phase: GatewayPhase,
    text: String,
    prompt: String,
    token: Option<String>,
}

impl View for GatewaySession {
    type V = GatewaySessionV;

    closed spec fn view(&self) -> GatewaySessionV {
        GatewaySessionV {
            phase: self.phase,
            text: self.text@,
            prompt: self.prompt@,
            token: self.token.deep_view(),
        }
    }
}

impl GatewaySession {
    /// A fresh session, before the server's challenge, carrying the
    /// user's turn and the token to present.
    pub fn new(prompt: String, token: Option<String>) -> (s: GatewaySession)
        ensures
            s@ == (GatewaySessionV {
                phase: GatewayPhase::AwaitChallenge,
                text: Seq::empty(),
                prompt: prompt@,
                token: token.deep_view(),
            }),
    {
        GatewaySession { phase: GatewayPhase::AwaitChallenge, text: String::new(), prompt, token }
    }

    /// The phase the session stands in.
    pub fn phase(&self) -> (p: GatewayPhase)
        ensures
            p == self@.phase,
    {
        self.phase
    }

    /// Feed one inbound transport text: classify it, take the protocol
    /// step, and return the actions to perform, in order. The step taken
    /// is the one for whatever the text classified as; every possible
    /// classification is covered by the transition function.
    pub fn on_text(&mut self, text: &str) -> (acts: Vec<GatewayAction>)
        ensures
            exists|ev: GatewayIncomingV| step_performed(*old(self), *final(self), acts@, ev),
    {
        let ev = classify_incoming(text);
        self.on_event(&ev)
    }

    /// Feed the clean close of the transport.
    pub fn on_close(&mut self) -> (acts: Vec<GatewayAction>)
        ensures
            ({
                let r = gw_closed(old(self)@.phase, old(self)@.text);
                &&& final(self)@ == (GatewaySessionV { phase: r.phase, text: r.text, ..old(self)@ })
                &&& actions_match(acts@, r.effects, old(self)@.prompt, old(self)@.token)
            }),
    {
        let mut acts: Vec<GatewayAction> = Vec::new();
        if !matches!(self.phase, GatewayPhase::Closed) {
            self.phase = GatewayPhase::Closed;
            acts.push(GatewayAction::EndOfStream);
            proof {
                let r = gw_closed(old(self)@.phase, old(self)@.text);
                assert(acts@ =~= seq![GatewayAction::EndOfStream]);
                assert(actions_match(acts@, r.effects, old(self)@.prompt, old(self)@.token));
            }
        } else {
            proof {
                let r = gw_closed(old(self)@.phase, old(self)@.text);
                assert(acts@ =~= Seq::<GatewayAction>::empty());
                assert(actions_match(acts@, r.effects, old(self)@.prompt, old(self)@.token));
            }
        }
        acts
    }

    /// Feed a transport-level failure.
    pub fn on_transport_error(&mut self, message: String) -> (acts: Vec<GatewayAction>)
        ensures
            ({
                let r = gw_transport_failed(old(self)@.phase, old(self)@.text);
                &&& final(self)@ == (GatewaySessionV { phase: r.phase, text: r.text, ..old(self)@ })
                &&& actions_match(acts@, r.effects, old(self)@.prompt, old(self)@.token)
            }),
    {
        let mut acts: Vec<GatewayAction> = Vec::new();
        if !matches!(self.phase, GatewayPhase::Closed) {
            self.phase = GatewayPhase::Closed;
            acts.push(GatewayAction::YieldError(ClientError::new(
                ClientErrorKind::Network,
                message,
            )));
            proof {
                let r = gw_transport_failed(old(self)@.phase, old(self)@.text);
                assert(acts@.len() == 1);
                assert(effect_matches(acts@[0], r.effects[0], old(self)@.prompt, old(self)@.token));
            }
        } else {
            proof {
                let r = gw_transport_failed(old(self)@.phase, old(self)@.text);
                assert(acts@ =~= Seq::<GatewayAction>::empty());
            }
        }
        acts
    }

    /// Take the protocol step for one classified inbound item and return
    /// the actions to perform, in order.
    pub fn on_event(&mut self, ev: &GatewayIncoming) -> (acts: Vec<GatewayAction>)
        ensures
            step_performed(*old(self), *final(self), acts@, ev@),
    {
        match ev {
            GatewayIncoming::Ignored => Vec::new(),
            GatewayIncoming::Event(e) => self.on_server_event(e),
            GatewayIncoming::Response(r) => self.on_response(r),
        }
    }

    fn on_server_event(&mut self, e: &GatewayEvent) -> (acts: Vec<GatewayAction>)
        ensures
            step_performed(
                *old(self),
                *final(self),
                acts@,
                GatewayIncomingV::Event(e@),
            ),
    {
        match self.phase {
            GatewayPhase::AwaitChallenge => {
                let mut acts: Vec<GatewayAction> = Vec::new();
                if str_eq(&e.name, "connect.challenge") {
                    let frame = self.connect_frame();
                    self.phase = GatewayPhase::AwaitHello;
                    acts.push(GatewayAction::SendFrame(frame));
                    proof {
                        assert(acts@ =~= seq![acts@[0]]);
                        assert(effect_matches(
                            acts@[0],
                            GwEffect::SendConnect,
                            old(self)@.prompt,
                            old(self)@.token,
                        ));
                    }
                }
                acts
            }
            GatewayPhase::AwaitHello => {
                Vec::new()
            }
            GatewayPhase::Streaming => self.on_streaming_event(e),
            GatewayPhase::Closed => Vec::new(),
        }
    }

    fn on_streaming_event(&mut self, e: &GatewayEvent) -> (acts: Vec<GatewayAction>)
        requires
            old(self)@.phase is Streaming,
        ensures
            step_performed(
                *old(self),
                *final(self),
                acts@,
                GatewayIncomingV::Event(e@),
            ),
    {
        let mut acts: Vec<GatewayAction> = Vec::new();
        if str_eq(&e.name, "agent.text") || str_eq(&e.name, "agent.content") {
            if let Some(t) = &e.text {
                self.text = t.clone();
                acts.push(GatewayAction::YieldContent(MessageContent::from_text(t.clone())));
                proof {
                    assert(acts@ =~= seq![acts@[0]]);
                }
            }
        } else if str_eq(&e.name, "agent.text.delta") || str_eq(&e.name, "agent.content.delta") {
            if let Some(d) = &e.delta {
                self.text.append(d.as_str());
                acts.push(GatewayAction::YieldContent(MessageContent::from_text(
                    self.text.clone(),
                )));
                proof {
                    assert(acts@ =~= seq![acts@[0]]);
                }
            } else if let Some(t) = &e.text {
                self.text.append(t.as_str());
                acts.push(GatewayAction::YieldContent(MessageContent::from_text(
                    self.text.clone(),
                )));
                proof {
                    assert(acts@ =~= seq![acts@[0]]);
                }
            }
        } else if str_eq(&e.name, "agent.done") || str_eq(&e.name, "agent.complete") || str_eq(
            &e.name,
            "agent.end",
        ) {
            self.phase = GatewayPhase::Closed;
            acts.push(GatewayAction::YieldContent(MessageContent::from_text(self.text.clone())));
            acts.push(GatewayAction::EndOfStream);
            proof {
                assert(acts@ =~= seq![acts@[0], acts@[1]]);
            }
        } else if str_eq(&e.name, "agent.error") {
            self.phase = GatewayPhase::Closed;
            acts.push(GatewayAction::YieldError(ClientError::new(
                ClientErrorKind::Response,
                backend_error_message(),
            )));
            proof {
                assert(acts@ =~= seq![acts@[0]]);
            }
        } else if str_eq(&e.name, "agent") {
            if let Some(d) = &e.data_delta {
                self.text.append(d.as_str());
                acts.push(GatewayAction::YieldContent(MessageContent::from_text(
                    self.text.clone(),
                )));
                proof {
                    assert(acts@ =~= seq![acts@[0]]);
                }
            }
        } else if str_eq(&e.name, "chat") {
            if let Some(st) = &e.state {
                if str_eq(st, "done") || str_eq(st, "complete") {
                    self.phase = GatewayPhase::Closed;
                    acts.push(GatewayAction::YieldContent(MessageContent::from_text(
                        self.text.clone(),
                    )));
                    acts.push(GatewayAction::EndOfStream);
                    proof {
                        assert(acts@ =~= seq![acts@[0], acts@[1]]);
                    }
                }
            }
        }
        acts
    }

    fn on_response(&mut self, r: &GatewayResponse) -> (acts: Vec<GatewayAction>)
        ensures
            step_performed(
                *old(self),
                *final(self),
                acts@,
                GatewayIncomingV::Response(r@),
            ),
    {
        let mut acts: Vec<GatewayAction> = Vec::new();
        match self.phase {
            GatewayPhase::Closed => {}
            GatewayPhase::AwaitChallenge => {
                if !r.ok {
                    self.phase = GatewayPhase::Closed;
                    acts.push(GatewayAction::YieldError(ClientError::new(
                        ClientErrorKind::Response,
                        response_error_message(&r.error_text),
                    )));
                    proof {
                        assert(acts@ =~= seq![acts@[0]]);
                    }
                }
            }
            GatewayPhase::AwaitHello => {
                if !r.ok {
                    self.phase = GatewayPhase::Closed;
                    acts.push(GatewayAction::YieldError(ClientError::new(
                        ClientErrorKind::Response,
                        response_error_message(&r.error_text),
                    )));
                    proof {
                        assert(acts@ =~= seq![acts@[0]]);
                    }
                } else {
                    let is_hello = match &r.payload_type {
                        Some(t) => str_eq(t, "hello-ok"),
                        None => false,
                    };
                    if is_hello {
                        let frame = self.agent_frame();
                        self.phase = GatewayPhase::Streaming;
                        acts.push(GatewayAction::SendFrame(frame));
                        proof {
                            assert(acts@ =~= seq![acts@[0]]);
                            assert(effect_matches(
                                acts@[0],
                                GwEffect::SendAgent,
                                old(self)@.prompt,
                                old(self)@.token,
                            ));
                        }
                    }
                }
            }
            GatewayPhase::Streaming => {
                if !r.ok {
                    self.phase = GatewayPhase::Closed;
                    acts.push(GatewayAction::YieldError(ClientError::new(
                        ClientErrorKind::Response,
                        response_error_message(&r.error_text),
                    )));
                    proof {
                        assert(acts@ =~= seq![acts@[0]]);
                    }
                } else {
                    let status_done = match &r.status {
                        Some(st) => str_eq(st, "ok") || str_eq(st, "completed"),
                        None => false,
                    };
                    if status_done && r.has_result {
                        append_all(&mut self.text, &r.result_texts);
                        if self.text.as_str().unicode_len() > 0 {
                            self.phase = GatewayPhase::Closed;
                            acts.push(GatewayAction::YieldContent(MessageContent::from_text(
                                self.text.clone(),
                            )));
                            acts.push(GatewayAction::EndOfStream);
                            proof {
                                assert(acts@ =~= seq![acts@[0], acts@[1]]);
                            }
                        }
                    }
                }
            }
        }
        acts
    }

    /// Build the connect request frame for this session's token.
    fn connect_frame(&self) -> (frame: String)
        ensures
            exists|id: Seq<char>|
                frame@ == request_envelope(id, "connect"@, connect_params_text(self@.token)),
    {
        let id = fresh_request_id();
        let params = connect_params_json(&self.token);
        let frame = build_request(id.as_str(), "connect", params.as_str());
        proof {
            let idv = id@;
            assert(frame@ == request_envelope(idv, "connect"@, connect_params_text(self@.token)));
        }
        frame
    }

    /// Build the agent request frame carrying this session's prompt and a
    /// fresh idempotency key.
    fn agent_frame(&self) -> (frame: String)
        ensures
            exists|id: Seq<char>, key: Seq<char>|
                frame@ == request_envelope(id, "agent"@, agent_params_text(self@.prompt, key)),
    {
        let id = fresh_request_id();
        let key = fresh_request_id();
        let params = agent_params_json(self.prompt.as_str(), key.as_str());
        let frame = build_request(id.as_str(), "agent", params.as_str());
        proof {
            let idv = id@;
            let keyv = key@;
            assert(frame@ == request_envelope(idv, "agent"@, agent_params_text(self@.prompt, keyv)));
        }
        frame
    }
}

/// Whether moving `pre` to `post` while performing `acts` is exactly the
/// abstract step on `ev`: the phase and accumulated text move as the
/// transition function says, the prompt and token stay, and the actions
/// realize the step's effects one for one.
pub open spec fn step_performed(
    pre: GatewaySession,
    post: GatewaySession,
    acts: Seq<GatewayAction>,
    ev: GatewayIncomingV,
) -> bool {
    let r = gw_step(pre@.phase, pre@.text, ev);
    &&& post@ == (GatewaySessionV { phase: r.phase, text: r.text, ..pre@ })
    &&& actions_match(acts, r.effects, pre@.prompt, pre@.token)
}

/// Classify one inbound transport text: parse it as JSON and reduce it
/// to the plain fields the protocol reads. Malformed or unrecognized
/// texts are `Ignored`. Nothing further is pinned here: the fields are
/// read from an opaque parsed value, and the protocol step handles every
/// possible answer.
pub fn classify_incoming(text: &str) -> (r: GatewayIncoming) {
    let v = match parse_json(text) {
        Some(v) => v,
        None => {
            return GatewayIncoming::Ignored;
        }
    };
    let msg_type = match json_get(&v, "type") {
        Some(t) => match json_as_str(t) {
            Some(s) => s.to_owned(),
            None => String::new(),
        },
        None => String::new(),
    };
    if str_eq(&msg_type, "event") {
        let name = match json_get(&v, "event") {
            Some(e) => match json_as_str(e) {
                Some(s) => s.to_owned(),
                None => String::new(),
            },
            None => String::new(),
        };
        let payload = json_get(&v, "payload");
        let text_field = payload_str(&payload, "text");
        let delta = payload_str(&payload, "delta");
        let state = payload_str(&payload, "state");
        let data_delta = match &payload {
            Some(p) => match json_get(p, "data") {
                Some(d) => match json_get(d, "delta") {
                    Some(dd) => match json_as_str(dd) {
                        Some(s) => Some(s.to_owned()),
                        None => None,
                    },
                    None => None,
                },
                None => None,
            },
            None => None,
        };
        GatewayIncoming::Event(GatewayEvent { name, text: text_field, delta, data_delta, state })
    } else if str_eq(&msg_type, "res") {
        let ok = match json_get(&v, "ok") {
            Some(o) => match json_as_bool(o) {
                Some(b) => b,
                None => false,
            },
            None => false,
        };
        let error_text = match json_get(&v, "error") {
            Some(e) => Some(json_to_text(e)),
            None => None,
        };
        let payload = json_get(&v, "payload");
        let payload_type = payload_str(&payload, "type");
        let status = payload_str(&payload, "status");
        let mut has_result = false;
        let mut result_texts: Vec<String> = Vec::new();
        if let Some(p) = &payload {
            if let Some(result) = json_get(p, "result") {
                if let Some(payloads) = json_get(result, "payloads") {
                    if let Some(arr) = json_as_array(payloads) {
                        has_result = true;
                        let mut i: usize = 0;
                        while i < arr.len()
                            decreases arr.len() - i,
                        {
                            if let Some(t) = json_get(&arr[i], "text") {
                                if let Some(s) = json_as_str(t) {
                                    result_texts.push(s.to_owned());
                                }
                            }
                            i += 1;
                        }
                    }
                }
            }
        }
        GatewayIncoming::Response(GatewayResponse {
            ok,
            error_text,
            payload_type,
            status,
            has_result,
            result_texts,
        })
    } else {
        GatewayIncoming::Ignored
    }
}

/// Read a string member of the payload object, when there is one.
fn payload_str(payload: &Option<&serde_json::Value>, key: &str) -> Option<String> {
    match payload {
        Some(p) => match json_get(p, key) {
            Some(t) => match json_as_str(t) {
                Some(s) => Some(s.to_owned()),
                None => None,
            },
            None => None,
        },
        None => None,
    }
}

/// Whether two texts are the same sequence of characters.
pub fn str_eq(a: &String, b: &str) -> (r: bool)
    ensures
        r == (a@ == b@),
{
    *a == b.to_owned()
}

/// Append every text of `parts` to `acc`, in order.
fn append_all(acc: &mut String, parts: &Vec<String>)
    ensures
        final(acc)@ == old(acc)@ + joined(parts.deep_view()),
{
    let ghost acc0 = acc@;
    let mut i: usize = 0;
    proof {
        assert(parts.deep_view().take(0) =~= Seq::<Seq<char>>::empty());
        assert(acc@ =~= acc0 + joined(parts.deep_view().take(0)));
    }
    while i < parts.len()
        invariant
            i <= parts.len(),
            acc@ == acc0 + joined(parts.deep_view().take(i as int)),
        decreases parts.len() - i,
    {
        acc.append(parts[i].as_str());
        proof {
            lemma_joined_take_step(parts.deep_view(), i as int);
            assert(parts.deep_view()[i as int] == parts@[i as int]@);
            assert((acc0 + joined(parts.deep_view().take(i as int))) + parts.deep_view()[i as int]
                =~= acc0 + joined(parts.deep_view().take(i as int + 1)));
        }
        i += 1;
    }
    proof {
        assert(parts.deep_view().take(parts.deep_view().len() as int) =~= parts.deep_view());
    }
}

proof fn lemma_joined_take_step(ts: Seq<Seq<char>>, i: int)
    requires
        0 <= i < ts.len(),
    ensures
        joined(ts.take(i + 1)) == joined(ts.take(i)) + ts[i],
    decreases i,
{
    if i == 0 {
        assert(ts.take(1).first() == ts[0]);
        assert(ts.take(1).drop_first() =~= Seq::<Seq<char>>::empty());
        assert(joined(Seq::<Seq<char>>::empty()) == Seq::<char>::empty());
        assert(joined(ts.take(0)) == Seq::<char>::empty());
        assert(joined(ts.take(1)) == ts[0] + Seq::<char>::empty());
        assert(ts[0] + Seq::<char>::empty() =~= ts[0]);
        assert(joined(ts.take(0)) + ts[0] =~= ts[0]);
    } else {
        lemma_joined_take_step(ts.drop_first(), i - 1);
        assert(ts.take(i + 1).first() == ts.first());
        assert(ts.take(i + 1).drop_first() =~= ts.drop_first().take(i));
        assert(ts.take(i).first() == ts.first());
        assert(ts.take(i).drop_first() =~= ts.drop_first().take(i - 1));
        assert(ts.drop_first()[i - 1] == ts[i]);
        assert(ts.first() + (joined(ts.drop_first().take(i - 1)) + ts[i]) =~= (ts.first() + joined(
            ts.drop_first().take(i - 1),
        )) + ts[i]);
    }
}

/// The message an ended-by-backend-error stream reports. The exact text
/// is advisory; only the error kind is part of the protocol contract.
fn backend_error_message() -> (r: String)
    ensures
        r@ == "the backend reported an error"@,
{
    "the backend reported an error".to_owned()
}

/// The message a failed response reports: the error the server sent,
/// rendered as JSON text, or a fixed note when it sent none.
fn response_error_message(error_text: &Option<String>) -> (r: String)
    ensures
        error_text matches Some(t) ==> r@ == t@,
        error_text is None ==> r@ == "the backend reported an error"@,
{
    match error_text {
        Some(t) => t.clone(),
        None => backend_error_message(),
    }
}

/// Build the connect request's parameter object for this token.
fn connect_params_json(token: &Option<String>) -> (r: String)
    ensures
        r@ == connect_params_text(token.deep_view()),
{
    let mut r = String::new();
    r.append(
        "{\"minProtocol\":3,\"maxProtocol\":3,\"role\":\"operator\",\"scopes\":[\"operator.read\",\"operator.write\"],\"client\":{\"id\":\"gateway-client\",\"version\":\"1.0.0\",\"platform\":\"desktop\",\"mode\":\"cli\"}",
    );
    if let Some(t) = token {
        r.append(",\"auth\":{\"token\":");
        let q = json_quote(t.as_str());
        r.append(q.as_str());
        r.append("}");
    }
    r.append("}");
    proof {
        assert(r@ =~= connect_params_text(token.deep_view()));
    }
    r
}

/// Build the agent request's parameter object.
fn agent_params_json(message: &str, key: &str) -> (r: String)
    ensures
        r@ == agent_params_text(message@, key@),
{
    let mut r = String::new();
    r.append("{\"message\":");
    let qm = json_quote(message);
    r.append(qm.as_str());
    r.append(",\"idempotencyKey\":");
    let qk = json_quote(key);
    r.append(qk.as_str());
    r.append(",\"agentId\":\"main\"}");
    proof {
        assert(r@ =~= agent_params_text(message@, key@));
    }
    r
}

/// The text of the most recent user-authored message, or the empty text
/// when there is none.
pub open spec fn last_user_text_spec(ms: Seq<MessageV>) -> Seq<char>
    decreases ms.len(),
{
    if ms.len() == 0 {
        Seq::empty()
    } else if ms.last().from is User {
        ms.last().content.text
    } else {
        last_user_text_spec(ms.drop_last())
    }
}

/// The text of the most recent user-authored message of the history, or
/// the empty text when there is none.
pub fn last_user_text(messages: &Vec<Message>) -> (t: String)
    ensures
        t@ == last_user_text_spec(messages.deep_view()),
{
    let mut i: usize = messages.len();
    proof {
        assert(messages.deep_view().take(i as int) =~= messages.deep_view());
    }
    while i > 0
        invariant
            i <= messages.len(),
            last_user_text_spec(messages.deep_view()) == last_user_text_spec(
                messages.deep_view().take(i as int),
            ),
        decreases i,
    {
        i -= 1;
        proof {
            assert(messages.deep_view().take(i as int + 1).last() == messages.deep_view()[i as int]);
            assert(messages.deep_view().take(i as int + 1).drop_last() =~= messages.deep_view().take(
                i as int,
            ));
            assert(messages.deep_view()[i as int] == messages@[i as int]@);
        }
        match &messages[i].from {
            crate::model::EntityId::User => {
                return messages[i].content.text.clone();
            }
            _ => {}
        }
    }
    proof {
        assert(messages.deep_view().take(0) =~= Seq::<MessageV>::empty());
    }
    String::new()
}

/// The mathematical view of an [`OpenClawClient`].
pub struct OpenClawClientV {
    pub url: Seq<char>,
    pub token: Option<Seq<char>>,
}

/// A client for a gateway reachable over a WebSocket URL, optionally
/// presenting a bearer token when connecting.
#[derive(Debug)]
pub struct OpenClawClient {
    url: String,
    token: Option<String>,
}

impl View for OpenClawClient {
    type V = OpenClawClientV;

    closed spec fn view(&self) -> OpenClawClientV {
        OpenClawClientV { url: self.url@, token: self.token.deep_view() }
    }
}

impl Clone for OpenClawClient {
    fn clone(&self) -> (r: Self)
        ensures
            r@ == self@,
    {
        OpenClawClient {
            url: self.url.clone(),
            token: match &self.token {
                Some(t) => Some(t.clone()),
                None => None,
            },
        }
    }
}

impl OpenClawClient {
    /// A client for the gateway at `url` (for example
    /// `ws://127.0.0.1:18789`), with no token set.
    pub fn new(url: String) -> (r: OpenClawClient)
        ensures
            r@ == (OpenClawClientV { url: url@, token: None }),
    {
        OpenClawClient { url, token: None }
    }

    /// Set the bearer token the client presents when connecting.
    pub fn set_key(&mut self, token: &str) -> (r: Result<(), &'static str>)
        ensures
            r is Ok,
            final(self)@ == (OpenClawClientV { token: Some(token@), ..old(self)@ }),
    {
        self.token = Some(token.to_owned());
        Ok(())
    }

    /// The gateway URL this client connects to.
    pub fn url(&self) -> (r: &str)
        ensures
            r@ == self@.url,
    {
        self.url.as_str()
    }

    /// The bots this client exposes: the one gateway assistant, taking
    /// text and attachments.
    pub fn bots(&self) -> (r: Vec<Bot>)
        ensures
            r.deep_view().len() == 1,
            r.deep_view()[0].id == "openclaw/assistant"@,
            r.deep_view()[0].name == "OpenClaw Assistant"@,
            r.deep_view()[0].avatar == "claw"@,
            r.deep_view()[0].capabilities.text_input,
            r.deep_view()[0].capabilities.attachment_input,
    {
        let bot = Bot {
            id: BotId::new("openclaw/assistant"),
            name: "OpenClaw Assistant".to_owned(),
            avatar: EntityAvatar::Text("claw".to_owned()),
            capabilities: BotCapabilities::new().with_text_input().with_attachment_input(),
        };
        let mut r: Vec<Bot> = Vec::new();
        r.push(bot);
        r
    }

    /// Begin one conversation turn: a fresh session carrying the text of
    /// the latest user message of the history and this client's token.
    /// The surrounding loop opens the transport at [`Self::url`] and
    /// drives the session with what it reads.
    pub fn start_session(&self, messages: &Vec<Message>) -> (s: GatewaySession)
        ensures
            s@ == (GatewaySessionV {
                phase: GatewayPhase::AwaitChallenge,
                text: Seq::empty(),
                prompt: last_user_text_spec(messages.deep_view()),
                token: self@.token,
            }),
    {
        let prompt = last_user_text(messages);
        let token = match &self.token {
            Some(t) => Some(t.clone()),
            None => None,
        };
        GatewaySession::new(prompt, token)
    }
}

} // verus!

