//! The chat controller: the single owner of the conversation state.
//!
//! Every state change goes through [`ChatController::dispatch_mutation`]
//! (or the streaming and tool helpers, which dispatch mutations
//! themselves); after each applied batch, every registered plugin's
//! state-change hook runs, in registration order. The controller never
//! hands out a mutable reference to its state: readers take snapshots
//! through [`ChatController::state`], and writers dispatch mutations.
//!
//! Streaming runs outside this crate as a cancellable unit of work that
//! feeds items back in. Each started stream carries a generation number;
//! a Stop bumps the generation, so any item a cancelled stream still
//! delivers is stale and is ignored — content can never regress or leak
//! past a cancellation.

use vstd::prelude::*;

use crate::client::{ClientError, StreamEvent, Upgrade};
use crate::model::{
    clone_attachments, clone_messages, clone_tool_results, BotId, EntityId, EntityIdV, Message,
    MessageContent,
    MessageContentV, MessageV, ToolCall, ToolCallPermissionStatus, ToolCallV, ToolResult,
    ToolResultV,
};
use crate::mutation::VecMutation;
use crate::state::{
    apply_state_mutation_ref, ChatState, ChatStateMutation, ChatStateV,
};

verus! {

/// An external observer of the controller: it is told of every applied
/// mutation batch, and may intercept protocol upgrades.
pub trait ChatControllerPlugin {
    /// Called after a mutation batch was applied, with the new state and
    /// the batch, in application order.
    fn on_state_ready(&mut self, state: &ChatState, mutations: &Vec<ChatStateMutation>);

    /// Offered a protocol upgrade for the bot `bot_id`. Returning `None`
    /// claims the upgrade; returning it hands it to the next plugin.
    fn on_upgrade(&mut self, upgrade: Upgrade, bot_id: &BotId) -> Option<Upgrade>;
}

/// The mathematical view of a [`ChatController`].
pub struct ChatControllerV {
    pub state: ChatStateV,
    pub plugin_ids: Seq<u64>,
    pub next_plugin_id: u64,
    pub stream_gen: u64,
    pub stream_target: Option<int>,
    pub stream_bot: Option<Seq<char>>,
}

/// The chat controller. See the module documentation.
///
/// The registered plugins live in two lists that move together:
/// `plugin_ids[i]` is the registration id of `plugins[i]`. Only
/// [`Self::append_plugin`] and [`Self::remove_plugin`] touch them.
pub struct ChatController {
    state: ChatState,
    plugin_ids: Vec<u64>,
    plugins: Vec<Box<dyn ChatControllerPlugin>>,
    next_plugin_id: u64,
    stream_gen: u64,
    stream_target: Option<usize>,
    stream_bot: Option<BotId>,
}

impl View for ChatController {
    type V = ChatControllerV;

    closed spec fn view(&self) -> ChatControllerV {
        ChatControllerV {
            state: self.state@,
            plugin_ids: self.plugin_ids@,
            next_plugin_id: self.next_plugin_id,
            stream_gen: self.stream_gen,
            stream_target: match self.stream_target {
                Option::Some(i) => Option::Some(i as int),
                Option::None => Option::None,
            },
            stream_bot: self.stream_bot.deep_view(),
        }
    }
}

impl ChatController {
    /// A controller over the empty state, with no plugins and no stream.
    pub fn new() -> (r: ChatController)
        ensures
            r@.state == (ChatStateV {
                messages: Seq::empty(),
                bots: Seq::empty(),
                bot_id: None,
                is_streaming: false,
            }),
            r@.plugin_ids == Seq::<u64>::empty(),
            r@.next_plugin_id == 0,
            r@.stream_gen == 0,
            r@.stream_target is None,
            r@.stream_bot is None,
    {
        ChatController {
            state: ChatState::new(),
            plugin_ids: Vec::new(),
            plugins: Vec::new(),
            next_plugin_id: 0,
            stream_gen: 0,
            stream_target: None,
            stream_bot: None,
        }
    }

    /// A read snapshot of the authoritative state.
    pub fn state(&self) -> (r: &ChatState)
        ensures
            r@ == self@.state,
    {
        &self.state
    }

    /// Apply one mutation to the state, then tell every registered
    /// plugin, in registration order, about the new state and the
    /// one-element batch.
    pub fn dispatch_mutation(&mut self, m: ChatStateMutation)
        ensures
            final(self)@ == (ChatControllerV {
                state: m.applied_to(old(self)@.state),
                ..old(self)@
            }),
    {
        let mut batch: Vec<ChatStateMutation> = Vec::new();
        batch.push(m);
        self.apply_batch(&batch);
    }

    /// Apply a one-element batch and notify the plugins once.
    fn apply_batch(&mut self, batch: &Vec<ChatStateMutation>)
        requires
            batch@.len() == 1,
        ensures
            final(self)@ == (ChatControllerV {
                state: batch@[0].applied_to(old(self)@.state),
                ..old(self)@
            }),
    {
        apply_state_mutation_ref(&mut self.state, &batch[0]);
        self.notify_plugins(batch);
    }

    /// Run every plugin's state-change hook, in registration order.
    fn notify_plugins(&mut self, batch: &Vec<ChatStateMutation>)
        ensures
            final(self)@ == old(self)@,
    {
        let mut i: usize = 0;
        while i < self.plugins.len()
            invariant
                self@ == old(self)@,
                self.plugins@.len() == old(self).plugins@.len(),
            decreases self.plugins@.len() - i,
        {
            self.plugins[i].on_state_ready(&self.state, batch);
            i += 1;
        }
    }

    /// Register a plugin after all already registered ones; the returned
    /// id unregisters it again. Notification order equals registration
    /// order.
    pub fn append_plugin(&mut self, plugin: Box<dyn ChatControllerPlugin>) -> (id: u64)
        requires
            old(self)@.next_plugin_id < u64::MAX,
        ensures
            id == old(self)@.next_plugin_id,
            final(self)@ == (ChatControllerV {
                plugin_ids: old(self)@.plugin_ids.push(id),
                next_plugin_id: (old(self)@.next_plugin_id + 1) as u64,
                ..old(self)@
            }),
    {
        let id = self.next_plugin_id;
        self.next_plugin_id = id + 1;
        self.plugin_ids.push(id);
        self.plugins.push(plugin);
        id
    }

    /// Unregister the plugin behind `id`, if it is registered. A plugin
    /// removed this way is not notified again.
    pub fn remove_plugin(&mut self, id: u64)
        ensures
            (forall|j: int| 0 <= j < old(self)@.plugin_ids.len() ==> old(self)@.plugin_ids[j] != id)
                ==> final(self)@ == old(self)@,
            (exists|j: int| 0 <= j < old(self)@.plugin_ids.len() && old(self)@.plugin_ids[j] == id)
                ==> final(self)@ == (ChatControllerV {
                plugin_ids: old(self)@.plugin_ids.remove(
                    first_plugin_with_id(old(self)@.plugin_ids, id),
                ),
                ..old(self)@
            }),
    {
        let mut i: usize = 0;
        while i < self.plugin_ids.len()
            invariant
                i <= self.plugin_ids.len(),
                self@ == old(self)@,
                self.plugins@.len() == old(self).plugins@.len(),
                forall|j: int| 0 <= j < i ==> self@.plugin_ids[j] != id,
            decreases self.plugin_ids@.len() - i,
        {
            if self.plugin_ids[i] == id {
                proof {
                    lemma_first_plugin_with_id(self.plugin_ids@, id, i as int);
                }
                self.plugin_ids.remove(i);
                if i < self.plugins.len() {
                    self.plugins.remove(i);
                }
                return ;
            }
            i += 1;
        }
    }

    /// Dispatch a task. The returned action is what the surrounding loop
    /// must perform; the controller itself only moves its state.
    ///
    /// A Send without a selected bot, or while a stream is already
    /// running, is rejected and changes nothing. A Stop is always
    /// accepted: it bumps the stream generation (so anything the
    /// cancelled stream still delivers is stale) and clears the
    /// streaming flag.
    pub fn dispatch_task(&mut self, task: ChatTask) -> (a: TaskAction)
        requires
            (task is Send || task is Stop) ==> old(self)@.stream_gen < u64::MAX,
        ensures
            task is Send && old(self)@.state.bot_id is Some && !old(self)@.state.is_streaming
                ==> ({
                &&& (a matches TaskAction::StartStream { gen, bot_id, history } && gen == old(
                    self,
                )@.stream_gen + 1 && Option::Some(bot_id@) == old(self)@.state.bot_id
                    && history.deep_view() == old(self)@.state.messages)
                &&& final(self)@ == (ChatControllerV {
                    state: ChatStateV { is_streaming: true, ..old(self)@.state },
                    stream_gen: (old(self)@.stream_gen + 1) as u64,
                    stream_target: Option::None,
                    stream_bot: old(self)@.state.bot_id,
                    ..old(self)@
                })
            }),
            task is Send && !(old(self)@.state.bot_id is Some && !old(self)@.state.is_streaming)
                ==> a is Rejected && final(self)@ == old(self)@,
            task is Stop ==> a is CancelStream && final(self)@ == (ChatControllerV {
                state: ChatStateV { is_streaming: false, ..old(self)@.state },
                stream_gen: (old(self)@.stream_gen + 1) as u64,
                stream_target: Option::None,
                stream_bot: Option::None,
                ..old(self)@
            }),
            task matches ChatTask::Execute(calls, bid) ==> final(self)@ == old(self)@ && (
            a matches TaskAction::RunTools { bot_id, calls: approved } && bot_id.deep_view()
                == bid.deep_view() && approved.deep_view() == approved_calls(calls.deep_view())),
    {
        match task {
            ChatTask::Send => {
                if self.state.is_streaming {
                    return TaskAction::Rejected;
                }
                let bot_id = match &self.state.bot_id {
                    Some(b) => b.clone(),
                    None => {
                        return TaskAction::Rejected;
                    }
                };
                let history = clone_messages(&self.state.messages);
                let gen = self.stream_gen + 1;
                self.stream_gen = gen;
                self.stream_target = None;
                self.stream_bot = Some(bot_id.clone());
                self.dispatch_mutation(ChatStateMutation::SetIsStreaming(true));
                TaskAction::StartStream { gen, bot_id, history }
            }
            ChatTask::Stop => {
                let gen = self.stream_gen + 1;
                self.stream_gen = gen;
                self.stream_target = None;
                self.stream_bot = None;
                self.dispatch_mutation(ChatStateMutation::SetIsStreaming(false));
                TaskAction::CancelStream
            }
            ChatTask::Execute(calls, bid) => {
                let approved = filter_approved(&calls);
                TaskAction::RunTools { bot_id: bid, calls: approved }
            }
        }
    }

    /// Fold one cumulative content snapshot of generation `gen` into the
    /// state: the streamed message's content becomes the snapshot. Stale
    /// snapshots (after a Stop or a newer Send) change nothing.
    pub fn apply_snapshot(&mut self, gen: u64, content: MessageContent)
        ensures
            final(self)@ == snapshot_result(old(self)@, gen, content@),
    {
        if gen != self.stream_gen || !self.state.is_streaming {
            return ;
        }
        let bot = match &self.stream_bot {
            Some(b) => b.clone(),
            None => {
                return ;
            }
        };
        let msg = Message { from: EntityId::Bot(bot), content };
        if let Some(i) = self.stream_target {
            if i < self.state.messages.len() {
                self.dispatch_mutation(
                    ChatStateMutation::MutateMessages(VecMutation::Update(i, msg)),
                );
                return ;
            }
            let idx = self.state.messages.len();
            self.stream_target = Some(idx);
            self.dispatch_mutation(ChatStateMutation::MutateMessages(VecMutation::Push(msg)));
            return ;
        }
        let idx = self.state.messages.len();
        self.stream_target = Some(idx);
        self.dispatch_mutation(ChatStateMutation::MutateMessages(VecMutation::Push(msg)));
    }

    /// End the stream of generation `gen` cleanly. A stale end changes
    /// nothing.
    pub fn finish_stream(&mut self, gen: u64)
        ensures
            final(self)@ == finish_result(old(self)@, gen),
    {
        if gen != self.stream_gen || !self.state.is_streaming {
            return ;
        }
        self.stream_target = None;
        self.stream_bot = None;
        self.dispatch_mutation(ChatStateMutation::SetIsStreaming(false));
    }

    /// End the stream of generation `gen` with a failure: a visible
    /// error message is appended before streaming goes off. A stale
    /// failure changes nothing.
    pub fn fail_stream(&mut self, gen: u64, error: ClientError)
        ensures
            final(self)@ == fail_result(old(self)@, gen, error@.message),
    {
        if gen != self.stream_gen || !self.state.is_streaming {
            return ;
        }
        self.stream_target = None;
        self.stream_bot = None;
        let msg = Message { from: EntityId::App, content: MessageContent::from_text(error.message) };
        self.dispatch_mutation(ChatStateMutation::MutateMessages(VecMutation::Push(msg)));
        self.dispatch_mutation(ChatStateMutation::SetIsStreaming(false));
    }

    /// Offer an upgrade the stream of generation `gen` yielded to the
    /// plugins, in registration order, until one claims it (its id is
    /// returned, and streaming ends without appending further content).
    /// An unclaimed or stale upgrade is dropped and changes nothing.
    pub fn handle_upgrade(&mut self, gen: u64, upgrade: Upgrade) -> (claimed: Option<u64>)
        ensures
            claimed is Some ==> final(self)@ == finish_result(old(self)@, gen),
            claimed matches Some(id) ==> old(self)@.plugin_ids.contains(id),
            claimed is None ==> final(self)@ == old(self)@,
    {
        if gen != self.stream_gen || !self.state.is_streaming {
            return None;
        }
        let bot = match &self.stream_bot {
            Some(b) => b.clone(),
            None => {
                return None;
            }
        };
        let mut i: usize = 0;
        while i < self.plugins.len()
            invariant
                self@ == old(self)@,
                self.plugins@.len() == old(self).plugins@.len(),
                stream_current(old(self)@, gen),
            decreases self.plugins@.len() - i,
        {
            let answer = self.plugins[i].on_upgrade(upgrade, &bot);
            if answer.is_none() {
                if i < self.plugin_ids.len() {
                    let id = self.plugin_ids[i];
                    proof {
                        assert(old(self)@.plugin_ids[i as int] == id);
                    }
                    self.stream_target = None;
                    self.stream_bot = None;
                    self.dispatch_mutation(ChatStateMutation::SetIsStreaming(false));
                    return Some(id);
                }
                return None;
            }
            i += 1;
        }
        None
    }

    /// Consume one item of the stream of generation `gen`. The returned
    /// id, if any, is the plugin that claimed an upgrade.
    pub fn on_stream_event(&mut self, gen: u64, ev: StreamEvent) -> (claimed: Option<u64>)
        ensures
            ev matches StreamEvent::Content(c) ==> final(self)@ == snapshot_result(
                old(self)@,
                gen,
                c@,
            ) && claimed is None,
            ev matches StreamEvent::Failure(e) ==> final(self)@ == fail_result(
                old(self)@,
                gen,
                e@.message,
            ) && claimed is None,
            ev is Finished ==> final(self)@ == finish_result(old(self)@, gen) && claimed is None,
            ev is Upgraded ==> {
                &&& claimed is Some ==> final(self)@ == finish_result(old(self)@, gen)
                &&& claimed matches Some(id) ==> old(self)@.plugin_ids.contains(id)
                &&& claimed is None ==> final(self)@ == old(self)@
            },
    {
        match ev {
            StreamEvent::Content(c) => {
                self.apply_snapshot(gen, c);
                None
            }
            StreamEvent::Failure(e) => {
                self.fail_stream(gen, e);
                None
            }
            StreamEvent::Upgraded(u) => self.handle_upgrade(gen, u),
            StreamEvent::Finished => {
                self.finish_stream(gen);
                None
            }
        }
    }

    /// Approve every pending tool call of the message at `index` and
    /// hand back the calls to execute: all-or-nothing approval at the
    /// message granularity. When the message has no pending call (for
    /// example on a second approval), nothing changes and nothing runs:
    /// that guard makes approval idempotent.
    pub fn approve_tools(&mut self, index: usize) -> (a: TaskAction)
        requires
            index < old(self)@.state.messages.len(),
        ensures
            !has_pending(old(self)@.state.messages[index as int].content.tool_calls)
                ==> final(self)@ == old(self)@ && a is Rejected,
            has_pending(old(self)@.state.messages[index as int].content.tool_calls) ==> ({
                let m2 = approve_message(old(self)@.state.messages[index as int]);
                &&& final(self)@ == (ChatControllerV {
                    state: ChatStateV {
                        messages: old(self)@.state.messages.update(index as int, m2),
                        ..old(self)@.state
                    },
                    ..old(self)@
                })
                &&& (a matches TaskAction::RunTools { bot_id, calls } && bot_id.deep_view() == old(
                    self,
                )@.state.bot_id && calls.deep_view() == approved_calls(m2.content.tool_calls))
            }),
    {
        let msg = &self.state.messages[index];
        let ghost calls_v = msg.content.tool_calls.deep_view();
        let mut new_calls: Vec<ToolCall> = Vec::new();
        let mut any_pending = false;
        let mut i: usize = 0;
        while i < msg.content.tool_calls.len()
            invariant
                i <= msg.content.tool_calls.len(),
                calls_v == msg.content.tool_calls.deep_view(),
                new_calls.deep_view().len() == i,
                forall|j: int|
                    0 <= j < i ==> new_calls.deep_view()[j] == approve_call(calls_v[j]),
                any_pending == has_pending(calls_v.take(i as int)),
            decreases msg.content.tool_calls.len() - i,
        {
            let ghost pre_sh = new_calls@;
            let ghost pre_dv = new_calls.deep_view();
            let c = &msg.content.tool_calls[i];
            let pending = matches!(c.permission_status, ToolCallPermissionStatus::Pending);
            let status = if pending {
                ToolCallPermissionStatus::Approved
            } else {
                c.permission_status
            };
            new_calls.push(ToolCall { id: c.id.clone(), name: c.name.clone(), permission_status: status });
            proof {
                assert(calls_v[i as int] == msg.content.tool_calls@[i as int]@);
                assert(new_calls@[i as int]@ == approve_call(calls_v[i as int]));
                assert forall|j: int|
                    0 <= j < i implies new_calls.deep_view()[j] == approve_call(calls_v[j]) by {
                    assert(pre_dv[j] == approve_call(calls_v[j]));
                    assert(pre_dv[j] == pre_sh[j].deep_view());
                    assert(new_calls@[j] == pre_sh[j]);
                    assert(new_calls.deep_view()[j] == new_calls@[j].deep_view());
                }
                lemma_has_pending_take_step(calls_v, i as int);
            }
            any_pending = any_pending || pending;
            i += 1;
        }
        proof {
            assert(calls_v.take(calls_v.len() as int) =~= calls_v);
        }
        if !any_pending {
            return TaskAction::Rejected;
        }
        let new_msg = Message {
            from: msg.from.clone(),
            content: MessageContent {
                text: msg.content.text.clone(),
                attachments: clone_attachments(&msg.content.attachments),
                tool_calls: new_calls,
                tool_results: clone_tool_results(&msg.content.tool_results),
            },
        };
        proof {
            assert forall|j: int|
                0 <= j < new_msg.content.tool_calls.deep_view().len() implies new_msg.content.tool_calls.deep_view()[j]
                == calls_v.map_values(|c: ToolCallV| approve_call(c))[j] by {}
            assert(new_msg.content.tool_calls.deep_view() =~= calls_v.map_values(
                |c: ToolCallV| approve_call(c),
            ));
        }
        let approved = filter_approved(&new_msg.content.tool_calls);
        let bot_id = match &self.state.bot_id {
            Some(b) => Some(b.clone()),
            None => None,
        };
        self.dispatch_mutation(ChatStateMutation::MutateMessages(VecMutation::Update(index, new_msg)));
        TaskAction::RunTools { bot_id, calls: approved }
    }

    /// Deny every pending tool call of the message at `index` and append
    /// a tool-authored message carrying one synthetic error result per
    /// denied call, preserving conversation continuity. Nothing is sent
    /// anywhere: denial never contacts a backend.
    pub fn deny_tools(&mut self, index: usize)
        requires
            index < old(self)@.state.messages.len(),
        ensures
            ({
                let m = old(self)@.state.messages[index as int];
                final(self)@ == (ChatControllerV {
                    state: ChatStateV {
                        messages: old(self)@.state.messages.update(index as int, deny_message(m)).push(
                            denial_message(m),
                        ),
                        ..old(self)@.state
                    },
                    ..old(self)@
                })
            }),
    {
        let msg = &self.state.messages[index];
        let ghost calls_v = msg.content.tool_calls.deep_view();
        let mut new_calls: Vec<ToolCall> = Vec::new();
        let mut results: Vec<ToolResult> = Vec::new();
        let mut i: usize = 0;
        proof {
            assert(calls_v.take(0) =~= Seq::<ToolCallV>::empty());
            assert(results.deep_view() =~= denial_results_of(calls_v.take(0)));
        }
        while i < msg.content.tool_calls.len()
            invariant
                i <= msg.content.tool_calls.len(),
                calls_v == msg.content.tool_calls.deep_view(),
                new_calls.deep_view().len() == i,
                forall|j: int| 0 <= j < i ==> new_calls.deep_view()[j] == deny_call(calls_v[j]),
                results.deep_view() == denial_results_of(calls_v.take(i as int)),
            decreases msg.content.tool_calls.len() - i,
        {
            let ghost results_pre = results.deep_view();
            let ghost pre_sh = new_calls@;
            let ghost pre_dv = new_calls.deep_view();
            let c = &msg.content.tool_calls[i];
            let pending = matches!(c.permission_status, ToolCallPermissionStatus::Pending);
            let status = if pending {
                ToolCallPermissionStatus::Denied
            } else {
                c.permission_status
            };
            new_calls.push(ToolCall { id: c.id.clone(), name: c.name.clone(), permission_status: status });
            proof {
                assert(calls_v[i as int] == msg.content.tool_calls@[i as int]@);
                assert(new_calls@[i as int]@ == deny_call(calls_v[i as int]));
                assert forall|j: int|
                    0 <= j < i implies new_calls.deep_view()[j] == deny_call(calls_v[j]) by {
                    assert(pre_dv[j] == deny_call(calls_v[j]));
                    assert(pre_dv[j] == pre_sh[j].deep_view());
                    assert(new_calls@[j] == pre_sh[j]);
                    assert(new_calls.deep_view()[j] == new_calls@[j].deep_view());
                }
            }
            let denied = matches!(status, ToolCallPermissionStatus::Denied);
            if denied {
                let content = denial_content_for(c.name.as_str());
                results.push(ToolResult { tool_call_id: c.id.clone(), content, is_error: true });
            }
            proof {
                assert(calls_v[i as int] == msg.content.tool_calls@[i as int]@);
                lemma_denial_take_step(calls_v, i as int);
                if denied {
                    assert(results.deep_view() =~= results_pre.push(
                        denial_result_for(deny_call(calls_v[i as int])),
                    ));
                    assert(results_pre.push(denial_result_for(deny_call(calls_v[i as int]))) =~= results_pre
                        + seq![denial_result_for(deny_call(calls_v[i as int]))]);
                } else {
                    assert(results_pre + Seq::<ToolResultV>::empty() =~= results_pre);
                }
            }
            i += 1;
        }
        proof {
            assert(calls_v.take(calls_v.len() as int) =~= calls_v);
        }
        let new_msg = Message {
            from: msg.from.clone(),
            content: MessageContent {
                text: msg.content.text.clone(),
                attachments: clone_attachments(&msg.content.attachments),
                tool_calls: new_calls,
                tool_results: clone_tool_results(&msg.content.tool_results),
            },
        };
        proof {
            assert forall|j: int|
                0 <= j < new_msg.content.tool_calls.deep_view().len() implies new_msg.content.tool_calls.deep_view()[j]
                == calls_v.map_values(|c: ToolCallV| deny_call(c))[j] by {}
            assert(new_msg.content.tool_calls.deep_view() =~= calls_v.map_values(
                |c: ToolCallV| deny_call(c),
            ));
        }
        let denial = Message {
            from: EntityId::Tool,
            content: MessageContent {
                text: denial_note(),
                attachments: Vec::new(),
                tool_calls: Vec::new(),
                tool_results: results,
            },
        };
        proof {
            assert(denial@.content.attachments =~= Seq::<crate::model::AttachmentV>::empty());
            assert(denial@.content.tool_calls =~= Seq::<ToolCallV>::empty());
        }
        self.dispatch_mutation(ChatStateMutation::MutateMessages(VecMutation::Update(index, new_msg)));
        self.dispatch_mutation(ChatStateMutation::MutateMessages(VecMutation::Push(denial)));
    }

    /// Append a tool-authored message carrying execution results, in the
    /// order they were produced.
    pub fn push_tool_results(&mut self, results: Vec<ToolResult>)
        ensures
            final(self)@ == (ChatControllerV {
                state: ChatStateV {
                    messages: old(self)@.state.messages.push(
                        MessageV {
                            from: EntityIdV::Tool,
                            content: MessageContentV {
                                text: Seq::empty(),
                                attachments: Seq::empty(),
                                tool_calls: Seq::empty(),
                                tool_results: results.deep_view(),
                            },
                        },
                    ),
                    ..old(self)@.state
                },
                ..old(self)@
            }),
    {
        let msg = Message {
            from: EntityId::Tool,
            content: MessageContent {
                text: String::new(),
                attachments: Vec::new(),
                tool_calls: Vec::new(),
                tool_results: results,
            },
        };
        proof {
            assert(msg@.content.attachments =~= Seq::<crate::model::AttachmentV>::empty());
            assert(msg@.content.tool_calls =~= Seq::<ToolCallV>::empty());
        }
        self.dispatch_mutation(ChatStateMutation::MutateMessages(VecMutation::Push(msg)));
    }
}

/// The calls of the list that stand approved, in order.
pub fn filter_approved(calls: &Vec<ToolCall>) -> (r: Vec<ToolCall>)
    ensures
        r.deep_view() == approved_calls(calls.deep_view()),
{
    let ghost calls_v = calls.deep_view();
    let mut r: Vec<ToolCall> = Vec::new();
    let mut i: usize = 0;
    proof {
        assert(calls_v.take(0) =~= Seq::<ToolCallV>::empty());
        assert(r.deep_view() =~= approved_calls(calls_v.take(0)));
    }
    while i < calls.len()
        invariant
            i <= calls.len(),
            calls_v == calls.deep_view(),
            r.deep_view() == approved_calls(calls_v.take(i as int)),
        decreases calls.len() - i,
    {
        let ghost pre = r.deep_view();
        let c = &calls[i];
        let is_approved = matches!(c.permission_status, ToolCallPermissionStatus::Approved);
        if is_approved {
            r.push(c.clone());
        }
        proof {
            assert(calls_v[i as int] == calls@[i as int]@);
            lemma_approved_take_step(calls_v, i as int);
            if is_approved {
                assert(r.deep_view() =~= pre.push(calls_v[i as int]));
                assert(pre.push(calls_v[i as int]) =~= pre + seq![calls_v[i as int]]);
            } else {
                assert(pre + Seq::<ToolCallV>::empty() =~= pre);
            }
        }
        i += 1;
    }
    proof {
        assert(calls_v.take(calls_v.len() as int) =~= calls_v);
    }
    r
}

/// The fixed note the denial message carries.
fn denial_note() -> (r: String)
    ensures
        r@ == "Tool execution was denied by the user."@,
{
    "Tool execution was denied by the user.".to_owned()
}

/// The fixed denial text for one tool, by its display name.
fn denial_content_for(name: &str) -> (r: String)
    ensures
        r@ == denial_text(name@),
{
    let mut r = String::new();
    r.append("Tool execution was denied by the user. Tool '");
    let display = crate::naming::display_name_from_namespaced(name);
    r.append(display.as_str());
    r.append("' was not executed.");
    proof {
        assert(r@ =~= denial_text(name@));
    }
    r
}

proof fn lemma_approved_take_step(s: Seq<ToolCallV>, i: int)
    requires
        0 <= i < s.len(),
    ensures
        approved_calls(s.take(i + 1)) == approved_calls(s.take(i)) + (
        if s[i].permission_status is Approved {
            seq![s[i]]
        } else {
            Seq::<ToolCallV>::empty()
        }),
{
    assert(s.take(i + 1).last() == s[i]);
    assert(s.take(i + 1).drop_last() =~= s.take(i));
}

proof fn lemma_denial_take_step(s: Seq<ToolCallV>, i: int)
    requires
        0 <= i < s.len(),
    ensures
        denial_results_of(s.take(i + 1)) == denial_results_of(s.take(i)) + (
        if deny_call(s[i]).permission_status is Denied {
            seq![denial_result_for(deny_call(s[i]))]
        } else {
            Seq::<ToolResultV>::empty()
        }),
{
    assert(s.take(i + 1).last() == s[i]);
    assert(s.take(i + 1).drop_last() =~= s.take(i));
}

/// The controller after a whole run of cumulative snapshots, folded in
/// arrival order.
pub open spec fn snapshots_folded(
    c: ChatControllerV,
    gen: u64,
    contents: Seq<MessageContentV>,
) -> ChatControllerV
    decreases contents.len(),
{
    if contents.len() == 0 {
        c
    } else {
        snapshots_folded(snapshot_result(c, gen, contents.first()), gen, contents.drop_first())
    }
}

/// Streamed content renders exactly: after any run of cumulative
/// snapshots on a live stream, the streamed message's content equals the
/// latest snapshot, no more and no less — client-local edits never
/// interleave with streamed content, which goes through this one
/// message.
pub proof fn lemma_stream_renders_last(
    c: ChatControllerV,
    gen: u64,
    contents: Seq<MessageContentV>,
)
    requires
        stream_current(c, gen),
        c.stream_bot is Some,
        contents.len() > 0,
    ensures
        ({
            let d = snapshots_folded(c, gen, contents);
            let bot = match c.stream_bot {
                Option::Some(b) => b,
                Option::None => Seq::empty(),
            };
            &&& stream_current(d, gen)
            &&& d.stream_bot == c.stream_bot
            &&& d.state.bots == c.state.bots && d.state.bot_id == c.state.bot_id
            &&& d.stream_target matches Option::Some(t) && 0 <= t < d.state.messages.len()
                && d.state.messages[t] == (MessageV {
                from: EntityIdV::Bot(bot),
                content: contents.last(),
            }) && c.state.messages.len() <= d.state.messages.len() <= c.state.messages.len() + 1
                && (forall|j: int|
                0 <= j < c.state.messages.len() && j != t ==> d.state.messages[j]
                    == c.state.messages[j]) && (d.state.messages.len() == c.state.messages.len() + 1
                ==> t == c.state.messages.len()) && ((c.stream_target matches Option::Some(i) && 0
                <= i < c.state.messages.len()) ==> d.stream_target == c.stream_target)
        }),
    decreases contents.len(),
{
    let c1 = snapshot_result(c, gen, contents.first());
    if contents.len() == 1 {
        assert(snapshots_folded(c1, gen, contents.drop_first()) == c1);
    } else {
        assert(contents.drop_first().last() == contents.last());
        lemma_stream_renders_last(c1, gen, contents.drop_first());
        let d = snapshots_folded(c1, gen, contents.drop_first());
        let t1 = match c1.stream_target {
            Option::Some(t1) => t1,
            Option::None => 0,
        };
        assert(d.stream_target == c1.stream_target);
        assert forall|j: int|
            0 <= j < c.state.messages.len() && j != t1 implies d.state.messages[j]
            == c.state.messages[j] by {
            assert(c1.state.messages[j] == c.state.messages[j]);
        }
    }
}

/// A cancelled or superseded stream applies nothing: once streaming is
/// off, or the generation moved on (as Stop makes both true), a late
/// snapshot leaves the controller exactly as it was.
pub proof fn lemma_cancelled_stream_applies_nothing(
    c: ChatControllerV,
    gen: u64,
    content: MessageContentV,
)
    requires
        !c.state.is_streaming || gen != c.stream_gen,
    ensures
        snapshot_result(c, gen, content) == c,
{
}

/// Approval is idempotent at the message granularity: approving an
/// already-approved message is the identity, and an approved message has
/// no pending call left — so a second approval is rejected by the
/// pending-call guard and dispatches nothing.
pub proof fn lemma_approval_idempotent(m: MessageV)
    ensures
        approve_message(approve_message(m)) == approve_message(m),
        !has_pending(approve_message(m).content.tool_calls),
{
    let t1 = m.content.tool_calls.map_values(|c: ToolCallV| approve_call(c));
    let t2 = t1.map_values(|c: ToolCallV| approve_call(c));
    assert forall|j: int| 0 <= j < t1.len() implies !((#[trigger] t1[j]).permission_status
        is Pending) by {
        assert(t1[j] == approve_call(m.content.tool_calls[j]));
    }
    assert forall|j: int| 0 <= j < t2.len() implies t2[j] == t1[j] by {
        assert(t2[j] == approve_call(t1[j]));
    }
    assert(t2 =~= t1);
}

/// The calls of `s` that stand denied after a denial, in order.
pub open spec fn denied_after(s: Seq<ToolCallV>) -> Seq<ToolCallV>
    decreases s.len(),
{
    if s.len() == 0 {
        Seq::empty()
    } else {
        denied_after(s.drop_last()) + (if deny_call(s.last()).permission_status is Denied {
            seq![deny_call(s.last())]
        } else {
            Seq::<ToolCallV>::empty()
        })
    }
}

/// Denial produces exactly one synthetic result per denied call, in call
/// order, each marked as an error and answering that call's id — and
/// nothing else: the denial path emits no action toward any backend.
pub proof fn lemma_denial_one_error_result_per_denied_call(s: Seq<ToolCallV>)
    ensures
        denial_results_of(s).len() == denied_after(s).len(),
        forall|j: int|
            0 <= j < denial_results_of(s).len() ==> (#[trigger] denial_results_of(s)[j]).is_error
                && denial_results_of(s)[j].tool_call_id == denied_after(s)[j].id,
    decreases s.len(),
{
    if s.len() > 0 {
        lemma_denial_one_error_result_per_denied_call(s.drop_last());
        let rs = denial_results_of(s);
        let ds = denied_after(s);
        let rs0 = denial_results_of(s.drop_last());
        let ds0 = denied_after(s.drop_last());
        assert forall|j: int| 0 <= j < rs.len() implies (#[trigger] rs[j]).is_error
            && rs[j].tool_call_id == ds[j].id by {
            if j < rs0.len() {
                assert(rs[j] == rs0[j]);
                assert(ds[j] == ds0[j]);
            } else {
                assert(rs[j] == denial_result_for(deny_call(s.last())));
                assert(ds[j] == deny_call(s.last()));
            }
        }
    }
}

/// The position of the first plugin that would claim an offered upgrade,
/// given each plugin's answer in registration order.
pub open spec fn first_claim(claims: Seq<bool>) -> Option<int>
    decreases claims.len(),
{
    if claims.len() == 0 {
        Option::None
    } else if claims.first() {
        Option::Some(0int)
    } else {
        match first_claim(claims.drop_first()) {
            Option::Some(k) => Option::Some(k + 1),
            Option::None => Option::None,
        }
    }
}

/// Upgrade offering is order-preserving. With `claims[i]` saying whether
/// the plugin registered at position `i` would claim the upgrade, the
/// offer goes to the plugins in registration order and stops at the
/// first claimer ([`ChatController::handle_upgrade`] walks the plugins
/// exactly so): every plugin before the claimer is consulted and
/// declines, the claimer consumes the upgrade, and no later plugin is
/// consulted. When nobody claims, every plugin was consulted and the
/// upgrade is dropped.
pub proof fn lemma_upgrade_offer_order(claims: Seq<bool>)
    ensures
        first_claim(claims) matches Option::Some(k) ==> 0 <= k < claims.len() && claims[k] && (
        forall|j: int| 0 <= j < k ==> !claims[j]),
        first_claim(claims) is None ==> forall|j: int| 0 <= j < claims.len() ==> !claims[j],
    decreases claims.len(),
{
    if claims.len() > 0 && !claims.first() {
        lemma_upgrade_offer_order(claims.drop_first());
        match first_claim(claims.drop_first()) {
            Option::Some(k) => {
                assert(claims[k + 1] == claims.drop_first()[k]);
                assert forall|j: int| 0 <= j < k + 1 implies !claims[j] by {
                    if j > 0 {
                        assert(claims.drop_first()[j - 1] == claims[j]);
                    }
                }
            }
            Option::None => {
                assert forall|j: int| 0 <= j < claims.len() implies !claims[j] by {
                    if j > 0 {
                        assert(claims.drop_first()[j - 1] == claims[j]);
                    }
                }
            }
        }
    }
}

proof fn lemma_has_pending_take_step(s: Seq<ToolCallV>, i: int)
    requires
        0 <= i < s.len(),
    ensures
        has_pending(s.take(i + 1)) == (has_pending(s.take(i))
            || s[i].permission_status is Pending),
{
    if has_pending(s.take(i)) {
        let j = choose|j: int|
            0 <= j < s.take(i).len() && s.take(i)[j].permission_status is Pending;
        assert(s.take(i + 1)[j].permission_status is Pending);
    }
    if s[i].permission_status is Pending {
        assert(s.take(i + 1)[i].permission_status is Pending);
    }
    if has_pending(s.take(i + 1)) {
        let t = s.take(i + 1);
        let j = choose|j: int| 0 <= j < t.len() && t[j].permission_status is Pending;
        if j < i {
            assert(s.take(i)[j].permission_status is Pending);
        } else {
            assert(s[i].permission_status is Pending);
        }
    }
}

/// A task a caller dispatches to the controller.
pub enum ChatTask {
    /// Send the pending user turn to the selected bot. Callers check
    /// `is_streaming` first: a Send while streaming is rejected.
    Send,
    /// Cancel the in-flight stream. Always accepted.
    Stop,
    /// Run the approved calls among these through the tool-execution
    /// collaborator, on behalf of this bot.
    Execute(Vec<ToolCall>, Option<BotId>),
}

/// What the surrounding loop must do for a dispatched task.
#[allow(inconsistent_fields)]
pub enum TaskAction {
    /// Open a stream to `bot_id` with this history snapshot, and feed
    /// the items back under generation `gen`.
    StartStream { gen: u64, bot_id: BotId, history: Vec<Message> },
    /// Abort the running stream task; its generation is already stale.
    CancelStream,
    /// Run these (already approved) calls through the tool-execution
    /// collaborator and feed the results back.
    RunTools { bot_id: Option<BotId>, calls: Vec<ToolCall> },
    /// The task was rejected, or there was nothing to do. State is
    /// unchanged.
    Rejected,
}

/// Whether items of generation `gen` are the live stream's: the
/// generation is current and streaming is on.
pub open spec fn stream_current(c: ChatControllerV, gen: u64) -> bool {
    gen == c.stream_gen && c.state.is_streaming
}

/// The controller after appending a fresh streamed message.
pub open spec fn stream_append(c: ChatControllerV, msg: MessageV) -> ChatControllerV {
    ChatControllerV {
        state: ChatStateV { messages: c.state.messages.push(msg), ..c.state },
        stream_target: Option::Some(c.state.messages.len() as int),
        ..c
    }
}

/// The controller after one cumulative content snapshot of generation
/// `gen` arrives: stale or bot-less snapshots change nothing; a live one
/// makes the streamed message's content equal the snapshot, appending the
/// message first if the stream has none yet (or lost it to an edit).
pub open spec fn snapshot_result(c: ChatControllerV, gen: u64, content: MessageContentV) -> ChatControllerV {
    if !stream_current(c, gen) || c.stream_bot is None {
        c
    } else {
        let bot = match c.stream_bot {
            Option::Some(b) => b,
            Option::None => Seq::empty(),
        };
        let msg = MessageV { from: EntityIdV::Bot(bot), content };
        match c.stream_target {
            Option::Some(i) => if 0 <= i < c.state.messages.len() {
                ChatControllerV {
                    state: ChatStateV { messages: c.state.messages.update(i, msg), ..c.state },
                    ..c
                }
            } else {
                stream_append(c, msg)
            },
            Option::None => stream_append(c, msg),
        }
    }
}

/// The controller after the stream of generation `gen` ends: streaming
/// goes off and the stream bookkeeping clears; a stale end changes
/// nothing.
pub open spec fn finish_result(c: ChatControllerV, gen: u64) -> ChatControllerV {
    if stream_current(c, gen) {
        ChatControllerV {
            state: ChatStateV { is_streaming: false, ..c.state },
            stream_target: Option::None,
            stream_bot: Option::None,
            ..c
        }
    } else {
        c
    }
}

/// The controller after the stream of generation `gen` fails: a visible
/// error message is appended and streaming goes off; a stale failure
/// changes nothing.
pub open spec fn fail_result(c: ChatControllerV, gen: u64, message: Seq<char>) -> ChatControllerV {
    if stream_current(c, gen) {
        let err_msg = MessageV {
            from: EntityIdV::App,
            content: MessageContentV::of_text(message),
        };
        ChatControllerV {
            state: ChatStateV {
                messages: c.state.messages.push(err_msg),
                is_streaming: false,
                ..c.state
            },
            stream_target: Option::None,
            stream_bot: Option::None,
            ..c
        }
    } else {
        c
    }
}

/// The calls of `s` that stand approved, in order.
pub open spec fn approved_calls(s: Seq<ToolCallV>) -> Seq<ToolCallV>
    decreases s.len(),
{
    if s.len() == 0 {
        Seq::empty()
    } else {
        approved_calls(s.drop_last()) + (if s.last().permission_status is Approved {
            seq![s.last()]
        } else {
            Seq::empty()
        })
    }
}

/// One call after approval: a pending call becomes approved; any other
/// keeps its status (transitions never leave `Approved` or `Denied`).
pub open spec fn approve_call(c: ToolCallV) -> ToolCallV {
    if c.permission_status is Pending {
        ToolCallV { permission_status: ToolCallPermissionStatus::Approved, ..c }
    } else {
        c
    }
}

/// One call after denial: a pending call becomes denied; any other keeps
/// its status.
pub open spec fn deny_call(c: ToolCallV) -> ToolCallV {
    if c.permission_status is Pending {
        ToolCallV { permission_status: ToolCallPermissionStatus::Denied, ..c }
    } else {
        c
    }
}

/// Whether some call still awaits a decision.
pub open spec fn has_pending(s: Seq<ToolCallV>) -> bool {
    exists|i: int| 0 <= i < s.len() && s[i].permission_status is Pending
}

/// The message after approving every pending call it carries.
pub open spec fn approve_message(m: MessageV) -> MessageV {
    MessageV {
        content: MessageContentV {
            tool_calls: m.content.tool_calls.map_values(|c: ToolCallV| approve_call(c)),
            ..m.content
        },
        ..m
    }
}

/// The message after denying every pending call it carries.
pub open spec fn deny_message(m: MessageV) -> MessageV {
    MessageV {
        content: MessageContentV {
            tool_calls: m.content.tool_calls.map_values(|c: ToolCallV| deny_call(c)),
            ..m.content
        },
        ..m
    }
}

/// The synthetic result for one denied call.
pub open spec fn denial_result_for(c: ToolCallV) -> ToolResultV {
    ToolResultV { tool_call_id: c.id, content: denial_text(c.name), is_error: true }
}

/// The fixed denial message for a tool, by its display name.
pub open spec fn denial_text(name: Seq<char>) -> Seq<char> {
    "Tool execution was denied by the user. Tool '"@ + crate::naming::display_name_spec(name)
        + "' was not executed."@
}

/// The synthetic results a denial produces: one per call that stands
/// denied after the denial, in call order, each marked as an error.
pub open spec fn denial_results_of(s: Seq<ToolCallV>) -> Seq<ToolResultV>
    decreases s.len(),
{
    if s.len() == 0 {
        Seq::empty()
    } else {
        denial_results_of(s.drop_last()) + (if deny_call(s.last()).permission_status is Denied {
            seq![denial_result_for(deny_call(s.last()))]
        } else {
            Seq::empty()
        })
    }
}

/// The message a denial appends: a tool-authored note carrying the
/// synthetic results.
pub open spec fn denial_message(m: MessageV) -> MessageV {
    MessageV {
        from: EntityIdV::Tool,
        content: MessageContentV {
            text: "Tool execution was denied by the user."@,
            attachments: Seq::empty(),
            tool_calls: Seq::empty(),
            tool_results: denial_results_of(m.content.tool_calls),
        },
    }
}

/// The position of the first registered plugin carrying `id`; meaningful
/// only when one exists.
pub open spec fn first_plugin_with_id(ids: Seq<u64>, id: u64) -> int {
    choose|k: int|
        0 <= k < ids.len() && ids[k] == id && (forall|j: int| 0 <= j < k ==> ids[j] != id)
}

proof fn lemma_first_plugin_with_id(ids: Seq<u64>, id: u64, i: int)
    requires
        0 <= i < ids.len(),
        ids[i] == id,
        forall|j: int| 0 <= j < i ==> ids[j] != id,
    ensures
        first_plugin_with_id(ids, id) == i,
{
    let k = first_plugin_with_id(ids, id);
    assert(0 <= k < ids.len() && ids[k] == id && (forall|j: int| 0 <= j < k ==> ids[j] != id));
    if k < i {
        assert(ids[k] != id);
    }
    if i < k {
        assert(ids[i] != id);
    }
}

} // verus!
