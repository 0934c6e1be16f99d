//! Authoritative conversation state and the closed set of typed edits
//! that can alter it.
//!
//! Applying a [`ChatStateMutation`] is the only path by which the message
//! list or the bot roster may change. The selected bot id is a weak
//! reference: it is revalidated against the roster whenever the roster
//! changes, and cleared if the referent disappeared.

use vstd::prelude::*;

use crate::model::{clone_bots, clone_messages, Bot, BotId, BotV, Message, MessageV};
use crate::mutation::{apply_mutation, mutation_applied_deep, VecMutation, VecMutationV};

verus! {

/// The mathematical view of a [`ChatState`].
pub struct ChatStateV {
    pub messages: Seq<MessageV>,
    pub bots: Seq<BotV>,
    pub bot_id: Option<Seq<char>>,
    pub is_streaming: bool,
}

/// The authoritative conversation state: the ordered message history, the
/// bot roster, the selected bot (by id, not by reference) and whether a
/// response is currently streaming in.
#[derive(Debug)]
pub struct ChatState {
    pub messages: Vec<Message>,
    pub bots: Vec<Bot>,
    pub bot_id: Option<BotId>,
    pub is_streaming: bool,
}

impl View for ChatState {
    type V = ChatStateV;

    open spec fn view(&self) -> ChatStateV {
        ChatStateV {
            messages: self.messages.deep_view(),
            bots: self.bots.deep_view(),
            bot_id: self.bot_id.deep_view(),
            is_streaming: self.is_streaming,
        }
    }
}

impl ChatState {
    /// The empty state a controller starts from.
    pub fn new() -> (r: ChatState)
        ensures
            r@ == (ChatStateV {
                messages: Seq::empty(),
                bots: Seq::empty(),
                bot_id: None,
                is_streaming: false,
            }),
    {
        let r = ChatState { messages: Vec::new(), bots: Vec::new(), bot_id: None, is_streaming: false };
        proof {
            assert(r@.messages =~= Seq::<MessageV>::empty());
            assert(r@.bots =~= Seq::<BotV>::empty());
        }
        r
    }
}

/// Whether some bot of the roster carries this id.
pub open spec fn roster_has_id(bots: Seq<BotV>, id: Seq<char>) -> bool {
    exists|i: int| 0 <= i < bots.len() && bots[i].id == id
}

/// Bot rosters are sets keyed by id: no two entries share an id.
pub open spec fn roster_unique(bots: Seq<BotV>) -> bool {
    forall|i: int, j: int| 0 <= i < j < bots.len() ==> bots[i].id != bots[j].id
}

/// The selection that remains valid once the roster is `bots`: an id that
/// no longer names a roster entry is cleared.
pub open spec fn revalidated_selection(sel: Option<Seq<char>>, bots: Seq<BotV>) -> Option<
    Seq<char>,
> {
    match sel {
        Option::None => Option::None,
        Option::Some(id) => if roster_has_id(bots, id) {
            Option::Some(id)
        } else {
            Option::None
        },
    }
}

/// The mathematical view of a [`ChatStateMutation`].
pub enum ChatStateMutationV {
    SetIsStreaming(bool),
    MutateBots(VecMutationV<BotV>),
    SetBotId(Option<Seq<char>>),
    MutateMessages(VecMutationV<MessageV>),
}

/// A typed edit of the chat state.
pub enum ChatStateMutation {
    /// Flip the streaming flag.
    SetIsStreaming(bool),
    /// Edit the bot roster. The selected bot id is revalidated afterwards.
    MutateBots(VecMutation<Bot>),
    /// Select a bot (or none). The id is stored as given; it is the
    /// caller's business to select an id the roster offers.
    SetBotId(Option<BotId>),
    /// Edit the message history.
    MutateMessages(VecMutation<Message>),
}

impl View for ChatStateMutation {
    type V = ChatStateMutationV;

    open spec fn view(&self) -> ChatStateMutationV {
        match self {
            ChatStateMutation::SetIsStreaming(b) => ChatStateMutationV::SetIsStreaming(*b),
            ChatStateMutation::MutateBots(m) => ChatStateMutationV::MutateBots(m.deep_view()),
            ChatStateMutation::SetBotId(id) => ChatStateMutationV::SetBotId(id.deep_view()),
            ChatStateMutation::MutateMessages(m) => ChatStateMutationV::MutateMessages(
                m.deep_view(),
            ),
        }
    }
}

/// The state that applying one mutation to `s` produces.
pub open spec fn state_after(s: ChatStateV, m: ChatStateMutationV) -> ChatStateV {
    match m {
        ChatStateMutationV::SetIsStreaming(b) => ChatStateV { is_streaming: b, ..s },
        ChatStateMutationV::SetBotId(id) => ChatStateV { bot_id: id, ..s },
        ChatStateMutationV::MutateBots(vm) => {
            let bots = mutation_applied_deep(vm, s.bots);
            ChatStateV { bots, bot_id: revalidated_selection(s.bot_id, bots), ..s }
        },
        ChatStateMutationV::MutateMessages(vm) => ChatStateV {
            messages: mutation_applied_deep(vm, s.messages),
            ..s
        },
    }
}

impl ChatStateMutation {
    /// The state that applying this mutation to `s` produces.
    pub open spec fn applied_to(self, s: ChatStateV) -> ChatStateV {
        state_after(s, self@)
    }
}

/// Whether the exec-level roster holds a bot with this id.
pub fn roster_contains(bots: &Vec<Bot>, id: &BotId) -> (b: bool)
    ensures
        b == roster_has_id(bots.deep_view(), id@),
{
    let mut i: usize = 0;
    while i < bots.len()
        invariant
            i <= bots.len(),
            forall|j: int| 0 <= j < i ==> bots.deep_view()[j].id != id@,
        decreases bots.len() - i,
    {
        if bots[i].id.same_as(id) {
            proof {
                assert(bots.deep_view()[i as int].id == id@);
            }
            return true;
        }
        i += 1;
    }
    false
}

/// Apply one mutation to the state. This is the single place where state
/// changes happen; [`crate::controller::ChatController`] serializes all
/// calls to it.
pub fn apply_state_mutation(s: &mut ChatState, m: ChatStateMutation)
    ensures
        final(s)@ == m.applied_to(old(s)@),
{
    match m {
        ChatStateMutation::SetIsStreaming(b) => {
            s.is_streaming = b;
        }
        ChatStateMutation::SetBotId(id) => {
            s.bot_id = id;
        }
        ChatStateMutation::MutateBots(vm) => {
            proof {
                lemma_vec_mutation_deep(vm, s.bots@);
            }
            apply_mutation(&mut s.bots, vm);
            let clear = match &s.bot_id {
                Option::Some(id) => !roster_contains(&s.bots, id),
                Option::None => false,
            };
            if clear {
                s.bot_id = None;
            }
        }
        ChatStateMutation::MutateMessages(vm) => {
            proof {
                lemma_vec_mutation_deep(vm, s.messages@);
            }
            apply_mutation(&mut s.messages, vm);
        }
    }
}

/// Applying a mutation to a vector and then taking deep views agrees with
/// applying the mutation's view on the deep views.
pub proof fn lemma_vec_mutation_deep<T: DeepView>(m: VecMutation<T>, s: Seq<T>)
    ensures
        deep_of(m.applied_to(s)) == mutation_applied_deep(m.deep_view(), deep_of(s)),
{
    match m {
        VecMutation::Push(v) => {
            assert(deep_of(s.push(v)) =~= deep_of(s).push(v.deep_view()));
        }
        VecMutation::RemoveOne(i) => {
            if (i as int) < s.len() {
                assert(deep_of(s.remove(i as int)) =~= deep_of(s).remove(i as int));
            }
        }
        VecMutation::Update(i, v) => {
            if (i as int) < s.len() {
                assert(deep_of(s.update(i as int, v)) =~= deep_of(s).update(
                    i as int,
                    v.deep_view(),
                ));
            }
        }
        VecMutation::SetAll(vs) => {
            assert(deep_of(vs@) =~= vs.deep_view());
        }
    }
}

/// The deep views of a sequence of values.
pub open spec fn deep_of<T: DeepView>(s: Seq<T>) -> Seq<T::V> {
    Seq::new(s.len(), |i: int| s[i].deep_view())
}

/// Copy a message-list mutation; the copy edits any sequence exactly as
/// the original does.
pub fn clone_message_mutation(m: &VecMutation<Message>) -> (r: VecMutation<Message>)
    ensures
        r.deep_view() == m.deep_view(),
{
    match m {
        VecMutation::Push(x) => VecMutation::Push(x.clone()),
        VecMutation::RemoveOne(i) => VecMutation::RemoveOne(*i),
        VecMutation::Update(i, x) => VecMutation::Update(*i, x.clone()),
        VecMutation::SetAll(xs) => VecMutation::SetAll(clone_messages(xs)),
    }
}

/// Copy a roster mutation; the copy edits any sequence exactly as the
/// original does.
pub fn clone_bot_mutation(m: &VecMutation<Bot>) -> (r: VecMutation<Bot>)
    ensures
        r.deep_view() == m.deep_view(),
{
    match m {
        VecMutation::Push(x) => VecMutation::Push(x.clone()),
        VecMutation::RemoveOne(i) => VecMutation::RemoveOne(*i),
        VecMutation::Update(i, x) => VecMutation::Update(*i, x.clone()),
        VecMutation::SetAll(xs) => VecMutation::SetAll(clone_bots(xs)),
    }
}

/// Copy a state mutation; the copy moves any state exactly as the
/// original does.
pub fn clone_state_mutation(m: &ChatStateMutation) -> (r: ChatStateMutation)
    ensures
        r@ == m@,
{
    match m {
        ChatStateMutation::SetIsStreaming(b) => ChatStateMutation::SetIsStreaming(*b),
        ChatStateMutation::MutateBots(vm) => ChatStateMutation::MutateBots(clone_bot_mutation(vm)),
        ChatStateMutation::SetBotId(id) => ChatStateMutation::SetBotId(
            match id {
                Option::Some(b) => Option::Some(b.clone()),
                Option::None => Option::None,
            },
        ),
        ChatStateMutation::MutateMessages(vm) => ChatStateMutation::MutateMessages(
            clone_message_mutation(vm),
        ),
    }
}

/// Apply one mutation read through a reference, leaving the original
/// value to its owner.
pub fn apply_state_mutation_ref(s: &mut ChatState, m: &ChatStateMutation)
    ensures
        final(s)@ == m.applied_to(old(s)@),
{
    let owned = clone_state_mutation(m);
    apply_state_mutation(s, owned);
}

} // verus!
