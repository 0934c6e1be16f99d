//! The multi-client router: several bot clients behind one handle.
//!
//! Each inner client is registered with a key and the roster of bots it
//! exposes; bot ids are globally unique because they are namespaced by
//! the owning client. `bots` concatenates the rosters in registration
//! order; `route` finds the client owning an addressed bot id. Streams
//! already in flight are bound to their own cloned client handle outside
//! this crate, so adding or removing entries here never disturbs them.

use vstd::prelude::*;

use crate::client::{ClientError, ClientErrorKind};
use crate::model::{clone_bots, Bot, BotId, BotV};
use crate::state::roster_has_id;

verus! {

/// The mathematical view of a [`ClientRoster`].
pub struct ClientRosterV {
    pub key: u64,
    pub bots: Seq<BotV>,
}

/// One registered client: its key and the bots it exposes.
#[derive(Debug)]
pub struct ClientRoster {
    pub key: u64,
    pub bots: Vec<Bot>,
}

impl View for ClientRoster {
    type V = ClientRosterV;

    open spec fn view(&self) -> ClientRosterV {
        ClientRosterV { key: self.key, bots: self.bots.deep_view() }
    }
}

impl DeepView for ClientRoster {
    type V = ClientRosterV;

    open spec fn deep_view(&self) -> ClientRosterV {
        self@
    }
}

/// The concatenation of all rosters, in registration order.
pub open spec fn combined_rosters(entries: Seq<ClientRosterV>) -> Seq<BotV>
    decreases entries.len(),
{
    if entries.len() == 0 {
        Seq::empty()
    } else {
        entries.first().bots + combined_rosters(entries.drop_first())
    }
}

/// Whether some registered client's roster holds this bot id.
pub open spec fn some_client_claims(entries: Seq<ClientRosterV>, id: Seq<char>) -> bool {
    exists|i: int| 0 <= i < entries.len() && roster_has_id(entries[i].bots, id)
}

/// The index of the first registered client whose roster holds this bot
/// id; meaningful only when one exists.
pub open spec fn owning_client_index(entries: Seq<ClientRosterV>, id: Seq<char>) -> int {
    choose|k: int|
        0 <= k < entries.len() && roster_has_id(entries[k].bots, id) && (forall|j: int|
            0 <= j < k ==> !roster_has_id(entries[j].bots, id))
}

proof fn lemma_owning_client_index(entries: Seq<ClientRosterV>, id: Seq<char>, i: int)
    requires
        0 <= i < entries.len(),
        roster_has_id(entries[i].bots, id),
        forall|j: int| 0 <= j < i ==> !roster_has_id(entries[j].bots, id),
    ensures
        owning_client_index(entries, id) == i,
{
    let k = owning_client_index(entries, id);
    assert(0 <= k < entries.len() && roster_has_id(entries[k].bots, id) && (forall|j: int|
        0 <= j < k ==> !roster_has_id(entries[j].bots, id)));
    if k < i {
        assert(!roster_has_id(entries[k].bots, id));
    }
    if i < k {
        assert(!roster_has_id(entries[i].bots, id));
    }
}

/// An ordered collection of bot clients behind one handle.
#[derive(Debug)]
pub struct MultiClient {
    pub entries: Vec<ClientRoster>,
}

impl View for MultiClient {
    type V = Seq<ClientRosterV>;

    open spec fn view(&self) -> Seq<ClientRosterV> {
        self.entries.deep_view()
    }
}

impl MultiClient {
    /// A router with no registered clients.
    pub fn new() -> (r: MultiClient)
        ensures
            r@ == Seq::<ClientRosterV>::empty(),
    {
        let r = MultiClient { entries: Vec::new() };
        proof {
            assert(r@ =~= Seq::<ClientRosterV>::empty());
        }
        r
    }

    /// Register a client (with the roster it exposes) behind `key`, after
    /// all already registered clients.
    pub fn push_client(&mut self, key: u64, bots: Vec<Bot>)
        ensures
            final(self)@ == old(self)@.push(ClientRosterV { key, bots: bots.deep_view() }),
    {
        let ghost pre = self@;
        let ghost botsv = bots.deep_view();
        self.entries.push(ClientRoster { key, bots });
        proof {
            assert forall|j: int| 0 <= j < self@.len() implies self@[j] == pre.push(
                ClientRosterV { key, bots: botsv },
            )[j] by {
                if j < pre.len() {
                    assert(self.entries@[j] == old(self).entries@[j]);
                }
            }
            assert(self@ =~= pre.push(ClientRosterV { key, bots: botsv }));
        }
    }

    /// Unregister the client behind `key`, if it is registered. Only the
    /// first entry with that key is removed.
    #[verifier::rlimit(60)]
    pub fn remove_client(&mut self, key: u64)
        ensures
            (forall|j: int| 0 <= j < old(self)@.len() ==> old(self)@[j].key != key)
                ==> final(self)@ == old(self)@,
            (exists|j: int| 0 <= j < old(self)@.len() && old(self)@[j].key == key) ==> {
                let k = first_with_key(old(self)@, key);
                final(self)@ == old(self)@.remove(k)
            },
    {
        let mut i: usize = 0;
        while i < self.entries.len()
            invariant
                i <= self.entries.len(),
                self@ == old(self)@,
                self.entries@ == old(self).entries@,
                forall|j: int| 0 <= j < i ==> self@[j].key != key,
            decreases self.entries.len() - i,
        {
            if self.entries[i].key == key {
                let ghost pre = self@;
                let ghost pre_sh = self.entries@;
                self.entries.remove(i);
                proof {
                    assert(pre[i as int] == pre_sh[i as int]@);
                    assert(pre[i as int].key == key);
                    lemma_first_with_key(pre, key, i as int);
                    assert forall|j: int| 0 <= j < self@.len() implies self@[j] == pre.remove(
                        i as int,
                    )[j] by {
                        if j < i {
                            assert(self.entries@[j] == pre_sh[j]);
                        } else {
                            assert(self.entries@[j] == pre_sh[j + 1]);
                        }
                    }
                    assert(self@ =~= pre.remove(i as int));
                }
                return ;
            }
            i += 1;
        }
    }

    /// The merged roster: every client's bots, concatenated in
    /// registration order.
    pub fn bots(&self) -> (r: Vec<Bot>)
        ensures
            r.deep_view() == combined_rosters(self@),
    {
        let mut r: Vec<Bot> = Vec::new();
        let mut i: usize = 0;
        proof {
            lemma_combined_rosters_take(self@, 0);
            assert(r.deep_view() =~= combined_rosters(self@.take(0)));
        }
        while i < self.entries.len()
            invariant
                i <= self.entries.len(),
                r.deep_view() == combined_rosters(self@.take(i as int)),
            decreases self.entries.len() - i,
        {
            let ghost pre = r.deep_view();
            let ghost pre_sh = r@;
            let mut part = clone_bots(&self.entries[i].bots);
            let ghost part_sh = part@;
            r.append(&mut part);
            proof {
                assert(r@ == pre_sh + part_sh);
                assert forall|j: int| 0 <= j < r.deep_view().len() implies r.deep_view()[j] == (
                pre + self@[i as int].bots)[j] by {
                    if j < pre.len() {
                        assert(r@[j] == pre_sh[j]);
                    } else {
                        assert(r@[j] == part_sh[j - pre.len()]);
                    }
                }
                assert(r.deep_view() =~= pre + self@[i as int].bots);
                lemma_combined_rosters_take_step(self@, i as int);
            }
            i += 1;
        }
        proof {
            assert(self@.take(self@.len() as int) =~= self@);
        }
        r
    }

    /// The key of the client owning the addressed bot id: the first
    /// registered client whose roster holds it. Fails with a `Response`
    /// error when no client claims the id.
    pub fn route(&self, id: &BotId) -> (r: Result<u64, ClientError>)
        ensures
            match r {
                Result::Ok(key) => some_client_claims(self@, id@) && key == self@[owning_client_index(
                    self@,
                    id@,
                )].key,
                Result::Err(e) => !some_client_claims(self@, id@) && e.kind
                    == ClientErrorKind::Response,
            },
    {
        let mut i: usize = 0;
        while i < self.entries.len()
            invariant
                i <= self.entries.len(),
                forall|j: int| 0 <= j < i ==> !roster_has_id(self@[j].bots, id@),
            decreases self.entries.len() - i,
        {
            proof {
                assert(self@[i as int].bots == self.entries@[i as int].bots.deep_view());
            }
            if crate::state::roster_contains(&self.entries[i].bots, id) {
                proof {
                    lemma_owning_client_index(self@, id@, i as int);
                    assert(self@[i as int].key == self.entries@[i as int].key);
                }
                return Result::Ok(self.entries[i].key);
            }
            i += 1;
        }
        Result::Err(ClientError::new(ClientErrorKind::Response, bot_not_found_message()))
    }
}

/// The index of the first entry carrying `key`; meaningful only when one
/// exists.
pub open spec fn first_with_key(entries: Seq<ClientRosterV>, key: u64) -> int {
    choose|k: int|
        0 <= k < entries.len() && entries[k].key == key && (forall|j: int|
            0 <= j < k ==> entries[j].key != key)
}

proof fn lemma_first_with_key(entries: Seq<ClientRosterV>, key: u64, i: int)
    requires
        0 <= i < entries.len(),
        entries[i].key == key,
        forall|j: int| 0 <= j < i ==> entries[j].key != key,
    ensures
        first_with_key(entries, key) == i,
{
    let k = first_with_key(entries, key);
    assert(0 <= k < entries.len() && entries[k].key == key && (forall|j: int|
        0 <= j < k ==> entries[j].key != key));
    if k < i {
        assert(entries[k].key != key);
    }
    if i < k {
        assert(entries[i].key != key);
    }
}

proof fn lemma_combined_rosters_take(entries: Seq<ClientRosterV>, n: int)
    requires
        n == 0,
    ensures
        combined_rosters(entries.take(n)) == Seq::<BotV>::empty(),
{
    assert(entries.take(0).len() == 0);
}

proof fn lemma_combined_rosters_take_step(entries: Seq<ClientRosterV>, i: int)
    requires
        0 <= i < entries.len(),
    ensures
        combined_rosters(entries.take(i + 1)) == combined_rosters(entries.take(i)) + entries[i].bots,
    decreases i,
{
    if i == 0 {
        assert(entries.take(1).first() == entries[0]);
        assert(entries.take(1).drop_first() =~= entries.take(0));
        assert(combined_rosters(entries.take(0)) =~= Seq::<BotV>::empty());
        assert(combined_rosters(entries.take(1)) =~= entries[0].bots);
        assert(combined_rosters(entries.take(0)) + entries[0].bots =~= entries[0].bots);
    } else {
        lemma_combined_rosters_take_step(entries.drop_first(), i - 1);
        assert(entries.take(i + 1).first() == entries.first());
        assert(entries.take(i + 1).drop_first() =~= entries.drop_first().take(i));
        assert(entries.take(i).first() == entries.first());
        assert(entries.take(i).drop_first() =~= entries.drop_first().take(i - 1));
        assert(entries.drop_first()[i - 1] == entries[i]);
        assert(entries.first().bots + (combined_rosters(entries.drop_first().take(i - 1))
            + entries[i].bots) =~= (entries.first().bots + combined_rosters(
            entries.drop_first().take(i - 1),
        )) + entries[i].bots);
    }
}

/// The error message a failed routing carries.
fn bot_not_found_message() -> (r: String)
    ensures
        r@ == "bot not found"@,
{
    "bot not found".to_owned()
}

} // verus!
