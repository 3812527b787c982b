//! The registry of connected accounts.
//!
//! It holds, for each account, its client and the handle of its connection's
//! command queue (`H`, chosen by the runtime). Callers share it behind a
//! reader/writer lock.
use vstd::prelude::*;
use crate::account::{probe_outcome, AuthError, BotClient};
use crate::json::{str_eq, str_member, JsonValue};

verus! {

/// Business commands for an account's connection.
#[derive(Debug, Clone)]
pub enum BotCommand {
    LeaveChannel(String, String),
    JoinChannel(String, String),
    Disconnect,
}

/// The accounts under management, in the order they were added.
#[derive(Debug)]
pub struct BotManager<H> {
    pub bots: Vec<(Option<H>, BotClient)>,
}

/// The account ids of a registry's entries, in order.
pub open spec fn account_ids<H>(bots: Seq<(Option<H>, BotClient)>) -> Seq<Seq<char>> {
    bots.map_values(|e: (Option<H>, BotClient)| e.1.account_id@)
}

impl<H> BotManager<H> {
    /// An empty registry.
    pub fn new() -> (r: BotManager<H>)
        ensures
            r.bots@.len() == 0,
    {
        BotManager { bots: Vec::new() }
    }

    /// How many accounts are registered.
    pub fn len(&self) -> (r: usize)
        ensures
            r == self.bots@.len(),
    {
        self.bots.len()
    }

    /// Registers a client with the handle of its connection, if any yet.
    pub fn new_bot(&mut self, client: BotClient, handle: Option<H>)
        ensures
            final(self).bots@ == old(self).bots@.push((handle, client)),
    {
        self.bots.push((handle, client));
    }

    /// Adds the account of credential `token`, given the identity probe's
    /// answer for it. On success the client is registered without a handle
    /// and its index is returned: the caller opens its connection and
    /// attaches the handle. On failure nothing is registered.
    pub fn add_account(&mut self, token: String, created_by: String, probe: &JsonValue) -> (r: Result<
        usize,
        AuthError,
    >)
        ensures
            match r {
                Ok(i) => {
                    &&& probe_outcome(probe@) is Ok
                    &&& i == old(self).bots@.len()
                    &&& final(self).bots@.len() == old(self).bots@.len() + 1
                    &&& final(self).bots@.subrange(0, i as int) == old(self).bots@
                    &&& final(self).bots@[i as int].0 is None
                    &&& str_member(probe@, "id"@) == Some(final(self).bots@[i as int].1.account_id@)
                    &&& str_member(probe@, "username"@) == Some(
                        final(self).bots@[i as int].1.username@,
                    )
                    &&& final(self).bots@[i as int].1.account_token == token
                    &&& final(self).bots@[i as int].1.created_by == created_by
                },
                Err(e) => {
                    &&& probe_outcome(probe@) == Err::<(), AuthError>(e)
                    &&& final(self).bots@ == old(self).bots@
                },
            },
    {
        match BotClient::new(token, created_by, probe) {
            Err(e) => Err(e),
            Ok(client) => {
                let i = self.bots.len();
                self.bots.push((None, client));
                assert(self.bots@.subrange(0, i as int) =~= old(self).bots@);
                Ok(i)
            },
        }
    }

    /// Attaches the handle of an entry's connection.
    pub fn attach(&mut self, index: usize, handle: H)
        requires
            index < old(self).bots@.len(),
        ensures
            final(self).bots@.len() == old(self).bots@.len(),
            forall|j: int|
                0 <= j < old(self).bots@.len() && j != index ==> final(self).bots@[j]
                    == old(self).bots@[j],
            final(self).bots@[index as int].0 == Some(handle),
            final(self).bots@[index as int].1 == old(self).bots@[index as int].1,
    {
        let (_old_handle, client) = self.bots.remove(index);
        self.bots.insert(index, (Some(handle), client));
    }

    /// Whether the account `account_id` is registered.
    pub fn contains(&self, account_id: &str) -> (r: bool)
        ensures
            r == account_ids(self.bots@).contains(account_id@),
    {
        match self.position(account_id) {
            Some(i) => {
                assert(account_ids(self.bots@)[i as int] == account_id@);
                true
            },
            None => false,
        }
    }

    /// The index of the first entry for `account_id`.
    pub fn position(&self, account_id: &str) -> (r: Option<usize>)
        ensures
            match r {
                Some(i) => {
                    &&& i < self.bots@.len()
                    &&& self.bots@[i as int].1.account_id@ == account_id@
                    &&& forall|j: int| 0 <= j < i ==> self.bots@[j].1.account_id@ != account_id@
                },
                None => !account_ids(self.bots@).contains(account_id@),
            },
    {
        let mut i: usize = 0;
        while i < self.bots.len()
            invariant
                i <= self.bots@.len(),
                forall|j: int| 0 <= j < i ==> self.bots@[j].1.account_id@ != account_id@,
            decreases self.bots@.len() - i,
        {
            if str_eq(self.bots[i].1.account_id.as_str(), account_id) {
                return Some(i);
            }
            i = i + 1;
        }
        proof {
            if account_ids(self.bots@).contains(account_id@) {
                let k = choose|k: int|
                    0 <= k < account_ids(self.bots@).len() && account_ids(self.bots@)[k]
                        == account_id@;
                assert(self.bots@[k].1.account_id@ == account_id@);
            }
        }
        None
    }

    /// Removes the first entry for `account_id` and hands it back, so that
    /// the caller can close its connection's queue. Other entries keep their
    /// order.
    pub fn remove_account(&mut self, account_id: &str) -> (r: Option<(Option<H>, BotClient)>)
        ensures
            match r {
                Some(e) => exists|i: int|
                    {
                        &&& 0 <= i < old(self).bots@.len()
                        &&& old(self).bots@[i] == e
                        &&& e.1.account_id@ == account_id@
                        &&& forall|j: int|
                            0 <= j < i ==> old(self).bots@[j].1.account_id@ != account_id@
                        &&& final(self).bots@ == old(self).bots@.remove(i)
                    },
                None => {
                    &&& !account_ids(old(self).bots@).contains(account_id@)
                    &&& final(self).bots@ == old(self).bots@
                },
            },
    {
        match self.position(account_id) {
            None => None,
            Some(i) => {
                let e = self.bots.remove(i);
                Some(e)
            },
        }
    }
}

} // verus!
