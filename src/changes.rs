//! A snapshot of pending changes: for each account, the latest state token of
//! each data type that changed. Accounts are drained one at a time, so each
//! account's changes leave the set at most once.

use crate::account_map::{
    account_ids, account_tokens, get_account, has_type_token, lists_keys, lists_pairs,
    no_type_tokens, remove_account, same_accounts, type_entries, type_tokens, AccountStates,
    TypeStates,
};
use crate::types::DataType;
use vstd::prelude::*;

verus! {

/// Pending state tokens, by account id and then by data type.
pub type TokenMap = Map<Seq<char>, Map<DataType, Seq<char>>>;

/// The characters of an optional string.
pub open spec fn opt_chars(o: Option<String>) -> Option<Seq<char>> {
    match o {
        Some(s) => Some(s@),
        None => None,
    }
}

/// The characters of an optional string slice.
pub open spec fn opt_str_chars(o: Option<&str>) -> Option<Seq<char>> {
    match o {
        Some(s) => Some(s@),
        None => None,
    }
}

/// What an optional map of one account's state tokens holds.
pub open spec fn opt_type_tokens(o: Option<TypeStates>) -> Option<Map<DataType, Seq<char>>> {
    match o {
        Some(m) => Some(type_tokens(m)),
        None => None,
    }
}

/// The entry of `account` in `m`, if it has one.
pub open spec fn entry_of(m: TokenMap, account: Seq<char>) -> Option<Map<DataType, Seq<char>>> {
    if m.contains_key(account) {
        Some(m[account])
    } else {
        None
    }
}

/// Some account in `m` holds a state token for `type_`.
pub open spec fn holds_type(m: TokenMap, type_: DataType) -> bool {
    exists|a: Seq<char>| #[trigger] m.contains_key(a) && m[a].contains_key(type_)
}

/// No account in `m` holds any state token.
pub open spec fn nothing_pending(m: TokenMap) -> bool {
    forall|a: Seq<char>| #[trigger] m.contains_key(a) ==> m[a] == Map::<DataType, Seq<char>>::empty()
}

/// One snapshot of pending changes across accounts.
#[derive(Debug, Clone)]
pub struct Changes {
    id: Option<String>,
    changes: AccountStates,
}

impl View for Changes {
    type V = TokenMap;

    closed spec fn view(&self) -> TokenMap {
        account_tokens(self.changes)
    }
}

impl Changes {
    /// The correlation identifier that the producer gave the set.
    pub closed spec fn id_spec(&self) -> Option<Seq<char>> {
        opt_chars(self.id)
    }

    pub fn new(id: Option<String>, changes: AccountStates) -> (r: Changes)
        ensures
            r.id_spec() == opt_chars(id),
            r@ == account_tokens(changes),
    {
        Changes { id, changes }
    }

    pub fn id(&self) -> (r: Option<&str>)
        ensures
            opt_str_chars(r) == self.id_spec(),
    {
        match &self.id {
            Some(s) => Some(s.as_str()),
            None => None,
        }
    }

    /// Removes and returns the state tokens of `account_id`.
    pub fn account_changes(&mut self, account_id: &str) -> (r: Option<TypeStates>)
        ensures
            opt_type_tokens(r) == entry_of(old(self)@, account_id@),
            final(self)@ == old(self)@.remove(account_id@),
            final(self).id_spec() == old(self).id_spec(),
    {
        remove_account(&mut self.changes, account_id)
    }

    /// The ids of the accounts that still hold an entry, each once.
    pub fn changed_accounts(&self) -> (r: Vec<String>)
        ensures
            lists_keys(r@, self@.dom()),
    {
        account_ids(&self.changes)
    }

    /// The (type, state token) pairs of `account_id`, each once, where the
    /// account still holds an entry.
    pub fn changes(&self, account_id: &str) -> (r: Option<Vec<(DataType, String)>>)
        ensures
            r is Some <==> self@.contains_key(account_id@),
            r is Some ==> lists_pairs(r->Some_0@, self@[account_id@]),
    {
        match get_account(&self.changes, account_id) {
            Some(m) => Some(type_entries(m)),
            None => None,
        }
    }

    pub fn has_type(&self, type_: DataType) -> (r: bool)
        ensures
            r == holds_type(self@, type_),
    {
        let ids = account_ids(&self.changes);
        let mut i: usize = 0;
        while i < ids.len()
            invariant
                lists_keys(ids@, self@.dom()),
                i <= ids.len(),
                forall|j: int| 0 <= j < i ==> !self@[#[trigger] ids@[j]@].contains_key(type_),
            decreases ids.len() - i,
        {
            let found = match get_account(&self.changes, ids[i].as_str()) {
                Some(m) => has_type_token(m, &type_),
                None => false,
            };
            if found {
                assert(self@.contains_key(ids@[i as int]@));
                return true;
            }
            i = i + 1;
        }
        assert forall|a: Seq<char>| #[trigger] self@.contains_key(a) implies !self@[a].contains_key(
            type_,
        ) by {
            assert(self@.dom().contains(a));
        }
        false
    }

    /// Hands over every entry that was not drained.
    pub fn into_inner(self) -> (r: AccountStates)
        ensures
            account_tokens(r) == self@,
    {
        self.changes
    }

    /// `true` when no account holds any state token.
    pub fn is_empty(&self) -> (r: bool)
        ensures
            r == nothing_pending(self@),
    {
        let ids = account_ids(&self.changes);
        let mut i: usize = 0;
        while i < ids.len()
            invariant
                lists_keys(ids@, self@.dom()),
                i <= ids.len(),
                forall|j: int|
                    0 <= j < i ==> self@[#[trigger] ids@[j]@] == Map::<DataType, Seq<char>>::empty(),
            decreases ids.len() - i,
        {
            let empty = match get_account(&self.changes, ids[i].as_str()) {
                Some(m) => no_type_tokens(m),
                None => true,
            };
            if !empty {
                assert(self@.contains_key(ids@[i as int]@));
                return false;
            }
            i = i + 1;
        }
        assert forall|a: Seq<char>| #[trigger] self@.contains_key(a) implies self@[a] == Map::<
            DataType,
            Seq<char>,
        >::empty() by {
            assert(self@.dom().contains(a));
        }
        true
    }
}

/// Two change sets are equal when they carry the same id and the same pending
/// state tokens, whatever order the entries were inserted in.
pub open spec fn same_changes(a: &Changes, b: &Changes) -> bool {
    a.id_spec() == b.id_spec() && a@ == b@
}

impl PartialEq for Changes {
    fn eq(&self, other: &Changes) -> (r: bool)
        ensures
            r == same_changes(self, other),
    {
        let same_id = match (&self.id, &other.id) {
            (Some(a), Some(b)) => a.eq(b),
            (None, None) => true,
            _ => false,
        };
        same_id && same_accounts(&self.changes, &other.changes)
    }
}

impl Eq for Changes {

}

impl vstd::std_specs::cmp::PartialEqSpecImpl for Changes {
    open spec fn obeys_eq_spec() -> bool {
        true
    }

    open spec fn eq_spec(&self, other: &Changes) -> bool {
        same_changes(self, other)
    }
}

} // verus!
