//! Facts that hold across several operations on a change set.

use crate::account_map::lists_pairs;
use crate::changes::{entry_of, holds_type, nothing_pending, same_changes, Changes, TokenMap};
use crate::notification::{same_notification, PushNotification};
use crate::types::{CalendarAlert, DataType};
use vstd::prelude::*;

verus! {

/// The pending state tokens left after draining the accounts of `drained`, in
/// order, with `Changes::account_changes`.
pub open spec fn after_drains(m: TokenMap, drained: Seq<Seq<char>>) -> TokenMap
    decreases drained.len(),
{
    if drained.len() == 0 {
        m
    } else {
        after_drains(m, drained.drop_last()).remove(drained.last())
    }
}

/// A change set holds nothing exactly when, for every account it holds,
/// `Changes::changes` lists no pairs.
pub proof fn law_empty_iff_no_pairs(m: TokenMap, listed: Map<Seq<char>, Seq<(DataType, String)>>)
    requires
        forall|a: Seq<char>| #[trigger]
            m.contains_key(a) ==> listed.contains_key(a) && lists_pairs(listed[a], m[a]),
    ensures
        nothing_pending(m) <==> forall|a: Seq<char>| #[trigger]
            m.contains_key(a) ==> listed[a].len() == 0,
{
    if nothing_pending(m) {
        assert forall|a: Seq<char>| #[trigger] m.contains_key(a) implies listed[a].len() == 0 by {
            if listed[a].len() > 0 {
                assert(m[a].contains_key(listed[a][0].0));
            }
        }
    }
    if forall|a: Seq<char>| #[trigger] m.contains_key(a) ==> listed[a].len() == 0 {
        assert forall|a: Seq<char>| #[trigger]
            m.contains_key(a) implies m[a] == Map::<DataType, Seq<char>>::empty() by {
            assert(listed[a].len() == 0);
            assert(m[a] =~= Map::<DataType, Seq<char>>::empty());
        }
    }
}

/// Draining an account returns all its state tokens; draining it again
/// returns nothing.
pub proof fn law_drain_once(m: TokenMap, account: Seq<char>)
    ensures
        m.contains_key(account) ==> entry_of(m, account) == Some(m[account]),
        entry_of(m.remove(account), account) is None,
{
}

/// Draining a list of accounts removes exactly those accounts and keeps every
/// other entry as it was.
pub proof fn law_drains_remove_exactly(m: TokenMap, drained: Seq<Seq<char>>)
    ensures
        after_drains(m, drained) == m.remove_keys(drained.to_set()),
    decreases drained.len(),
{
    if drained.len() == 0 {
        assert(drained.to_set() =~= Set::<Seq<char>>::empty());
        assert(m.remove_keys(drained.to_set()) =~= m);
    } else {
        let rest = drained.drop_last();
        law_drains_remove_exactly(m, rest);
        assert(drained =~= rest.push(drained.last()));
        assert(drained.to_set() =~= rest.to_set().insert(drained.last())) by {
            assert forall|k: Seq<char>| drained.to_set().contains(k) implies rest.to_set().insert(
                drained.last(),
            ).contains(k) by {
                let i = choose|i: int| 0 <= i < drained.len() && drained[i] == k;
                if i < drained.len() - 1 {
                    assert(rest[i] == k);
                }
            }
            assert forall|k: Seq<char>| rest.to_set().insert(drained.last()).contains(k) implies drained.to_set().contains(k) by {
                if k != drained.last() {
                    let i = choose|i: int| 0 <= i < rest.len() && rest[i] == k;
                    assert(drained[i] == k);
                } else {
                    assert(drained[drained.len() - 1] == k);
                }
            }
        }
        assert(after_drains(m, drained) =~= m.remove_keys(drained.to_set()));
    }
}

/// Once every account that held a token of `type_` has been drained, no
/// account holds one.
pub proof fn law_type_gone_after_drains(m: TokenMap, type_: DataType, drained: Seq<Seq<char>>)
    requires
        forall|a: Seq<char>| #[trigger]
            m.contains_key(a) && m[a].contains_key(type_) ==> drained.contains(a),
    ensures
        !holds_type(after_drains(m, drained), type_),
{
    law_drains_remove_exactly(m, drained);
    let left = after_drains(m, drained);
    assert forall|a: Seq<char>| #[trigger] left.contains_key(a) implies !left[a].contains_key(
        type_,
    ) by {
        if m[a].contains_key(type_) {
            assert(drained.to_set().contains(a));
        }
    }
}

/// Change sets with the same id and the same pending state tokens are equal,
/// whatever order their entries were inserted in.
pub proof fn law_same_content_equal(a: Changes, b: Changes)
    requires
        a.id_spec() == b.id_spec(),
        a@ == b@,
    ensures
        same_changes(&a, &b),
{
}

/// A state change is never equal to a calendar alert.
pub proof fn law_variants_differ(changes: Changes, alert: CalendarAlert)
    ensures
        !same_notification(
            &PushNotification::StateChange(changes),
            &PushNotification::CalendarAlert(alert),
        ),
        !same_notification(
            &PushNotification::CalendarAlert(alert),
            &PushNotification::StateChange(changes),
        ),
{
}

} // verus!
