//! The hash maps that hold pending state tokens, from the `ahash` crate, with
//! the operations the change set performs on them.

use crate::types::DataType;
use ahash::AHashMap;
use vstd::prelude::*;

verus! {

#[verifier::external_type_specification]
#[verifier::external_body]
#[verifier::reject_recursive_types(K)]
#[verifier::reject_recursive_types(V)]
#[verifier::reject_recursive_types(S)]
pub struct ExAHashMap<K, V, S>(AHashMap<K, V, S>);

#[verifier::external_type_specification]
#[verifier::external_body]
pub struct ExRandomState(ahash::RandomState);

/// Relies on `AHashMap`'s derived `Clone`; nothing is assumed of the copy.
pub assume_specification<K: Clone, V: Clone, S: Clone>[ <AHashMap<K, V, S> as Clone>::clone ](
    m: &AHashMap<K, V, S>,
) -> AHashMap<K, V, S>;

/// State tokens of one account, by data type.
pub type TypeStates = AHashMap<DataType, String>;

/// State tokens of every account, by account id and then by data type.
pub type AccountStates = AHashMap<String, AHashMap<DataType, String>>;

/// What a map of one account's state tokens holds.
pub uninterp spec fn type_tokens(m: AHashMap<DataType, String>) -> Map<DataType, Seq<char>>;

/// What a map of every account's state tokens holds.
pub uninterp spec fn account_tokens(m: AHashMap<String, AHashMap<DataType, String>>) -> Map<
    Seq<char>,
    Map<DataType, Seq<char>>,
>;

/// `v` lists each entry of `m` exactly once, in some order.
pub open spec fn lists_pairs(v: Seq<(DataType, String)>, m: Map<DataType, Seq<char>>) -> bool {
    &&& forall|i: int, j: int|
        0 <= i < j < v.len() ==> (#[trigger] v[i]).0 != (#[trigger] v[j]).0
    &&& forall|i: int|
        0 <= i < v.len() ==> m.contains_key((#[trigger] v[i]).0) && m[v[i].0] == v[i].1@
    &&& forall|t: DataType| #[trigger]
        m.contains_key(t) ==> exists|i: int| 0 <= i < v.len() && (#[trigger] v[i]).0 == t
}

/// `v` lists each element of `keys` exactly once, in some order.
pub open spec fn lists_keys(v: Seq<String>, keys: Set<Seq<char>>) -> bool {
    &&& forall|i: int, j: int| 0 <= i < j < v.len() ==> (#[trigger] v[i])@ != (#[trigger] v[j])@
    &&& forall|i: int| 0 <= i < v.len() ==> keys.contains((#[trigger] v[i])@)
    &&& forall|k: Seq<char>| #[trigger]
        keys.contains(k) ==> exists|i: int| 0 <= i < v.len() && (#[trigger] v[i])@ == k
}

/// Relies on `AHashMap::remove`: takes the entry of the key out of the map and
/// returns its value, or `None` where the key has no entry.
#[verifier::external_body]
pub(crate) fn remove_account(m: &mut AccountStates, account_id: &str) -> (r: Option<TypeStates>)
    ensures
        account_tokens(*final(m)) == account_tokens(*old(m)).remove(account_id@),
        r is Some <==> account_tokens(*old(m)).contains_key(account_id@),
        r is Some ==> type_tokens(r->Some_0) == account_tokens(*old(m))[account_id@],
{
    m.remove(account_id)
}

/// Relies on `AHashMap::get`: the value stored under the key, or `None`.
#[verifier::external_body]
pub(crate) fn get_account<'a>(m: &'a AccountStates, account_id: &str) -> (r: Option<
    &'a TypeStates,
>)
    ensures
        r is Some <==> account_tokens(*m).contains_key(account_id@),
        r is Some ==> type_tokens(*r->Some_0) == account_tokens(*m)[account_id@],
{
    m.get(account_id)
}

/// Relies on `HashMap::keys`, reached through `AHashMap`'s `Deref`: it visits
/// every key once, in an order that the hasher decides.
#[verifier::external_body]
pub(crate) fn account_ids(m: &AccountStates) -> (r: Vec<String>)
    ensures
        lists_keys(r@, account_tokens(*m).dom()),
{
    m.keys().cloned().collect()
}

/// Relies on `AHashMap`'s `PartialEq`: two maps are equal when they hold the
/// same keys, with equal values under each; `String` and the inner maps compare
/// by content.
#[verifier::external_body]
pub(crate) fn same_accounts(a: &AccountStates, b: &AccountStates) -> (r: bool)
    ensures
        r == (account_tokens(*a) == account_tokens(*b)),
{
    a == b
}

/// Relies on `HashMap::contains_key`, reached through `AHashMap`'s `Deref`.
#[verifier::external_body]
pub(crate) fn has_type_token(m: &TypeStates, type_: &DataType) -> (r: bool)
    ensures
        r == type_tokens(*m).contains_key(*type_),
{
    m.contains_key(type_)
}

/// Relies on `HashMap::is_empty`, reached through `AHashMap`'s `Deref`.
#[verifier::external_body]
pub(crate) fn no_type_tokens(m: &TypeStates) -> (r: bool)
    ensures
        r == (type_tokens(*m) == Map::<DataType, Seq<char>>::empty()),
{
    m.is_empty()
}

/// Relies on `HashMap::iter`, reached through `AHashMap`'s `Deref`: it visits
/// every entry once, in an order that the hasher decides.
#[verifier::external_body]
pub(crate) fn type_entries(m: &TypeStates) -> (r: Vec<(DataType, String)>)
    ensures
        lists_pairs(r@, type_tokens(*m)),
{
    m.iter().map(|(t, s)| (*t, s.clone())).collect()
}

} // verus!
