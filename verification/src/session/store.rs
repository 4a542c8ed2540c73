//! The trusted face of the concurrent session store: the outside map type,
//! a name for its contents, and one wrapper per operation the registry
//! uses.

use vstd::prelude::*;

use crate::battle::dto::AiBattleSession;

verus! {

#[verifier::external_type_specification]
#[verifier::external_body]
#[verifier::reject_recursive_types(K)]
#[verifier::reject_recursive_types(V)]
#[verifier::reject_recursive_types(S)]
pub struct ExDashMap<K, V, S>(dashmap::DashMap<K, V, S>);

/// The concurrent map the registry keeps its sessions in.
pub type SessionStore = dashmap::DashMap<u128, AiBattleSession>;

/// What the session store holds: a map from session identifier to session.
pub uninterp spec fn session_store_contents(m: SessionStore) -> Map<u128, AiBattleSession>;

/// The contents of a store that holds nothing.
pub open spec fn empty_sessions() -> Map<u128, AiBattleSession> {
    Map::empty()
}

/// Relies on `dashmap::DashMap::new`: a freshly created map is empty.
#[verifier::external_body]
pub(crate) fn store_new() -> (r: SessionStore)
    ensures
        session_store_contents(r) == empty_sessions(),
{
    dashmap::DashMap::new()
}

/// Relies on `dashmap::DashMap::len`: the number of entries held, which is
/// finite.
#[verifier::external_body]
pub(crate) fn store_len(m: &SessionStore) -> (n: usize)
    ensures
        n == session_store_contents(*m).dom().len(),
{
    m.len()
}

/// Relies on `dashmap::DashMap::contains_key`.
#[verifier::external_body]
pub(crate) fn store_contains(m: &dashmap::DashMap<u128, AiBattleSession>, key: u128) -> (r: bool)
    ensures
        r == session_store_contents(*m).contains_key(key),
{
    m.contains_key(&key)
}

/// Relies on `dashmap::DashMap::insert`: the entry is added, replacing any
/// entry under the same key.
#[verifier::external_body]
pub(crate) fn store_insert(
    m: &mut dashmap::DashMap<u128, AiBattleSession>,
    key: u128,
    value: AiBattleSession,
)
    ensures
        session_store_contents(*final(m)) == session_store_contents(*old(m)).insert(key, value),
{
    m.insert(key, value);
}

/// Relies on `dashmap::DashMap::get`: hands out a copy of the entry under
/// the key.
#[verifier::external_body]
pub(crate) fn store_get(m: &dashmap::DashMap<u128, AiBattleSession>, key: u128) -> (r: Option<
    AiBattleSession,
>)
    ensures
        r matches Some(s) ==> session_store_contents(*m).contains_key(key) && s
            == session_store_contents(*m)[key],
        r is None ==> !session_store_contents(*m).contains_key(key),
{
    match m.get(&key) {
        Some(entry) => Some(entry.value().clone()),
        None => None,
    }
}

/// Relies on `dashmap::DashMap::get_mut`: overwrites the entry under the
/// key where one exists, and reports whether one did.
#[verifier::external_body]
pub(crate) fn store_update(
    m: &mut dashmap::DashMap<u128, AiBattleSession>,
    key: u128,
    value: AiBattleSession,
) -> (r: bool)
    ensures
        r == session_store_contents(*old(m)).contains_key(key),
        r ==> session_store_contents(*final(m)) == session_store_contents(*old(m)).insert(
            key,
            value,
        ),
        !r ==> session_store_contents(*final(m)) == session_store_contents(*old(m)),
{
    match m.get_mut(&key) {
        Some(mut entry) => {
            *entry = value;
            true
        },
        None => false,
    }
}

/// Relies on `dashmap::DashMap::remove`: takes the entry under the key out
/// and returns it.
#[verifier::external_body]
pub(crate) fn store_remove(m: &mut dashmap::DashMap<u128, AiBattleSession>, key: u128) -> (r:
    Option<AiBattleSession>)
    ensures
        session_store_contents(*final(m)) == session_store_contents(*old(m)).remove(key),
        r matches Some(s) ==> session_store_contents(*old(m)).contains_key(key) && s
            == session_store_contents(*old(m))[key],
        r is None ==> !session_store_contents(*old(m)).contains_key(key),
{
    match m.remove(&key) {
        Some((_, v)) => Some(v),
        None => None,
    }
}

/// Relies on `dashmap::DashMap::iter`: with no writer alongside, the walk
/// yields a copy of every entry exactly once, in no promised order.
#[verifier::external_body]
pub(crate) fn store_entries(m: &SessionStore) -> (r: Vec<(u128, AiBattleSession)>)
    ensures
        r@.len() == session_store_contents(*m).dom().len(),
        forall|i: int| 0 <= i < r@.len() ==> session_store_contents(*m).contains_key(
            #[trigger] r@[i].0,
        ) && session_store_contents(*m)[r@[i].0] == r@[i].1,
        forall|i: int, j: int| 0 <= i < j < r@.len() ==> r@[i].0 != r@[j].0,
        forall|k: u128| session_store_contents(*m).contains_key(k) ==> exists|i: int|
            0 <= i < r@.len() && (#[trigger] r@[i]).0 == k,
{
    let mut out = Vec::new();
    for entry in m.iter() {
        out.push((*entry.key(), entry.value().clone()));
    }
    out
}

} // verus!
