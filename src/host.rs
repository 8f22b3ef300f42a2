//! The host values a poll record is made of, and the few host calls the
//! voting rules make on them.

use vstd::prelude::*;

verus! {

#[verifier::external_type_specification]
#[verifier::external_body]
pub struct ExEnv(soroban_sdk::Env);

#[verifier::external_type_specification]
#[verifier::external_body]
pub struct ExString(soroban_sdk::String);

#[verifier::external_type_specification]
#[verifier::external_body]
#[verifier::reject_recursive_types(T)]
pub struct ExVec<T>(soroban_sdk::Vec<T>);

#[verifier::external_type_specification]
#[verifier::external_body]
#[verifier::reject_recursive_types(K)]
#[verifier::reject_recursive_types(V)]
pub struct ExMap<K, V>(soroban_sdk::Map<K, V>);

/// Relies on soroban_sdk::String's Clone: a copy of the same environment
/// handle and the same host object.
pub assume_specification[ <soroban_sdk::String as Clone>::clone ](s: &soroban_sdk::String) -> (r:
    soroban_sdk::String)
    ensures
        r == *s,
;

/// Relies on soroban_sdk::Vec's Clone: a copy of the same environment handle
/// and the same host object.
pub assume_specification<T>[ <soroban_sdk::Vec<T> as Clone>::clone ](v: &soroban_sdk::Vec<T>) -> (r:
    soroban_sdk::Vec<T>)
    ensures
        r == *v,
;

/// Relies on soroban_sdk::Map's derived Clone: a copy of the same environment
/// handle and the same host object.
pub assume_specification<K, V>[ <soroban_sdk::Map<K, V> as Clone>::clone ](m: &soroban_sdk::Map<K, V>) -> (r:
    soroban_sdk::Map<K, V>)
    where
        K: Clone,
        V: Clone,
    ensures
        r == *m,
;

/// The host map that holds a poll's tally.
pub type Tally = soroban_sdk::Map<u32, u32>;

/// The host vector that holds a poll's options.
pub type Options = soroban_sdk::Vec<soroban_sdk::String>;

/// The entries of a tally map: option index to number of votes.
pub uninterp spec fn tally_of(m: Tally) -> Map<u32, u32>;

/// Every key and value the host map holds converts to `u32`. A map that the
/// library made and only filled through `tally_set` is always so; a map that
/// came from elsewhere need not be.
pub uninterp spec fn tally_typed(m: Tally) -> bool;

/// The number of entries of an option list.
pub uninterp spec fn option_count(v: Options) -> nat;

/// The tally of a poll nobody has voted in.
pub open spec fn empty_tally() -> Map<u32, u32> {
    Map::empty()
}

/// Relies on soroban_sdk::Map::new: a fresh map in `env` has no entries.
#[verifier::external_body]
pub(crate) fn new_tally(env: &soroban_sdk::Env) -> (r: Tally)
    ensures
        tally_of(r) == empty_tally(),
        tally_typed(r),
{
    soroban_sdk::Map::new(env)
}

/// Relies on soroban_sdk::Map::get: the value stored under `k`, if any. It
/// panics on a value that does not convert to `u32`, which a typed map lacks.
#[verifier::external_body]
pub(crate) fn tally_get(m: &Tally, k: u32) -> (r: Option<u32>)
    requires
        tally_typed(*m),
    ensures
        tally_of(*m).contains_key(k) ==> r == Some(tally_of(*m)[k]),
        !tally_of(*m).contains_key(k) ==> r is None,
{
    m.get(k)
}

/// Relies on soroban_sdk::Map::set: stores `v` under `k`, replacing any
/// earlier value and leaving the other entries as they were; a `u32` pair
/// keeps a typed map typed.
#[verifier::external_body]
pub(crate) fn tally_set(m: &mut Tally, k: u32, v: u32)
    ensures
        tally_of(*final(m)) == tally_of(*old(m)).insert(k, v),
        tally_typed(*old(m)) ==> tally_typed(*final(m)),
{
    m.set(k, v)
}

/// Relies on soroban_sdk::Vec::len: the number of entries.
#[verifier::external_body]
pub(crate) fn options_len(v: &Options) -> (r: u32)
    ensures
        r as nat == option_count(*v),
{
    v.len()
}

} // verus!
