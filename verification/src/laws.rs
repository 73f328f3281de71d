//! Laws of the settings store, stated over the same `Map` view and
//! `lookup_text` that the accessors' contracts use. Together with those
//! contracts they say how sequences of accessor calls behave: what a get
//! returns after a set, after a clear, on a fresh store, and that the two
//! keys never disturb each other.

use vstd::prelude::*;
use crate::store::{SettingKey, ValueModel, lookup_text};

verus! {

/// Storing a text under a key and then looking the same key up yields that
/// text, whatever the store held before. With the contracts of
/// `set_default_folder` and `get_default_folder` (and their last-opened
/// counterparts) this says: for every string `s`, a set of `s` followed by
/// a get of the same key returns `Some(s)`.
pub proof fn lemma_set_then_get(m: Map<SettingKey, ValueModel>, key: SettingKey, s: Seq<char>)
    ensures
        lookup_text(m.insert(key, ValueModel::Text(s)), key) == Some(s),
{
}

/// Removing a key and then looking it up yields absent, whatever the store
/// held before — also when the key was never set. With the contracts of
/// `clear_default_folder` and `get_default_folder` this says: a clear
/// followed by a get returns `None`, regardless of prior state.
pub proof fn lemma_clear_then_get(m: Map<SettingKey, ValueModel>, key: SettingKey)
    ensures
        lookup_text(m.remove(key), key) is None,
{
}

/// A lookup in a store with no prior writes yields absent. With the
/// contract of `Store::new` this says: a get on a freshly created store
/// returns `None`.
pub proof fn lemma_fresh_store_get(key: SettingKey)
    ensures
        lookup_text(Map::<SettingKey, ValueModel>::empty(), key) is None,
{
}

/// Key independence: storing under or removing one key leaves what any
/// other key yields unchanged. With the accessors' contracts this says:
/// setting or clearing `last_opened_folder` never affects `default_folder`,
/// and vice versa.
pub proof fn lemma_key_independence(
    m: Map<SettingKey, ValueModel>,
    touched: SettingKey,
    read: SettingKey,
    v: ValueModel,
)
    requires
        touched != read,
    ensures
        lookup_text(m.insert(touched, v), read) == lookup_text(m, read),
        lookup_text(m.remove(touched), read) == lookup_text(m, read),
{
}

} // verus!
