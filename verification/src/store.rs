//! The settings store: an in-memory model of the persisted JSON document.
//!
//! The backing file holds at most two top-level keys, `"default_folder"` and
//! `"last_opened_folder"`, each mapped to an arbitrary JSON value. The model
//! keeps, for each key, whether a value is present and, when it is, whether
//! it is a JSON string and which text it holds — all the accessors ever read.

use vstd::prelude::*;

verus! {

/// The two keys of the persisted settings store.
#[derive(Clone, Copy, Debug, PartialEq, Eq, Structural)]
pub enum SettingKey {
    DefaultFolder,
    LastOpenedFolder,
}

/// A value held under a key: the text of a JSON string, or a value of any
/// other JSON type, which every accessor treats as absent.
#[derive(Debug)]
pub enum StoreValue {
    Text(String),
    Other,
}

/// The mathematical counterpart of a stored value.
pub enum ValueModel {
    Text(Seq<char>),
    Other,
}

impl StoreValue {
    pub open spec fn model(&self) -> ValueModel {
        match self {
            StoreValue::Text(s) => ValueModel::Text(s@),
            StoreValue::Other => ValueModel::Other,
        }
    }
}

/// What a lookup of `key` in store contents `m` yields: the text stored under
/// the key if it holds a JSON string, and absent otherwise — a missing or
/// mistyped value is not an error, it degrades to absent.
pub open spec fn lookup_text(m: Map<SettingKey, ValueModel>, key: SettingKey) -> Option<Seq<char>> {
    if m.contains_key(key) {
        match m[key] {
            ValueModel::Text(s) => Some(s),
            ValueModel::Other => None,
        }
    } else {
        None
    }
}

/// The text carried by an optional string, for contracts over results.
pub open spec fn text_view(r: Option<String>) -> Option<Seq<char>> {
    match r {
        Some(s) => Some(s@),
        None => None,
    }
}

/// The contents of the settings store: each key independently holds a value
/// or nothing. Viewed as a finite map from keys to value models.
#[derive(Debug)]
pub struct Store {
    default_folder: Option<StoreValue>,
    last_opened_folder: Option<StoreValue>,
}

impl View for Store {
    type V = Map<SettingKey, ValueModel>;

    closed spec fn view(&self) -> Map<SettingKey, ValueModel> {
        Map::new(
            |key: SettingKey| match key {
                SettingKey::DefaultFolder => self.default_folder is Some,
                SettingKey::LastOpenedFolder => self.last_opened_folder is Some,
            },
            |key: SettingKey| match key {
                SettingKey::DefaultFolder => self.default_folder->Some_0.model(),
                SettingKey::LastOpenedFolder => self.last_opened_folder->Some_0.model(),
            },
        )
    }
}

impl Store {
    /// An empty store, as the backing file is created on first access.
    pub fn new() -> (r: Store)
        ensures
            r@ == Map::<SettingKey, ValueModel>::empty(),
    {
        let r = Store { default_folder: None, last_opened_folder: None };
        proof {
            assert(r@ =~= Map::<SettingKey, ValueModel>::empty());
        }
        r
    }

    /// The value stored under `key`, of whatever JSON type, if any.
    pub fn get_value(&self, key: SettingKey) -> (r: Option<&StoreValue>)
        ensures
            match r {
                Some(v) => self@.contains_key(key) && v.model() == self@[key],
                None => !self@.contains_key(key),
            },
    {
        let slot = match key {
            SettingKey::DefaultFolder => &self.default_folder,
            SettingKey::LastOpenedFolder => &self.last_opened_folder,
        };
        match slot {
            Some(v) => Some(v),
            None => None,
        }
    }

    /// The text stored under `key`: absent when the key is missing or holds
    /// a value of another JSON type.
    pub fn get_text(&self, key: SettingKey) -> (r: Option<String>)
        ensures
            text_view(r) == lookup_text(self@, key),
    {
        match self.get_value(key) {
            Some(StoreValue::Text(s)) => Some(s.clone()),
            _ => None,
        }
    }

    /// Store a value under `key`, replacing whatever was there.
    pub fn set_value(&mut self, key: SettingKey, value: StoreValue)
        ensures
            final(self)@ == old(self)@.insert(key, value.model()),
    {
        let ghost m = value.model();
        match key {
            SettingKey::DefaultFolder => {
                self.default_folder = Some(value);
            }
            SettingKey::LastOpenedFolder => {
                self.last_opened_folder = Some(value);
            }
        }
        proof {
            assert(self@ =~= old(self)@.insert(key, m));
        }
    }

    /// Store a text under `key`, replacing whatever was there. The text is
    /// stored verbatim: no validation or normalization.
    pub fn set_text(&mut self, key: SettingKey, value: String)
        ensures
            final(self)@ == old(self)@.insert(key, ValueModel::Text(value@)),
    {
        self.set_value(key, StoreValue::Text(value));
    }

    /// Remove `key` from the store; removing an absent key does nothing and
    /// is not an error.
    pub fn delete(&mut self, key: SettingKey)
        ensures
            final(self)@ == old(self)@.remove(key),
    {
        match key {
            SettingKey::DefaultFolder => {
                self.default_folder = None;
            }
            SettingKey::LastOpenedFolder => {
                self.last_opened_folder = None;
            }
        }
        proof {
            assert(self@ =~= old(self)@.remove(key));
        }
    }
}

impl SettingKey {
    /// The key's name in the persisted JSON document.
    pub fn file_key(self) -> (r: String)
        ensures
            self == SettingKey::DefaultFolder ==> r@ == "default_folder"@,
            self == SettingKey::LastOpenedFolder ==> r@ == "last_opened_folder"@,
    {
        match self {
            SettingKey::DefaultFolder => "default_folder".to_owned(),
            SettingKey::LastOpenedFolder => "last_opened_folder".to_owned(),
        }
    }
}

} // verus!
