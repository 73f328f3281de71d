//! The settings accessor: the five operations the backend exposes to the
//! presentation layer, each a single key lookup or key write against the
//! settings store, plus the flat settings record they maintain.
//!
//! Opening and saving the backing file is the host runtime's work; the host
//! hands these functions the store's contents and writes back what they
//! leave. An operation here therefore has no failure case of its own: the
//! one error the backend knows — the store being unavailable — arises at
//! that boundary, before these functions run.

use vstd::prelude::*;
use crate::store::{Store, SettingKey, ValueModel, lookup_text, text_view};

verus! {

/// Application settings structure: the two optional folder paths, as two
/// independent keys of the store. The record has no persistent in-memory
/// form; it is read out of, and written into, the store key by key.
#[derive(Debug, Clone)]
pub struct AppSettings {
    /// Default folder to open on startup
    pub default_folder: Option<String>,
    /// Last opened folder path
    pub last_opened_folder: Option<String>,
}

impl Default for AppSettings {
    /// Both fields absent: the state of a store never written to.
    fn default() -> (r: AppSettings)
        ensures
            r.default_folder is None,
            r.last_opened_folder is None,
    {
        AppSettings { default_folder: None, last_opened_folder: None }
    }
}

/// Get the default folder path from settings.
pub fn get_default_folder(store: &Store) -> (r: Option<String>)
    ensures
        text_view(r) == lookup_text(store@, SettingKey::DefaultFolder),
{
    store.get_text(SettingKey::DefaultFolder)
}

/// Set the default folder path, stored verbatim and replacing any prior
/// value under its key; no other key changes.
pub fn set_default_folder(store: &mut Store, folder: String)
    ensures
        final(store)@ == old(store)@.insert(
            SettingKey::DefaultFolder,
            ValueModel::Text(folder@),
        ),
{
    store.set_text(SettingKey::DefaultFolder, folder);
}

/// Get the last opened folder path.
pub fn get_last_opened_folder(store: &Store) -> (r: Option<String>)
    ensures
        text_view(r) == lookup_text(store@, SettingKey::LastOpenedFolder),
{
    store.get_text(SettingKey::LastOpenedFolder)
}

/// Save the last opened folder path, stored verbatim and replacing any
/// prior value under its key; no other key changes.
pub fn set_last_opened_folder(store: &mut Store, folder: String)
    ensures
        final(store)@ == old(store)@.insert(
            SettingKey::LastOpenedFolder,
            ValueModel::Text(folder@),
        ),
{
    store.set_text(SettingKey::LastOpenedFolder, folder);
}

/// Clear the default folder setting; clearing a never-set key succeeds all
/// the same, and no other key changes.
pub fn clear_default_folder(store: &mut Store)
    ensures
        final(store)@ == old(store)@.remove(SettingKey::DefaultFolder),
{
    store.delete(SettingKey::DefaultFolder);
}

/// Read both settings fields out of the store as one record.
pub fn snapshot(store: &Store) -> (r: AppSettings)
    ensures
        text_view(r.default_folder) == lookup_text(store@, SettingKey::DefaultFolder),
        text_view(r.last_opened_folder) == lookup_text(store@, SettingKey::LastOpenedFolder),
{
    AppSettings {
        default_folder: get_default_folder(store),
        last_opened_folder: get_last_opened_folder(store),
    }
}

} // verus!
