//! The commands of the settings store: read a document, replace a document.
//!
//! The store holds the two documents for the life of the process. A document is
//! replaced whole or not at all; the caller parses what the front end sent and
//! hands over the outcome, and serialises what it gets back.

use crate::workspace::initial_cache;
use crate::workspace::initial_config;
use crate::workspace::startup_of;
use crate::workspace::ClientCache;
use crate::workspace::ClientConfig;
use crate::workspace::FirstRead;
use vstd::prelude::*;

verus! {

/// The documents in memory.
#[derive(Debug, Clone, PartialEq, Eq)]
pub struct SettingsStore {
    /// The settings document.
    pub config: ClientConfig,
    /// The cache document.
    pub cache: ClientCache,
}

/// What loading the store asks of the disk.
#[derive(Debug, Clone, Copy, PartialEq, Eq)]
pub struct DiskWrites {
    /// Whether the default settings are to be written to the settings file.
    pub write_config: bool,
    /// Whether the default cache is to be written to the cache file.
    pub write_cache: bool,
}

impl SettingsStore {
    /// The store that holds `config` where `candidate` parsed to it, and this
    /// store where it did not parse.
    pub open spec fn with_config(self, candidate: Result<ClientConfig, String>) -> SettingsStore {
        match candidate {
            Ok(config) => SettingsStore { config, cache: self.cache },
            Err(_) => self,
        }
    }

    /// The store that holds `cache` where `candidate` parsed to it, and this store
    /// where it did not parse.
    pub open spec fn with_cache(self, candidate: Result<ClientCache, String>) -> SettingsStore {
        match candidate {
            Ok(cache) => SettingsStore { config: self.config, cache },
            Err(_) => self,
        }
    }

    /// Builds the store at startup from what the first read of each file gave,
    /// each document on its own, and says which defaults to write.
    pub fn load(config_read: FirstRead<ClientConfig>, cache_read: FirstRead<ClientCache>) -> (loaded:
        (SettingsStore, DiskWrites))
        ensures
            loaded.0.config == startup_of(config_read, ClientConfig::compiled_default()).document,
            loaded.0.cache == startup_of(cache_read, ClientCache::compiled_default()).document,
            loaded.1.write_config == (config_read is Missing),
            loaded.1.write_cache == (cache_read is Missing),
    {
        let config = initial_config(config_read);
        let cache = initial_cache(cache_read);
        (
            SettingsStore { config: config.document, cache: cache.document },
            DiskWrites { write_config: config.write_default, write_cache: cache.write_default },
        )
    }
}

/// What a replace command answers: nothing where the candidate parsed, and the
/// parser's description of the failure where it did not.
pub open spec fn reply_to<T>(candidate: Result<T, String>) -> Result<(), String> {
    match candidate {
        Ok(_) => Ok(()),
        Err(description) => Err(description),
    }
}

/// The settings document as it is now.
pub fn get_config(store: &SettingsStore) -> (config: &ClientConfig)
    ensures
        *config == store.config,
{
    &store.config
}

/// The cache document as it is now.
pub fn get_cache(store: &SettingsStore) -> (cache: &ClientCache)
    ensures
        *cache == store.cache,
{
    &store.cache
}

/// Replaces the settings document by the one that the front end sent, if it
/// parsed. If it did not, the store stays as it was and the failure is reported.
/// The cache document is not touched either way.
pub fn set_config(store: &mut SettingsStore, candidate: Result<ClientConfig, String>) -> (reply:
    Result<(), String>)
    ensures
        *final(store) == old(store).with_config(candidate),
        reply == reply_to(candidate),
{
    match candidate {
        Ok(config) => {
            store.config = config;
            Ok(())
        },
        Err(description) => Err(description),
    }
}

/// Replaces the cache document by the one that the front end sent, if it parsed.
/// If it did not, the store stays as it was and the failure is reported. The
/// settings document is not touched either way.
pub fn set_cache(store: &mut SettingsStore, candidate: Result<ClientCache, String>) -> (reply:
    Result<(), String>)
    ensures
        *final(store) == old(store).with_cache(candidate),
        reply == reply_to(candidate),
{
    match candidate {
        Ok(cache) => {
            store.cache = cache;
            Ok(())
        },
        Err(description) => Err(description),
    }
}

/// A document that was set is the document that is read: after a replace with a
/// candidate that parsed to `document`, the store holds `document`, and the reply
/// is a success.
pub proof fn lemma_set_then_get(store: SettingsStore, config: ClientConfig, cache: ClientCache)
    ensures
        store.with_config(Ok(config)).config == config,
        store.with_config(Ok(config)).cache == store.cache,
        reply_to(Ok::<ClientConfig, String>(config)) is Ok,
        store.with_cache(Ok(cache)).cache == cache,
        store.with_cache(Ok(cache)).config == store.config,
        reply_to(Ok::<ClientCache, String>(cache)) is Ok,
{
}

/// A candidate that did not parse changes nothing and is answered with an error:
/// the description that the parser gave.
pub proof fn lemma_rejected_candidate_changes_nothing(store: SettingsStore, description: String)
    ensures
        store.with_config(Err(description)) == store,
        reply_to(Err::<ClientConfig, String>(description)) == Err::<(), String>(description),
        store.with_cache(Err(description)) == store,
        reply_to(Err::<ClientCache, String>(description)) == Err::<(), String>(description),
{
}

/// The last replace wins: of two candidates that parsed, set one after the other,
/// the store holds the second.
pub proof fn lemma_last_write_wins(store: SettingsStore, first: ClientConfig, second: ClientConfig)
    ensures
        store.with_config(Ok(first)).with_config(Ok(second)) == store.with_config(Ok(second)),
{
}

} // verus!
