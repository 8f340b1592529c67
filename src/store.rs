//! The cached configuration document and the cached registry.
//!
//! The caller reads and writes the file; the store decides where the file
//! is, what a freshly loaded document must contain, and what the cache holds
//! after each load, save and path change.
use crate::app::{others_view, servers_view};
use crate::environment::{home_dir, join, join_path};
use crate::json::{as_object_view, member, obj_contains, obj_insert, obj_view, JsonValue};
use vstd::prelude::*;

verus! {

/// Why the configuration could not be located or used.
#[derive(Clone, Copy, Debug, PartialEq, Eq, Structural)]
pub enum ConfigError {
    /// No path override is set and no home directory can be found.
    NoHomeDirectory,
    /// The document is not a JSON object.
    NotAnObject,
}

impl ConfigError {
    pub fn message(&self) -> (r: &'static str)
        ensures
            *self == ConfigError::NoHomeDirectory ==> r@ == "Could not find home directory"@,
            *self == ConfigError::NotAnObject ==> r@ == "Config is not a JSON object"@,
    {
        match self {
            ConfigError::NoHomeDirectory => "Could not find home directory",
            ConfigError::NotAnObject => "Config is not a JSON object",
        }
    }
}

/// The document written where no configuration file exists yet: an empty server table.
pub fn default_config() -> (r: JsonValue)
    ensures
        servers_view(r) == Some(Map::<Seq<char>, JsonValue>::empty()),
        others_view(r) == Map::<Seq<char>, JsonValue>::empty(),
{
    let mut fields: Vec<(String, JsonValue)> = Vec::new();
    let servers: Vec<(String, JsonValue)> = Vec::new();
    assert(obj_view(fields@) =~= Map::empty());
    assert(obj_view(servers@) =~= Map::empty());
    obj_insert(&mut fields, "mcpServers".to_owned(), JsonValue::Object(servers));
    assert(obj_view(fields@).remove("mcpServers"@) =~= Map::empty());
    JsonValue::Object(fields)
}

/// Give a loaded document a server table where it has none. A document that
/// is no object is refused; any other member is kept as it is.
pub fn ensure_mcp_servers(doc: &mut JsonValue) -> (r: Result<(), ConfigError>)
    ensures
        r is Ok <==> as_object_view(*old(doc)) is Some,
        r is Err ==> r->Err_0 == ConfigError::NotAnObject && *final(doc) == *old(doc),
        r is Ok && member(*old(doc), "mcpServers"@) is Some ==> *final(doc) == *old(doc),
        r is Ok && member(*old(doc), "mcpServers"@) is None ==> {
            &&& servers_view(*final(doc)) == Some(Map::<Seq<char>, JsonValue>::empty())
            &&& others_view(*final(doc)) == others_view(*old(doc))
        },
{
    match doc {
        JsonValue::Object(fields) => {
            if !obj_contains(fields, "mcpServers") {
                let servers: Vec<(String, JsonValue)> = Vec::new();
                assert(obj_view(servers@) =~= Map::empty());
                let ghost before = obj_view(fields@);
                obj_insert(fields, "mcpServers".to_owned(), JsonValue::Object(servers));
                assert(obj_view(fields@).remove("mcpServers"@) =~= before.remove("mcpServers"@));
            }
            Ok(())
        },
        _ => Err(ConfigError::NotAnObject),
    }
}

/// The configuration cache. `home_relative_path` is where the host
/// application keeps its configuration, relative to the home directory, as
/// the embedding application gives it; `test_path`, where set, replaces that
/// location; `cache` is the document as last loaded or saved.
#[derive(Debug)]
pub struct ConfigStore {
    pub home_relative_path: String,
    pub test_path: Option<String>,
    pub cache: Option<JsonValue>,
}

impl ConfigStore {
    /// No override, nothing cached.
    pub fn new(home_relative_path: String) -> (r: ConfigStore)
        ensures
            r.home_relative_path == home_relative_path,
            r.test_path is None,
            r.cache is None,
    {
        ConfigStore { home_relative_path, test_path: None, cache: None }
    }

    /// Point the store at another file (or back at the default one); the
    /// cache is dropped so that the next load reads the new location.
    pub fn set_test_config_path(&mut self, path: Option<String>)
        ensures
            final(self).home_relative_path == old(self).home_relative_path,
            final(self).test_path == path,
            final(self).cache is None,
    {
        self.test_path = path;
        self.cache = None;
    }

    /// The configuration path for a given home directory: the override where
    /// set, else the fixed location under `home`.
    pub fn config_path_for(&self, home: Option<String>) -> (r: Result<String, ConfigError>)
        ensures
            self.test_path is Some ==> r is Ok && r->Ok_0 == self.test_path->0,
            self.test_path is None && home is None ==> r == Err::<String, ConfigError>(
                ConfigError::NoHomeDirectory,
            ),
            self.test_path is None && home is Some ==> r is Ok && r->Ok_0@ == join_path(
                home->0@,
                self.home_relative_path@,
            ),
    {
        match &self.test_path {
            Some(p) => Ok(p.clone()),
            None => match home {
                Some(h) => Ok(join(h.as_str(), self.home_relative_path.as_str())),
                None => Err(ConfigError::NoHomeDirectory),
            },
        }
    }

    /// The configuration path, with the home directory of this machine.
    pub fn get_config_path(&self) -> (r: Result<String, ConfigError>)
        ensures
            self.test_path is Some ==> r is Ok && r->Ok_0 == self.test_path->0,
            self.test_path is None ==> r == Err::<String, ConfigError>(ConfigError::NoHomeDirectory)
                || (r is Ok && exists|home: Seq<char>|
                r->Ok_0@ == join_path(home, self.home_relative_path@)),
    {
        match &self.test_path {
            Some(p) => Ok(p.clone()),
            None => self.config_path_for(home_dir()),
        }
    }

    /// The cached document, if any.
    pub fn cached(&self) -> (r: Option<&JsonValue>)
        ensures
            r is Some <==> self.cache is Some,
            r is Some ==> *r->0 == self.cache->0,
    {
        match &self.cache {
            Some(doc) => Some(doc),
            None => None,
        }
    }

    /// Take in a document just read from disk: it gets a server table where
    /// it lacks one (in memory only) and becomes the cache. A document that
    /// is no object is refused and the cache stays as it was.
    pub fn loaded(&mut self, doc: JsonValue) -> (r: Result<(), ConfigError>)
        ensures
            final(self).home_relative_path == old(self).home_relative_path,
            final(self).test_path == old(self).test_path,
            r is Ok <==> as_object_view(doc) is Some,
            r is Err ==> r->Err_0 == ConfigError::NotAnObject && final(self).cache == old(self).cache,
            r is Ok ==> final(self).cache is Some && member(final(self).cache->0, "mcpServers"@) is Some
                && others_view(final(self).cache->0) == others_view(doc),
            r is Ok && member(doc, "mcpServers"@) is Some ==> final(self).cache == Some(doc),
            r is Ok && member(doc, "mcpServers"@) is None ==> servers_view(final(self).cache->0)
                == Some(Map::<Seq<char>, JsonValue>::empty()),
    {
        let mut doc = doc;
        match ensure_mcp_servers(&mut doc) {
            Ok(()) => {
                self.cache = Some(doc);
                Ok(())
            },
            Err(e) => Err(e),
        }
    }

    /// A document was written in full: it becomes the cache exactly.
    pub fn saved(&mut self, doc: JsonValue)
        ensures
            final(self).home_relative_path == old(self).home_relative_path,
            final(self).test_path == old(self).test_path,
            final(self).cache == Some(doc),
    {
        self.cache = Some(doc);
    }
}

/// The registry as first fetched, kept until cleared.
#[derive(Debug)]
pub struct RegistryCache {
    pub registry: Option<JsonValue>,
}

impl RegistryCache {
    pub fn new() -> (r: RegistryCache)
        ensures
            r.registry is None,
    {
        RegistryCache { registry: None }
    }

    /// The cached registry; where it is `None` the caller fetches it.
    pub fn get_app_registry(&self) -> (r: Option<&JsonValue>)
        ensures
            r is Some <==> self.registry is Some,
            r is Some ==> *r->0 == self.registry->0,
    {
        match &self.registry {
            Some(v) => Some(v),
            None => None,
        }
    }

    /// Keep a successfully fetched registry. A failed fetch is never stored.
    pub fn fetched(&mut self, registry: JsonValue)
        ensures
            final(self).registry == Some(registry),
    {
        self.registry = Some(registry);
    }

    pub fn clear(&mut self)
        ensures
            final(self).registry is None,
    {
        self.registry = None;
    }
}

} // verus!
