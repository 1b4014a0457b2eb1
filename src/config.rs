//! The credentials triple and the rules for resolving it: file values, then
//! environment values on top, then a check that nothing is missing.

use vstd::prelude::*;

verus! {

/// Access id, secret key and instance name.
#[derive(Debug, Clone)]
pub struct Config {
    pub tc_access_id: String,
    pub tc_secret_key: String,
    pub tc_instance: String,
}

/// A partial set of values, as a config file or the environment may give them.
#[derive(Debug, Clone)]
pub struct FileConfig {
    pub tc_access_id: Option<String>,
    pub tc_secret_key: Option<String>,
    pub tc_instance: Option<String>,
}

/// The first field found missing by `Config::validate`.
#[derive(Debug, Clone, Copy, PartialEq, Eq, Structural)]
pub enum ConfigError {
    MissingAccessId,
    MissingSecretKey,
    MissingInstance,
}

/// The value of an optional override on top of a current value.
pub open spec fn overridden(current: Seq<char>, other: Option<String>) -> Seq<char> {
    match other {
        Some(v) => v@,
        None => current,
    }
}

/// What `validate` reports for three field values, checked in order.
pub open spec fn validation(access_id: Seq<char>, secret_key: Seq<char>, instance: Seq<char>) -> Result<(), ConfigError> {
    if access_id.len() == 0 {
        Err(ConfigError::MissingAccessId)
    } else if secret_key.len() == 0 {
        Err(ConfigError::MissingSecretKey)
    } else if instance.len() == 0 {
        Err(ConfigError::MissingInstance)
    } else {
        Ok(())
    }
}

impl Config {
    /// Checks that each field is set, reporting the first that is empty.
    pub fn validate(&self) -> (r: Result<(), ConfigError>)
        ensures
            r == validation(self.tc_access_id@, self.tc_secret_key@, self.tc_instance@),
    {
        if self.tc_access_id.as_str().is_empty() {
            return Err(ConfigError::MissingAccessId);
        }
        if self.tc_secret_key.as_str().is_empty() {
            return Err(ConfigError::MissingSecretKey);
        }
        if self.tc_instance.as_str().is_empty() {
            return Err(ConfigError::MissingInstance);
        }
        Ok(())
    }

    /// Overwrites each field for which `other` holds a value.
    pub fn merge(&mut self, other: FileConfig)
        ensures
            final(self).tc_access_id@ == overridden(old(self).tc_access_id@, other.tc_access_id),
            final(self).tc_secret_key@ == overridden(old(self).tc_secret_key@, other.tc_secret_key),
            final(self).tc_instance@ == overridden(old(self).tc_instance@, other.tc_instance),
    {
        if let Some(v) = other.tc_access_id {
            self.tc_access_id = v;
        }
        if let Some(v) = other.tc_secret_key {
            self.tc_secret_key = v;
        }
        if let Some(v) = other.tc_instance {
            self.tc_instance = v;
        }
    }

    /// Resolves the configuration from empty defaults: the file's values if a
    /// file was read, then the environment's values, which win.
    pub fn resolve(file: Option<FileConfig>, env: FileConfig) -> (r: Config)
        ensures
            r.tc_access_id@ == overridden(
                match file { Some(f) => overridden(Seq::empty(), f.tc_access_id), None => Seq::empty() },
                env.tc_access_id,
            ),
            r.tc_secret_key@ == overridden(
                match file { Some(f) => overridden(Seq::empty(), f.tc_secret_key), None => Seq::empty() },
                env.tc_secret_key,
            ),
            r.tc_instance@ == overridden(
                match file { Some(f) => overridden(Seq::empty(), f.tc_instance), None => Seq::empty() },
                env.tc_instance,
            ),
    {
        let mut config = Config::default();
        if let Some(f) = file {
            config.merge(f);
        }
        config.merge(env);
        config
    }
}

impl Default for Config {
    fn default() -> (r: Self)
        ensures
            r.tc_access_id@.len() == 0,
            r.tc_secret_key@.len() == 0,
            r.tc_instance@.len() == 0,
    {
        Config { tc_access_id: String::new(), tc_secret_key: String::new(), tc_instance: String::new() }
    }
}

} // verus!
