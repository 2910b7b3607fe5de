//! Configuration keys, their defaults, and the configuration as it is read
//! back from storage.

use vstd::prelude::*;
use crate::theme::{Theme, theme_name};

verus! {

/// A setting the user can change.
#[derive(Debug, Clone, Copy, PartialEq, Eq, Hash, Structural)]
pub enum ConfigKey {
    Theme,
    StartOnSystemStartup,
    StartMinimized,
}

/// The name under which a setting is stored.
pub open spec fn config_key_name(k: ConfigKey) -> Seq<char> {
    match k {
        ConfigKey::Theme => "theme"@,
        ConfigKey::StartOnSystemStartup => "start_on_system_startup"@,
        ConfigKey::StartMinimized => "start_minimized"@,
    }
}

/// The setting stored under a name, if any.
pub open spec fn config_key_from_name(name: Seq<char>) -> Option<ConfigKey> {
    if name == "theme"@ {
        Some(ConfigKey::Theme)
    } else if name == "start_on_system_startup"@ {
        Some(ConfigKey::StartOnSystemStartup)
    } else if name == "start_minimized"@ {
        Some(ConfigKey::StartMinimized)
    } else {
        None
    }
}

/// The value a setting has until the user changes it.
pub open spec fn config_default_value(k: ConfigKey) -> Seq<char> {
    match k {
        ConfigKey::Theme => theme_name(Theme::System),
        ConfigKey::StartOnSystemStartup => "false"@,
        ConfigKey::StartMinimized => "false"@,
    }
}

impl ConfigKey {
    /// The name under which this setting is stored.
    pub fn key(&self) -> (r: String)
        ensures
            r@ == config_key_name(*self),
    {
        match self {
            ConfigKey::Theme => String::from_str("theme"),
            ConfigKey::StartOnSystemStartup => String::from_str("start_on_system_startup"),
            ConfigKey::StartMinimized => String::from_str("start_minimized"),
        }
    }

    /// The value this setting has until the user changes it.
    pub fn default_value(&self) -> (r: String)
        ensures
            r@ == config_default_value(*self),
    {
        match self {
            ConfigKey::Theme => Theme::default().to_string(),
            ConfigKey::StartOnSystemStartup => String::from_str("false"),
            ConfigKey::StartMinimized => String::from_str("false"),
        }
    }

    /// The setting stored under the given name, if any.
    pub fn from_string(key: String) -> (r: Option<ConfigKey>)
        ensures
            r == config_key_from_name(key@),
    {
        if key == String::from_str("theme") {
            Some(ConfigKey::Theme)
        } else if key == String::from_str("start_on_system_startup") {
            Some(ConfigKey::StartOnSystemStartup)
        } else if key == String::from_str("start_minimized") {
            Some(ConfigKey::StartMinimized)
        } else {
            None
        }
    }
}

/// Reading back the stored name of a setting gives the same setting.
pub proof fn lemma_config_key_name_round_trip(k: ConfigKey)
    ensures
        config_key_from_name(config_key_name(k)) == Some(k),
{
    reveal_strlit("theme");
    reveal_strlit("start_on_system_startup");
    reveal_strlit("start_minimized");
    assert("theme"@.len() != "start_on_system_startup"@.len());
    assert("theme"@.len() != "start_minimized"@.len());
    assert("start_minimized"@.len() != "start_on_system_startup"@.len());
}

/// One stored setting, as it is kept in the database.
#[derive(Debug)]
pub struct ConfigModel {
    pub key: String,
    pub value: String,
}

impl Clone for ConfigModel {
    fn clone(&self) -> (r: Self)
        ensures
            r == *self,
    {
        ConfigModel { key: self.key.clone(), value: self.value.clone() }
    }
}

/// The value that the last stored row for a setting gives it, if any row
/// names it.
pub open spec fn last_stored_value(models: Seq<ConfigModel>, k: ConfigKey) -> Option<String>
    decreases models.len(),
{
    if models.len() == 0 {
        None
    } else if config_key_from_name(models.last().key@) == Some(k) {
        Some(models.last().value)
    } else {
        last_stored_value(models.drop_last(), k)
    }
}

impl ConfigModel {
    /// The setting and value that this row holds, or an error when its name
    /// is not a setting.
    pub fn to_key_value(self) -> (r: Result<(ConfigKey, String), String>)
        ensures
            match config_key_from_name(self.key@) {
                Some(k) => r == Ok::<(ConfigKey, String), String>((k, self.value)),
                None => r is Err && r->Err_0@ == "invalid configuration key "@ + self.key@,
            },
    {
        match ConfigKey::from_string(self.key.clone()) {
            Some(k) => Ok((k, self.value)),
            None => Err(String::from_str("invalid configuration key ").concat(self.key.as_str())),
        }
    }

    /// The row that stores a setting's value.
    pub fn from_key_value(config: (ConfigKey, String)) -> (r: ConfigModel)
        ensures
            r.key@ == config_key_name(config.0),
            r.value == config.1,
    {
        ConfigModel { key: config.0.key(), value: config.1 }
    }

    /// The configuration that a list of stored rows gives: rows whose name is
    /// not a setting are ignored, and a later row for a setting wins over an
    /// earlier one.
    pub fn vec_to_config_map(value: Vec<ConfigModel>) -> (map: ConfigMap)
        ensures
            forall|k: ConfigKey| #[trigger] map.value_of(k) == last_stored_value(value@, k),
    {
        let mut map = ConfigMap::new();
        let mut i: usize = 0;
        while i < value.len()
            invariant
                i <= value.len(),
                forall|k: ConfigKey| #[trigger] map.value_of(k) == last_stored_value(value@.take(i as int), k),
            decreases value.len() - i,
        {
            let item = value[i].clone();
            let key = ConfigKey::from_string(item.key.clone());
            assert(value@.take(i + 1).drop_last() =~= value@.take(i as int));
            assert(value@.take(i + 1).last() == value@[i as int]);
            if key.is_some() {
                map.insert(key.unwrap(), item.value);
            }
            i = i + 1;
        }
        assert(value@.take(i as int) =~= value@);
        map
    }
}

/// The stored configuration: for each setting, its stored value if any.
#[derive(Debug)]
pub struct ConfigMap {
    theme: Option<String>,
    start_on_system_startup: Option<String>,
    start_minimized: Option<String>,
}

impl ConfigMap {
    /// The stored value of a setting, if any.
    pub closed spec fn value_of(&self, k: ConfigKey) -> Option<String> {
        match k {
            ConfigKey::Theme => self.theme,
            ConfigKey::StartOnSystemStartup => self.start_on_system_startup,
            ConfigKey::StartMinimized => self.start_minimized,
        }
    }

    /// A configuration with no stored value.
    pub fn new() -> (m: ConfigMap)
        ensures
            forall|k: ConfigKey| #[trigger] m.value_of(k) is None,
    {
        ConfigMap { theme: None, start_on_system_startup: None, start_minimized: None }
    }

    /// Stores a value for a setting, replacing any earlier one.
    pub fn insert(&mut self, key: ConfigKey, value: String)
        ensures
            final(self).value_of(key) == Some(value),
            forall|k: ConfigKey| k != key ==> #[trigger] final(self).value_of(k) == old(self).value_of(k),
    {
        match key {
            ConfigKey::Theme => self.theme = Some(value),
            ConfigKey::StartOnSystemStartup => self.start_on_system_startup = Some(value),
            ConfigKey::StartMinimized => self.start_minimized = Some(value),
        }
    }

    /// The stored value of a setting, if any.
    pub fn get(&self, key: ConfigKey) -> (r: Option<String>)
        ensures
            r == self.value_of(key),
    {
        match key {
            ConfigKey::Theme => crate::server::clone_opt_string(&self.theme),
            ConfigKey::StartOnSystemStartup => crate::server::clone_opt_string(&self.start_on_system_startup),
            ConfigKey::StartMinimized => crate::server::clone_opt_string(&self.start_minimized),
        }
    }

    /// The number of settings that have a stored value.
    pub fn len(&self) -> (n: usize)
        ensures
            n == (if self.value_of(ConfigKey::Theme) is Some { 1int } else { 0 }) + (if self.value_of(
                ConfigKey::StartOnSystemStartup,
            ) is Some {
                1int
            } else {
                0
            }) + (if self.value_of(ConfigKey::StartMinimized) is Some { 1int } else { 0 }),
    {
        let mut n: usize = 0;
        if self.theme.is_some() {
            n = n + 1;
        }
        if self.start_on_system_startup.is_some() {
            n = n + 1;
        }
        if self.start_minimized.is_some() {
            n = n + 1;
        }
        n
    }
}

/// The value a setting has: the stored one when reading the store worked
/// and found one, else the setting's default.
pub fn config_value_or_default(key: ConfigKey, stored: Result<Option<(ConfigKey, String)>, String>) -> (r: String)
    ensures
        r@ == match stored {
            Ok(Some(found)) => found.1@,
            _ => config_default_value(key),
        },
{
    match stored {
        Ok(Some((_, value))) => value,
        _ => key.default_value(),
    }
}

/// Why a setting could not be saved.
#[derive(Debug)]
pub enum ConfigurationError {
    SaveError { message: String },
}

impl ConfigurationError {
    /// The message shown to the user: the message that the error carries.
    pub fn to_string(&self) -> (r: String)
        ensures
            r@ == match *self {
                ConfigurationError::SaveError { message } => message@,
            },
    {
        match self {
            ConfigurationError::SaveError { message } => message.clone(),
        }
    }
}

} // verus!
