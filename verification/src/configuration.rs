//! Ambient defaults applied to every reported event.

use vstd::prelude::*;
use crate::custom::CustomMap;
use crate::level::Level;

verus! {

/// The characters of an optional string.
pub open spec fn text(value: Option<String>) -> Option<Seq<char>> {
    match value {
        Some(s) => Some(s@),
        None => None,
    }
}

/// The entries of an optional custom map.
pub open spec fn entries(value: Option<CustomMap>) -> Option<Map<Seq<char>, serde_json::Value>> {
    match value {
        Some(m) => Some(m@),
        None => None,
    }
}

/// Copies an optional string.
pub fn copy_text(value: &Option<String>) -> (copy: Option<String>)
    ensures
        text(copy) == text(*value),
{
    match value {
        Some(s) => Some(s.clone()),
        None => None,
    }
}

/// Copies an optional custom map.
pub fn copy_custom(value: &Option<CustomMap>) -> (copy: Option<CustomMap>)
    ensures
        entries(copy) == entries(*value),
{
    match value {
        Some(m) => Some(m.duplicate()),
        None => None,
    }
}

/// Defaults shared by all events reported through one client.
pub struct Configuration {
    /// Credential authenticating delivery. Without it nothing is delivered.
    pub access_token: Option<String>,
    pub environment: Option<String>,
    pub host: Option<String>,
    pub code_version: Option<String>,
    /// Events strictly below this severity are dropped.
    pub log_level: Level,
    pub platform: Option<String>,
    pub framework: Option<String>,
    pub context: Option<String>,
    pub custom: Option<CustomMap>,
}

/// What a [`Configuration`] says, independent of how it is stored.
pub ghost struct ConfigurationView {
    pub access_token: Option<Seq<char>>,
    pub environment: Option<Seq<char>>,
    pub host: Option<Seq<char>>,
    pub code_version: Option<Seq<char>>,
    pub log_level: Level,
    pub platform: Option<Seq<char>>,
    pub framework: Option<Seq<char>>,
    pub context: Option<Seq<char>>,
    pub custom: Option<Map<Seq<char>, serde_json::Value>>,
}

impl View for Configuration {
    type V = ConfigurationView;

    open spec fn view(&self) -> ConfigurationView {
        ConfigurationView {
            access_token: text(self.access_token),
            environment: text(self.environment),
            host: text(self.host),
            code_version: text(self.code_version),
            log_level: self.log_level,
            platform: text(self.platform),
            framework: text(self.framework),
            context: text(self.context),
            custom: entries(self.custom),
        }
    }
}

impl Configuration {
    /// The configuration a process starts with: minimum severity `Info`, the
    /// given platform identifier, and nothing else set.
    pub fn new(platform: &str) -> (config: Configuration)
        ensures
            config@ == (ConfigurationView {
                access_token: None,
                environment: None,
                host: None,
                code_version: None,
                log_level: Level::Info,
                platform: Some(platform@),
                framework: None,
                context: None,
                custom: None,
            }),
    {
        Configuration {
            access_token: None,
            environment: None,
            host: None,
            code_version: None,
            log_level: Level::Info,
            platform: Some(platform.to_owned()),
            framework: None,
            context: None,
            custom: None,
        }
    }

    /// An independent copy saying the same.
    pub fn duplicate(&self) -> (copy: Configuration)
        ensures
            copy@ == self@,
    {
        Configuration {
            access_token: copy_text(&self.access_token),
            environment: copy_text(&self.environment),
            host: copy_text(&self.host),
            code_version: copy_text(&self.code_version),
            log_level: self.log_level,
            platform: copy_text(&self.platform),
            framework: copy_text(&self.framework),
            context: copy_text(&self.context),
            custom: copy_custom(&self.custom),
        }
    }
}

/// Sets the credential.
pub fn set_token(config: &mut Configuration, token: &str)
    ensures
        final(config)@ == (ConfigurationView { access_token: Some(token@), ..old(config)@ }),
        final(config).custom == old(config).custom,
{
    config.access_token = Some(token.to_owned());
}

/// Removes the credential, which turns delivery off.
pub fn unset_token(config: &mut Configuration)
    ensures
        final(config)@ == (ConfigurationView { access_token: None, ..old(config)@ }),
        final(config).custom == old(config).custom,
{
    config.access_token = None;
}

/// Sets the environment name.
pub fn set_environment(config: &mut Configuration, environment: &str)
    ensures
        final(config)@ == (ConfigurationView { environment: Some(environment@), ..old(config)@ }),
        final(config).custom == old(config).custom,
{
    config.environment = Some(environment.to_owned());
}

/// Sets the host name.
pub fn set_host(config: &mut Configuration, host: &str)
    ensures
        final(config)@ == (ConfigurationView { host: Some(host@), ..old(config)@ }),
        final(config).custom == old(config).custom,
{
    config.host = Some(host.to_owned());
}

/// Sets the code version.
pub fn set_code_version(config: &mut Configuration, code_version: &str)
    ensures
        final(config)@ == (ConfigurationView { code_version: Some(code_version@), ..old(config)@ }),
        final(config).custom == old(config).custom,
{
    config.code_version = Some(code_version.to_owned());
}

/// Sets the minimum severity.
pub fn set_log_level(config: &mut Configuration, level: Level)
    ensures
        final(config)@ == (ConfigurationView { log_level: level, ..old(config)@ }),
        final(config).custom == old(config).custom,
{
    config.log_level = level;
}

/// Sets the platform identifier.
pub fn set_platform(config: &mut Configuration, platform: &str)
    ensures
        final(config)@ == (ConfigurationView { platform: Some(platform@), ..old(config)@ }),
        final(config).custom == old(config).custom,
{
    config.platform = Some(platform.to_owned());
}

/// Sets the framework name.
pub fn set_framework(config: &mut Configuration, framework: &str)
    ensures
        final(config)@ == (ConfigurationView { framework: Some(framework@), ..old(config)@ }),
        final(config).custom == old(config).custom,
{
    config.framework = Some(framework.to_owned());
}

/// Sets the free-form context string.
pub fn set_context(config: &mut Configuration, context: &str)
    ensures
        final(config)@ == (ConfigurationView { context: Some(context@), ..old(config)@ }),
        final(config).custom == old(config).custom,
{
    config.context = Some(context.to_owned());
}

/// The entries of an optional map, an absent map counting as empty.
pub open spec fn entries_or_empty(value: Option<CustomMap>) -> Map<Seq<char>, serde_json::Value> {
    match value {
        Some(m) => m@,
        None => Map::empty(),
    }
}

/// Stores `value` under `key` in the custom map, creating the map if there is
/// none and replacing an earlier value of the same key.
pub fn set_custom(config: &mut Configuration, key: &str, value: serde_json::Value)
    ensures
        final(config)@ == (ConfigurationView {
            custom: Some(entries_or_empty(old(config).custom).insert(key@, value)),
            ..old(config)@
        }),
{
    let mut map = match config.custom.take() {
        Some(m) => m,
        None => CustomMap::new(),
    };
    map.insert(key, value);
    config.custom = Some(map);
}

} // verus!
