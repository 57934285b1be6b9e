//! The configuration of the program: where the contacts are stored and
//! through which provider messages are sent.

use vstd::prelude::*;
use vstd::string::*;

verus! {

/// The address of a gateway that was configured without one.
pub open spec fn default_url_text() -> Seq<char> {
    "http://192.168.1.1"@
}

/// The path of the store when none is configured.
pub open spec fn default_storage_text() -> Seq<char> {
    "~/.config/sms_modem/sms_modem.db"@
}

/// The address of a gateway that was configured without one.
pub fn default_alcatel_url() -> (url: String)
    ensures
        url@ == default_url_text(),
{
    String::from_str("http://192.168.1.1")
}

/// How often a gateway is asked whether it has sent a message.
pub fn default_retry_count() -> (count: usize)
    ensures
        count == 3,
{
    3
}

/// The milliseconds between two such questions.
pub fn default_retry_delay() -> (millis: u64)
    ensures
        millis == 500,
{
    500
}

/// Where contacts, groups and templates are stored.
#[derive(Debug)]
pub struct SmsDbConfig {
    pub storage_path: String,
}

impl Default for SmsDbConfig {
    fn default() -> (config: SmsDbConfig)
        ensures
            config.storage_path@ == default_storage_text(),
    {
        SmsDbConfig { storage_path: String::from_str("~/.config/sms_modem/sms_modem.db") }
    }
}

/// The provider through which messages are sent.
#[derive(Debug)]
pub enum SmsApiProvider {
    /// No device: every send succeeds and nothing is sent.
    Void,
    /// A gateway of the Alcatel family at `url`, asked at most `retry_count`
    /// times whether it has sent a message, `retry_delay` milliseconds apart.
    Alcatel { url: String, retry_count: usize, retry_delay: u64 },
}

impl Default for SmsApiProvider {
    fn default() -> (provider: SmsApiProvider)
        ensures
            provider is Void,
    {
        SmsApiProvider::Void
    }
}

impl SmsApiProvider {
    /// An Alcatel gateway, with the default for each setting that is absent.
    pub fn alcatel(url: Option<String>, retry_count: Option<usize>, retry_delay: Option<u64>) -> (provider:
        SmsApiProvider)
        ensures
            provider matches SmsApiProvider::Alcatel { url: u, retry_count: c, retry_delay: d }
                && u@ == (match url {
                Some(given) => given@,
                None => default_url_text(),
            }) && c == (match retry_count {
                Some(given) => given,
                None => 3,
            }) && d == (match retry_delay {
                Some(given) => given,
                None => 500,
            }),
    {
        let url = match url {
            Some(given) => given,
            None => default_alcatel_url(),
        };
        let retry_count = match retry_count {
            Some(given) => given,
            None => default_retry_count(),
        };
        let retry_delay = match retry_delay {
            Some(given) => given,
            None => default_retry_delay(),
        };
        SmsApiProvider::Alcatel { url, retry_count, retry_delay }
    }
}

/// The settings of the sending side.
#[derive(Debug)]
pub struct SmsApiConf {
    pub provider: SmsApiProvider,
}

impl Default for SmsApiConf {
    fn default() -> (config: SmsApiConf)
        ensures
            config.provider is Void,
    {
        SmsApiConf { provider: SmsApiProvider::Void }
    }
}

/// All settings.
#[derive(Debug)]
pub struct SmsConfig {
    pub db: SmsDbConfig,
    pub sms_api: SmsApiConf,
}

impl SmsConfig {
    /// Whether every setting has its default.
    pub open spec fn is_default(self) -> bool {
        self.db.storage_path@ == default_storage_text() && self.sms_api.provider is Void
    }
}

impl Default for SmsConfig {
    fn default() -> (config: SmsConfig)
        ensures
            config.is_default(),
    {
        SmsConfig {
            db: SmsDbConfig { storage_path: String::from_str("~/.config/sms_modem/sms_modem.db") },
            sms_api: SmsApiConf { provider: SmsApiProvider::Void },
        }
    }
}

/// Why the configuration could not be set up.
#[derive(Debug)]
pub enum ConfigError {
    /// The configuration was set before.
    AlreadyInitialized,
    /// The file could not be read or understood; holds the message.
    ConfigFileParseError(String),
}

/// What was found where the configuration file is expected.
#[derive(Debug)]
pub enum ConfigFile {
    /// No configuration directory, or no file in it.
    Missing,
    /// The file could not be read; holds the reason.
    Unreadable(String),
    /// The file is no valid configuration; holds the reason.
    Malformed(String),
    /// The file's settings.
    Parsed(SmsConfig),
}

/// The message for a file that could not be read.
pub open spec fn unreadable_text(reason: Seq<char>) -> Seq<char> {
    "Could not read config file: 'config.toml', Reason: "@ + reason
}

/// The message for a file that is no valid configuration.
pub open spec fn malformed_text(reason: Seq<char>) -> Seq<char> {
    "Could not parse config file: 'config.toml', Reason: "@ + reason
}

/// The configuration that results from what was found: the file's settings,
/// the defaults where there is no file, and an error for a file that could
/// not be read or understood.
pub fn load_config(file: ConfigFile) -> (loaded: Result<SmsConfig, ConfigError>)
    ensures
        match file {
            ConfigFile::Missing => loaded matches Ok(config) && config.is_default(),
            ConfigFile::Unreadable(reason) => loaded matches Err(
                ConfigError::ConfigFileParseError(m),
            ) && m@ == unreadable_text(reason@),
            ConfigFile::Malformed(reason) => loaded matches Err(
                ConfigError::ConfigFileParseError(m),
            ) && m@ == malformed_text(reason@),
            ConfigFile::Parsed(config) => loaded == Ok::<SmsConfig, ConfigError>(config),
        },
{
    match file {
        ConfigFile::Missing => Ok(SmsConfig::default()),
        ConfigFile::Unreadable(reason) => Err(
            ConfigError::ConfigFileParseError(
                String::from_str("Could not read config file: 'config.toml', Reason: ").concat(
                    reason.as_str(),
                ),
            ),
        ),
        ConfigFile::Malformed(reason) => Err(
            ConfigError::ConfigFileParseError(
                String::from_str("Could not parse config file: 'config.toml', Reason: ").concat(
                    reason.as_str(),
                ),
            ),
        ),
        ConfigFile::Parsed(config) => Ok(config),
    }
}

/// The place of the configuration: empty until `init` fills it, once.
#[derive(Debug)]
pub struct ConfigCell {
    slot: Option<SmsConfig>,
}

impl ConfigCell {
    /// What the cell holds.
    pub closed spec fn value(&self) -> Option<SmsConfig> {
        self.slot
    }

    /// An empty cell.
    pub fn new() -> (cell: ConfigCell)
        ensures
            cell.value() is None,
    {
        ConfigCell { slot: None }
    }

    /// Whether `init` has filled the cell.
    pub fn is_initialized(&self) -> (set: bool)
        ensures
            set == self.value().is_some(),
    {
        self.slot.is_some()
    }
}

/// Loads the configuration from what was found and puts it into the cell.
///
/// A file that could not be read or understood is reported first and leaves
/// the cell as it was. A cell that is filled already stays as it is, and
/// `AlreadyInitialized` is returned.
pub fn init(cell: &mut ConfigCell, file: ConfigFile) -> (done: Result<(), ConfigError>)
    ensures
        match file {
            ConfigFile::Unreadable(reason) => done matches Err(
                ConfigError::ConfigFileParseError(m),
            ) && m@ == unreadable_text(reason@) && *final(cell) == *old(cell),
            ConfigFile::Malformed(reason) => done matches Err(ConfigError::ConfigFileParseError(m))
                && m@ == malformed_text(reason@) && *final(cell) == *old(cell),
            ConfigFile::Missing => if old(cell).value() is Some {
                done == Err::<(), ConfigError>(ConfigError::AlreadyInitialized) && *final(cell)
                    == *old(cell)
            } else {
                final(cell).value() matches Some(config) && config.is_default() && done is Ok
            },
            ConfigFile::Parsed(config) => if old(cell).value() is Some {
                done == Err::<(), ConfigError>(ConfigError::AlreadyInitialized) && *final(cell)
                    == *old(cell)
            } else {
                done is Ok && final(cell).value() == Some(config)
            },
        },
{
    match load_config(file) {
        Err(error) => Err(error),
        Ok(config) => {
            if cell.slot.is_some() {
                Err(ConfigError::AlreadyInitialized)
            } else {
                cell.slot = Some(config);
                Ok(())
            }
        },
    }
}

/// The configuration that `init` put into the cell.
pub fn get(cell: &ConfigCell) -> (config: &SmsConfig)
    requires
        cell.value() is Some,
    ensures
        cell.value() == Some(*config),
{
    cell.slot.as_ref().unwrap()
}

} // verus!
