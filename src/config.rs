use vstd::prelude::*;

verus! {

/// Settings read from the configuration file; every section falls back to
/// its default.
#[derive(Debug, Clone)]
pub struct Config {
    pub system: SystemConfig,
    pub flatpak: FlatpakConfig,
    pub firmware: FirmwareConfig,
    pub logging: LoggingConfig,
    pub network: NetworkConfig,
}

/// Operating-system package settings.
#[derive(Debug, Clone, Copy)]
pub struct SystemConfig {
    pub enabled: bool,
    pub auto_remove: bool,
    pub refresh: bool,
}

/// Sandboxed application settings.
#[derive(Debug, Clone, Copy)]
pub struct FlatpakConfig {
    pub enabled: bool,
    pub remove_unused: bool,
}

/// Firmware settings.
#[derive(Debug, Clone, Copy)]
pub struct FirmwareConfig {
    pub enabled: bool,
}

/// Where and how much to log.
#[derive(Debug, Clone)]
pub struct LoggingConfig {
    /// The log file's path.
    pub file: String,
    pub level: String,
}

/// How to probe for network access.
#[derive(Debug, Clone)]
pub struct NetworkConfig {
    pub check_url: String,
    pub timeout_secs: u64,
}

impl Default for SystemConfig {
    fn default() -> (r: SystemConfig)
        ensures
            r.enabled && r.auto_remove && r.refresh,
    {
        SystemConfig { enabled: true, auto_remove: true, refresh: true }
    }
}

impl Default for FlatpakConfig {
    fn default() -> (r: FlatpakConfig)
        ensures
            r.enabled && r.remove_unused,
    {
        FlatpakConfig { enabled: true, remove_unused: true }
    }
}

impl Default for FirmwareConfig {
    fn default() -> (r: FirmwareConfig)
        ensures
            !r.enabled,
    {
        FirmwareConfig { enabled: false }
    }
}

impl Default for LoggingConfig {
    fn default() -> (r: LoggingConfig)
        ensures
            r.file@ == "/var/log/sysupdater.log"@,
            r.level@ == "info"@,
    {
        LoggingConfig {
            file: String::from_str("/var/log/sysupdater.log"),
            level: String::from_str("info"),
        }
    }
}

impl Default for NetworkConfig {
    fn default() -> (r: NetworkConfig)
        ensures
            r.check_url@ == "https://fedoraproject.org"@,
            r.timeout_secs == 10,
    {
        NetworkConfig { check_url: String::from_str("https://fedoraproject.org"), timeout_secs: 10 }
    }
}

impl Default for Config {
    fn default() -> (r: Config)
        ensures
            r.system.enabled && r.system.auto_remove && r.system.refresh,
            r.flatpak.enabled && r.flatpak.remove_unused,
            !r.firmware.enabled,
            r.logging.file@ == "/var/log/sysupdater.log"@,
            r.logging.level@ == "info"@,
            r.network.check_url@ == "https://fedoraproject.org"@,
            r.network.timeout_secs == 10,
    {
        Config {
            system: SystemConfig::default(),
            flatpak: FlatpakConfig::default(),
            firmware: FirmwareConfig::default(),
            logging: LoggingConfig::default(),
            network: NetworkConfig::default(),
        }
    }
}

} // verus!
