//! Settings: built-in defaults, overridden by whatever a config file gives.
use vstd::prelude::*;
use crate::filter::{order_named, OrderKey};
use crate::strings::joined;
use crate::text::chars_of;

verus! {

/// The `[yts]` table of a config file.
#[derive(Debug, Clone, PartialEq, Eq)]
pub struct CatalogSection {
    pub host: Option<String>,
    pub download_dir: Option<String>,
    pub order: Option<String>,
}

/// The `[opensubs]` table of a config file.
#[derive(Debug, Clone, PartialEq, Eq)]
pub struct SubtitleSection {
    pub language: Option<String>,
    pub order: Option<String>,
}

/// The `[transmission]` table of a config file.
#[derive(Debug, Clone, PartialEq, Eq)]
pub struct DownloadSection {
    pub host: Option<String>,
    pub username: Option<String>,
    pub password: Option<String>,
}

/// What a config file gives; each table and entry may be left out.
#[derive(Debug, Clone, PartialEq, Eq)]
pub struct ConfigFile {
    pub yts: Option<CatalogSection>,
    pub opensubs: Option<SubtitleSection>,
    pub transmission: Option<DownloadSection>,
}

/// The settings a session runs with.
#[derive(Debug, Clone, PartialEq, Eq)]
pub struct Config {
    pub yts_host: String,
    pub yts_download_dir: String,
    pub yts_order: OrderKey,
    pub opensubs_lang: String,
    pub opensubs_order: String,
    pub transmission_host: String,
    pub transmission_username: Option<String>,
    pub transmission_password: Option<String>,
}

/// A config file that cannot be used.
#[derive(Debug, Clone, PartialEq, Eq)]
pub enum ConfigError {
    /// The `order` entry names no order the catalog knows.
    UnknownOrder(String),
}

pub open spec fn default_catalog_host() -> Seq<char> {
    "https://en.yts-official.mx"@
}

pub open spec fn default_language() -> Seq<char> {
    "es"@
}

/// The order subtitle searches list their results in by default.
pub open spec fn default_subtitle_order() -> Seq<char> {
    "downloads"@
}

pub open spec fn default_download_host() -> Seq<char> {
    "http://127.0.0.1:9091/transmission/rpc"@
}

/// The download directory used by default: `Downloads` under `home`.
pub open spec fn default_download_dir(home: Seq<char>) -> Seq<char> {
    home + "/Downloads"@
}

/// `given` when present, else `fallback`.
pub open spec fn given_or(given: Option<String>, fallback: Seq<char>) -> Seq<char> {
    match given {
        Some(s) => s@,
        None => fallback,
    }
}

pub open spec fn catalog_entry(file: ConfigFile, pick: spec_fn(CatalogSection) -> Option<String>) -> Option<String> {
    match file.yts {
        Some(y) => pick(y),
        None => None,
    }
}

pub open spec fn download_entry(file: ConfigFile, pick: spec_fn(DownloadSection) -> Option<String>) -> Option<String> {
    match file.transmission {
        Some(t) => pick(t),
        None => None,
    }
}

pub open spec fn language_entry(file: ConfigFile) -> Option<String> {
    match file.opensubs {
        Some(o) => o.language,
        None => None,
    }
}

pub open spec fn subtitle_order_entry(file: ConfigFile) -> Option<String> {
    match file.opensubs {
        Some(o) => o.order,
        None => None,
    }
}

impl Config {
    /// The settings used without a config file, for a user whose home
    /// directory is `home`.
    pub fn default_for(home: &str) -> (r: Config)
        ensures
            r.yts_host@ == default_catalog_host(),
            r.yts_download_dir@ == default_download_dir(home@),
            r.yts_order == OrderKey::Rating,
            r.opensubs_lang@ == default_language(),
            r.opensubs_order@ == default_subtitle_order(),
            r.transmission_host@ == default_download_host(),
            r.transmission_username is None,
            r.transmission_password is None,
    {
        Config {
            yts_host: String::from_str("https://en.yts-official.mx"),
            yts_download_dir: joined(home, "/Downloads"),
            yts_order: OrderKey::Rating,
            opensubs_lang: String::from_str("es"),
            opensubs_order: String::from_str("downloads"),
            transmission_host: String::from_str("http://127.0.0.1:9091/transmission/rpc"),
            transmission_username: None,
            transmission_password: None,
        }
    }

    /// The defaults for `home`, overridden by each entry `file` gives. A
    /// `[transmission]` table replaces both credentials, present or not.
    /// Fails exactly when the file names an order the catalog does not know.
    pub fn from_file(file: ConfigFile, home: &str) -> (r: Result<Config, ConfigError>)
        ensures
            match catalog_entry(file, |y: CatalogSection| y.order) {
                Some(o) => match order_named(o@) {
                    Some(k) => r is Ok && r->Ok_0.yts_order == k,
                    None => r == Err::<Config, ConfigError>(ConfigError::UnknownOrder(o)),
                },
                None => r is Ok && r->Ok_0.yts_order == OrderKey::Rating,
            },
            r is Ok ==> {
                let c = r->Ok_0;
                &&& c.yts_host@ == given_or(
                    catalog_entry(file, |y: CatalogSection| y.host),
                    default_catalog_host(),
                )
                &&& c.yts_download_dir@ == given_or(
                    catalog_entry(file, |y: CatalogSection| y.download_dir),
                    default_download_dir(home@),
                )
                &&& c.opensubs_lang@ == given_or(language_entry(file), default_language())
                &&& c.opensubs_order@ == given_or(
                    subtitle_order_entry(file),
                    default_subtitle_order(),
                )
                &&& c.transmission_host@ == given_or(
                    download_entry(file, |t: DownloadSection| t.host),
                    default_download_host(),
                )
                &&& c.transmission_username == download_entry(file, |t: DownloadSection| t.username)
                &&& c.transmission_password == download_entry(file, |t: DownloadSection| t.password)
            },
    {
        let mut config = Config::default_for(home);
        if let Some(yts) = file.yts {
            if let Some(host) = yts.host {
                config.yts_host = host;
            }
            if let Some(download_dir) = yts.download_dir {
                config.yts_download_dir = download_dir;
            }
            if let Some(order) = yts.order {
                match OrderKey::from_name(&chars_of(order.as_str())) {
                    Some(k) => config.yts_order = k,
                    None => return Err(ConfigError::UnknownOrder(order)),
                }
            }
        }
        if let Some(opensubs) = file.opensubs {
            if let Some(language) = opensubs.language {
                config.opensubs_lang = language;
            }
            if let Some(order) = opensubs.order {
                config.opensubs_order = order;
            }
        }
        if let Some(transmission) = file.transmission {
            if let Some(host) = transmission.host {
                config.transmission_host = host;
            }
            config.transmission_username = transmission.username;
            config.transmission_password = transmission.password;
        }
        Ok(config)
    }
}

} // verus!
