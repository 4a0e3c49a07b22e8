//! A wargame's settings: where it is served and which passwords are known.
//!
//! The settings of a wargame are a YAML document with three entries: `host`, a
//! text; `port`, an integer; and `passwords`, a list of texts in the order of
//! the levels.
use crate::document::{
    document_entries, int_entry, read_document, read_int, read_text, read_texts, text_entry,
    texts_entry, Reading,
};
use crate::error::{viewed, SettingKey, WargameError};
use vstd::prelude::*;

verus! {

/// The settings of one wargame. They are loaded once and never changed: a
/// password that a level gives away is not written back.
#[derive(Clone, Debug, PartialEq, Eq)]
pub struct WargameConfig {
    /// The name of the wargame. Its users are named after it.
    pub name: String,
    /// The machine that serves the wargame.
    pub host: String,
    /// The port at which it listens, as the document gives it.
    pub port: i64,
    /// The passwords found so far; the one at index `i` is that of level `i`.
    pub passwords: Vec<String>,
}

/// The settings of one wargame, as contracts speak of them.
pub ghost struct WargameConfigView {
    pub name: Seq<char>,
    pub host: Seq<char>,
    pub port: i64,
    pub passwords: Seq<Seq<char>>,
}

impl View for WargameConfig {
    type V = WargameConfigView;

    open spec fn view(&self) -> WargameConfigView {
        WargameConfigView {
            name: self.name@,
            host: self.host@,
            port: self.port,
            passwords: self.passwords.deep_view(),
        }
    }
}

/// The failure that a reading stands for, if it found nothing of use.
pub open spec fn reading_error<T>(reading: Reading<T>, key: SettingKey) -> Option<WargameError> {
    match reading {
        Reading::Found(_) => None,
        Reading::Missing => Some(WargameError::ConfigKeyMissing(key)),
        Reading::Mismatch => Some(WargameError::ConfigWrongType(key)),
    }
}

/// The settings that three readings make up. All three entries must be there: the
/// first of `host`, `port` and `passwords` that is missing or of the wrong type
/// decides the failure, and nothing is put in its place.
pub open spec fn settings_from(
    name: Seq<char>,
    host: Reading<Seq<char>>,
    port: Reading<i64>,
    passwords: Reading<Seq<Seq<char>>>,
) -> Result<WargameConfigView, WargameError> {
    if reading_error(host, SettingKey::Host) is Some {
        Err(reading_error(host, SettingKey::Host)->0)
    } else if reading_error(port, SettingKey::Port) is Some {
        Err(reading_error(port, SettingKey::Port)->0)
    } else if reading_error(passwords, SettingKey::Passwords) is Some {
        Err(reading_error(passwords, SettingKey::Passwords)->0)
    } else {
        Ok(
            WargameConfigView {
                name,
                host: host->Found_0,
                port: port->Found_0,
                passwords: passwords->Found_0,
            },
        )
    }
}

/// The settings that a wargame's document holds. Without a document there are
/// none, and none either where the text is not read as a document.
pub open spec fn settings_of(name: Seq<char>, source: Option<Seq<char>>) -> Result<
    WargameConfigView,
    WargameError,
> {
    match source {
        None => Err(WargameError::ConfigNotFound),
        Some(text) => match document_entries(text) {
            None => Err(WargameError::ConfigUnreadable),
            Some(entries) => settings_from(
                name,
                read_text(entries, SettingKey::Host.spec_name()),
                read_int(entries, SettingKey::Port.spec_name()),
                read_texts(entries, SettingKey::Passwords.spec_name()),
            ),
        },
    }
}

/// Where the settings document of a wargame is kept: `settings/`, the name of
/// the wargame, and `.yaml`.
pub open spec fn settings_path_of(name: Seq<char>) -> Seq<char> {
    "settings/"@ + name + ".yaml"@
}

/// Where the settings document of a wargame is kept.
pub fn settings_path(wargame: &str) -> (path: String)
    ensures
        path@ == settings_path_of(wargame@),
{
    let mut path = String::from_str("settings/");
    path.append(wargame);
    path.append(".yaml");
    path
}

/// Puts the settings of a wargame together from what its document holds under
/// the three keys.
pub fn settings_from_readings(
    wargame: &str,
    host: Reading<String>,
    port: Reading<i64>,
    passwords: Reading<Vec<String>>,
) -> (settings: Result<WargameConfig, WargameError>)
    ensures
        viewed(settings) == settings_from(
            wargame@,
            host.deep_view(),
            port.deep_view(),
            passwords.deep_view(),
        ),
{
    let host = match host {
        Reading::Found(host) => host,
        Reading::Missing => {
            return Err(WargameError::ConfigKeyMissing(SettingKey::Host));
        },
        Reading::Mismatch => {
            return Err(WargameError::ConfigWrongType(SettingKey::Host));
        },
    };
    let port = match port {
        Reading::Found(port) => port,
        Reading::Missing => {
            return Err(WargameError::ConfigKeyMissing(SettingKey::Port));
        },
        Reading::Mismatch => {
            return Err(WargameError::ConfigWrongType(SettingKey::Port));
        },
    };
    let passwords = match passwords {
        Reading::Found(passwords) => passwords,
        Reading::Missing => {
            return Err(WargameError::ConfigKeyMissing(SettingKey::Passwords));
        },
        Reading::Mismatch => {
            return Err(WargameError::ConfigWrongType(SettingKey::Passwords));
        },
    };
    Ok(WargameConfig { name: wargame.to_owned(), host, port, passwords })
}

/// Loads the settings of a wargame from the text of its settings document.
/// `source` is nothing where the wargame has no such document.
pub fn load_settings(wargame: &str, source: Option<&str>) -> (settings: Result<
    WargameConfig,
    WargameError,
>)
    ensures
        viewed(settings) == settings_of(wargame@, source.deep_view()),
        source is None <==> settings == Err::<WargameConfig, _>(WargameError::ConfigNotFound),
{
    let text = match source {
        Some(text) => text,
        None => {
            return Err(WargameError::ConfigNotFound);
        },
    };
    let table = match read_document(text) {
        Some(table) => table,
        None => {
            return Err(WargameError::ConfigUnreadable);
        },
    };
    let host = text_entry(&table, SettingKey::Host.name());
    let port = int_entry(&table, SettingKey::Port.name());
    let passwords = texts_entry(&table, SettingKey::Passwords.name());
    settings_from_readings(wargame, host, port, passwords)
}

} // verus!
