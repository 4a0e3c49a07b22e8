//! The ways in which a run can fail.
use vstd::prelude::*;

verus! {

/// A key of a wargame's settings document.
#[derive(Clone, Copy, Debug, PartialEq, Eq, Structural)]
pub enum SettingKey {
    /// `host`: the name of the machine that serves the wargame.
    Host,
    /// `port`: the port at which it listens.
    Port,
    /// `passwords`: the passwords found so far, in the order of the levels.
    Passwords,
}

/// Why a step of a run failed. No failure is recovered from: each one ends the
/// call in which it arose.
#[derive(Clone, Copy, Debug, PartialEq, Eq, Structural)]
pub enum WargameError {
    /// The wargame has no settings document.
    ConfigNotFound,
    /// The settings document was not read: it is no YAML document, or it
    /// nests deeper or repeats more than the library lets a document do.
    ConfigUnreadable,
    /// The settings document has no entry under the key.
    ConfigKeyMissing(SettingKey),
    /// The entry under the key is not of the type that the key asks for.
    ConfigWrongType(SettingKey),
    /// The level lies beyond the passwords that the settings hold.
    PasswordIndexOutOfRange,
    /// No command is known that yields the password of the level.
    UnknownLevel,
    /// The server refused the user and password.
    AuthenticationFailure,
    /// The server could not be reached.
    ConnectionFailure,
    /// The command could not be run, or never reported how it ended.
    CommandExecutionFailure,
}

impl SettingKey {
    /// The key as it is written in the document.
    pub open spec fn spec_name(self) -> Seq<char> {
        match self {
            SettingKey::Host => "host"@,
            SettingKey::Port => "port"@,
            SettingKey::Passwords => "passwords"@,
        }
    }

    /// The key as it is written in the document.
    pub fn name(self) -> (name: &'static str)
        ensures
            name@ == self.spec_name(),
    {
        match self {
            SettingKey::Host => "host",
            SettingKey::Port => "port",
            SettingKey::Passwords => "passwords",
        }
    }
}

/// A result as contracts speak of it: on success, the view of what it holds.
pub open spec fn viewed<T: View>(result: Result<T, WargameError>) -> Result<T::V, WargameError> {
    match result {
        Ok(value) => Ok(value@),
        Err(error) => Err(error),
    }
}

} // verus!
