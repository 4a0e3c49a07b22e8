//! What a session is opened with, and what a command leaves behind.
use crate::credentials::{level_user, password_of, user_of};
use crate::error::{viewed, WargameError};
use crate::settings::{WargameConfig, WargameConfigView};
use crate::text::{trim, trimmed};
use vstd::prelude::*;
use vstd::utf8::{decode_utf8, valid_utf8};

verus! {

/// What it takes to open a session: where, as whom, and with which password.
#[derive(Clone, Debug, PartialEq, Eq)]
pub struct Login {
    /// The machine to reach.
    pub host: String,
    /// The port to reach it at.
    pub port: u16,
    /// The user to log in as.
    pub user: String,
    /// The password of that user.
    pub password: String,
}

/// A login, as contracts speak of it.
pub ghost struct LoginView {
    pub host: Seq<char>,
    pub port: u16,
    pub user: Seq<char>,
    pub password: Seq<char>,
}

impl View for Login {
    type V = LoginView;

    open spec fn view(&self) -> LoginView {
        LoginView { host: self.host@, port: self.port, user: self.user@, password: self.password@ }
    }
}

/// The login of a level with a given password. The port is the one of the
/// settings cut down to its lower 16 bits, so a port from 0 to 65535 is kept as
/// it is.
pub open spec fn login_of(config: WargameConfigView, level: nat, password: Seq<char>) -> LoginView {
    LoginView {
        host: config.host,
        port: config.port as u16,
        user: user_of(config.name, level),
        password,
    }
}

/// The login of a level with the password that the settings hold for it.
pub open spec fn settings_login_of(config: WargameConfigView, level: nat) -> Result<
    LoginView,
    WargameError,
> {
    match password_of(config, level) {
        Ok(password) => Ok(login_of(config, level, password)),
        Err(error) => Err(error),
    }
}

impl Login {
    /// The login of a level with a password that the caller knows.
    pub fn from_settings_with_password(
        config: &WargameConfig,
        level: u8,
        password: String,
    ) -> (login: Login)
        ensures
            login@ == login_of(config@, level as nat, password@),
            0 <= config.port <= u16::MAX ==> login.port == config.port,
    {
        Login {
            host: config.host.clone(),
            port: #[verifier::truncate]
            (config.port as u16),
            user: level_user(config.name.as_str(), level),
            password,
        }
    }

    /// The login of a level with the password that the settings hold for it.
    /// At level 0 the password is the published one, which is the name of the
    /// user.
    pub fn from_settings(config: &WargameConfig, level: u8) -> (login: Result<Login, WargameError>)
        ensures
            viewed(login) == settings_login_of(config@, level as nat),
            level == 0 ==> login is Ok && login->Ok_0.user@ == login->Ok_0.password@,
    {
        match config.password(level) {
            Ok(password) => Ok(Login::from_settings_with_password(config, level, password)),
            Err(error) => Err(error),
        }
    }
}

/// What `String::from_utf8_lossy` makes of a sequence of bytes: the text that
/// they encode in UTF-8, with the replacement character U+FFFD wherever they
/// encode none.
pub uninterp spec fn lossy_text(bytes: Seq<u8>) -> Seq<char>;

/// Reads bytes as text with `String::from_utf8_lossy`.
///
/// Taken on trust: the result is what `lossy_text` names for the bytes, and
/// for bytes that are UTF-8 throughout it is the text that they encode.
#[verifier::external_body]
fn decode_lossy(bytes: &[u8]) -> (text: String)
    ensures
        text@ == lossy_text(bytes@),
        valid_utf8(bytes@) ==> text@ == decode_utf8(bytes@),
{
    String::from_utf8_lossy(bytes).into_owned()
}

/// What a command left behind: what it wrote to its standard output, and the
/// status with which it ended, if it reported one.
#[derive(Clone, Debug, PartialEq, Eq)]
pub struct CommandResult {
    /// What the command wrote to its standard output.
    pub output: Vec<u8>,
    /// The status with which the command ended, if it reported one.
    pub exit_code: Option<u32>,
}

/// The result of a command, as contracts speak of it.
pub ghost struct CommandResultView {
    pub output: Seq<u8>,
    pub exit_code: Option<u32>,
}

impl View for CommandResult {
    type V = CommandResultView;

    open spec fn view(&self) -> CommandResultView {
        CommandResultView { output: self.output@, exit_code: self.exit_code }
    }
}

impl CommandResultView {
    /// The output as text.
    pub open spec fn text(self) -> Seq<char> {
        lossy_text(self.output)
    }

    /// The password that the output gives away: its text without the white
    /// space around it.
    pub open spec fn password(self) -> Seq<char> {
        trimmed(self.text())
    }

    /// Whether the command ended with status 0.
    pub open spec fn success(self) -> bool {
        self.exit_code == Some(0u32)
    }
}

impl CommandResult {
    /// The output as text.
    pub fn text(&self) -> (text: String)
        ensures
            text@ == self@.text(),
            valid_utf8(self.output@) ==> text@ == decode_utf8(self.output@),
    {
        decode_lossy(self.output.as_slice())
    }

    /// The password that the output gives away.
    pub fn password(&self) -> (password: String)
        ensures
            password@ == self@.password(),
            valid_utf8(self.output@) ==> password@ == trimmed(decode_utf8(self.output@)),
    {
        let text = self.text();
        trim(text.as_str())
    }

    /// Whether the command ended with status 0. A command that reported no
    /// status did not succeed.
    pub fn success(&self) -> (success: bool)
        ensures
            success == self@.success(),
    {
        match self.exit_code {
            Some(code) => code == 0,
            None => false,
        }
    }
}

} // verus!
