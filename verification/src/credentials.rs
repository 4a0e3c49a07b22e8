//! Who logs in at a level, and with which password.
use crate::error::{viewed, WargameError};
use crate::settings::{WargameConfig, WargameConfigView};
use crate::text::{decimal, decimal_text, lemma_decimal_injective};
use vstd::prelude::*;

verus! {

/// The user of a level: the name of the wargame, then the level in decimal.
pub open spec fn user_of(name: Seq<char>, level: nat) -> Seq<char> {
    name + decimal(level)
}

/// The password of level 0, which the wargame publishes: it is the name of the
/// user of that level.
pub open spec fn bootstrap_password(name: Seq<char>) -> Seq<char> {
    user_of(name, 0)
}

/// The password of a level. That of level 0 is the published one, whatever the
/// settings hold; that of a later level is the entry of the list at the level's
/// index, and there is none beyond the list.
pub open spec fn password_of(config: WargameConfigView, level: nat) -> Result<
    Seq<char>,
    WargameError,
> {
    if level == 0 {
        Ok(bootstrap_password(config.name))
    } else if level < config.passwords.len() {
        Ok(config.passwords[level as int])
    } else {
        Err(WargameError::PasswordIndexOutOfRange)
    }
}

/// No two levels of a wargame share a user.
pub proof fn lemma_users_differ(name: Seq<char>, a: nat, b: nat)
    requires
        user_of(name, a) == user_of(name, b),
    ensures
        a == b,
{
    assert(decimal(a) =~= user_of(name, a).skip(name.len() as int));
    assert(decimal(b) =~= user_of(name, b).skip(name.len() as int));
    lemma_decimal_injective(a, b);
}

/// Names the user of a level.
pub fn level_user(wargame: &str, level: u8) -> (user: String)
    ensures
        user@ == user_of(wargame@, level as nat),
{
    let mut user = wargame.to_owned();
    let digits = decimal_text(level);
    user.append(digits.as_str());
    user
}

impl WargameConfig {
    /// Finds the password of a level.
    pub fn password(&self, level: u8) -> (password: Result<String, WargameError>)
        ensures
            viewed(password) == password_of(self@, level as nat),
            level == 0 ==> viewed(password) == Ok::<Seq<char>, WargameError>(
                bootstrap_password(self.name@),
            ),
            level != 0 && level >= self.passwords@.len() ==> password == Err::<String, _>(
                WargameError::PasswordIndexOutOfRange,
            ),
    {
        if level == 0 {
            Ok(level_user(self.name.as_str(), 0))
        } else if (level as usize) < self.passwords.len() {
            Ok(self.passwords[level as usize].clone())
        } else {
            Err(WargameError::PasswordIndexOutOfRange)
        }
    }
}

/// Finds the password of a level in the settings of a wargame.
pub fn get_level_password(config: WargameConfig, level: u8) -> (password: Result<
    String,
    WargameError,
>)
    ensures
        viewed(password) == password_of(config@, level as nat),
        level == 0 ==> viewed(password) == Ok::<Seq<char>, WargameError>(
            bootstrap_password(config.name@),
        ),
        level != 0 && level >= config.passwords@.len() ==> password == Err::<String, _>(
            WargameError::PasswordIndexOutOfRange,
        ),
{
    config.password(level)
}

} // verus!
