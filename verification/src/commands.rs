//! The command of each level of each wargame.
use crate::bandit;
use crate::text::same_text;
use vstd::prelude::*;

verus! {

/// The command that prints the password of a level of a wargame, where one is
/// known. No wargame has a command for level 0: its password is published.
pub open spec fn command_of(wargame: Seq<char>, level: nat) -> Option<Seq<char>> {
    if wargame == bandit::NAME@ {
        bandit::command_of(level)
    } else {
        None
    }
}

/// Looks up the command that prints the password of a level of a wargame.
pub fn level_command(wargame: &str, level: u8) -> (command: Option<&'static str>)
    ensures
        command.deep_view() == command_of(wargame@, level as nat),
        level == 0 ==> command is None,
{
    if same_text(wargame, bandit::NAME) {
        bandit::command(level)
    } else {
        None
    }
}

} // verus!
