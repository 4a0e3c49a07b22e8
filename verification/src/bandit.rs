//! The wargame Bandit: the command that gives away the password of each level.
//!
//! The command of level `n` is run in a session of level `n - 1`, whose user
//! can read what level `n` asks for.
use vstd::prelude::*;

verus! {

/// The name of the wargame.
pub const NAME: &'static str = "bandit";

/// The last level whose command is known.
pub const LAST_LEVEL: u8 = 14;

/// The command that prints the password of a level, for the levels from 1 to
/// the last one known.
pub open spec fn command_of(level: nat) -> Option<Seq<char>> {
    if level == 1 {
        Some("cat readme"@)
    } else if level == 2 {
        Some("cat ./-"@)
    } else if level == 3 {
        Some("cat \"./spaces in this filename\""@)
    } else if level == 4 {
        Some("cat \"./inhere/.hidden\""@)
    } else if level == 5 {
        Some(
            "find ./inhere -type f -exec file {} + | awk -F: '/ ASCII text/{print $1}' | xargs cat"@,
        )
    } else if level == 6 {
        Some("find ./inhere -type f -size 1033c ! -perm /0111 | xargs cat"@)
    } else if level == 7 {
        Some("find / -size 33c -group bandit6 -user bandit7 -print 2>/dev/null | xargs cat"@)
    } else if level == 8 {
        Some("grep 'millionth' ./data.txt | awk '{print $2}'"@)
    } else if level == 9 {
        Some("cat data.txt | sort | uniq -u"@)
    } else if level == 10 {
        Some("strings data.txt | awk '/==+/{print $2;}' | tac | head -n 1"@)
    } else if level == 11 {
        Some("cat data.txt | base64 --decode | awk '{print $4}'"@)
    } else if level == 12 {
        Some("cat data.txt | tr 'A-Za-z' 'N-ZA-Mn-za-m' | awk '{print $4}'"@)
    } else if level == 13 {
        Some(
            "cat data.txt |
        xxd -r |
        gzip --decompress |
        bzip2 --decompress |
        gzip --decompress |
        tar --extract --to-stdout |
        tar --extract --to-stdout |
        bzip2 --decompress |
        tar --extract --to-stdout |
        gzip --decompress |
        awk '{print $4}'"@,
        )
    } else if level == 14 {
        Some(
            "ssh -o StrictHostKeyChecking=no -i sshkey.private bandit14@localhost -p 2220 'cat /etc/bandit_pass/bandit14' 2>/dev/null"@,
        )
    } else {
        None
    }
}

/// Looks up the command that prints the password of a level.
pub fn command(level: u8) -> (command: Option<&'static str>)
    ensures
        command.deep_view() == command_of(level as nat),
        command is Some <==> 1 <= level <= LAST_LEVEL,
{
    match level {
        1 => Some("cat readme"),
        2 => Some("cat ./-"),
        3 => Some("cat \"./spaces in this filename\""),
        4 => Some("cat \"./inhere/.hidden\""),
        5 => Some(
            "find ./inhere -type f -exec file {} + | awk -F: '/ ASCII text/{print $1}' | xargs cat",
        ),
        6 => Some("find ./inhere -type f -size 1033c ! -perm /0111 | xargs cat"),
        7 => Some("find / -size 33c -group bandit6 -user bandit7 -print 2>/dev/null | xargs cat"),
        8 => Some("grep 'millionth' ./data.txt | awk '{print $2}'"),
        9 => Some("cat data.txt | sort | uniq -u"),
        10 => Some("strings data.txt | awk '/==+/{print $2;}' | tac | head -n 1"),
        11 => Some("cat data.txt | base64 --decode | awk '{print $4}'"),
        12 => Some("cat data.txt | tr 'A-Za-z' 'N-ZA-Mn-za-m' | awk '{print $4}'"),
        13 => Some(
            "cat data.txt |
        xxd -r |
        gzip --decompress |
        bzip2 --decompress |
        gzip --decompress |
        tar --extract --to-stdout |
        tar --extract --to-stdout |
        bzip2 --decompress |
        tar --extract --to-stdout |
        gzip --decompress |
        awk '{print $4}'",
        ),
        14 => Some(
            "ssh -o StrictHostKeyChecking=no -i sshkey.private bandit14@localhost -p 2220 'cat /etc/bandit_pass/bandit14' 2>/dev/null",
        ),
        _ => None,
    }
}

} // verus!
