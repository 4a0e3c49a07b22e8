use wargames::bandit;
use wargames::commands::level_command;

#[test]
fn bandit_has_the_command_of_each_level() {
    assert_eq!(bandit::command(1), Some("cat readme"));
    assert_eq!(bandit::command(2), Some("cat ./-"));
    assert_eq!(bandit::command(3), Some("cat \"./spaces in this filename\""));
    assert_eq!(bandit::command(4), Some("cat \"./inhere/.hidden\""));
    assert_eq!(
        bandit::command(5),
        Some("find ./inhere -type f -exec file {} + | awk -F: '/ ASCII text/{print $1}' | xargs cat")
    );
    assert_eq!(
        bandit::command(6),
        Some("find ./inhere -type f -size 1033c ! -perm /0111 | xargs cat")
    );
    assert_eq!(
        bandit::command(7),
        Some("find / -size 33c -group bandit6 -user bandit7 -print 2>/dev/null | xargs cat")
    );
    assert_eq!(bandit::command(8), Some("grep 'millionth' ./data.txt | awk '{print $2}'"));
    assert_eq!(bandit::command(9), Some("cat data.txt | sort | uniq -u"));
    assert_eq!(
        bandit::command(10),
        Some("strings data.txt | awk '/==+/{print $2;}' | tac | head -n 1")
    );
    assert_eq!(bandit::command(11), Some("cat data.txt | base64 --decode | awk '{print $4}'"));
    assert_eq!(
        bandit::command(12),
        Some("cat data.txt | tr 'A-Za-z' 'N-ZA-Mn-za-m' | awk '{print $4}'")
    );
    assert_eq!(
        bandit::command(14),
        Some("ssh -o StrictHostKeyChecking=no -i sshkey.private bandit14@localhost -p 2220 'cat /etc/bandit_pass/bandit14' 2>/dev/null")
    );
}

#[test]
fn bandit_unpacks_level_thirteen_in_one_pipeline() {
    let stages = [
        "cat data.txt |",
        "xxd -r |",
        "gzip --decompress |",
        "bzip2 --decompress |",
        "gzip --decompress |",
        "tar --extract --to-stdout |",
        "tar --extract --to-stdout |",
        "bzip2 --decompress |",
        "tar --extract --to-stdout |",
        "gzip --decompress |",
        "awk '{print $4}'",
    ];
    assert_eq!(bandit::command(13), Some(stages.join("\n        ").as_str()));
}

#[test]
fn bandit_has_no_command_outside_its_levels() {
    assert_eq!(bandit::command(0), None);
    assert_eq!(bandit::command(15), None);
    assert_eq!(bandit::command(255), None);
    for level in 1..=bandit::LAST_LEVEL {
        assert!(bandit::command(level).is_some());
    }
}

#[test]
fn level_command_finds_the_table_by_the_name_of_the_wargame() {
    assert_eq!(bandit::NAME, "bandit");
    for level in 0..=255u8 {
        assert_eq!(level_command("bandit", level), bandit::command(level));
    }
}

#[test]
fn level_command_knows_no_other_wargame() {
    for level in 0..=255u8 {
        assert_eq!(level_command("leviathan", level), None);
        assert_eq!(level_command("Bandit", level), None);
        assert_eq!(level_command("bandit ", level), None);
        assert_eq!(level_command("", level), None);
    }
}
