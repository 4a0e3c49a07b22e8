use wargames::session::{CommandResult, Login};
use wargames::{WargameConfig, WargameError};

fn settings(port: i64, passwords: &[&str]) -> WargameConfig {
    WargameConfig {
        name: "bandit".to_string(),
        host: "bandit.labs.overthewire.org".to_string(),
        port,
        passwords: passwords.iter().map(|p| p.to_string()).collect(),
    }
}

#[test]
fn login_of_level_zero_uses_the_published_password() {
    let login = Login::from_settings(&settings(2220, &["listed", "one"]), 0).unwrap();
    assert_eq!(
        login,
        Login {
            host: "bandit.labs.overthewire.org".to_string(),
            port: 2220,
            user: "bandit0".to_string(),
            password: "bandit0".to_string(),
        }
    );
}

#[test]
fn login_of_a_later_level_uses_the_password_of_the_settings() {
    let login = Login::from_settings(&settings(2220, &["zero", "one", "two"]), 2).unwrap();
    assert_eq!(login.user, "bandit2");
    assert_eq!(login.password, "two");
}

#[test]
fn login_fails_beyond_the_passwords_of_the_settings() {
    assert_eq!(
        Login::from_settings(&settings(2220, &["zero", "one", "two"]), 3),
        Err(WargameError::PasswordIndexOutOfRange)
    );
}

#[test]
fn login_with_a_password_asks_the_settings_for_none() {
    let login = Login::from_settings_with_password(&settings(22, &[]), 9, "given".to_string());
    assert_eq!(
        login,
        Login {
            host: "bandit.labs.overthewire.org".to_string(),
            port: 22,
            user: "bandit9".to_string(),
            password: "given".to_string(),
        }
    );
}

#[test]
fn login_keeps_a_port_that_fits() {
    for port in [0i64, 1, 22, 2220, 65535] {
        let login = Login::from_settings_with_password(&settings(port, &[]), 0, String::new());
        assert_eq!(login.port as i64, port);
    }
}

#[test]
fn login_cuts_a_port_down_to_sixteen_bits() {
    let cut = |port: i64| Login::from_settings_with_password(&settings(port, &[]), 0, String::new()).port;
    assert_eq!(cut(65536), 0);
    assert_eq!(cut(70000), 4464);
    assert_eq!(cut(-1), 65535);
    assert_eq!(cut(i64::MAX), 65535);
    assert_eq!(cut(i64::MIN), 0);
}

#[test]
fn command_result_of_an_echo() {
    let result = CommandResult { output: b"hello\n".to_vec(), exit_code: Some(0) };
    assert_eq!(result.text(), "hello\n");
    assert_eq!(result.password(), "hello");
    assert!(result.success());
}

#[test]
fn command_result_succeeds_with_status_zero_only() {
    let with = |exit_code| CommandResult { output: Vec::new(), exit_code };
    assert!(with(Some(0)).success());
    assert!(!with(Some(1)).success());
    assert!(!with(Some(127)).success());
    assert!(!with(Some(u32::MAX)).success());
    assert!(!with(None).success());
}

#[test]
fn command_result_reads_its_output_as_utf8() {
    let result = CommandResult { output: "päss wörd \n".as_bytes().to_vec(), exit_code: Some(0) };
    assert_eq!(result.text(), "päss wörd \n");
    assert_eq!(result.password(), "päss wörd");
}

#[test]
fn command_result_replaces_what_is_no_utf8() {
    let result = CommandResult { output: vec![b'a', 0xff, b'b', 0xc3, b'\n'], exit_code: Some(0) };
    assert_eq!(result.text(), "a\u{fffd}b\u{fffd}\n");
    assert_eq!(result.password(), "a\u{fffd}b\u{fffd}");
}

#[test]
fn command_result_without_output_gives_an_empty_password() {
    let result = CommandResult { output: Vec::new(), exit_code: Some(1) };
    assert_eq!(result.text(), "");
    assert_eq!(result.password(), "");
    let blank = CommandResult { output: b" \n\t\n".to_vec(), exit_code: Some(0) };
    assert_eq!(blank.password(), "");
}
