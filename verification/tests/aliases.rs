use laravel_maker::command::{Command, Report};
use laravel_maker::error::AppError;
use laravel_maker::hosts::{alias_appended, append_alias, update_etc_hosts, AliasStep};
use laravel_maker::input::derive_project;

fn append(host: &str) -> Command {
    Command {
        program: "sudo".to_string(),
        args: vec![
            "sh".to_string(),
            "-c".to_string(),
            format!("echo '127.0.0.1 {}' >> /etc/hosts", host),
        ],
    }
}

#[test]
fn an_alias_that_is_there_is_not_written_again() {
    let project = derive_project("demo-app", "12");
    let file = "127.0.0.1 localhost\n127.0.0.1 demo-app.test\n";
    assert_eq!(update_etc_hosts(&project, Some(file)), AliasStep::Present);
    assert_eq!(update_etc_hosts(&project, Some("127.0.0.1 demo-app.test")), AliasStep::Present);
}

#[test]
fn a_missing_alias_is_appended() {
    let project = derive_project("demo-app", "12");
    let file = "127.0.0.1 localhost\n::1 ip6-localhost\n";
    assert_eq!(update_etc_hosts(&project, Some(file)), AliasStep::Append(append("demo-app.test")));
    assert_eq!(update_etc_hosts(&project, Some("")), AliasStep::Append(append("demo-app.test")));
}

#[test]
fn a_file_that_cannot_be_read_is_written_all_the_same() {
    let project = derive_project("demo-app", "12");
    assert_eq!(update_etc_hosts(&project, None), AliasStep::Append(append("demo-app.test")));
}

#[test]
fn the_host_is_looked_for_as_plain_characters() {
    // The host of the project "oo" stands inside the alias of another one.
    let project = derive_project("oo", "12");
    assert_eq!(update_etc_hosts(&project, Some("127.0.0.1 foo.test\n")), AliasStep::Present);
    // A mention in a comment counts too.
    let project = derive_project("demo-app", "12");
    assert_eq!(update_etc_hosts(&project, Some("# was demo-app.test\n")), AliasStep::Present);
    // A longer host does not stand inside a shorter alias.
    let project = derive_project("foo", "12");
    assert_eq!(
        update_etc_hosts(&project, Some("127.0.0.1 oo.test\n")),
        AliasStep::Append(append("foo.test"))
    );
}

#[test]
fn the_alias_is_appended_by_the_administrator() {
    assert_eq!(append_alias("demo-app.test"), append("demo-app.test"));
}

#[test]
fn every_failure_of_the_privileged_command_is_a_validation_failure() {
    let cancelled =
        Report::Ran { success: false, status: "signal: 2".to_string(), output: String::new() };
    let missing = Report::NotLaunched { reason: "No such file or directory".to_string() };
    assert!(matches!(alias_appended(&cancelled), Err(AppError::Validation(_))));
    assert!(matches!(alias_appended(&missing), Err(AppError::Validation(_))));
}

#[test]
fn the_appending_is_judged() {
    let ok = Report::Ran { success: true, status: "exit status: 0".to_string(), output: String::new() };
    let refused =
        Report::Ran { success: false, status: "exit status: 1".to_string(), output: String::new() };
    let missing = Report::NotLaunched { reason: "sudo: not found".to_string() };
    assert_eq!(alias_appended(&ok), Ok(()));
    assert_eq!(
        alias_appended(&refused),
        Err(AppError::Validation(
            "Falha ao executar 'sudo'. Verifique se você digitou a senha corretamente. Status: exit status: 1"
                .to_string()
        ))
    );
    assert_eq!(
        alias_appended(&missing),
        Err(AppError::Validation("sudo: not found".to_string()))
    );
}
