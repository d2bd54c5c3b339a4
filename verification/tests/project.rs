use laravel_maker::choice::Choice;
use laravel_maker::error::AppError;
use laravel_maker::input::{
    derive_project, name_entered, name_reply_for, path_checked, retry_after, retry_answered,
    version_entered, version_for, AfterCheck, NameReply, ProjectInput, Retry, VersionReply,
    DEFAULT_LARAVEL_VERSION, MINIMAL_LARAVEL_VERSION,
};

fn candidate(typed: &str, name: &str) -> NameReply {
    NameReply::Candidate {
        name: name.to_string(),
        path: format!("../src/{}", name),
        typed: typed.to_string(),
        reformatted: typed != name,
    }
}

fn accepted(version: &str) -> VersionReply {
    VersionReply::Accepted { version: version.to_string(), defaulted: false }
}

fn defaulted() -> VersionReply {
    VersionReply::Accepted { version: "12".to_string(), defaulted: true }
}

#[test]
fn end_to_end_example() {
    let reply = name_entered("Demo_App!!");
    assert_eq!(reply, candidate("demo_app!!", "demo-app"));
    assert!(matches!(reply, NameReply::Candidate { reformatted: true, .. }));
    let project = derive_project("demo-app", "12");
    assert_eq!(project.project_name, "demo-app");
    assert_eq!(project.project_host, "demo-app.test");
    assert_eq!(project.project_path, "../src/demo-app");
    assert_eq!(project.laravel_version, "12");
}

#[test]
fn a_project_is_derived_from_name_and_version() {
    assert_eq!(
        derive_project("x", "10"),
        ProjectInput {
            project_name: "x".to_string(),
            project_host: "x.test".to_string(),
            project_path: "../src/x".to_string(),
            laravel_version: "10".to_string(),
        }
    );
}

#[test]
fn a_typed_name_is_normalized() {
    assert_eq!(name_entered("demo-app\n"), candidate("demo-app", "demo-app"));
    assert_eq!(name_entered("  demo-app  \r\n"), candidate("demo-app", "demo-app"));
    assert_eq!(name_entered("Demo-App\n"), candidate("demo-app", "demo-app"));
    assert_eq!(name_entered("My Shop\n"), candidate("my shop", "my-shop"));
    assert_eq!(name_entered("shop_2\n"), candidate("shop_2", "shop-2"));
    assert_eq!(name_entered("-shop-\n"), candidate("-shop-", "shop"));
    assert!(matches!(name_entered("demo-app\n"), NameReply::Candidate { reformatted: false, .. }));
    assert!(matches!(name_entered("My Shop\n"), NameReply::Candidate { reformatted: true, .. }));
}

#[test]
fn an_empty_name_is_asked_again() {
    assert_eq!(name_entered(""), NameReply::Empty);
    assert_eq!(name_entered("\n"), NameReply::Empty);
    assert_eq!(name_entered("   \t\n"), NameReply::Empty);
}

#[test]
fn a_name_without_letters_or_digits_is_asked_again() {
    assert_eq!(name_entered("!!!\n"), NameReply::EmptyAfterFormat);
    assert_eq!(name_entered("---\n"), NameReply::EmptyAfterFormat);
    assert_eq!(name_entered("\u{442}\u{435}\u{441}\u{442}\n"), NameReply::EmptyAfterFormat);
}

#[test]
fn a_name_is_judged_from_what_was_typed_and_what_it_became() {
    assert_eq!(name_reply_for("", ""), NameReply::Empty);
    assert_eq!(name_reply_for("", "x"), NameReply::Empty);
    assert_eq!(name_reply_for("!!", ""), NameReply::EmptyAfterFormat);
    assert_eq!(name_reply_for("a b", "a-b"), candidate("a b", "a-b"));
    assert_eq!(name_reply_for("a-b", "a-b"), candidate("a-b", "a-b"));
}

#[test]
fn an_existing_directory_blocks_the_name() {
    assert_eq!(path_checked(true), AfterCheck::AskRetry);
    assert_eq!(path_checked(false), AfterCheck::AskVersion);
}

#[test]
fn another_name_is_tried_or_the_run_ends() {
    assert_eq!(retry_answered("\n"), Retry::AskName);
    assert_eq!(retry_answered("y\n"), Retry::AskName);
    assert_eq!(retry_answered(" Y \n"), Retry::AskName);
    assert_eq!(
        retry_answered("n\n"),
        Retry::Stop(AppError::Interrupted("O usuário optou por encerrar a aplicação.".to_string()))
    );
    assert_eq!(retry_answered("N\n"), retry_after(Choice::No));
    assert_eq!(retry_answered("?\n"), Retry::AskAgain);
    assert_eq!(retry_after(Choice::Yes), Retry::AskName);
    assert_eq!(retry_after(Choice::Unclear), Retry::AskAgain);
}

#[test]
fn an_empty_version_is_the_default() {
    assert_eq!(version_entered(""), defaulted());
    assert_eq!(version_entered("\n"), defaulted());
    assert_eq!(version_entered("  \t\n"), defaulted());
    assert_eq!(DEFAULT_LARAVEL_VERSION, 12);
}

#[test]
fn a_version_from_the_minimum_on_is_accepted() {
    assert_eq!(version_entered("10\n"), accepted("10"));
    assert_eq!(version_entered("11\n"), accepted("11"));
    assert_eq!(version_entered(" 12 \n"), accepted("12"));
    assert_eq!(version_entered("255\n"), accepted("255"));
    assert_eq!(MINIMAL_LARAVEL_VERSION, 10);
}

#[test]
fn an_accepted_version_is_written_plainly() {
    assert_eq!(version_entered("012\n"), accepted("12"));
    assert_eq!(version_entered("+13\n"), accepted("13"));
    assert_eq!(version_entered("0000011\n"), accepted("11"));
}

#[test]
fn an_old_version_is_refused() {
    assert_eq!(version_entered("9\n"), VersionReply::TooOld { number: 9 });
    assert_eq!(version_entered("0\n"), VersionReply::TooOld { number: 0 });
    assert_eq!(version_entered("09\n"), VersionReply::TooOld { number: 9 });
}

#[test]
fn what_is_no_small_number_is_invalid() {
    assert_eq!(version_entered("abc\n"), VersionReply::Invalid);
    assert_eq!(version_entered("256\n"), VersionReply::Invalid);
    assert_eq!(version_entered("11.2\n"), VersionReply::Invalid);
    assert_eq!(version_entered("-11\n"), VersionReply::Invalid);
    assert_eq!(version_entered("1 1\n"), VersionReply::Invalid);
    assert_eq!(version_entered("v11\n"), VersionReply::Invalid);
}

#[test]
fn a_version_without_space_around_it_is_judged_as_it_stands() {
    assert_eq!(version_for(""), defaulted());
    assert_eq!(version_for("11"), accepted("11"));
    assert_eq!(version_for(" 11"), VersionReply::Invalid);
    assert_eq!(version_for("3"), VersionReply::TooOld { number: 3 });
}
