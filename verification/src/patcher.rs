//! Patching of generated configuration files by a line editor inside a
//! container, and the whole plan that configures a fresh project.
//!
//! Rules are applied strictly in their order. A rule that fails ends the
//! plan: the rules before it stay applied, the ones after it are never
//! tried.

use vstd::prelude::*;
use vstd::string::StringExecFns;
use crate::command::{texts, Outcome, Task, TaskLine};
use crate::config::{AppConfig, Settings};
use crate::container::{
    execute_command_in_container, in_container, in_container_line, in_container_task,
    project_shell, project_shell_args,
};
use crate::error::Failure;
use crate::input::{ProjectInput, ProjectRequest};
use crate::number::{decimal_of, decimal_text};
use crate::sequence::{after_reports, lemma_first_failure_ends_run, task_lines, Position};

verus! {

/// The editor's invocation for one rule on one file; `quote` stands on both
/// sides of the rule.
pub open spec fn editor_script(file: Seq<char>, rule: Seq<char>, quote: Seq<char>) -> Seq<char> {
    "sed -i "@ + quote + rule + quote + " "@ + file
}

/// The error for a rule that did not apply: it names the file and the rule,
/// and the status follows.
pub open spec fn rule_failure(file: Seq<char>, rule: Seq<char>) -> Seq<char> {
    "Falha ao atualizar o "@ + file + " com: '"@ + rule + "'. Status: "@
}

/// The task that applies `rule` to `file` in the directory of `project`
/// inside `container`.
pub open spec fn patch_line(
    container: Seq<char>,
    project: Seq<char>,
    file: Seq<char>,
    rule: Seq<char>,
    quote: Seq<char>,
) -> TaskLine {
    TaskLine {
        command: in_container_line(
            container,
            project_shell_args(project, editor_script(file, rule, quote)),
        ),
        launch_failure: "Falha ao executar sed para "@ + file + ": "@,
        failure: rule_failure(file, rule),
        shows_status: true,
    }
}

/// One task for each rule, in the order of the rules, each rule between
/// single quotes.
pub open spec fn patch_lines(
    container: Seq<char>,
    project: Seq<char>,
    file: Seq<char>,
    rules: Seq<Seq<char>>,
) -> Seq<TaskLine> {
    Seq::new(rules.len(), |i: int| patch_line(container, project, file, rules[i], "'"@))
}

/// The seven rules for a fresh project's environment file, in the order in
/// which they must run: the base address, the database driver, then port,
/// name, host, user and password of the database.
pub open spec fn env_rules(project: ProjectRequest, settings: Settings) -> Seq<Seq<char>> {
    seq![
        "s/APP_URL=http:\\/\\/localhost/APP_URL=http:\\/\\/"@ + project.host + "/"@,
        "s/DB_CONNECTION=sqlite/DB_CONNECTION=mariadb/"@,
        "s/# DB_PORT=3306/DB_PORT="@ + decimal_of(settings.db_port as nat) + "/"@,
        "s/# DB_DATABASE=laravel/DB_DATABASE="@ + project.name + "/"@,
        "s/# DB_HOST=127.0.0.1/DB_HOST=mariadb/"@,
        "s/# DB_USERNAME=root/DB_USERNAME=root/"@,
        "s/# DB_PASSWORD=/DB_PASSWORD="@ + settings.db_root_password + "/"@,
    ]
}

/// The rule that makes the asset-build tool listen on every interface.
pub open spec fn assets_rule() -> Seq<char> {
    "s|});$|\\tserver: {\\n\\t\\thost: '0.0.0.0'\\n\\t}\\n});|"@
}

/// What is run once the environment file is patched: the cached
/// configuration is cleared and the database migrated, then the
/// dependencies are installed in the runtime container and in the
/// asset-build container, then the asset-build tool's configuration is
/// patched.
pub open spec fn setup_lines(project: ProjectRequest, settings: Settings) -> Seq<TaskLine> {
    seq![
        in_container_task(
            settings.php_container_name,
            project_shell_args(project.name, "php artisan config:clear"@),
        ),
        in_container_task(
            settings.php_container_name,
            project_shell_args(project.name, "php artisan migrate --force"@),
        ),
        in_container_task(
            settings.php_container_name,
            project_shell_args(project.name, "composer update"@),
        ),
        in_container_task(
            settings.node_container_name,
            project_shell_args(project.name, "npm install"@),
        ),
        patch_line(
            settings.php_container_name,
            project.name,
            "vite.config.js"@,
            assets_rule(),
            "\""@,
        ),
    ]
}

/// The task that applies `rule` to `file` in the directory of `project`
/// inside `container`. `quote` is put on both sides of the rule.
pub fn patch_task(container: &str, project: &str, file: &str, rule: &str, quote: &str) -> (task:
    Task)
    ensures
        task@ == patch_line(container@, project@, file@, rule@, quote@),
{
    let script = String::from_str("sed -i ").concat(quote).concat(rule).concat(quote).concat(
        " ",
    ).concat(file);
    let args = project_shell(project, script.as_str());
    Task {
        command: in_container(container, &args),
        launch_failure: String::from_str("Falha ao executar sed para ").concat(file).concat(": "),
        failure: String::from_str("Falha ao atualizar o ").concat(file).concat(" com: '").concat(
            rule,
        ).concat("'. Status: "),
        shows_status: true,
    }
}

/// One task for each rule on `file`, in the order of the rules.
pub fn apply_rules(container: &str, project: &str, file: &str, rules: &Vec<String>) -> (tasks: Vec<
    Task,
>)
    ensures
        task_lines(tasks@) == patch_lines(container@, project@, file@, texts(rules@)),
{
    let mut tasks: Vec<Task> = Vec::new();
    let mut i: usize = 0;
    while i < rules.len()
        invariant
            i <= rules.len(),
            tasks.len() == i,
            forall|k: int|
                0 <= k < i ==> (#[trigger] tasks@[k])@ == patch_line(
                    container@,
                    project@,
                    file@,
                    rules@[k]@,
                    "'"@,
                ),
        decreases rules.len() - i,
    {
        tasks.push(patch_task(container, project, file, rules[i].as_str(), "'"));
        i += 1;
    }
    assert(task_lines(tasks@) =~= patch_lines(container@, project@, file@, texts(rules@)));
    tasks
}

/// The seven rules for a fresh project's environment file, in order.
pub fn env_substitution_rules(input: &ProjectInput, config: &AppConfig) -> (rules: Vec<String>)
    ensures
        texts(rules@) == env_rules(input@, config@),
{
    let mut rules: Vec<String> = Vec::new();
    rules.push(
        String::from_str("s/APP_URL=http:\\/\\/localhost/APP_URL=http:\\/\\/").concat(
            input.project_host.as_str(),
        ).concat("/"),
    );
    rules.push(String::from_str("s/DB_CONNECTION=sqlite/DB_CONNECTION=mariadb/"));
    rules.push(
        String::from_str("s/# DB_PORT=3306/DB_PORT=").concat(
            decimal_text(config.db_port as u64).as_str(),
        ).concat("/"),
    );
    rules.push(
        String::from_str("s/# DB_DATABASE=laravel/DB_DATABASE=").concat(
            input.project_name.as_str(),
        ).concat("/"),
    );
    rules.push(String::from_str("s/# DB_HOST=127.0.0.1/DB_HOST=mariadb/"));
    rules.push(String::from_str("s/# DB_USERNAME=root/DB_USERNAME=root/"));
    rules.push(
        String::from_str("s/# DB_PASSWORD=/DB_PASSWORD=").concat(
            config.db_root_password.as_str(),
        ).concat("/"),
    );
    assert(texts(rules@) =~= env_rules(input@, config@));
    rules
}

/// The tasks that patch a fresh project's environment file: one for each
/// of the seven rules, in their order.
pub fn patch_environment(input: &ProjectInput, config: &AppConfig) -> (tasks: Vec<Task>)
    ensures
        task_lines(tasks@) == patch_lines(
            config@.php_container_name,
            input@.name,
            ".env"@,
            env_rules(input@, config@),
        ),
{
    let rules = env_substitution_rules(input, config);
    apply_rules(
        config.php_container_name.as_str(),
        input.project_name.as_str(),
        ".env",
        &rules,
    )
}

/// The tasks that set a patched project up, in order: clear the cached
/// configuration, migrate the database, install the dependencies in the
/// runtime container and in the asset-build container, patch the
/// asset-build tool's configuration.
pub fn set_up_project(input: &ProjectInput, config: &AppConfig) -> (tasks: Vec<Task>)
    ensures
        task_lines(tasks@) == setup_lines(input@, config@),
{
    let php = config.php_container_name.as_str();
    let node = config.node_container_name.as_str();
    let name = input.project_name.as_str();
    let mut tasks: Vec<Task> = Vec::new();
    tasks.push(execute_command_in_container(php, &project_shell(name, "php artisan config:clear")));
    tasks.push(
        execute_command_in_container(php, &project_shell(name, "php artisan migrate --force")),
    );
    tasks.push(execute_command_in_container(php, &project_shell(name, "composer update")));
    tasks.push(execute_command_in_container(node, &project_shell(name, "npm install")));
    tasks.push(
        patch_task(
            php,
            name,
            "vite.config.js",
            "s|});$|\\tserver: {\\n\\t\\thost: '0.0.0.0'\\n\\t}\\n});|",
            "\"",
        ),
    );
    assert(task_lines(tasks@) =~= setup_lines(input@, config@));
    tasks
}

/// Everything that configures a fresh project, in the two parts in which it
/// is run: first the patch of the environment file, then the setup. Within
/// each part the tasks run in order, and the first that fails ends the
/// whole with its error.
#[derive(Debug, PartialEq, Eq)]
pub struct Configuration {
    pub patch: Vec<Task>,
    pub setup: Vec<Task>,
}

/// The plan that configures a fresh project: the seven rules on the
/// environment file, then the five tasks of the setup.
pub fn configure_and_initialize_laravel(input: &ProjectInput, config: &AppConfig) -> (plan:
    Configuration)
    ensures
        task_lines(plan.patch@) == patch_lines(
            config@.php_container_name,
            input@.name,
            ".env"@,
            env_rules(input@, config@),
        ),
        task_lines(plan.setup@) == setup_lines(input@, config@),
{
    Configuration { patch: patch_environment(input, config), setup: set_up_project(input, config) }
}

/// Where a rule fails after every rule before it applied, the run ends
/// there: its error is a container failure that names the file and the
/// failing rule and shows the status, and no later rule is tried.
pub proof fn lemma_failed_rule_is_named(
    container: Seq<char>,
    project: Seq<char>,
    file: Seq<char>,
    rules: Seq<Seq<char>>,
    outcomes: Seq<Outcome>,
    k: int,
    n: int,
)
    requires
        0 <= k < rules.len(),
        k < n <= outcomes.len(),
        forall|j: int| 0 <= j < k ==> (#[trigger] outcomes[j]).succeeded(),
        outcomes[k] matches Outcome::Ran { success, .. } && !success,
    ensures
        after_reports(patch_lines(container, project, file, rules), outcomes.take(n))
            == Position::Done(
            Err(Failure::Docker(rule_failure(file, rules[k]) + outcomes[k]->status)),
        ),
{
    lemma_first_failure_ends_run(patch_lines(container, project, file, rules), outcomes, k, n);
}

} // verus!
