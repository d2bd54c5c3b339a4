use laravel_maker::command::{Command, Report, Task};
use laravel_maker::container::{
    execute_command_in_container, in_container, project_shell, restart_apache_container,
    scaffold_project, start_environment, status_query,
};
use laravel_maker::error::AppError;
use laravel_maker::sequence::{first_step, next_step, Step};

fn strings(items: &[&str]) -> Vec<String> {
    items.iter().map(|s| s.to_string()).collect()
}

fn ok() -> Report {
    Report::Ran { success: true, status: "exit status: 0".to_string(), output: String::new() }
}

fn failed(status: &str) -> Report {
    Report::Ran { success: false, status: status.to_string(), output: String::new() }
}

fn not_launched(reason: &str) -> Report {
    Report::NotLaunched { reason: reason.to_string() }
}

fn task(name: &str, shows_status: bool) -> Task {
    Task {
        command: Command::new(name),
        launch_failure: format!("cannot start {}: ", name),
        failure: format!("{} failed. ", name),
        shows_status,
    }
}

#[test]
fn a_command_is_built_argument_by_argument() {
    let c = Command::new("docker");
    assert_eq!(c.program, "docker");
    assert!(c.args.is_empty());
    let c = c.arg("ps").arg("-q");
    assert_eq!(c.program, "docker");
    assert_eq!(c.args, strings(&["ps", "-q"]));
}

#[test]
fn the_runtime_commands_are_fixed() {
    assert_eq!(
        status_query("dev_container_php"),
        Command {
            program: "docker".to_string(),
            args: strings(&["ps", "-q", "-f", "name=dev_container_php"]),
        }
    );
    assert_eq!(
        start_environment(),
        Command { program: "docker".to_string(), args: strings(&["compose", "up", "-d"]) }
    );
    assert_eq!(
        in_container("c", &strings(&["ls", "-l"])),
        Command { program: "docker".to_string(), args: strings(&["exec", "-it", "c", "ls", "-l"]) }
    );
    assert_eq!(
        in_container("c", &Vec::new()),
        Command { program: "docker".to_string(), args: strings(&["exec", "-it", "c"]) }
    );
}

#[test]
fn a_script_runs_in_the_projects_directory() {
    assert_eq!(
        project_shell("demo-app", "npm install"),
        strings(&["sh", "-c", "cd /var/www/html/demo-app && npm install"])
    );
}

#[test]
fn a_command_in_a_container_names_it_in_its_failures() {
    let t = execute_command_in_container("box", &strings(&["true"]));
    assert_eq!(t.command.args, strings(&["exec", "-it", "box", "true"]));
    assert_eq!(t.judge(&ok()), Ok(()));
    assert_eq!(
        t.judge(&failed("exit status: 2")),
        Err(AppError::Docker(
            "Comando falho dentro do contêiner 'box'. Status: exit status: 2".to_string()
        ))
    );
    assert_eq!(
        t.judge(&not_launched("No such file or directory")),
        Err(AppError::Docker(
            "Falha ao executar comando no contênier 'box':No such file or directory".to_string()
        ))
    );
}

#[test]
fn scaffolding_creates_the_project_at_its_version() {
    let t = scaffold_project("dev_container_php", "demo-app", "12");
    assert_eq!(
        t.command,
        Command {
            program: "docker".to_string(),
            args: strings(&[
                "exec",
                "-it",
                "dev_container_php",
                "composer",
                "create-project",
                "laravel/laravel",
                "demo-app",
                "12"
            ]),
        }
    );
    assert_eq!(t.judge(&ok()), Ok(()));
    assert_eq!(
        t.judge(&failed("exit status: 1")),
        Err(AppError::Docker(
            "Composer falhou ao criar o projeto. Verifique logs do contêiner.".to_string()
        ))
    );
    assert_eq!(
        t.judge(&not_launched("gone")),
        Err(AppError::Docker("Falha ao executar 'docker exec composer': gone".to_string()))
    );
}

#[test]
fn the_proxy_is_restarted_once_and_left_to_settle() {
    let r = restart_apache_container();
    assert_eq!(
        r.task.command,
        Command { program: "docker".to_string(), args: strings(&["compose", "restart", "apache"]) }
    );
    assert_eq!(r.settle_secs, 1);
    assert_eq!(r.task.judge(&ok()), Ok(()));
    assert_eq!(
        r.task.judge(&failed("exit status: 1")),
        Err(AppError::Docker(
            "Falha ao reiniciar o contêiner Apache. Verifique se o serviço 'apache' está correto no docker-compose.yml. Status: exit status: 1"
                .to_string()
        ))
    );
    assert_eq!(
        r.task.judge(&not_launched("no docker")),
        Err(AppError::Docker("Falha ao executar 'docker compose restart': no docker".to_string()))
    );
}

#[test]
fn a_report_succeeds_only_where_the_program_ended_well() {
    assert!(ok().succeeded());
    assert!(!failed("x").succeeded());
    assert!(!not_launched("x").succeeded());
}

#[test]
fn a_judgement_shows_the_status_only_where_asked() {
    assert_eq!(
        task("a", true).judge(&failed("S")),
        Err(AppError::Docker("a failed. S".to_string()))
    );
    assert_eq!(
        task("a", false).judge(&failed("S")),
        Err(AppError::Docker("a failed. ".to_string()))
    );
    assert_eq!(
        task("a", false).judge(&not_launched("R")),
        Err(AppError::Docker("cannot start a: R".to_string()))
    );
}

#[test]
fn an_empty_run_is_over_at_once() {
    assert_eq!(first_step(&Vec::new()), Step::Done(Ok(())));
}

#[test]
fn tasks_run_one_after_the_other() {
    let tasks = vec![task("a", true), task("b", true), task("c", true)];
    assert_eq!(first_step(&tasks), Step::Run(0));
    assert_eq!(next_step(&tasks, 0, &ok()), Step::Run(1));
    assert_eq!(next_step(&tasks, 1, &ok()), Step::Run(2));
    assert_eq!(next_step(&tasks, 2, &ok()), Step::Done(Ok(())));
}

#[test]
fn the_first_failure_ends_a_run() {
    let tasks = vec![task("a", true), task("b", true), task("c", true)];
    assert_eq!(
        next_step(&tasks, 1, &failed("S")),
        Step::Done(Err(AppError::Docker("b failed. S".to_string())))
    );
    assert_eq!(
        next_step(&tasks, 0, &not_launched("R")),
        Step::Done(Err(AppError::Docker("cannot start a: R".to_string())))
    );
    assert_eq!(
        next_step(&tasks, 2, &failed("S")),
        Step::Done(Err(AppError::Docker("c failed. S".to_string())))
    );
}
