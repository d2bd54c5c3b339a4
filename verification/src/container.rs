//! The commands given to the container runtime, and the words for their
//! failures.

use vstd::prelude::*;
use vstd::string::StringExecFns;
use crate::command::{texts, Command, CommandLine, Task, TaskLine};

verus! {

/// Lists the running containers whose name matches `container`, by their
/// identifiers alone.
pub open spec fn status_query_line(container: Seq<char>) -> CommandLine {
    CommandLine { program: "docker"@, args: seq!["ps"@, "-q"@, "-f"@, "name="@ + container] }
}

/// Starts every service of the environment in the background.
pub open spec fn start_environment_line() -> CommandLine {
    CommandLine { program: "docker"@, args: seq!["compose"@, "up"@, "-d"@] }
}

/// Restarts the reverse proxy.
pub open spec fn restart_proxy_line() -> CommandLine {
    CommandLine { program: "docker"@, args: seq!["compose"@, "restart"@, "apache"@] }
}

/// Runs `args` inside `container`, with a terminal.
pub open spec fn in_container_line(container: Seq<char>, args: Seq<Seq<char>>) -> CommandLine {
    CommandLine { program: "docker"@, args: seq!["exec"@, "-it"@, container] + args }
}

/// The arguments that create a project of some name and version.
pub open spec fn create_project_args(name: Seq<char>, version: Seq<char>) -> Seq<Seq<char>> {
    seq!["composer"@, "create-project"@, "laravel/laravel"@, name, version]
}

/// The arguments that run `script` by a shell in the directory of `project`.
pub open spec fn project_shell_args(project: Seq<char>, script: Seq<char>) -> Seq<Seq<char>> {
    seq!["sh"@, "-c"@, "cd /var/www/html/"@ + project + " && "@ + script]
}

/// The task that runs `args` inside `container`.
pub open spec fn in_container_task(container: Seq<char>, args: Seq<Seq<char>>) -> TaskLine {
    TaskLine {
        command: in_container_line(container, args),
        launch_failure: "Falha ao executar comando no contênier '"@ + container + "':"@,
        failure: "Comando falho dentro do contêiner '"@ + container + "'. Status: "@,
        shows_status: true,
    }
}

/// The task that creates the project inside `container`.
pub open spec fn scaffold_task(container: Seq<char>, name: Seq<char>, version: Seq<char>) -> TaskLine {
    TaskLine {
        command: in_container_line(container, create_project_args(name, version)),
        launch_failure: "Falha ao executar 'docker exec composer': "@,
        failure: "Composer falhou ao criar o projeto. Verifique logs do contêiner."@,
        shows_status: false,
    }
}

/// The task that restarts the reverse proxy.
pub open spec fn restart_task() -> TaskLine {
    TaskLine {
        command: restart_proxy_line(),
        launch_failure: "Falha ao executar 'docker compose restart': "@,
        failure: "Falha ao reiniciar o contêiner Apache. Verifique se o serviço 'apache' está correto no docker-compose.yml. Status: "@,
        shows_status: true,
    }
}

/// The command that asks whether `container` is running.
pub fn status_query(container: &str) -> (c: Command)
    ensures
        c@ == status_query_line(container@),
{
    let filter = String::from_str("name=").concat(container);
    let c = Command::new("docker").arg("ps").arg("-q").arg("-f").arg(filter.as_str());
    assert(c@.args =~= status_query_line(container@).args);
    c
}

/// The command that starts every service of the environment.
pub fn start_environment() -> (c: Command)
    ensures
        c@ == start_environment_line(),
{
    let c = Command::new("docker").arg("compose").arg("up").arg("-d");
    assert(c@.args =~= start_environment_line().args);
    c
}

/// The command that runs `args` inside `container`.
pub fn in_container(container: &str, args: &Vec<String>) -> (c: Command)
    ensures
        c@ == in_container_line(container@, texts(args@)),
{
    let mut c = Command::new("docker").arg("exec").arg("-it").arg(container);
    let ghost head = c@.args;
    let mut i: usize = 0;
    while i < args.len()
        invariant
            i <= args.len(),
            c@.program == "docker"@,
            head == seq!["exec"@, "-it"@, container@],
            c@.args == head + texts(args@).take(i as int),
        decreases args.len() - i,
    {
        c = c.arg(args[i].as_str());
        assert(texts(args@).take(i + 1) =~= texts(args@).take(i as int).push(args@[i as int]@));
        assert(head + texts(args@).take(i + 1) =~= (head + texts(args@).take(i as int)).push(
            args@[i as int]@,
        ));
        i += 1;
    }
    assert(texts(args@).take(args.len() as int) =~= texts(args@));
    c
}

/// The arguments that run `script` by a shell in the directory of `project`.
pub fn project_shell(project: &str, script: &str) -> (args: Vec<String>)
    ensures
        texts(args@) == project_shell_args(project@, script@),
{
    let mut args: Vec<String> = Vec::new();
    args.push(String::from_str("sh"));
    args.push(String::from_str("-c"));
    args.push(String::from_str("cd /var/www/html/").concat(project).concat(" && ").concat(script));
    assert(texts(args@) =~= project_shell_args(project@, script@));
    args
}

/// The task that runs `args` inside the container `container_name`. Its
/// failures name the container; the one for a bad end shows the status.
pub fn execute_command_in_container(container_name: &str, args: &Vec<String>) -> (task: Task)
    ensures
        task@ == in_container_task(container_name@, texts(args@)),
{
    Task {
        command: in_container(container_name, args),
        launch_failure: String::from_str("Falha ao executar comando no contênier '").concat(
            container_name,
        ).concat("':"),
        failure: String::from_str("Comando falho dentro do contêiner '").concat(
            container_name,
        ).concat("'. Status: "),
        shows_status: true,
    }
}

/// The task that creates the project `name` at `version` inside `container`.
pub fn scaffold_project(container: &str, name: &str, version: &str) -> (task: Task)
    ensures
        task@ == scaffold_task(container@, name@, version@),
{
    let mut args: Vec<String> = Vec::new();
    args.push(String::from_str("composer"));
    args.push(String::from_str("create-project"));
    args.push(String::from_str("laravel/laravel"));
    args.push(String::from_str(name));
    args.push(String::from_str(version));
    assert(texts(args@) =~= create_project_args(name@, version@));
    Task {
        command: in_container(container, &args),
        launch_failure: String::from_str("Falha ao executar 'docker exec composer': "),
        failure: String::from_str(
            "Composer falhou ao criar o projeto. Verifique logs do contêiner.",
        ),
        shows_status: false,
    }
}

/// The restart of the reverse proxy, and the pause that follows it.
#[derive(Debug, PartialEq, Eq)]
pub struct Restart {
    pub task: Task,
    /// Seconds to wait after a restart that ended well.
    pub settle_secs: u64,
}

/// The restart of the reverse proxy: one attempt, then one second for it to
/// settle. Nothing is asked of the proxy afterwards.
pub fn restart_apache_container() -> (restart: Restart)
    ensures
        restart.task@ == restart_task(),
        restart.settle_secs == 1,
{
    let command = Command::new("docker").arg("compose").arg("restart").arg("apache");
    assert(command@.args =~= restart_proxy_line().args);
    Restart {
        task: Task {
            command,
            launch_failure: String::from_str("Falha ao executar 'docker compose restart': "),
            failure: String::from_str(
                "Falha ao reiniciar o contêiner Apache. Verifique se o serviço 'apache' está correto no docker-compose.yml. Status: ",
            ),
            shows_status: true,
        },
        settle_secs: 1,
    }
}

} // verus!
