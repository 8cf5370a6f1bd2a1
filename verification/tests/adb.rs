use dcamctl::adb::AdbError;
use dcamctl::command::{CommandOutcome, ExternalCommand};
use dcamctl::AdbServer;

fn command(program: &str, args: &[&str]) -> ExternalCommand {
    ExternalCommand {
        program: program.to_string(),
        args: args.iter().map(|a| a.to_string()).collect(),
    }
}

fn done(output: &str) -> CommandOutcome {
    CommandOutcome::Succeeded { output: output.to_string() }
}

#[test]
fn bridge_commands() {
    assert_eq!(AdbServer::init_command(), command("adb", &["start-server"]));
    assert_eq!(
        AdbServer::connect_command(8080),
        command("adb", &["forward", "tcp:8080", "tcp:8080"])
    );
    assert_eq!(
        AdbServer::connect_command(0),
        command("adb", &["forward", "tcp:0", "tcp:0"])
    );
    assert_eq!(
        AdbServer { port: 65535 }.disconnect_command(),
        command("adb", &["forward", "--remove", "tcp:65535"])
    );
}

#[test]
fn server_start_is_told_from_the_outcome() {
    assert_eq!(AdbServer::init(&done("")), Ok(()));
    assert_eq!(AdbServer::init(&CommandOutcome::Failed), Err(AdbError::StartServer));
    assert_eq!(AdbServer::init(&CommandOutcome::NotStarted), Err(AdbError::StartServer));
}

#[test]
fn forwarding_is_held_only_when_it_succeeded() {
    assert_eq!(AdbServer::connect(4747, &done("4747\n")), Ok(AdbServer { port: 4747 }));
    assert_eq!(AdbServer::connect(4747, &CommandOutcome::Failed), Err(AdbError::Forward));
    assert_eq!(AdbServer::connect(4747, &CommandOutcome::NotStarted), Err(AdbError::Forward));
}

#[test]
fn commands_are_built_argument_by_argument() {
    let mut built = ExternalCommand::new("pactl");
    assert_eq!(built, command("pactl", &[]));
    built.arg("info");
    built.arg("");
    assert_eq!(built, command("pactl", &["info", ""]));
    assert!(done("x").succeeded());
    assert!(!CommandOutcome::Failed.succeeded());
    assert!(!CommandOutcome::NotStarted.succeeded());
}
