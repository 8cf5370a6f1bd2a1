//! The forwarded port between the device and this machine, set up and
//! removed through the device bridge.

use crate::command::{CommandOutcome, CommandView, ExternalCommand};
use crate::text::{decimal, push_decimal};
use vstd::prelude::*;
use vstd::string::*;

verus! {

/// A port that is forwarded for the session. A value exists only while the
/// forwarding is in place.
#[derive(Debug, PartialEq, Eq)]
pub struct AdbServer {
    pub port: u16,
}

/// Why the device bridge could not be used.
#[derive(Clone, Copy, Debug, PartialEq, Eq, Structural)]
pub enum AdbError {
    /// The bridge's server could not be started.
    StartServer,
    /// The port could not be forwarded.
    Forward,
}

/// How the bridge names a port.
pub open spec fn port_name(port: u16) -> Seq<char> {
    "tcp:"@ + decimal(port as nat)
}

/// A call of the device bridge.
pub open spec fn adb(args: Seq<Seq<char>>) -> CommandView {
    CommandView { program: "adb"@, args }
}

/// The command that starts the bridge's server.
pub open spec fn start_server_command() -> CommandView {
    adb(seq!["start-server"@])
}

/// The command that forwards `port` of the device to the same port here.
pub open spec fn forward_command(port: u16) -> CommandView {
    adb(seq!["forward"@, port_name(port), port_name(port)])
}

/// The command that removes the forwarding of `port`.
pub open spec fn remove_command(port: u16) -> CommandView {
    adb(seq!["forward"@, "--remove"@, port_name(port)])
}

/// How the bridge names a port.
fn port_text(port: u16) -> (name: String)
    ensures
        name@ == port_name(port),
{
    let mut name = String::from_str("tcp:");
    push_decimal(&mut name, port as u64);
    name
}

impl AdbServer {
    /// The command that starts the bridge's server.
    pub fn init_command() -> (command: ExternalCommand)
        ensures
            command@ == start_server_command(),
    {
        let mut command = ExternalCommand::new("adb");
        command.arg("start-server");
        assert(command@.args =~= start_server_command().args);
        command
    }

    /// Tells from the outcome of `init_command` whether the bridge's server
    /// runs.
    pub fn init(outcome: &CommandOutcome) -> (started: Result<(), AdbError>)
        ensures
            outcome@ is Succeeded ==> started is Ok,
            !(outcome@ is Succeeded) ==> started == Err::<(), AdbError>(AdbError::StartServer),
    {
        if outcome.succeeded() {
            Ok(())
        } else {
            Err(AdbError::StartServer)
        }
    }

    /// The command that forwards `port`.
    pub fn connect_command(port: u16) -> (command: ExternalCommand)
        ensures
            command@ == forward_command(port),
    {
        let name = port_text(port);
        let mut command = ExternalCommand::new("adb");
        command.arg("forward");
        command.arg(name.as_str());
        command.arg(name.as_str());
        assert(command@.args =~= forward_command(port).args);
        command
    }

    /// Takes hold of the forwarded port, given how `connect_command` ended.
    /// Where it failed nothing is held, so nothing will be removed.
    pub fn connect(port: u16, outcome: &CommandOutcome) -> (held: Result<AdbServer, AdbError>)
        ensures
            outcome@ is Succeeded ==> held == Ok::<AdbServer, AdbError>(AdbServer { port }),
            !(outcome@ is Succeeded) ==> held == Err::<AdbServer, AdbError>(AdbError::Forward),
    {
        if outcome.succeeded() {
            Ok(AdbServer { port })
        } else {
            Err(AdbError::Forward)
        }
    }

    /// The command that removes the forwarding again.
    pub fn disconnect_command(&self) -> (command: ExternalCommand)
        ensures
            command@ == remove_command(self.port),
    {
        let name = port_text(self.port);
        let mut command = ExternalCommand::new("adb");
        command.arg("forward");
        command.arg("--remove");
        command.arg(name.as_str());
        assert(command@.args =~= remove_command(self.port).args);
        command
    }
}

} // verus!
