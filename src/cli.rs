use vstd::prelude::*;

verus! {

/// What a caller asks for: on the command line it picks the program's mode,
/// on the socket it is the request.
#[derive(Debug, Clone, Copy, PartialEq, Eq, Structural)]
pub enum Command {
    /// Report the current temperature and fan state.
    Status,
    /// Run the control loop; received on the socket it does nothing.
    Daemon,
}

/// The parsed command line.
#[derive(Debug, Clone, Copy, PartialEq, Eq, Structural)]
pub struct Cli {
    pub cmd: Command,
}

impl Command {
    /// The tag that names the command on the wire.
    pub open spec fn tag(self) -> Seq<char> {
        match self {
            Command::Status => "Status"@,
            Command::Daemon => "Daemon"@,
        }
    }

    pub fn wire_name(&self) -> (r: &'static str)
        ensures
            r@ == self.tag(),
    {
        match self {
            Command::Status => "Status",
            Command::Daemon => "Daemon",
        }
    }
}

/// The command that a tag names, if any.
pub open spec fn command_named(t: Seq<char>) -> Option<Command> {
    if t == "Status"@ {
        Some(Command::Status)
    } else if t == "Daemon"@ {
        Some(Command::Daemon)
    } else {
        None
    }
}

/// Reads a tag: exactly `Status` or `Daemon`, case and all.
pub fn command_from_name(name: &String) -> (r: Option<Command>)
    ensures
        r == command_named(name@),
{
    let status = String::from_str("Status");
    let daemon = String::from_str("Daemon");
    if *name == status {
        Some(Command::Status)
    } else if *name == daemon {
        Some(Command::Daemon)
    } else {
        None
    }
}

/// The two tags differ, so each command reads back as itself.
pub proof fn tag_names_command(c: Command)
    ensures
        command_named(c.tag()) == Some(c),
{
    reveal_strlit("Status");
    reveal_strlit("Daemon");
    assert("Status"@[0] != "Daemon"@[0]);
}

} // verus!
