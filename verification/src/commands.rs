use vstd::prelude::*;

verus! {

/// One keyboard command of an interactive participant.
#[derive(PartialEq, Eq, Structural, Clone, Copy, Debug)]
pub enum Command {
    /// Compose a message and send it over the stream transport.
    SendStream,
    /// Compose a message and send it over the datagram transport.
    SendDatagram,
    /// Display the key help.
    ShowHelp,
    /// Send the disconnect sentinel on both transports and leave.
    Quit,
    /// Any other key: do nothing.
    Ignore,
}

/// Which command one pressed key stands for.
pub open spec fn command_of(c: char) -> Command {
    if c == 't' {
        Command::SendStream
    } else if c == 'u' {
        Command::SendDatagram
    } else if c == 'h' {
        Command::ShowHelp
    } else if c == 'q' {
        Command::Quit
    } else {
        Command::Ignore
    }
}

/// Maps one pressed key to its command.
pub fn parse_command(c: char) -> (r: Command)
    ensures
        r == command_of(c),
{
    match c {
        't' => Command::SendStream,
        'u' => Command::SendDatagram,
        'h' => Command::ShowHelp,
        'q' => Command::Quit,
        _ => Command::Ignore,
    }
}

} // verus!
