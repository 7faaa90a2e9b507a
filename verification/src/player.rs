//! The playback manager: which player process a connection holds, and the
//! command lines that start a player or interrupt the one held.

use vstd::prelude::*;
use crate::text::{texts, decimal, decimal_string};

verus! {

/// A command line for the caller to spawn: a program and its arguments.
#[derive(Debug, Clone, PartialEq, Eq)]
pub struct Command {
    pub program: String,
    pub args: Vec<String>,
}

/// What a `Command` says: the program's name and the arguments in order.
pub struct CommandLine {
    pub program: Seq<char>,
    pub args: Seq<Seq<char>>,
}

impl View for Command {
    type V = CommandLine;

    open spec fn view(&self) -> CommandLine {
        CommandLine { program: self.program@, args: texts(self.args@) }
    }
}

/// The command line that plays `url`: the player with its display, its
/// statistics and its log output switched off.
pub open spec fn play_line(url: Seq<char>) -> CommandLine {
    CommandLine {
        program: "ffplay"@,
        args: seq!["-nodisp"@, "-nostats"@, "-loglevel"@, "0"@, url],
    }
}

/// The command line that sends an interrupt signal to process `pid`.
pub open spec fn interrupt_line(pid: u32) -> CommandLine {
    CommandLine { program: "kill"@, args: seq!["-INT"@, decimal(pid as nat)] }
}

/// What playing a stream takes: first the command that interrupts the
/// process held, if one is held, then the command that starts the new player.
#[derive(Debug, Clone, PartialEq, Eq)]
pub struct Launch {
    pub interrupt: Option<Command>,
    pub spawn: Command,
}

/// The playback manager. It holds the identifier of the player process it
/// started, if any.
#[derive(Debug, Clone, PartialEq, Eq)]
pub struct Player {
    pub child_process_id: Option<u32>,
}

impl Player {
    /// A manager that holds no process.
    pub fn new() -> (p: Player)
        ensures
            p.child_process_id.is_none(),
    {
        Player { child_process_id: None }
    }

    /// What it takes to play `url`: the command that starts a player on it,
    /// and before that, where a process is held, the command that interrupts
    /// that process. The manager itself is unchanged until the caller reports
    /// the outcome of the spawn with `started`.
    pub fn play(&self, url: &str) -> (l: Launch)
        ensures
            l.spawn@ == play_line(url@),
            match self.child_process_id {
                Some(pid) => l.interrupt.is_some() && l.interrupt.unwrap()@ == interrupt_line(pid),
                None => l.interrupt.is_none(),
            },
    {
        let mut args: Vec<String> = Vec::new();
        args.push(String::from_str("-nodisp"));
        args.push(String::from_str("-nostats"));
        args.push(String::from_str("-loglevel"));
        args.push(String::from_str("0"));
        args.push(String::from_str(url));
        let spawn = Command { program: String::from_str("ffplay"), args };
        assert(spawn@.args =~= play_line(url@).args);
        Launch { interrupt: self.stop(), spawn }
    }

    /// The command that interrupts the process held, or `None` where none is
    /// held: stopping an idle manager asks for nothing. The handle stays; the
    /// caller clears it with `released` once the signal has gone out.
    pub fn stop(&self) -> (c: Option<Command>)
        ensures
            match self.child_process_id {
                Some(pid) => c.is_some() && c.unwrap()@ == interrupt_line(pid),
                None => c.is_none(),
            },
    {
        match self.child_process_id {
            Some(pid) => {
                let mut args: Vec<String> = Vec::new();
                args.push(String::from_str("-INT"));
                args.push(decimal_string(pid));
                let c = Command { program: String::from_str("kill"), args };
                assert(c@.args =~= interrupt_line(pid).args);
                Some(c)
            },
            None => None,
        }
    }

    /// Records the outcome of a spawn: the new process is held on success, and
    /// nothing is held after a failure.
    pub fn started(&mut self, pid: Option<u32>)
        ensures
            final(self).child_process_id == pid,
    {
        self.child_process_id = pid;
    }

    /// Forgets the process held.
    pub fn released(&mut self)
        ensures
            final(self).child_process_id.is_none(),
    {
        self.child_process_id = None;
    }
}

} // verus!
