use vstd::prelude::*;

verus! {

/// The termination signals that the daemon handles, all alike.
#[derive(PartialEq, Eq, Structural, Clone, Copy, Debug)]
pub enum TerminationSignal {
    Hangup,
    Interrupt,
    Quit,
    Terminate,
}

/// The command to send on exit, captured once at start-up.
#[derive(Debug)]
pub struct ExitConfig {
    pub command: String,
}

/// The exit command that an optional setting gives: the setting, or the
/// empty command.
pub open spec fn exit_text(on_exit: Option<String>) -> Seq<char> {
    match on_exit {
        Some(s) => s@,
        None => Seq::empty(),
    }
}

/// What to do on a termination signal: send `command`, then exit with
/// `status`.
#[derive(Debug)]
pub struct ShutdownPlan {
    pub command: String,
    pub status: i32,
}

impl ExitConfig {
    /// Captures the exit command from its optional setting.
    pub fn new(on_exit: Option<String>) -> (r: ExitConfig)
        ensures
            r.command@ == exit_text(on_exit),
    {
        let command = match on_exit {
            Some(s) => s,
            None => String::new(),
        };
        ExitConfig { command }
    }

    /// Answers the first termination signal: exactly the exit command, then
    /// a successful exit. Every handled signal is answered alike.
    pub fn on_signal(&self, signal: TerminationSignal) -> (r: ShutdownPlan)
        ensures
            r.command@ == self.command@,
            r.status == 0,
    {
        ShutdownPlan { command: self.command.clone(), status: 0 }
    }
}

} // verus!
