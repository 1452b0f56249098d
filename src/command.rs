//! A remote command line being put together, and where its standard
//! streams go.
use vstd::prelude::*;

verus! {

/// Where one of a remote process's standard streams is connected.
#[derive(Debug, Clone, Copy, PartialEq, Eq)]
pub enum Stdio {
    /// Connected to nothing.
    Null,
    /// Connected to a pipe that the caller reads or writes.
    Piped,
    /// Connected to the local process's own stream.
    Inherit,
}

/// A command to run on the remote host through a control socket.
#[derive(Debug)]
pub struct Command {
    pub cmd: String,
    pub ctl: String,
    pub stdin_v: Stdio,
    pub stdout_v: Stdio,
    pub stderr_v: Stdio,
}

impl Command {
    /// A command line `cmd` to run through the control socket at `ctl`,
    /// with all three standard streams connected to nothing.
    pub fn new(ctl: String, cmd: String) -> (r: Self)
        ensures
            r.cmd == cmd,
            r.ctl == ctl,
            r.stdin_v == Stdio::Null,
            r.stdout_v == Stdio::Null,
            r.stderr_v == Stdio::Null,
    {
        Command { cmd, ctl, stdin_v: Stdio::Null, stdout_v: Stdio::Null, stderr_v: Stdio::Null }
    }

    /// Adds an argument in single quotes, so that the remote shell keeps it
    /// as one word. The argument is not escaped: it must hold no `'`.
    pub fn arg(&mut self, arg: &str) -> (r: &mut Self)
        ensures
            r.cmd@ == old(self).cmd@ + " '"@ + arg@ + "'"@,
            *r == (Command { cmd: r.cmd, ..*old(self) }),
            *final(self) == *final(r),
    {
        self.cmd.append(" '");
        self.cmd.append(arg);
        self.cmd.append("'");
        self
    }

    /// Adds an argument as it stands, after a space: the remote shell reads
    /// it as it would read it in a command line.
    pub fn raw_arg(&mut self, arg: &str) -> (r: &mut Self)
        ensures
            r.cmd@ == old(self).cmd@ + " "@ + arg@,
            *r == (Command { cmd: r.cmd, ..*old(self) }),
            *final(self) == *final(r),
    {
        self.cmd.append(" ");
        self.cmd.append(arg);
        self
    }

    /// Where the remote process's standard input comes from.
    pub fn stdin(&mut self, cfg: Stdio) -> (r: &mut Self)
        ensures
            *r == (Command { stdin_v: cfg, ..*old(self) }),
            *final(self) == *final(r),
    {
        self.stdin_v = cfg;
        self
    }

    /// Where the remote process's standard output goes.
    pub fn stdout(&mut self, cfg: Stdio) -> (r: &mut Self)
        ensures
            *r == (Command { stdout_v: cfg, ..*old(self) }),
            *final(self) == *final(r),
    {
        self.stdout_v = cfg;
        self
    }

    /// Where the remote process's standard error goes.
    pub fn stderr(&mut self, cfg: Stdio) -> (r: &mut Self)
        ensures
            *r == (Command { stderr_v: cfg, ..*old(self) }),
            *final(self) == *final(r),
    {
        self.stderr_v = cfg;
        self
    }
}

} // verus!
