//! A build-tool invocation as plain data, and the mapping from how the
//! child process ended to this tool's own exit code.
use vstd::prelude::*;
use vstd::string::*;

verus! {

/// A subcommand of the build tool with its arguments, in order.
pub struct CargoCommand {
    pub command: String,
    pub args: Vec<String>,
}

/// What a `CargoCommand` stands for: the subcommand and its arguments.
pub struct CommandView {
    pub command: Seq<char>,
    pub args: Seq<Seq<char>>,
}

impl View for CargoCommand {
    type V = CommandView;

    open spec fn view(&self) -> CommandView {
        CommandView { command: self.command@, args: self.args@.map_values(|a: String| a@) }
    }
}

impl CargoCommand {
    /// The subcommand `command` with no arguments yet.
    pub fn new(command: &str) -> (r: CargoCommand)
        ensures
            r@.command == command@,
            r@.args == Seq::<Seq<char>>::empty(),
    {
        let v: Vec<String> = Vec::new();
        let r = CargoCommand { command: String::from_str(command), args: v };
        proof {
            assert(r@.args =~= Seq::<Seq<char>>::empty());
        }
        r
    }

    /// Appends one argument; the subcommand and earlier arguments stay.
    pub fn add_arg(&mut self, arg: &str)
        ensures
            final(self)@.command == old(self)@.command,
            final(self)@.args == old(self)@.args.push(arg@),
    {
        self.args.push(String::from_str(arg));
        proof {
            assert(self@.args =~= old(self)@.args.push(arg@));
        }
    }
}

/// How a child process ended.
pub enum ProcessStatus {
    /// It exited with this code.
    Exited(u32),
    /// It was killed by a signal, or its status cannot be told.
    Abnormal,
}

/// The exit code reported for an external command: a clean exit passes its
/// code on (taken as a 32-bit signed value), anything else is 100.
pub open spec fn status_code(s: ProcessStatus) -> int {
    match s {
        ProcessStatus::Exited(n) => if n <= i32::MAX {
            n as int
        } else {
            n - 0x1_0000_0000
        },
        ProcessStatus::Abnormal => 100,
    }
}

/// Maps how a child process ended to an exit code (see `status_code`).
pub fn exit_code(s: &ProcessStatus) -> (r: i32)
    ensures
        r as int == status_code(*s),
{
    match s {
        ProcessStatus::Exited(n) => {
            let n: u32 = *n;
            if n <= 0x7fff_ffff {
                n as i32
            } else {
                let low: u32 = n - 0x8000_0000;
                (low as i32) - 0x7fff_ffff - 1
            }
        },
        ProcessStatus::Abnormal => 100,
    }
}

} // verus!
