//! What goes to and comes back from an external program that is run once,
//! to its end.

use vstd::prelude::*;

verus! {

/// A program to run, with its arguments in order.
#[derive(Debug)]
pub struct Invocation {
    pub program: String,
    pub args: Vec<String>,
}

/// What a program that ran to its end left behind.
#[derive(Debug)]
pub struct CommandOutput {
    pub stdout: String,
    pub stderr: String,
    pub success: bool,
}

/// The program could not be started at all.
#[derive(Clone, Copy, Debug, PartialEq, Eq, Structural)]
pub struct LaunchFailure;

/// The text of each argument, in order.
pub open spec fn texts(args: Seq<String>) -> Seq<Seq<char>> {
    Seq::new(args.len(), |i: int| args[i]@)
}

impl Invocation {
    /// The program's name.
    pub open spec fn program_text(self) -> Seq<char> {
        self.program@
    }

    /// The arguments' texts, in order.
    pub open spec fn arg_texts(self) -> Seq<Seq<char>> {
        texts(self.args@)
    }

    /// The invocation of `program` with two arguments.
    pub fn with_two_args(program: &str, first: &str, second: &str) -> (inv: Invocation)
        ensures
            inv.program_text() == program@,
            inv.arg_texts() == seq![first@, second@],
    {
        let mut args: Vec<String> = Vec::new();
        args.push(String::from_str(first));
        args.push(String::from_str(second));
        let inv = Invocation { program: String::from_str(program), args };
        assert(inv.arg_texts() =~= seq![first@, second@]);
        inv
    }

    /// The invocation of `program` with a single argument.
    pub fn with_one_arg(program: &str, only: &str) -> (inv: Invocation)
        ensures
            inv.program_text() == program@,
            inv.arg_texts() == seq![only@],
    {
        let mut args: Vec<String> = Vec::new();
        args.push(String::from_str(only));
        let inv = Invocation { program: String::from_str(program), args };
        assert(inv.arg_texts() =~= seq![only@]);
        inv
    }
}

} // verus!
