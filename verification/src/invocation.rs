//! A command line: a program, the arguments it is started with, and what
//! becomes of its three standard streams.

use vstd::prelude::*;

verus! {

/// What a child process gets for one of its standard streams.
#[derive(Clone, Copy, PartialEq, Eq, Structural, Debug)]
pub enum StreamMode {
    /// Nothing: as input it is closed at once, as output it is discarded.
    Null,
    /// A pipe whose other end the parent holds.
    Piped,
}

/// A program, its arguments in the order in which they are passed, and the
/// wiring of its standard streams.
#[derive(PartialEq, Eq, Debug)]
pub struct Invocation {
    pub program: String,
    pub args: Vec<String>,
    pub stdin: StreamMode,
    pub stdout: StreamMode,
    pub stderr: StreamMode,
}

/// The mathematical value of an [`Invocation`].
pub struct InvocationView {
    pub program: Seq<char>,
    pub args: Seq<Seq<char>>,
    pub stdin: StreamMode,
    pub stdout: StreamMode,
    pub stderr: StreamMode,
}

impl View for Invocation {
    type V = InvocationView;

    open spec fn view(&self) -> InvocationView {
        InvocationView {
            program: self.program@,
            args: self.args.deep_view(),
            stdin: self.stdin,
            stdout: self.stdout,
            stderr: self.stderr,
        }
    }
}

impl InvocationView {
    /// A helper that is run to its end with its output collected: no input,
    /// both outputs piped.
    pub open spec fn collected(program: Seq<char>, args: Seq<Seq<char>>) -> InvocationView {
        InvocationView {
            program,
            args,
            stdin: StreamMode::Null,
            stdout: StreamMode::Piped,
            stderr: StreamMode::Piped,
        }
    }

    /// The agent as a tunnel runs it: no input, standard output discarded,
    /// and the diagnostics on standard error piped to the parent.
    pub open spec fn supervised(program: Seq<char>, args: Seq<Seq<char>>) -> InvocationView {
        InvocationView {
            program,
            args,
            stdin: StreamMode::Null,
            stdout: StreamMode::Null,
            stderr: StreamMode::Piped,
        }
    }
}

impl Invocation {
    /// A helper that is run to its end with its output collected.
    pub fn collected(program: String, args: Vec<String>) -> (command: Invocation)
        ensures
            command@ == InvocationView::collected(program@, args.deep_view()),
    {
        Invocation {
            program,
            args,
            stdin: StreamMode::Null,
            stdout: StreamMode::Piped,
            stderr: StreamMode::Piped,
        }
    }

    /// The agent as a tunnel runs it.
    pub fn supervised(program: String, args: Vec<String>) -> (command: Invocation)
        ensures
            command@ == InvocationView::supervised(program@, args.deep_view()),
    {
        Invocation {
            program,
            args,
            stdin: StreamMode::Null,
            stdout: StreamMode::Null,
            stderr: StreamMode::Piped,
        }
    }
}

} // verus!
