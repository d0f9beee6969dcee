//! Levels of a digital output and the command line that writes one.

use vstd::prelude::*;
use vstd::string::*;

verus! {

/// Level of a digital output.
#[derive(Clone, Copy, Debug, PartialEq, Eq, Structural)]
pub enum SIGNAL {
    ZERO,
    ONE,
}

impl SIGNAL {
    /// The text written toward an output for this level.
    pub open spec fn text(self) -> Seq<char> {
        match self {
            SIGNAL::ZERO => "0"@,
            SIGNAL::ONE => "1"@,
        }
    }

    /// `"0"` for `ZERO`, `"1"` for `ONE`.
    pub fn to_string(&self) -> (s: String)
        ensures
            s@ == self.text(),
    {
        match self {
            SIGNAL::ZERO => String::from_str("0"),
            SIGNAL::ONE => String::from_str("1"),
        }
    }
}

/// A program name with its arguments, ready to be spawned.
#[derive(Clone, Debug, PartialEq, Eq)]
pub struct CommandLine {
    pub program: String,
    pub args: Vec<String>,
}

/// Mathematical content of a [`CommandLine`].
pub struct CommandLineView {
    pub program: Seq<char>,
    pub args: Seq<Seq<char>>,
}

impl View for CommandLine {
    type V = CommandLineView;

    open spec fn view(&self) -> CommandLineView {
        CommandLineView { program: self.program@, args: self.args@.map_values(|a: String| a@) }
    }
}

/// The command line that writes `level` toward the output `led`:
/// `echo <level> > <led>`, each word an argument of its own.
pub open spec fn signal_command_spec(led: Seq<char>, level: SIGNAL) -> CommandLineView {
    CommandLineView { program: "echo"@, args: seq![level.text(), ">"@, led] }
}

/// Builds the command line that writes `value` toward the output `led`.
pub fn signal_command(led: &str, value: SIGNAL) -> (cmd: CommandLine)
    ensures
        cmd@ == signal_command_spec(led@, value),
{
    let mut args: Vec<String> = Vec::new();
    args.push(value.to_string());
    args.push(String::from_str(">"));
    args.push(String::from_str(led));
    let cmd = CommandLine { program: String::from_str("echo"), args };
    assert(cmd@.args =~= seq![value.text(), ">"@, led@]);
    cmd
}

} // verus!
