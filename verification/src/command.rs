use vstd::prelude::*;
use crate::models::{strings_view, copy_strings};

verus! {

/// Why running an external command did not succeed.
#[derive(Debug, Clone)]
pub enum LunaraError {
    /// The application has no command to start.
    MissingCmd,
    /// The command could not be run or exited unsuccessfully; the text says how.
    CommandFailed(String),
}

/// The result of an operation that runs external commands.
pub type LunaraResult<T> = Result<T, LunaraError>;

/// A program and its arguments, to be run by the caller.
#[derive(Debug, Clone)]
pub struct CommandSpec {
    pub program: String,
    pub args: Vec<String>,
}

/// The contents of a `CommandSpec`.
pub struct CommandView {
    pub program: Seq<char>,
    pub args: Seq<Seq<char>>,
}

impl View for CommandSpec {
    type V = CommandView;

    open spec fn view(&self) -> CommandView {
        CommandView { program: self.program@, args: strings_view(self.args@) }
    }
}

/// The contents of an optional command.
pub open spec fn opt_command_view(c: Option<CommandSpec>) -> Option<CommandView> {
    match c {
        Some(c) => Some(c@),
        None => None,
    }
}

impl CommandSpec {
    /// The command `program` with the arguments `args`.
    pub fn new(program: &String, args: &Vec<String>) -> (r: CommandSpec)
        ensures
            r@ == (CommandView { program: program@, args: strings_view(args@) }),
    {
        CommandSpec { program: program.clone(), args: copy_strings(args) }
    }

    /// The command `program` with the arguments `args`, or no arguments when `args` is absent.
    pub fn with_opt_args(program: &String, args: &Option<Vec<String>>) -> (r: CommandSpec)
        ensures
            r@.program == program@,
            r@.args == match args {
                Some(a) => strings_view(a@),
                None => Seq::<Seq<char>>::empty(),
            },
    {
        match args {
            Some(a) => CommandSpec::new(program, a),
            None => {
                let r = CommandSpec { program: program.clone(), args: Vec::new() };
                assert(r@.args =~= Seq::<Seq<char>>::empty());
                r
            },
        }
    }
}

} // verus!
