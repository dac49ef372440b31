//! The resolved launch specification and the command line made from it.

use vstd::prelude::*;

verus! {

/// A resolved language-server binary: where it is, and the arguments and
/// environment that were settled together with it. `None` leaves the choice
/// to [`HarperBinary::into_command`].
#[derive(Clone, Debug, PartialEq, Eq)]
pub struct HarperBinary {
    pub path: String,
    pub args: Option<Vec<String>>,
    pub env: Option<Vec<(String, String)>>,
}

/// What the host needs to spawn the language server.
#[derive(Clone, Debug, PartialEq, Eq)]
pub struct Command {
    pub command: String,
    pub args: Vec<String>,
    pub env: Vec<(String, String)>,
}

/// What a [`HarperBinary`] holds.
pub struct BinaryModel {
    pub path: Seq<char>,
    pub args: Option<Seq<Seq<char>>>,
    pub env: Option<Seq<(Seq<char>, Seq<char>)>>,
}

/// What a [`Command`] holds.
pub struct CommandModel {
    pub command: Seq<char>,
    pub args: Seq<Seq<char>>,
    pub env: Seq<(Seq<char>, Seq<char>)>,
}

impl View for HarperBinary {
    type V = BinaryModel;

    open spec fn view(&self) -> BinaryModel {
        BinaryModel {
            path: self.path@,
            args: self.args.deep_view(),
            env: self.env.deep_view(),
        }
    }
}

impl DeepView for HarperBinary {
    type V = BinaryModel;

    open spec fn deep_view(&self) -> BinaryModel {
        self@
    }
}

impl DeepView for Command {
    type V = CommandModel;

    open spec fn deep_view(&self) -> CommandModel {
        self@
    }
}

impl View for Command {
    type V = CommandModel;

    open spec fn view(&self) -> CommandModel {
        CommandModel {
            command: self.command@,
            args: self.args.deep_view(),
            env: self.env.deep_view(),
        }
    }
}

impl BinaryModel {
    /// A binary that stands on its own: no arguments chosen, nothing added
    /// to the environment.
    pub open spec fn bare(path: Seq<char>) -> BinaryModel {
        BinaryModel { path, args: None, env: None }
    }

    /// The arguments passed where none were chosen.
    pub open spec fn default_args() -> Seq<Seq<char>> {
        seq!["--stdio"@]
    }

    /// The command line: the path as it is, the chosen arguments or
    /// `--stdio` alone, the chosen environment or an empty one.
    pub open spec fn command(self) -> CommandModel {
        CommandModel {
            command: self.path,
            args: match self.args {
                Some(args) => args,
                None => Self::default_args(),
            },
            env: match self.env {
                Some(env) => env,
                None => Seq::empty(),
            },
        }
    }
}

impl HarperBinary {
    /// A binary that stands on its own: no arguments chosen, nothing added
    /// to the environment.
    pub fn bare(path: String) -> (binary: HarperBinary)
        ensures
            binary@ == BinaryModel::bare(path@),
    {
        HarperBinary { path, args: None, env: None }
    }

    /// Fills in what was left open and gives the command line.
    pub fn into_command(self) -> (command: Command)
        ensures
            command@ == self@.command(),
    {
        let HarperBinary { path, args, env } = self;
        let args = match args {
            Some(args) => args,
            None => {
                let mut args: Vec<String> = Vec::new();
                args.push("--stdio".to_owned());
                assert(args.deep_view() =~= BinaryModel::default_args());
                args
            },
        };
        let env = match env {
            Some(env) => env,
            None => {
                let env: Vec<(String, String)> = Vec::new();
                assert(env.deep_view() =~= Seq::<(Seq<char>, Seq<char>)>::empty());
                env
            },
        };
        Command { command: path, args, env }
    }
}

} // verus!
