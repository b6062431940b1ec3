//! The subprocess side of the bridge: the argument lists handed to `cargo`
//! and the reading of what a finished process reports.
//!
//! Nothing here spawns a process. An [`Invocation`] says what to run; a
//! [`CommandResult`] says how it ended.

use vstd::prelude::*;
use crate::outcome::{Failure, FailureKind, FailureModel};
use crate::text::{lossy_text, optional_text, push_text, texts, utf8_lossy};

verus! {

/// Which dependency table a dependency belongs to.
#[derive(Clone, Copy, Debug, PartialEq, Eq)]
pub enum DependencyKind {
    Normal,
    Dev,
}

/// A dependency to add: its name, an optional version requirement, and the
/// table it goes to.
#[derive(Clone, Debug, PartialEq, Eq)]
pub struct DependencySpec {
    pub name: String,
    pub version: Option<String>,
    pub kind: DependencyKind,
}

/// Mathematical value of a [`DependencySpec`].
pub struct DependencyModel {
    pub name: Seq<char>,
    pub version: Option<Seq<char>>,
    pub kind: DependencyKind,
}

impl View for DependencySpec {
    type V = DependencyModel;

    open spec fn view(&self) -> DependencyModel {
        DependencyModel {
            name: self.name@,
            version: optional_text(self.version),
            kind: self.kind,
        }
    }
}

/// A change to the manifest.
#[derive(Clone, Debug, PartialEq, Eq)]
pub enum Mutation {
    Add(DependencySpec),
    Remove { name: String },
}

/// Mathematical value of a [`Mutation`].
pub enum MutationModel {
    Add(DependencyModel),
    Remove { name: Seq<char> },
}

impl View for Mutation {
    type V = MutationModel;

    open spec fn view(&self) -> MutationModel {
        match self {
            Mutation::Add(dependency) => MutationModel::Add(dependency@),
            Mutation::Remove { name } => MutationModel::Remove { name: name@ },
        }
    }
}

/// The `cargo` sub-commands that the bridge runs. A failure names the one
/// that failed.
#[derive(Clone, Copy, Debug, PartialEq, Eq)]
pub enum Subcommand {
    Add,
    AddDev,
    Remove,
    Metadata,
    Format,
}

/// A process to run: the program and its arguments, in order.
#[derive(Clone, Debug, PartialEq, Eq)]
pub struct Invocation {
    pub program: String,
    pub arguments: Vec<String>,
}

/// Mathematical value of an [`Invocation`].
pub struct InvocationModel {
    pub program: Seq<char>,
    pub arguments: Seq<Seq<char>>,
}

impl View for Invocation {
    type V = InvocationModel;

    open spec fn view(&self) -> InvocationModel {
        InvocationModel { program: self.program@, arguments: texts(self.arguments@) }
    }
}

/// How a process ended: whether its exit status reports success, and what it
/// wrote.
#[derive(Clone, Debug, PartialEq, Eq)]
pub struct CommandResult {
    pub succeeded: bool,
    pub stdout: Vec<u8>,
    pub stderr: Vec<u8>,
}

/// Mathematical value of a [`CommandResult`].
pub struct CommandResultModel {
    pub succeeded: bool,
    pub stdout: Seq<u8>,
    pub stderr: Seq<u8>,
}

impl View for CommandResult {
    type V = CommandResultModel;

    open spec fn view(&self) -> CommandResultModel {
        CommandResultModel { succeeded: self.succeeded, stdout: self.stdout@, stderr: self.stderr@ }
    }
}

/// `cargo` with the given arguments.
pub open spec fn cargo(arguments: Seq<Seq<char>>) -> InvocationModel {
    InvocationModel { program: "cargo"@, arguments }
}

/// The invocation of the formatting pass: `cargo fmt`.
pub open spec fn format_invocation() -> InvocationModel {
    cargo(seq!["fmt"@])
}

/// The invocation of the metadata query:
/// `cargo metadata --format-version=1 --no-deps`.
pub open spec fn metadata_invocation() -> InvocationModel {
    cargo(seq!["metadata"@, "--format-version=1"@, "--no-deps"@])
}

impl DependencyModel {
    /// `add [--dev] <name> [--version <v>]`.
    pub open spec fn arguments(self) -> Seq<Seq<char>> {
        let head = match self.kind {
            DependencyKind::Normal => seq!["add"@, self.name],
            DependencyKind::Dev => seq!["add"@, "--dev"@, self.name],
        };
        match self.version {
            Some(version) => head + seq!["--version"@, version],
            None => head,
        }
    }
}

impl MutationModel {
    /// The sub-command that carries out the change.
    pub open spec fn subcommand(self) -> Subcommand {
        match self {
            MutationModel::Add(dependency) => match dependency.kind {
                DependencyKind::Normal => Subcommand::Add,
                DependencyKind::Dev => Subcommand::AddDev,
            },
            MutationModel::Remove { .. } => Subcommand::Remove,
        }
    }

    /// The invocation that carries out the change.
    pub open spec fn invocation(self) -> InvocationModel {
        match self {
            MutationModel::Add(dependency) => cargo(dependency.arguments()),
            MutationModel::Remove { name } => cargo(seq!["remove"@, name]),
        }
    }
}

impl Subcommand {
    /// How the message begins when the process could not be launched.
    pub open spec fn spawn_prefix(self) -> Seq<char> {
        match self {
            Subcommand::Add => "Failed to execute cargo add: "@,
            Subcommand::AddDev => "Failed to execute cargo add: "@,
            Subcommand::Remove => "Failed to execute cargo remove: "@,
            Subcommand::Metadata => "Failed to execute cargo metadata: "@,
            Subcommand::Format => "Failed to format: "@,
        }
    }

    /// How the message begins when the process exited with a failure status.
    pub open spec fn exit_prefix(self) -> Seq<char> {
        match self {
            Subcommand::Add => "cargo add failed: "@,
            Subcommand::AddDev => "cargo add dev-dependency failed: "@,
            Subcommand::Remove => "cargo remove failed: "@,
            Subcommand::Metadata => "cargo metadata failed: "@,
            Subcommand::Format => "cargo fmt failed: "@,
        }
    }

    /// The failure for a process that could not be launched, given the
    /// launcher's own description of what went wrong. The formatting pass
    /// reports under its own kind.
    pub open spec fn spawn_failure(self, reason: Seq<char>) -> FailureModel {
        FailureModel {
            kind: if self is Format {
                FailureKind::Format
            } else {
                FailureKind::Spawn
            },
            message: self.spawn_prefix() + reason,
        }
    }

    /// The failure for a process that exited with a failure status, given the
    /// text of its standard error. The text follows the prefix unchanged.
    pub open spec fn exit_failure(self, stderr_text: Seq<char>) -> FailureModel {
        FailureModel {
            kind: if self is Format {
                FailureKind::Format
            } else {
                FailureKind::Command
            },
            message: self.exit_prefix() + stderr_text,
        }
    }

    /// What a finished process means: nothing to report when its status says
    /// success, otherwise the failure that quotes its standard error.
    pub open spec fn verdict(self, result: CommandResultModel) -> Option<FailureModel> {
        if result.succeeded {
            None
        } else {
            Some(self.exit_failure(utf8_lossy(result.stderr)))
        }
    }

    fn spawn_prefix_text(self) -> (prefix: &'static str)
        ensures
            prefix@ == self.spawn_prefix(),
    {
        match self {
            Subcommand::Add => "Failed to execute cargo add: ",
            Subcommand::AddDev => "Failed to execute cargo add: ",
            Subcommand::Remove => "Failed to execute cargo remove: ",
            Subcommand::Metadata => "Failed to execute cargo metadata: ",
            Subcommand::Format => "Failed to format: ",
        }
    }

    fn exit_prefix_text(self) -> (prefix: &'static str)
        ensures
            prefix@ == self.exit_prefix(),
    {
        match self {
            Subcommand::Add => "cargo add failed: ",
            Subcommand::AddDev => "cargo add dev-dependency failed: ",
            Subcommand::Remove => "cargo remove failed: ",
            Subcommand::Metadata => "cargo metadata failed: ",
            Subcommand::Format => "cargo fmt failed: ",
        }
    }

    /// The failure to report when this sub-command could not be launched.
    pub fn failed_to_spawn(self, reason: &str) -> (failure: Failure)
        ensures
            failure@ == self.spawn_failure(reason@),
    {
        let kind = match self {
            Subcommand::Format => FailureKind::Format,
            _ => FailureKind::Spawn,
        };
        Failure::explained(kind, self.spawn_prefix_text(), reason)
    }

    /// The failure to report when this sub-command exited with a failure
    /// status and wrote `stderr_text` to its standard error.
    pub fn failed_with(self, stderr_text: &str) -> (failure: Failure)
        ensures
            failure@ == self.exit_failure(stderr_text@),
    {
        let kind = match self {
            Subcommand::Format => FailureKind::Format,
            _ => FailureKind::Command,
        };
        Failure::explained(kind, self.exit_prefix_text(), stderr_text)
    }

    /// Reads the result of this sub-command: `Ok` exactly when the exit
    /// status reports success, otherwise the failure that quotes the
    /// process's standard error.
    pub fn check(self, result: &CommandResult) -> (checked: Result<(), Failure>)
        ensures
            match checked {
                Ok(_) => self.verdict(result@) is None,
                Err(failure) => self.verdict(result@) == Some(failure@),
            },
    {
        if result.succeeded {
            Ok(())
        } else {
            let stderr_text = lossy_text(result.stderr.as_slice());
            Err(self.failed_with(stderr_text.as_str()))
        }
    }
}

impl Invocation {
    /// `cargo` with the given arguments.
    pub fn cargo(arguments: Vec<String>) -> (invocation: Invocation)
        ensures
            invocation@ == cargo(texts(arguments@)),
    {
        Invocation { program: String::from_str("cargo"), arguments }
    }

    /// The formatting pass.
    pub fn format() -> (invocation: Invocation)
        ensures
            invocation@ == format_invocation(),
    {
        let mut arguments: Vec<String> = Vec::new();
        push_text(&mut arguments, String::from_str("fmt"));
        assert(texts(arguments@) =~= seq!["fmt"@]);
        Invocation::cargo(arguments)
    }

    /// The metadata query.
    pub fn metadata() -> (invocation: Invocation)
        ensures
            invocation@ == metadata_invocation(),
    {
        let mut arguments: Vec<String> = Vec::new();
        push_text(&mut arguments, String::from_str("metadata"));
        push_text(&mut arguments, String::from_str("--format-version=1"));
        push_text(&mut arguments, String::from_str("--no-deps"));
        assert(texts(arguments@) =~= seq!["metadata"@, "--format-version=1"@, "--no-deps"@]);
        Invocation::cargo(arguments)
    }
}

impl DependencySpec {
    /// The arguments of the `cargo add` that adds this dependency.
    pub fn into_arguments(self) -> (arguments: Vec<String>)
        ensures
            texts(arguments@) == self@.arguments(),
    {
        let mut arguments: Vec<String> = Vec::new();
        push_text(&mut arguments, String::from_str("add"));
        match self.kind {
            DependencyKind::Normal => {},
            DependencyKind::Dev => {
                push_text(&mut arguments, String::from_str("--dev"));
            },
        }
        push_text(&mut arguments, self.name);
        match self.version {
            Some(version) => {
                push_text(&mut arguments, String::from_str("--version"));
                push_text(&mut arguments, version);
            },
            None => {},
        }
        assert(texts(arguments@) =~= self@.arguments());
        arguments
    }
}

impl Mutation {
    /// The sub-command that carries out the change.
    pub fn subcommand(&self) -> (subcommand: Subcommand)
        ensures
            subcommand == self@.subcommand(),
    {
        match self {
            Mutation::Add(dependency) => match dependency.kind {
                DependencyKind::Normal => Subcommand::Add,
                DependencyKind::Dev => Subcommand::AddDev,
            },
            Mutation::Remove { .. } => Subcommand::Remove,
        }
    }

    /// The invocation that carries out the change.
    pub fn into_invocation(self) -> (invocation: Invocation)
        ensures
            invocation@ == self@.invocation(),
    {
        match self {
            Mutation::Add(dependency) => Invocation::cargo(dependency.into_arguments()),
            Mutation::Remove { name } => {
                let mut arguments: Vec<String> = Vec::new();
                push_text(&mut arguments, String::from_str("remove"));
                push_text(&mut arguments, name);
                assert(texts(arguments@) =~= seq!["remove"@, name@]);
                Invocation::cargo(arguments)
            },
        }
    }
}

} // verus!
