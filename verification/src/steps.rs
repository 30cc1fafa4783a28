//! The steps of a scaffolding run and what a driver owes each of them.
//!
//! A plan is a sequence of steps, performed in order. The library performs
//! none of them: it says which steps make up a run, and whether a step that
//! fails ends the run.

use vstd::prelude::*;
use vstd::string::*;
use crate::text::texts;

verus! {

/// How an external program is run.
#[derive(Clone, Copy, Debug, PartialEq, Eq, Structural)]
pub enum Mode {
    /// Wait until the program has ended; its exit code and output are discarded.
    Synchronous,
    /// Start the program and go on at once; nobody waits for it.
    Detached,
}

/// An external program with its arguments.
#[derive(Clone, Debug, PartialEq, Eq)]
pub struct ExternalCommand {
    pub program: String,
    pub args: Vec<String>,
    pub mode: Mode,
}

/// A file with fixed content, written where `path` says, over whatever is there.
#[derive(Clone, Debug, PartialEq, Eq)]
pub struct TemplateFile {
    pub path: String,
    pub content: String,
}

/// One step of a run.
#[derive(Clone, Debug, PartialEq, Eq)]
pub enum Step {
    /// Create the project's directory with all its parents; one that exists is left alone.
    MakeRoot(String),
    /// Make the directory the working directory of the process.
    ChangeDir(String),
    /// Create a folder of the skeleton with all its parents.
    MakeFolder(String),
    /// Run an external program.
    Invoke(ExternalCommand),
    /// Write a file.
    Write(TemplateFile),
    /// Read the manifest, patch the script lines into it, write it back.
    PatchScripts { manifest: String, scripts: Vec<String> },
    /// Print a line of progress.
    Report(String),
}

/// What an `ExternalCommand` holds.
pub struct CommandModel {
    pub program: Seq<char>,
    pub args: Seq<Seq<char>>,
    pub mode: Mode,
}

/// What a `TemplateFile` holds.
pub struct FileModel {
    pub path: Seq<char>,
    pub content: Seq<char>,
}

/// What a `Step` holds.
pub enum StepModel {
    MakeRoot(Seq<char>),
    ChangeDir(Seq<char>),
    MakeFolder(Seq<char>),
    Invoke(CommandModel),
    Write(FileModel),
    PatchScripts { manifest: Seq<char>, scripts: Seq<Seq<char>> },
    Report(Seq<char>),
}

impl View for ExternalCommand {
    type V = CommandModel;

    open spec fn view(&self) -> CommandModel {
        CommandModel { program: self.program@, args: texts(self.args@), mode: self.mode }
    }
}

impl View for TemplateFile {
    type V = FileModel;

    open spec fn view(&self) -> FileModel {
        FileModel { path: self.path@, content: self.content@ }
    }
}

impl View for Step {
    type V = StepModel;

    open spec fn view(&self) -> StepModel {
        match self {
            Step::MakeRoot(path) => StepModel::MakeRoot(path@),
            Step::ChangeDir(path) => StepModel::ChangeDir(path@),
            Step::MakeFolder(path) => StepModel::MakeFolder(path@),
            Step::Invoke(command) => StepModel::Invoke(command@),
            Step::Write(file) => StepModel::Write(file@),
            Step::PatchScripts { manifest, scripts } => StepModel::PatchScripts {
                manifest: manifest@,
                scripts: texts(scripts@),
            },
            Step::Report(message) => StepModel::Report(message@),
        }
    }
}

/// What a plan holds: the model of each of its steps, in order.
pub open spec fn plan_of(steps: Seq<Step>) -> Seq<StepModel> {
    Seq::new(steps.len(), |i: int| steps[i]@)
}

/// Whether a run ends when the step fails. Creating the project's directory
/// and every write to a file must succeed, since later steps build on them.
/// A failed change of directory, a failed folder of the skeleton and whatever
/// becomes of an external program go unnoticed.
pub open spec fn fatal_on_failure(step: StepModel) -> bool {
    match step {
        StepModel::MakeRoot(_) => true,
        StepModel::ChangeDir(_) => false,
        StepModel::MakeFolder(_) => false,
        StepModel::Invoke(_) => false,
        StepModel::Write(_) => true,
        StepModel::PatchScripts { .. } => true,
        StepModel::Report(_) => false,
    }
}

/// Whether the run must end when `step` has failed.
pub fn failure_is_fatal(step: &Step) -> (fatal: bool)
    ensures
        fatal == fatal_on_failure(step@),
{
    match step {
        Step::MakeRoot(_) => true,
        Step::ChangeDir(_) => false,
        Step::MakeFolder(_) => false,
        Step::Invoke(_) => false,
        Step::Write(_) => true,
        Step::PatchScripts { .. } => true,
        Step::Report(_) => false,
    }
}

/// Appends a step to a plan.
pub fn push_step(plan: &mut Vec<Step>, step: Step)
    ensures
        plan_of(final(plan)@) == plan_of(old(plan)@).push(step@),
{
    plan.push(step);
    assert(plan_of(plan@) =~= plan_of(old(plan)@).push(step@));
}

/// A step that prints `message`.
pub fn report(message: &str) -> (step: Step)
    ensures
        step@ == StepModel::Report(message@),
{
    Step::Report(String::from_str(message))
}

/// A step that creates the folder `path`.
pub fn make_folder(path: &str) -> (step: Step)
    ensures
        step@ == StepModel::MakeFolder(path@),
{
    Step::MakeFolder(String::from_str(path))
}

/// A step that writes `content` to the file at `path`.
pub fn write_file(path: String, content: String) -> (step: Step)
    ensures
        step@ == StepModel::Write(FileModel { path: path@, content: content@ }),
{
    Step::Write(TemplateFile { path, content })
}

/// A step that runs `program` with `args`.
pub fn invoke(program: &str, args: Vec<String>, mode: Mode) -> (step: Step)
    ensures
        step@ == StepModel::Invoke(
            CommandModel { program: program@, args: texts(args@), mode: mode },
        ),
{
    Step::Invoke(ExternalCommand { program: String::from_str(program), args, mode })
}

} // verus!
