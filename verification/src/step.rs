//! Outside work that the library decides on and the caller carries out, in
//! order: commands to run, directories to copy or remove.
use vstd::prelude::*;
use crate::template::TemplateError;

verus! {

/// One piece of outside work.
pub enum Step {
    /// Run `command` in a shell, from `dir` where one is given.
    Run { command: String, dir: Option<String> },
    /// Run `command` from `cwd`; where it fails, run `fallback` from `cwd`.
    RunOr { command: String, fallback: String, cwd: String },
    /// Copy the directory `from` into `to`, overwriting files whose size
    /// differs.
    CopyDir { from: String, to: String },
    /// Remove the directory `path` and everything in it.
    RemoveDir { path: String },
}

/// A step, with its strings as character sequences.
pub enum StepView {
    Run { command: Seq<char>, dir: Option<Seq<char>> },
    RunOr { command: Seq<char>, fallback: Seq<char>, cwd: Seq<char> },
    CopyDir { from: Seq<char>, to: Seq<char> },
    RemoveDir { path: Seq<char> },
}

impl View for Step {
    type V = StepView;

    open spec fn view(&self) -> StepView {
        match self {
            Step::Run { command, dir } => StepView::Run {
                command: command@,
                dir: match dir {
                    Some(d) => Some(d@),
                    None => None,
                },
            },
            Step::RunOr { command, fallback, cwd } => StepView::RunOr {
                command: command@,
                fallback: fallback@,
                cwd: cwd@,
            },
            Step::CopyDir { from, to } => StepView::CopyDir { from: from@, to: to@ },
            Step::RemoveDir { path } => StepView::RemoveDir { path: path@ },
        }
    }
}

/// The views of a list of steps.
pub open spec fn steps_view(s: Seq<Step>) -> Seq<StepView> {
    s.map_values(|x: Step| x@)
}

/// Running `command` from `dir`.
pub open spec fn run_in(command: Seq<char>, dir: Seq<char>) -> StepView {
    StepView::Run { command, dir: Some(dir) }
}

/// The steps to carry out in order, and the template error that stopped the
/// planning after them, if one did.
pub struct Plan {
    pub steps: Vec<Step>,
    pub failure: Option<TemplateError>,
}

} // verus!
