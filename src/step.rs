use vstd::prelude::*;

verus! {

/// One external command: the program, its arguments and the directory it
/// runs in (`None`: the current one).
#[derive(Clone, Debug)]
pub struct Step {
    pub program: String,
    pub args: Vec<String>,
    pub cwd: Option<String>,
}

/// How an external command ended.
#[derive(Clone, Copy, Debug, PartialEq, Eq, Structural)]
pub enum StepOutcome {
    /// It ran and exited with status zero.
    Success,
    /// It ran and failed; the exit code, when the process had one.
    Failed { code: Option<i32> },
    /// It could not be started.
    SpawnFailure,
}

/// What a step runs, as plain values.
pub struct StepView {
    pub program: Seq<char>,
    pub args: Seq<Seq<char>>,
    pub cwd: Option<Seq<char>>,
}

impl View for Step {
    type V = StepView;

    open spec fn view(&self) -> StepView {
        StepView { program: self.program@, args: self.spec_args(), cwd: self.spec_cwd() }
    }
}

/// The views of a list of steps.
pub open spec fn step_views(v: Seq<Step>) -> Seq<StepView> {
    v.map_values(|s: Step| s@)
}

/// The views of a list of strings.
pub open spec fn views(v: Seq<String>) -> Seq<Seq<char>> {
    v.map_values(|s: String| s@)
}

impl Step {
    pub open spec fn spec_args(self) -> Seq<Seq<char>> {
        views(self.args@)
    }

    pub open spec fn spec_cwd(self) -> Option<Seq<char>> {
        match self.cwd {
            Some(d) => Some(d@),
            None => None,
        }
    }
}

} // verus!
