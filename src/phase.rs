use vstd::prelude::*;

verus! {

/// The stages of a build plan, in the order they run; `Variables` names the
/// provider's environment variables where a failure is reported.
#[derive(PartialEq, Eq, Structural, Clone, Copy, Debug)]
pub enum Stage {
    Setup,
    Install,
    Build,
    Start,
    Variables,
}

/// One stage of a build: its commands in order, and what it depends on.
pub struct Phase {
    commands: Vec<String>,
    dependencies: Vec<String>,
}

pub type SetupPhase = Phase;

pub type InstallPhase = Phase;

pub type BuildPhase = Phase;

pub type StartPhase = Phase;

/// The view of a `Phase`.
pub struct PhaseModel {
    pub commands: Seq<Seq<char>>,
    pub dependencies: Seq<Seq<char>>,
}

impl View for Phase {
    type V = PhaseModel;

    closed spec fn view(&self) -> PhaseModel {
        PhaseModel {
            commands: self.commands.deep_view(),
            dependencies: self.dependencies.deep_view(),
        }
    }
}

/// The view of an optional phase.
pub open spec fn phase_option_view(p: Option<Phase>) -> Option<PhaseModel> {
    match p {
        Some(p) => Some(p@),
        None => None,
    }
}

impl Phase {
    pub fn new(commands: Vec<String>, dependencies: Vec<String>) -> (r: Phase)
        ensures
            r@.commands == commands.deep_view(),
            r@.dependencies == dependencies.deep_view(),
    {
        Phase { commands, dependencies }
    }

    pub fn commands(&self) -> (r: &Vec<String>)
        ensures
            r.deep_view() == self@.commands,
    {
        &self.commands
    }

    pub fn dependencies(&self) -> (r: &Vec<String>)
        ensures
            r.deep_view() == self@.dependencies,
    {
        &self.dependencies
    }

    /// A copy of this phase.
    pub fn duplicate(&self) -> (r: Phase)
        ensures
            r@ == self@,
    {
        Phase { commands: self.commands.clone(), dependencies: self.dependencies.clone() }
    }
}

} // verus!
