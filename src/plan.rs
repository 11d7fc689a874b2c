use crate::app::{App, AppModel, ProviderError};
use crate::environment::{Environment, EnvironmentModel, EnvironmentVariables, VarsModel};
use crate::keyed::{find_key, overlay};
use crate::phase::{phase_option_view, Phase, PhaseModel, Stage};
use crate::providers::Provider;
use crate::registry::{names_of, Registry};
use vstd::prelude::*;

verus! {

/// The result of one pass: the four phases in their fixed order, each present
/// or explicitly absent, the merged variables, and the provider that made them.
pub struct BuildPlan {
    provider: String,
    setup: Option<Phase>,
    install: Option<Phase>,
    build: Option<Phase>,
    start: Option<Phase>,
    variables: EnvironmentVariables,
}

/// The view of a `BuildPlan`.
pub struct PlanModel {
    pub provider: Seq<char>,
    pub setup: Option<PhaseModel>,
    pub install: Option<PhaseModel>,
    pub build: Option<PhaseModel>,
    pub start: Option<PhaseModel>,
    pub variables: VarsModel,
}

impl View for BuildPlan {
    type V = PlanModel;

    closed spec fn view(&self) -> PlanModel {
        PlanModel {
            provider: self.provider@,
            setup: phase_option_view(self.setup),
            install: phase_option_view(self.install),
            build: phase_option_view(self.build),
            start: phase_option_view(self.start),
            variables: self.variables@,
        }
    }
}

/// Why a pass produced no plan.
pub enum PlanError {
    /// A provider's detection failed.
    Detection { provider: String, cause: ProviderError },
    /// The provider that the environment names is not registered.
    UnknownProvider { name: String },
    /// No provider claimed the project; `tried` lists those asked, in order.
    NoProviderDetected { tried: Vec<String> },
    /// The chosen provider failed to produce a stage.
    PhaseConstruction { provider: String, stage: Stage, cause: ProviderError },
}

/// The view of a `PlanError`.
pub enum PlanFailure {
    Detection { provider: Seq<char>, cause: Seq<char> },
    UnknownProvider { name: Seq<char> },
    NoProviderDetected { tried: Seq<Seq<char>> },
    PhaseConstruction { provider: Seq<char>, stage: Stage, cause: Seq<char> },
}

impl View for PlanError {
    type V = PlanFailure;

    open spec fn view(&self) -> PlanFailure {
        match self {
            PlanError::Detection { provider, cause } => PlanFailure::Detection {
                provider: provider@,
                cause: cause@,
            },
            PlanError::UnknownProvider { name } => PlanFailure::UnknownProvider { name: name@ },
            PlanError::NoProviderDetected { tried } => PlanFailure::NoProviderDetected {
                tried: tried.deep_view(),
            },
            PlanError::PhaseConstruction { provider, stage, cause } =>
                PlanFailure::PhaseConstruction { provider: provider@, stage: *stage, cause: cause@ },
        }
    }
}

/// The view of a pass's result.
pub open spec fn result_view(r: Result<BuildPlan, PlanError>) -> Result<PlanModel, PlanFailure> {
    match r {
        Ok(p) => Ok(p@),
        Err(e) => Err(e@),
    }
}

/// Detection from index `i` on: the first provider that claims the project,
/// none, or the first that fails, with its cause.
pub open spec fn detect_from<P: Provider>(
    providers: Seq<P>,
    app: AppModel,
    env: EnvironmentModel,
    i: int,
) -> Result<Option<int>, (int, Seq<char>)>
    decreases providers.len() - i,
{
    if 0 <= i < providers.len() {
        match providers[i].spec_detect(app, env) {
            Err(c) => Err((i, c)),
            Ok(true) => Ok(Some(i)),
            Ok(false) => detect_from(providers, app, env, i + 1),
        }
    } else {
        Ok(None)
    }
}

/// Detection from `i` on names only an index at `i` or later.
pub proof fn lemma_detect_from_bounds<P: Provider>(
    providers: Seq<P>,
    app: AppModel,
    env: EnvironmentModel,
    i: int,
)
    requires
        0 <= i,
    ensures
        match detect_from(providers, app, env, i) {
            Ok(Some(k)) => i <= k < providers.len(),
            Err((k, _)) => i <= k < providers.len(),
            Ok(None) => true,
        },
    decreases providers.len() - i,
{
    if 0 <= i < providers.len() {
        lemma_detect_from_bounds(providers, app, env, i + 1);
    }
}

/// The provider's variables, or none, with the caller's written over them.
pub open spec fn merged_variables(own: Option<VarsModel>, env: EnvironmentModel) -> VarsModel {
    let base = match own {
        Some(v) => v,
        None => VarsModel::empty(),
    };
    overlay(base, env.variables)
}

/// The plan that provider `p` makes: its stages asked in order, the first
/// failure ending the pass.
pub open spec fn spec_plan<P: Provider>(p: P, app: AppModel, env: EnvironmentModel) -> Result<
    PlanModel,
    PlanFailure,
> {
    let name = p.spec_name();
    let fail = |stage: Stage, c: Seq<char>|
        PlanFailure::PhaseConstruction { provider: name, stage, cause: c };
    match p.spec_phase(Stage::Setup, app, env) {
        Err(c) => Err(fail(Stage::Setup, c)),
        Ok(setup) => match p.spec_phase(Stage::Install, app, env) {
            Err(c) => Err(fail(Stage::Install, c)),
            Ok(install) => match p.spec_phase(Stage::Build, app, env) {
                Err(c) => Err(fail(Stage::Build, c)),
                Ok(build) => match p.spec_phase(Stage::Start, app, env) {
                    Err(c) => Err(fail(Stage::Start, c)),
                    Ok(start) => match p.spec_variables(app, env) {
                        Err(c) => Err(fail(Stage::Variables, c)),
                        Ok(own) => Ok(
                            PlanModel {
                                provider: name,
                                setup,
                                install,
                                build,
                                start,
                                variables: merged_variables(own, env),
                            },
                        ),
                    },
                },
            },
        },
    }
}

/// One pass: the provider the environment names, else the first that claims
/// the project, and the plan it makes.
pub open spec fn spec_compose<P: Provider>(
    providers: Seq<P>,
    app: AppModel,
    env: EnvironmentModel,
) -> Result<PlanModel, PlanFailure> {
    match env.provider {
        Some(n) => match find_key(names_of(providers), n) {
            Some(i) => spec_plan(providers[i], app, env),
            None => Err(PlanFailure::UnknownProvider { name: n }),
        },
        None => match detect_from(providers, app, env, 0) {
            Err((i, c)) => Err(PlanFailure::Detection { provider: providers[i].spec_name(), cause: c }),
            Ok(Some(i)) => spec_plan(providers[i], app, env),
            Ok(None) => Err(PlanFailure::NoProviderDetected { tried: names_of(providers) }),
        },
    }
}

impl BuildPlan {
    /// The name of the provider that made this plan.
    pub fn provider(&self) -> (r: &String)
        ensures
            r@ == self@.provider,
    {
        &self.provider
    }

    pub fn setup(&self) -> (r: &Option<Phase>)
        ensures
            phase_option_view(*r) == self@.setup,
    {
        &self.setup
    }

    pub fn install(&self) -> (r: &Option<Phase>)
        ensures
            phase_option_view(*r) == self@.install,
    {
        &self.install
    }

    pub fn build(&self) -> (r: &Option<Phase>)
        ensures
            phase_option_view(*r) == self@.build,
    {
        &self.build
    }

    pub fn start(&self) -> (r: &Option<Phase>)
        ensures
            phase_option_view(*r) == self@.start,
    {
        &self.start
    }

    pub fn variables(&self) -> (r: &EnvironmentVariables)
        ensures
            r@ == self@.variables,
    {
        &self.variables
    }
}

/// The error for a failed stage of provider `p`.
fn stage_failure<P: Provider>(p: &P, stage: Stage, cause: ProviderError) -> (r: PlanError)
    ensures
        r@ == (PlanFailure::PhaseConstruction { provider: p.spec_name(), stage, cause: cause@ }),
{
    PlanError::PhaseConstruction { provider: p.name().to_owned(), stage, cause }
}

/// The plan that `p` makes for `app` under `env`.
pub fn make_plan<P: Provider>(p: &P, app: &App, env: &Environment) -> (r: Result<
    BuildPlan,
    PlanError,
>)
    ensures
        result_view(r) == spec_plan(*p, app@, env@),
{
    let setup = match p.setup(app, env) {
        Ok(s) => s,
        Err(c) => return Err(stage_failure(p, Stage::Setup, c)),
    };
    let install = match p.install(app, env) {
        Ok(s) => s,
        Err(c) => return Err(stage_failure(p, Stage::Install, c)),
    };
    let build = match p.build(app, env) {
        Ok(s) => s,
        Err(c) => return Err(stage_failure(p, Stage::Build, c)),
    };
    let start = match p.start(app, env) {
        Ok(s) => s,
        Err(c) => return Err(stage_failure(p, Stage::Start, c)),
    };
    let own = match p.environment_variables(app, env) {
        Ok(v) => v,
        Err(c) => return Err(stage_failure(p, Stage::Variables, c)),
    };
    let mut variables = match own {
        Some(v) => v,
        None => EnvironmentVariables::new(),
    };
    variables.overlay(env.variables());
    Ok(BuildPlan { provider: p.name().to_owned(), setup, install, build, start, variables })
}

/// Asks each provider in order whether it claims the project, stopping at
/// the first that does or fails.
pub fn detect_first<P: Provider>(registry: &Registry<P>, app: &App, env: &Environment) -> (r: Result<
    Option<usize>,
    (usize, ProviderError),
>)
    ensures
        match r {
            Ok(Some(i)) => i < registry@.len() && detect_from(registry@, app@, env@, 0) == Ok::<Option<int>, (int, Seq<char>)>(Some(i as int)),
            Ok(None) => detect_from(registry@, app@, env@, 0) == Ok::<Option<int>, (int, Seq<char>)>(None),
            Err((i, c)) => i < registry@.len() && detect_from(registry@, app@, env@, 0) == Err::<Option<int>, (int, Seq<char>)>((i as int, c@)),
        },
{
    proof {
        lemma_detect_from_bounds(registry@, app@, env@, 0);
    }
    let providers = registry.all();
    let mut i: usize = 0;
    while i < providers.len()
        invariant
            i <= providers.len(),
            providers@ == registry@,
            detect_from(registry@, app@, env@, 0) == detect_from(registry@, app@, env@, i as int),
        decreases providers.len() - i,
    {
        match providers[i].detect(app, env) {
            Err(c) => return Err((i, c)),
            Ok(true) => return Ok(Some(i)),
            Ok(false) => {},
        }
        i = i + 1;
    }
    Ok(None)
}

/// Composes the build plan for `app` under `env` from the providers of `registry`.
pub fn compose<P: Provider>(registry: &Registry<P>, app: &App, env: &Environment) -> (r: Result<
    BuildPlan,
    PlanError,
>)
    ensures
        result_view(r) == spec_compose(registry@, app@, env@),
{
    match env.provider() {
        Some(name) => match registry.position(name.as_str()) {
            Some(i) => make_plan(&registry.all()[i], app, env),
            None => Err(PlanError::UnknownProvider { name: name.clone() }),
        },
        None => match detect_first(registry, app, env) {
            Err((i, c)) => Err(
                PlanError::Detection { provider: registry.all()[i].name().to_owned(), cause: c },
            ),
            Ok(Some(i)) => make_plan(&registry.all()[i], app, env),
            Ok(None) => Err(PlanError::NoProviderDetected { tried: registry.names() }),
        },
    }
}

} // verus!
