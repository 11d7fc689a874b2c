use crate::app::App;
use crate::environment::{Environment, EnvironmentModel, VarsModel};
use crate::app::AppModel;
use crate::keyed::{
    find_key, first_at, keys_of, lemma_find_key_some, lemma_first_at_unique, lemma_insert,
    lemma_unique_found, lookup, overlay, unique,
};
use crate::phase::{PhaseModel, Stage};
use crate::plan::{
    detect_from, merged_variables, result_view, spec_compose, spec_plan, BuildPlan, PlanError,
    PlanFailure, PlanModel,
};
use crate::providers::Provider;
use crate::registry::{names_of, Registry};
use vstd::prelude::*;

verus! {

/// Composing twice for the same registry, project contents and environment
/// gives the same result, plan or error.
pub proof fn lemma_compose_deterministic<P: Provider>(
    registry: Registry<P>,
    app1: App,
    app2: App,
    env1: Environment,
    env2: Environment,
    r1: Result<BuildPlan, PlanError>,
    r2: Result<BuildPlan, PlanError>,
)
    requires
        app1@ == app2@,
        env1@ == env2@,
        result_view(r1) == spec_compose(registry@, app1@, env1@),
        result_view(r2) == spec_compose(registry@, app2@, env2@),
    ensures
        result_view(r1) == result_view(r2),
{
}

/// Providers from `i` up to `k` that all decline leave detection to `k`.
pub proof fn lemma_detect_skip<P: Provider>(
    providers: Seq<P>,
    app: AppModel,
    env: EnvironmentModel,
    i: int,
    k: int,
)
    requires
        0 <= i <= k <= providers.len(),
        forall|j: int| i <= j < k ==> providers[j].spec_detect(app, env) == Ok::<bool, Seq<char>>(false),
    ensures
        detect_from(providers, app, env, i) == detect_from(providers, app, env, k),
    decreases k - i,
{
    if i < k {
        lemma_detect_skip(providers, app, env, i + 1, k);
    }
}

/// Without an explicit choice, the first provider in registry order that
/// claims the project makes the plan, whichever later ones would claim it too.
pub proof fn lemma_first_match<P: Provider>(
    providers: Seq<P>,
    app: AppModel,
    env: EnvironmentModel,
    k: int,
)
    requires
        env.provider is None,
        0 <= k < providers.len(),
        forall|j: int| 0 <= j < k ==> providers[j].spec_detect(app, env) == Ok::<bool, Seq<char>>(false),
        providers[k].spec_detect(app, env) == Ok::<bool, Seq<char>>(true),
    ensures
        spec_compose(providers, app, env) == spec_plan(providers[k], app, env),
        spec_compose(providers, app, env) matches Ok(plan) ==> plan.provider
            == providers[k].spec_name(),
{
    lemma_detect_skip(providers, app, env, 0, k);
}

/// A provider named by the environment makes the plan whatever any
/// detection would say, and the plan carries that name.
pub proof fn lemma_override_bypass<P: Provider>(
    providers: Seq<P>,
    app: AppModel,
    env: EnvironmentModel,
    i: int,
)
    requires
        unique(names_of(providers)),
        0 <= i < providers.len(),
        env.provider == Some(providers[i].spec_name()),
    ensures
        spec_compose(providers, app, env) == spec_plan(providers[i], app, env),
        spec_compose(providers, app, env) matches Ok(plan) ==> Some(plan.provider) == env.provider,
{
    lemma_unique_found(names_of(providers), providers[i].spec_name(), i);
}

/// Where no provider claims the project, the pass fails with
/// `NoProviderDetected` and gives no plan.
pub proof fn lemma_no_match<P: Provider>(providers: Seq<P>, app: AppModel, env: EnvironmentModel)
    requires
        env.provider is None,
        forall|j: int|
            0 <= j < providers.len() ==> providers[j].spec_detect(app, env) == Ok::<bool, Seq<char>>(
                false,
            ),
    ensures
        spec_compose(providers, app, env) == Err::<PlanModel, PlanFailure>(
            PlanFailure::NoProviderDetected { tried: names_of(providers) },
        ),
{
    lemma_detect_skip(providers, app, env, 0, providers.len() as int);
}

/// A provider that contributes only a build and a start phase makes a plan
/// with those two present and setup and install explicitly absent.
pub proof fn lemma_stage_independence<P: Provider>(
    p: P,
    app: AppModel,
    env: EnvironmentModel,
    build: PhaseModel,
    start: PhaseModel,
)
    requires
        p.spec_phase(Stage::Setup, app, env) == Ok::<Option<PhaseModel>, Seq<char>>(None),
        p.spec_phase(Stage::Install, app, env) == Ok::<Option<PhaseModel>, Seq<char>>(None),
        p.spec_phase(Stage::Build, app, env) == Ok::<Option<PhaseModel>, Seq<char>>(Some(build)),
        p.spec_phase(Stage::Start, app, env) == Ok::<Option<PhaseModel>, Seq<char>>(Some(start)),
        p.spec_variables(app, env) is Ok,
    ensures
        spec_plan(p, app, env) is Ok,
        spec_plan(p, app, env)->Ok_0.setup is None,
        spec_plan(p, app, env)->Ok_0.install is None,
        spec_plan(p, app, env)->Ok_0.build == Some(build),
        spec_plan(p, app, env)->Ok_0.start == Some(start),
{
}

/// A failing stage ends the pass with `PhaseConstruction` naming the provider
/// and the stage: no plan is given, not even one with the earlier stages.
pub proof fn lemma_build_failure<P: Provider>(
    p: P,
    app: AppModel,
    env: EnvironmentModel,
    cause: Seq<char>,
)
    requires
        p.spec_phase(Stage::Setup, app, env) is Ok,
        p.spec_phase(Stage::Install, app, env) is Ok,
        p.spec_phase(Stage::Build, app, env) == Err::<Option<PhaseModel>, Seq<char>>(cause),
    ensures
        spec_plan(p, app, env) == Err::<PlanModel, PlanFailure>(
            PlanFailure::PhaseConstruction { provider: p.spec_name(), stage: Stage::Build, cause },
        ),
{
}

/// A variable that the caller sets wins over whatever the base holds under
/// that name.
pub proof fn lemma_overlay_wins(base: VarsModel, over: VarsModel, k: Seq<char>, v: Seq<char>)
    requires
        unique(keys_of(over)),
        lookup(over, k) == Some(v),
    ensures
        lookup(overlay(base, over), k) == Some(v),
    decreases over.len(),
{
    let n = over.len() - 1;
    let ko = keys_of(over);
    lemma_find_key_some(ko, k);
    let i = find_key(ko, k)->0;
    let rest = over.drop_last();
    let kr = keys_of(rest);
    let below = overlay(base, rest);
    lemma_insert(below, over.last().0, over.last().1);
    if over.last().0 == k {
        lemma_unique_found(ko, k, n);
    } else {
        assert(ko[n] == over.last().0);
        assert(i < n);
        assert(kr =~= ko.drop_last());
        assert(first_at(kr, k, i));
        lemma_first_at_unique(kr, k, i);
        assert(unique(kr));
        lemma_overlay_wins(base, rest, k, v);
    }
}

/// In a composed plan, each variable that the environment sets holds the
/// environment's value, whatever the provider set under that name.
pub proof fn lemma_environment_precedence<P: Provider>(
    providers: Seq<P>,
    app: AppModel,
    env: EnvironmentModel,
    k: Seq<char>,
    v: Seq<char>,
)
    requires
        unique(keys_of(env.variables)),
        lookup(env.variables, k) == Some(v),
        spec_compose(providers, app, env) is Ok,
    ensures
        lookup(spec_compose(providers, app, env)->Ok_0.variables, k) == Some(v),
{
    assert forall|own: Option<VarsModel>| lookup(merged_variables(own, env), k) == Some(v) by {
        let b = match own {
            Some(x) => x,
            None => VarsModel::empty(),
        };
        lemma_overlay_wins(b, env.variables, k, v);
    }
}

} // verus!
