use crate::app::{App, AppModel, ProviderError};
use crate::environment::{Environment, EnvironmentModel, EnvironmentVariables, VarsModel};
use crate::keyed::lookup;
use crate::phase::{
    phase_option_view, BuildPhase, InstallPhase, Phase, PhaseModel, SetupPhase, Stage, StartPhase,
};
use vstd::prelude::*;

verus! {

/// The view of a detection result.
pub open spec fn detect_view(r: Result<bool, ProviderError>) -> Result<bool, Seq<char>> {
    match r {
        Ok(b) => Ok(b),
        Err(e) => Err(e@),
    }
}

/// The view of what a phase producer returned.
pub open spec fn phase_result_view(r: Result<Option<Phase>, ProviderError>) -> Result<
    Option<PhaseModel>,
    Seq<char>,
> {
    match r {
        Ok(p) => Ok(phase_option_view(p)),
        Err(e) => Err(e@),
    }
}

/// The view of what a variable producer returned.
pub open spec fn vars_result_view(r: Result<Option<EnvironmentVariables>, ProviderError>) -> Result<
    Option<VarsModel>,
    Seq<char>,
> {
    match r {
        Ok(Some(v)) => Ok(Some(v@)),
        Ok(None) => Ok(None),
        Err(e) => Err(e@),
    }
}

/// What one ecosystem knows: its name, whether a project belongs to it, and
/// what it contributes to each stage of the plan. Each answer depends on the
/// project's contents and the environment alone.
pub trait Provider {
    spec fn spec_name(&self) -> Seq<char>;

    spec fn spec_detect(&self, app: AppModel, env: EnvironmentModel) -> Result<bool, Seq<char>>;

    /// What the producer of `stage` (one of the four phases) returns.
    spec fn spec_phase(&self, stage: Stage, app: AppModel, env: EnvironmentModel) -> Result<
        Option<PhaseModel>,
        Seq<char>,
    >;

    spec fn spec_variables(&self, app: AppModel, env: EnvironmentModel) -> Result<
        Option<VarsModel>,
        Seq<char>,
    >;

    fn name(&self) -> (r: &str)
        ensures
            r@ == self.spec_name(),
    ;

    fn detect(&self, app: &App, env: &Environment) -> (r: Result<bool, ProviderError>)
        ensures
            detect_view(r) == self.spec_detect(app@, env@),
    ;

    fn setup(&self, app: &App, env: &Environment) -> (r: Result<Option<SetupPhase>, ProviderError>)
        ensures
            phase_result_view(r) == self.spec_phase(Stage::Setup, app@, env@),
    ;

    fn install(&self, app: &App, env: &Environment) -> (r: Result<
        Option<InstallPhase>,
        ProviderError,
    >)
        ensures
            phase_result_view(r) == self.spec_phase(Stage::Install, app@, env@),
    ;

    fn build(&self, app: &App, env: &Environment) -> (r: Result<Option<BuildPhase>, ProviderError>)
        ensures
            phase_result_view(r) == self.spec_phase(Stage::Build, app@, env@),
    ;

    fn start(&self, app: &App, env: &Environment) -> (r: Result<Option<StartPhase>, ProviderError>)
        ensures
            phase_result_view(r) == self.spec_phase(Stage::Start, app@, env@),
    ;

    fn environment_variables(&self, app: &App, env: &Environment) -> (r: Result<
        Option<EnvironmentVariables>,
        ProviderError,
    >)
        ensures
            vars_result_view(r) == self.spec_variables(app@, env@),
            r matches Ok(Some(v)) ==> v.wf(),
    ;
}

/// Where a `ManifestProvider` takes a stage from.
pub enum PhaseSource {
    /// A phase given in full.
    Fixed(Phase),
    /// A script in the project: its contents are the stage's one command,
    /// and the stage is absent where the project has no such file.
    Script(String),
}

/// The stage that `source` gives for the project `app`.
pub open spec fn source_phase(source: Option<PhaseSource>, app: AppModel) -> Result<
    Option<PhaseModel>,
    Seq<char>,
> {
    match source {
        None => Ok(None),
        Some(PhaseSource::Fixed(p)) => Ok(Some(p@)),
        Some(PhaseSource::Script(path)) => match lookup(app, path@) {
            None => Ok(None),
            Some(Some(c)) => Ok(Some(PhaseModel { commands: seq![c], dependencies: Seq::empty() })),
            Some(None) => Err(path@),
        },
    }
}

/// Reading manifests from index `i` on: true at the first that is there,
/// an error at the first that cannot be read.
pub open spec fn scan_manifests(app: AppModel, manifests: Seq<Seq<char>>, i: int) -> Result<
    bool,
    Seq<char>,
>
    decreases manifests.len() - i,
{
    if 0 <= i < manifests.len() {
        match lookup(app, manifests[i]) {
            None => scan_manifests(app, manifests, i + 1),
            Some(Some(_)) => Ok(true),
            Some(None) => Err(manifests[i]),
        }
    } else {
        Ok(false)
    }
}

/// A provider given as data: it claims a project in which it can read any of
/// its manifest files, and contributes its stages and variables.
pub struct ManifestProvider {
    name: String,
    manifests: Vec<String>,
    setup: Option<PhaseSource>,
    install: Option<PhaseSource>,
    build: Option<PhaseSource>,
    start: Option<PhaseSource>,
    variables: Option<EnvironmentVariables>,
}

/// The stage that `source` gives for `app`.
fn produce(source: &Option<PhaseSource>, app: &App) -> (r: Result<Option<Phase>, ProviderError>)
    ensures
        phase_result_view(r) == source_phase(*source, app@),
{
    match source {
        None => Ok(None),
        Some(PhaseSource::Fixed(p)) => Ok(Some(p.duplicate())),
        Some(PhaseSource::Script(path)) => match app.read_file(path.as_str()) {
            Ok(None) => Ok(None),
            Ok(Some(c)) => {
                let phase = Phase::new(vec![c], Vec::new());
                assert(phase@.commands =~= seq![c@]);
                assert(phase@.dependencies =~= Seq::<Seq<char>>::empty());
                Ok(Some(phase))
            },
            Err(e) => Err(e),
        },
    }
}

impl ManifestProvider {
    #[verifier::type_invariant]
    spec fn inv(&self) -> bool {
        self.variables matches Some(v) ==> v.wf()
    }

    /// The manifests this provider looks for.
    pub closed spec fn spec_manifests(&self) -> Seq<Seq<char>> {
        self.manifests.deep_view()
    }

    /// Where this provider takes `stage` from.
    pub closed spec fn spec_source(&self, stage: Stage) -> Option<PhaseSource> {
        match stage {
            Stage::Setup => self.setup,
            Stage::Install => self.install,
            Stage::Build => self.build,
            Stage::Start => self.start,
            Stage::Variables => None,
        }
    }

    pub closed spec fn spec_vars(&self) -> Option<VarsModel> {
        match self.variables {
            Some(v) => Some(v@),
            None => None,
        }
    }

    /// A provider named `name` that looks for `manifests` and contributes nothing yet.
    pub fn new(name: String, manifests: Vec<String>) -> (r: ManifestProvider)
        ensures
            r.spec_name() == name@,
            r.spec_manifests() == manifests.deep_view(),
            forall|s: Stage| r.spec_source(s) is None,
            r.spec_vars() is None,
    {
        ManifestProvider {
            name,
            manifests,
            setup: None,
            install: None,
            build: None,
            start: None,
            variables: None,
        }
    }

    /// The same provider, taking `stage` (one of the four phases) from `source`.
    pub fn with_source(self, stage: Stage, source: PhaseSource) -> (r: ManifestProvider)
        requires
            stage != Stage::Variables,
        ensures
            r.spec_name() == self.spec_name(),
            r.spec_manifests() == self.spec_manifests(),
            r.spec_source(stage) == Some(source),
            forall|s: Stage| s != stage ==> r.spec_source(s) == self.spec_source(s),
            r.spec_vars() == self.spec_vars(),
    {
        proof {
            use_type_invariant(&self);
        }
        let mut r = self;
        match stage {
            Stage::Setup => r.setup = Some(source),
            Stage::Install => r.install = Some(source),
            Stage::Build => r.build = Some(source),
            _ => r.start = Some(source),
        }
        r
    }

    /// The same provider, contributing `phase` to `stage` (one of the four phases).
    pub fn with_phase(self, stage: Stage, phase: Phase) -> (r: ManifestProvider)
        requires
            stage != Stage::Variables,
        ensures
            r.spec_name() == self.spec_name(),
            r.spec_manifests() == self.spec_manifests(),
            r.spec_source(stage) == Some(PhaseSource::Fixed(phase)),
            forall|s: Stage| s != stage ==> r.spec_source(s) == self.spec_source(s),
            r.spec_vars() == self.spec_vars(),
    {
        self.with_source(stage, PhaseSource::Fixed(phase))
    }

    /// The same provider, contributing `variables`.
    pub fn with_variables(self, variables: EnvironmentVariables) -> (r: ManifestProvider)
        requires
            variables.wf(),
        ensures
            r.spec_name() == self.spec_name(),
            r.spec_manifests() == self.spec_manifests(),
            forall|s: Stage| r.spec_source(s) == self.spec_source(s),
            r.spec_vars() == Some(variables@),
    {
        let mut r = self;
        r.variables = Some(variables);
        r
    }
}

impl Provider for ManifestProvider {
    closed spec fn spec_name(&self) -> Seq<char> {
        self.name@
    }

    open spec fn spec_detect(&self, app: AppModel, env: EnvironmentModel) -> Result<
        bool,
        Seq<char>,
    > {
        scan_manifests(app, self.spec_manifests(), 0)
    }

    open spec fn spec_phase(&self, stage: Stage, app: AppModel, env: EnvironmentModel) -> Result<
        Option<PhaseModel>,
        Seq<char>,
    > {
        source_phase(self.spec_source(stage), app)
    }

    open spec fn spec_variables(&self, app: AppModel, env: EnvironmentModel) -> Result<
        Option<VarsModel>,
        Seq<char>,
    > {
        Ok(self.spec_vars())
    }

    fn name(&self) -> (r: &str) {
        self.name.as_str()
    }

    fn detect(&self, app: &App, env: &Environment) -> (r: Result<bool, ProviderError>) {
        let ghost ms = self.manifests.deep_view();
        let mut i: usize = 0;
        while i < self.manifests.len()
            invariant
                i <= self.manifests.len(),
                ms == self.manifests.deep_view(),
                scan_manifests(app@, ms, 0) == scan_manifests(app@, ms, i as int),
            decreases self.manifests.len() - i,
        {
            match app.read_file(self.manifests[i].as_str()) {
                Ok(None) => {},
                Ok(Some(_)) => return Ok(true),
                Err(e) => return Err(e),
            }
            i = i + 1;
        }
        Ok(false)
    }

    fn setup(&self, app: &App, env: &Environment) -> (r: Result<Option<SetupPhase>, ProviderError>) {
        produce(&self.setup, app)
    }

    fn install(&self, app: &App, env: &Environment) -> (r: Result<
        Option<InstallPhase>,
        ProviderError,
    >) {
        produce(&self.install, app)
    }

    fn build(&self, app: &App, env: &Environment) -> (r: Result<Option<BuildPhase>, ProviderError>) {
        produce(&self.build, app)
    }

    fn start(&self, app: &App, env: &Environment) -> (r: Result<Option<StartPhase>, ProviderError>) {
        produce(&self.start, app)
    }

    fn environment_variables(&self, app: &App, env: &Environment) -> (r: Result<
        Option<EnvironmentVariables>,
        ProviderError,
    >) {
        proof {
            use_type_invariant(self);
        }
        match &self.variables {
            Some(v) => Ok(Some(v.duplicate())),
            None => Ok(None),
        }
    }
}

} // verus!
