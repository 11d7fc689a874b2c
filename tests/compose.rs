use nixpacks::app::App;
use nixpacks::environment::{Environment, EnvironmentVariables};
use nixpacks::phase::{Phase, Stage};
use nixpacks::plan::{compose, BuildPlan, PlanError};
use nixpacks::providers::{ManifestProvider, PhaseSource, Provider};
use nixpacks::registry::Registry;

fn strings(items: &[&str]) -> Vec<String> {
    items.iter().map(|s| s.to_string()).collect()
}

fn provider(name: &str, manifests: &[&str]) -> ManifestProvider {
    ManifestProvider::new(name.to_string(), strings(manifests))
}

fn phase(commands: &[&str]) -> Phase {
    Phase::new(strings(commands), Vec::new())
}

fn app_with(files: &[(&str, &str)]) -> App {
    let mut app = App::new();
    for (path, contents) in files {
        app.add_file(path.to_string(), contents.to_string());
    }
    app
}

fn registry_of(providers: Vec<ManifestProvider>) -> Registry<ManifestProvider> {
    let mut registry = Registry::new();
    for p in providers {
        assert!(registry.push(p));
    }
    registry
}

fn ecosystems() -> Registry<ManifestProvider> {
    let mut vars = EnvironmentVariables::new();
    vars.insert("PYTHONUNBUFFERED".to_string(), "1".to_string());
    let python = provider("python", &["requirements.txt", "pyproject.toml"])
        .with_phase(Stage::Setup, Phase::new(strings(&["echo setup"]), strings(&["python3"])))
        .with_phase(Stage::Install, phase(&["pip install -r requirements.txt"]))
        .with_phase(Stage::Start, phase(&["python main.py"]))
        .with_variables(vars);
    registry_of(vec![
        provider("deno", &["deno.json"]).with_phase(Stage::Start, phase(&["deno run main.ts"])),
        provider("go", &["go.mod"]).with_phase(Stage::Build, phase(&["go build"])),
        provider("npm", &["package.json"]).with_phase(Stage::Install, phase(&["npm install"])),
        python,
        provider("rust", &["Cargo.toml"]).with_phase(Stage::Build, phase(&["cargo build"])),
        provider("yarn", &["yarn.lock"]).with_phase(Stage::Install, phase(&["yarn install"])),
    ])
}

fn commands(p: &Option<Phase>) -> Option<Vec<String>> {
    p.as_ref().map(|p| p.commands().clone())
}

fn plan_of(r: Result<BuildPlan, PlanError>) -> BuildPlan {
    match r {
        Ok(plan) => plan,
        Err(_) => panic!("expected a plan"),
    }
}

#[test]
fn python_project_selects_python() {
    let registry = ecosystems();
    let app = app_with(&[("requirements.txt", "flask\n"), ("main.py", "print(1)\n")]);
    let mut env = Environment::new();
    env.set_variable("PORT".to_string(), "8080".to_string());
    let plan = plan_of(compose(&registry, &app, &env));
    assert_eq!(plan.provider(), "python");
    assert_eq!(commands(plan.install()), Some(strings(&["pip install -r requirements.txt"])));
    assert_eq!(commands(plan.setup()), Some(strings(&["echo setup"])));
    assert_eq!(plan.setup().as_ref().unwrap().dependencies(), &strings(&["python3"]));
    assert!(plan.build().is_none());
    assert_eq!(commands(plan.start()), Some(strings(&["python main.py"])));
    let pairs = plan.variables().pairs().clone();
    assert_eq!(
        pairs,
        vec![
            ("PYTHONUNBUFFERED".to_string(), "1".to_string()),
            ("PORT".to_string(), "8080".to_string()),
        ]
    );
}

#[test]
fn compose_is_deterministic() {
    let registry = ecosystems();
    let app = app_with(&[("go.mod", "module x\n")]);
    let mut env = Environment::new();
    env.set_variable("A".to_string(), "b".to_string());
    let first = plan_of(compose(&registry, &app, &env));
    let second = plan_of(compose(&registry, &app, &env));
    assert_eq!(first.provider(), second.provider());
    assert_eq!(first.provider(), "go");
    assert_eq!(commands(first.build()), commands(second.build()));
    assert_eq!(commands(first.setup()), commands(second.setup()));
    assert_eq!(first.variables().pairs(), second.variables().pairs());
}

#[test]
fn first_match_wins() {
    let registry = registry_of(vec![provider("a", &["shared.txt"]), provider("b", &["shared.txt"])]);
    let app = app_with(&[("shared.txt", "")]);
    let plan = plan_of(compose(&registry, &app, &Environment::new()));
    assert_eq!(plan.provider(), "a");
}

#[test]
fn override_bypasses_detection() {
    let registry = registry_of(vec![
        provider("a", &["a.txt"]),
        provider("b", &["b.txt"]).with_phase(Stage::Start, phase(&["run b"])),
    ]);
    let app = app_with(&[("a.txt", "")]);
    let mut env = Environment::new();
    env.set_provider("b".to_string());
    let plan = plan_of(compose(&registry, &app, &env));
    assert_eq!(plan.provider(), "b");
    assert_eq!(commands(plan.start()), Some(strings(&["run b"])));
}

#[test]
fn unknown_override_fails() {
    let registry = ecosystems();
    let app = app_with(&[("requirements.txt", "")]);
    let mut env = Environment::new();
    env.set_provider("cobol".to_string());
    match compose(&registry, &app, &env) {
        Err(PlanError::UnknownProvider { name }) => assert_eq!(name, "cobol"),
        _ => panic!("expected UnknownProvider"),
    }
}

#[test]
fn no_match_fails() {
    let registry = ecosystems();
    let app = app_with(&[("README.md", "hello")]);
    match compose(&registry, &app, &Environment::new()) {
        Err(PlanError::NoProviderDetected { tried }) => {
            assert_eq!(tried, strings(&["deno", "go", "npm", "python", "rust", "yarn"]))
        }
        _ => panic!("expected NoProviderDetected"),
    }
}

#[test]
fn empty_registry_detects_nothing() {
    let registry: Registry<ManifestProvider> = Registry::new();
    match compose(&registry, &App::new(), &Environment::new()) {
        Err(PlanError::NoProviderDetected { tried }) => assert!(tried.is_empty()),
        _ => panic!("expected NoProviderDetected"),
    }
}

#[test]
fn build_and_start_only() {
    let registry = registry_of(vec![provider("static", &["index.html"])
        .with_phase(Stage::Build, phase(&["make site"]))
        .with_phase(Stage::Start, phase(&["serve site"]))]);
    let app = app_with(&[("index.html", "<p>")]);
    let plan = plan_of(compose(&registry, &app, &Environment::new()));
    assert!(plan.setup().is_none());
    assert!(plan.install().is_none());
    assert_eq!(commands(plan.build()), Some(strings(&["make site"])));
    assert_eq!(commands(plan.start()), Some(strings(&["serve site"])));
    assert_eq!(plan.variables().len(), 0);
}

#[test]
fn provider_with_nothing_gives_empty_plan() {
    let registry = registry_of(vec![provider("bare", &["x"])]);
    let plan = plan_of(compose(&registry, &app_with(&[("x", "")]), &Environment::new()));
    assert_eq!(plan.provider(), "bare");
    assert!(plan.setup().is_none());
    assert!(plan.install().is_none());
    assert!(plan.build().is_none());
    assert!(plan.start().is_none());
    assert_eq!(plan.variables().len(), 0);
}

#[test]
fn environment_overrides_provider_variable() {
    let mut vars = EnvironmentVariables::new();
    vars.insert("PORT".to_string(), "3000".to_string());
    vars.insert("HOST".to_string(), "0.0.0.0".to_string());
    let registry = registry_of(vec![provider("web", &["web.toml"]).with_variables(vars)]);
    let mut env = Environment::new();
    env.set_variable("PORT".to_string(), "8080".to_string());
    let plan = plan_of(compose(&registry, &app_with(&[("web.toml", "")]), &env));
    assert_eq!(plan.variables().get("PORT"), Some("8080".to_string()));
    assert_eq!(plan.variables().get("HOST"), Some("0.0.0.0".to_string()));
    assert_eq!(
        plan.variables().pairs(),
        &vec![
            ("PORT".to_string(), "8080".to_string()),
            ("HOST".to_string(), "0.0.0.0".to_string()),
        ]
    );
}

#[test]
fn unreadable_manifest_is_a_detection_error() {
    let registry = registry_of(vec![provider("a", &["a.txt"]), provider("b", &["b.txt"])]);
    let mut app = app_with(&[("b.txt", "")]);
    app.add_unreadable("a.txt".to_string());
    match compose(&registry, &app, &Environment::new()) {
        Err(PlanError::Detection { provider, cause }) => {
            assert_eq!(provider, "a");
            assert_eq!(cause.message, "a.txt");
        }
        _ => panic!("expected Detection"),
    }
}

#[test]
fn failing_build_gives_no_plan() {
    let registry = registry_of(vec![provider("make", &["Makefile"])
        .with_phase(Stage::Setup, phase(&["apt install make"]))
        .with_phase(Stage::Install, phase(&["make deps"]))
        .with_source(Stage::Build, PhaseSource::Script("build.sh".to_string()))
        .with_phase(Stage::Start, phase(&["make run"]))]);
    let mut app = app_with(&[("Makefile", "all:")]);
    app.add_unreadable("build.sh".to_string());
    match compose(&registry, &app, &Environment::new()) {
        Err(PlanError::PhaseConstruction { provider, stage, cause }) => {
            assert_eq!(provider, "make");
            assert_eq!(stage, Stage::Build);
            assert_eq!(cause.message, "build.sh");
        }
        _ => panic!("expected PhaseConstruction"),
    }
}

#[test]
fn script_stage_reads_the_project() {
    let registry = registry_of(vec![provider("sh", &["run.sh"])
        .with_source(Stage::Build, PhaseSource::Script("build.sh".to_string()))
        .with_source(Stage::Start, PhaseSource::Script("run.sh".to_string()))]);
    let app = app_with(&[("run.sh", "./serve --port 80")]);
    let plan = plan_of(compose(&registry, &app, &Environment::new()));
    assert!(plan.build().is_none());
    assert_eq!(commands(plan.start()), Some(strings(&["./serve --port 80"])));
    assert!(plan.start().as_ref().unwrap().dependencies().is_empty());
}

#[test]
fn manifest_provider_answers() {
    let p = provider("py", &["setup.py", "requirements.txt"]);
    let env = Environment::new();
    assert_eq!(p.name(), "py");
    assert!(matches!(p.detect(&app_with(&[("requirements.txt", "")]), &env), Ok(true)));
    assert!(matches!(p.detect(&app_with(&[("other", "")]), &env), Ok(false)));
    assert!(matches!(p.setup(&App::new(), &env), Ok(None)));
    assert!(matches!(p.environment_variables(&App::new(), &env), Ok(None)));
}
