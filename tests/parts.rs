use nixpacks::app::App;
use nixpacks::environment::{Environment, EnvironmentVariables};
use nixpacks::providers::{ManifestProvider, Provider};
use nixpacks::registry::Registry;

#[test]
fn insert_replaces_in_place() {
    let mut vars = EnvironmentVariables::new();
    vars.insert("A".to_string(), "1".to_string());
    vars.insert("B".to_string(), "2".to_string());
    vars.insert("A".to_string(), "3".to_string());
    assert_eq!(vars.len(), 2);
    assert_eq!(
        vars.pairs(),
        &vec![("A".to_string(), "3".to_string()), ("B".to_string(), "2".to_string())]
    );
    assert_eq!(vars.get("A"), Some("3".to_string()));
    assert_eq!(vars.get("C"), None);
}

#[test]
fn overlay_writes_over_and_appends() {
    let mut base = EnvironmentVariables::new();
    base.insert("PORT".to_string(), "3000".to_string());
    base.insert("MODE".to_string(), "dev".to_string());
    let mut over = EnvironmentVariables::new();
    over.insert("EXTRA".to_string(), "x".to_string());
    over.insert("PORT".to_string(), "8080".to_string());
    base.overlay(&over);
    assert_eq!(
        base.pairs(),
        &vec![
            ("PORT".to_string(), "8080".to_string()),
            ("MODE".to_string(), "dev".to_string()),
            ("EXTRA".to_string(), "x".to_string()),
        ]
    );
    let copy = base.duplicate();
    assert_eq!(copy.pairs(), base.pairs());
}

#[test]
fn read_file_distinguishes_absent_and_unreadable() {
    let mut app = App::new();
    app.add_file("go.mod".to_string(), "module x".to_string());
    app.add_unreadable("secret".to_string());
    assert!(app.includes_file("go.mod"));
    assert!(app.includes_file("secret"));
    assert!(!app.includes_file("nothing"));
    assert!(matches!(app.read_file("go.mod"), Ok(Some(ref c)) if c == "module x"));
    assert!(matches!(app.read_file("nothing"), Ok(None)));
    match app.read_file("secret") {
        Err(e) => assert_eq!(e.message, "secret"),
        _ => panic!("expected an error"),
    }
    app.add_file("secret".to_string(), "now readable".to_string());
    assert!(matches!(app.read_file("secret"), Ok(Some(ref c)) if c == "now readable"));
    assert_eq!(app.paths(), vec!["go.mod".to_string(), "secret".to_string()]);
}

#[test]
fn registry_refuses_duplicate_names() {
    let mut registry = Registry::new();
    assert!(registry.push(ManifestProvider::new("a".to_string(), vec![])));
    assert!(registry.push(ManifestProvider::new("b".to_string(), vec![])));
    assert!(!registry.push(ManifestProvider::new("a".to_string(), vec!["x".to_string()])));
    assert_eq!(registry.len(), 2);
    assert_eq!(registry.names(), vec!["a".to_string(), "b".to_string()]);
    assert_eq!(registry.position("b"), Some(1));
    assert_eq!(registry.find_by_name("b").map(|p| p.name().to_string()), Some("b".to_string()));
    assert!(registry.find_by_name("c").is_none());
    assert_eq!(registry.all().len(), 2);
}

#[test]
fn environment_holds_choice_and_variables() {
    let mut env = Environment::new();
    assert!(env.provider().is_none());
    env.set_provider("rust".to_string());
    env.set_variable("K".to_string(), "v".to_string());
    assert_eq!(env.provider(), Some(&"rust".to_string()));
    assert_eq!(env.get_variable("K"), Some("v".to_string()));
    assert_eq!(env.get_variable("missing"), None);
    assert_eq!(env.variables().len(), 1);
}
