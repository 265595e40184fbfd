use scaffolder::create::{create, Action, Config, Layout};
use scaffolder::engine::Engine;
use scaffolder::models::Property;
use scaffolder::properties::PropertyMap;

fn small_config() -> Config {
    let mut properties = PropertyMap::new();
    properties.insert(String::from("price"), Property::Number);
    Config::new(
        String::from("Product"),
        String::from("Products"),
        String::from("products"),
        String::from("productos"),
        String::from("fa-box"),
        properties,
    )
}

#[test]
fn engine_issues_all_actions_in_order_on_success() {
    let plan = create(&small_config(), Layout::Flat);
    let total = plan.len();
    let mut engine = Engine::new(plan);
    let mut issued = 0usize;
    while let Some(_action) = engine.current() {
        engine.report(true);
        issued += 1;
    }
    assert_eq!(issued, total);
    assert!(engine.done());
    assert!(engine.failed.is_none());
}

#[test]
fn first_failure_is_fatal_and_names_the_path() {
    // Fail the second step (the service directory) and check that nothing
    // after it is ever issued.
    let plan = create(&small_config(), Layout::Flat);
    let mut engine = Engine::new(plan);

    let first = engine.current().expect("a first action");
    assert!(matches!(first, Action::MakeDir(_)));
    engine.report(true);

    let second = engine.current().expect("a second action");
    match second {
        Action::MakeDir(p) => assert_eq!(p, "./src/app/services/http/products"),
        other => panic!("expected a directory, got {other:?}"),
    }
    engine.report(false);

    // No subsequent action is issued, and the failure names the path.
    assert!(engine.current().is_none());
    assert!(!engine.done());
    assert_eq!(
        engine.failed.as_deref(),
        Some("./src/app/services/http/products")
    );
}

#[test]
fn failed_patch_names_the_registry_path() {
    let plan = create(&small_config(), Layout::Flat);
    let patch_at = plan
        .iter()
        .position(|a| matches!(a, Action::Patch(..)))
        .unwrap();
    let mut engine = Engine::new(plan);
    for _ in 0..patch_at {
        assert!(engine.current().is_some());
        engine.report(true);
    }
    assert!(matches!(engine.current(), Some(Action::Patch(..))));
    engine.report(false);
    assert!(engine.current().is_none());
    assert_eq!(engine.failed.as_deref(), Some("./src/app/_nav.ts"));
}
