use atlas::lifecycle::{LifecycleError, Phase, PhaseRun};
use atlas::module::{Migration, ModuleDescriptor};
use atlas::registry::{core_module_order, ModuleRegistry};

fn named(name: &str) -> ModuleDescriptor {
    ModuleDescriptor::new(name)
}

/// Runs a phase, with the calls of the modules in `failing` failing, and
/// returns the positions that were called and how the phase ended.
fn drive(mut run: PhaseRun, failing: &[usize]) -> (Vec<usize>, Result<(), LifecycleError>) {
    let mut called = Vec::new();
    while let Some(position) = run.next() {
        called.push(position);
        let outcome = if failing.contains(&position) {
            Err(format!("module {} refused", position))
        } else {
            Ok(())
        };
        if let Err(error) = run.record(outcome) {
            return (called, Err(error));
        }
    }
    (called, Ok(()))
}

#[test]
fn test_module_registry_creation() {
    let registry = ModuleRegistry::new();
    assert!(registry.modules().is_empty()); // No modules registered yet
}

#[test]
fn test_migration_collection() {
    let registry = ModuleRegistry::new();
    let migrations = registry.collect_migrations();
    assert!(migrations.is_empty()); // No modules registered yet
}

#[test]
fn test_module_lifecycle() {
    let mut registry = ModuleRegistry::new();

    // Register a test module
    registry.register_custom(
        named("test").with_migration(Migration { id: "001_init", up: "CREATE TABLE test;" }),
    );

    // These should not fail with the test module
    drive(registry.init_core_modules(), &[]).1.unwrap();
    drive(registry.init_custom_modules(), &[]).1.unwrap();
    drive(registry.start_core_modules(), &[]).1.unwrap();
    drive(registry.start_custom_modules(), &[]).1.unwrap();
    drive(registry.stop_custom_modules(), &[]).1.unwrap();
    drive(registry.stop_core_modules(), &[]).1.unwrap();
}

#[test]
fn empty_registry_has_nothing_to_list_count_or_run() {
    let registry = ModuleRegistry::default();
    assert_eq!(registry.core_module_count(), 0);
    assert_eq!(registry.custom_module_count(), 0);
    assert!(registry.get_module("kernel").is_none());
    assert_eq!(drive(registry.init_core_modules(), &[]).0, Vec::<usize>::new());
    assert_eq!(drive(registry.stop_custom_modules(), &[]).0, Vec::<usize>::new());
    assert!(registry.init_custom_modules().is_complete());
}

#[test]
fn modules_lists_core_before_custom_whatever_the_interleaving() {
    let mut registry = ModuleRegistry::new();
    registry.register_custom(named("books"));
    registry.register_core(named("db"));
    registry.register_custom(named("users"));
    registry.register_core(named("kernel"));
    let names: Vec<&str> = registry.modules().iter().map(|m| m.name.as_str()).collect();
    assert_eq!(names, vec!["db", "kernel", "books", "users"]);
    assert_eq!(registry.core_module_count(), 2);
    assert_eq!(registry.custom_module_count(), 2);
}

#[test]
fn get_module_searches_core_then_custom_and_takes_the_first() {
    let mut registry = ModuleRegistry::new();
    registry.register_custom(named("shared").with_route("/custom", "h"));
    registry.register_core(named("db"));
    registry.register_core(named("shared").with_route("/core-first", "h"));
    registry.register_core(named("shared").with_route("/core-second", "h"));
    let found = registry.get_module("shared").unwrap();
    assert_eq!(found.routes[0].path, "/core-first");
    assert_eq!(registry.get_module("db").unwrap().name, "db");
    assert!(registry.get_module("missing").is_none());
    assert!(registry.get_module("").is_none());
    assert!(registry.get_module("sharedx").is_none());
}

#[test]
fn the_fixed_order_of_core_modules() {
    assert_eq!(core_module_order(), vec!["kernel", "telemetry", "db", "authz", "events"]);
}

#[test]
fn core_phases_follow_the_fixed_order_not_the_registration_order() {
    let mut registry = ModuleRegistry::new();
    registry.register_core(named("events")); // 0
    registry.register_core(named("off-policy")); // 1
    registry.register_core(named("db")); // 2
    registry.register_core(named("kernel")); // 3
    registry.register_core(named("db")); // 4: shadowed by 2
    let (init, ended) = drive(registry.init_core_modules(), &[]);
    assert!(ended.is_ok());
    // kernel, (telemetry is not registered), db, (authz is not registered), events
    assert_eq!(init, vec![3, 2, 0]);
    assert_eq!(drive(registry.start_core_modules(), &[]).0, vec![3, 2, 0]);
    assert_eq!(drive(registry.stop_core_modules(), &[]).0, vec![0, 2, 3]);
}

#[test]
fn a_policy_can_be_substituted() {
    let mut registry = ModuleRegistry::new();
    registry.register_core(named("a"));
    registry.register_core(named("b"));
    registry.register_core(named("c"));
    assert_eq!(registry.plan_for_policy(&vec!["c", "x", "a"]), vec![2, 0]);
    assert_eq!(registry.plan_for_policy(&vec![]), Vec::<usize>::new());
    assert_eq!(registry.plan_for_policy(&vec!["b", "b"]), vec![1, 1]);
}

#[test]
fn custom_phases_follow_registration_order_and_stop_in_reverse() {
    let mut registry = ModuleRegistry::new();
    registry.register_custom(named("one"));
    registry.register_custom(named("two"));
    registry.register_custom(named("three"));
    assert_eq!(drive(registry.init_custom_modules(), &[]).0, vec![0, 1, 2]);
    assert_eq!(drive(registry.start_custom_modules(), &[]).0, vec![0, 1, 2]);
    assert_eq!(drive(registry.stop_custom_modules(), &[]).0, vec![2, 1, 0]);
}

#[test]
fn a_failing_module_ends_the_phase_and_is_named() {
    let mut registry = ModuleRegistry::new();
    registry.register_custom(named("one"));
    registry.register_custom(named("two"));
    registry.register_custom(named("three"));
    let mut run = registry.init_custom_modules();
    assert_eq!(run.current_phase(), Phase::InitCustom);
    assert_eq!(run.next(), Some(0));
    assert_eq!(run.next_name(), Some("one"));
    assert!(run.record(Ok(())).is_ok());
    assert_eq!(run.next(), Some(1));
    let error = run.record(Err("no disk".to_string())).unwrap_err();
    assert_eq!(error.module_name, "two");
    assert_eq!(error.phase, Phase::InitCustom);
    assert_eq!(error.cause, "no disk");
    assert_eq!(error.context(), "failed to initialize custom module 'two'");
    assert_eq!(error.message(), "failed to initialize custom module 'two': no disk");
    // `three` is never asked for, whatever is reported afterwards
    assert_eq!(run.next(), None);
    assert_eq!(run.next_name(), None);
    assert!(!run.is_complete());
    assert!(run.record(Ok(())).is_ok());
    assert_eq!(run.next(), None);
    assert!(!run.is_complete());

    let (called, ended) = drive(registry.stop_custom_modules(), &[1]);
    assert_eq!(called, vec![2, 1]);
    assert_eq!(ended.unwrap_err().context(), "failed to stop custom module 'two'");
}

#[test]
fn a_completed_run_ignores_further_outcomes() {
    let mut registry = ModuleRegistry::new();
    registry.register_custom(named("only"));
    let mut run = registry.start_custom_modules();
    assert!(!run.is_complete());
    assert!(run.record(Ok(())).is_ok());
    assert!(run.is_complete());
    assert!(run.record(Err("late".to_string())).is_ok());
    assert!(run.is_complete());
    assert_eq!(run.next(), None);
}

#[test]
fn every_phase_words_its_failure() {
    let mut registry = ModuleRegistry::new();
    registry.register_core(named("db"));
    registry.register_custom(named("books"));
    let cases = vec![
        (registry.init_core_modules(), "failed to initialize core module 'db'"),
        (registry.init_custom_modules(), "failed to initialize custom module 'books'"),
        (registry.start_core_modules(), "failed to start core module 'db'"),
        (registry.start_custom_modules(), "failed to start custom module 'books'"),
        (registry.stop_custom_modules(), "failed to stop custom module 'books'"),
        (registry.stop_core_modules(), "failed to stop core module 'db'"),
    ];
    for (mut run, context) in cases {
        let phase = run.current_phase();
        assert_eq!(phase.is_core(), context.contains("core"));
        let error = run.record(Err("why".to_string())).unwrap_err();
        assert_eq!(error.phase, phase);
        assert_eq!(error.context(), context);
    }
}

#[test]
fn migrations_sort_by_module_name_whatever_the_registration_order() {
    let mut registry = ModuleRegistry::new();
    registry.register_custom(named("zeta").with_migration(Migration { id: "001", up: "Z" }));
    registry.register_custom(named("alpha").with_migration(Migration { id: "001", up: "A" }));
    let migrations = registry.collect_migrations();
    let names: Vec<&str> = migrations.iter().map(|(name, _)| name.as_str()).collect();
    assert_eq!(names, vec!["alpha", "zeta"]);
    assert_eq!(migrations[0].1.up, "A");

    let mut swapped = ModuleRegistry::new();
    swapped.register_custom(named("alpha").with_migration(Migration { id: "001", up: "A" }));
    swapped.register_custom(named("zeta").with_migration(Migration { id: "001", up: "Z" }));
    let same: Vec<(String, &str, &str)> =
        swapped.collect_migrations().into_iter().map(|(n, m)| (n, m.id, m.up)).collect();
    let first: Vec<(String, &str, &str)> =
        migrations.into_iter().map(|(n, m)| (n, m.id, m.up)).collect();
    assert_eq!(first, same);
}

#[test]
fn migrations_sort_by_id_within_a_module_and_core_does_not_come_first() {
    let mut registry = ModuleRegistry::new();
    registry.register_custom(
        named("books")
            .with_migration(Migration { id: "002_index", up: "b2" })
            .with_migration(Migration { id: "001_init", up: "b1" })
            .with_migration(Migration { id: "010_late", up: "b10" }),
    );
    registry.register_core(named("db").with_migration(Migration { id: "001_init", up: "d1" }));
    registry.register_core(named("authz").with_migration(Migration { id: "9", up: "a9" }));
    registry.register_custom(named("Books").with_migration(Migration { id: "zzz", up: "B" }));
    let order: Vec<(String, &str)> =
        registry.collect_migrations().into_iter().map(|(n, m)| (n, m.up)).collect();
    let expected = vec![
        ("Books".to_string(), "B"),
        ("authz".to_string(), "a9"),
        ("books".to_string(), "b1"),
        ("books".to_string(), "b2"),
        ("books".to_string(), "b10"),
        ("db".to_string(), "d1"),
    ];
    assert_eq!(order, expected);
}

#[test]
fn migrations_of_one_name_and_id_keep_the_order_of_collection() {
    let mut registry = ModuleRegistry::new();
    registry.register_custom(
        named("twin")
            .with_migration(Migration { id: "001", up: "custom first" })
            .with_migration(Migration { id: "001", up: "custom second" }),
    );
    registry.register_core(named("twin").with_migration(Migration { id: "001", up: "core" }));
    registry.register_custom(named("twin").with_migration(Migration { id: "000", up: "early" }));
    let scripts: Vec<&str> = registry.collect_migrations().iter().map(|(_, m)| m.up).collect();
    assert_eq!(scripts, vec!["early", "core", "custom first", "custom second"]);
}

#[test]
fn a_name_that_begins_another_comes_first() {
    let mut registry = ModuleRegistry::new();
    registry.register_custom(named("ab").with_migration(Migration { id: "1", up: "ab" }));
    registry.register_custom(named("a").with_migration(Migration { id: "2", up: "a" }));
    registry.register_custom(named("").with_migration(Migration { id: "3", up: "empty" }));
    registry.register_custom(named("é").with_migration(Migration { id: "0", up: "accent" }));
    let scripts: Vec<&str> = registry.collect_migrations().iter().map(|(_, m)| m.up).collect();
    assert_eq!(scripts, vec!["empty", "a", "ab", "accent"]);
}

#[test]
fn names_are_distinct_looks_at_core_and_custom_together() {
    let mut registry = ModuleRegistry::new();
    assert!(registry.names_are_distinct());
    registry.register_core(named("db"));
    registry.register_custom(named("books"));
    registry.register_custom(named("Books"));
    assert!(registry.names_are_distinct());
    registry.register_custom(named("db"));
    assert!(!registry.names_are_distinct());
}

#[test]
fn of_two_core_modules_the_one_earlier_in_the_fixed_order_is_called_first() {
    // telemetry stands before events in the fixed order
    for events_first in [true, false] {
        let mut registry = ModuleRegistry::new();
        if events_first {
            registry.register_core(named("events"));
            registry.register_core(named("telemetry"));
        } else {
            registry.register_core(named("telemetry"));
            registry.register_core(named("events"));
        }
        let telemetry = if events_first { 1 } else { 0 };
        let events = 1 - telemetry;
        assert_eq!(drive(registry.init_core_modules(), &[]).0, vec![telemetry, events]);
        assert_eq!(drive(registry.start_core_modules(), &[]).0, vec![telemetry, events]);
        assert_eq!(drive(registry.stop_core_modules(), &[]).0, vec![events, telemetry]);
    }
}
