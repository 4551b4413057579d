use alcom::environment::{
    ChangesInfoHolder, EnvironmentHolder, EnvironmentStep, UpdateRepositoryMode,
    OUTDATED_NANOS, RELOAD_INTERVAL_NANOS,
};

const T0: u64 = 1_000_000_000_000;

fn loaded_holder() -> EnvironmentHolder<String> {
    let mut holder = EnvironmentHolder::new();
    assert_eq!(holder.begin(T0), EnvironmentStep::Load);
    holder.loaded("env".to_string(), T0);
    holder
}

#[test]
fn empty_holder_loads() {
    let holder: EnvironmentHolder<String> = EnvironmentHolder::new();
    assert_eq!(holder.begin(0), EnvironmentStep::Load);
    assert_eq!(holder.environment_version(), 0);
}

#[test]
fn settings_fresh_for_one_second() {
    let holder = loaded_holder();
    assert_eq!(holder.begin(T0), EnvironmentStep::Ready);
    assert_eq!(holder.begin(T0 + RELOAD_INTERVAL_NANOS - 1), EnvironmentStep::Ready);
    assert_eq!(holder.begin(T0 + RELOAD_INTERVAL_NANOS), EnvironmentStep::Reload);
    // a clock reading before the load counts as no time gone by
    assert_eq!(holder.begin(T0 - 5), EnvironmentStep::Ready);
}

#[test]
fn reload_resets_the_clock() {
    let mut holder = loaded_holder();
    let later = T0 + 3 * RELOAD_INTERVAL_NANOS;
    assert_eq!(holder.begin(later), EnvironmentStep::Reload);
    holder.reloaded(later);
    assert_eq!(holder.begin(later + 10), EnvironmentStep::Ready);
}

#[test]
fn first_load_updates_repositories() {
    let mut holder = loaded_holder();
    assert!(holder.begin_repository_update(UpdateRepositoryMode::IfOutdatedOrNecessary, T0));
    assert_eq!(holder.environment_version(), 1);

    let mut forced = loaded_holder();
    assert!(forced.begin_repository_update(UpdateRepositoryMode::Force, T0));
    assert_eq!(forced.environment_version(), 1);

    let mut untouched = loaded_holder();
    assert!(!untouched.begin_repository_update(UpdateRepositoryMode::NoUpdate, T0));
    assert_eq!(untouched.environment_version(), 0);
}

#[test]
fn repositories_outdated_after_five_minutes() {
    let mut holder = loaded_holder();
    assert!(holder.begin_repository_update(UpdateRepositoryMode::IfOutdatedOrNecessary, T0));
    let mode = || UpdateRepositoryMode::IfOutdatedOrNecessary;
    assert!(!holder.begin_repository_update(mode(), T0 + OUTDATED_NANOS));
    assert_eq!(holder.environment_version(), 1);
    assert!(holder.begin_repository_update(mode(), T0 + OUTDATED_NANOS + 1));
    assert_eq!(holder.environment_version(), 2);
    assert!(holder.begin_repository_update(UpdateRepositoryMode::Force, T0 + OUTDATED_NANOS + 2));
    assert_eq!(holder.environment_version(), 3);
}

#[test]
fn environment_mut_gives_the_loaded_environment() {
    let mut empty: EnvironmentHolder<String> = EnvironmentHolder::new();
    assert!(empty.environment_mut().is_none());
    let mut holder = loaded_holder();
    holder.environment_mut().unwrap().push_str("-changed");
    assert_eq!(holder.environment_mut().unwrap().as_str(), "env-changed");
}

#[test]
fn take_returns_last_update() {
    let mut holder: ChangesInfoHolder<&str> = ChangesInfoHolder::new();
    assert!(holder.take().is_none());
    holder.update(3, 7, "first");
    holder.update(4, 8, "second");
    let info = holder.take().unwrap();
    assert_eq!(info.environment_version, 4);
    assert_eq!(info.changes_version, 8);
    assert_eq!(info.changes, "second");
    assert!(holder.take().is_none());
}
