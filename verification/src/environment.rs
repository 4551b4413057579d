use vstd::prelude::*;

verus! {

/// How long after a load or reload of the settings files they count as fresh,
/// in nanoseconds: one second.
pub const RELOAD_INTERVAL_NANOS: u64 = 1_000_000_000;

/// How long after a load of the package infos of the repositories they count
/// as up to date, in nanoseconds: five minutes.
pub const OUTDATED_NANOS: u64 = 300_000_000_000;

/// The time gone from `since` to `now` on a monotonic clock, in nanoseconds;
/// zero when `now` is not later than `since`.
pub open spec fn elapsed(since: u64, now: u64) -> int {
    if since <= now {
        now - since
    } else {
        0
    }
}

/// The environment version after one more load of the package infos: it wraps
/// around at `u32::MAX`.
pub open spec fn next_version(v: u32) -> u32 {
    if v == u32::MAX {
        0
    } else {
        (v + 1) as u32
    }
}

/// Each load of the package infos counts one more version: the version grows
/// by exactly one, and wraps from `u32::MAX` to zero.
pub proof fn lemma_next_version_counts()
    ensures
        forall|v: u32| v < u32::MAX ==> #[trigger] next_version(v) == v + 1,
        next_version(u32::MAX) == 0,
        forall|v: u32| #[trigger] next_version(v) as int == (v as int + 1) % 0x1_0000_0000,
        forall|v: u32| #[trigger] next_version(v) != v,
{
}

/// When the package infos of the repositories are (re)loaded.
pub enum UpdateRepositoryMode {
    /// Never.
    NoUpdate,
    /// Always.
    Force,
    /// When they were never loaded, or were loaded more than five minutes ago.
    IfOutdatedOrNecessary,
}

/// What has to be done to the environment before it can be handed out.
#[derive(PartialEq, Eq, Structural, Debug, Clone, Copy)]
pub enum EnvironmentStep {
    /// No environment was loaded yet: load one.
    Load,
    /// The settings files were not reloaded within the last second: reload them.
    Reload,
    /// The environment can be used as it is.
    Ready,
}

/// The lazily loaded environment of the application, with the times of its
/// last settings reload and of its last package-info load, and a version that
/// counts the package-info loads.
///
/// Times are nanoseconds on a monotonic clock that the caller reads.
pub struct EnvironmentHolder<E> {
    environment: Option<E>,
    last_update: Option<u64>,
    environment_version: u32,
    last_repository_update: Option<u64>,
}

impl<E> EnvironmentHolder<E> {
    pub closed spec fn env(self) -> Option<E> {
        self.environment
    }

    pub closed spec fn last_update(self) -> Option<u64> {
        self.last_update
    }

    pub closed spec fn version(self) -> u32 {
        self.environment_version
    }

    pub closed spec fn last_repository_update(self) -> Option<u64> {
        self.last_repository_update
    }

    /// Before an environment is loaded nothing was reloaded or updated and the
    /// version is zero; once one is loaded, the time of its last load or reload
    /// is known.
    pub open spec fn wf(self) -> bool {
        &&& self.env() is None ==> {
            &&& self.last_update() is None
            &&& self.last_repository_update() is None
            &&& self.version() == 0
        }
        &&& self.env() is Some ==> self.last_update() is Some
    }

    /// The step that `begin` chooses at time `now`.
    pub open spec fn step_at(self, now: u64) -> EnvironmentStep {
        if self.env() is None {
            EnvironmentStep::Load
        } else if self.last_update() matches Some(t) && elapsed(t, now) < RELOAD_INTERVAL_NANOS {
            EnvironmentStep::Ready
        } else {
            EnvironmentStep::Reload
        }
    }

    /// Whether the package infos are to be loaded at time `now` in `mode`.
    pub open spec fn repository_update_due(self, mode: UpdateRepositoryMode, now: u64) -> bool {
        match mode {
            UpdateRepositoryMode::NoUpdate => false,
            UpdateRepositoryMode::Force => true,
            UpdateRepositoryMode::IfOutdatedOrNecessary => match self.last_repository_update() {
                Some(t) => elapsed(t, now) > OUTDATED_NANOS,
                None => true,
            },
        }
    }

    /// A holder with no environment loaded yet.
    pub fn new() -> (r: Self)
        ensures
            r.wf(),
            r.env() is None,
            r.last_update() is None,
            r.version() == 0,
            r.last_repository_update() is None,
    {
        EnvironmentHolder {
            environment: None,
            last_update: None,
            environment_version: 0,
            last_repository_update: None,
        }
    }

    /// The first step towards handing out the environment at time `now`: load
    /// it if there is none, reload its settings files unless that was done
    /// less than a second ago, or use it as it is.
    pub fn begin(&self, now: u64) -> (r: EnvironmentStep)
        ensures
            r == self.step_at(now),
    {
        match &self.environment {
            None => EnvironmentStep::Load,
            Some(_) => {
                let fresh = match self.last_update {
                    Some(t) => (if t <= now {
                        now - t
                    } else {
                        0
                    }) < RELOAD_INTERVAL_NANOS,
                    None => false,
                };
                if fresh {
                    EnvironmentStep::Ready
                } else {
                    EnvironmentStep::Reload
                }
            },
        }
    }

    /// Records an environment loaded at time `now`.
    pub fn loaded(&mut self, environment: E, now: u64)
        requires
            old(self).wf(),
            old(self).env() is None,
        ensures
            final(self).wf(),
            final(self).env() == Some(environment),
            final(self).last_update() == Some(now),
            final(self).version() == old(self).version(),
            final(self).last_repository_update() == old(self).last_repository_update(),
    {
        self.environment = Some(environment);
        self.last_update = Some(now);
    }

    /// Records that the settings files were reloaded at time `now`.
    pub fn reloaded(&mut self, now: u64)
        requires
            old(self).wf(),
            old(self).env() is Some,
        ensures
            final(self).wf(),
            final(self).env() == old(self).env(),
            final(self).last_update() == Some(now),
            final(self).version() == old(self).version(),
            final(self).last_repository_update() == old(self).last_repository_update(),
    {
        self.last_update = Some(now);
    }

    /// Decides at time `now` whether the package infos are to be loaded in
    /// `mode`; if so, records the update and counts one more version.
    pub fn begin_repository_update(&mut self, mode: UpdateRepositoryMode, now: u64) -> (r: bool)
        requires
            old(self).wf(),
            old(self).env() is Some,
        ensures
            final(self).wf(),
            r == old(self).repository_update_due(mode, now),
            final(self).env() == old(self).env(),
            final(self).last_update() == old(self).last_update(),
            r ==> final(self).last_repository_update() == Some(now),
            r ==> final(self).version() == next_version(old(self).version()),
            r ==> final(self).version() as int == (old(self).version() as int + 1) % 0x1_0000_0000,
            !r ==> final(self).last_repository_update() == old(self).last_repository_update(),
            !r ==> final(self).version() == old(self).version(),
    {
        proof {
            lemma_next_version_counts();
        }
        let due = match mode {
            UpdateRepositoryMode::NoUpdate => false,
            UpdateRepositoryMode::Force => true,
            UpdateRepositoryMode::IfOutdatedOrNecessary => match self.last_repository_update {
                Some(t) => (if t <= now {
                    now - t
                } else {
                    0
                }) > OUTDATED_NANOS,
                None => true,
            },
        };
        if due {
            self.last_repository_update = Some(now);
            self.environment_version = if self.environment_version == u32::MAX {
                0
            } else {
                self.environment_version + 1
            };
        }
        due
    }

    /// The loaded environment, to be used or changed in place.
    pub fn environment_mut(&mut self) -> (r: Option<&mut E>)
        ensures
            old(self).env() is None <==> r is None,
            r matches Some(e) ==> *e == old(self).env()->0,
            r matches Some(e) ==> final(self).env() == Some(*final(e)),
            r is None ==> final(self).env() is None,
            final(self).last_update() == old(self).last_update(),
            final(self).version() == old(self).version(),
            final(self).last_repository_update() == old(self).last_repository_update(),
    {
        self.environment.as_mut()
    }

    /// How many times the package infos were loaded, wrapping at `u32::MAX`.
    pub fn environment_version(&self) -> (r: u32)
        ensures
            r == self.version(),
    {
        self.environment_version
    }
}

/// Settings files that were loaded or reloaded less than a second ago are not
/// reloaded.
pub proof fn lemma_recent_reload_is_kept<E>(holder: EnvironmentHolder<E>, at: u64, now: u64)
    requires
        holder.env() is Some,
        holder.last_update() == Some(at),
        at <= now,
        now - at < RELOAD_INTERVAL_NANOS,
    ensures
        holder.step_at(now) == EnvironmentStep::Ready,
{
}

/// Settings files that were last loaded or reloaded a second ago or earlier
/// are reloaded, and an empty holder always loads.
pub proof fn lemma_stale_settings_are_reloaded<E>(holder: EnvironmentHolder<E>, at: u64, now: u64)
    requires
        holder.wf(),
        holder.env() is Some ==> holder.last_update() == Some(at),
        holder.env() is Some ==> at <= now && now - at >= RELOAD_INTERVAL_NANOS,
    ensures
        holder.env() is None ==> holder.step_at(now) == EnvironmentStep::Load,
        holder.env() is Some ==> holder.step_at(now) == EnvironmentStep::Reload,
{
}

/// Right after an environment is loaded into an empty holder, loading the
/// package infos is due in every mode but `NoUpdate`, and that load makes the
/// environment version 1.
pub proof fn lemma_first_load_updates_repositories<E>(
    empty: EnvironmentHolder<E>,
    loaded: EnvironmentHolder<E>,
    mode: UpdateRepositoryMode,
    now: u64,
)
    requires
        empty.wf(),
        empty.env() is None,
        loaded.last_repository_update() == empty.last_repository_update(),
        loaded.version() == empty.version(),
    ensures
        loaded.repository_update_due(mode, now) == !(mode is NoUpdate),
        next_version(loaded.version()) == 1,
{
}

/// `Force` always loads the package infos and `NoUpdate` never does;
/// `IfOutdatedOrNecessary` loads them again only once more than five minutes
/// have gone by since the last load.
pub proof fn lemma_repository_update_modes<E>(holder: EnvironmentHolder<E>, now: u64)
    ensures
        holder.repository_update_due(UpdateRepositoryMode::Force, now),
        !holder.repository_update_due(UpdateRepositoryMode::NoUpdate, now),
        holder.last_repository_update() matches Some(t) ==> (holder.repository_update_due(
            UpdateRepositoryMode::IfOutdatedOrNecessary,
            now,
        ) <==> elapsed(t, now) > OUTDATED_NANOS),
{
}

/// A pending set of changes to a project, with the environment version it was
/// computed against and its own version.
pub struct PendingProjectChangesInfo<C> {
    pub environment_version: u32,
    pub changes_version: u32,
    pub changes: C,
}

/// Holds at most one pending set of changes.
pub struct ChangesInfoHolder<C> {
    changes_info: Option<PendingProjectChangesInfo<C>>,
}

impl<C> ChangesInfoHolder<C> {
    /// The pending changes held, if any.
    pub closed spec fn held(self) -> Option<PendingProjectChangesInfo<C>> {
        self.changes_info
    }

    /// A holder with nothing pending.
    pub fn new() -> (r: Self)
        ensures
            r.held() is None,
    {
        ChangesInfoHolder { changes_info: None }
    }

    /// What `update` leaves behind.
    pub open spec fn updated(
        self,
        environment_version: u32,
        changes_version: u32,
        changes: C,
    ) -> Option<PendingProjectChangesInfo<C>> {
        Some(PendingProjectChangesInfo { environment_version, changes_version, changes })
    }

    /// Replaces whatever was pending by `changes`, computed against
    /// `environment_version` and numbered `changes_version`.
    pub fn update(&mut self, environment_version: u32, changes_version: u32, changes: C)
        ensures
            final(self).held() == old(self).updated(environment_version, changes_version, changes),
    {
        self.changes_info = Some(
            PendingProjectChangesInfo { environment_version, changes_version, changes },
        );
    }

    /// Hands out the pending changes, leaving nothing pending.
    pub fn take(&mut self) -> (r: Option<PendingProjectChangesInfo<C>>)
        ensures
            r == old(self).held(),
            final(self).held() is None,
    {
        self.changes_info.take()
    }
}

} // verus!

verus! {

/// What `take` hands out is what the last `update` stored, and taking again
/// hands out nothing.
pub proof fn lemma_take_returns_last_update<C>(
    first: ChangesInfoHolder<C>,
    updated: ChangesInfoHolder<C>,
    taken: Option<PendingProjectChangesInfo<C>>,
    emptied: ChangesInfoHolder<C>,
    taken_again: Option<PendingProjectChangesInfo<C>>,
    environment_version: u32,
    changes_version: u32,
    changes: C,
)
    requires
        updated.held() == first.updated(environment_version, changes_version, changes),
        taken == updated.held(),
        emptied.held() is None,
        taken_again == emptied.held(),
    ensures
        taken matches Some(info) && info.environment_version == environment_version
            && info.changes_version == changes_version && info.changes == changes,
        taken_again is None,
{
}

} // verus!
