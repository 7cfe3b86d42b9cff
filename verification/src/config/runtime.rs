//! The configuration that is running, and the watch on its file.

use vstd::prelude::*;

use super::schema::{AppConfig, LoadError};
use crate::time::Instant;

verus! {

/// The running configuration together with what was last seen in its file.
pub struct RuntimeConfig<P> {
    /// Where the file is.
    pub path: P,
    /// The running configuration.
    pub config: AppConfig,
    /// The bytes of the file when it was last read.
    pub last_seen_bytes: Vec<u8>,
    /// When the file is looked at next.
    pub next_check_at: Instant,
}

/// Something that the watch on the file reacts to.
pub enum RefreshEvent {
    /// Time has passed.
    Tick(Instant),
    /// The file was read, or could not be, for the given reason.
    FileRead(Result<Vec<u8>, String>),
    /// The file was loaded, or could not be.
    ConfigLoaded(Result<AppConfig, LoadError>),
}

/// What is to be done next.
pub enum RefreshAction {
    /// Nothing.
    Idle,
    /// Read the file.
    ReadFile,
    /// Load the file.
    LoadConfig,
    /// Try to run this configuration.
    Offer(AppConfig),
    /// Report the error and keep running.
    Reject(LoadError),
}

/// Compares two byte strings.
fn bytes_equal(left: &Vec<u8>, right: &Vec<u8>) -> (equal: bool)
    ensures
        equal == (left@ == right@),
{
    if left.len() != right.len() {
        return false;
    }
    let mut i: usize = 0;
    while i < left.len()
        invariant
            left.len() == right.len(),
            i <= left.len(),
            forall|k: int| 0 <= k < i ==> left@[k] == right@[k],
        decreases left.len() - i,
    {
        if left[i] != right[i] {
            return false;
        }
        i = i + 1;
    }
    assert(left@ =~= right@);
    true
}

impl<P> RuntimeConfig<P> {
    /// Only a valid configuration runs.
    pub open spec fn wf(self) -> bool {
        self.config.valid()
    }

    /// A look at the file is due at `now`.
    pub open spec fn due(self, now: Instant) -> bool {
        now.nanos >= self.next_check_at.nanos
    }

    /// When the file is looked at after a look at `now`.
    pub open spec fn check_after(config: AppConfig, now: Instant) -> Instant {
        Instant { nanos: (now.nanos + config.refresh.interval().nanos) as u128 }
    }

    /// The time of the look after one at `now` can be told.
    pub open spec fn can_check_after(config: AppConfig, now: Instant) -> bool {
        now.nanos + config.refresh.interval().nanos <= u128::MAX
    }

    /// What the watch has to know of an event: times are not at the end of the clock, and only
    /// valid configurations are loaded.
    pub open spec fn accepts(self, event: RefreshEvent) -> bool {
        match event {
            RefreshEvent::Tick(now) => self.due(now) ==> Self::can_check_after(self.config, now),
            RefreshEvent::FileRead(_) => true,
            RefreshEvent::ConfigLoaded(result) => result matches Ok(config) ==> config.valid(),
        }
    }

    /// When the file is looked at next, after an event.
    pub open spec fn next_check_after(self, event: RefreshEvent) -> Instant {
        match event {
            RefreshEvent::Tick(now) if self.due(now) => Self::check_after(self.config, now),
            _ => self.next_check_at,
        }
    }

    /// What was last seen in the file, after an event.
    pub open spec fn bytes_after(self, event: RefreshEvent) -> Seq<u8> {
        match event {
            RefreshEvent::FileRead(Ok(bytes)) => bytes@,
            _ => self.last_seen_bytes@,
        }
    }

    /// What is to be done after an event.
    pub open spec fn action_on(self, event: RefreshEvent) -> RefreshAction {
        match event {
            RefreshEvent::Tick(now) => if self.due(now) {
                RefreshAction::ReadFile
            } else {
                RefreshAction::Idle
            },
            RefreshEvent::FileRead(Err(reason)) => RefreshAction::Reject(LoadError::Read(reason)),
            RefreshEvent::FileRead(Ok(bytes)) => if bytes@ == self.last_seen_bytes@ {
                RefreshAction::Idle
            } else {
                RefreshAction::LoadConfig
            },
            RefreshEvent::ConfigLoaded(Err(error)) => RefreshAction::Reject(error),
            RefreshEvent::ConfigLoaded(Ok(config)) => if config.same(self.config) {
                RefreshAction::Idle
            } else {
                RefreshAction::Offer(config)
            },
        }
    }

    /// Starts the watch on a file that has just been read and loaded.
    pub fn load(path: P, bytes: Vec<u8>, config: AppConfig, now: Instant) -> (runtime: Self)
        requires
            config.valid(),
            Self::can_check_after(config, now),
        ensures
            runtime.path == path,
            runtime.config == config,
            runtime.last_seen_bytes == bytes,
            runtime.next_check_at == Self::check_after(config, now),
            runtime.wf(),
    {
        RuntimeConfig {
            path,
            config,
            last_seen_bytes: bytes,
            next_check_at: now.plus(config.refresh.reload_check_interval()),
        }
    }

    /// The running configuration.
    pub fn config(&self) -> (config: &AppConfig)
        ensures
            *config == self.config,
    {
        &self.config
    }

    /// Where the file is.
    pub fn path(&self) -> (path: &P)
        ensures
            *path == self.path,
    {
        &self.path
    }

    /// When the file is looked at next.
    pub fn next_check_at(&self) -> (next_check_at: Instant)
        ensures
            next_check_at == self.next_check_at,
    {
        self.next_check_at
    }

    /// One step of the watch. A tick that is due asks for the file; bytes that differ from those
    /// last seen ask for it to be loaded, and are remembered even if it then turns out to be
    /// invalid; a loaded configuration that differs from the running one is offered. The running
    /// configuration itself never changes here.
    pub fn refresh_if_changed(&mut self, event: RefreshEvent) -> (action: RefreshAction)
        requires
            old(self).accepts(event),
        ensures
            action == old(self).action_on(event),
            final(self).path == old(self).path,
            final(self).config == old(self).config,
            final(self).last_seen_bytes@ == old(self).bytes_after(event),
            final(self).next_check_at == old(self).next_check_after(event),
            old(self).wf() ==> final(self).wf(),
            action matches RefreshAction::Offer(config) ==> config.valid(),
    {
        match event {
            RefreshEvent::Tick(now) => {
                if now.nanos < self.next_check_at.nanos {
                    return RefreshAction::Idle;
                }
                self.next_check_at = now.plus(self.config.refresh.reload_check_interval());
                RefreshAction::ReadFile
            },
            RefreshEvent::FileRead(Err(reason)) => RefreshAction::Reject(LoadError::Read(reason)),
            RefreshEvent::FileRead(Ok(candidate)) => {
                if bytes_equal(&candidate, &self.last_seen_bytes) {
                    return RefreshAction::Idle;
                }
                self.last_seen_bytes = candidate;
                RefreshAction::LoadConfig
            },
            RefreshEvent::ConfigLoaded(Err(error)) => RefreshAction::Reject(error),
            RefreshEvent::ConfigLoaded(Ok(next)) => {
                if next.equals(&self.config) {
                    return RefreshAction::Idle;
                }
                RefreshAction::Offer(next)
            },
        }
    }

    /// Runs `config` from `now` on.
    pub fn apply(&mut self, config: AppConfig, now: Instant)
        requires
            config.valid(),
            Self::can_check_after(config, now),
        ensures
            final(self).config == config,
            final(self).next_check_at == Self::check_after(config, now),
            final(self).path == old(self).path,
            final(self).last_seen_bytes == old(self).last_seen_bytes,
            final(self).wf(),
    {
        self.config = config;
        self.next_check_at = now.plus(self.config.refresh.reload_check_interval());
    }
}

/// The same bytes are not loaded a second time, whatever came of them the first time; other bytes
/// are.
pub proof fn law_bytes_are_loaded_once<P>(
    before: RuntimeConfig<P>,
    after: RuntimeConfig<P>,
    bytes: Vec<u8>,
    next: Vec<u8>,
)
    requires
        after.last_seen_bytes@ == before.bytes_after(RefreshEvent::FileRead(Ok(bytes))),
    ensures
        next@ == bytes@ ==> after.action_on(RefreshEvent::FileRead(Ok(next)))
            == RefreshAction::Idle,
        next@ != bytes@ ==> after.action_on(RefreshEvent::FileRead(Ok(next)))
            == RefreshAction::LoadConfig,
{
}

/// After a look at the file the next one is due a whole interval later, which is never at once.
pub proof fn law_looks_are_spaced<P>(
    before: RuntimeConfig<P>,
    after: RuntimeConfig<P>,
    now: Instant,
    later: Instant,
)
    requires
        before.wf(),
        before.due(now),
        before.accepts(RefreshEvent::Tick(now)),
        after.next_check_at == before.next_check_after(RefreshEvent::Tick(now)),
    ensures
        after.due(later) <==> later.nanos >= now.nanos + before.config.refresh.interval().nanos,
        !after.due(now),
{
}

/// A tick before the look is due changes nothing and asks for nothing.
pub proof fn law_early_tick_does_nothing<P>(runtime: RuntimeConfig<P>, now: Instant)
    requires
        !runtime.due(now),
    ensures
        runtime.accepts(RefreshEvent::Tick(now)),
        runtime.action_on(RefreshEvent::Tick(now)) == RefreshAction::Idle,
        runtime.next_check_after(RefreshEvent::Tick(now)) == runtime.next_check_at,
        runtime.bytes_after(RefreshEvent::Tick(now)) == runtime.last_seen_bytes@,
{
}

/// A configuration that runs is not offered again.
pub proof fn law_running_configuration_is_not_offered<P>(runtime: RuntimeConfig<P>)
    requires
        runtime.wf(),
    ensures
        runtime.action_on(RefreshEvent::ConfigLoaded(Ok(runtime.config))) == RefreshAction::Idle,
{
    super::schema::law_same_configurations(runtime.config, runtime.config);
}

/// A loaded configuration is passed over only where it agrees with the running one in every
/// setting; where latitude, longitude, projection, the SDR option or the reload interval differs,
/// just that configuration is offered.
pub proof fn law_every_changed_setting_is_offered<P>(runtime: RuntimeConfig<P>, next: AppConfig)
    requires
        runtime.config.valid(),
        next.valid(),
    ensures
        ({
            let running = runtime.config;
            let agrees = {
                &&& next.location.latitude.units() == running.location.latitude.units()
                &&& next.location.longitude is Some <==> running.location.longitude is Some
                &&& next.location.longitude is Some ==> next.location.longitude->0.units()
                    == running.location.longitude->0.units()
                &&& next.rendering.projection == running.rendering.projection
                &&& next.rendering.force_sdr == running.rendering.force_sdr
                &&& next.refresh.reload_check_interval_ms
                    == running.refresh.reload_check_interval_ms
            };
            let action = runtime.action_on(RefreshEvent::ConfigLoaded(Ok(next)));
            action == if agrees {
                RefreshAction::Idle
            } else {
                RefreshAction::Offer(next)
            }
        }),
{
    super::schema::law_same_means_every_setting(next, runtime.config);
}

/// Whatever goes wrong is reported as it is, and leaves what was seen of the file and the next
/// look at it as they were.
pub proof fn law_failures_are_reported_and_change_nothing<P>(
    runtime: RuntimeConfig<P>,
    reason: String,
    error: LoadError,
)
    ensures
        runtime.action_on(RefreshEvent::FileRead(Err(reason))) == RefreshAction::Reject(
            LoadError::Read(reason),
        ),
        runtime.action_on(RefreshEvent::ConfigLoaded(Err(error))) == RefreshAction::Reject(error),
        runtime.bytes_after(RefreshEvent::FileRead(Err(reason))) == runtime.last_seen_bytes@,
        runtime.bytes_after(RefreshEvent::ConfigLoaded(Err(error))) == runtime.last_seen_bytes@,
        runtime.next_check_after(RefreshEvent::FileRead(Err(reason))) == runtime.next_check_at,
        runtime.next_check_after(RefreshEvent::ConfigLoaded(Err(error))) == runtime.next_check_at,
{
}

/// The file is asked for as soon as the time of the next look has come, which is then put off by
/// the configured milliseconds; reading and loading do not put it off.
pub proof fn law_file_is_asked_for_when_due<P>(
    runtime: RuntimeConfig<P>,
    now: Instant,
    bytes: Vec<u8>,
    config: AppConfig,
)
    requires
        now.nanos + 1_000_000 * runtime.config.refresh.reload_check_interval_ms <= u128::MAX,
    ensures
        runtime.action_on(RefreshEvent::Tick(now)) == if now.nanos
            >= runtime.next_check_at.nanos {
            RefreshAction::ReadFile
        } else {
            RefreshAction::Idle
        },
        runtime.next_check_after(RefreshEvent::Tick(now)).nanos == if now.nanos
            >= runtime.next_check_at.nanos {
            now.nanos + 1_000_000 * runtime.config.refresh.reload_check_interval_ms
        } else {
            runtime.next_check_at.nanos as int
        },
        RuntimeConfig::<P>::check_after(runtime.config, now).nanos == now.nanos + 1_000_000
            * runtime.config.refresh.reload_check_interval_ms,
        runtime.bytes_after(RefreshEvent::Tick(now)) == runtime.last_seen_bytes@,
        runtime.next_check_after(RefreshEvent::FileRead(Ok(bytes))) == runtime.next_check_at,
        runtime.next_check_after(RefreshEvent::ConfigLoaded(Ok(config))) == runtime.next_check_at,
        runtime.bytes_after(RefreshEvent::ConfigLoaded(Ok(config))) == runtime.last_seen_bytes@,
{
}

/// What was read is remembered, and asks for loading exactly where it differs from what was
/// remembered before.
pub proof fn law_other_bytes_are_loaded<P>(runtime: RuntimeConfig<P>, bytes: Vec<u8>)
    ensures
        runtime.bytes_after(RefreshEvent::FileRead(Ok(bytes))) == bytes@,
        runtime.action_on(RefreshEvent::FileRead(Ok(bytes))) == if bytes@
            == runtime.last_seen_bytes@ {
            RefreshAction::Idle
        } else {
            RefreshAction::LoadConfig
        },
{
}

} // verus!
