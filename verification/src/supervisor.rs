//! The sidecar supervisor: owns the presence of at most one sidecar child
//! process, decides when a spawn is needed, records spawn and shutdown, and
//! fixes the port the sidecar listens on.
//!
//! The host performs the actual probing and process work under one lock
//! held across the whole check-then-spawn sequence: it asks
//! [`Supervisor::needs_spawn`], gathers a [`SpawnEnv`] by resolving the
//! resource directory, checking the sidecar binary and attempting the
//! spawn, and reports back through [`Supervisor::complete_spawn`].

use vstd::prelude::*;
use vstd::string::StringExecFns;

use crate::platform::Platform;
use crate::platform::sidecar_path;
use crate::platform::spec_sidecar_path;

verus! {

/// The fixed port the sidecar is spawned with and reached on.
pub const SIDECAR_PORT: u16 = 8000;

/// Lifecycle state of the sidecar: whether a child process handle is
/// currently tracked, and how many spawn and kill signals have been issued
/// over the supervisor's lifetime.
#[derive(Clone, Copy, PartialEq, Eq, Structural, Debug)]
pub struct Supervisor {
    /// Whether a child process handle is present.
    pub running: bool,
    /// How many spawns have been recorded.
    pub spawns: u64,
    /// How many kill signals have been recorded.
    pub kills: u64,
}

/// What the host found and did while attempting one spawn: the resolved
/// resource directory (if any), whether the sidecar binary exists under it,
/// and how the spawn command itself went.
pub struct SpawnEnv {
    /// The application's bundled resource directory, or `None` if it could
    /// not be resolved.
    pub resource_dir: Option<String>,
    /// Whether the sidecar binary exists at its expected path under the
    /// resource directory.
    pub binary_exists: bool,
    /// Whether the spawn command succeeded. Only meaningful when the binary
    /// was there to spawn.
    pub spawn_ok: bool,
    /// The spawn command's failure message, when it failed.
    pub spawn_error: String,
}

/// Mathematical counterpart of [`SpawnEnv`].
pub struct SpawnEnvModel {
    pub resource_dir: Option<Seq<char>>,
    pub binary_exists: bool,
    pub spawn_ok: bool,
    pub spawn_error: Seq<char>,
}

impl View for SpawnEnv {
    type V = SpawnEnvModel;

    open spec fn view(&self) -> SpawnEnvModel {
        SpawnEnvModel {
            resource_dir: match &self.resource_dir {
                Some(d) => Some(d@),
                None => None,
            },
            binary_exists: self.binary_exists,
            spawn_ok: self.spawn_ok,
            spawn_error: self.spawn_error@,
        }
    }
}

/// Error reported when the resource directory cannot be resolved.
pub open spec fn spec_resource_dir_msg() -> Seq<char> {
    "Failed to get resource directory"@
}

/// Error reported when the sidecar binary is absent at `path`.
pub open spec fn spec_missing_binary_msg(path: Seq<char>) -> Seq<char> {
    "Sidecar binary not found at: "@ + path
}

/// Error reported when the spawn command itself failed with `detail`.
pub open spec fn spec_spawn_failure_msg(detail: Seq<char>) -> Seq<char> {
    "Failed to start sidecar process: "@ + detail
}

/// One whole `ensure_running` exchange: if a handle is already present,
/// nothing is spawned and the fixed port is returned; otherwise the spawn
/// attempt described by `env` either fails with the matching error message
/// or records one new spawn and returns the port.
pub open spec fn spec_ensure_running(s: Supervisor, p: Platform, env: SpawnEnvModel) -> (
    Supervisor,
    Result<u16, Seq<char>>,
) {
    if s.running {
        (s, Ok(SIDECAR_PORT))
    } else {
        match env.resource_dir {
            None => (s, Err(spec_resource_dir_msg())),
            Some(dir) => if !env.binary_exists {
                (s, Err(spec_missing_binary_msg(spec_sidecar_path(p, dir))))
            } else if !env.spawn_ok {
                (s, Err(spec_spawn_failure_msg(env.spawn_error)))
            } else {
                (
                    Supervisor { running: true, spawns: (s.spawns + 1) as u64, kills: s.kills },
                    Ok(SIDECAR_PORT),
                )
            },
        }
    }
}

/// One `shutdown` exchange: the handle, if any, is taken and the process
/// behind it signalled; reports whether a kill signal was sent.
pub open spec fn spec_shutdown(s: Supervisor) -> (Supervisor, bool) {
    if s.running {
        (Supervisor { running: false, spawns: s.spawns, kills: (s.kills + 1) as u64 }, true)
    } else {
        (s, false)
    }
}

impl Supervisor {
    /// A supervisor with no sidecar tracked and nothing spawned yet.
    pub fn new() -> (s: Supervisor)
        ensures
            s == (Supervisor { running: false, spawns: 0, kills: 0 }),
    {
        Supervisor { running: false, spawns: 0, kills: 0 }
    }

    /// Whether a generation request must first spawn the sidecar.
    pub fn needs_spawn(&self) -> (b: bool)
        ensures
            b == !self.running,
    {
        !self.running
    }

    /// The fixed port the sidecar is reached on.
    pub fn port(&self) -> (r: u16)
        ensures
            r == SIDECAR_PORT,
    {
        SIDECAR_PORT
    }

    /// Records the outcome of the spawn attempt the host performed because
    /// [`Supervisor::needs_spawn`] was true; the host must still hold the
    /// lock it held for that check. Returns the port on success, else the
    /// error message for the first thing that went wrong.
    pub fn complete_spawn(&mut self, p: Platform, env: &SpawnEnv) -> (r: Result<u16, String>)
        requires
            !old(self).running,
            old(self).spawns < u64::MAX,
        ensures
            *final(self) == spec_ensure_running(*old(self), p, env@).0,
            match r {
                Ok(port) => spec_ensure_running(*old(self), p, env@).1 == Ok::<u16, Seq<char>>(
                    port,
                ),
                Err(msg) => spec_ensure_running(*old(self), p, env@).1 == Err::<u16, Seq<char>>(
                    msg@,
                ),
            },
    {
        match &env.resource_dir {
            None => Err("Failed to get resource directory".to_owned()),
            Some(dir) => {
                if !env.binary_exists {
                    let path = sidecar_path(p, dir.as_str());
                    let mut msg: String = "Sidecar binary not found at: ".to_owned();
                    msg.append(path.as_str());
                    Err(msg)
                } else if !env.spawn_ok {
                    let mut msg: String = "Failed to start sidecar process: ".to_owned();
                    msg.append(env.spawn_error.as_str());
                    Err(msg)
                } else {
                    self.running = true;
                    self.spawns = self.spawns + 1;
                    Ok(SIDECAR_PORT)
                }
            },
        }
    }

    /// Takes the handle, if any; the host then sends the kill signal to the
    /// process it was holding. Reports whether there was one to signal.
    pub fn shutdown(&mut self) -> (killed: bool)
        requires
            old(self).kills < u64::MAX,
        ensures
            *final(self) == spec_shutdown(*old(self)).0,
            killed == spec_shutdown(*old(self)).1,
    {
        if self.running {
            self.running = false;
            self.kills = self.kills + 1;
            true
        } else {
            false
        }
    }
}

/// `ensure_running` is idempotent: once one exchange has left the sidecar
/// running, a second exchange without an intervening shutdown changes
/// nothing — in particular it spawns no second process — and returns the
/// fixed port.
pub proof fn lemma_ensure_running_idempotent(
    s: Supervisor,
    plat1: Platform,
    e1: SpawnEnvModel,
    plat2: Platform,
    e2: SpawnEnvModel,
)
    requires
        spec_ensure_running(s, plat1, e1).0.running,
    ensures
        spec_ensure_running(spec_ensure_running(s, plat1, e1).0, plat2, e2) == (
            spec_ensure_running(s, plat1, e1).0,
            Ok::<u16, Seq<char>>(SIDECAR_PORT),
        ),
{
}

/// A shutdown followed by `ensure_running` spawns exactly one new process:
/// whatever state the supervisor was in, the exchange after the shutdown
/// records precisely one more spawn, returns the fixed port, and sends no
/// kill signal of its own.
pub proof fn lemma_restart_spawns_exactly_once(s: Supervisor, p: Platform, e: SpawnEnvModel)
    requires
        e.resource_dir is Some,
        e.binary_exists,
        e.spawn_ok,
        s.spawns < u64::MAX,
    ensures
        ({
            let after_shutdown = spec_shutdown(s).0;
            let (after_start, r) = spec_ensure_running(after_shutdown, p, e);
            &&& after_start.spawns == after_shutdown.spawns + 1
            &&& after_start.running
            &&& after_start.kills == after_shutdown.kills
            &&& r == Ok::<u16, Seq<char>>(SIDECAR_PORT)
        }),
{
}

/// The complement of [`lemma_restart_spawns_exactly_once`]: when the spawn
/// attempt does not go through — the resource directory unresolved, the
/// binary absent, or the spawn command failing — the exchange after a
/// shutdown records no spawn at all and surfaces an error.
pub proof fn lemma_failed_restart_spawns_nothing(s: Supervisor, plat: Platform, e: SpawnEnvModel)
    requires
        !(e.resource_dir is Some && e.binary_exists && e.spawn_ok),
    ensures
        ({
            let after_shutdown = spec_shutdown(s).0;
            let (after_start, r) = spec_ensure_running(after_shutdown, plat, e);
            &&& after_start == after_shutdown
            &&& r is Err
        }),
{
}

/// Shutdown never signals a process that is not there: with no handle
/// present it reports no kill and records none.
pub proof fn lemma_shutdown_without_process_kills_nothing(s: Supervisor)
    requires
        !s.running,
    ensures
        spec_shutdown(s) == (s, false),
{
}

} // verus!
