//! The supervisor of the local API sidecar: at most one worker process is
//! tracked at a time. The supervisor decides; its caller probes the disk,
//! spawns and kills, and holds the supervisor under a lock for the length of
//! each request.

use vstd::prelude::*;
use vstd::string::StringExecFns;

use crate::error::{ErrorKind, ErrorView};
use crate::paths::{
    local_api_paths, resource_root_path_of, script_path_of, text_of, LaunchPaths,
};

verus! {

/// The local port that the sidecar listens on.
pub const LOCAL_API_PORT: &'static str = "46123";

/// What becomes of one of the child's output streams.
#[derive(Clone, Copy, Debug, PartialEq, Eq, Structural)]
pub enum StreamPolicy {
    /// The stream is thrown away.
    Discard,
    /// The stream goes to the host's own.
    Inherit,
}

/// One variable of the child's environment.
#[derive(Clone, Debug, PartialEq, Eq)]
pub struct EnvVar {
    pub name: String,
    pub value: String,
}

/// Everything needed to spawn the sidecar.
#[derive(Clone, Debug, PartialEq, Eq)]
pub struct LaunchCommand {
    /// The program to run.
    pub program: String,
    /// Its only argument: the sidecar script.
    pub script: String,
    /// The variables added to the child's environment.
    pub env: Vec<EnvVar>,
    pub stdout: StreamPolicy,
    pub stderr: StreamPolicy,
}

/// Whether `cmd` is the supervised launch of the script of `paths`: `node`
/// on the script, with the fixed local port, the resource root and the mode
/// marker in the environment, standard output discarded and standard error
/// inherited.
pub open spec fn is_launch_of(cmd: LaunchCommand, paths: LaunchPaths) -> bool {
    &&& cmd.program@ == "node"@
    &&& cmd.script@ == paths.script@
    &&& cmd.env@.len() == 3
    &&& cmd.env@[0].name@ == "LOCAL_API_PORT"@
    &&& cmd.env@[0].value@ == "46123"@
    &&& cmd.env@[1].name@ == "LOCAL_API_RESOURCE_DIR"@
    &&& cmd.env@[1].value@ == paths.resource_root@
    &&& cmd.env@[2].name@ == "LOCAL_API_MODE"@
    &&& cmd.env@[2].value@ == "tauri-sidecar"@
    &&& cmd.stdout == StreamPolicy::Discard
    &&& cmd.stderr == StreamPolicy::Inherit
}

/// The answer to a start request.
#[derive(Clone, Debug, PartialEq, Eq)]
pub enum StartStep {
    /// A sidecar is tracked: there is nothing to do.
    AlreadyRunning,
    /// No sidecar is tracked: see whether the script of these paths exists.
    ProbeScript(LaunchPaths),
}

/// Owner of the handle of at most one sidecar process. `H` is whatever the
/// caller gets from a spawn and needs for a kill.
pub struct Supervisor<H> {
    child: Option<H>,
}

impl<H> Supervisor<H> {
    /// The tracked handle, if any.
    pub closed spec fn handle(self) -> Option<H> {
        self.child
    }

    /// The state after a spawn attempt that ended in `spawned`: a new handle
    /// is tracked, a failure changes nothing.
    pub closed spec fn after_spawn(self, spawned: Result<H, String>) -> Self {
        match spawned {
            Ok(h) => Supervisor { child: Some(h) },
            Err(_) => self,
        }
    }

    /// The state after a stop request.
    pub closed spec fn after_stop(self) -> Self {
        Supervisor { child: None }
    }

    /// A supervisor that tracks nothing.
    pub fn new() -> (s: Self)
        ensures
            s.handle() is None,
    {
        Supervisor { child: None }
    }

    /// Whether a sidecar is tracked.
    #[verifier::when_used_as_spec(spec_is_running)]
    pub fn is_running(&self) -> (running: bool)
        ensures
            running == self.handle().is_some(),
    {
        self.child.is_some()
    }

    /// Whether a sidecar is tracked.
    pub open spec fn spec_is_running(&self) -> bool {
        self.handle().is_some()
    }

    /// Answers a start request. With a sidecar tracked there is nothing to
    /// do; without one the launch paths are resolved, as
    /// [`local_api_paths`] does, for the caller to probe.
    pub fn begin_start(
        &self,
        debug_build: bool,
        manifest_dir: &str,
        resource_dir: Option<String>,
    ) -> (step: StartStep)
        ensures
            self.is_running() ==> step == StartStep::AlreadyRunning,
            !self.is_running() ==> (step matches StartStep::ProbeScript(paths) && paths.script@
                == script_path_of(debug_build, manifest_dir@, text_of(resource_dir))
                && paths.resource_root@ == resource_root_path_of(
                debug_build,
                manifest_dir@,
                text_of(resource_dir),
            )),
    {
        if self.child.is_some() {
            StartStep::AlreadyRunning
        } else {
            StartStep::ProbeScript(local_api_paths(debug_build, manifest_dir, resource_dir))
        }
    }

    /// Ends a start attempt with what the spawn gave: the new handle is
    /// tracked, or the failure is reported and nothing is tracked. A spawn is
    /// made only for a supervisor that tracks nothing.
    pub fn finish_start(&mut self, spawned: Result<H, String>) -> (r: Result<(), ErrorKind>)
        requires
            !old(self).is_running(),
        ensures
            *final(self) == old(self).after_spawn(spawned),
            match spawned {
                Ok(h) => r is Ok && final(self).handle() == Some(h),
                Err(cause) => final(self).handle() is None && (r matches Err(e) && e@
                    == ErrorView::SpawnFailed(cause@)),
            },
    {
        match spawned {
            Ok(h) => {
                self.child = Some(h);
                Ok(())
            },
            Err(cause) => Err(ErrorKind::SpawnFailed(cause)),
        }
    }

    /// Stops tracking. The handle that was tracked, if any, is handed out for
    /// the caller to kill; whether the kill succeeds does not matter.
    pub fn stop(&mut self) -> (victim: Option<H>)
        ensures
            *final(self) == old(self).after_stop(),
            final(self).handle() is None,
            victim == old(self).handle(),
    {
        self.child.take()
    }
}

impl<H> Default for Supervisor<H> {
    /// A supervisor that tracks nothing.
    fn default() -> (s: Self)
        ensures
            s.handle() is None,
    {
        Supervisor { child: None }
    }
}

/// Decides on the spawn once the script has been probed: without the script
/// nothing is spawned.
pub fn launch_decision(paths: LaunchPaths, script_exists: bool) -> (r: Result<
    LaunchCommand,
    ErrorKind,
>)
    ensures
        script_exists ==> (r matches Ok(cmd) && is_launch_of(cmd, paths)),
        !script_exists ==> (r matches Err(e) && e@ == ErrorView::ScriptMissing(paths.script@)),
{
    if !script_exists {
        return Err(ErrorKind::ScriptMissing(paths.script));
    }
    let mut env: Vec<EnvVar> = Vec::new();
    env.push(
        EnvVar { name: String::from_str("LOCAL_API_PORT"), value: String::from_str(LOCAL_API_PORT) },
    );
    env.push(
        EnvVar { name: String::from_str("LOCAL_API_RESOURCE_DIR"), value: paths.resource_root },
    );
    env.push(
        EnvVar {
            name: String::from_str("LOCAL_API_MODE"),
            value: String::from_str("tauri-sidecar"),
        },
    );
    Ok(
        LaunchCommand {
            program: String::from_str("node"),
            script: paths.script,
            env,
            stdout: StreamPolicy::Discard,
            stderr: StreamPolicy::Inherit,
        },
    )
}

/// A start request on a supervisor whose last spawn succeeded finds a sidecar
/// tracked: it is answered with `AlreadyRunning` and asks for no second spawn.
pub proof fn law_start_after_start_spawns_nothing<H>(s: Supervisor<H>, h: H)
    ensures
        s.after_spawn(Ok(h)).is_running(),
        s.after_spawn(Ok(h)).handle() == Some(h),
{
}

/// A stop request on a stopped supervisor changes nothing and hands out
/// nothing to kill.
pub proof fn law_stop_when_stopped_is_noop<H>(s: Supervisor<H>)
    requires
        !s.is_running(),
    ensures
        s.after_stop() == s,
        s.handle() is None,
{
}

/// A stop request after a successful start leaves the supervisor stopped, and
/// the one handle to kill is the one that the start tracked; a further stop
/// finds nothing.
pub proof fn law_stop_after_start_kills_once<H>(s: Supervisor<H>, h: H)
    ensures
        s.after_spawn(Ok(h)).handle() == Some(h),
        !s.after_spawn(Ok(h)).after_stop().is_running(),
        s.after_spawn(Ok(h)).after_stop().handle() is None,
        s.after_spawn(Ok(h)).after_stop().after_stop() == s.after_spawn(Ok(h)).after_stop(),
{
}

/// A failed spawn leaves the supervisor as it was.
pub proof fn law_failed_spawn_keeps_state<H>(s: Supervisor<H>, cause: String)
    ensures
        s.after_spawn(Err(cause)) == s,
{
}

} // verus!
