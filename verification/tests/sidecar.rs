use world_monitor::error::ErrorKind;
use world_monitor::paths::{
    local_api_paths, resolve_dir, resource_root, script_base, LaunchPaths,
};
use world_monitor::sidecar::{
    launch_decision, EnvVar, LaunchCommand, StartStep, StreamPolicy, Supervisor,
};

/// Stands in for the operating system: counts what it is asked to do.
struct Host {
    script_exists: bool,
    spawn_fails: bool,
    probes: u32,
    spawns: u32,
    kills: Vec<u32>,
}

impl Host {
    fn new(script_exists: bool, spawn_fails: bool) -> Host {
        Host { script_exists, spawn_fails, probes: 0, spawns: 0, kills: Vec::new() }
    }

    /// One start request, driven as the application drives it.
    fn ensure_running(&mut self, supervisor: &mut Supervisor<u32>) -> Result<(), ErrorKind> {
        let step = supervisor.begin_start(false, "/build/src-tauri", Some("/res".to_string()));
        let paths = match step {
            StartStep::AlreadyRunning => return Ok(()),
            StartStep::ProbeScript(paths) => paths,
        };
        self.probes += 1;
        let _command = launch_decision(paths, self.script_exists)?;
        self.spawns += 1;
        let spawned = if self.spawn_fails {
            Err("permission denied".to_string())
        } else {
            Ok(1000 + self.spawns)
        };
        supervisor.finish_start(spawned)
    }

    /// One stop request.
    fn stop(&mut self, supervisor: &mut Supervisor<u32>) {
        if let Some(pid) = supervisor.stop() {
            self.kills.push(pid);
        }
    }
}

fn env(name: &str, value: &str) -> EnvVar {
    EnvVar { name: name.to_string(), value: value.to_string() }
}

fn paths(script: &str, resource_root: &str) -> LaunchPaths {
    LaunchPaths { script: script.to_string(), resource_root: resource_root.to_string() }
}

#[test]
fn new_supervisor_is_stopped() {
    let supervisor: Supervisor<u32> = Supervisor::new();
    assert!(!supervisor.is_running());
}

#[test]
fn second_start_spawns_nothing() {
    let mut host = Host::new(true, false);
    let mut supervisor = Supervisor::new();
    assert_eq!(host.ensure_running(&mut supervisor), Ok(()));
    assert!(supervisor.is_running());
    assert_eq!(host.ensure_running(&mut supervisor), Ok(()));
    assert!(supervisor.is_running());
    assert_eq!(host.spawns, 1);
    assert_eq!(host.probes, 1);
    host.stop(&mut supervisor);
    assert_eq!(host.kills, vec![1001]);
}

#[test]
fn begin_start_on_running_supervisor_is_already_running() {
    let mut supervisor = Supervisor::new();
    assert_eq!(supervisor.finish_start(Ok(7u32)), Ok(()));
    assert_eq!(supervisor.begin_start(true, "/build/src-tauri", None), StartStep::AlreadyRunning);
    assert_eq!(
        supervisor.begin_start(false, "/build/src-tauri", Some("/res".to_string())),
        StartStep::AlreadyRunning
    );
}

#[test]
fn begin_start_on_stopped_supervisor_resolves_the_paths() {
    let supervisor: Supervisor<u32> = Supervisor::new();
    assert_eq!(
        supervisor.begin_start(false, "/build/src-tauri", Some("/res".to_string())),
        StartStep::ProbeScript(paths("/res/sidecar/local-api-server.mjs", "/res"))
    );
    assert!(!supervisor.is_running());
}

#[test]
fn stop_when_stopped_is_noop() {
    let mut host = Host::new(true, false);
    let mut supervisor = Supervisor::new();
    host.stop(&mut supervisor);
    host.stop(&mut supervisor);
    assert!(!supervisor.is_running());
    assert_eq!(host.kills, Vec::<u32>::new());
}

#[test]
fn stop_after_start_kills_exactly_once() {
    let mut host = Host::new(true, false);
    let mut supervisor = Supervisor::new();
    assert_eq!(host.ensure_running(&mut supervisor), Ok(()));
    host.stop(&mut supervisor);
    assert!(!supervisor.is_running());
    host.stop(&mut supervisor);
    assert_eq!(host.kills, vec![1001]);
}

#[test]
fn start_after_stop_spawns_again() {
    let mut host = Host::new(true, false);
    let mut supervisor = Supervisor::new();
    assert_eq!(host.ensure_running(&mut supervisor), Ok(()));
    host.stop(&mut supervisor);
    assert_eq!(host.ensure_running(&mut supervisor), Ok(()));
    assert!(supervisor.is_running());
    assert_eq!(host.spawns, 2);
    host.stop(&mut supervisor);
    assert_eq!(host.kills, vec![1001, 1002]);
}

#[test]
fn missing_script_spawns_nothing_and_stays_stopped() {
    let mut host = Host::new(false, false);
    let mut supervisor = Supervisor::new();
    assert_eq!(
        host.ensure_running(&mut supervisor),
        Err(ErrorKind::ScriptMissing("/res/sidecar/local-api-server.mjs".to_string()))
    );
    assert!(!supervisor.is_running());
    assert_eq!(host.spawns, 0);
    host.stop(&mut supervisor);
    assert_eq!(host.kills, Vec::<u32>::new());
}

#[test]
fn failed_spawn_is_reported_and_stays_stopped() {
    let mut host = Host::new(true, true);
    let mut supervisor = Supervisor::new();
    assert_eq!(
        host.ensure_running(&mut supervisor),
        Err(ErrorKind::SpawnFailed("permission denied".to_string()))
    );
    assert!(!supervisor.is_running());
    assert_eq!(host.spawns, 1);
    assert_eq!(host.ensure_running(&mut supervisor).is_err(), true);
    assert_eq!(host.spawns, 2);
}

#[test]
fn default_supervisor_is_stopped() {
    let mut supervisor: Supervisor<u32> = Supervisor::default();
    assert!(!supervisor.is_running());
    assert_eq!(supervisor.stop(), None);
}

#[test]
fn stop_hands_out_the_tracked_handle() {
    let mut supervisor = Supervisor::new();
    assert_eq!(supervisor.finish_start(Ok("child".to_string())), Ok(()));
    assert_eq!(supervisor.stop(), Some("child".to_string()));
    assert_eq!(supervisor.stop(), None);
}

#[test]
fn launch_command_of_an_existing_script() {
    let command = launch_decision(paths("/res/sidecar/local-api-server.mjs", "/res"), true);
    assert_eq!(
        command,
        Ok(LaunchCommand {
            program: "node".to_string(),
            script: "/res/sidecar/local-api-server.mjs".to_string(),
            env: vec![
                env("LOCAL_API_PORT", "46123"),
                env("LOCAL_API_RESOURCE_DIR", "/res"),
                env("LOCAL_API_MODE", "tauri-sidecar"),
            ],
            stdout: StreamPolicy::Discard,
            stderr: StreamPolicy::Inherit,
        })
    );
}

#[test]
fn launch_decision_without_script_is_script_missing() {
    assert_eq!(
        launch_decision(paths("/nowhere/server.mjs", "/res"), false),
        Err(ErrorKind::ScriptMissing("/nowhere/server.mjs".to_string()))
    );
}

#[test]
fn packaged_build_takes_both_paths_from_the_resources() {
    assert_eq!(
        local_api_paths(false, "/build/src-tauri", Some("/opt/app/resources".to_string())),
        paths("/opt/app/resources/sidecar/local-api-server.mjs", "/opt/app/resources")
    );
}

#[test]
fn packaged_build_without_resources_falls_back_to_the_current_directory() {
    assert_eq!(
        local_api_paths(false, "/build/src-tauri", None),
        paths("./sidecar/local-api-server.mjs", ".")
    );
}

#[test]
fn development_build_takes_the_paths_from_the_build_tree() {
    assert_eq!(
        local_api_paths(true, "/build/src-tauri", Some("/opt/app/resources".to_string())),
        paths("/build/src-tauri/sidecar/local-api-server.mjs", "/build")
    );
    assert_eq!(
        local_api_paths(true, "/build/src-tauri", None),
        paths("/build/src-tauri/sidecar/local-api-server.mjs", "/build")
    );
}

#[test]
fn development_build_at_the_root_falls_back_to_the_current_directory() {
    assert_eq!(
        local_api_paths(true, "/", Some("/opt/app/resources".to_string())),
        paths("/sidecar/local-api-server.mjs", ".")
    );
}

#[test]
fn resource_dir_defaults_to_the_current_directory() {
    assert_eq!(resolve_dir(None), ".");
    assert_eq!(resolve_dir(Some("/res".to_string())), "/res");
}

#[test]
fn script_base_follows_the_build() {
    assert_eq!(script_base(true, "/build/src-tauri", "/res"), "/build/src-tauri");
    assert_eq!(script_base(false, "/build/src-tauri", "/res"), "/res");
}

#[test]
fn resource_root_follows_the_build() {
    assert_eq!(resource_root(true, Some("/build".to_string()), "/res".to_string()), "/build");
    assert_eq!(resource_root(true, None, "/res".to_string()), ".");
    assert_eq!(resource_root(false, Some("/build".to_string()), "/res".to_string()), "/res");
    assert_eq!(resource_root(false, None, "/res".to_string()), "/res");
}
