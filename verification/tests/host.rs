use cellar_sandbox::cellar::{CellarConfig, WineCellar, WineSync};
use cellar_sandbox::env::EnvVar;
use cellar_sandbox::error::CellarError;
use cellar_sandbox::host::{LaunchAction, LaunchEvent, LaunchState};
use cellar_sandbox::reaper::ReaperCommand;

fn run(events: Vec<LaunchEvent>) -> (LaunchState, Vec<LaunchAction>) {
    let mut state = LaunchState::new();
    let mut actions = Vec::new();
    for event in events {
        let (next, action) = state.step(event);
        state = next;
        actions.push(action);
    }
    (state, actions)
}

#[test]
fn launch_that_goes_well() {
    let (state, actions) = run(vec![
        LaunchEvent::Begin,
        LaunchEvent::Spawned,
        LaunchEvent::Sent,
        LaunchEvent::Exited,
    ]);
    assert_eq!(
        actions,
        vec![
            LaunchAction::Spawn,
            LaunchAction::Send,
            LaunchAction::CloseAndWait,
            LaunchAction::Stop,
        ]
    );
    assert_eq!(state, LaunchState::Finished(None));
    assert_eq!(state.outcome(), Some(Ok(())));
}

#[test]
fn failed_spawn_sends_nothing() {
    let (state, actions) =
        run(vec![LaunchEvent::Begin, LaunchEvent::SpawnFailed("no such file".to_string())]);
    assert_eq!(actions, vec![LaunchAction::Spawn, LaunchAction::Stop]);
    assert_eq!(
        state.outcome(),
        Some(Err(CellarError::ChildSpawnFailed("no such file".to_string())))
    );
    let (state, actions) = run(vec![
        LaunchEvent::Begin,
        LaunchEvent::SpawnFailed("no such file".to_string()),
        LaunchEvent::Spawned,
        LaunchEvent::Sent,
        LaunchEvent::Exited,
    ]);
    assert_eq!(&actions[2..], &[LaunchAction::Idle, LaunchAction::Idle, LaunchAction::Idle][..]);
    assert_eq!(
        state,
        LaunchState::Finished(Some(CellarError::ChildSpawnFailed("no such file".to_string())))
    );
}

#[test]
fn failed_send_is_reported_after_the_sandbox_ended() {
    let (state, actions) = run(vec![
        LaunchEvent::Begin,
        LaunchEvent::Spawned,
        LaunchEvent::SendFailed("broken pipe".to_string()),
    ]);
    assert_eq!(actions, vec![LaunchAction::Spawn, LaunchAction::Send, LaunchAction::CloseAndWait]);
    assert_eq!(state.outcome(), None);
    let (state, actions) = run(vec![
        LaunchEvent::Begin,
        LaunchEvent::Spawned,
        LaunchEvent::SendFailed("broken pipe".to_string()),
        LaunchEvent::Exited,
    ]);
    assert_eq!(actions[3], LaunchAction::Stop);
    assert_eq!(
        state.outcome(),
        Some(Err(CellarError::CommandEncodeFailed("broken pipe".to_string())))
    );
}

#[test]
fn events_out_of_turn_change_nothing() {
    let (state, actions) = run(vec![LaunchEvent::Spawned, LaunchEvent::Sent, LaunchEvent::Exited]);
    assert_eq!(actions, vec![LaunchAction::Idle, LaunchAction::Idle, LaunchAction::Idle]);
    assert_eq!(state, LaunchState::Ready);
    let (state, actions) = run(vec![LaunchEvent::Begin, LaunchEvent::Begin, LaunchEvent::Sent]);
    assert_eq!(actions, vec![LaunchAction::Spawn, LaunchAction::Idle, LaunchAction::Idle]);
    assert_eq!(state, LaunchState::Spawning);
    let (state, actions) =
        run(vec![LaunchEvent::Begin, LaunchEvent::Spawned, LaunchEvent::Exited]);
    assert_eq!(actions[2], LaunchAction::Idle);
    assert_eq!(state, LaunchState::Sending);
    assert_eq!(state.outcome(), None);
}

#[test]
fn failure_messages_carry_the_reason() {
    assert_eq!(
        CellarError::ChildSpawnFailed("no such file".to_string()).message(),
        "unable to start the sandbox: no such file"
    );
    assert_eq!(
        CellarError::CommandEncodeFailed("broken pipe".to_string()).message(),
        "unable to send the command to the reaper: broken pipe"
    );
}

#[test]
fn launch_of_a_cellar_names_the_reaper_and_carries_the_command() {
    let config = CellarConfig::new(true, WineSync::ESYNC, vec![EnvVar::pass("DISPLAY")]);
    let cellar = WineCellar::new("cellar", config);
    let launch = cellar.launch(
        "/abs/cellar",
        "/opt/cellar-reaper",
        "game.exe",
        vec!["-w".to_string()],
    );
    let sandbox = cellar.bwrap_run("/abs/cellar", "/opt/cellar-reaper");
    assert_eq!(launch.invocation.program, "/usr/bin/bwrap");
    assert_eq!(launch.invocation.args.len(), sandbox.args.len() + 1);
    assert_eq!(&launch.invocation.args[..sandbox.args.len()], &sandbox.args[..]);
    assert_eq!(launch.invocation.args.last().unwrap(), "/tmp/reaper");
    assert_eq!(
        ReaperCommand::decode(&launch.payload),
        Ok(ReaperCommand::Execute {
            executable_path: "/usr/bin/wine".to_string(),
            arguments: vec!["game.exe".to_string(), "-w".to_string()],
            environment: vec![EnvVar::pass("DISPLAY")],
        })
    );
}
