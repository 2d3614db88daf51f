use cellar_sandbox::env::{EnvVar, HostEnv};
use cellar_sandbox::error::CellarError;
use cellar_sandbox::reaper::{
    read_env_list, read_env_var, write_env_list, write_env_var, ReaperAction, ReaperCommand,
    ReaperError, ReaperEvent, ReaperState,
};
use cellar_sandbox::wire::Read;
use serde::ser::SerializeStructVariant;
use serde::ser::SerializeTupleVariant;

fn strings(items: &[&str]) -> Vec<String> {
    items.iter().map(|s| s.to_string()).collect()
}

fn sample() -> ReaperCommand {
    ReaperCommand::Execute {
        executable_path: "/usr/bin/wine".to_string(),
        arguments: strings(&["game.exe", "", "--lang=日本語"]),
        environment: vec![
            EnvVar::key_value("HOME", "/home"),
            EnvVar::pass("DISPLAY"),
            EnvVar::key_value("HOME", "/röot"),
            EnvVar::key_value("EMPTY", ""),
        ],
    }
}

fn trivial() -> ReaperCommand {
    ReaperCommand::execute("/usr/bin/true", Vec::new(), Vec::new())
}

/// The command as the serializer of the protocol sees it: one enum with one
/// struct variant, whose environment entries are an enum of a newtype and a
/// tuple variant.
struct WireCommand<'a>(&'a ReaperCommand);

struct WireEnv<'a>(&'a [EnvVar]);

struct WireEnvVar<'a>(&'a EnvVar);

impl<'a> serde::Serialize for WireEnvVar<'a> {
    fn serialize<S: serde::Serializer>(&self, serializer: S) -> Result<S::Ok, S::Error> {
        match self.0 {
            EnvVar::Pass(k) => serializer.serialize_newtype_variant("EnvVar", 0, "Pass", k),
            EnvVar::KeyValue(k, v) => {
                let mut state = serializer.serialize_tuple_variant("EnvVar", 1, "KeyValue", 2)?;
                state.serialize_field(k)?;
                state.serialize_field(v)?;
                state.end()
            }
        }
    }
}

impl<'a> serde::Serialize for WireEnv<'a> {
    fn serialize<S: serde::Serializer>(&self, serializer: S) -> Result<S::Ok, S::Error> {
        serializer.collect_seq(self.0.iter().map(WireEnvVar))
    }
}

impl<'a> serde::Serialize for WireCommand<'a> {
    fn serialize<S: serde::Serializer>(&self, serializer: S) -> Result<S::Ok, S::Error> {
        match self.0 {
            ReaperCommand::Execute { executable_path, arguments, environment } => {
                let mut state =
                    serializer.serialize_struct_variant("ReaperCommand", 0, "Execute", 3)?;
                state.serialize_field("exec", executable_path)?;
                state.serialize_field("args", arguments)?;
                state.serialize_field("env", &WireEnv(environment))?;
                state.end()
            }
        }
    }
}

type PlainCommand = (u32, String, Vec<String>, Vec<Result<String, (String, String)>>);

#[test]
fn trivial_command_bytes() {
    let mut expected: Vec<u8> = Vec::new();
    expected.extend_from_slice(&[0, 0, 0, 0]);
    expected.extend_from_slice(&[13, 0, 0, 0, 0, 0, 0, 0]);
    expected.extend_from_slice(b"/usr/bin/true");
    expected.extend_from_slice(&[0, 0, 0, 0, 0, 0, 0, 0]);
    expected.extend_from_slice(&[0, 0, 0, 0, 0, 0, 0, 0]);
    assert_eq!(trivial().encode(), expected);
}

#[test]
fn environment_entries_are_told_apart_on_the_wire() {
    let mut out = Vec::new();
    write_env_var(&mut out, &EnvVar::pass("A"));
    assert_eq!(out, vec![0, 0, 0, 0, 1, 0, 0, 0, 0, 0, 0, 0, b'A']);
    let mut out = Vec::new();
    write_env_var(&mut out, &EnvVar::key_value("A", "bc"));
    assert_eq!(
        out,
        vec![1, 0, 0, 0, 1, 0, 0, 0, 0, 0, 0, 0, b'A', 2, 0, 0, 0, 0, 0, 0, 0, b'b', b'c']
    );
    let mut out = vec![9u8];
    write_env_list(&mut out, &vec![EnvVar::pass("A")]);
    assert_eq!(out, vec![9, 1, 0, 0, 0, 0, 0, 0, 0, 0, 0, 0, 0, 1, 0, 0, 0, 0, 0, 0, 0, b'A']);
}

#[test]
fn encoded_bytes_are_those_of_bincode() {
    for command in [sample(), trivial()] {
        let expected = bincode::serialize(&WireCommand(&command)).unwrap();
        assert_eq!(command.encode(), expected);
    }
}

#[test]
fn bincode_reads_what_was_encoded() {
    let bytes = sample().encode();
    let plain: PlainCommand = bincode::deserialize(&bytes).unwrap();
    assert_eq!(plain.0, 0);
    assert_eq!(plain.1, "/usr/bin/wine");
    assert_eq!(plain.2, strings(&["game.exe", "", "--lang=日本語"]));
    assert_eq!(
        plain.3,
        vec![
            Err(("HOME".to_string(), "/home".to_string())),
            Ok("DISPLAY".to_string()),
            Err(("HOME".to_string(), "/röot".to_string())),
            Err(("EMPTY".to_string(), "".to_string())),
        ]
    );
}

#[test]
fn decode_reads_what_bincode_wrote() {
    let bytes = bincode::serialize(&WireCommand(&sample())).unwrap();
    assert_eq!(ReaperCommand::decode(&bytes), Ok(sample()));
}

#[test]
fn encode_then_decode_gives_the_command_back() {
    for command in [sample(), trivial()] {
        let bytes = command.encode();
        assert_eq!(ReaperCommand::decode(&bytes), Ok(command));
    }
}

#[test]
fn decode_leaves_trailing_bytes_alone() {
    let mut bytes = sample().encode();
    bytes.extend_from_slice(&[1, 2, 3]);
    assert_eq!(ReaperCommand::decode(&bytes), Ok(sample()));
}

#[test]
fn dispatch_appends_to_the_sink() {
    let mut sink = vec![7u8, 7];
    sample().dispatch(&mut sink);
    let mut expected = vec![7u8, 7];
    expected.extend_from_slice(&sample().encode());
    assert_eq!(sink, expected);
}

#[test]
fn every_truncation_fails_to_decode() {
    let bytes = sample().encode();
    for kept in 0..bytes.len() {
        assert_eq!(
            ReaperCommand::decode(&bytes[..kept]),
            Err(ReaperError::CommandDecodeFailed),
            "kept {} bytes",
            kept
        );
    }
}

#[test]
fn unknown_tags_fail_to_decode() {
    let mut bytes = trivial().encode();
    bytes[0] = 1;
    assert_eq!(ReaperCommand::decode(&bytes), Err(ReaperError::CommandDecodeFailed));
    let mut out = Vec::new();
    write_env_var(&mut out, &EnvVar::pass("A"));
    out[0] = 2;
    assert!(matches!(read_env_var(&out), Read::Bad));
}

#[test]
fn text_that_is_not_utf8_fails_to_decode() {
    let mut bytes = trivial().encode();
    bytes[12] = 0xff;
    assert_eq!(ReaperCommand::decode(&bytes), Err(ReaperError::CommandDecodeFailed));
    let mut bytes = trivial().encode();
    bytes[12] = 0xc3;
    bytes[13] = 0x28;
    assert_eq!(ReaperCommand::decode(&bytes), Err(ReaperError::CommandDecodeFailed));
}

#[test]
fn a_length_beyond_the_input_fails_to_decode() {
    let mut bytes = trivial().encode();
    bytes[11] = 0x80;
    assert_eq!(ReaperCommand::decode(&bytes), Err(ReaperError::CommandDecodeFailed));
    let mut bytes = trivial().encode();
    let at = bytes.len() - 1;
    bytes[at] = 0xff;
    assert_eq!(ReaperCommand::decode(&bytes), Err(ReaperError::CommandDecodeFailed));
}

#[test]
fn readers_hand_back_what_follows() {
    let mut out = Vec::new();
    write_env_list(&mut out, &vec![EnvVar::pass("A"), EnvVar::key_value("B", "c")]);
    out.extend_from_slice(&[5, 6]);
    match read_env_list(&out) {
        Read::Done(vars, rest) => {
            assert_eq!(vars, vec![EnvVar::pass("A"), EnvVar::key_value("B", "c")]);
            assert_eq!(rest, &[5, 6]);
        }
        _ => panic!("expected a list"),
    }
    assert!(matches!(read_env_list(&out[..out.len() - 3]), Read::Short));
}

#[test]
fn command_becomes_the_invocation_of_its_program() {
    let mut own = HostEnv::new();
    own.set("DISPLAY", ":3");
    let invocation = sample().into_invocation(&own).unwrap();
    assert_eq!(invocation.program, "/usr/bin/wine");
    assert_eq!(invocation.args, strings(&["game.exe", "", "--lang=日本語"]));
    assert_eq!(
        invocation.env,
        vec![
            ("HOME".to_string(), "/home".to_string()),
            ("DISPLAY".to_string(), ":3".to_string()),
            ("HOME".to_string(), "/röot".to_string()),
            ("EMPTY".to_string(), "".to_string()),
        ]
    );
}

#[test]
fn command_with_unresolved_variable_is_not_run() {
    match sample().into_invocation(&HostEnv::new()) {
        Err(CellarError::MissingHostVariable(name)) => assert_eq!(name, "DISPLAY"),
        other => panic!("expected a missing variable, got {:?}", other),
    }
}

#[test]
fn dispatch_then_decode_then_execute_the_trivial_command() {
    let mut pipe = Vec::new();
    trivial().dispatch(&mut pipe);
    let (state, action) = ReaperState::new().step(ReaperEvent::Received(pipe));
    assert_eq!(action, ReaperAction::Execute);
    match state {
        ReaperState::Executing(command) => {
            let invocation = command.into_invocation(&HostEnv::new()).unwrap();
            assert_eq!(invocation.program, "/usr/bin/true");
            assert!(invocation.args.is_empty());
            assert!(invocation.env.is_empty());
        }
        other => panic!("expected a command to execute, got {:?}", other),
    }
}

#[test]
fn truncated_stream_is_reported_and_nothing_runs() {
    let bytes = sample().encode();
    let (state, action) =
        ReaperState::new().step(ReaperEvent::Received(bytes[..bytes.len() - 1].to_vec()));
    assert_eq!(action, ReaperAction::ReadMore);
    assert_eq!(state, ReaperState::Decoding(bytes[..bytes.len() - 1].to_vec()));
    let (state, action) = state.step(ReaperEvent::EndOfInput);
    assert_eq!(action, ReaperAction::Abort);
    assert_eq!(state, ReaperState::Fatal(ReaperError::CommandDecodeFailed));
    let (state, action) = state.step(ReaperEvent::Received(bytes));
    assert_eq!(action, ReaperAction::Idle);
    assert_eq!(state, ReaperState::Fatal(ReaperError::CommandDecodeFailed));
}

#[test]
fn empty_stream_is_a_decode_failure() {
    let (state, action) = ReaperState::new().step(ReaperEvent::EndOfInput);
    assert_eq!(action, ReaperAction::Abort);
    assert_eq!(state, ReaperState::Fatal(ReaperError::CommandDecodeFailed));
}

#[test]
fn command_arriving_in_pieces_runs_once_complete() {
    let bytes = sample().encode();
    let mut state = ReaperState::new();
    let mut actions = Vec::new();
    for chunk in bytes.chunks(5) {
        let (next, action) = state.step(ReaperEvent::Received(chunk.to_vec()));
        state = next;
        actions.push(action);
    }
    assert_eq!(actions.last(), Some(&ReaperAction::Execute));
    assert!(actions[..actions.len() - 1].iter().all(|a| *a == ReaperAction::ReadMore));
    assert_eq!(state, ReaperState::Executing(sample()));
}

#[test]
fn malformed_stream_aborts_at_once() {
    let mut bytes = trivial().encode();
    bytes[0] = 9;
    let (state, action) = ReaperState::new().step(ReaperEvent::Received(bytes));
    assert_eq!(action, ReaperAction::Abort);
    assert_eq!(state, ReaperState::Fatal(ReaperError::CommandDecodeFailed));
}

#[test]
fn failed_start_of_the_program_is_fatal() {
    let (state, _) = ReaperState::new().step(ReaperEvent::Received(trivial().encode()));
    let (state, action) = state.step(ReaperEvent::ExecFailed("no such file".to_string()));
    assert_eq!(action, ReaperAction::Abort);
    assert_eq!(state, ReaperState::Fatal(ReaperError::ChildExecFailed("no such file".to_string())));
}

#[test]
fn events_out_of_place_change_nothing() {
    let (state, action) = ReaperState::new().step(ReaperEvent::ExecFailed("x".to_string()));
    assert_eq!((state, action), (ReaperState::AwaitingCommand, ReaperAction::Idle));
    let (state, _) = ReaperState::new().step(ReaperEvent::Received(trivial().encode()));
    let (state, action) = state.step(ReaperEvent::EndOfInput);
    assert_eq!(action, ReaperAction::Idle);
    assert_eq!(state, ReaperState::Executing(trivial()));
    let (state, action) = ReaperState::Decoding(vec![0]).step(ReaperEvent::ExecFailed("x".to_string()));
    assert_eq!((state, action), (ReaperState::Decoding(vec![0]), ReaperAction::Idle));
}
