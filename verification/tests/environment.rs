use slight::env::HostEnvironment;
use slight::paths::{join_path, split_search_path};
use slight::stdio::{default_env_allowlist, sanitized_environment};
use slight::acp_client::RequestId;
use slight::jsonrpc::{Inbound, RawMessage};
use slight::transport::{frame_bytes, read_step, FrameReader, FrameWriter, LineStep, Transport};
use std::io::Write;

fn host() -> HostEnvironment {
    HostEnvironment {
        vars: vec![
            ("PATH".to_string(), "/usr/bin:/bin".to_string()),
            ("ANTHROPIC_API_KEY".to_string(), "leaked".to_string()),
            ("HOME".to_string(), "/home/me".to_string()),
        ],
        os: "linux".to_string(),
        arch: "x86_64".to_string(),
        executable_dir: None,
    }
}

#[test]
fn overrides_apply_after_allowlist() {
    let environment = sanitized_environment(
        &["PATH"],
        &[("SLIGHT_TEST_KEY".to_string(), "from-config".to_string())],
        &[
            ("SLIGHT_TEST_KEY".to_string(), "from-launch".to_string()),
            ("ANTHROPIC_API_KEY".to_string(), "secret".to_string()),
        ],
        &host(),
    );
    let find = |key: &str| environment.iter().find(|(candidate, _)| candidate == key).map(|(_, value)| value.clone());
    assert_eq!(find("SLIGHT_TEST_KEY").as_deref(), Some("from-launch"));
    assert_eq!(find("ANTHROPIC_API_KEY").as_deref(), Some("secret"));
    assert_eq!(find("PATH").as_deref(), Some("/usr/bin:/bin"));
    assert_eq!(find("HOME"), None);
    assert_eq!(find("SLIGHT_ENSURE_ABSENT"), None);
}

#[test]
fn default_allowlist_drops_provider_tokens() {
    let allowlist = default_env_allowlist();
    let environment = sanitized_environment(&allowlist, &[], &[], &host());
    assert_eq!(
        environment,
        vec![("PATH".to_string(), "/usr/bin:/bin".to_string()), ("HOME".to_string(), "/home/me".to_string())]
    );
}

#[test]
fn search_paths_split_and_join() {
    assert_eq!(split_search_path("/a::/b"), vec!["/a".to_string(), "".to_string(), "/b".to_string()]);
    assert_eq!(join_path("/usr/bin", "opencode"), "/usr/bin/opencode");
    assert_eq!(join_path("/usr/bin/", "opencode"), "/usr/bin/opencode");
    assert_eq!(join_path("", "opencode"), "opencode");
    assert_eq!(join_path("/usr", "/abs"), "/abs");
}

#[test]
fn write_normalizes_double_newline() {
    let mut buffer = Vec::new();
    let mut writer = FrameWriter::new(&mut buffer);
    writer.write_encoded(b"{\"a\":1}\n\n").unwrap();
    assert_eq!(buffer, b"{\"a\":1}\n");
}

#[test]
fn lines_become_frames() {
    assert_eq!(read_step("{\"a\":1}\r\n"), LineStep::Frame("{\"a\":1}".to_string()));
    assert_eq!(read_step("\r\n"), LineStep::Blank);
    assert_eq!(read_step(""), LineStep::End);
    assert_eq!(read_step(&"x".repeat(16 * 1024 * 1024 + 1)), LineStep::TooLong);
    assert_eq!(frame_bytes(b"x\r\n"), b"x\n".to_vec());
}

#[test]
fn frames_round_trip_over_a_pipe() {
    let (client_read, mut agent_write) = std::io::pipe().unwrap();
    let (agent_read, client_write) = std::io::pipe().unwrap();

    let mut writer = FrameWriter::new(client_write);
    writer.write_encoded(br#"{"jsonrpc":"2.0","id":1,"method":"initialize"}"#).unwrap();

    let mut reader = FrameReader::new(std::io::BufReader::new(agent_read));
    let line = reader.read_frame().unwrap().unwrap();
    assert_eq!(line, r#"{"jsonrpc":"2.0","id":1,"method":"initialize"}"#);

    // The agent replies on the other pipe.
    agent_write.write_all(b"{\"jsonrpc\":\"2.0\",\"id\":1,\"result\":{}}\n").unwrap();
    agent_write.flush().unwrap();
    let mut client_reader = FrameReader::new(std::io::BufReader::new(client_read));
    assert_eq!(client_reader.read_frame().unwrap().unwrap(), r#"{"jsonrpc":"2.0","id":1,"result":{}}"#);
}

#[test]
fn skips_blank_lines_and_handles_crlf() {
    let input: &[u8] = b"\n\r\n{\"jsonrpc\":\"2.0\",\"id\":1,\"result\":{}}\r\n";
    let mut reader = FrameReader::new(std::io::BufReader::new(input));
    assert_eq!(reader.read_frame().unwrap().unwrap(), r#"{"jsonrpc":"2.0","id":1,"result":{}}"#);
    assert!(reader.read_frame().unwrap().is_none());
}

#[test]
fn recv_raw_and_recv_inbound_route_messages() {
    let lines = "{\"jsonrpc\":\"2.0\",\"id\":1,\"method\":\"session/prompt\",\"params\":null}\n\
        {\"jsonrpc\":\"2.0\",\"method\":\"session/update\",\"params\":{\"sessionId\":\"s\",\"update\":{\"sessionUpdate\":\"agent_message_chunk\",\"content\":{\"type\":\"text\",\"text\":\"hi\"}}}}\n";
    let mut transport = Transport::new(std::io::BufReader::new(lines.as_bytes()), Vec::new());

    match transport.recv_raw().unwrap().unwrap() {
        RawMessage::Request { id, method, .. } => {
            assert!(matches!(id, RequestId::Number(1)));
            assert_eq!(method, "session/prompt");
        }
        other => panic!("expected request, got {other:?}"),
    }

    match transport.recv_inbound().unwrap().unwrap() {
        Inbound::SessionUpdate { .. } => {}
        other => panic!("expected notification, got {other:?}"),
    }
    assert!(transport.recv_line().unwrap().is_none());
}

#[test]
fn oversized_line_is_refused_and_sent_frames_reach_the_writer() {
    let long = format!("{}\n", "x".repeat(16 * 1024 * 1024 + 1));
    let mut reader = FrameReader::new(std::io::BufReader::new(long.as_bytes()));
    match reader.read_frame() {
        Err(error) => assert_eq!(error.message(), "malformed ACP frame: frame exceeds 16777216 bytes"),
        Ok(other) => panic!("expected a refusal, got {other:?}"),
    }
    let mut transport = Transport::new(std::io::BufReader::new(&b""[..]), Vec::new());
    transport.send_raw(b"{}\n").unwrap();
    let (_, writer) = transport.split();
    assert_eq!(writer.into_inner(), b"{}\n".to_vec());
}
