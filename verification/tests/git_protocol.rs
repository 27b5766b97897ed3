use loom_server::routes::git::{
    advertisement, check_request_content_type, extract_branch_name, parse_push_commands, pkt_flush, pkt_framing_ok,
    pkt_line, requested_service, GitService, InfoRefsParams, ZERO_SHA,
};

#[test]
fn test_pkt_line() {
    let line = pkt_line("# service=git-upload-pack\n");
    assert_eq!(line, b"001e# service=git-upload-pack\n");
}

#[test]
fn test_pkt_flush() {
    assert_eq!(pkt_flush(), b"0000");
}

#[test]
fn test_git_service_from_str() {
    assert_eq!(GitService::from_str("git-upload-pack"), Some(GitService::UploadPack));
    assert_eq!(GitService::from_str("git-receive-pack"), Some(GitService::ReceivePack));
    assert_eq!(GitService::from_str("invalid"), None);
}

#[test]
fn test_git_service_content_types() {
    assert_eq!(GitService::UploadPack.content_type(), "application/x-git-upload-pack-advertisement");
    assert_eq!(GitService::ReceivePack.content_type(), "application/x-git-receive-pack-advertisement");
    assert_eq!(GitService::UploadPack.result_content_type(), "application/x-git-upload-pack-result");
    assert_eq!(GitService::ReceivePack.result_content_type(), "application/x-git-receive-pack-result");
}

#[test]
fn test_parse_push_commands_empty() {
    let commands = parse_push_commands(b"");
    assert!(commands.is_empty());
}

#[test]
fn test_parse_push_commands_flush() {
    let commands = parse_push_commands(b"0000");
    assert!(commands.is_empty());
}

#[test]
fn test_parse_push_commands_single() {
    let old = "0000000000000000000000000000000000000000";
    let new = "1234567890abcdef1234567890abcdef12345678";
    let refname = "refs/heads/main";
    let line = format!("{} {} {}\n", old, new, refname);
    let pkt = format!("{:04x}{}", line.len() + 4, line);
    let data = format!("{}0000", pkt);

    let commands = parse_push_commands(data.as_bytes());
    assert_eq!(commands.len(), 1);
    assert_eq!(commands[0].old_sha, old);
    assert_eq!(commands[0].new_sha, new);
    assert_eq!(commands[0].ref_name, refname);
}

#[test]
fn test_extract_branch_name() {
    assert_eq!(extract_branch_name("refs/heads/main"), Some("main"));
    assert_eq!(extract_branch_name("refs/heads/feature/test"), Some("feature/test"));
    assert_eq!(extract_branch_name("refs/tags/v1.0"), None);
    assert_eq!(extract_branch_name("main"), None);
}

#[test]
fn test_zero_sha_constant() {
    assert_eq!(ZERO_SHA.len(), 40);
    assert!(ZERO_SHA.chars().all(|c| c == '0'));
}

#[test]
fn push_command_capabilities_are_cut_at_nul() {
    let line = "0000000000000000000000000000000000000000 1111111111111111111111111111111111111111 refs/heads/dev\0report-status side-band-64k\n";
    let pkt = format!("{:04x}{}0000", line.len() + 4, line);
    let commands = parse_push_commands(pkt.as_bytes());
    assert_eq!(commands.len(), 1);
    assert_eq!(commands[0].ref_name, "refs/heads/dev");
}

#[test]
fn push_line_with_too_few_parts_is_skipped() {
    let line = "abc def\n";
    let pkt = format!("{:04x}{}0000", line.len() + 4, line);
    assert!(parse_push_commands(pkt.as_bytes()).is_empty());
}

#[test]
fn framing_with_short_length_is_refused() {
    assert!(pkt_framing_ok(b"0000"));
    assert!(pkt_framing_ok(b""));
    assert!(!pkt_framing_ok(b"0002"));
}

#[test]
fn pkt_line_of_empty_data() {
    assert_eq!(pkt_line(""), b"0004");
}

#[test]
fn info_refs_service_is_checked() {
    let ok = requested_service(&InfoRefsParams { service: "git-receive-pack".to_string() });
    assert!(matches!(ok, Ok(GitService::ReceivePack)));
    let bad = requested_service(&InfoRefsParams { service: "git-foo".to_string() });
    match bad {
        Err(loom_server::error::ServerError::BadRequest(m)) => assert_eq!(m, "Invalid service: git-foo"),
        _ => panic!("expected a bad request"),
    }
}

#[test]
fn request_content_type_is_checked() {
    assert!(check_request_content_type(GitService::UploadPack, "application/x-git-upload-pack-request").is_ok());
    match check_request_content_type(GitService::ReceivePack, "text/plain") {
        Err(loom_server::error::ServerError::BadRequest(m)) => assert_eq!(m, "Invalid content type: text/plain"),
        _ => panic!("expected a bad request"),
    }
}

#[test]
fn advertisement_frames_service_line_then_flush() {
    let body = advertisement(GitService::UploadPack, &b"REFS".to_vec());
    assert_eq!(body, b"001e# service=git-upload-pack\n0000REFS".to_vec());
}
