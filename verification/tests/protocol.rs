use agentos_actor::protocol::{
    combine_additional_instructions, read_only_config_message, select_config_by_category,
    AcpCreateSessionRequest, AcpPromptTextAccumulator, AcpResumeSessionRequest, AcpRuntimeKind,
    ConfigOption, OptionField, ResolvedAcpCreateSessionRequest, ResolvedAcpResumeSessionRequest,
    ACP_PROMPT_CHUNK_LIMIT, ACP_PROMPT_TEXT_LIMIT_BYTES, DEFAULT_ACP_CLIENT_CAPABILITIES,
    DEFAULT_ACP_CWD, DEFAULT_ACP_MCP_SERVERS, DEFAULT_ACP_PROTOCOL_VERSION,
};

#[test]
fn additional_instructions_are_assembled_only_in_the_acp_layer() {
    assert_eq!(
        combine_additional_instructions(Some(" base "), Some("session")),
        Some(String::from("base\n\nsession"))
    );
    assert_eq!(combine_additional_instructions(Some("  "), None), None);
}

#[test]
fn instructions_drop_empty_parts() {
    assert_eq!(combine_additional_instructions(None, Some("\t only \n")), Some(String::from("only")));
    assert_eq!(combine_additional_instructions(Some("base"), Some(" ")), Some(String::from("base")));
    assert_eq!(combine_additional_instructions(None, None), None);
}

#[test]
fn omitted_session_fields_resolve_from_shared_sidecar_defaults() {
    let resolved = ResolvedAcpCreateSessionRequest::from(AcpCreateSessionRequest {
        agent_type: String::from("pi"),
        runtime: None,
        cwd: None,
        args: None,
        env: None,
        protocol_version: None,
        client_capabilities: None,
        mcp_servers: None,
        skip_os_instructions: None,
        additional_instructions: None,
    });

    assert_eq!(resolved.runtime, AcpRuntimeKind::JavaScript);
    assert_eq!(resolved.cwd, DEFAULT_ACP_CWD);
    assert!(resolved.args.is_empty());
    assert!(resolved.env.is_empty());
    assert_eq!(resolved.protocol_version, DEFAULT_ACP_PROTOCOL_VERSION);
    assert_eq!(resolved.client_capabilities, DEFAULT_ACP_CLIENT_CAPABILITIES);
    assert_eq!(resolved.mcp_servers, DEFAULT_ACP_MCP_SERVERS);
    assert!(!resolved.skip_os_instructions);
}

#[test]
fn resume_requests_default_their_cwd() {
    let resolved = ResolvedAcpResumeSessionRequest::from(AcpResumeSessionRequest {
        session_id: "s".into(),
        agent_type: "pi".into(),
        transcript_path: None,
        cwd: Some("/home".into()),
        env: None,
    });
    assert_eq!(resolved.cwd, "/home");
    assert!(resolved.env.is_empty());
}

#[test]
fn prompt_text_accumulation_is_sidecar_shared() {
    let mut capture = AcpPromptTextAccumulator::new();
    assert_eq!(capture.push_chunk("hello"), Ok(false));
    assert_eq!(capture.push_chunk(" world"), Ok(false));
    assert_eq!(capture.into_text(), "hello world");
}

#[test]
fn prompt_text_limits_fail_at_the_shared_sidecar_boundary() {
    let mut bytes = AcpPromptTextAccumulator::with_counts(ACP_PROMPT_TEXT_LIMIT_BYTES, 0);
    assert!(bytes.push_chunk("x").expect_err("byte limit").contains("reduce agent output"));
    let mut chunks = AcpPromptTextAccumulator::with_counts(0, ACP_PROMPT_CHUNK_LIMIT);
    assert!(chunks.push_chunk("x").expect_err("chunk limit").contains("chunk limit exceeded"));
}

#[test]
fn prompt_text_near_limit_warning_is_edge_triggered() {
    let threshold = (ACP_PROMPT_TEXT_LIMIT_BYTES * 80).div_ceil(100);
    let mut capture = AcpPromptTextAccumulator::with_counts(threshold - 1, 0);
    assert!(capture.push_chunk("x").expect("cross limit"));
    assert!(!capture.push_chunk("x").expect("remain near limit"));
}

#[test]
fn config_category_selection_is_sidecar_owned() {
    let options = vec![ConfigOption::Object {
        category: Some("model".into()),
        id: OptionField::Present("model-picker".into()),
        read_only: OptionField::Present(true),
    }];
    let selected = select_config_by_category(&options, "model").expect("select model");
    assert_eq!(selected.config_id, "model-picker");
    assert!(selected.read_only);
    let missing = select_config_by_category(&options, "thought_level").expect("fallback");
    assert_eq!(missing.config_id, "thought_level");
    assert!(!missing.read_only);
    assert!(read_only_config_message("opencode", "model").contains("configured before createSession()"));
    assert_eq!(
        read_only_config_message("pi", "mode"),
        "The mode config option is read-only for pi sessions."
    );
}

#[test]
fn config_option_errors_name_the_option() {
    let options = vec![ConfigOption::NotObject];
    assert_eq!(select_config_by_category(&options, "model").unwrap_err(), "ACP config option 0 must be an object");
    let options = vec![
        ConfigOption::Object { category: Some("other".into()), id: OptionField::Missing, read_only: OptionField::Missing },
        ConfigOption::Object { category: Some("model".into()), id: OptionField::WrongType, read_only: OptionField::Missing },
    ];
    assert_eq!(select_config_by_category(&options, "model").unwrap_err(), "ACP config option 1 id must be a string");
}
