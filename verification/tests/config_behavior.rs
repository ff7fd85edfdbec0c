use autonous::config::{
    AgentConfig, ConfigError, RawAgentEnv, RawSupervisorEnv, RawWorkerEnv, SupervisorConfig,
    WorkerConfig,
};

fn empty_worker_env() -> RawWorkerEnv {
    RawWorkerEnv {
        telegram_bot_token: None,
        openai_api_key: None,
        offset_start: None,
        timeout: None,
        sleep_seconds: None,
        drop_pending: None,
        pending_window_seconds: None,
        pending_max_messages: None,
        history_window: None,
        worker_instance_id: None,
        suicide_every: None,
        chat_completions_url: None,
        model: None,
        system_prompt: None,
    }
}

#[test]
fn worker_config_requires_both_secrets() {
    let err = WorkerConfig::from_env_values(empty_worker_env(), 100, 1).unwrap_err();
    assert_eq!(err, ConfigError::MissingTelegramToken);
    assert_eq!(err.message(), "TELEGRAM_BOT_TOKEN is required in environment");

    let mut env = empty_worker_env();
    env.telegram_bot_token = Some("tok".to_string());
    let err = WorkerConfig::from_env_values(env, 100, 1).unwrap_err();
    assert_eq!(err, ConfigError::MissingOpenAiKey);
    assert_eq!(err.message(), "OPENAI_API_KEY is required in environment");
}

#[test]
fn worker_config_defaults_are_the_documented_ones() {
    let mut env = empty_worker_env();
    env.telegram_bot_token = Some("tok123".to_string());
    env.openai_api_key = Some("key456".to_string());
    let c = WorkerConfig::from_env_values(env, 1700000000, 4242).unwrap();
    assert_eq!(c.telegram_api_base, "https://api.telegram.org/bottok123");
    assert_eq!(c.openai_api_key, "key456");
    assert_eq!(c.offset, 0);
    assert_eq!(c.timeout, 30);
    assert_eq!(c.sleep_seconds, 1);
    assert!(c.drop_pending);
    assert_eq!(c.pending_window_seconds, 600);
    assert_eq!(c.pending_max_messages, 50);
    assert_eq!(c.history_window, 12);
    assert_eq!(c.worker_instance_id, "W000000");
    assert_eq!(c.run_id, "R1700000000-4242-W000000");
    assert_eq!(c.suicide_every, 0);
    assert_eq!(
        c.openai_chat_completions_url,
        "https://api.openai.com/v1/chat/completions"
    );
    assert_eq!(c.openai_model, "gpt-4o-mini");
    assert_eq!(
        c.system_prompt,
        "你是 autonous 的执行 Worker。回复简洁、准确；需要时给出可执行步骤。"
    );
}

#[test]
fn worker_config_parses_and_falls_back_per_value() {
    let mut env = empty_worker_env();
    env.telegram_bot_token = Some("t".to_string());
    env.openai_api_key = Some("k".to_string());
    env.offset_start = Some("-7".to_string());
    env.timeout = Some("not a number".to_string());
    env.sleep_seconds = Some("5".to_string());
    env.drop_pending = Some("0".to_string());
    env.pending_window_seconds = Some("120".to_string());
    env.pending_max_messages = Some("0".to_string());
    env.history_window = Some("3".to_string());
    env.worker_instance_id = Some("W000099".to_string());
    env.suicide_every = Some("3".to_string());
    env.model = Some("gpt-x".to_string());
    let c = WorkerConfig::from_env_values(env, 50, 7).unwrap();
    assert_eq!(c.offset, -7);
    assert_eq!(c.timeout, 30, "an unparsable value falls back to the default");
    assert_eq!(c.sleep_seconds, 5);
    assert!(!c.drop_pending);
    assert_eq!(c.pending_window_seconds, 120);
    assert_eq!(c.pending_max_messages, 50, "zero is rejected like garbage");
    assert_eq!(c.history_window, 3);
    assert_eq!(c.worker_instance_id, "W000099");
    assert_eq!(c.run_id, "R50-7-W000099");
    assert_eq!(c.suicide_every, 3);
    assert_eq!(c.openai_model, "gpt-x");
}

#[test]
fn flags_accept_one_and_any_case_of_true() {
    for (value, expected) in [
        ("1", true),
        ("true", true),
        ("TRUE", true),
        ("True", true),
        ("0", false),
        ("yes", false),
        ("", false),
    ] {
        let mut env = empty_worker_env();
        env.telegram_bot_token = Some("t".to_string());
        env.openai_api_key = Some("k".to_string());
        env.drop_pending = Some(value.to_string());
        let c = WorkerConfig::from_env_values(env, 0, 0).unwrap();
        assert_eq!(c.drop_pending, expected, "flag value {value:?}");
    }
}

#[test]
fn supervisor_config_has_defaults_for_everything() {
    let c = SupervisorConfig::from_env_values(RawSupervisorEnv {
        worker_bin: None,
        workspace_dir: None,
        state_db_path: None,
        restart_delay_seconds: None,
        crash_window_seconds: None,
        crash_threshold: None,
        stable_run_seconds: None,
        auto_rollback: None,
    });
    assert_eq!(c.worker_bin, "/workspace/target/release/autonous-worker");
    assert_eq!(c.workspace_dir, "/workspace");
    assert_eq!(c.state_db_path, "/state/agent.db");
    assert_eq!(c.restart_delay_seconds, 1);
    assert_eq!(c.crash_window_seconds, 300);
    assert_eq!(c.crash_threshold, 3);
    assert_eq!(c.stable_run_seconds, 30);
    assert!(!c.auto_rollback);
}

#[test]
fn supervisor_config_reads_overrides() {
    let c = SupervisorConfig::from_env_values(RawSupervisorEnv {
        worker_bin: Some("/bin/w".to_string()),
        workspace_dir: Some("/ws".to_string()),
        state_db_path: Some("/tmp/db".to_string()),
        restart_delay_seconds: Some("2".to_string()),
        crash_window_seconds: Some("60".to_string()),
        crash_threshold: Some("5".to_string()),
        stable_run_seconds: Some("10".to_string()),
        auto_rollback: Some("true".to_string()),
    });
    assert_eq!(c.worker_bin, "/bin/w");
    assert_eq!(c.workspace_dir, "/ws");
    assert_eq!(c.state_db_path, "/tmp/db");
    assert_eq!(c.restart_delay_seconds, 2);
    assert_eq!(c.crash_window_seconds, 60);
    assert_eq!(c.crash_threshold, 5);
    assert_eq!(c.stable_run_seconds, 10);
    assert!(c.auto_rollback);
}

#[test]
fn agent_config_requires_only_the_token() {
    let err = AgentConfig::from_env_values(RawAgentEnv {
        telegram_bot_token: None,
        offset_start: None,
        timeout: None,
        sleep_seconds: None,
        drop_pending: None,
        use_codex: None,
        codex_workdir: None,
        history_window: None,
    })
    .unwrap_err();
    assert_eq!(err, ConfigError::MissingTelegramToken);

    let c = AgentConfig::from_env_values(RawAgentEnv {
        telegram_bot_token: Some("abc".to_string()),
        offset_start: None,
        timeout: None,
        sleep_seconds: None,
        drop_pending: None,
        use_codex: None,
        codex_workdir: None,
        history_window: None,
    })
    .unwrap();
    assert_eq!(c.api_base, "https://api.telegram.org/botabc");
    assert_eq!(c.offset, 0);
    assert_eq!(c.timeout, 30);
    assert_eq!(c.sleep_seconds, 1);
    assert!(c.drop_pending);
    assert!(c.use_codex);
    assert_eq!(c.codex_workdir, "/workspace");
    assert_eq!(c.history_window, 12);
}
