//! Configuration built from raw environment values: every value is
//! parsed and defaulted exactly as the processes read it, with the two
//! required secrets rejected up front. The surrounding process only
//! collects the raw strings; every decision about them is made here.

use vstd::prelude::*;
use vstd::string::StringExecFns;

use crate::text::eq_ignore_ascii_case_str;
use crate::text::format_u64;
use crate::text::parse_i64;
use crate::text::parse_u64;
use crate::text::parse_usize;
use crate::text::spec_decimal;
use crate::text::spec_digits_value;
use crate::text::spec_eq_ignore_ascii_case;
use crate::text::spec_i64_value;
use crate::text::spec_parses_as_i64;
use crate::text::spec_parses_as_u64;
use crate::text::spec_parses_as_usize;
use crate::text::spec_unsigned_body;
use crate::text::str_eq;

verus! {

/// An environment value read as an unsigned count: an unparsable or
/// missing value falls back to the default.
pub open spec fn spec_env_u64(raw: Option<String>, default: u64) -> u64 {
    match raw {
        None => default,
        Some(v) => if spec_parses_as_u64(v@) {
            spec_digits_value(spec_unsigned_body(v@)) as u64
        } else {
            default
        },
    }
}

pub fn env_u64(raw: &Option<String>, default: u64) -> (r: u64)
    ensures
        r == spec_env_u64(*raw, default),
{
    match raw {
        None => default,
        Some(v) => match parse_u64(v.as_str()) {
            Some(parsed) => parsed,
            None => default,
        },
    }
}

pub open spec fn spec_env_usize(raw: Option<String>, default: usize) -> usize {
    match raw {
        None => default,
        Some(v) => if spec_parses_as_usize(v@) {
            spec_digits_value(spec_unsigned_body(v@)) as usize
        } else {
            default
        },
    }
}

pub fn env_usize(raw: &Option<String>, default: usize) -> (r: usize)
    ensures
        r == spec_env_usize(*raw, default),
{
    match raw {
        None => default,
        Some(v) => match parse_usize(v.as_str()) {
            Some(parsed) => parsed,
            None => default,
        },
    }
}

/// As `spec_env_usize`, but zero is rejected like an unparsable value.
pub open spec fn spec_env_usize_positive(raw: Option<String>, default: usize) -> usize {
    match raw {
        None => default,
        Some(v) => if spec_parses_as_usize(v@) && spec_digits_value(spec_unsigned_body(v@)) > 0 {
            spec_digits_value(spec_unsigned_body(v@)) as usize
        } else {
            default
        },
    }
}

pub fn env_usize_positive(raw: &Option<String>, default: usize) -> (r: usize)
    ensures
        r == spec_env_usize_positive(*raw, default),
{
    match raw {
        None => default,
        Some(v) => match parse_usize(v.as_str()) {
            Some(parsed) => if parsed > 0 {
                parsed
            } else {
                default
            },
            None => default,
        },
    }
}

pub open spec fn spec_env_i64(raw: Option<String>, default: i64) -> i64 {
    match raw {
        None => default,
        Some(v) => if spec_parses_as_i64(v@) {
            spec_i64_value(v@) as i64
        } else {
            default
        },
    }
}

pub fn env_i64(raw: &Option<String>, default: i64) -> (r: i64)
    ensures
        r == spec_env_i64(*raw, default),
{
    match raw {
        None => default,
        Some(v) => match parse_i64(v.as_str()) {
            Some(parsed) => parsed,
            None => default,
        },
    }
}

/// An environment switch: `1` or any casing of `true` turns it on; a
/// missing value keeps the default, any other value turns it off.
pub open spec fn spec_env_flag(raw: Option<String>, default: bool) -> bool {
    match raw {
        None => default,
        Some(v) => v@ == "1"@ || spec_eq_ignore_ascii_case(v@, "true"@),
    }
}

pub fn env_flag(raw: &Option<String>, default: bool) -> (r: bool)
    ensures
        r == spec_env_flag(*raw, default),
{
    match raw {
        None => default,
        Some(v) => str_eq(v.as_str(), "1") || eq_ignore_ascii_case_str(v.as_str(), "true"),
    }
}

pub open spec fn spec_env_string(raw: Option<String>, default: Seq<char>) -> Seq<char> {
    match raw {
        None => default,
        Some(v) => v@,
    }
}

pub fn env_string(raw: Option<String>, default: &str) -> (r: String)
    ensures
        r@ == spec_env_string(raw, default@),
{
    match raw {
        None => default.to_owned(),
        Some(v) => v,
    }
}

/// Why startup is refused: the required secrets are fatal to miss.
#[derive(Clone, Copy, PartialEq, Eq, Structural, Debug)]
pub enum ConfigError {
    MissingTelegramToken,
    MissingOpenAiKey,
}

impl ConfigError {
    pub fn message(&self) -> (r: String)
        ensures
            *self == ConfigError::MissingTelegramToken ==> r@
                == "TELEGRAM_BOT_TOKEN is required in environment"@,
            *self == ConfigError::MissingOpenAiKey ==> r@
                == "OPENAI_API_KEY is required in environment"@,
    {
        match self {
            ConfigError::MissingTelegramToken => String::from_str(
                "TELEGRAM_BOT_TOKEN is required in environment",
            ),
            ConfigError::MissingOpenAiKey => String::from_str(
                "OPENAI_API_KEY is required in environment",
            ),
        }
    }
}

/// The worker's run identifier: the start moment, the process, and the
/// supervisor-minted instance identifier.
pub open spec fn spec_run_id(now: nat, pid: nat, instance: Seq<char>) -> Seq<char> {
    "R"@ + spec_decimal(now) + "-"@ + spec_decimal(pid) + "-"@ + instance
}

/// The raw environment values the worker reads, in the order it reads
/// them; `None` is an unset variable.
pub struct RawWorkerEnv {
    pub telegram_bot_token: Option<String>,
    pub openai_api_key: Option<String>,
    pub offset_start: Option<String>,
    pub timeout: Option<String>,
    pub sleep_seconds: Option<String>,
    pub drop_pending: Option<String>,
    pub pending_window_seconds: Option<String>,
    pub pending_max_messages: Option<String>,
    pub history_window: Option<String>,
    pub worker_instance_id: Option<String>,
    pub suicide_every: Option<String>,
    pub chat_completions_url: Option<String>,
    pub model: Option<String>,
    pub system_prompt: Option<String>,
}

/// The worker's effective configuration.
#[derive(Debug)]
pub struct WorkerConfig {
    pub telegram_api_base: String,
    pub offset: i64,
    pub timeout: u64,
    pub sleep_seconds: u64,
    pub drop_pending: bool,
    pub pending_window_seconds: u64,
    pub pending_max_messages: usize,
    pub history_window: usize,
    pub worker_instance_id: String,
    pub run_id: String,
    pub suicide_every: u64,
    pub openai_api_key: String,
    pub openai_chat_completions_url: String,
    pub openai_model: String,
    pub system_prompt: String,
}

impl WorkerConfig {
    /// Build the worker configuration from the raw environment: the two
    /// secrets are required, everything else is parsed with its default.
    pub fn from_env_values(raw: RawWorkerEnv, now: i64, pid: u32) -> (r: Result<
        WorkerConfig,
        ConfigError,
    >)
        requires
            now >= 0,
        ensures
            match r {
                Err(e) => (raw.telegram_bot_token is None && e
                    == ConfigError::MissingTelegramToken) || (raw.telegram_bot_token is Some
                    && raw.openai_api_key is None && e == ConfigError::MissingOpenAiKey),
                Ok(c) => {
                    &&& raw.telegram_bot_token is Some
                    &&& raw.openai_api_key is Some
                    &&& c.telegram_api_base@ == "https://api.telegram.org/bot"@
                        + raw.telegram_bot_token->0@
                    &&& c.openai_api_key == raw.openai_api_key->0
                    &&& c.offset == spec_env_i64(raw.offset_start, 0)
                    &&& c.timeout == spec_env_u64(raw.timeout, 30)
                    &&& c.sleep_seconds == spec_env_u64(raw.sleep_seconds, 1)
                    &&& c.drop_pending == spec_env_flag(raw.drop_pending, true)
                    &&& c.pending_window_seconds == spec_env_u64(raw.pending_window_seconds, 600)
                    &&& c.pending_max_messages == spec_env_usize_positive(
                        raw.pending_max_messages,
                        50,
                    )
                    &&& c.history_window == spec_env_usize(raw.history_window, 12)
                    &&& c.worker_instance_id@ == spec_env_string(
                        raw.worker_instance_id,
                        "W000000"@,
                    )
                    &&& c.run_id@ == spec_run_id(
                        now as nat,
                        pid as nat,
                        spec_env_string(raw.worker_instance_id, "W000000"@),
                    )
                    &&& c.suicide_every == spec_env_u64(raw.suicide_every, 0)
                    &&& c.openai_chat_completions_url@ == spec_env_string(
                        raw.chat_completions_url,
                        "https://api.openai.com/v1/chat/completions"@,
                    )
                    &&& c.openai_model@ == spec_env_string(raw.model, "gpt-4o-mini"@)
                    &&& c.system_prompt@ == spec_env_string(
                        raw.system_prompt,
                        "你是 autonous 的执行 Worker。回复简洁、准确；需要时给出可执行步骤。"@,
                    )
                },
            },
    {
        let token = match raw.telegram_bot_token {
            None => {
                return Err(ConfigError::MissingTelegramToken);
            },
            Some(t) => t,
        };
        let openai_api_key = match raw.openai_api_key {
            None => {
                return Err(ConfigError::MissingOpenAiKey);
            },
            Some(k) => k,
        };
        let offset = env_i64(&raw.offset_start, 0);
        let timeout = env_u64(&raw.timeout, 30);
        let sleep_seconds = env_u64(&raw.sleep_seconds, 1);
        let drop_pending = env_flag(&raw.drop_pending, true);
        let pending_window_seconds = env_u64(&raw.pending_window_seconds, 600);
        let pending_max_messages = env_usize_positive(&raw.pending_max_messages, 50);
        let history_window = env_usize(&raw.history_window, 12);
        let worker_instance_id = env_string(raw.worker_instance_id, "W000000");
        let suicide_every = env_u64(&raw.suicide_every, 0);
        let openai_chat_completions_url = env_string(
            raw.chat_completions_url,
            "https://api.openai.com/v1/chat/completions",
        );
        let openai_model = env_string(raw.model, "gpt-4o-mini");
        let system_prompt = env_string(
            raw.system_prompt,
            "你是 autonous 的执行 Worker。回复简洁、准确；需要时给出可执行步骤。",
        );
        let mut telegram_api_base = String::from_str("https://api.telegram.org/bot");
        telegram_api_base.append(token.as_str());
        let mut run_id = String::from_str("R");
        run_id.append(format_u64(now as u64).as_str());
        run_id.append("-");
        run_id.append(format_u64(pid as u64).as_str());
        run_id.append("-");
        run_id.append(worker_instance_id.as_str());
        proof {
            assert(run_id@ =~= spec_run_id(
                now as nat,
                pid as nat,
                spec_env_string(raw.worker_instance_id, "W000000"@),
            ));
        }
        Ok(
            WorkerConfig {
                telegram_api_base,
                offset,
                timeout,
                sleep_seconds,
                drop_pending,
                pending_window_seconds,
                pending_max_messages,
                history_window,
                worker_instance_id,
                run_id,
                suicide_every,
                openai_api_key,
                openai_chat_completions_url,
                openai_model,
                system_prompt,
            },
        )
    }
}

/// The raw environment values the supervisor reads.
pub struct RawSupervisorEnv {
    pub worker_bin: Option<String>,
    pub workspace_dir: Option<String>,
    pub state_db_path: Option<String>,
    pub restart_delay_seconds: Option<String>,
    pub crash_window_seconds: Option<String>,
    pub crash_threshold: Option<String>,
    pub stable_run_seconds: Option<String>,
    pub auto_rollback: Option<String>,
}

/// The supervisor's effective configuration; nothing in it is required,
/// every value has a default.
#[derive(Debug)]
pub struct SupervisorConfig {
    pub worker_bin: String,
    pub workspace_dir: String,
    pub state_db_path: String,
    pub restart_delay_seconds: u64,
    pub crash_window_seconds: u64,
    pub crash_threshold: usize,
    pub stable_run_seconds: u64,
    pub auto_rollback: bool,
}

impl SupervisorConfig {
    pub fn from_env_values(raw: RawSupervisorEnv) -> (c: SupervisorConfig)
        ensures
            c.worker_bin@ == spec_env_string(
                raw.worker_bin,
                "/workspace/target/release/autonous-worker"@,
            ),
            c.workspace_dir@ == spec_env_string(raw.workspace_dir, "/workspace"@),
            c.state_db_path@ == spec_env_string(raw.state_db_path, "/state/agent.db"@),
            c.restart_delay_seconds == spec_env_u64(raw.restart_delay_seconds, 1),
            c.crash_window_seconds == spec_env_u64(raw.crash_window_seconds, 300),
            c.crash_threshold == spec_env_usize(raw.crash_threshold, 3),
            c.stable_run_seconds == spec_env_u64(raw.stable_run_seconds, 30),
            c.auto_rollback == spec_env_flag(raw.auto_rollback, false),
    {
        let restart_delay_seconds = env_u64(&raw.restart_delay_seconds, 1);
        let crash_window_seconds = env_u64(&raw.crash_window_seconds, 300);
        let crash_threshold = env_usize(&raw.crash_threshold, 3);
        let stable_run_seconds = env_u64(&raw.stable_run_seconds, 30);
        let auto_rollback = env_flag(&raw.auto_rollback, false);
        SupervisorConfig {
            worker_bin: env_string(raw.worker_bin, "/workspace/target/release/autonous-worker"),
            workspace_dir: env_string(raw.workspace_dir, "/workspace"),
            state_db_path: env_string(raw.state_db_path, "/state/agent.db"),
            restart_delay_seconds,
            crash_window_seconds,
            crash_threshold,
            stable_run_seconds,
            auto_rollback,
        }
    }
}

/// The raw environment values the agent loop reads.
pub struct RawAgentEnv {
    pub telegram_bot_token: Option<String>,
    pub offset_start: Option<String>,
    pub timeout: Option<String>,
    pub sleep_seconds: Option<String>,
    pub drop_pending: Option<String>,
    pub use_codex: Option<String>,
    pub codex_workdir: Option<String>,
    pub history_window: Option<String>,
}

/// The agent loop's effective configuration.
#[derive(Debug)]
pub struct AgentConfig {
    pub api_base: String,
    pub offset: i64,
    pub timeout: u64,
    pub sleep_seconds: u64,
    pub drop_pending: bool,
    pub use_codex: bool,
    pub codex_workdir: String,
    pub history_window: usize,
}

impl AgentConfig {
    pub fn from_env_values(raw: RawAgentEnv) -> (r: Result<AgentConfig, ConfigError>)
        ensures
            match r {
                Err(e) => raw.telegram_bot_token is None && e
                    == ConfigError::MissingTelegramToken,
                Ok(c) => {
                    &&& raw.telegram_bot_token is Some
                    &&& c.api_base@ == "https://api.telegram.org/bot"@
                        + raw.telegram_bot_token->0@
                    &&& c.offset == spec_env_i64(raw.offset_start, 0)
                    &&& c.timeout == spec_env_u64(raw.timeout, 30)
                    &&& c.sleep_seconds == spec_env_u64(raw.sleep_seconds, 1)
                    &&& c.drop_pending == spec_env_flag(raw.drop_pending, true)
                    &&& c.use_codex == spec_env_flag(raw.use_codex, true)
                    &&& c.codex_workdir@ == spec_env_string(raw.codex_workdir, "/workspace"@)
                    &&& c.history_window == spec_env_usize(raw.history_window, 12)
                },
            },
    {
        let token = match raw.telegram_bot_token {
            None => {
                return Err(ConfigError::MissingTelegramToken);
            },
            Some(t) => t,
        };
        let offset = env_i64(&raw.offset_start, 0);
        let timeout = env_u64(&raw.timeout, 30);
        let sleep_seconds = env_u64(&raw.sleep_seconds, 1);
        let drop_pending = env_flag(&raw.drop_pending, true);
        let use_codex = env_flag(&raw.use_codex, true);
        let codex_workdir = env_string(raw.codex_workdir, "/workspace");
        let history_window = env_usize(&raw.history_window, 12);
        let mut api_base = String::from_str("https://api.telegram.org/bot");
        api_base.append(token.as_str());
        Ok(
            AgentConfig {
                api_base,
                offset,
                timeout,
                sleep_seconds,
                drop_pending,
                use_codex,
                codex_workdir,
                history_window,
            },
        )
    }
}

} // verus!
