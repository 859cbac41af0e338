//! Configuration data for the gateway and the agents: server address,
//! provider identities with auth-token pools and rate limits, and the
//! per-agent role/skill assignment. Loading and saving these from TOML or
//! JSON files is I/O and lives outside this library; here the types and the
//! provider-type wire tokens are defined.

use vstd::prelude::*;
use std::collections::HashMap;
use crate::json::str_eq;

verus! {

/// Top-level gateway configuration.
#[derive(Debug)]
pub struct GatewayConfig {
    pub server: ServerConfig,
    pub providers: Vec<ProviderConfig>,
}

/// Listen address of the gateway.
#[derive(Debug)]
pub struct ServerConfig {
    pub host: String,
    pub port: u16,
}

/// Which wire protocol a provider speaks.
#[derive(Clone, Copy, Debug, PartialEq, Eq, Structural)]
pub enum ProviderType {
    /// An OpenAI-compatible REST API.
    OpenAiCompatible,
    /// The Anthropic messages API: different auth headers and request
    /// format.
    Anthropic,
    /// A provider driven through the `cursor-agent` command-line tool.
    Cursor,
    /// A provider driven through Anthropic's coding-agent command-line
    /// tool in print mode.
    ClaudeCode,
    /// A provider driven through the `codex` command-line tool in exec
    /// mode.
    CodexCli,
}

impl ProviderType {
    /// Wire token.
    pub open spec fn spec_token(self) -> Seq<char> {
        match self {
            ProviderType::OpenAiCompatible => "open_ai_compatible"@,
            ProviderType::Anthropic => "anthropic"@,
            ProviderType::Cursor => "cursor"@,
            ProviderType::ClaudeCode => "claude_code"@,
            ProviderType::CodexCli => "codex_cli"@,
        }
    }

    /// The provider type a wire token names, if any.
    pub open spec fn spec_parse(s: Seq<char>) -> Option<ProviderType> {
        if s == "open_ai_compatible"@ {
            Some(ProviderType::OpenAiCompatible)
        } else if s == "anthropic"@ {
            Some(ProviderType::Anthropic)
        } else if s == "cursor"@ {
            Some(ProviderType::Cursor)
        } else if s == "claude_code"@ {
            Some(ProviderType::ClaudeCode)
        } else if s == "codex_cli"@ {
            Some(ProviderType::CodexCli)
        } else {
            None
        }
    }

    /// Wire token.
    pub fn token(&self) -> (r: &'static str)
        ensures
            r@ == self.spec_token(),
    {
        match self {
            ProviderType::OpenAiCompatible => "open_ai_compatible",
            ProviderType::Anthropic => "anthropic",
            ProviderType::Cursor => "cursor",
            ProviderType::ClaudeCode => "claude_code",
            ProviderType::CodexCli => "codex_cli",
        }
    }

    /// Parse a wire token.
    pub fn parse_token(s: &str) -> (r: Option<ProviderType>)
        ensures
            r == ProviderType::spec_parse(s@),
    {
        if str_eq(s, "open_ai_compatible") {
            Some(ProviderType::OpenAiCompatible)
        } else if str_eq(s, "anthropic") {
            Some(ProviderType::Anthropic)
        } else if str_eq(s, "cursor") {
            Some(ProviderType::Cursor)
        } else if str_eq(s, "claude_code") {
            Some(ProviderType::ClaudeCode)
        } else if str_eq(s, "codex_cli") {
            Some(ProviderType::CodexCli)
        } else {
            None
        }
    }
}

impl Default for ProviderType {
    /// A provider that names no wire protocol speaks the OpenAI-compatible
    /// one.
    fn default() -> (r: ProviderType)
        ensures
            r == ProviderType::OpenAiCompatible,
    {
        ProviderType::OpenAiCompatible
    }
}

/// Every provider type decodes back from its own wire token.
pub proof fn lemma_provider_type_round_trip(t: ProviderType)
    ensures
        ProviderType::spec_parse(t.spec_token()) == Some(t),
{
    reveal_strlit("open_ai_compatible");
    reveal_strlit("anthropic");
    reveal_strlit("cursor");
    reveal_strlit("claude_code");
    reveal_strlit("codex_cli");
    assert("open_ai_compatible"@.len() == 18);
    assert("anthropic"@.len() == 9);
    assert("cursor"@.len() == 6);
    assert("claude_code"@.len() == 11);
    assert("codex_cli"@.len() == 9);
    assert("anthropic"@[0] == 'a' && "codex_cli"@[0] == 'c');
}

/// One upstream provider: identity, auth-token pool, protocol and limits.
#[derive(Debug)]
pub struct ProviderConfig {
    pub name: String,
    pub base_url: String,
    /// Environment-variable names whose values are API tokens; several
    /// enable a round-robin pool, none means an unauthenticated provider.
    pub api_key_envs: Vec<String>,
    pub enabled: bool,
    /// Wire protocol this provider speaks.
    pub provider_type: ProviderType,
    /// Extra HTTP headers sent on every request.
    pub extra_headers: HashMap<String, String>,
    pub rate_limit: Option<RateLimitConfig>,
    /// Model ids this provider is known to serve; for command-line
    /// providers the only way to declare them.
    pub models: Vec<String>,
}

/// Request-rate bound for one provider.
#[derive(Debug)]
pub struct RateLimitConfig {
    pub requests_per_minute: u32,
    pub burst_size: u32,
}

/// One agent's assignment: its role, its skills, and where the king is.
#[derive(Debug)]
pub struct AgentConfig {
    pub role: String,
    pub skills: Vec<String>,
    pub king_address: String,
}

} // verus!
