//! Skill descriptions: the manifest that names a capability, its typed
//! inputs and outputs, and the endpoint configuration a skill calls out to.
//! Loading these from TOML files is I/O and lives outside this library.

use vstd::prelude::*;
use std::collections::HashMap;
use crate::json::{JsonValue, str_eq};

verus! {

/// What a skill is and what it takes and produces.
#[derive(Debug)]
pub struct SkillManifest {
    pub name: String,
    pub version: String,
    pub description: String,
    pub capabilities: Vec<String>,
    pub inputs: Vec<SkillIO>,
    pub outputs: Vec<SkillIO>,
    pub dependencies: Vec<String>,
    pub has_code: bool,
}

/// One named, typed input or output of a skill.
#[derive(Debug)]
pub struct SkillIO {
    pub name: String,
    pub io_type: String,
    pub required: bool,
    pub description: Option<String>,
}

/// Endpoints and authentication a skill uses.
#[derive(Debug)]
pub struct SkillConfig {
    pub endpoints: Vec<SkillEndpoint>,
    pub auth_ref: Option<String>,
    pub extra: HashMap<String, JsonValue>,
}

/// One HTTP endpoint a skill calls.
#[derive(Debug)]
pub struct SkillEndpoint {
    pub name: String,
    pub url: String,
    pub method: HttpMethod,
    pub headers: HashMap<String, String>,
}

/// HTTP method of a skill endpoint; the wire token is upper-case.
#[derive(Clone, Copy, Debug, PartialEq, Eq, Structural)]
pub enum HttpMethod {
    Get,
    Post,
    Put,
    Delete,
    Patch,
}

impl HttpMethod {
    /// Wire token (upper-case, unlike the protocol's other enums).
    pub open spec fn spec_token(self) -> Seq<char> {
        match self {
            HttpMethod::Get => "GET"@,
            HttpMethod::Post => "POST"@,
            HttpMethod::Put => "PUT"@,
            HttpMethod::Delete => "DELETE"@,
            HttpMethod::Patch => "PATCH"@,
        }
    }

    /// The method a wire token names, if any.
    pub open spec fn spec_parse(s: Seq<char>) -> Option<HttpMethod> {
        if s == "GET"@ {
            Some(HttpMethod::Get)
        } else if s == "POST"@ {
            Some(HttpMethod::Post)
        } else if s == "PUT"@ {
            Some(HttpMethod::Put)
        } else if s == "DELETE"@ {
            Some(HttpMethod::Delete)
        } else if s == "PATCH"@ {
            Some(HttpMethod::Patch)
        } else {
            None
        }
    }

    /// Wire token.
    pub fn token(&self) -> (r: &'static str)
        ensures
            r@ == self.spec_token(),
    {
        match self {
            HttpMethod::Get => "GET",
            HttpMethod::Post => "POST",
            HttpMethod::Put => "PUT",
            HttpMethod::Delete => "DELETE",
            HttpMethod::Patch => "PATCH",
        }
    }

    /// Parse a wire token.
    pub fn parse_token(s: &str) -> (r: Option<HttpMethod>)
        ensures
            r == HttpMethod::spec_parse(s@),
    {
        if str_eq(s, "GET") {
            Some(HttpMethod::Get)
        } else if str_eq(s, "POST") {
            Some(HttpMethod::Post)
        } else if str_eq(s, "PUT") {
            Some(HttpMethod::Put)
        } else if str_eq(s, "DELETE") {
            Some(HttpMethod::Delete)
        } else if str_eq(s, "PATCH") {
            Some(HttpMethod::Patch)
        } else {
            None
        }
    }
}

/// Every HTTP method decodes back from its own wire token.
pub proof fn lemma_http_method_round_trip(m: HttpMethod)
    ensures
        HttpMethod::spec_parse(m.spec_token()) == Some(m),
{
    reveal_strlit("GET");
    reveal_strlit("POST");
    reveal_strlit("PUT");
    reveal_strlit("DELETE");
    reveal_strlit("PATCH");
    assert("GET"@.len() == 3);
    assert("POST"@.len() == 4);
    assert("PUT"@.len() == 3);
    assert("DELETE"@.len() == 6);
    assert("PATCH"@.len() == 5);
    assert("GET"@[0] == 'G' && "PUT"@[0] == 'P');
}

} // verus!
