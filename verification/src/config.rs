//! The engine's configuration, from the values of its environment
//! variables.

use crate::text::{bounded_decimal, parse_u16, to_owned_string};
use vstd::prelude::*;

verus! {

/// The engine's configuration.
#[derive(Clone, Debug)]
pub struct AppConfig {
    /// Neo4j connection URI.
    pub neo4j_uri: String,
    /// Neo4j user name.
    pub neo4j_user: String,
    /// Neo4j password.
    pub neo4j_password: String,
    /// Neo4j database name.
    pub neo4j_database: String,
    /// Base URL of the Ollama API (OpenAI-compatible).
    pub ollama_base_url: String,
    /// Default model for language model requests.
    pub ollama_model: String,
    /// ComfyUI server URL.
    pub comfyui_base_url: String,
    /// Port the server listens on.
    pub server_port: u16,
}

/// The values of the environment variables the configuration reads
/// (`None` for one that is not set).
#[derive(Clone, Debug)]
pub struct EnvValues {
    pub neo4j_uri: Option<String>,
    pub neo4j_user: Option<String>,
    pub neo4j_password: Option<String>,
    pub neo4j_database: Option<String>,
    pub ollama_base_url: Option<String>,
    pub ollama_model: Option<String>,
    pub comfyui_base_url: Option<String>,
    pub server_port: Option<String>,
}

/// Why no configuration could be made.
#[derive(Clone, Debug, PartialEq, Eq, Structural)]
pub enum ConfigError {
    /// NEO4J_PASSWORD is not set.
    MissingPassword,
    /// SERVER_PORT is not a port number.
    InvalidPort,
}

/// The value of a variable, or its default.
pub open spec fn value_or(v: Option<String>, default: Seq<char>) -> Seq<char> {
    match v {
        Some(s) => s@,
        None => default,
    }
}

fn or_default(v: Option<String>, default: &str) -> (r: String)
    ensures
        r@ == value_or(v, default@),
{
    match v {
        Some(s) => s,
        None => to_owned_string(default),
    }
}

impl ConfigError {
    /// The message shown for the error.
    pub fn message(&self) -> (r: String)
        ensures
            r@ == (match self {
                ConfigError::MissingPassword => "NEO4J_PASSWORD environment variable is required"@,
                ConfigError::InvalidPort => "SERVER_PORT must be a valid port number"@,
            }),
    {
        match self {
            ConfigError::MissingPassword => to_owned_string(
                "NEO4J_PASSWORD environment variable is required",
            ),
            ConfigError::InvalidPort => to_owned_string("SERVER_PORT must be a valid port number"),
        }
    }
}

impl AppConfig {
    /// Makes the configuration from the variables' values. Unset variables
    /// take their defaults (bolt://localhost:7687, neo4j, neo4j,
    /// http://10.8.0.6:11434/v1, qwen3-vl:30b, http://10.8.0.6:8188, 3000);
    /// the password has none. The port must read as a `u16`.
    pub fn from_values(env: EnvValues) -> (r: Result<AppConfig, ConfigError>)
        ensures
            env.neo4j_password is None ==> r == Err::<AppConfig, ConfigError>(
                ConfigError::MissingPassword,
            ),
            env.neo4j_password is Some ==> match bounded_decimal(
                value_or(env.server_port, "3000"@),
                u16::MAX as nat,
            ) {
                None => r == Err::<AppConfig, ConfigError>(ConfigError::InvalidPort),
                Some(port) => r matches Ok(c) && {
                    &&& c.neo4j_uri@ == value_or(env.neo4j_uri, "bolt://localhost:7687"@)
                    &&& c.neo4j_user@ == value_or(env.neo4j_user, "neo4j"@)
                    &&& Some(c.neo4j_password) == env.neo4j_password
                    &&& c.neo4j_database@ == value_or(env.neo4j_database, "neo4j"@)
                    &&& c.ollama_base_url@ == value_or(
                        env.ollama_base_url,
                        "http://10.8.0.6:11434/v1"@,
                    )
                    &&& c.ollama_model@ == value_or(env.ollama_model, "qwen3-vl:30b"@)
                    &&& c.comfyui_base_url@ == value_or(
                        env.comfyui_base_url,
                        "http://10.8.0.6:8188"@,
                    )
                    &&& c.server_port == port
                },
            },
    {
        let EnvValues {
            neo4j_uri,
            neo4j_user,
            neo4j_password,
            neo4j_database,
            ollama_base_url,
            ollama_model,
            comfyui_base_url,
            server_port,
        } = env;
        let neo4j_uri = or_default(neo4j_uri, "bolt://localhost:7687");
        let neo4j_user = or_default(neo4j_user, "neo4j");
        let neo4j_password = match neo4j_password {
            Some(p) => p,
            None => {
                return Err(ConfigError::MissingPassword);
            },
        };
        let neo4j_database = or_default(neo4j_database, "neo4j");
        let ollama_base_url = or_default(ollama_base_url, "http://10.8.0.6:11434/v1");
        let ollama_model = or_default(ollama_model, "qwen3-vl:30b");
        let comfyui_base_url = or_default(comfyui_base_url, "http://10.8.0.6:8188");
        let port_text = or_default(server_port, "3000");
        let server_port = match parse_u16(port_text.as_str()) {
            Some(p) => p,
            None => {
                return Err(ConfigError::InvalidPort);
            },
        };
        Ok(
            AppConfig {
                neo4j_uri,
                neo4j_user,
                neo4j_password,
                neo4j_database,
                ollama_base_url,
                ollama_model,
                comfyui_base_url,
                server_port,
            },
        )
    }
}

} // verus!
