use vstd::prelude::*;

use crate::error::VmmError;
use crate::language::{language_of_tag, name_of, Language, LogLevel};

verus! {

/// A job as it arrives over the wire; `language` is still an integer tag.
#[derive(Debug)]
pub struct RunVmmRequest {
    pub workload_name: String,
    pub language: i32,
    pub code: String,
    pub env: String,
    pub log_level: LogLevel,
}

/// The call that the in-guest agent executes.
#[derive(Debug)]
pub struct ExecuteRequest {
    pub workload_name: String,
    pub language: String,
    pub action: i32,
    pub code: String,
    pub config_str: String,
}

/// The agent action that builds the program and then runs it.
pub const PREPARE_AND_RUN: i32 = 2;

/// The build configuration handed to the agent.
pub open spec fn default_config() -> Seq<char> {
    "[build]\nrelease = true"@
}

/// A job is accepted when its tag is known and no required field is empty.
pub open spec fn request_is_valid(req: RunVmmRequest) -> bool {
    &&& language_of_tag(req.language) is Some
    &&& req.workload_name@.len() > 0
    &&& req.code@.len() > 0
    &&& req.env@.len() > 0
}

/// The request-scoped coordinator of MicroVM runs.
#[derive(Debug, Default)]
pub struct VmmService;

impl VmmService {
    /// Checks a job before any side effect: `Validation` unless its language tag
    /// is known and `workload_name`, `code` and `env` are non-empty.
    pub fn validate(&self, req: &RunVmmRequest) -> (r: Result<Language, VmmError>)
        ensures
            r is Ok <==> request_is_valid(*req),
            r matches Ok(l) ==> Some(l) == language_of_tag(req.language),
            r matches Err(e) ==> e == VmmError::Validation,
    {
        match Language::from_i32(req.language) {
            None => Err(VmmError::Validation),
            Some(l) => {
                if req.workload_name.as_str().is_empty() || req.code.as_str().is_empty()
                    || req.env.as_str().is_empty() {
                    Err(VmmError::Validation)
                } else {
                    Ok(l)
                }
            },
        }
    }

    /// Builds the agent's call from a job with a known language tag: the name and
    /// code are moved over, the tag becomes the language's name, and the action
    /// and build configuration are the fixed ones.
    pub fn get_agent_request(&self, vmm_request: RunVmmRequest) -> (r: ExecuteRequest)
        requires
            language_of_tag(vmm_request.language) is Some,
        ensures
            r.workload_name == vmm_request.workload_name,
            r.language@ == name_of(language_of_tag(vmm_request.language)->Some_0),
            r.action == PREPARE_AND_RUN,
            r.code == vmm_request.code,
            r.config_str@ == default_config(),
    {
        let language = match Language::from_i32(vmm_request.language) {
            Some(l) => l,
            None => Language::Rust,
        };
        ExecuteRequest {
            workload_name: vmm_request.workload_name,
            language: language.name(),
            action: PREPARE_AND_RUN,
            code: vmm_request.code,
            config_str: String::from_str("[build]\nrelease = true"),
        }
    }
}

/// The client configuration file: which language, and where the code and the
/// environment description lie.
#[derive(Debug)]
pub struct YamlConfigFile {
    pub language: Language,
    pub env_path: String,
    pub code_path: String,
    pub log_level: LogLevel,
}

/// The job that the client posts to the orchestrator's HTTP shim.
#[derive(Debug)]
pub struct HttpVmmRequest {
    pub language: Language,
    pub env: String,
    pub code: String,
    pub log_level: LogLevel,
}

impl HttpVmmRequest {
    /// Assembles the job from the configuration and the contents of the two files
    /// it names.
    pub fn new(config: YamlConfigFile, code: String, env: String) -> (r: Self)
        ensures
            r.language == config.language,
            r.log_level == config.log_level,
            r.code == code,
            r.env == env,
    {
        let language = config.language;
        let log_level = config.log_level;
        HttpVmmRequest { language, env, code, log_level }
    }
}

} // verus!
