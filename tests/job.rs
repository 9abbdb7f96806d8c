use cloudlet::error::{RpcStatus, StatusCode, VmmError};
use cloudlet::job::{HttpVmmRequest, RunVmmRequest, VmmService, YamlConfigFile, PREPARE_AND_RUN};
use cloudlet::language::{Language, LogLevel};

fn request(language: i32, code: &str) -> RunVmmRequest {
    RunVmmRequest {
        workload_name: "hello".to_string(),
        language,
        code: code.to_string(),
        env: "[build]\nrelease=true".to_string(),
        log_level: LogLevel::Info,
    }
}

#[test]
fn agent_request_for_rust_job() {
    let service = VmmService::default();
    let req = request(0, "fn main(){println!(\"hi\");}");
    assert_eq!(service.validate(&req), Ok(Language::Rust));
    let call = service.get_agent_request(req);
    assert_eq!(call.workload_name, "hello");
    assert_eq!(call.language, "rust");
    assert_eq!(call.action, PREPARE_AND_RUN);
    assert_eq!(call.action, 2);
    assert_eq!(call.code, "fn main(){println!(\"hi\");}");
    assert_eq!(call.config_str, "[build]\nrelease = true");
}

#[test]
fn agent_request_for_python_and_node_jobs() {
    let service = VmmService::default();
    let py = service.get_agent_request(request(1, "print(1/0)"));
    assert_eq!(py.language, "python");
    assert_eq!(py.code, "print(1/0)");
    let node = service.get_agent_request(request(2, "process.exit(7)"));
    assert_eq!(node.language, "node");
    assert_eq!(node.code, "process.exit(7)");
}

#[test]
fn empty_code_is_a_validation_error() {
    let service = VmmService::default();
    assert_eq!(service.validate(&request(0, "")), Err(VmmError::Validation));
}

#[test]
fn unknown_language_tag_is_a_validation_error() {
    let service = VmmService::default();
    assert_eq!(service.validate(&request(3, "x")), Err(VmmError::Validation));
    assert_eq!(service.validate(&request(5, "x")), Err(VmmError::Validation));
}

#[test]
fn empty_name_or_env_is_a_validation_error() {
    let service = VmmService::default();
    let mut req = request(0, "x");
    req.workload_name = String::new();
    assert_eq!(service.validate(&req), Err(VmmError::Validation));
    let mut req = request(0, "x");
    req.env = String::new();
    assert_eq!(service.validate(&req), Err(VmmError::Validation));
}

#[test]
fn errors_map_to_statuses() {
    let s = RpcStatus::from_error(VmmError::VmmNew);
    assert_eq!(s.code, StatusCode::Internal);
    assert_eq!(s.message, "Error creating VMM");
    let s = RpcStatus::from_error(VmmError::VmmConfigure);
    assert_eq!(s.message, "Error configuring VMM");
    let s = RpcStatus::from_error(VmmError::VmmRun);
    assert_eq!(s.message, "Error running VMM");
    assert_eq!(RpcStatus::from_error(VmmError::Validation).code, StatusCode::InvalidArgument);
    assert_eq!(RpcStatus::from_error(VmmError::ArtifactBuild).code, StatusCode::FailedPrecondition);
    assert_eq!(RpcStatus::from_error(VmmError::AgentConnect).code, StatusCode::Unavailable);
    assert_eq!(RpcStatus::from_error(VmmError::AgentRpc).code, StatusCode::Unavailable);
}

#[test]
fn http_request_takes_config_and_contents() {
    let config = YamlConfigFile {
        language: Language::Python,
        env_path: "env.txt".to_string(),
        code_path: "main.py".to_string(),
        log_level: LogLevel::Debug,
    };
    let r = HttpVmmRequest::new(config, "print(1)".to_string(), "requests".to_string());
    assert_eq!(r.language, Language::Python);
    assert_eq!(r.log_level, LogLevel::Debug);
    assert_eq!(r.code, "print(1)");
    assert_eq!(r.env, "requests");
}
