use vstd::prelude::*;

verus! {

/// What can go wrong with one request; each kind is fatal for it.
#[derive(Clone, Copy, Debug, PartialEq, Eq, Structural)]
pub enum VmmError {
    /// The job is malformed: unknown language tag or an empty required field.
    Validation,
    /// An external build step failed or produced no output.
    ArtifactBuild,
    /// The MicroVM could not be constructed.
    VmmNew,
    /// Loading the kernel or initramfs, or wiring a device, failed.
    VmmConfigure,
    /// A vCPU fault or a premature guest halt.
    VmmRun,
    /// The agent was not reachable within the retry budget.
    AgentConnect,
    /// The agent's stream broke off with a transport error.
    AgentRpc,
}

/// The status codes that a request can end with.
#[derive(Clone, Copy, Debug, PartialEq, Eq, Structural)]
pub enum StatusCode {
    InvalidArgument,
    FailedPrecondition,
    Internal,
    Unavailable,
}

/// The terminal status reported to a caller: a code and a message.
#[derive(Debug)]
pub struct RpcStatus {
    pub code: StatusCode,
    pub message: String,
}

/// The status code each error kind is reported with.
pub open spec fn code_of(e: VmmError) -> StatusCode {
    match e {
        VmmError::Validation => StatusCode::InvalidArgument,
        VmmError::ArtifactBuild => StatusCode::FailedPrecondition,
        VmmError::VmmNew => StatusCode::Internal,
        VmmError::VmmConfigure => StatusCode::Internal,
        VmmError::VmmRun => StatusCode::Internal,
        VmmError::AgentConnect => StatusCode::Unavailable,
        VmmError::AgentRpc => StatusCode::Unavailable,
    }
}

/// The message each error kind is reported with.
pub open spec fn message_of(e: VmmError) -> Seq<char> {
    match e {
        VmmError::Validation => "Invalid job description"@,
        VmmError::ArtifactBuild => "Error building boot artifacts"@,
        VmmError::VmmNew => "Error creating VMM"@,
        VmmError::VmmConfigure => "Error configuring VMM"@,
        VmmError::VmmRun => "Error running VMM"@,
        VmmError::AgentConnect => "Error connecting to agent"@,
        VmmError::AgentRpc => "Error streaming from agent"@,
    }
}

impl RpcStatus {
    /// The status a request that failed with `error` ends with.
    pub fn from_error(error: VmmError) -> (r: RpcStatus)
        ensures
            r.code == code_of(error),
            r.message@ == message_of(error),
    {
        match error {
            VmmError::Validation => RpcStatus {
                code: StatusCode::InvalidArgument,
                message: String::from_str("Invalid job description"),
            },
            VmmError::ArtifactBuild => RpcStatus {
                code: StatusCode::FailedPrecondition,
                message: String::from_str("Error building boot artifacts"),
            },
            VmmError::VmmNew => RpcStatus {
                code: StatusCode::Internal,
                message: String::from_str("Error creating VMM"),
            },
            VmmError::VmmConfigure => RpcStatus {
                code: StatusCode::Internal,
                message: String::from_str("Error configuring VMM"),
            },
            VmmError::VmmRun => RpcStatus {
                code: StatusCode::Internal,
                message: String::from_str("Error running VMM"),
            },
            VmmError::AgentConnect => RpcStatus {
                code: StatusCode::Unavailable,
                message: String::from_str("Error connecting to agent"),
            },
            VmmError::AgentRpc => RpcStatus {
                code: StatusCode::Unavailable,
                message: String::from_str("Error streaming from agent"),
            },
        }
    }
}

} // verus!
