use vstd::prelude::*;
use vstd::string::*;

verus! {

/// Failures of the dashboard's providers and actions. Each carries the
/// message of its cause.
pub enum ValmanError {
    /// The container runtime could not be reached or answered with an error.
    DockerApi(String),
    /// The runtime's answer lacks the managed container or one of its fields.
    Docker(String),
    /// The game-query protocol failed.
    ValveA2S(String),
    /// Reading or extracting backups failed.
    Backup(String),
}

/// The text shown for an error.
pub open spec fn error_text(e: ValmanError) -> Seq<char> {
    match e {
        ValmanError::DockerApi(m) => "Docker API error - "@ + m@,
        ValmanError::Docker(m) => "Docker error - "@ + m@,
        ValmanError::ValveA2S(m) => "Valve A2S error - "@ + m@,
        ValmanError::Backup(m) => "Backup error - "@ + m@,
    }
}

impl ValmanError {
    /// The text shown for this error.
    pub fn message(&self) -> (r: String)
        ensures
            r@ == error_text(*self),
    {
        let mut out = String::new();
        let m = match self {
            ValmanError::DockerApi(m) => {
                out.append("Docker API error - ");
                m
            },
            ValmanError::Docker(m) => {
                out.append("Docker error - ");
                m
            },
            ValmanError::ValveA2S(m) => {
                out.append("Valve A2S error - ");
                m
            },
            ValmanError::Backup(m) => {
                out.append("Backup error - ");
                m
            },
        };
        out.append(m.as_str());
        out
    }
}

} // verus!
