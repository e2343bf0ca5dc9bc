//! What plugins report about themselves.
use vstd::prelude::*;
use crate::text::concat;

verus! {

/// Whether a plugin runs.
#[derive(Clone, Debug, PartialEq)]
pub enum PluginStatus {
    Running,
    Stopped,
    Error(String),
}

impl PluginStatus {
    /// The status as shown to users: `running`, `stopped`, or `error: `
    /// followed by the message.
    pub fn to_string(&self) -> (s: String)
        ensures
            s@ == match self {
                PluginStatus::Running => "running"@,
                PluginStatus::Stopped => "stopped"@,
                PluginStatus::Error(e) => "error: "@ + e@,
            },
    {
        match self {
            PluginStatus::Running => "running".to_owned(),
            PluginStatus::Stopped => "stopped".to_owned(),
            PluginStatus::Error(e) => concat("error: ", e.as_str()),
        }
    }
}

/// What a plugin does.
#[derive(Clone, Debug, PartialEq)]
pub enum PluginKind {
    Backend,
    Frontend,
    Custom(String),
}

impl PluginKind {
    /// The kind as shown to users: `backend`, `frontend`, or `custom: `
    /// followed by the name.
    pub fn to_string(&self) -> (s: String)
        ensures
            s@ == match self {
                PluginKind::Backend => "backend"@,
                PluginKind::Frontend => "frontend"@,
                PluginKind::Custom(k) => "custom: "@ + k@,
            },
    {
        match self {
            PluginKind::Backend => "backend".to_owned(),
            PluginKind::Frontend => "frontend".to_owned(),
            PluginKind::Custom(k) => concat("custom: ", k.as_str()),
        }
    }
}

/// A device with the same id is still held by another owner.
#[derive(Clone, Debug, PartialEq, Eq, Structural)]
pub struct DeviceAlreadyExists;

impl DeviceAlreadyExists {
    /// The error as shown to users.
    pub fn to_string(&self) -> (s: String)
        ensures
            s@ == "device already exists"@,
    {
        "device already exists".to_owned()
    }
}

/// Why a component update failed.
#[derive(Debug, Clone, Copy, PartialEq, Eq, Structural)]
pub enum ComponentUpdateError {
    InvalidDeviceId,
    InvalidIndex,
}

impl ComponentUpdateError {
    /// The error as shown to users.
    pub fn to_string(&self) -> (s: String)
        ensures
            s@ == match self {
                ComponentUpdateError::InvalidDeviceId => "invalid device id"@,
                ComponentUpdateError::InvalidIndex => "invalid index"@,
            },
    {
        match self {
            ComponentUpdateError::InvalidDeviceId => "invalid device id".to_owned(),
            ComponentUpdateError::InvalidIndex => "invalid index".to_owned(),
        }
    }
}

} // verus!
