//! The errors of the secret store and of the sidecar supervisor.

use vstd::prelude::*;
use vstd::string::StringExecFns;

verus! {

/// The vault operation during which an access failed.
#[derive(Clone, Copy, Debug, PartialEq, Eq, Structural)]
pub enum VaultOp {
    /// Opening the entry of a key.
    Init,
    /// Reading the stored value.
    Read,
    /// Writing a value.
    Write,
    /// Removing the stored value.
    Delete,
}

/// Everything that can go wrong in this crate. None of it is fatal to the host.
#[derive(Clone, Debug, PartialEq, Eq)]
pub enum ErrorKind {
    /// The key is outside the allow-list; it is carried along.
    UnsupportedKey(String),
    /// The vault failed during `op`; `detail` is the vault's own description.
    VaultAccess { op: VaultOp, detail: String },
    /// No sidecar script at the resolved path, which is carried along.
    ScriptMissing(String),
    /// The operating system could not create the sidecar process.
    SpawnFailed(String),
}

/// The mathematical value of an [`ErrorKind`].
pub enum ErrorView {
    UnsupportedKey(Seq<char>),
    VaultAccess { op: VaultOp, detail: Seq<char> },
    ScriptMissing(Seq<char>),
    SpawnFailed(Seq<char>),
}

impl View for ErrorKind {
    type V = ErrorView;

    open spec fn view(&self) -> ErrorView {
        match self {
            ErrorKind::UnsupportedKey(key) => ErrorView::UnsupportedKey(key@),
            ErrorKind::VaultAccess { op, detail } => ErrorView::VaultAccess {
                op: *op,
                detail: detail@,
            },
            ErrorKind::ScriptMissing(path) => ErrorView::ScriptMissing(path@),
            ErrorKind::SpawnFailed(cause) => ErrorView::SpawnFailed(cause@),
        }
    }
}

/// The text that introduces the cause of a failed vault operation.
pub open spec fn vault_prefix(op: VaultOp) -> Seq<char> {
    match op {
        VaultOp::Init => "Keyring init failed: "@,
        VaultOp::Read => "Failed to read keyring secret: "@,
        VaultOp::Write => "Failed to write keyring secret: "@,
        VaultOp::Delete => "Failed to delete keyring secret: "@,
    }
}

/// The message shown to the user for an error.
pub open spec fn message_of(e: ErrorView) -> Seq<char> {
    match e {
        ErrorView::UnsupportedKey(key) => "Unsupported secret key: "@ + key,
        ErrorView::VaultAccess { op, detail } => vault_prefix(op) + detail,
        ErrorView::ScriptMissing(path) => "Local API sidecar script missing at "@ + path,
        ErrorView::SpawnFailed(cause) => "Failed to launch local API: "@ + cause,
    }
}

impl ErrorKind {
    /// Renders the error as the message shown to the user.
    pub fn message(&self) -> (text: String)
        ensures
            text@ == message_of(self@),
    {
        match self {
            ErrorKind::UnsupportedKey(key) => {
                String::from_str("Unsupported secret key: ").concat(key.as_str())
            },
            ErrorKind::VaultAccess { op, detail } => {
                let prefix = match op {
                    VaultOp::Init => "Keyring init failed: ",
                    VaultOp::Read => "Failed to read keyring secret: ",
                    VaultOp::Write => "Failed to write keyring secret: ",
                    VaultOp::Delete => "Failed to delete keyring secret: ",
                };
                String::from_str(prefix).concat(detail.as_str())
            },
            ErrorKind::ScriptMissing(path) => {
                String::from_str("Local API sidecar script missing at ").concat(path.as_str())
            },
            ErrorKind::SpawnFailed(cause) => {
                String::from_str("Failed to launch local API: ").concat(cause.as_str())
            },
        }
    }
}

} // verus!
