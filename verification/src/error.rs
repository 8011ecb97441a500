//! The error taxonomy of the reconcile core, with the exact message each
//! error renders to. Configuration errors are fatal to one dependency only;
//! external-call errors terminate the pass; cluster-API errors abort the pass
//! without a status write.

use vstd::prelude::*;

verus! {

/// An error of the reconcile core.
#[derive(Debug, Clone)]
pub enum Error {
    /// The cluster API rejected a request.
    KubeError(String),
    /// A required field of the spec is missing.
    ConfigError(String),
    /// An external tool failed to launch or exited non-zero.
    CommandError(String),
    /// A file or pipe could not be written.
    IoError(String),
}

/// The model of an error: its variant with the detail text.
#[verifier::ext_equal]
pub enum EModel {
    Kube(Seq<char>),
    Config(Seq<char>),
    Command(Seq<char>),
    Io(Seq<char>),
}

/// The model of an error value.
pub open spec fn error_model(e: Error) -> EModel {
    match e {
        Error::KubeError(s) => EModel::Kube(s@),
        Error::ConfigError(s) => EModel::Config(s@),
        Error::CommandError(s) => EModel::Command(s@),
        Error::IoError(s) => EModel::Io(s@),
    }
}

/// The message an error renders to, variant prefix included.
pub open spec fn emodel_message(m: EModel) -> Seq<char> {
    match m {
        EModel::Kube(s) => "Kubernetes API error: "@ + s,
        EModel::Config(s) => "Configuration error: "@ + s,
        EModel::Command(s) => "Command execution error: "@ + s,
        EModel::Io(s) => "IO error: "@ + s,
    }
}

/// Every rendered error message is non-empty.
pub proof fn lemma_emodel_message_nonempty(m: EModel)
    ensures
        emodel_message(m).len() > 0,
{
    reveal_strlit("Kubernetes API error: ");
    reveal_strlit("Configuration error: ");
    reveal_strlit("Command execution error: ");
    reveal_strlit("IO error: ");
}

/// The model of a string-or-error result.
pub open spec fn res_str_model(r: Result<String, Error>) -> Result<Seq<char>, EModel> {
    match r {
        Ok(s) => Ok(s@),
        Err(e) => Err(error_model(e)),
    }
}

impl Error {
    /// The human-readable message of this error.
    pub fn message(&self) -> (r: String)
        ensures
            r@ == emodel_message(error_model(*self)),
    {
        match self {
            Error::KubeError(s) => String::from_str("Kubernetes API error: ").concat(s.as_str()),
            Error::ConfigError(s) => String::from_str("Configuration error: ").concat(s.as_str()),
            Error::CommandError(s) => String::from_str("Command execution error: ").concat(
                s.as_str(),
            ),
            Error::IoError(s) => String::from_str("IO error: ").concat(s.as_str()),
        }
    }
}

} // verus!
