use vstd::prelude::*;

verus! {

/// The Python exception class an error is raised as.
#[derive(Debug, Clone, Copy, PartialEq, Eq, Structural)]
pub enum PyErrorKind {
    /// `RuntimeError`: a numerical routine failed.
    Runtime,
    /// `ValueError`: an argument was out of range.
    Value,
}

/// Errors raised by the Roche-geometry routines.
#[derive(Debug)]
pub enum RocheError {
    /// Dbrent failed to bracket the minimum.
    DbrentError,
    /// A parameter was out of range.
    ParameterError(String),
    /// The surface-element search failed.
    FaceError(String),
    /// The safeguarded Newton-Raphson root finder failed.
    RtsafeError(String),
}

/// The text shown for a bracketing failure.
pub open spec fn dbrent_message() -> Seq<char> {
    seq!['f', 'a', 'i', 'l', 'e', 'd', ' ', 't', 'o', ' ', 'b', 'r', 'a', 'c', 'k', 'e', 't', ' ',
        'm', 'i', 'n', 'i', 'm', 'u', 'm', ' ', 'w', 'i', 't', 'h', ' ', 'd', 'b', 'r', 'e', 'n', 't']
}

impl RocheError {
    /// What the error reads as: a fixed sentence for a bracketing failure, and
    /// the carried message for every other kind.
    pub open spec fn spec_message(&self) -> Seq<char> {
        match self {
            RocheError::DbrentError => dbrent_message(),
            RocheError::ParameterError(msg) => msg@,
            RocheError::FaceError(msg) => msg@,
            RocheError::RtsafeError(msg) => msg@,
        }
    }

    /// The exception class of the error: a parameter error is a value error,
    /// every other kind a runtime error.
    pub open spec fn spec_kind(&self) -> PyErrorKind {
        match self {
            RocheError::ParameterError(_) => PyErrorKind::Value,
            _ => PyErrorKind::Runtime,
        }
    }

    /// The text of the error.
    pub fn message(&self) -> (res: String)
        ensures
            res@ == self.spec_message(),
    {
        match self {
            RocheError::DbrentError => {
                let s = "failed to bracket minimum with dbrent";
                proof {
                    reveal_strlit("failed to bracket minimum with dbrent");
                }
                let r = s.to_owned();
                assert(r@ =~= dbrent_message());
                r
            },
            RocheError::ParameterError(msg) => msg.clone(),
            RocheError::FaceError(msg) => msg.clone(),
            RocheError::RtsafeError(msg) => msg.clone(),
        }
    }

    /// The Python exception class the error is raised as.
    pub fn py_kind(&self) -> (res: PyErrorKind)
        ensures
            res == self.spec_kind(),
    {
        match self {
            RocheError::ParameterError(_) => PyErrorKind::Value,
            _ => PyErrorKind::Runtime,
        }
    }
}

} // verus!
