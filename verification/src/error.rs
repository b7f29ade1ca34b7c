//! The errors the harness reports before it gives up.

use vstd::prelude::*;

use crate::config::{AccelKind, BenchmarkConfigError};

verus! {

/// An I/O error from opening or mapping a work queue; only carried along.
#[verifier::external_type_specification]
#[verifier::external_body]
pub struct ExIoError(std::io::Error);

/// An error from rendering the JSON report; only carried along.
#[verifier::external_type_specification]
#[verifier::external_body]
pub struct ExJsonError(serde_json::Error);

/// Why a run of the harness failed.
pub enum HwEvalError {
    /// The command line did not describe a valid configuration.
    Config { source: BenchmarkConfigError },
    /// The work queue could not be opened or mapped.
    OpenWq {
        accelerator: &'static str,
        device: String,
        operation: &'static str,
        hint: &'static str,
        source: std::io::Error,
    },
    /// The report could not be rendered.
    SerializeReport { source: serde_json::Error },
}

impl HwEvalError {
    /// A configuration error.
    pub fn config(source: BenchmarkConfigError) -> (e: Self)
        ensures
            e matches HwEvalError::Config { source: s } && s@ == source@,
    {
        HwEvalError::Config { source }
    }

    /// The error for a work queue of `accel` at `device` that failed to
    /// open, with the hint shown to the operator.
    pub fn open_wq(accel: AccelKind, device: String, source: std::io::Error) -> (e: Self)
        ensures
            e matches HwEvalError::OpenWq { accelerator, device: d, operation, hint, .. } && {
                &&& accelerator@ == accel.spec_name()
                &&& d@ == device@
                &&& operation@ == "open_wq"@
                &&& hint@ == "need CAP_SYS_RAWIO or run via dsa_launcher"@
            },
    {
        HwEvalError::OpenWq {
            accelerator: accel.as_str(),
            device,
            operation: "open_wq",
            hint: "need CAP_SYS_RAWIO or run via dsa_launcher",
            source,
        }
    }

    /// The configuration error behind this one, when it is one.
    pub fn config_source(&self) -> (s: Option<&BenchmarkConfigError>)
        ensures
            s is Some <==> self is Config,
            self matches HwEvalError::Config { source } ==> s == Some(source),
    {
        match self {
            HwEvalError::Config { source } => Some(source),
            _ => None,
        }
    }
}

} // verus!
