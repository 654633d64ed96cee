//! Metric labels of the reconcile metrics.

use vstd::prelude::*;
use vstd::string::*;
use crate::digest::{hex_text, lower_hex};
use crate::lrgs_config::ConfigError;

verus! {

/// Exemplar label of a reconcile duration: the trace it ran in.
pub struct TraceLabel {
    pub trace_id: String,
}

impl TraceLabel {
    /// The label of a trace id given as its 16 bytes: 32 lower-case hex
    /// digits; none for the invalid, all-zero, id.
    pub fn try_from_bytes(id: &[u8; 16]) -> (r: Option<TraceLabel>)
        ensures
            r is None <==> (forall|i: int| 0 <= i < 16 ==> id@[i] == 0),
            r matches Some(t) ==> t.trace_id@ == hex_text(id@, false),
    {
        let mut i: usize = 0;
        let mut zero = true;
        while i < 16
            invariant
                i <= 16,
                id@.len() == 16,
                zero == (forall|j: int| 0 <= j < i ==> id@[j] == 0),
            decreases 16 - i,
        {
            if id[i] != 0 {
                zero = false;
            }
            i = i + 1;
        }
        if zero {
            None
        } else {
            Some(TraceLabel { trace_id: lower_hex(id.as_slice()) })
        }
    }
}

/// Labels of a failed reconcile: the resource's name and the error's label.
pub struct ErrorLabels {
    pub instance: String,
    pub error: String,
}

/// A short lower-case label for an error kind.
pub trait MetricLabel {
    fn metric_label(&self) -> String;
}

/// The label of a configuration error: its kind's name in lower case.
pub open spec fn config_error_label(e: ConfigError) -> Seq<char> {
    match e {
        ConfigError::MissingField => "missingfield"@,
        ConfigError::InvalidText => "invalidtext"@,
        ConfigError::PeerLookupFailed => "peerlookupfailed"@,
    }
}

impl MetricLabel for ConfigError {
    fn metric_label(&self) -> (r: String)
        ensures
            r@ == config_error_label(*self),
    {
        match self {
            ConfigError::MissingField => String::from_str("missingfield"),
            ConfigError::InvalidText => String::from_str("invalidtext"),
            ConfigError::PeerLookupFailed => String::from_str("peerlookupfailed"),
        }
    }
}

impl ErrorLabels {
    /// The labels of a failure of `instance` with a configuration error.
    pub fn for_config_error(instance: String, error: &ConfigError) -> (r: ErrorLabels)
        ensures
            r.instance@ == instance@,
            r.error@ == config_error_label(*error),
    {
        ErrorLabels { instance, error: error.metric_label() }
    }
}

} // verus!
