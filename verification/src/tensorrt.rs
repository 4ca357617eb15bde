//! The hardware-accelerated backend: constructible only when the capability
//! probe reports accelerated hardware, so that a request for acceleration
//! fails at construction time rather than at call time.

use vstd::prelude::*;
use vstd::string::StringExecFns;
use crate::text::dec_seq;
use crate::text::to_decimal;
use crate::AcquisitionError;
use crate::InferenceError;

verus! {

/// The text this backend generates for a normalized input and a length bound.
/// A real compute collaborator would replace this derivation; the contract
/// only fixes that it is a function of these two values (the model path does
/// not change it).
pub open spec fn tensorrt_output(input: Seq<char>, max_length: nat) -> Seq<char> {
    "Rust TensorRT inference result for: "@ + input + " (max_length: "@ + dec_seq(max_length)
        + ")"@
}

/// The accelerated backend. Constructing it is itself proof of hardware
/// availability: once it exists, acceleration is available.
pub struct TensorRTInference {
    /// The model the backend was built for.
    pub model_path: String,
    /// Explicit lifecycle state; the public construction path always sets it,
    /// and `infer` checks it defensively.
    pub is_initialized: bool,
}

impl TensorRTInference {
    /// Attempts to acquire the accelerated backend. `cuda_available` is the
    /// process-wide hardware-capability signal, probed by the caller and
    /// injected here; when it is false the acquisition fails hard — there is
    /// no silent fallback, because the caller explicitly asked for
    /// acceleration.
    pub fn new(model_path: &str, cuda_available: bool) -> (r: Result<
        TensorRTInference,
        AcquisitionError,
    >)
        ensures
            cuda_available ==> (r matches Ok(t) && t.model_path@ == model_path@
                && t.is_initialized),
            !cuda_available ==> (r matches Err(e) && e == AcquisitionError::HardwareUnavailable),
    {
        if !cuda_available {
            return Err(AcquisitionError::HardwareUnavailable);
        }
        Ok(TensorRTInference { model_path: String::from_str(model_path), is_initialized: true })
    }

    /// Generates text for a normalized input. Fails only on an instance used
    /// outside its lifecycle — unreachable through the public construction
    /// path, but part of the contract since the lifecycle state is an
    /// explicit field.
    pub fn infer(&mut self, input: &str, max_length: usize) -> (r: Result<String, InferenceError>)
        ensures
            *final(self) == *old(self),
            old(self).is_initialized ==> (r matches Ok(s) && s@ == tensorrt_output(
                input@,
                max_length as nat,
            )),
            !old(self).is_initialized ==> (r matches Err(e) && e
                == InferenceError::NotInitialized),
    {
        if !self.is_initialized {
            return Err(InferenceError::NotInitialized);
        }
        let mut out = String::from_str("Rust TensorRT inference result for: ");
        out.append(input);
        out.append(" (max_length: ");
        let digits = to_decimal(max_length);
        out.append(digits.as_str());
        out.append(")");
        assert(out@ =~= tensorrt_output(input@, max_length as nat));
        Ok(out)
    }
}

} // verus!
