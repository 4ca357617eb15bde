//! The standard fallback backend: always constructible, running on whichever
//! device the capability probe resolved at construction time.

use vstd::prelude::*;
use vstd::string::StringExecFns;
use crate::text::dec_seq;
use crate::text::to_decimal;
use crate::InferenceError;

verus! {

/// The device label recorded when the probe reports accelerated hardware.
pub open spec fn accel_device() -> Seq<char> {
    "accelerated-device"@
}

/// The device label recorded when the probe reports no accelerated hardware.
pub open spec fn cpu_device() -> Seq<char> {
    "cpu"@
}

/// The text this backend generates for a normalized input, a length bound and
/// a device label. A real compute collaborator would replace this derivation;
/// the contract only fixes that it is a function of these three values.
pub open spec fn network_output(input: Seq<char>, max_length: nat, device: Seq<char>) -> Seq<
    char,
> {
    "Rust Neural Network inference result for: "@ + input + " (max_length: "@ + dec_seq(max_length)
        + ", device: "@ + device + ")"@
}

/// The standard backend. It can never fail to exist: a failing capability
/// probe only degrades the resolved device to `cpu`.
pub struct NeuralNetwork {
    /// The device resolved once at construction, never re-probed.
    pub device: String,
}

impl NeuralNetwork {
    /// Builds the fallback backend. `cuda_available` is the process-wide
    /// hardware-capability signal, probed by the caller and injected here.
    pub fn new(cuda_available: bool) -> (r: NeuralNetwork)
        ensures
            r.device@ == if cuda_available {
                accel_device()
            } else {
                cpu_device()
            },
    {
        let device = if cuda_available {
            String::from_str("accelerated-device")
        } else {
            String::from_str("cpu")
        };
        NeuralNetwork { device }
    }

    /// Generates text for a normalized input. Infallible: this variant is the
    /// universal fallback.
    pub fn infer(&mut self, input: &str, max_length: usize) -> (r: Result<String, InferenceError>)
        ensures
            *final(self) == *old(self),
            r matches Ok(s) && s@ == network_output(input@, max_length as nat, old(self).device@),
    {
        let mut out = String::from_str("Rust Neural Network inference result for: ");
        out.append(input);
        out.append(" (max_length: ");
        let digits = to_decimal(max_length);
        out.append(digits.as_str());
        out.append(", device: ");
        out.append(self.device.as_str());
        out.append(")");
        assert(out@ =~= network_output(input@, max_length as nat, self.device@));
        Ok(out)
    }

    /// Whether the device resolved at construction is the accelerated one.
    pub fn is_cuda_available(&self) -> (r: bool)
        ensures
            r == (self.device@ == accel_device()),
    {
        let accel = String::from_str("accelerated-device");
        self.device == accel
    }
}

} // verus!
