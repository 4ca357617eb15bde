//! An inference dispatch layer: raw text is normalized and routed to one of
//! two interchangeable text-generation backends — a hardware-accelerated one
//! and a standard fallback — chosen once when the engine is constructed.

use vstd::prelude::*;
use vstd::string::StringExecFns;

pub mod network;
pub mod preprocessing;
pub mod tensorrt;
pub mod text;

use crate::network::NeuralNetwork;
use crate::network::accel_device;
use crate::network::cpu_device;
use crate::network::network_output;
use crate::preprocessing::Preprocessor;
use crate::preprocessing::normalized;
use crate::tensorrt::TensorRTInference;
use crate::tensorrt::tensorrt_output;

verus! {

/// A failure while acquiring a backend.
#[derive(Clone, Copy, PartialEq, Eq, Structural, Debug)]
pub enum AcquisitionError {
    /// The hardware probe reported no accelerated device while acceleration
    /// was explicitly requested.
    HardwareUnavailable,
}

/// A failure during one inference call.
#[derive(Clone, Copy, PartialEq, Eq, Structural, Debug)]
pub enum InferenceError {
    /// The backend was invoked outside its documented lifecycle.
    NotInitialized,
    /// A failure reported by the underlying compute collaborator.
    ComputeFailure,
}

impl AcquisitionError {
    /// A human-readable description of the error.
    pub fn message(&self) -> (r: String)
        ensures
            r@ == "CUDA not available for TensorRT"@,
    {
        String::from_str("CUDA not available for TensorRT")
    }
}

impl InferenceError {
    /// A human-readable description of the error.
    pub fn message(&self) -> (r: String)
        ensures
            self is NotInitialized ==> r@ == "TensorRT engine not initialized"@,
            self is ComputeFailure ==> r@ == "inference compute failure"@,
    {
        match self {
            InferenceError::NotInitialized => String::from_str("TensorRT engine not initialized"),
            InferenceError::ComputeFailure => String::from_str("inference compute failure"),
        }
    }
}

/// The backend actually executing requests: a tagged union over the two
/// variants, so that the choice made at construction is explicit in the type
/// and immutable for the engine's lifetime.
pub enum Backend {
    Accelerated(TensorRTInference),
    Standard(NeuralNetwork),
}

impl Backend {
    /// Whether the backend reports accelerated hardware: always for the
    /// accelerated variant (constructing it is itself the proof), and by the
    /// probed device for the standard one.
    pub open spec fn acceleration_available(self) -> bool {
        match self {
            Backend::Accelerated(_) => true,
            Backend::Standard(n) => n.device@ == accel_device(),
        }
    }

    /// What one inference call on this backend returns for a normalized
    /// input and a length bound.
    pub open spec fn infer_result(self, input: Seq<char>, max_length: nat) -> Result<
        Seq<char>,
        InferenceError,
    > {
        match self {
            Backend::Accelerated(t) => if t.is_initialized {
                Ok(tensorrt_output(input, max_length))
            } else {
                Err(InferenceError::NotInitialized)
            },
            Backend::Standard(n) => Ok(network_output(input, max_length, n.device@)),
        }
    }
}

/// A read-only capability snapshot, recomputed on every query and therefore
/// always consistent with the backend the engine holds.
#[derive(Clone, Copy, PartialEq, Eq, Structural, Debug)]
pub struct PerformanceStats {
    /// Whether the engine holds the accelerated backend variant.
    pub tensorrt_enabled: bool,
    /// Whether the held backend reports accelerated hardware.
    pub cuda_available: bool,
}

/// The inference engine: exclusive owner of one normalizer and exactly one
/// backend, both fixed at construction for its whole lifetime.
pub struct RustInferenceEngine {
    backend: Backend,
    preprocessor: Preprocessor,
}

impl RustInferenceEngine {
    /// The backend this engine holds.
    pub closed spec fn spec_backend(self) -> Backend {
        self.backend
    }

    /// What `generate` returns for a raw input and a length bound: the input
    /// is normalized, then handed to the held backend.
    pub open spec fn generate_result(self, raw: Seq<char>, max_length: nat) -> Result<
        Seq<char>,
        InferenceError,
    > {
        self.spec_backend().infer_result(normalized(raw), max_length)
    }

    /// The capability snapshot `get_performance_stats` recomputes.
    pub open spec fn performance_stats(self) -> PerformanceStats {
        PerformanceStats {
            tensorrt_enabled: self.spec_backend() is Accelerated,
            cuda_available: self.spec_backend().acceleration_available(),
        }
    }

    /// Builds an engine for one model path and one selection preference.
    /// `cuda_available` is the process-wide hardware-capability signal,
    /// probed once by the caller and injected here.
    ///
    /// Selection policy: a request for acceleration on unavailable hardware
    /// fails — it is never downgraded to the standard backend — and a request
    /// for the standard backend always succeeds.
    pub fn new(model_path: &str, use_tensorrt: bool, cuda_available: bool) -> (r: Result<
        RustInferenceEngine,
        AcquisitionError,
    >)
        ensures
            r is Err <==> use_tensorrt && !cuda_available,
            r is Err ==> r->Err_0 == AcquisitionError::HardwareUnavailable,
            use_tensorrt && cuda_available ==> (r matches Ok(e) && e.spec_backend() matches
                Backend::Accelerated(t) && t.model_path@ == model_path@ && t.is_initialized),
            use_tensorrt ==> (r matches Ok(e) ==> e.spec_backend() is Accelerated),
            !use_tensorrt ==> (r matches Ok(e) && e.spec_backend() matches Backend::Standard(n)
                && n.device@ == if cuda_available {
                    accel_device()
                } else {
                    cpu_device()
                }),
    {
        let backend = if use_tensorrt {
            match TensorRTInference::new(model_path, cuda_available) {
                Ok(t) => Backend::Accelerated(t),
                Err(e) => {
                    return Err(e);
                },
            }
        } else {
            Backend::Standard(NeuralNetwork::new(cuda_available))
        };
        Ok(RustInferenceEngine { backend, preprocessor: Preprocessor::new() })
    }

    /// Normalizes the raw text and runs one inference call on the held
    /// backend. A failed call leaves the engine unchanged and reusable.
    pub fn generate(&mut self, input_text: &str, max_length: usize) -> (r: Result<
        String,
        InferenceError,
    >)
        ensures
            *final(self) == *old(self),
            r is Ok <==> old(self).generate_result(input_text@, max_length as nat) is Ok,
            r is Ok ==> r->Ok_0@ == old(self).generate_result(input_text@, max_length as nat)->Ok_0,
            r is Err ==> r->Err_0 == old(self).generate_result(
                input_text@,
                max_length as nat,
            )->Err_0,
    {
        let processed = self.preprocessor.process(input_text);
        match &mut self.backend {
            Backend::Accelerated(t) => t.infer(processed.as_str(), max_length),
            Backend::Standard(n) => n.infer(processed.as_str(), max_length),
        }
    }

    /// Whether the held backend reports accelerated hardware.
    pub fn is_cuda_available(&self) -> (r: bool)
        ensures
            r == self.spec_backend().acceleration_available(),
    {
        match &self.backend {
            Backend::Accelerated(_) => true,
            Backend::Standard(n) => n.is_cuda_available(),
        }
    }

    /// Recomputes the capability snapshot from the held backend; nothing is
    /// cached, so the snapshot can never go stale.
    pub fn get_performance_stats(&self) -> (r: PerformanceStats)
        ensures
            r == self.performance_stats(),
    {
        PerformanceStats {
            tensorrt_enabled: match &self.backend {
                Backend::Accelerated(_) => true,
                Backend::Standard(_) => false,
            },
            cuda_available: self.is_cuda_available(),
        }
    }
}

/// Determinism: two equal raw texts put through engines holding the same
/// backend under the same length bound generate the same result.
pub proof fn lemma_generate_deterministic(
    e1: RustInferenceEngine,
    e2: RustInferenceEngine,
    t1: Seq<char>,
    t2: Seq<char>,
    max_length: nat,
)
    requires
        e1.spec_backend() == e2.spec_backend(),
        t1 == t2,
    ensures
        e1.generate_result(t1, max_length) == e2.generate_result(t2, max_length),
{
}

/// Capability consistency: the snapshot's hardware-availability field always
/// agrees with the engine's own availability query.
pub proof fn lemma_capability_consistent(e: RustInferenceEngine)
    ensures
        e.performance_stats().cuda_available == e.spec_backend().acceleration_available(),
{
}

} // verus!
