use chatbot_inference::AcquisitionError;
use chatbot_inference::InferenceError;
use chatbot_inference::RustInferenceEngine;
use chatbot_inference::network::NeuralNetwork;
use chatbot_inference::tensorrt::TensorRTInference;

#[test]
fn construct_standard_succeeds_regardless_of_probe() {
    assert!(RustInferenceEngine::new("model.bin", false, true).is_ok());
    assert!(RustInferenceEngine::new("model.bin", false, false).is_ok());
}

#[test]
fn construct_accelerated_fails_without_hardware() {
    let r = RustInferenceEngine::new("model.bin", true, false);
    assert_eq!(r.err().unwrap(), AcquisitionError::HardwareUnavailable);
}

#[test]
fn construct_accelerated_succeeds_with_hardware() {
    let e = RustInferenceEngine::new("model.bin", true, true).unwrap();
    let stats = e.get_performance_stats();
    assert!(stats.tensorrt_enabled);
    assert!(stats.cuda_available);
}

#[test]
fn no_silent_downgrade_on_acceleration_request() {
    // an explicit request for acceleration either yields the accelerated
    // backend or no engine at all
    assert!(RustInferenceEngine::new("model.bin", true, false).is_err());
    let e = RustInferenceEngine::new("model.bin", true, true).unwrap();
    assert!(e.get_performance_stats().tensorrt_enabled);
}

#[test]
fn standard_engine_reflects_probe() {
    let with_hw = RustInferenceEngine::new("model.bin", false, true).unwrap();
    assert!(with_hw.is_cuda_available());
    let without_hw = RustInferenceEngine::new("model.bin", false, false).unwrap();
    assert!(!without_hw.is_cuda_available());
}

#[test]
fn stats_agree_with_availability_query() {
    let engines = vec![
        RustInferenceEngine::new("model.bin", false, true).unwrap(),
        RustInferenceEngine::new("model.bin", false, false).unwrap(),
        RustInferenceEngine::new("model.bin", true, true).unwrap(),
    ];
    for e in &engines {
        assert_eq!(e.get_performance_stats().cuda_available, e.is_cuda_available());
    }
}

#[test]
fn generate_is_deterministic() {
    let mut a = RustInferenceEngine::new("model.bin", false, true).unwrap();
    let mut b = RustInferenceEngine::new("model.bin", false, true).unwrap();
    let ra = a.generate("Some Input, Text!", 64).unwrap();
    let rb = b.generate("Some Input, Text!", 64).unwrap();
    assert_eq!(ra, rb);
    let again = a.generate("Some Input, Text!", 64).unwrap();
    assert_eq!(again, ra);

    let mut c = RustInferenceEngine::new("model.bin", true, true).unwrap();
    let mut d = RustInferenceEngine::new("model.bin", true, true).unwrap();
    assert_eq!(
        c.generate("Some Input, Text!", 64).unwrap(),
        d.generate("Some Input, Text!", 64).unwrap()
    );
}

#[test]
fn generate_accepts_empty_input_and_zero_length() {
    let mut e = RustInferenceEngine::new("model.bin", false, false).unwrap();
    let r = e.generate("", 0).unwrap();
    assert_eq!(
        r,
        "Rust Neural Network inference result for: [BEGIN]  [END] (max_length: 0, device: cpu)"
    );
    let mut a = RustInferenceEngine::new("model.bin", true, true).unwrap();
    assert_eq!(
        a.generate("", 0).unwrap(),
        "Rust TensorRT inference result for: [BEGIN]  [END] (max_length: 0)"
    );
}

#[test]
fn generate_standard_exact_output() {
    let mut e = RustInferenceEngine::new("model.bin", false, false).unwrap();
    assert_eq!(
        e.generate("Hello, World!!", 512).unwrap(),
        "Rust Neural Network inference result for: [BEGIN] hello world [END] (max_length: 512, device: cpu)"
    );
    let mut hw = RustInferenceEngine::new("model.bin", false, true).unwrap();
    assert_eq!(
        hw.generate("Hello, World!!", 512).unwrap(),
        "Rust Neural Network inference result for: [BEGIN] hello world [END] (max_length: 512, device: accelerated-device)"
    );
}

#[test]
fn generate_accelerated_exact_output() {
    let mut e = RustInferenceEngine::new("model.bin", true, true).unwrap();
    assert_eq!(
        e.generate("Hello, World!!", 128).unwrap(),
        "Rust TensorRT inference result for: [BEGIN] hello world [END] (max_length: 128)"
    );
}

#[test]
fn engine_reusable_across_calls() {
    let mut e = RustInferenceEngine::new("model.bin", false, true).unwrap();
    let first = e.generate("one", 10).unwrap();
    let second = e.generate("two", 10).unwrap();
    assert!(first.contains("one"));
    assert!(second.contains("two"));
    assert_eq!(e.generate("one", 10).unwrap(), first);
}

#[test]
fn network_backend_reports_probed_device() {
    let with_hw = NeuralNetwork::new(true);
    assert!(with_hw.is_cuda_available());
    assert_eq!(with_hw.device, "accelerated-device");
    let without_hw = NeuralNetwork::new(false);
    assert!(!without_hw.is_cuda_available());
    assert_eq!(without_hw.device, "cpu");
}

#[test]
fn network_backend_infer_exact_output() {
    let mut n = NeuralNetwork::new(false);
    assert_eq!(
        n.infer("[BEGIN] hi [END]", 9).unwrap(),
        "Rust Neural Network inference result for: [BEGIN] hi [END] (max_length: 9, device: cpu)"
    );
}

#[test]
fn tensorrt_backend_construction_gate() {
    let ok = TensorRTInference::new("model.bin", true).unwrap();
    assert!(ok.is_initialized);
    assert_eq!(ok.model_path, "model.bin");
    let err = TensorRTInference::new("model.bin", false).err().unwrap();
    assert_eq!(err, AcquisitionError::HardwareUnavailable);
}

#[test]
fn tensorrt_backend_infer_exact_output() {
    let mut t = TensorRTInference::new("model.bin", true).unwrap();
    assert_eq!(
        t.infer("[BEGIN] hi [END]", 10).unwrap(),
        "Rust TensorRT inference result for: [BEGIN] hi [END] (max_length: 10)"
    );
}

#[test]
fn tensorrt_uninitialized_instance_is_rejected() {
    let mut t = TensorRTInference { model_path: String::from("model.bin"), is_initialized: false };
    assert_eq!(t.infer("[BEGIN]  [END]", 1).err().unwrap(), InferenceError::NotInitialized);
}

#[test]
fn error_messages() {
    assert_eq!(
        AcquisitionError::HardwareUnavailable.message(),
        "CUDA not available for TensorRT"
    );
    assert_eq!(InferenceError::NotInitialized.message(), "TensorRT engine not initialized");
    assert_eq!(InferenceError::ComputeFailure.message(), "inference compute failure");
}

#[test]
fn max_length_rendered_in_decimal() {
    let mut e = RustInferenceEngine::new("model.bin", true, true).unwrap();
    for (m, expect) in [
        (0usize, "(max_length: 0)"),
        (9, "(max_length: 9)"),
        (10, "(max_length: 10)"),
        (512, "(max_length: 512)"),
        (1000000, "(max_length: 1000000)"),
    ] {
        let out = e.generate("x", m).unwrap();
        assert!(out.ends_with(expect));
    }
}
