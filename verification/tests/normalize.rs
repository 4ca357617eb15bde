use chatbot_inference::preprocessing::Preprocessor;

#[test]
fn normalize_hello_world() {
    let p = Preprocessor::new();
    assert_eq!(p.process("Hello, World!!"), "[BEGIN] hello world [END]");
}

#[test]
fn normalize_empty_input() {
    let p = Preprocessor::new();
    assert_eq!(p.process(""), "[BEGIN]  [END]");
}

#[test]
fn normalize_whitespace_only_input() {
    let p = Preprocessor::new();
    assert_eq!(p.process(" \t\n  \r "), "[BEGIN]  [END]");
}

#[test]
fn normalize_collapses_mixed_whitespace() {
    let p = Preprocessor::new();
    assert_eq!(p.process("  A\t\nB  "), "[BEGIN] a b [END]");
}

#[test]
fn normalize_collapses_punctuation_runs() {
    let p = Preprocessor::new();
    assert_eq!(p.normalize_text("a,,...b!!c"), "a b c");
}

#[test]
fn normalize_keeps_digits() {
    let p = Preprocessor::new();
    assert_eq!(p.process("Rust 2024!"), "[BEGIN] rust 2024 [END]");
}

#[test]
fn normalize_preserves_non_ascii_characters() {
    let p = Preprocessor::new();
    assert_eq!(p.process("héllo wörld"), "[BEGIN] héllo wörld [END]");
}

#[test]
fn normalize_lowercases_non_ascii_characters() {
    let p = Preprocessor::new();
    assert_eq!(p.process("Éclair À la Mode!"), "[BEGIN] éclair à la mode [END]");
    assert_eq!(p.process("ΔΟΚΙΜΉ"), "[BEGIN] δοκιμή [END]");
}

#[test]
fn normalize_collapses_unicode_whitespace() {
    let p = Preprocessor::new();
    assert_eq!(p.process("a\u{a0}\u{a0}b\u{2003}c"), "[BEGIN] a b c [END]");
    assert_eq!(p.normalize_text("a\u{a0}"), "a");
    assert_eq!(p.process("\u{3000}\u{2028}x\u{85}"), "[BEGIN] x [END]");
}

#[test]
fn normalize_body_is_idempotent() {
    let p = Preprocessor::new();
    let samples = vec![
        "Hello, World!!",
        "",
        "   spaced    out   ",
        "MiXeD CaSe...and;punct",
        "a",
        "!!!",
        "one two  three\tfour",
        "Grüße\u{a0}VON ÜBERALL",
    ];
    for s in samples {
        let once = p.normalize_text(s);
        let twice = p.normalize_text(&once);
        assert_eq!(twice, once);
    }
}

#[test]
fn tokenize_wraps_in_literal_markers() {
    let p = Preprocessor::new();
    assert_eq!(p.tokenize("x"), "[BEGIN] x [END]");
    assert_eq!(p.tokenize(""), "[BEGIN]  [END]");
}
