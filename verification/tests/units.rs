use spindle_cache::errors::BuildError;
use spindle_cache::naming::{camel_word, snake_to_camel};
use spindle_cache::output::command_output_result;
use spindle_cache::persist::{decode_state, encode_state, load_or_create};
use spindle_cache::state::KernelState;

fn s(t: &str) -> String {
    String::from(t)
}

#[test]
fn fresh_record_defaults() {
    let st = match load_or_create(s("target/kernels"), s("fill"), None) {
        Ok(st) => st,
        Err(_) => panic!("fresh record must be created"),
    };
    assert_eq!(st.home, "target/kernels");
    assert_eq!(st.name, "fill");
    assert!(!st.populated);
    assert!(!st.compiled);
    assert!(st.device_source.is_none());
    assert!(st.message.is_none());
    assert!(st.artifact.is_none());
}

#[test]
fn record_round_trips_through_bytes() {
    let st = KernelState {
        home: s("target/kernels"),
        name: s("fill"),
        populated: true,
        compiled: true,
        device_source: Some(s("fn device(i){i}")),
        message: Some(s("ok")),
        artifact: Some(s("K1")),
    };
    let bytes = encode_state(&st);
    let back = decode_state(&bytes).expect("a saved record must parse");
    assert_eq!(back.home, st.home);
    assert_eq!(back.name, st.name);
    assert_eq!(back.populated, st.populated);
    assert_eq!(back.compiled, st.compiled);
    assert_eq!(back.device_source, st.device_source);
    assert_eq!(back.message, st.message);
    assert_eq!(back.artifact, st.artifact);
}

#[test]
fn record_round_trips_with_unicode_and_newlines() {
    let st = KernelState {
        home: s("céllar/κernels"),
        name: s("fill_два"),
        populated: false,
        compiled: false,
        device_source: Some(s("fn device(i){\n    i\n}")),
        message: None,
        artifact: None,
    };
    let bytes = encode_state(&st);
    let back = decode_state(&bytes).expect("a saved record must parse");
    assert_eq!(back.home, st.home);
    assert_eq!(back.name, st.name);
    assert_eq!(back.device_source, st.device_source);
    assert!(back.message.is_none());
}

#[test]
fn garbage_is_corrupt() {
    let garbage: Vec<u8> = vec![42, 1, 2, 3];
    assert!(decode_state(&garbage).is_none());
    match load_or_create(s("h"), s("n"), Some(garbage)) {
        Err(BuildError::CorruptState) => {}
        _ => panic!("an unparseable state file must be reported corrupt"),
    }
}

#[test]
fn ill_formed_record_is_corrupt() {
    // compiled claimed without an artifact: parses field-wise, but is not a
    // well-formed record, so it must be rejected.
    let st = KernelState {
        home: s("h"),
        name: s("n"),
        populated: true,
        compiled: true,
        device_source: Some(s("src")),
        message: Some(s("ok")),
        artifact: Some(s("K")),
    };
    let mut bytes = encode_state(&st);
    // The artifact presence byte is the third byte from the end of the
    // encoding of this record ("K" is one byte, preceded by its length).
    let n = bytes.len();
    bytes[n - 10] = 0;
    bytes.truncate(n - 9);
    assert!(decode_state(&bytes).is_none());
}

#[test]
fn truncated_record_is_corrupt() {
    let st = KernelState {
        home: s("h"),
        name: s("n"),
        populated: false,
        compiled: false,
        device_source: None,
        message: None,
        artifact: None,
    };
    let mut bytes = encode_state(&st);
    bytes.pop();
    assert!(decode_state(&bytes).is_none());
    let good = encode_state(&st);
    let mut extended = good.clone();
    extended.push(0);
    assert!(decode_state(&extended).is_none());
    assert!(decode_state(&good).is_some());
}

#[test]
fn update_device_same_source_changes_nothing() {
    let mut st = KernelState {
        home: s("h"),
        name: s("n"),
        populated: true,
        compiled: true,
        device_source: Some(s("fn device(i){i}")),
        message: Some(s("ok")),
        artifact: Some(s("K1")),
    };
    let changed = st.update_device(s("fn device(i){i}"));
    assert!(!changed);
    assert!(st.compiled);
    assert_eq!(st.artifact, Some(s("K1")));
}

#[test]
fn update_device_new_source_clears_record() {
    let mut st = KernelState {
        home: s("h"),
        name: s("n"),
        populated: true,
        compiled: true,
        device_source: Some(s("fn device(i){i}")),
        message: Some(s("ok")),
        artifact: Some(s("K1")),
    };
    let changed = st.update_device(s("fn device(i){i*2}"));
    assert!(changed);
    assert!(!st.populated);
    assert!(!st.compiled);
    assert_eq!(st.device_source, Some(s("fn device(i){i*2}")));
    assert!(st.message.is_none());
    assert!(st.artifact.is_none());
}

#[test]
fn success_output_combines_streams() {
    let r = command_output_result(true, &s("warning: w"), &s("built"), &s("exit status: 0"));
    assert_eq!(r, Ok(s("warning: w\nbuilt")));
    let r = command_output_result(true, &s(""), &s("built"), &s("exit status: 0"));
    assert_eq!(r, Ok(s("built")));
    let r = command_output_result(true, &s(""), &s(""), &s("exit status: 0"));
    assert_eq!(r, Ok(s("exit status: 0")));
}

#[test]
fn failure_output_prefers_stderr() {
    let r = command_output_result(false, &s("error: type mismatch"), &s("noise"), &s("exit status: 1"));
    assert_eq!(r, Err(s("error: type mismatch")));
    let r = command_output_result(false, &s(""), &s("some stdout"), &s("exit status: 1"));
    assert_eq!(r, Err(s("some stdout")));
    let r = command_output_result(false, &s(""), &s(""), &s("exit status: 101"));
    assert_eq!(r, Err(s("exit status: 101")));
}

#[test]
fn camel_word_uppercases_first_and_lowercases_rest() {
    assert_eq!(camel_word("fill"), "Fill");
    assert_eq!(camel_word("FILL"), "Fill");
    assert_eq!(camel_word("fILL"), "Fill");
    assert_eq!(camel_word(""), "");
    assert_eq!(camel_word("x"), "X");
}

#[test]
fn snake_to_camel_joins_words() {
    assert_eq!(snake_to_camel("fill"), "Fill");
    assert_eq!(snake_to_camel("foo_bar"), "FooBar");
    assert_eq!(snake_to_camel("foo__bar"), "FooBar");
    assert_eq!(snake_to_camel("_leading"), "Leading");
    assert_eq!(snake_to_camel("trailing_"), "Trailing");
    assert_eq!(snake_to_camel("RANGE_fn"), "RangeFn");
    assert_eq!(snake_to_camel(""), "");
}

#[test]
fn diagnostics_carry_external_text() {
    assert_eq!(BuildError::Io(s("no space")).diagnostic(), "no space");
    assert_eq!(BuildError::CorruptState.diagnostic(), "corrupt state record");
    assert_eq!(BuildError::SpawnFailed(s("not found")).diagnostic(), "not found");
    assert_eq!(BuildError::ToolchainFailed(s("error: e0308")).diagnostic(), "error: e0308");
    assert_eq!(BuildError::MissingArtifact.diagnostic(), "missing compiled artifact");
}
