use spindle_cache::engine::{Action, Engine, Event};
use spindle_cache::errors::BuildError;
use spindle_cache::persist::decode_state;
use spindle_cache::scaffold::{ProjectFile, ScaffoldConfig};

fn s(t: &str) -> String {
    String::from(t)
}

fn pf(name: &str, dir: &str, contents: &str) -> ProjectFile {
    ProjectFile { dir: s(dir), name: s(name), contents: s(contents) }
}

fn config() -> ScaffoldConfig {
    ScaffoldConfig {
        templates: vec![
            pf("Cargo.toml", "", "[package]\nname = \"kernel\"\n"),
            pf("rust-toolchain.toml", "", "[toolchain]\nchannel = \"nightly\"\n"),
            pf("config.toml", ".cargo", "[build]\ntarget = \"nvptx64-nvidia-cuda\"\n"),
            pf("device.rs", "src", ""),
            pf("lib.rs", "src", "mod device;\n"),
            pf("kernel.rs", "target/nvptx64-nvidia-cuda/release", ""),
        ],
        device_dir: s("src"),
        device_name: s("device.rs"),
        artifact_dir: s("target/nvptx64-nvidia-cuda/release"),
        artifact_name: s("kernel.ptx"),
    }
}

fn start(source: &str) -> Engine {
    let (engine, first) = Engine::ensure_built(s("target/kernels"), s("fill"), s(source), config());
    assert!(matches!(first, Action::ReadState));
    engine
}

/// Drive a run from a state-file read to completion, answering every
/// filesystem request with success and the build with the given outcome.
/// Returns the finish result, the bytes last saved, and whether a build and
/// a scaffold write were requested.
fn drive(
    engine: &mut Engine,
    file: Option<Vec<u8>>,
    build_ok: bool,
    stderr: &str,
    artifact: &str,
) -> (Result<String, BuildError>, Option<Vec<u8>>, bool, bool) {
    let mut saved: Option<Vec<u8>> = None;
    let mut built = false;
    let mut scaffolded = false;
    let mut action = engine.step(Event::StateLoaded(file));
    for _ in 0..16 {
        action = match action {
            Action::ReadState => panic!("the state file is read only once"),
            Action::ClearScaffold(_) => engine.step(Event::IoOk),
            Action::WriteScaffold(files) => {
                assert!(!files.is_empty());
                scaffolded = true;
                engine.step(Event::IoOk)
            }
            Action::SaveState(bytes) => {
                saved = Some(bytes);
                engine.step(Event::IoOk)
            }
            Action::RunBuild => {
                built = true;
                engine.step(Event::BuildFinished {
                    exit_ok: build_ok,
                    stderr: s(stderr),
                    stdout: s(""),
                    status: if build_ok { s("exit status: 0") } else { s("exit status: 101") },
                })
            }
            Action::ReadArtifact(place) => {
                assert_eq!(place.dir, "target/nvptx64-nvidia-cuda/release");
                assert_eq!(place.name, "kernel.ptx");
                engine.step(Event::ArtifactLoaded(Some(s(artifact))))
            }
            Action::Finish(result) => return (result, saved, built, scaffolded),
        };
    }
    panic!("the run must finish");
}

#[test]
fn first_call_scaffolds_builds_and_caches() {
    let mut engine = start("fn device(i){i}");
    let (result, saved, built, scaffolded) = drive(&mut engine, None, true, "", "K1");
    match result {
        Ok(artifact) => assert_eq!(artifact, "K1"),
        Err(_) => panic!("the first build must succeed and return the artifact"),
    }
    assert!(built);
    assert!(scaffolded);
    let st = decode_state(&saved.expect("the record must be persisted")).expect("saved bytes parse");
    assert!(st.populated);
    assert!(st.compiled);
    assert_eq!(st.device_source, Some(s("fn device(i){i}")));
    assert_eq!(st.artifact, Some(s("K1")));
}

#[test]
fn second_call_returns_cache_without_building() {
    let mut engine = start("fn device(i){i}");
    let (_, saved, _, _) = drive(&mut engine, None, true, "", "K1");
    let mut second = start("fn device(i){i}");
    let first_action = second.step(Event::StateLoaded(saved));
    match first_action {
        Action::Finish(Ok(artifact)) => assert_eq!(artifact, "K1"),
        _ => panic!("an unchanged compiled kernel must be answered from the cache at once"),
    }
}

#[test]
fn changed_source_invalidates_and_rebuilds() {
    let mut engine = start("fn device(i){i}");
    let (_, saved, _, _) = drive(&mut engine, None, true, "", "K1");

    let mut second = start("fn device(i){i*2}");
    let action = second.step(Event::StateLoaded(saved));
    let removals = match action {
        Action::ClearScaffold(files) => files,
        _ => panic!("a changed source must clear the scaffold first"),
    };
    assert!(removals.iter().any(|f| f.name == "device.rs" && f.dir == "src"));
    assert!(removals.iter().any(|f| f.name == "Cargo.toml"));

    // The very next persisted record already carries the new source and no
    // stale artifact or message.
    let action = second.step(Event::IoOk);
    let cleared = match action {
        Action::SaveState(bytes) => decode_state(&bytes).expect("cleared record parses"),
        _ => panic!("the cleared record must be persisted before anything else"),
    };
    assert_eq!(cleared.device_source, Some(s("fn device(i){i*2}")));
    assert!(!cleared.populated);
    assert!(!cleared.compiled);
    assert!(cleared.message.is_none());
    assert!(cleared.artifact.is_none());

    // Scaffold is rewritten with the new source, the build reruns, and the
    // new artifact replaces the old one.
    let action = second.step(Event::IoOk);
    let writes = match action {
        Action::WriteScaffold(files) => files,
        _ => panic!("an invalidated kernel must be rescaffolded"),
    };
    assert!(writes.iter().any(|f| f.name == "device.rs" && f.contents == "fn device(i){i*2}"));
    assert!(writes.iter().all(|f| !(f.name == "kernel.rs")));

    let action = second.step(Event::IoOk);
    assert!(matches!(action, Action::SaveState(_)));
    let action = second.step(Event::IoOk);
    assert!(matches!(action, Action::RunBuild));
    let action = second.step(Event::BuildFinished {
        exit_ok: true,
        stderr: s(""),
        stdout: s(""),
        status: s("exit status: 0"),
    });
    assert!(matches!(action, Action::ReadArtifact(_)));
    let action = second.step(Event::ArtifactLoaded(Some(s("K2"))));
    let final_state = match action {
        Action::SaveState(bytes) => decode_state(&bytes).expect("final record parses"),
        _ => panic!("the successful record must be persisted"),
    };
    assert_eq!(final_state.artifact, Some(s("K2")));
    assert_eq!(final_state.device_source, Some(s("fn device(i){i*2}")));
    let action = second.step(Event::IoOk);
    match action {
        Action::Finish(Ok(artifact)) => assert_eq!(artifact, "K2"),
        _ => panic!("the run must finish with the new artifact"),
    }
}

#[test]
fn toolchain_failure_is_reported_and_not_cached_as_permanent() {
    let mut engine = start("fn device(i){i}");
    let (result, saved, built, _) =
        drive(&mut engine, None, false, "error: type mismatch", "unused");
    assert!(built);
    match result {
        Err(BuildError::ToolchainFailed(msg)) => assert_eq!(msg, "error: type mismatch"),
        _ => panic!("a failed build must surface the toolchain's diagnostic"),
    }
    let st = decode_state(&saved.expect("the failed record must be persisted"))
        .expect("saved bytes parse");
    assert!(!st.compiled);
    assert_eq!(st.message, Some(s("error: type mismatch")));
    assert!(st.artifact.is_none());
    // The cache key is intact: the attempted source is still recorded.
    assert_eq!(st.device_source, Some(s("fn device(i){i}")));

    // A later call with the same source retries the build.
    let mut retry = start("fn device(i){i}");
    let bytes = spindle_cache::persist::encode_state(&st);
    let action = retry.step(Event::StateLoaded(Some(bytes)));
    assert!(matches!(action, Action::RunBuild));
}

#[test]
fn spawn_failure_is_distinct_from_build_failure() {
    let mut engine = start("fn device(i){i}");
    let mut action = engine.step(Event::StateLoaded(None));
    loop {
        action = match action {
            Action::SaveState(_) | Action::WriteScaffold(_) => engine.step(Event::IoOk),
            Action::RunBuild => {
                let a = engine.step(Event::SpawnFailed(s("no such file or directory")));
                match a {
                    Action::Finish(Err(BuildError::SpawnFailed(t))) => {
                        assert_eq!(t, "no such file or directory");
                        return;
                    }
                    _ => panic!("a spawn failure must be surfaced as such"),
                }
            }
            _ => panic!("unexpected request before the build"),
        };
    }
}

#[test]
fn missing_artifact_after_success_is_fatal() {
    let mut engine = start("fn device(i){i}");
    let mut action = engine.step(Event::StateLoaded(None));
    let mut last_saved: Option<Vec<u8>> = None;
    loop {
        action = match action {
            Action::SaveState(bytes) => {
                last_saved = Some(bytes);
                engine.step(Event::IoOk)
            }
            Action::WriteScaffold(_) => engine.step(Event::IoOk),
            Action::RunBuild => engine.step(Event::BuildFinished {
                exit_ok: true,
                stderr: s(""),
                stdout: s(""),
                status: s("exit status: 0"),
            }),
            Action::ReadArtifact(_) => {
                let a = engine.step(Event::ArtifactLoaded(None));
                assert!(matches!(a, Action::Finish(Err(BuildError::MissingArtifact))));
                // The persisted record never claims success without the
                // artifact: what was last saved still has compiled=false.
                let st = decode_state(&last_saved.expect("a record was persisted"))
                    .expect("saved bytes parse");
                assert!(!st.compiled);
                assert!(st.artifact.is_none());
                return;
            }
            _ => panic!("unexpected request"),
        };
    }
}

#[test]
fn filesystem_failure_aborts_the_run() {
    let mut engine = start("fn device(i){i}");
    let action = engine.step(Event::StateLoaded(None));
    assert!(matches!(action, Action::SaveState(_)));
    let action = engine.step(Event::IoErr(s("permission denied")));
    match action {
        Action::Finish(Err(BuildError::Io(t))) => assert_eq!(t, "permission denied"),
        _ => panic!("a filesystem failure must abort the run"),
    }
}

#[test]
fn corrupt_state_file_is_reported_not_repaired() {
    let mut engine = start("fn device(i){i}");
    let action = engine.step(Event::StateLoaded(Some(vec![9, 9, 9])));
    assert!(matches!(action, Action::Finish(Err(BuildError::CorruptState))));
}

#[test]
fn first_scaffold_writes_templates_and_device_source() {
    let mut engine = start("fn device(i){i}");
    let action = engine.step(Event::StateLoaded(None));
    assert!(matches!(action, Action::SaveState(_)));
    let action = engine.step(Event::IoOk);
    let writes = match action {
        Action::WriteScaffold(files) => files,
        _ => panic!("a fresh kernel must be scaffolded"),
    };
    // Placeholder templates (empty contents) are not written; the device
    // source is written to its designated file.
    assert_eq!(writes.len(), 5);
    assert!(writes.iter().any(|f| f.name == "Cargo.toml" && f.dir == ""));
    assert!(writes.iter().any(|f| f.name == "config.toml" && f.dir == ".cargo"));
    let device = writes.last().expect("the device file is written last");
    assert_eq!(device.dir, "src");
    assert_eq!(device.name, "device.rs");
    assert_eq!(device.contents, "fn device(i){i}");
}
