use std::io::Write;
use std::path::PathBuf;
use std::time::Duration;

use rust_rclone::archive::{extract_binary, find_binary, Entry};
use rust_rclone::config::ManagedFile;
use rust_rclone::digest::{compare_checksum, sha256_of};
use rust_rclone::engine::{StartAction, StartEvent};
use rust_rclone::lifecycle::{wait_for_ready, DaemonProcess, Method, QuitAction};
use rust_rclone::provision::{
    is_installed, InstallProbe, ProvisionAction, ProvisionEvent, ProvisionRun, VersionJson,
    WriteFault,
};
use rust_rclone::state::SharedState;
use rust_rclone::{EngineConfig, EngineState, Error, RcloneEngine};

fn test_config() -> EngineConfig {
    EngineConfig::new(
        PathBuf::from("/data"),
        "v1.74.3",
        "https://example.com/rclone.zip",
        "deadbeef",
    )
}

fn nothing_there() -> InstallProbe {
    InstallProbe { binary_exists: false, marker: None }
}

fn marker(version: &str) -> Option<VersionJson> {
    Some(VersionJson { rclone_version: version.to_string(), sha256: String::new() })
}

fn installed() -> InstallProbe {
    InstallProbe { binary_exists: true, marker: marker("v1.74.3") }
}

fn zip_of(files: &[(&str, &[u8])]) -> Vec<u8> {
    let mut writer = zip::ZipWriter::new(std::io::Cursor::new(Vec::new()));
    let options = zip::write::SimpleFileOptions::default();
    for (name, contents) in files {
        if name.ends_with('/') {
            writer.add_directory(*name, options).unwrap();
        } else {
            writer.start_file(*name, options).unwrap();
            writer.write_all(contents).unwrap();
        }
    }
    writer.finish().unwrap().into_inner()
}

fn provision_message(e: Error) -> String {
    match e {
        Error::Provision(message) => message,
        other => panic!("{other:?}"),
    }
}

/// Runs up to the download, for a configuration with the given checksum.
fn fetching(sha256: &str) -> (RcloneEngine, ProvisionRun) {
    let mut cfg = test_config();
    cfg.asset.sha256 = sha256.to_string();
    let mut engine = RcloneEngine::new(cfg);
    let (mut run, first) = engine.provision(false);
    assert!(matches!(first.action, ProvisionAction::MakeBinDir));
    assert!(first.progress.is_none());
    let turn = engine.provision_step(&mut run, ProvisionEvent::Done);
    assert!(matches!(turn.action, ProvisionAction::ProbeInstall));
    let turn = engine.provision_step(&mut run, ProvisionEvent::Probed(nothing_there()));
    match turn.action {
        ProvisionAction::Download { url } => assert_eq!(url, "https://example.com/rclone.zip"),
        other => panic!("{other:?}"),
    }
    (engine, run)
}

#[test]
fn state_starts_not_installed() {
    let engine = RcloneEngine::new(test_config());
    assert_eq!(engine.state(), EngineState::NotInstalled);
    assert!(!engine.is_installed(&nothing_there()));
    assert!(!engine.is_ready());
    assert_eq!(engine.bound_port(), None);
}

#[test]
fn start_before_provision_returns_error() {
    let mut engine = RcloneEngine::new(test_config());
    let err = engine.start(&nothing_there()).unwrap_err();
    assert!(matches!(err, Error::Provision(_)));
    assert_eq!(provision_message(err), "call provision() before start()");
    assert_eq!(engine.state(), EngineState::NotInstalled);
}

#[test]
fn lib_provision_fails_on_bad_url() {
    let (mut engine, mut run) = fetching("deadbeef");
    let turn =
        engine.provision_step(&mut run, ProvisionEvent::Failed(Error::Http("404".to_string())));
    assert!(matches!(turn.action, ProvisionAction::Remove(_)));
    let turn = engine.provision_step(&mut run, ProvisionEvent::Done);
    match turn.action {
        ProvisionAction::Finish(result) => assert!(result.is_err()),
        other => panic!("{other:?}"),
    }
    assert!(matches!(engine.state(), EngineState::Error { .. }));
    assert_eq!(
        engine.state(),
        EngineState::Error { message: "HTTP error: 404".to_string() }
    );
}

#[test]
fn provision_provision_fails_on_bad_url() {
    let (mut run, _) = ProvisionRun::new(test_config(), false);
    run.advance(ProvisionEvent::Done);
    run.advance(ProvisionEvent::Probed(nothing_there()));
    let turn = run.advance(ProvisionEvent::Failed(Error::Http("no host".to_string())));
    // Partial file must not remain
    match turn.action {
        ProvisionAction::Remove(files) => {
            assert!(files.contains(&ManagedFile::Part));
            let part = run.config().path_of(ManagedFile::Part, false);
            assert_eq!(part, PathBuf::from("/data").join("rclone.part"));
        }
        other => panic!("{other:?}"),
    }
    match run.advance(ProvisionEvent::Done).action {
        ProvisionAction::Finish(result) => assert!(result.is_err()),
        other => panic!("{other:?}"),
    }
}

#[test]
fn set_data_dir_updates_state() {
    let mut engine = RcloneEngine::new(test_config());
    let new_dir = PathBuf::from("/elsewhere");
    engine.set_data_dir(new_dir.join("rclone"), &nothing_there());
    assert_eq!(engine.state(), EngineState::NotInstalled);
    assert_eq!(engine.data_dir(), PathBuf::from("/elsewhere/rclone"));
    engine.set_data_dir(PathBuf::from("/third"), &installed());
    assert_eq!(engine.state(), EngineState::Stopped);
    engine.set_data_dir(PathBuf::from("/third"), &installed());
    assert_eq!(engine.state(), EngineState::Stopped);
    engine.set_data_dir(PathBuf::from("/fourth"), &nothing_there());
    assert_eq!(engine.state(), EngineState::NotInstalled);
}

#[test]
fn is_installed_missing_binary() {
    let cfg = test_config();
    assert!(!is_installed(&cfg, &nothing_there()));
}

#[test]
fn is_installed_needs_binary_and_version() {
    let cfg = test_config();
    assert!(is_installed(&cfg, &installed()));
    assert!(!is_installed(
        &cfg,
        &InstallProbe { binary_exists: false, marker: marker("v1.74.3") }
    ));
    assert!(!is_installed(&cfg, &InstallProbe { binary_exists: true, marker: None }));
    assert!(!is_installed(
        &cfg,
        &InstallProbe { binary_exists: true, marker: marker("v1.74.2") }
    ));
}

#[test]
fn paths_lie_in_the_data_directory() {
    let cfg = test_config();
    assert_eq!(cfg.config_path(), PathBuf::from("/data/rclone.conf"));
    let name = if std::path::is_separator('\\') { "rclone.exe" } else { "rclone" };
    assert_eq!(cfg.binary_path(), PathBuf::from("/data/bin").join(name));
    assert_eq!(cfg.path_of(ManagedFile::Binary, true), PathBuf::from("/data/bin/rclone.exe"));
    assert_eq!(cfg.path_of(ManagedFile::Marker, true), PathBuf::from("/data/version.json"));
    assert_eq!(cfg.startup_timeout, Duration::from_secs(15));
    assert_eq!(cfg.rclone_version, "v1.74.3");
    assert_eq!(cfg.asset.sha256, "deadbeef");
    assert_eq!(cfg.clone().asset.url, "https://example.com/rclone.zip");
    let all = [
        ManagedFile::BinDir,
        ManagedFile::Binary,
        ManagedFile::Staged,
        ManagedFile::Part,
        ManagedFile::Marker,
        ManagedFile::Config,
    ];
    for a in all {
        for b in all {
            assert_eq!(cfg.path_of(a, false) == cfg.path_of(b, false), a == b);
        }
    }
}

#[test]
fn states_as_text() {
    let text = |s: EngineState| s.to_string();
    assert_eq!(text(EngineState::NotInstalled), "NotInstalled");
    assert_eq!(
        text(EngineState::Downloading { downloaded: 10, total: Some(1024) }),
        "Downloading(10/1024)"
    );
    assert_eq!(text(EngineState::Downloading { downloaded: 0, total: None }), "Downloading(0/?)");
    assert_eq!(
        text(EngineState::Downloading { downloaded: u64::MAX, total: None }),
        "Downloading(18446744073709551615/?)"
    );
    assert_eq!(text(EngineState::Installing), "Installing");
    assert_eq!(text(EngineState::Stopped), "Stopped");
    assert_eq!(text(EngineState::Starting), "Starting");
    assert_eq!(text(EngineState::Ready), "Ready");
    assert_eq!(text(EngineState::Error { message: "boom".to_string() }), "Error(boom)");
}

#[test]
fn errors_as_text() {
    let s = |t: &str| t.to_string();
    assert_eq!(Error::Provision(s("x")).to_string(), "provision error: x");
    assert_eq!(
        Error::ChecksumMismatch { expected: s("a"), actual: s("b") }.to_string(),
        "checksum mismatch — expected a, got b"
    );
    assert_eq!(
        Error::StartupTimeout { seconds: 15 }.to_string(),
        "rclone rcd startup timed out after 15s"
    );
    assert_eq!(
        Error::NotReady { state: s("Stopped") }.to_string(),
        "rclone is not ready (state: Stopped)"
    );
    assert_eq!(Error::Rc(s("x")).to_string(), "rclone rc error: x");
    assert_eq!(Error::JobFailed(s("x")).to_string(), "async job failed: x");
    assert_eq!(Error::Io(s("x")).to_string(), "I/O error: x");
    assert_eq!(Error::Http(s("x")).to_string(), "HTTP error: x");
    assert_eq!(Error::Json(s("x")).to_string(), "JSON error: x");
}

#[test]
fn state_cell_holds_what_was_set() {
    let mut cell = SharedState::new();
    assert_eq!(cell.get(), EngineState::NotInstalled);
    let state = EngineState::Downloading { downloaded: 3, total: Some(4) };
    cell.set(state.clone());
    assert_eq!(cell.get(), state);
    assert_ne!(cell.get(), EngineState::Downloading { downloaded: 3, total: None });
    cell.set(EngineState::Error { message: "a".to_string() });
    assert_ne!(cell.get(), EngineState::Error { message: "b".to_string() });
}

#[test]
fn checksum_of_known_data() {
    assert_eq!(
        sha256_of(b"hello world"),
        "b94d27b9934d3e08a52e52d7da7dabfac484efe37a5380ee9088f7ace2efcde9"
    );
    assert_eq!(
        sha256_of(b""),
        "e3b0c44298fc1c149afbf4c8996fb92427ae41e4649b934ca495991b7852b855"
    );
    let pinned = "abc".to_string();
    assert!(compare_checksum(&pinned, "abc".to_string()).is_ok());
    assert!(compare_checksum(&String::new(), "abc".to_string()).is_ok());
    match compare_checksum(&pinned, "ABC".to_string()) {
        Err(Error::ChecksumMismatch { expected, actual }) => {
            assert_eq!(expected, "abc");
            assert_eq!(actual, "ABC");
        }
        other => panic!("{other:?}"),
    }
}

#[test]
fn binary_is_extracted_from_its_directory() {
    let data = zip_of(&[
        ("rclone-v1-osx/", b""),
        ("rclone-v1-osx/README.txt", b"read me"),
        ("rclone-v1-osx/rclone", b"the binary the binary the binary"),
        ("other/rclone", b"not this one"),
    ]);
    let bytes = extract_binary(data.clone(), "rclone").unwrap();
    assert_eq!(bytes, b"the binary the binary the binary");
    let e = extract_binary(data, "rclone.exe").unwrap_err();
    assert_eq!(provision_message(e), "rclone binary 'rclone.exe' not found in zip");
    let message = provision_message(extract_binary(b"no zip".to_vec(), "rclone").unwrap_err());
    assert!(message.starts_with("read zip: "), "{message}");
    assert!(message.len() > "read zip: ".len());
}

#[test]
fn damaged_contents_are_refused() {
    let contents = b"0123456789abcdef0123456789abcdef";
    let mut writer = zip::ZipWriter::new(std::io::Cursor::new(Vec::new()));
    let options = zip::write::SimpleFileOptions::default()
        .compression_method(zip::CompressionMethod::Stored);
    writer.start_file("rclone", options).unwrap();
    writer.write_all(contents).unwrap();
    let mut data = writer.finish().unwrap().into_inner();
    let at = data.windows(contents.len()).position(|w| w == contents).unwrap();
    data[at] = b'x';
    let message = provision_message(extract_binary(data, "rclone").unwrap_err());
    assert!(message.starts_with("extract binary: "), "{message}");
}

#[test]
fn search_stops_at_entries_that_cannot_be_read() {
    let entry = |name: &str, is_dir: bool| Ok(Entry { name: name.to_string(), is_dir });
    let entries = vec![entry("a/rclone", true), entry("b/rclone", false), Err("bad".to_string())];
    assert_eq!(find_binary(&entries, "rclone").unwrap(), 1);
    let entries = vec![entry("a/b", false), Err("bad".to_string()), entry("rclone", false)];
    let e = find_binary(&entries, "rclone").unwrap_err();
    assert_eq!(provision_message(e), "zip entry 1: bad");
}

#[test]
fn provisioning_to_the_end() {
    let data = zip_of(&[("rclone-v1/rclone", b"binary")]);
    let sha256 = sha256_of(&data);
    let (mut engine, mut run) = fetching(&sha256);
    assert_eq!(engine.state(), EngineState::Downloading { downloaded: 0, total: None });
    for (len, sum) in [(10, 10), (32, 42)] {
        let event = ProvisionEvent::Chunk { len, total: Some(42) };
        assert!(run.is_expecting(&event));
        let turn = engine.provision_step(&mut run, event);
        assert!(matches!(turn.action, ProvisionAction::AwaitChunk));
        let expected = EngineState::Downloading { downloaded: sum, total: Some(42) };
        assert_eq!(turn.progress, Some(expected.clone()));
        assert_eq!(engine.state(), expected);
    }
    let turn = engine.provision_step(&mut run, ProvisionEvent::Done);
    assert!(matches!(turn.action, ProvisionAction::ReadPart));
    assert_eq!(turn.progress, Some(EngineState::Installing));
    assert_eq!(engine.state(), EngineState::Installing);
    let turn = engine.provision_step(&mut run, ProvisionEvent::Loaded(data));
    match turn.action {
        ProvisionAction::WriteStaged(bytes) => assert_eq!(bytes, b"binary"),
        other => panic!("{other:?}"),
    }
    let turn = engine.provision_step(&mut run, ProvisionEvent::Done);
    assert!(matches!(turn.action, ProvisionAction::MakeExecutable));
    let turn = engine.provision_step(&mut run, ProvisionEvent::Done);
    assert!(matches!(turn.action, ProvisionAction::Rename));
    let turn = engine.provision_step(&mut run, ProvisionEvent::Done);
    match turn.action {
        ProvisionAction::Remove(files) => assert_eq!(files, vec![ManagedFile::Part]),
        other => panic!("{other:?}"),
    }
    let turn = engine.provision_step(&mut run, ProvisionEvent::Done);
    let written = match turn.action {
        ProvisionAction::WriteMarker(v) => v,
        other => panic!("{other:?}"),
    };
    assert_eq!(written.rclone_version, "v1.74.3");
    assert_eq!(written.sha256, sha256);
    let turn = engine.provision_step(&mut run, ProvisionEvent::Done);
    assert!(matches!(turn.action, ProvisionAction::Finish(Ok(()))));
    assert_eq!(engine.state(), EngineState::Stopped);
    assert!(!run.is_expecting(&ProvisionEvent::Done));
    let probe = InstallProbe { binary_exists: true, marker: Some(written) };
    assert!(engine.is_installed(&probe));
}

#[test]
fn provisioning_what_is_installed_is_a_no_op() {
    let mut engine = RcloneEngine::new(test_config());
    let (mut run, _) = engine.provision(false);
    engine.provision_step(&mut run, ProvisionEvent::Done);
    let turn = engine.provision_step(&mut run, ProvisionEvent::Probed(installed()));
    assert!(matches!(turn.action, ProvisionAction::Finish(Ok(()))));
    assert_eq!(engine.state(), EngineState::Stopped);
}

#[test]
fn wrong_checksum_is_refused() {
    let data = zip_of(&[("rclone", b"binary")]);
    let actual_sha256 = sha256_of(&data);
    let (mut engine, mut run) = fetching("deadbeef");
    engine.provision_step(&mut run, ProvisionEvent::Done);
    let turn = engine.provision_step(&mut run, ProvisionEvent::Loaded(data));
    match turn.action {
        ProvisionAction::Remove(files) => {
            assert_eq!(files, vec![ManagedFile::Part, ManagedFile::Staged]);
        }
        other => panic!("{other:?}"),
    }
    match engine.provision_step(&mut run, ProvisionEvent::Done).action {
        ProvisionAction::Finish(Err(Error::ChecksumMismatch { expected, actual })) => {
            assert_eq!(expected, "deadbeef");
            assert_eq!(actual, actual_sha256);
        }
        other => panic!("{other:?}"),
    }
}

#[test]
fn without_a_pinned_checksum_none_is_compared() {
    let (mut engine, mut run) = fetching("");
    let turn = engine.provision_step(&mut run, ProvisionEvent::Done);
    assert!(turn.progress.is_none());
    let data = zip_of(&[("rclone", b"binary")]);
    let turn = engine.provision_step(&mut run, ProvisionEvent::Loaded(data));
    assert!(matches!(turn.action, ProvisionAction::WriteStaged(_)));
}

#[test]
fn unreadable_archives() {
    for (sha256, expected) in [("", "provision error: open zip: gone"), ("ab", "I/O error: gone")] {
        let (mut engine, mut run) = fetching(sha256);
        engine.provision_step(&mut run, ProvisionEvent::Done);
        let event = ProvisionEvent::Unreadable("gone".to_string());
        engine.provision_step(&mut run, event);
        match engine.provision_step(&mut run, ProvisionEvent::Done).action {
            ProvisionAction::Finish(Err(e)) => assert_eq!(e.to_string(), expected),
            other => panic!("{other:?}"),
        }
    }
}

#[test]
fn binaries_that_cannot_be_written() {
    for (fault, expected) in [
        (WriteFault::Mkdir, "mkdir: full"),
        (WriteFault::Create, "create binary: full"),
        (WriteFault::Fill, "extract binary: full"),
    ] {
        let (mut engine, mut run) = fetching("");
        engine.provision_step(&mut run, ProvisionEvent::Done);
        let data = zip_of(&[("rclone", b"binary")]);
        engine.provision_step(&mut run, ProvisionEvent::Loaded(data));
        let event = ProvisionEvent::NotWritten { fault, reason: "full".to_string() };
        assert!(run.is_expecting(&event));
        engine.provision_step(&mut run, event);
        match engine.provision_step(&mut run, ProvisionEvent::Done).action {
            ProvisionAction::Finish(Err(e)) => assert_eq!(provision_message(e), expected),
            other => panic!("{other:?}"),
        }
    }
}

#[test]
fn failure_after_placing_removes_the_binary() {
    let (mut engine, mut run) = fetching("");
    engine.provision_step(&mut run, ProvisionEvent::Done);
    let data = zip_of(&[("rclone", b"binary")]);
    engine.provision_step(&mut run, ProvisionEvent::Loaded(data));
    for _ in 0..4 {
        engine.provision_step(&mut run, ProvisionEvent::Done);
    }
    let event = ProvisionEvent::Failed(Error::Io("disk full".to_string()));
    match engine.provision_step(&mut run, event).action {
        ProvisionAction::Remove(files) => {
            assert!(files.contains(&ManagedFile::Binary));
            assert!(files.contains(&ManagedFile::Marker));
        }
        other => panic!("{other:?}"),
    }
    engine.provision_step(&mut run, ProvisionEvent::Done);
    assert_eq!(
        engine.state(),
        EngineState::Error { message: "I/O error: disk full".to_string() }
    );
}

#[test]
fn data_directory_that_cannot_be_made() {
    let mut engine = RcloneEngine::new(test_config());
    let (mut run, _) = engine.provision(false);
    let event = ProvisionEvent::Failed(Error::Io("denied".to_string()));
    let turn = engine.provision_step(&mut run, event);
    assert!(matches!(turn.action, ProvisionAction::Finish(Err(Error::Io(_)))));
    assert_eq!(engine.state(), EngineState::Error { message: "I/O error: denied".to_string() });
}

#[test]
fn start_and_stop() {
    let mut engine = RcloneEngine::new(test_config());
    let (mut run, first) = engine.start(&installed()).unwrap();
    assert!(matches!(first, StartAction::ReapStrays));
    assert_eq!(engine.state(), EngineState::Starting);
    assert!(matches!(engine.start_step(&mut run, StartEvent::Done), StartAction::Spawn));
    let action = engine.start_step(&mut run, StartEvent::Spawned(40123));
    assert!(matches!(action, StartAction::ReadClock));
    assert_eq!(engine.bound_port(), Some(40123));
    assert!(!engine.is_ready());
    let elapsed = StartEvent::Elapsed(Duration::from_secs(1));
    match engine.start_step(&mut run, elapsed) {
        StartAction::Probe(check) => {
            assert_eq!(check.method, Method::Get);
            assert_eq!(check.url, "http://127.0.0.1:40123/rc/noop");
            assert_eq!(check.timeout, Duration::from_secs(2));
        }
        other => panic!("{other:?}"),
    }
    // No answer, and answers that are no success, are tried again.
    let replies = [
        StartEvent::Unanswered,
        StartEvent::Answered(199),
        StartEvent::Answered(300),
        StartEvent::Answered(404),
        StartEvent::Answered(503),
    ];
    for reply in replies {
        assert!(run.is_expecting(&reply));
        match engine.start_step(&mut run, reply) {
            StartAction::Sleep(span) => assert_eq!(span, Duration::from_millis(300)),
            other => panic!("{other:?}"),
        }
        assert_eq!(engine.state(), EngineState::Starting);
        engine.start_step(&mut run, StartEvent::Done);
        engine.start_step(&mut run, StartEvent::Elapsed(Duration::from_secs(2)));
    }
    engine.start_step(&mut run, StartEvent::Unanswered);
    engine.start_step(&mut run, StartEvent::Done);
    engine.start_step(&mut run, StartEvent::Elapsed(Duration::from_millis(14_999)));
    let event = StartEvent::Answered(200);
    assert!(run.is_expecting(&event));
    let action = engine.start_step(&mut run, event);
    assert!(matches!(action, StartAction::Finish(Ok(()))));
    assert_eq!(engine.state(), EngineState::Ready);
    assert!(engine.is_ready());
    assert_eq!(engine.rc().url("x"), "http://127.0.0.1:40123/x");

    assert_eq!(engine.stop(), Some(DaemonProcess { port: 40123, running: true }));
    engine.stopped();
    assert_eq!(engine.state(), EngineState::Stopped);
    assert_eq!(engine.bound_port(), None);
    assert_eq!(engine.stop(), None);
    engine.stopped();
    assert_eq!(engine.state(), EngineState::Stopped);
}

#[test]
fn late_daemon_is_stopped() {
    let mut engine = RcloneEngine::new(test_config());
    let (mut run, _) = engine.start(&installed()).unwrap();
    engine.start_step(&mut run, StartEvent::Done);
    engine.start_step(&mut run, StartEvent::Spawned(7));
    let action = engine.start_step(&mut run, StartEvent::Elapsed(Duration::from_secs(15)));
    match action {
        StartAction::StopDaemon(daemon) => assert_eq!(daemon.port, 7),
        other => panic!("{other:?}"),
    }
    assert_eq!(engine.bound_port(), None);
    let action = engine.start_step(&mut run, StartEvent::Done);
    assert!(matches!(
        action,
        StartAction::Finish(Err(Error::StartupTimeout { seconds: 15 }))
    ));
    assert_eq!(
        engine.state(),
        EngineState::Error { message: "rclone rcd startup timed out after 15s".to_string() }
    );
}

#[test]
fn daemon_that_cannot_be_spawned() {
    let mut engine = RcloneEngine::new(test_config());
    let (mut run, _) = engine.start(&installed()).unwrap();
    engine.start_step(&mut run, StartEvent::Done);
    let event = StartEvent::NotSpawned(Error::Io("no such file".to_string()));
    let action = engine.start_step(&mut run, event);
    assert!(matches!(action, StartAction::Finish(Err(Error::Io(_)))));
    assert_eq!(
        engine.state(),
        EngineState::Error { message: "I/O error: no such file".to_string() }
    );
    assert!(!run.is_expecting(&StartEvent::Done));
}

#[test]
fn provisioning_beside_a_start_keeps_its_state() {
    let mut engine = RcloneEngine::new(test_config());
    let (mut run, _) = engine.provision(false);
    engine.start(&installed()).unwrap();
    engine.provision_step(&mut run, ProvisionEvent::Done);
    engine.provision_step(&mut run, ProvisionEvent::Probed(installed()));
    assert_eq!(engine.state(), EngineState::Starting);
}

#[test]
fn provisioning_a_ready_engine_is_a_no_op() {
    let mut engine = RcloneEngine::new(test_config());
    let (mut start, _) = engine.start(&installed()).unwrap();
    engine.start_step(&mut start, StartEvent::Done);
    engine.start_step(&mut start, StartEvent::Spawned(40123));
    engine.start_step(&mut start, StartEvent::Elapsed(Duration::from_secs(1)));
    engine.start_step(&mut start, StartEvent::Answered(204));
    assert!(engine.is_ready());

    let (mut run, _) = engine.provision(false);
    engine.provision_step(&mut run, ProvisionEvent::Done);
    let turn = engine.provision_step(&mut run, ProvisionEvent::Probed(installed()));
    assert!(matches!(turn.action, ProvisionAction::Finish(Ok(()))));
    assert!(engine.is_ready());
    assert_eq!(engine.bound_port(), Some(40123));

    let (mut run, _) = engine.provision(false);
    engine.provision_step(&mut run, ProvisionEvent::Done);
    engine.provision_step(&mut run, ProvisionEvent::Probed(nothing_there()));
    assert_eq!(engine.state(), EngineState::Downloading { downloaded: 0, total: None });
}

#[test]
fn daemon_is_told_its_loopback_address() {
    let cfg = test_config();
    let (daemon, command) = DaemonProcess::spawn(&cfg, 5572, false);
    assert_eq!(daemon, DaemonProcess { port: 5572, running: true });
    assert_eq!(command.program, PathBuf::from("/data/bin/rclone"));
    assert_eq!(
        command.args,
        vec![
            "rcd",
            "--rc-addr",
            "127.0.0.1:5572",
            "--rc-no-auth",
            "--config",
            "/data/rclone.conf"
        ]
    );
}

#[test]
fn daemon_is_asked_before_it_is_killed() {
    for success in [true, false] {
        let (mut daemon, _) = DaemonProcess::spawn(&test_config(), 5572, false);
        let (mut run, first) = daemon.stop();
        match first {
            QuitAction::Send { method, url, timeout } => {
                assert_eq!(method, Method::Post);
                assert_eq!(url, "http://127.0.0.1:5572/core/quit");
                assert_eq!(timeout, Duration::from_secs(3));
            }
            other => panic!("{other:?}"),
        }
        match run.advance(success) {
            QuitAction::Sleep(span) => assert_eq!(span, Duration::from_millis(500)),
            other => panic!("{other:?}"),
        }
        assert!(matches!(run.advance(success), QuitAction::Kill));
        assert!(matches!(run.advance(success), QuitAction::Wait));
        assert!(!run.is_over());
        assert!(matches!(run.advance(success), QuitAction::Finish));
        assert!(run.is_over());

        // A second time there is nothing to do.
        let (run, first) = daemon.stop();
        assert!(matches!(first, QuitAction::Finish));
        assert!(run.is_over());
        assert_eq!(daemon, DaemonProcess { port: 5572, running: false });
    }
}

#[test]
fn health_checks_end_with_the_timeout() {
    let timeout = Duration::from_millis(2500);
    assert!(wait_for_ready(1, Duration::from_nanos(2_499_999_999), timeout).is_ok());
    assert!(matches!(
        wait_for_ready(1, timeout, timeout),
        Err(Error::StartupTimeout { seconds: 2 })
    ));
}
