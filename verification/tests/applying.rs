use updater::archive::ArchiveEntry;
use updater::artifact::{ArtifactKind, FetchResponse};
use updater::controller::{Phase, UpdateController};
use updater::errors::{UpdateError, UpdateErrorKind};
use updater::swap::InstallTarget;
use updater::text::u64_to_string;

fn checked_verdict(
    c: &mut UpdateController,
    latest: &str,
    locator: &str,
) -> updater::version::UpdateVerdict {
    let text = format!(
        "{{\"version\": \"{}\", \"artifact_locator\": \"{}\"}}",
        latest,
        locator.replace('\\', "\\\\")
    );
    c.begin_check();
    c.finish_check_source(&Some(text)).expect("manifest parses")
}

#[test]
fn decimal_rendering_is_exact() {
    assert_eq!(u64_to_string(0).as_str(), "0");
    assert_eq!(u64_to_string(7).as_str(), "7");
    assert_eq!(u64_to_string(10).as_str(), "10");
    assert_eq!(u64_to_string(90210).as_str(), "90210");
    assert_eq!(u64_to_string(u64::MAX).as_str(), "18446744073709551615");
}

#[test]
fn second_apply_while_pending_is_rejected_and_first_unaffected() {
    let mut c = UpdateController::new(String::from("1.0.0"));
    let v = checked_verdict(&mut c, "2.0.0", "https://host/app.zip");
    let first = c.begin_apply(&v).expect("first apply starts");
    assert_eq!(first.as_str(), "https://host/app.zip?dl=1");
    assert_eq!(c.phase, Phase::Applying);
    assert_eq!(c.pending_kind, Some(ArtifactKind::CompressedBundle));

    let second = c.begin_apply(&v).expect_err("second apply is rejected");
    assert_eq!(second.kind(), UpdateErrorKind::UpdateInProgress);
    assert_eq!(
        second.message().as_str(),
        "an update is already in progress"
    );
    // The pending apply is unaffected: still in flight, same expectation.
    assert_eq!(c.phase, Phase::Applying);
    assert_eq!(c.pending_kind, Some(ArtifactKind::CompressedBundle));
}

#[test]
fn apply_without_an_available_update_is_a_contract_violation() {
    let mut c = UpdateController::new(String::from("1.0.0"));
    let v = checked_verdict(&mut c, "1.0.0", "https://host/app.zip");
    assert!(!v.available);
    let e = c.begin_apply(&v).expect_err("nothing to apply");
    assert_eq!(e.kind(), UpdateErrorKind::NoUpdateAvailable);
    assert_eq!(c.phase, Phase::Idle);
}

#[test]
fn full_apply_flow_stages_extracts_and_hands_off() {
    let mut c = UpdateController::new(String::from("1.0.0"));
    let v = checked_verdict(&mut c, "2.0.0", "https://host/app.zip?dl=0");
    assert!(v.available);
    assert_eq!(v.latest_version.as_str(), "2.0.0");

    let direct = c.begin_apply(&v).expect("apply starts");
    assert_eq!(direct.as_str(), "https://host/app.zip?dl=1");

    let resp = FetchResponse {
        status: 200,
        content_type: String::from("application/zip"),
        body: vec![0x50, 0x4b, 0x03, 0x04, 0x11, 0x22, 0x33],
    };
    let staging = String::from("C:\\temp\\update-staged.zip");
    let artifact = c.stage_fetched(&resp, &staging).expect("payload validates");
    assert_eq!(artifact.local_path.as_str(), "C:\\temp\\update-staged.zip");
    assert_eq!(artifact.size_bytes, 7);

    let entries = vec![
        ArchiveEntry { name: String::from("assets"), is_dir: true },
        ArchiveEntry { name: String::from("app.exe"), is_dir: false },
    ];
    let plan = c.plan_bundle(&entries).expect("an executable is present");
    assert_eq!(plan.executable.as_str(), "app.exe");

    let target = InstallTarget {
        executable_path: String::from("C:\\apps\\app.exe"),
        process_id: 4242,
    };
    let new_exe = String::from("C:\\temp\\extracted\\app.exe");
    let script = c.prepare_swap(&target, &new_exe, vec![staging.clone()]);
    assert_eq!(script.wait_pid, 4242);
    assert_eq!(script.destination.as_str(), "C:\\apps\\app.exe");

    c.helper_launched(true, String::new()).expect("helper started");
    // Committed: the caller now ends the process with a normal exit.
    assert_eq!(c.phase, Phase::Applying);
}

#[test]
fn fetch_failure_ends_the_apply_with_nothing_installed() {
    let mut c = UpdateController::new(String::from("1.0.0"));
    let v = checked_verdict(&mut c, "2.0.0", "https://host/app.zip");
    c.begin_apply(&v).expect("apply starts");

    let resp = FetchResponse {
        status: 404,
        content_type: String::from("text/html"),
        body: vec![],
    };
    let staging = String::from("staged.zip");
    let e = c.stage_fetched(&resp, &staging).expect_err("status 404");
    assert_eq!(e.kind(), UpdateErrorKind::FetchFailed);
    // The apply is over; the install path was never touched.
    assert_eq!(c.phase, Phase::Idle);
    assert_eq!(c.pending_kind, None);
}

#[test]
fn helper_launch_failure_leaves_the_old_version_running() {
    let mut c = UpdateController::new(String::from("1.0.0"));
    let v = checked_verdict(&mut c, "2.0.0", "\\\\share\\updates\\app.exe");
    let direct = c.begin_apply(&v).expect("apply starts");
    assert_eq!(direct.as_str(), "\\\\share\\updates\\app.exe");
    assert_eq!(c.pending_kind, Some(ArtifactKind::RawExecutable));

    let e = c
        .helper_launched(false, String::from("spawn refused"))
        .expect_err("launch failed");
    assert_eq!(e.kind(), UpdateErrorKind::SwapLaunchFailed);
    assert_eq!(
        e.message().as_str(),
        "the update helper could not be started: spawn refused"
    );
    assert_eq!(c.phase, Phase::Idle);
}

#[test]
fn swap_script_text_is_exact() {
    let script = updater::swap::SwapScript {
        wait_pid: 77,
        source: String::from("C:\\t\\new.exe"),
        destination: String::from("C:\\a\\app.exe"),
        cleanup: vec![String::from("C:\\t\\staged.zip"), String::from("C:\\t\\scratch")],
    };
    let expected = "@echo off\r\nset tries=0\r\n:wait\r\ntasklist /FI \"PID eq 77\" | find \"77\" >nul\r\nif errorlevel 1 goto swap\r\nset /a tries=%tries%+1\r\nif %tries% geq 10 goto fail\r\ntimeout /t 1 /nobreak >nul\r\ngoto wait\r\n:swap\r\ncopy /Y \"C:\\t\\new.exe\" \"C:\\a\\app.exe\"\r\nif errorlevel 1 goto fail\r\nstart \"\" \"C:\\a\\app.exe\"\r\ndel \"C:\\t\\staged.zip\"\r\ndel \"C:\\t\\scratch\"\r\ndel \"%~f0\"\r\nexit /b 0\r\n:fail\r\nexit /b 1\r\n";
    assert_eq!(script.render().as_str(), expected);
}

#[test]
fn error_messages_carry_kind_and_diagnostic() {
    let e = UpdateError::CheckFailed(String::from("auth token rejected"));
    assert_eq!(e.kind(), UpdateErrorKind::CheckFailed);
    assert_eq!(
        e.message().as_str(),
        "update check failed: auth token rejected"
    );
    let e = UpdateError::NoUpdateAvailable;
    assert_eq!(e.message().as_str(), "no update is available to apply");
    let e = UpdateError::NoExecutableInArchive;
    assert_eq!(e.message().as_str(), "the update bundle holds no executable");
}
