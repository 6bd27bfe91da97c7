use updater::artifact::{may_follow_redirect, stage_payload, ArtifactKind, FetchResponse};
use updater::errors::UpdateErrorKind;
use updater::locator::{classify_locator, rewrite_locator};

fn response(status: u16, content_type: &str, body: Vec<u8>) -> FetchResponse {
    FetchResponse {
        status,
        content_type: String::from(content_type),
        body,
    }
}

#[test]
fn share_locator_with_flag_off_is_switched_on() {
    let r = rewrite_locator("https://host/app.zip?dl=0");
    assert_eq!(r.as_str(), "https://host/app.zip?dl=1");
}

#[test]
fn remote_locator_without_flag_gets_one_appended() {
    let r = rewrite_locator("https://host/app.zip");
    assert_eq!(r.as_str(), "https://host/app.zip?dl=1");
}

#[test]
fn already_direct_locator_passes_through_unchanged() {
    let r = rewrite_locator("https://host/app.zip?dl=1");
    assert_eq!(r.as_str(), "https://host/app.zip?dl=1");
}

#[test]
fn filesystem_locator_passes_through_unchanged() {
    let r = rewrite_locator("\\\\share\\updates\\app-2.0.0.exe");
    assert_eq!(r.as_str(), "\\\\share\\updates\\app-2.0.0.exe");
}

#[test]
fn rewriting_twice_equals_rewriting_once() {
    for locator in [
        "https://host/app.zip?dl=0",
        "https://host/app.zip?dl=1",
        "https://host/app.zip",
        "\\\\share\\updates\\app.exe",
        "dl=0",
    ] {
        let once = rewrite_locator(locator);
        let twice = rewrite_locator(once.as_str());
        assert_eq!(twice, once);
    }
}

#[test]
fn zip_locator_is_a_bundle_everything_else_raw() {
    assert_eq!(classify_locator("https://host/app.zip"), ArtifactKind::CompressedBundle);
    assert_eq!(classify_locator("\\\\share\\app.exe"), ArtifactKind::RawExecutable);
    assert_eq!(classify_locator("https://host/app"), ArtifactKind::RawExecutable);
}

#[test]
fn bundle_with_magic_and_trailing_bytes_is_staged() {
    let resp = response(200, "application/zip", vec![0x50, 0x4b, 0x03, 0x04, 0x00, 0x7f]);
    let path = String::from("C:\\temp\\staged.zip");
    let a = stage_payload(&resp, ArtifactKind::CompressedBundle, &path).expect("valid bundle");
    assert_eq!(a.local_path.as_str(), "C:\\temp\\staged.zip");
    assert_eq!(a.kind, ArtifactKind::CompressedBundle);
    assert_eq!(a.size_bytes, 6);
    assert!(a.signature_ok);
}

#[test]
fn bundle_shorter_than_four_bytes_is_invalid() {
    let resp = response(200, "application/zip", vec![0x50, 0x4b, 0x03]);
    let path = String::from("staged.zip");
    let e = stage_payload(&resp, ArtifactKind::CompressedBundle, &path).expect_err("too short");
    assert_eq!(e.kind(), UpdateErrorKind::InvalidArtifact);
    assert_eq!(
        e.message().as_str(),
        "the update payload is not a valid artifact: payload of 3 bytes with content type application/zip lacks the bundle signature"
    );
}

#[test]
fn bundle_with_wrong_leading_bytes_is_invalid() {
    let resp = response(200, "application/zip", vec![0x4d, 0x5a, 0x00, 0x00, 0x01]);
    let path = String::from("staged.zip");
    let e = stage_payload(&resp, ArtifactKind::CompressedBundle, &path).expect_err("wrong magic");
    assert_eq!(e.kind(), UpdateErrorKind::InvalidArtifact);
}

#[test]
fn raw_executable_needs_no_magic() {
    let resp = response(200, "application/octet-stream", vec![0x4d, 0x5a, 0x00]);
    let path = String::from("staged.exe");
    let a = stage_payload(&resp, ArtifactKind::RawExecutable, &path).expect("raw payload");
    assert_eq!(a.kind, ArtifactKind::RawExecutable);
    assert_eq!(a.size_bytes, 3);
}

#[test]
fn redirects_are_followed_up_to_the_cap() {
    assert!(may_follow_redirect(0));
    assert!(may_follow_redirect(9));
    assert!(!may_follow_redirect(10));
    assert!(!may_follow_redirect(200));
}

#[test]
fn unsuccessful_status_is_fetch_failed() {
    let resp = response(404, "application/zip", vec![0x50, 0x4b, 0x03, 0x04]);
    let path = String::from("staged.zip");
    let e = stage_payload(&resp, ArtifactKind::CompressedBundle, &path).expect_err("status 404");
    assert_eq!(e.kind(), UpdateErrorKind::FetchFailed);
    assert_eq!(
        e.message().as_str(),
        "fetching the update failed with status 404"
    );
}

#[test]
fn markup_answer_is_invalid_artifact() {
    let resp = response(200, "text/html; charset=utf-8", vec![0x50, 0x4b, 0x03, 0x04]);
    let path = String::from("staged.zip");
    let e = stage_payload(&resp, ArtifactKind::CompressedBundle, &path).expect_err("markup page");
    assert_eq!(e.kind(), UpdateErrorKind::InvalidArtifact);
    assert_eq!(
        e.message().as_str(),
        "the update payload is not a valid artifact: the source answered with markup of content type text/html; charset=utf-8"
    );
}

#[test]
fn empty_payload_is_invalid_artifact() {
    let resp = response(200, "application/octet-stream", vec![]);
    let path = String::from("staged.exe");
    let e = stage_payload(&resp, ArtifactKind::RawExecutable, &path).expect_err("empty payload");
    assert_eq!(e.kind(), UpdateErrorKind::InvalidArtifact);
    assert_eq!(
        e.message().as_str(),
        "the update payload is not a valid artifact: the payload is empty"
    );
}
