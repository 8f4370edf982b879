use jj::asset::{select_asset, ClientError};
use jj::executor::{
    after_download, after_fetch, after_replace, should_notify, update_exit_code, Mode, ReleaseInfo,
    Step, UpdateError, UpdateOutcome,
};
use jj::resolver::{is_newer, moving_tag_name, resolve, Resolution};
use jj::text::{chars_equal, contains_text, occurs_at_index};
use jj::version::{Channel, VersionDescriptor};

const TARGET: &str = "x86_64-unknown-linux-gnu";

fn release(version: &str, assets: &[&str]) -> ReleaseInfo {
    ReleaseInfo {
        version: version.to_string(),
        asset_names: assets.iter().map(|a| a.to_string()).collect(),
    }
}

fn linux_release(version: &str) -> ReleaseInfo {
    release(
        version,
        &["jj-x86_64-unknown-linux-gnu", "jj-aarch64-apple-darwin", "jj-x86_64-pc-windows-msvc.exe"],
    )
}

fn plan(current: &str, channel: Channel) -> Resolution {
    resolve(&VersionDescriptor::parse(current), channel)
}

#[test]
fn parse_stable_version() {
    let d = VersionDescriptor::parse("1.2.0");
    assert_eq!(d.base, "1.2.0");
    assert_eq!(d.channel, Channel::Stable);
    assert_eq!(d.build_id, None);
}

#[test]
fn parse_preview_version() {
    let d = VersionDescriptor::parse("1.3.0-preview+abc1234");
    assert_eq!(d.base, "1.3.0");
    assert_eq!(d.channel, Channel::Preview);
    assert_eq!(d.build_id.as_deref(), Some("abc1234"));
}

#[test]
fn parse_preview_with_unknown_commit() {
    let d = VersionDescriptor::parse("0.4.1-preview+unknown");
    assert_eq!(d.base, "0.4.1");
    assert_eq!(d.channel, Channel::Preview);
    assert_eq!(d.build_id.as_deref(), Some("unknown"));
}

#[test]
fn parse_preview_without_build_id() {
    let d = VersionDescriptor::parse("2.0.0-preview");
    assert_eq!(d.base, "2.0.0");
    assert_eq!(d.channel, Channel::Preview);
    assert_eq!(d.build_id, None);
}

#[test]
fn parse_empty_and_short_strings() {
    let d = VersionDescriptor::parse("");
    assert_eq!(d.base, "");
    assert_eq!(d.channel, Channel::Stable);
    let d = VersionDescriptor::parse("-previe");
    assert_eq!(d.base, "-previe");
    assert_eq!(d.channel, Channel::Stable);
}

#[test]
fn resolve_stable_channel_uses_plain_version() {
    let r = plan("1.2.0", Channel::Stable);
    assert_eq!(r.baseline, "1.2.0");
    assert_eq!(r.query_tag, None);
    let r = plan("1.3.0-preview+abc1234", Channel::Stable);
    assert_eq!(r.baseline, "1.3.0");
    assert_eq!(r.query_tag, None);
}

#[test]
fn resolve_preview_channel() {
    let r = plan("1.3.0-preview+abc1234", Channel::Preview);
    assert_eq!(r.baseline, "preview");
    assert_eq!(r.query_tag.as_deref(), Some("preview"));
    let r = plan("1.2.0", Channel::Preview);
    assert_eq!(r.baseline, "1.2.0");
    assert_eq!(r.query_tag.as_deref(), Some("preview"));
    assert_eq!(moving_tag_name(), "preview");
}

#[test]
fn semver_comparison_through_self_update() {
    let r = plan("1.2.0", Channel::Stable);
    assert!(is_newer(&r, "1.3.0"));
    assert!(is_newer(&r, "1.10.0"));
    assert!(is_newer(&r, "2.0.0"));
    assert!(!is_newer(&r, "1.2.0"));
    assert!(!is_newer(&r, "1.1.9"));
    assert!(!is_newer(&r, "not-a-version"));
    let r = plan("1.9.0", Channel::Stable);
    assert!(is_newer(&r, "1.10.0"));
}

#[test]
fn tag_comparison_on_preview_channel() {
    let r = plan("1.3.0-preview+abc1234", Channel::Preview);
    assert!(!is_newer(&r, "preview"));
    assert!(is_newer(&r, "preview-2"));
    let r = plan("1.2.0", Channel::Preview);
    assert!(is_newer(&r, "preview"));
}

#[test]
fn text_helpers() {
    assert!(contains_text("jj-x86_64-unknown-linux-gnu", "linux"));
    assert!(contains_text("abc", ""));
    assert!(!contains_text("ab", "abc"));
    assert!(!contains_text("jj-aarch64-apple-darwin", "linux"));
    assert!(occurs_at_index("abcd", "cd", 2));
    assert!(!occurs_at_index("abcd", "cd", 1));
    assert!(!occurs_at_index("abcd", "cd", 3));
    assert!(chars_equal("1.2.0", "1.2.0"));
    assert!(!chars_equal("1.2.0", "1.2.00"));
}

#[test]
fn select_single_asset() {
    let rel = linux_release("1.3.0");
    assert_eq!(select_asset(&rel.asset_names, "jj", TARGET), Ok(0));
    assert_eq!(
        select_asset(&rel.asset_names, "jj", "aarch64-apple-darwin"),
        Ok(1)
    );
}

#[test]
fn select_no_matching_asset() {
    let rel = linux_release("1.3.0");
    assert_eq!(
        select_asset(&rel.asset_names, "jj", "riscv64gc-unknown-linux-gnu"),
        Err(ClientError::NoMatchingAsset)
    );
    assert_eq!(
        select_asset(&rel.asset_names, "other", TARGET),
        Err(ClientError::NoMatchingAsset)
    );
    assert_eq!(select_asset(&Vec::new(), "jj", TARGET), Err(ClientError::NoMatchingAsset));
}

#[test]
fn select_ambiguous_asset() {
    let rel = release(
        "1.3.0",
        &["jj-x86_64-unknown-linux-gnu", "jj-x86_64-unknown-linux-gnu.sig"],
    );
    assert_eq!(
        select_asset(&rel.asset_names, "jj", TARGET),
        Err(ClientError::AmbiguousAsset)
    );
}

#[test]
fn same_stable_version_is_up_to_date() {
    let r = plan("1.2.0", Channel::Stable);
    let step = after_fetch(&r, Mode::Install, Ok(linux_release("1.2.0")), "jj", TARGET);
    assert!(matches!(step, Step::Finish(Ok(UpdateOutcome::UpToDate(ref v))) if v == "1.2.0"));
}

#[test]
fn newer_stable_version_is_installed() {
    let r = plan("1.2.0", Channel::Stable);
    let step = after_fetch(&r, Mode::Install, Ok(linux_release("1.3.0")), "jj", TARGET);
    let version = match step {
        Step::Download { asset, version } => {
            assert_eq!(asset, 0);
            version
        }
        other => panic!("expected a download, got {:?}", other),
    };
    assert_eq!(version, "1.3.0");
    let step = after_download(version, Ok(4096));
    let version = match step {
        Step::Replace { version } => version,
        other => panic!("expected a replacement, got {:?}", other),
    };
    let result = after_replace(version, Ok(()));
    assert!(matches!(result, Ok(UpdateOutcome::Updated(ref v)) if v == "1.3.0"));
    assert_eq!(update_exit_code(&result), 0);
}

#[test]
fn older_remote_is_up_to_date() {
    let r = plan("1.3.0", Channel::Stable);
    let step = after_fetch(&r, Mode::Install, Ok(linux_release("1.2.0")), "jj", TARGET);
    assert!(matches!(step, Step::Finish(Ok(UpdateOutcome::UpToDate(ref v))) if v == "1.3.0"));
}

#[test]
fn check_only_reports_without_download() {
    let r = plan("1.2.0", Channel::Stable);
    let step = after_fetch(&r, Mode::CheckOnly, Ok(linux_release("1.3.0")), "jj", TARGET);
    assert!(matches!(step, Step::Finish(Ok(UpdateOutcome::Updated(ref v))) if v == "1.3.0"));
}

#[test]
fn unchanged_preview_tag_is_up_to_date_repeatedly() {
    let r = plan("1.3.0-preview+abc1234", Channel::Preview);
    for _ in 0..2 {
        let step = after_fetch(&r, Mode::Install, Ok(linux_release("preview")), "jj", TARGET);
        assert!(matches!(step, Step::Finish(Ok(UpdateOutcome::UpToDate(ref v))) if v == "preview"));
    }
}

#[test]
fn stable_build_switching_to_preview_updates() {
    let r = plan("1.2.0", Channel::Preview);
    let step = after_fetch(&r, Mode::Install, Ok(linux_release("preview")), "jj", TARGET);
    assert!(matches!(step, Step::Download { asset: 0, ref version } if version == "preview"));
}

#[test]
fn asset_errors_are_lookup_errors() {
    let r = plan("1.2.0", Channel::Stable);
    let none = release("1.3.0", &["jj-aarch64-apple-darwin"]);
    let step = after_fetch(&r, Mode::Install, Ok(none), "jj", TARGET);
    assert!(matches!(
        step,
        Step::Finish(Err(UpdateError::Lookup(ClientError::NoMatchingAsset)))
    ));
    let two = release("1.2.0", &["jj-x86_64-unknown-linux-gnu", "jj-x86_64-unknown-linux-gnu-v2"]);
    let step = after_fetch(&r, Mode::CheckOnly, Ok(two), "jj", TARGET);
    assert!(matches!(
        step,
        Step::Finish(Err(UpdateError::Lookup(ClientError::AmbiguousAsset)))
    ));
}

#[test]
fn client_errors_propagate() {
    let r = plan("1.2.0", Channel::Stable);
    for e in [ClientError::NetworkError, ClientError::NotFound] {
        let step = after_fetch(&r, Mode::Install, Err(e), "jj", TARGET);
        assert!(matches!(step, Step::Finish(Err(UpdateError::Lookup(got))) if got == e));
    }
}

#[test]
fn failed_or_empty_download_is_install_error() {
    let step = after_download("1.3.0".to_string(), Err("connection reset".to_string()));
    assert!(matches!(step, Step::Finish(Err(UpdateError::Install(ref m))) if m == "connection reset"));
    let step = after_download("1.3.0".to_string(), Ok(0));
    assert!(matches!(step, Step::Finish(Err(UpdateError::Install(_)))));
}

#[test]
fn failed_replace_is_install_error() {
    let result = after_replace("1.3.0".to_string(), Err("permission denied".to_string()));
    assert!(matches!(result, Err(UpdateError::Install(ref m)) if m == "permission denied"));
    assert_eq!(update_exit_code(&result), 1);
}

#[test]
fn background_notice_only_for_updates() {
    assert!(should_notify(&Ok(UpdateOutcome::Updated("1.3.0".to_string()))));
    assert!(!should_notify(&Ok(UpdateOutcome::UpToDate("1.2.0".to_string()))));
    assert!(!should_notify(&Err(UpdateError::Lookup(ClientError::NetworkError))));
    assert!(!should_notify(&Err(UpdateError::Install("disk full".to_string()))));
}
