use vstd::prelude::*;
use crate::asset::{ClientError, asset_matches, match_count, names_view, select_asset};
use crate::resolver::{Resolution, is_newer, newer_than_baseline};
use crate::version::opt_chars;

verus! {

/// Whether a run only looks for an update or also installs it.
#[derive(Clone, Copy, Debug, PartialEq, Eq, Structural)]
pub enum Mode {
    CheckOnly,
    Install,
}

/// How a run ended. In `CheckOnly` mode `Updated` reports a newer release
/// that was found; in `Install` mode one that was installed.
#[derive(Clone, Debug)]
pub enum UpdateOutcome {
    UpToDate(String),
    Updated(String),
}

#[derive(Clone, Debug)]
pub enum UpdateError {
    Lookup(ClientError),
    Install(String),
}

/// A release as the registry described it: its version (or tag) and the
/// names of its assets.
#[derive(Clone, Debug)]
pub struct ReleaseInfo {
    pub version: String,
    pub asset_names: Vec<String>,
}

/// What a run does next.
#[derive(Debug)]
pub enum Step {
    /// The run is over.
    Finish(Result<UpdateOutcome, UpdateError>),
    /// Download the asset at this index of the release into a staging place.
    Download { asset: usize, version: String },
    /// Atomically put the staged binary in place of the running one.
    Replace { version: String },
}

/// The step after the registry answered with `fetched`.
pub open spec fn after_fetch_spec(
    res: Resolution,
    mode: Mode,
    fetched: Result<ReleaseInfo, ClientError>,
    bin: Seq<char>,
    target: Seq<char>,
    r: Step,
) -> bool {
    match fetched {
        Err(e) => r == Step::Finish(Err(UpdateError::Lookup(e))),
        Ok(rel) => {
            let n = match_count(names_view(rel.asset_names@), bin, target);
            if n == 0 {
                r == Step::Finish(Err(UpdateError::Lookup(ClientError::NoMatchingAsset)))
            } else if n >= 2 {
                r == Step::Finish(Err(UpdateError::Lookup(ClientError::AmbiguousAsset)))
            } else if !newer_than_baseline(res.baseline@, opt_chars(res.query_tag), rel.version@) {
                r matches Step::Finish(Ok(UpdateOutcome::UpToDate(v))) && v@ == res.baseline@
            } else if mode == Mode::CheckOnly {
                r matches Step::Finish(Ok(UpdateOutcome::Updated(v))) && v@ == rel.version@
            } else {
                r matches Step::Download { asset, version } && asset < rel.asset_names.len()
                    && asset_matches(rel.asset_names@[asset as int]@, bin, target) && version@
                    == rel.version@
            }
        },
    }
}

/// The step after the download of release `version` gave `downloaded`
/// (the number of bytes staged, or why it failed).
pub open spec fn after_download_spec(version: String, downloaded: Result<u64, String>, r: Step) -> bool {
    match downloaded {
        Ok(n) => if n > 0 {
            r == Step::Replace { version }
        } else {
            r matches Step::Finish(Err(UpdateError::Install(_)))
        },
        Err(e) => r == Step::Finish(Err(UpdateError::Install(e))),
    }
}

/// The result of the run once the replacement gave `replaced`.
pub open spec fn after_replace_spec(
    version: String,
    replaced: Result<(), String>,
    r: Result<UpdateOutcome, UpdateError>,
) -> bool {
    match replaced {
        Ok(_) => r == Ok::<UpdateOutcome, UpdateError>(UpdateOutcome::Updated(version)),
        Err(e) => r == Err::<UpdateOutcome, UpdateError>(UpdateError::Install(e)),
    }
}

/// Decides what follows the registry's answer: a lookup error, an asset that
/// cannot be chosen, an up-to-date build, a reported update, or a download.
pub fn after_fetch(
    res: &Resolution,
    mode: Mode,
    fetched: Result<ReleaseInfo, ClientError>,
    bin_name: &str,
    target: &str,
) -> (r: Step)
    ensures
        after_fetch_spec(*res, mode, fetched, bin_name@, target@, r),
{
    match fetched {
        Err(e) => Step::Finish(Err(UpdateError::Lookup(e))),
        Ok(rel) => match select_asset(&rel.asset_names, bin_name, target) {
            Err(e) => Step::Finish(Err(UpdateError::Lookup(e))),
            Ok(asset) => {
                if !is_newer(res, rel.version.as_str()) {
                    Step::Finish(Ok(UpdateOutcome::UpToDate(res.baseline.clone())))
                } else {
                    match mode {
                        Mode::CheckOnly => Step::Finish(Ok(UpdateOutcome::Updated(rel.version))),
                        Mode::Install => Step::Download { asset, version: rel.version },
                    }
                }
            },
        },
    }
}

/// Decides what follows a download: an empty or failed download ends the run
/// with an install error and leaves the installed binary alone.
pub fn after_download(version: String, downloaded: Result<u64, String>) -> (r: Step)
    ensures
        after_download_spec(version, downloaded, r),
{
    match downloaded {
        Ok(n) => {
            if n > 0 {
                Step::Replace { version }
            } else {
                Step::Finish(Err(UpdateError::Install(empty_download_reason())))
            }
        },
        Err(e) => Step::Finish(Err(UpdateError::Install(e))),
    }
}

fn empty_download_reason() -> String {
    "the downloaded asset is empty".to_owned()
}

/// The result of a run once the replacement of the binary gave `replaced`.
pub fn after_replace(version: String, replaced: Result<(), String>) -> (r: Result<
    UpdateOutcome,
    UpdateError,
>)
    ensures
        after_replace_spec(version, replaced, r),
{
    match replaced {
        Ok(()) => Ok(UpdateOutcome::Updated(version)),
        Err(e) => Err(UpdateError::Install(e)),
    }
}

/// Whether the background check prints its advisory line: only when it
/// found a newer release; errors and up-to-date builds stay silent.
pub fn should_notify(outcome: &Result<UpdateOutcome, UpdateError>) -> (r: bool)
    ensures
        r == (outcome matches Ok(UpdateOutcome::Updated(_))),
{
    match outcome {
        Ok(UpdateOutcome::Updated(_)) => true,
        _ => false,
    }
}

/// The exit status of the explicit update command: zero exactly when the
/// run succeeded, one on any update error.
pub fn update_exit_code(result: &Result<UpdateOutcome, UpdateError>) -> (code: i32)
    ensures
        result is Ok ==> code == 0,
        result is Err ==> code == 1,
{
    match result {
        Ok(_) => 0,
        Err(_) => 1,
    }
}

} // verus!
