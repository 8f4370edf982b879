use vstd::prelude::*;
use crate::asset::{ClientError, asset_matches, match_count, names_view};
use crate::executor::{
    Mode, ReleaseInfo, Step, UpdateError, UpdateOutcome, after_download_spec, after_fetch_spec,
    after_replace_spec,
};
use crate::resolver::{Resolution, baseline_for, moving_tag, query_tag_for, semver_greater};
use crate::version::{Channel, opt_chars, parsed_base, parsed_channel};

verus! {

/// A stable build that is offered a stable release of its own version is up
/// to date with that version, and the run asks for neither a download nor a
/// replacement of the installed binary.
pub proof fn law_own_stable_release_is_up_to_date(
    current: Seq<char>,
    res: Resolution,
    rel: ReleaseInfo,
    bin: Seq<char>,
    target: Seq<char>,
    r: Step,
)
    requires
        parsed_channel(current) == Channel::Stable,
        res.baseline@ == baseline_for(parsed_base(current), parsed_channel(current), Channel::Stable),
        opt_chars(res.query_tag) == query_tag_for(Channel::Stable),
        rel.version@ == current,
        match_count(names_view(rel.asset_names@), bin, target) == 1,
        after_fetch_spec(res, Mode::Install, Ok::<ReleaseInfo, ClientError>(rel), bin, target, r),
    ensures
        r matches Step::Finish(Ok(UpdateOutcome::UpToDate(v))) && v@ == current,
{
}

/// A stable build offered a stable release of a greater version downloads
/// that release's asset, replaces the installed binary once the download is
/// non-empty, and reports the release's version as installed.
pub proof fn law_newer_stable_release_is_installed(
    current: Seq<char>,
    newer: Seq<char>,
    res: Resolution,
    rel: ReleaseInfo,
    bin: Seq<char>,
    target: Seq<char>,
    r1: Step,
    w: String,
    staged: u64,
    r2: Step,
    r3: Result<UpdateOutcome, UpdateError>,
)
    requires
        parsed_channel(current) == Channel::Stable,
        current != newer,
        semver_greater(current, newer) == Some(true),
        res.baseline@ == baseline_for(parsed_base(current), parsed_channel(current), Channel::Stable),
        opt_chars(res.query_tag) == query_tag_for(Channel::Stable),
        rel.version@ == newer,
        match_count(names_view(rel.asset_names@), bin, target) == 1,
        after_fetch_spec(res, Mode::Install, Ok::<ReleaseInfo, ClientError>(rel), bin, target, r1),
        r1 matches Step::Download { version, .. } ==> version == w,
        staged > 0,
        after_download_spec(w, Ok::<u64, String>(staged), r2),
        after_replace_spec(w, Ok::<(), String>(()), r3),
    ensures
        r1 matches Step::Download { asset, version } && asset < rel.asset_names.len()
            && asset_matches(rel.asset_names@[asset as int]@, bin, target) && version@ == newer,
        w@ == newer,
        r2 == (Step::Replace { version: w }),
        r3 == Ok::<UpdateOutcome, UpdateError>(UpdateOutcome::Updated(w)),
{
}

/// A preview build on the preview channel, offered the moving tag, is up to
/// date in either mode, and two checks on the same answer agree.
pub proof fn law_unchanged_preview_tag_is_up_to_date(
    current: Seq<char>,
    res: Resolution,
    rel: ReleaseInfo,
    bin: Seq<char>,
    target: Seq<char>,
    mode1: Mode,
    mode2: Mode,
    r1: Step,
    r2: Step,
)
    requires
        parsed_channel(current) == Channel::Preview,
        res.baseline@ == baseline_for(parsed_base(current), parsed_channel(current), Channel::Preview),
        opt_chars(res.query_tag) == query_tag_for(Channel::Preview),
        rel.version@ == moving_tag(),
        match_count(names_view(rel.asset_names@), bin, target) == 1,
        after_fetch_spec(res, mode1, Ok::<ReleaseInfo, ClientError>(rel), bin, target, r1),
        after_fetch_spec(res, mode2, Ok::<ReleaseInfo, ClientError>(rel), bin, target, r2),
    ensures
        r1 matches Step::Finish(Ok(UpdateOutcome::UpToDate(v))) && v@ == moving_tag(),
        r2 matches Step::Finish(Ok(UpdateOutcome::UpToDate(v))) && v@ == moving_tag(),
{
}

/// A release with no asset for this binary and platform, or with several,
/// ends the run with the matching lookup error, whatever the mode and baseline.
pub proof fn law_asset_errors(
    res: Resolution,
    mode: Mode,
    rel: ReleaseInfo,
    bin: Seq<char>,
    target: Seq<char>,
    r: Step,
)
    requires
        after_fetch_spec(res, mode, Ok::<ReleaseInfo, ClientError>(rel), bin, target, r),
    ensures
        match_count(names_view(rel.asset_names@), bin, target) == 0 ==> r == Step::Finish(
            Err(UpdateError::Lookup(ClientError::NoMatchingAsset)),
        ),
        match_count(names_view(rel.asset_names@), bin, target) >= 2 ==> r == Step::Finish(
            Err(UpdateError::Lookup(ClientError::AmbiguousAsset)),
        ),
{
}

/// A download that fails or stages nothing ends the run with an install
/// error before any replacement; a replacement that fails ends it with its
/// reason as an install error.
pub proof fn law_install_failure_keeps_binary(
    w: String,
    downloaded: Result<u64, String>,
    r1: Step,
    reason: String,
    r2: Result<UpdateOutcome, UpdateError>,
)
    requires
        downloaded matches Ok(n) ==> n == 0,
        after_download_spec(w, downloaded, r1),
        after_replace_spec(w, Err::<(), String>(reason), r2),
    ensures
        r1 matches Step::Finish(Err(UpdateError::Install(_))),
        !(r1 is Replace),
        r2 == Err::<UpdateOutcome, UpdateError>(UpdateError::Install(reason)),
{
}

} // verus!
