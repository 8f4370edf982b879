use vstd::prelude::*;
use crate::text::chars_equal;
use crate::version::{Channel, VersionDescriptor, opt_chars};

verus! {

/// What one update run compares against and what it asks the registry for.
/// `query_tag` is `None` for "the latest stable release".
#[derive(Clone, Debug)]
pub struct Resolution {
    pub baseline: String,
    pub query_tag: Option<String>,
}

/// The reserved tag that the registry re-points at each preview build.
pub open spec fn moving_tag() -> Seq<char> {
    seq!['p', 'r', 'e', 'v', 'i', 'e', 'w']
}

/// A preview build asking for the preview channel is compared by the moving
/// tag's name; every other run compares by the build's semantic version.
pub open spec fn baseline_for(base: Seq<char>, channel: Channel, requested: Channel) -> Seq<char> {
    if requested == Channel::Preview && channel == Channel::Preview {
        moving_tag()
    } else {
        base
    }
}

pub open spec fn query_tag_for(requested: Channel) -> Option<Seq<char>> {
    match requested {
        Channel::Preview => Some(moving_tag()),
        Channel::Stable => None,
    }
}

/// The result of comparing two version strings by semantic-version order:
/// whether the second is strictly greater, or `None` when either does not parse.
pub uninterp spec fn semver_greater(current: Seq<char>, other: Seq<char>) -> Option<bool>;

/// Whether a fetched release (its version or tag) is newer than the baseline.
/// A queried tag is compared by name; a stable release by semantic version,
/// where an unparsable version never counts as newer.
pub open spec fn newer_than_baseline(
    baseline: Seq<char>,
    query_tag: Option<Seq<char>>,
    fetched: Seq<char>,
) -> bool {
    if query_tag is Some {
        fetched != baseline
    } else {
        fetched != baseline && semver_greater(baseline, fetched) == Some(true)
    }
}

/// The moving tag's name as a string.
pub fn moving_tag_name() -> (r: String)
    ensures
        r@ == moving_tag(),
{
    let t = "preview";
    proof {
        reveal_strlit("preview");
    }
    assert(t@ =~= moving_tag());
    t.to_owned()
}

/// Decides the comparison baseline and the tag to query for a run on
/// channel `requested` by the build `current`.
pub fn resolve(current: &VersionDescriptor, requested: Channel) -> (r: Resolution)
    ensures
        r.baseline@ == baseline_for(current.base@, current.channel, requested),
        opt_chars(r.query_tag) == query_tag_for(requested),
{
    match requested {
        Channel::Stable => Resolution { baseline: current.base.clone(), query_tag: None },
        Channel::Preview => {
            let baseline = match current.channel {
                Channel::Preview => moving_tag_name(),
                Channel::Stable => current.base.clone(),
            };
            Resolution { baseline, query_tag: Some(moving_tag_name()) }
        },
    }
}

/// Relies on self_update::version::bump_is_greater: both strings are parsed
/// as semantic versions and the result tells whether `other` is strictly
/// greater; a parse error becomes `None`.
#[verifier::external_body]
fn bump_is_greater(current: &str, other: &str) -> (r: Option<bool>)
    ensures
        r == semver_greater(current@, other@),
{
    self_update::version::bump_is_greater(current, other).ok()
}

/// Whether the fetched release version or tag `fetched` is newer than what
/// `res` compares against.
pub fn is_newer(res: &Resolution, fetched: &str) -> (r: bool)
    ensures
        r == newer_than_baseline(res.baseline@, opt_chars(res.query_tag), fetched@),
{
    let baseline = res.baseline.as_str();
    let same = chars_equal(baseline, fetched);
    if same {
        return false;
    }
    match res.query_tag {
        Some(_) => true,
        None => match bump_is_greater(baseline, fetched) {
            Some(b) => b,
            None => false,
        },
    }
}

} // verus!
