use vstd::prelude::*;
use crate::text::{occurs_at, occurs_at_index};

verus! {

/// A release track.
#[derive(Clone, Copy, Debug, PartialEq, Eq, Structural)]
pub enum Channel {
    Stable,
    Preview,
}

/// The running binary's version, split into its semantic version, its
/// channel and, for a preview build, the build identifier after `+`.
#[derive(Clone, Debug)]
pub struct VersionDescriptor {
    pub base: String,
    pub channel: Channel,
    pub build_id: Option<String>,
}

/// The marker that a preview build carries after its semantic version.
pub open spec fn preview_marker() -> Seq<char> {
    seq!['-', 'p', 'r', 'e', 'v', 'i', 'e', 'w']
}

/// Index of the first preview marker in `s` at or after `i`.
pub open spec fn marker_search(s: Seq<char>, i: int) -> Option<int>
    decreases s.len() - i,
{
    if i < 0 || i + 8 > s.len() {
        None
    } else if occurs_at(s, preview_marker(), i) {
        Some(i)
    } else {
        marker_search(s, i + 1)
    }
}

/// Index of the first preview marker in `s`, if it has one.
pub open spec fn first_marker(s: Seq<char>) -> Option<int> {
    marker_search(s, 0)
}

/// The build identifier that follows the marker: what comes after a leading `+`.
pub open spec fn build_id_in(rest: Seq<char>) -> Option<Seq<char>> {
    if rest.len() > 0 && rest[0] == '+' {
        Some(rest.subrange(1, rest.len() as int))
    } else {
        None
    }
}

/// The semantic version part of a version string: all of it before the marker.
pub open spec fn parsed_base(s: Seq<char>) -> Seq<char> {
    match first_marker(s) {
        Some(i) => s.subrange(0, i),
        None => s,
    }
}

/// A version string is on the preview channel exactly when it carries the marker.
pub open spec fn parsed_channel(s: Seq<char>) -> Channel {
    if first_marker(s) is Some {
        Channel::Preview
    } else {
        Channel::Stable
    }
}

pub open spec fn parsed_build_id(s: Seq<char>) -> Option<Seq<char>> {
    match first_marker(s) {
        Some(i) => build_id_in(s.subrange(i + 8, s.len() as int)),
        None => None,
    }
}

pub open spec fn opt_chars(o: Option<String>) -> Option<Seq<char>> {
    match o {
        Some(t) => Some(t@),
        None => None,
    }
}

/// Where the search for the marker from `i` lands, it lands on a marker.
proof fn lemma_marker_search_found(s: Seq<char>, i: int)
    ensures
        marker_search(s, i) matches Some(k) ==> i <= k && occurs_at(s, preview_marker(), k),
    decreases s.len() - i,
{
    if !(i < 0 || i + 8 > s.len()) && !occurs_at(s, preview_marker(), i) {
        lemma_marker_search_found(s, i + 1);
    }
}

/// Index of the first preview marker in `s`.
fn find_marker(s: &str) -> (r: Option<usize>)
    ensures
        match r {
            Some(i) => first_marker(s@) == Some(i as int),
            None => first_marker(s@) is None,
        },
{
    let n = s.unicode_len();
    let marker = "-preview";
    proof {
        reveal_strlit("-preview");
    }
    assert(marker@ =~= preview_marker());
    if n < 8 {
        return None;
    }
    let last = n - 8;
    let mut i: usize = 0;
    loop
        invariant
            n == s@.len(),
            last == n - 8,
            i <= last,
            marker@ == preview_marker(),
            marker_search(s@, 0) == marker_search(s@, i as int),
        decreases last - i,
    {
        if occurs_at_index(s, marker, i) {
            return Some(i);
        }
        if i == last {
            assert(marker_search(s@, i + 1) is None);
            return None;
        }
        i += 1;
    }
}

impl VersionDescriptor {
    /// A build identifier comes only with the preview channel.
    pub open spec fn wf(&self) -> bool {
        self.build_id is Some ==> self.channel == Channel::Preview
    }

    /// Reads a version string of the form `<semver>` or
    /// `<semver>-preview+<build id>`.
    pub fn parse(s: &str) -> (r: VersionDescriptor)
        ensures
            r.wf(),
            r.base@ == parsed_base(s@),
            r.channel == parsed_channel(s@),
            opt_chars(r.build_id) == parsed_build_id(s@),
    {
        let n = s.unicode_len();
        match find_marker(s) {
            None => VersionDescriptor { base: s.to_owned(), channel: Channel::Stable, build_id: None },
            Some(i) => {
                proof {
                    lemma_marker_search_found(s@, 0);
                }
                let base = s.substring_char(0, i).to_owned();
                let rest = i + 8;
                let ghost tail = s@.subrange(rest as int, n as int);
                let build_id = if rest < n && s.get_char(rest) == '+' {
                    let id = s.substring_char(rest + 1, n).to_owned();
                    assert(id@ =~= tail.subrange(1, tail.len() as int));
                    Some(id)
                } else {
                    None
                };
                VersionDescriptor { base, channel: Channel::Preview, build_id }
            },
        }
    }
}

} // verus!
