use vstd::prelude::*;
use crate::text::{contains_chars, contains_text};

verus! {

/// How a lookup at the release registry can fail.
#[derive(Clone, Copy, Debug, PartialEq, Eq, Structural)]
pub enum ClientError {
    NetworkError,
    NotFound,
    NoMatchingAsset,
    AmbiguousAsset,
}

/// An asset is for this binary and platform when its name holds both the
/// binary's name and the platform's target name.
pub open spec fn asset_matches(name: Seq<char>, bin: Seq<char>, target: Seq<char>) -> bool {
    contains_chars(name, bin) && contains_chars(name, target)
}

pub open spec fn names_view(names: Seq<String>) -> Seq<Seq<char>> {
    names.map_values(|s: String| s@)
}

/// How many of `names` match.
pub open spec fn match_count(names: Seq<Seq<char>>, bin: Seq<char>, target: Seq<char>) -> nat
    decreases names.len(),
{
    if names.len() == 0 {
        0
    } else {
        match_count(names.drop_last(), bin, target) + if asset_matches(names.last(), bin, target) {
            1nat
        } else {
            0nat
        }
    }
}

/// Whether the asset called `name` is for binary `bin_name` on `target`.
pub fn is_matching_asset(name: &str, bin_name: &str, target: &str) -> (r: bool)
    ensures
        r == asset_matches(name@, bin_name@, target@),
{
    contains_text(name, bin_name) && contains_text(name, target)
}

/// Picks the one asset among `names` for binary `bin_name` on `target`:
/// fails when none matches or when more than one does.
pub fn select_asset(names: &Vec<String>, bin_name: &str, target: &str) -> (r: Result<
    usize,
    ClientError,
>)
    ensures
        (match_count(names_view(names@), bin_name@, target@) == 0) <==> (r == Err::<
            usize,
            ClientError,
        >(ClientError::NoMatchingAsset)),
        (match_count(names_view(names@), bin_name@, target@) >= 2) <==> (r == Err::<
            usize,
            ClientError,
        >(ClientError::AmbiguousAsset)),
        (match_count(names_view(names@), bin_name@, target@) == 1) <==> r is Ok,
        r matches Ok(i) ==> i < names.len() && asset_matches(names@[i as int]@, bin_name@, target@),
{
    let ghost all = names_view(names@);
    let mut count: usize = 0;
    let mut found: usize = 0;
    let mut i: usize = 0;
    while i < names.len()
        invariant
            all == names_view(names@),
            i <= names.len(),
            count <= i,
            count == match_count(all.take(i as int), bin_name@, target@),
            count >= 1 ==> found < names.len() && asset_matches(all[found as int], bin_name@, target@),
        decreases names.len() - i,
    {
        assert(all.take(i + 1).drop_last() =~= all.take(i as int));
        if is_matching_asset(names[i].as_str(), bin_name, target) {
            count += 1;
            found = i;
        }
        i += 1;
    }
    assert(all.take(i as int) =~= all);
    if count == 0 {
        Err(ClientError::NoMatchingAsset)
    } else if count >= 2 {
        Err(ClientError::AmbiguousAsset)
    } else {
        Ok(found)
    }
}

} // verus!
