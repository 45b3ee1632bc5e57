//! Choice of the regular-weight system sans face used for body text.
use vstd::prelude::*;

use crate::text::{chars_of, contains_ci, contains_ignoring_ascii_case};

verus! {

/// Regular-weight system sans faces, in order of preference.
pub open spec fn regular_sans_candidate(index: int) -> Seq<char> {
    if index == 0 {
        "/usr/share/fonts/truetype/liberation/LiberationSans-Regular.ttf"@
    } else if index == 1 {
        "/usr/share/fonts/truetype/dejavu/DejaVuSans.ttf"@
    } else if index == 2 {
        "/usr/share/fonts/truetype/ubuntu/Ubuntu-R.ttf"@
    } else {
        "/usr/share/fonts/truetype/noto/NotoSans-Regular.ttf"@
    }
}

pub fn regular_sans_candidates() -> (candidates: Vec<&'static str>)
    ensures
        candidates@.len() == 4,
        forall|i: int| 0 <= i < 4 ==> (#[trigger] candidates@[i])@ == regular_sans_candidate(i),
{
    let mut candidates: Vec<&'static str> = Vec::new();
    candidates.push("/usr/share/fonts/truetype/liberation/LiberationSans-Regular.ttf");
    candidates.push("/usr/share/fonts/truetype/dejavu/DejaVuSans.ttf");
    candidates.push("/usr/share/fonts/truetype/ubuntu/Ubuntu-R.ttf");
    candidates.push("/usr/share/fonts/truetype/noto/NotoSans-Regular.ttf");
    candidates
}

/// Whether a regular file exists at `path`; `std::path::Path::is_file`.
/// The answer depends on the disk at the time of the call, so nothing is
/// promised about it.
#[verifier::external_body]
fn path_is_file(path: &str) -> bool {
    std::path::Path::new(path).is_file()
}

/// The index of the first available candidate.
pub open spec fn first_available_index(available: Seq<bool>, from: int) -> Option<int>
    decreases available.len() - from,
{
    if from < 0 || from >= available.len() {
        None
    } else if available[from] {
        Some(from)
    } else {
        first_available_index(available, from + 1)
    }
}

/// Picks the first candidate that is available.
pub fn first_available(available: &[bool]) -> (choice: Option<usize>)
    ensures
        match choice {
            Some(index) => first_available_index(available@, 0) == Some(index as int),
            None => first_available_index(available@, 0).is_none(),
        },
{
    let mut index: usize = 0;
    while index < available.len()
        invariant
            index <= available@.len(),
            first_available_index(available@, 0) == first_available_index(available@, index as int),
        decreases available@.len() - index,
    {
        if available[index] {
            return Some(index);
        }
        index += 1;
    }
    None
}

/// The preferred face given which candidates exist: the first existing
/// candidate, in order of preference, or none.
pub fn regular_sans_choice(available: &[bool]) -> (path: Option<String>)
    requires
        available@.len() == 4,
    ensures
        match first_available_index(available@, 0) {
            Some(index) => path matches Some(found) && found@ == regular_sans_candidate(index),
            None => path is None,
        },
{
    let candidates = regular_sans_candidates();
    match first_available(available) {
        Some(chosen) => {
            proof {
                lemma_first_available_in_range(available@, 0);
            }
            let found = candidates[chosen].to_owned();
            Some(found)
        },
        None => None,
    }
}

/// The first candidate font file that exists on this machine, if any.
/// Which candidates exist is read from the disk at the time of the call;
/// the choice among them is `regular_sans_choice`.
pub fn preferred_regular_sans_path() -> (path: Option<String>)
    ensures
        path matches Some(found) ==> exists|i: int| 0 <= i < 4 && found@ == regular_sans_candidate(i),
{
    let candidates = regular_sans_candidates();
    let mut available: Vec<bool> = Vec::new();
    let mut index: usize = 0;
    while index < candidates.len()
        invariant
            candidates@.len() == 4,
            index <= 4,
            available@.len() == index,
        decreases 4 - index,
    {
        available.push(path_is_file(candidates[index]));
        index += 1;
    }
    let chosen = regular_sans_choice(available.as_slice());
    proof {
        lemma_first_available_in_range(available@, 0);
    }
    chosen
}

proof fn lemma_first_available_in_range(available: Seq<bool>, from: int)
    requires
        0 <= from,
    ensures
        first_available_index(available, from) matches Some(i) ==> from <= i < available.len(),
    decreases available.len() - from,
{
    if from < available.len() && !available[from] {
        lemma_first_available_in_range(available, from + 1);
    }
}

/// The part of a path after its last `/`.
pub open spec fn last_segment(path: Seq<char>) -> Seq<char>
    decreases path.len(),
{
    if path.len() == 0 {
        path
    } else if path.last() == '/' {
        Seq::empty()
    } else {
        last_segment(path.drop_last()).push(path.last())
    }
}

/// A face is regular weight unless its file name says Light or Thin.
pub open spec fn is_regular_weight(path: Seq<char>) -> bool {
    !contains_ci(last_segment(path), "light"@) && !contains_ci(last_segment(path), "thin"@)
}

fn file_name_of(path: &str) -> (name: String)
    ensures
        name@ == last_segment(path@),
{
    let chars = chars_of(path);
    let mut name = String::new();
    let mut index: usize = 0;
    while index < chars.len()
        invariant
            chars@ == path@,
            index <= chars@.len(),
            name@ == last_segment(path@.subrange(0, index as int)),
        decreases chars@.len() - index,
    {
        let c = chars[index];
        assert(path@.subrange(0, index as int + 1).drop_last() =~= path@.subrange(0, index as int));
        if c == '/' {
            name = String::new();
        } else {
            crate::text::push_char(&mut name, c);
        }
        index += 1;
    }
    assert(path@.subrange(0, index as int) =~= path@);
    name
}

pub fn candidate_is_regular_weight(path: &str) -> (regular: bool)
    ensures
        regular == is_regular_weight(path@),
{
    let name = file_name_of(path);
    !contains_ignoring_ascii_case(name.as_str(), "light") && !contains_ignoring_ascii_case(name.as_str(), "thin")
}

} // verus!
