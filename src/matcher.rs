//! Resolution of configured target names against the live process table.

use vstd::prelude::*;

verus! {

/// A configured target: processes whose image name contains `match_pattern`,
/// compared without regard to case.
pub struct TargetProcessSpec {
    pub match_pattern: String,
    pub display_name: String,
}

/// One row of a process-table snapshot.
pub struct ProcessEntry {
    pub pid: u32,
    pub image_name: String,
}

/// What `str::to_lowercase` returns for a string.
pub uninterp spec fn lower_of(s: Seq<char>) -> Seq<char>;

/// `needle` occurs in `haystack` as a contiguous run of characters.
pub open spec fn seq_contains(haystack: Seq<char>, needle: Seq<char>) -> bool {
    exists|i: int|
        0 <= i && i + needle.len() <= haystack.len() && #[trigger] haystack.subrange(i, i + needle.len())
            == needle
}

/// An image name matches a pattern when, both lowercased, the pattern occurs in the name.
pub open spec fn name_matches(pattern: Seq<char>, image_name: Seq<char>) -> bool {
    seq_contains(lower_of(image_name), lower_of(pattern))
}

/// The pids of the entries of `table` whose name matches `pattern`, in table order.
pub open spec fn matched_pids(pattern: Seq<char>, table: Seq<ProcessEntry>) -> Seq<u32>
    decreases table.len(),
{
    if table.len() == 0 {
        Seq::empty()
    } else {
        let rest = matched_pids(pattern, table.drop_last());
        if name_matches(pattern, table.last().image_name@) {
            rest.push(table.last().pid)
        } else {
            rest
        }
    }
}

/// The name matches the pattern of at least one spec.
pub open spec fn matches_any(specs: Seq<TargetProcessSpec>, image_name: Seq<char>) -> bool {
    exists|i: int| 0 <= i < specs.len() && name_matches(#[trigger] specs[i].match_pattern@, image_name)
}

/// The positions in `table` of the entries that some spec matches, in table order.
pub open spec fn monitored_positions(specs: Seq<TargetProcessSpec>, table: Seq<ProcessEntry>) -> Seq<usize>
    decreases table.len(),
{
    if table.len() == 0 {
        Seq::empty()
    } else {
        let rest = monitored_positions(specs, table.drop_last());
        if matches_any(specs, table.last().image_name@) {
            rest.push((table.len() - 1) as usize)
        } else {
            rest
        }
    }
}

/// Relies on `str::to_lowercase`: its result depends on the characters alone.
#[verifier::external_body]
fn lowercase(s: &str) -> (r: String)
    ensures
        r@ == lower_of(s@),
{
    s.to_lowercase()
}

/// Relies on `str::contains` with a `&str` pattern: whether the pattern
/// occurs in the string as a substring.
#[verifier::external_body]
fn str_contains(haystack: &str, needle: &str) -> (r: bool)
    ensures
        r == seq_contains(haystack@, needle@),
{
    haystack.contains(needle)
}

/// Whether the already lowercased `pattern` occurs in the already lowercased `image_name`.
pub fn contains_folded(folded_pattern: &str, folded_name: &str) -> (r: bool)
    ensures
        r == seq_contains(folded_name@, folded_pattern@),
{
    str_contains(folded_name, folded_pattern)
}

/// Whether the process image name matches the pattern, without regard to case.
pub fn image_name_matches(pattern: &str, image_name: &str) -> (r: bool)
    ensures
        r == name_matches(pattern@, image_name@),
{
    let folded_pattern = lowercase(pattern);
    let folded_name = lowercase(image_name);
    contains_folded(folded_pattern.as_str(), folded_name.as_str())
}

/// The pids of the processes that one spec matches, in table order.
pub fn find_spec_matches(spec: &TargetProcessSpec, table: &Vec<ProcessEntry>) -> (r: Vec<u32>)
    ensures
        r@ == matched_pids(spec.match_pattern@, table@),
{
    let mut r: Vec<u32> = Vec::new();
    let mut i: usize = 0;
    while i < table.len()
        invariant
            i <= table@.len(),
            r@ == matched_pids(spec.match_pattern@, table@.subrange(0, i as int)),
        decreases table@.len() - i,
    {
        let ghost prefix = table@.subrange(0, i as int + 1);
        assert(prefix.drop_last() == table@.subrange(0, i as int));
        if image_name_matches(spec.match_pattern.as_str(), table[i].image_name.as_str()) {
            r.push(table[i].pid);
        }
        i = i + 1;
    }
    assert(table@.subrange(0, table@.len() as int) == table@);
    r
}

/// For each spec, in order, the pids of the processes that it matches.
pub fn find_matches(specs: &Vec<TargetProcessSpec>, table: &Vec<ProcessEntry>) -> (r: Vec<Vec<u32>>)
    ensures
        r@.len() == specs@.len(),
        forall|i: int| 0 <= i < specs@.len() ==> (#[trigger] r@[i])@ == matched_pids(specs@[i].match_pattern@, table@),
{
    let mut r: Vec<Vec<u32>> = Vec::new();
    let mut i: usize = 0;
    while i < specs.len()
        invariant
            i <= specs@.len(),
            r@.len() == i,
            forall|j: int| 0 <= j < i ==> (#[trigger] r@[j])@ == matched_pids(specs@[j].match_pattern@, table@),
        decreases specs@.len() - i,
    {
        let pids = find_spec_matches(&specs[i], table);
        r.push(pids);
        i = i + 1;
    }
    r
}

/// Whether some spec matches the image name.
pub fn matches_any_spec(specs: &Vec<TargetProcessSpec>, image_name: &str) -> (r: bool)
    ensures
        r == matches_any(specs@, image_name@),
{
    let mut i: usize = 0;
    while i < specs.len()
        invariant
            i <= specs@.len(),
            forall|j: int| 0 <= j < i ==> !name_matches(#[trigger] specs@[j].match_pattern@, image_name@),
        decreases specs@.len() - i,
    {
        if image_name_matches(specs[i].match_pattern.as_str(), image_name) {
            return true;
        }
        i = i + 1;
    }
    false
}

/// The positions in the table of the processes that some spec matches, for
/// monitoring them without applying any policy.
pub fn select_monitored(specs: &Vec<TargetProcessSpec>, table: &Vec<ProcessEntry>) -> (r: Vec<usize>)
    ensures
        r@ == monitored_positions(specs@, table@),
{
    let mut r: Vec<usize> = Vec::new();
    let mut i: usize = 0;
    while i < table.len()
        invariant
            i <= table@.len(),
            r@ == monitored_positions(specs@, table@.subrange(0, i as int)),
        decreases table@.len() - i,
    {
        let ghost prefix = table@.subrange(0, i as int + 1);
        assert(prefix.drop_last() == table@.subrange(0, i as int));
        if matches_any_spec(specs, table[i].image_name.as_str()) {
            r.push(i);
        }
        i = i + 1;
    }
    assert(table@.subrange(0, table@.len() as int) == table@);
    r
}

} // verus!
