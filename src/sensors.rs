use vstd::prelude::*;

verus! {

/// Whether `p` occurs in `s` as a run of consecutive characters.
pub open spec fn occurs_in(p: Seq<char>, s: Seq<char>) -> bool {
    exists|i: int| 0 <= i && i + p.len() <= s.len() && #[trigger] s.subrange(i, i + p.len()) == p
}

/// Relies on `str::contains` with a `&str` pattern: whether the pattern occurs
/// in the text.
#[verifier::external_body]
fn str_contains(s: &str, p: &str) -> (r: bool)
    ensures
        r == occurs_in(p@, s@),
{
    s.contains(p)
}

/// Whether a temperature sensor's label marks the CPU package sensor: the
/// label holds `Package` (as `Package id 0` does).
pub fn is_cpu_label(label: &str) -> (r: bool)
    ensures
        r == occurs_in("Package"@, label@),
{
    str_contains(label, "Package")
}

} // verus!
