//! Which Bluetooth LE device is the companion radio.

use vstd::prelude::*;

verus! {

/// How to recognise the companion device during a scan.
pub enum BleFilter {
    /// Accept any device with a name starting with "MeshCore", the default
    /// name of MeshCore companion firmware.
    AnyMeshCore,
    /// Accept any device whose name contains the given text.
    NameContains(String),
    /// Accept the device with this exact Bluetooth address, e.g.
    /// "DE:AD:BE:EF:CA:FE", in either case.
    Address(String),
}

/// The name prefix of MeshCore companion firmware.
pub open spec fn meshcore_prefix() -> Seq<char> {
    seq!['M', 'e', 's', 'h', 'C', 'o', 'r', 'e']
}

/// Whether `t` occurs in `s`.
pub open spec fn contains_text(s: Seq<char>, t: Seq<char>) -> bool {
    exists|i: int| 0 <= i <= s.len() - t.len() && #[trigger] s.subrange(i, i + t.len()) == t
}

/// The ASCII lower-case form of a character; other characters unchanged.
pub open spec fn ascii_lower(c: char) -> char {
    if 'A' <= c <= 'Z' {
        ((c as u32) + 32) as char
    } else {
        c
    }
}

/// Whether two texts are equal when ASCII letters are compared without case.
pub open spec fn eq_ignoring_ascii_case(a: Seq<char>, b: Seq<char>) -> bool {
    &&& a.len() == b.len()
    &&& forall|i: int| 0 <= i < a.len() ==> ascii_lower(#[trigger] a[i]) == ascii_lower(b[i])
}

/// `str::starts_with` with a text prefix.
#[verifier::external_body]
fn str_starts_with(s: &str, prefix: &str) -> (b: bool)
    ensures
        b == prefix@.is_prefix_of(s@),
{
    s.starts_with(prefix)
}

/// `str::contains` with a text pattern.
#[verifier::external_body]
fn str_contains(s: &str, pattern: &str) -> (b: bool)
    ensures
        b == contains_text(s@, pattern@),
{
    s.contains(pattern)
}

/// `str::eq_ignore_ascii_case`.
#[verifier::external_body]
fn str_eq_ignore_ascii_case(a: &str, b: &str) -> (r: bool)
    ensures
        r == eq_ignoring_ascii_case(a@, b@),
{
    a.eq_ignore_ascii_case(b)
}

impl BleFilter {
    /// Whether a discovered device with advertised name `name` (if any) and
    /// address `addr` is the one this filter looks for.
    pub fn matches(&self, name: Option<&str>, addr: &str) -> (b: bool)
        ensures
            b == match self {
                BleFilter::AnyMeshCore => name matches Some(n) && meshcore_prefix().is_prefix_of(
                    n@,
                ),
                BleFilter::NameContains(s) => name matches Some(n) && contains_text(n@, s@),
                BleFilter::Address(a) => eq_ignoring_ascii_case(addr@, a@),
            },
    {
        match self {
            BleFilter::AnyMeshCore => match name {
                Some(n) => {
                    let prefix = "MeshCore";
                    proof {
                        reveal_strlit("MeshCore");
                        assert(prefix@ =~= meshcore_prefix());
                    }
                    str_starts_with(n, prefix)
                },
                None => false,
            },
            BleFilter::NameContains(s) => match name {
                Some(n) => str_contains(n, s.as_str()),
                None => false,
            },
            BleFilter::Address(a) => str_eq_ignore_ascii_case(addr, a.as_str()),
        }
    }
}

} // verus!
