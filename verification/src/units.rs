//! The distance-unit token parser.
//!
//! A short text token is matched case-insensitively against the known unit
//! names and abbreviations; anything else is rejected with a single
//! "Unknown unit" error. The parser is unrelated to the coordinate types.

use vstd::prelude::*;

verus! {

/// A distance unit tag parsed from a text token.
#[derive(Debug, PartialEq, Eq, Structural, Clone, Copy)]
pub enum DistanceUnit {
    Centimeters,
    Meters,
    Kilometers,
}

/// `c` with an ASCII lowercase letter folded to its uppercase form; every
/// other character is left as it is.
pub open spec fn upper_char(c: char) -> char {
    if 97 <= c as u32 && c as u32 <= 122 {
        ((c as u32 - 32) as u8) as char
    } else {
        c
    }
}

/// Character sequences that agree once ASCII case is folded away.
pub open spec fn eq_ignore_case(a: Seq<char>, b: Seq<char>) -> bool {
    a.map_values(|c: char| upper_char(c)) == b.map_values(|c: char| upper_char(c))
}

fn upper_exec(c: char) -> (r: char)
    ensures
        r == upper_char(c),
{
    let n = c as u32;
    if 97 <= n && n <= 122 {
        ((n - 32) as u8) as char
    } else {
        c
    }
}

/// Do the two strings hold the same characters up to ASCII case?
fn str_eq_ignore_case(a: &str, b: &str) -> (r: bool)
    ensures
        r == eq_ignore_case(a@, b@),
{
    let alen = a.unicode_len();
    let blen = b.unicode_len();
    if alen != blen {
        return false;
    }
    let mut i: usize = 0;
    while i < alen
        invariant
            i <= alen,
            alen == a@.len(),
            alen == b@.len(),
            forall|j: int| 0 <= j < i ==> upper_char(a@[j]) == upper_char(b@[j]),
        decreases alen - i,
    {
        let ca = a.get_char(i);
        let cb = b.get_char(i);
        if upper_exec(ca) != upper_exec(cb) {
            assert(a@.map_values(|c: char| upper_char(c))[i as int] != b@.map_values(
                |c: char| upper_char(c),
            )[i as int]);
            return false;
        }
        i += 1;
    }
    proof {
        assert(a@.map_values(|c: char| upper_char(c)) =~= b@.map_values(
            |c: char| upper_char(c),
        ));
    }
    true
}

proof fn lemma_eq_ignore_case_len(a: Seq<char>, b: Seq<char>)
    requires
        eq_ignore_case(a, b),
    ensures
        a.len() == b.len(),
{
    assert(a.map_values(|c: char| upper_char(c)).len() == a.len());
    assert(b.map_values(|c: char| upper_char(c)).len() == b.len());
}

/// No token can match the names of two different units at once: the names
/// differ in length, except "CM" and "KM", which differ in their first
/// character even after case folding.
proof fn lemma_token_groups_exclusive(s: Seq<char>)
    ensures
        !((eq_ignore_case(s, "CM"@) || eq_ignore_case(s, "CENTIMETERS"@)) && (eq_ignore_case(
            s,
            "M"@,
        ) || eq_ignore_case(s, "METERS"@))),
        !((eq_ignore_case(s, "CM"@) || eq_ignore_case(s, "CENTIMETERS"@)) && (eq_ignore_case(
            s,
            "KM"@,
        ) || eq_ignore_case(s, "KILOMETERS"@))),
        !((eq_ignore_case(s, "M"@) || eq_ignore_case(s, "METERS"@)) && (eq_ignore_case(s, "KM"@)
            || eq_ignore_case(s, "KILOMETERS"@))),
{
    reveal_strlit("CM");
    reveal_strlit("CENTIMETERS");
    reveal_strlit("M");
    reveal_strlit("METERS");
    reveal_strlit("KM");
    reveal_strlit("KILOMETERS");
    let f = |c: char| upper_char(c);
    if eq_ignore_case(s, "CM"@) {
        lemma_eq_ignore_case_len(s, "CM"@);
    }
    if eq_ignore_case(s, "CENTIMETERS"@) {
        lemma_eq_ignore_case_len(s, "CENTIMETERS"@);
    }
    if eq_ignore_case(s, "M"@) {
        lemma_eq_ignore_case_len(s, "M"@);
    }
    if eq_ignore_case(s, "METERS"@) {
        lemma_eq_ignore_case_len(s, "METERS"@);
    }
    if eq_ignore_case(s, "KM"@) {
        lemma_eq_ignore_case_len(s, "KM"@);
    }
    if eq_ignore_case(s, "KILOMETERS"@) {
        lemma_eq_ignore_case_len(s, "KILOMETERS"@);
    }
    if eq_ignore_case(s, "CM"@) && eq_ignore_case(s, "KM"@) {
        assert("CM"@.map_values(f) == "KM"@.map_values(f));
        assert("CM"@.map_values(f)[0] == upper_char('C'));
        assert("KM"@.map_values(f)[0] == upper_char('K'));
        assert(upper_char('C') == 'C');
        assert(upper_char('K') == 'K');
        assert(false);
    }
}

impl DistanceUnit {
    /// Maps a case-insensitive token to its unit: "CM" and "CENTIMETERS"
    /// to Centimeters, "M" and "METERS" to Meters, "KM" and "KILOMETERS"
    /// to Kilometers; every other token is an "Unknown unit" error.
    pub fn from_str(s: &str) -> (r: Result<DistanceUnit, &'static str>)
        ensures
            r == Ok::<DistanceUnit, &'static str>(DistanceUnit::Centimeters) <==> (
            eq_ignore_case(s@, "CM"@) || eq_ignore_case(s@, "CENTIMETERS"@)),
            r == Ok::<DistanceUnit, &'static str>(DistanceUnit::Meters) <==> (eq_ignore_case(
                s@,
                "M"@,
            ) || eq_ignore_case(s@, "METERS"@)),
            r == Ok::<DistanceUnit, &'static str>(DistanceUnit::Kilometers) <==> (eq_ignore_case(
                s@,
                "KM"@,
            ) || eq_ignore_case(s@, "KILOMETERS"@)),
            r matches Err(e) ==> e@ == "Unknown unit"@,
    {
        proof {
            lemma_token_groups_exclusive(s@);
        }
        if str_eq_ignore_case(s, "CM") || str_eq_ignore_case(s, "CENTIMETERS") {
            Ok(DistanceUnit::Centimeters)
        } else if str_eq_ignore_case(s, "M") || str_eq_ignore_case(s, "METERS") {
            Ok(DistanceUnit::Meters)
        } else if str_eq_ignore_case(s, "KM") || str_eq_ignore_case(s, "KILOMETERS") {
            Ok(DistanceUnit::Kilometers)
        } else {
            Err("Unknown unit")
        }
    }
}

} // verus!
