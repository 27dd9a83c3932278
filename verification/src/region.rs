//! Resolution of the target store location from configuration.
//!
//! The configured value, when present, is trimmed and parsed as a well-known
//! region identifier; an absent or unrecognisable value falls back to a
//! hard-coded local location, so resolution never fails.

use vstd::prelude::*;
use vstd::string::StrSliceExecFns;

verus! {

/// The resolved region/endpoint combination used to build a store client:
/// either a well-known named region, or a custom location with an explicit
/// endpoint (used for local testing against an unauthenticated store).
#[derive(Clone, Debug, PartialEq)]
pub enum TargetLocation {
    WellKnown { name: String },
    Custom { name: String, endpoint: String },
}

/// The mathematical shape of a target location.
pub enum TargetLocationView {
    WellKnown { name: Seq<char> },
    Custom { name: Seq<char>, endpoint: Seq<char> },
}

impl View for TargetLocation {
    type V = TargetLocationView;

    open spec fn view(&self) -> TargetLocationView {
        match self {
            TargetLocation::WellKnown { name } => TargetLocationView::WellKnown {
                name: name@,
            },
            TargetLocation::Custom { name, endpoint } => TargetLocationView::Custom {
                name: name@,
                endpoint: endpoint@,
            },
        }
    }
}

/// The name of a location, whichever variant it is.
pub open spec fn location_name(l: TargetLocationView) -> Seq<char> {
    match l {
        TargetLocationView::WellKnown { name } => name,
        TargetLocationView::Custom { name, .. } => name,
    }
}

/// The hard-coded fallback: a local store instance.
pub open spec fn default_location() -> TargetLocationView {
    TargetLocationView::Custom { name: "local"@, endpoint: "http://localhost:8000"@ }
}

/// The characters that count as surrounding whitespace when a configured
/// region identifier is trimmed (the Unicode white-space characters).
pub open spec fn is_space_char(c: char) -> bool {
    c == ' ' || c == '\t' || c == '\n' || c == '\r' || c == '\u{000b}' || c == '\u{000c}'
        || c == '\u{0085}' || c == '\u{00a0}' || c == '\u{1680}' || (0x2000 <= c as u32
        && c as u32 <= 0x200a) || c == '\u{2028}' || c == '\u{2029}' || c == '\u{202f}'
        || c == '\u{205f}' || c == '\u{3000}'
}

/// The input with its leading whitespace removed.
pub open spec fn trim_front(s: Seq<char>) -> Seq<char>
    decreases s.len(),
{
    if s.len() > 0 && is_space_char(s[0]) {
        trim_front(s.subrange(1, s.len() as int))
    } else {
        s
    }
}

/// The input with its trailing whitespace removed.
pub open spec fn trim_back(s: Seq<char>) -> Seq<char>
    decreases s.len(),
{
    if s.len() > 0 && is_space_char(s[s.len() - 1]) {
        trim_back(s.subrange(0, s.len() - 1))
    } else {
        s
    }
}

/// The input with its surrounding whitespace removed.
pub open spec fn trimmed(s: Seq<char>) -> Seq<char> {
    trim_back(trim_front(s))
}

proof fn lemma_trim_front_at(s: Seq<char>, i: int)
    requires
        0 <= i <= s.len(),
        forall|k: int| 0 <= k < i ==> is_space_char(s[k]),
        i < s.len() ==> !is_space_char(s[i]),
    ensures
        trim_front(s) == s.subrange(i, s.len() as int),
    decreases i,
{
    if i == 0 {
        assert(s.subrange(0, s.len() as int) =~= s);
    } else {
        let t = s.subrange(1, s.len() as int);
        assert(is_space_char(s[0]));
        assert(forall|k: int| 0 <= k < i - 1 ==> is_space_char(t[k]));
        lemma_trim_front_at(t, i - 1);
        assert(t.subrange(i - 1, t.len() as int) =~= s.subrange(i, s.len() as int));
    }
}

proof fn lemma_trim_back_at(s: Seq<char>, j: int)
    requires
        0 <= j <= s.len(),
        forall|k: int| j <= k < s.len() ==> is_space_char(s[k]),
        j > 0 ==> !is_space_char(s[j - 1]),
    ensures
        trim_back(s) == s.subrange(0, j),
    decreases s.len() - j,
{
    if j == s.len() {
        assert(s.subrange(0, j) =~= s);
    } else {
        let t = s.subrange(0, s.len() - 1);
        assert(is_space_char(s[s.len() - 1]));
        assert(forall|k: int| j <= k < t.len() ==> is_space_char(t[k]));
        lemma_trim_back_at(t, j);
        assert(t.subrange(0, j) =~= s.subrange(0, j));
    }
}

/// Whether the character counts as surrounding whitespace.
fn is_space(c: char) -> (b: bool)
    ensures
        b == is_space_char(c),
{
    c == ' ' || c == '\t' || c == '\n' || c == '\r' || c == '\u{000b}' || c == '\u{000c}'
        || c == '\u{0085}' || c == '\u{00a0}' || c == '\u{1680}' || (0x2000 <= c as u32
        && c as u32 <= 0x200a) || c == '\u{2028}' || c == '\u{2029}' || c == '\u{202f}'
        || c == '\u{205f}' || c == '\u{3000}'
}

/// Removes surrounding whitespace from a configured value before it is
/// parsed.
pub fn trim_str(s: &str) -> (r: &str)
    ensures
        r@ == trimmed(s@),
{
    let n: usize = s.unicode_len();
    let mut i: usize = 0;
    while i < n && is_space(s.get_char(i))
        invariant
            i <= n,
            n == s@.len(),
            forall|k: int| 0 <= k < i ==> is_space_char(s@[k]),
        decreases n - i,
    {
        i = i + 1;
    }
    let mut j: usize = n;
    while j > i && is_space(s.get_char(j - 1))
        invariant
            i <= j <= n,
            n == s@.len(),
            forall|k: int| j <= k < n ==> is_space_char(s@[k]),
        decreases j,
    {
        j = j - 1;
    }
    proof {
        lemma_trim_front_at(s@, i as int);
        let t = s@.subrange(i as int, s@.len() as int);
        assert(forall|k: int| j - i <= k < t.len() ==> is_space_char(t[k]));
        lemma_trim_back_at(t, j - i);
        assert(t.subrange(0, j - i) =~= s@.subrange(i as int, j as int));
    }
    s.substring_char(i, j)
}

/// What `rusoto_core::Region::from_str` recognises. The result is a fixed,
/// case-insensitive table of the known region identifiers, a function of the
/// input characters alone, so it is given a name rather than written out.
pub uninterp spec fn parsed_region(s: Seq<char>) -> Option<Seq<char>>;

/// Relies on `rusoto_core::Region::from_str`, which either recognises a known
/// region identifier or fails, and on `Region::name`, which returns the
/// canonical, non-empty name of a recognised region.
#[verifier::external_body]
fn parse_region_name(s: &str) -> (r: Option<String>)
    ensures
        r matches Some(n) ==> parsed_region(s@) == Some(n@) && n@.len() > 0,
        r is None ==> parsed_region(s@) is None,
{
    match <rusoto_core::Region as core::str::FromStr>::from_str(s) {
        Ok(region) => Some(region.name().to_owned()),
        Err(_) => None,
    }
}

/// Where the pipeline stores, given the configured region identifier: a
/// recognised identifier (after trimming) selects that well-known region; an
/// absent or unrecognised one falls back to the local default.
pub open spec fn resolved_location(config: Option<Seq<char>>) -> TargetLocationView {
    match config {
        Some(s) => match parsed_region(trimmed(s)) {
            Some(name) => TargetLocationView::WellKnown { name },
            None => default_location(),
        },
        None => default_location(),
    }
}

/// The hard-coded default: a named local location pointing at a fixed local
/// endpoint.
pub fn default_region() -> (r: TargetLocation)
    ensures
        r@ == default_location(),
        location_name(r@).len() > 0,
{
    proof {
        reveal_strlit("local");
    }
    TargetLocation::Custom {
        name: "local".to_owned(),
        endpoint: "http://localhost:8000".to_owned(),
    }
}

/// Resolves the target location from the configured region identifier. Never
/// fails: a missing or unparsable value yields the default local location,
/// and the resolved location is never empty-named.
pub fn determine_region(config: Option<&str>) -> (r: TargetLocation)
    ensures
        r@ == resolved_location(config.deep_view()),
        location_name(r@).len() > 0,
{
    match config {
        None => default_region(),
        Some(raw) => {
            let t = trim_str(raw);
            match parse_region_name(t) {
                Some(name) => TargetLocation::WellKnown { name },
                None => default_region(),
            }
        },
    }
}

/// An unparsable configured value falls back to exactly the location that an
/// absent configuration yields.
pub proof fn lemma_unparsable_matches_unset(s: Seq<char>)
    requires
        parsed_region(trimmed(s)) is None,
    ensures
        resolved_location(Some(s)) == resolved_location(None),
{
}

} // verus!
