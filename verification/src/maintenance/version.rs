//! The canonical semantic version policy of the maintenance protocol: a
//! stable `MAJOR.MINOR.PATCH` made of plain decimal components (no sign, no
//! leading zero, no prerelease or build suffix) within the PE 16-bit bound,
//! ordered numerically, with every unreadable comparison failing closed.
use vstd::prelude::*;
use crate::text::{parse_unsigned, parse_unsigned_exec, split_any, split_any_exec, views};

verus! {

/// A stable three-part version.
#[derive(Clone, Copy, Debug, PartialEq, Eq, Structural)]
pub struct Version {
    pub major: u16,
    pub minor: u16,
    pub patch: u16,
}

/// One component: decimal digits only, no leading zero, at most 65535.
pub open spec fn component_ok(p: Seq<char>) -> bool {
    &&& p.len() > 0
    &&& p[0] != '+'
    &&& (p.len() == 1 || p[0] != '0')
    &&& parse_unsigned(p, 65535) is Some
}

/// What a text parses to: its three components, when each is acceptable.
pub open spec fn parsed(text: Seq<char>) -> Option<(int, int, int)> {
    let parts = split_any(text, "."@);
    if parts.len() == 3 && component_ok(parts[0]) && component_ok(parts[1]) && component_ok(parts[2]) {
        Some((
            parse_unsigned(parts[0], 65535)->0,
            parse_unsigned(parts[1], 65535)->0,
            parse_unsigned(parts[2], 65535)->0,
        ))
    } else {
        None
    }
}

/// Lexicographic "strictly greater" on three components.
pub open spec fn later(a: (int, int, int), b: (int, int, int)) -> bool {
    ||| a.0 > b.0
    ||| (a.0 == b.0 && a.1 > b.1)
    ||| (a.0 == b.0 && a.1 == b.1 && a.2 > b.2)
}

fn component(p: &str) -> (r: Option<u16>)
    ensures
        match r {
            Some(v) => component_ok(p@) && parse_unsigned(p@, 65535) == Some(v as int),
            None => !component_ok(p@),
        },
{
    let n = p.unicode_len();
    if n == 0 {
        return None;
    }
    let first = p.get_char(0);
    if first == '+' || (n != 1 && first == '0') {
        return None;
    }
    match parse_unsigned_exec(p, 65535) {
        Some(v) => Some(v as u16),
        None => None,
    }
}

impl Version {
    /// A version from its three components.
    pub fn new(major: u16, minor: u16, patch: u16) -> (v: Version)
        ensures
            v.major == major && v.minor == minor && v.patch == patch,
    {
        Version { major, minor, patch }
    }

    /// The components as a triple.
    pub open spec fn triple(self) -> (int, int, int) {
        (self.major as int, self.minor as int, self.patch as int)
    }

    /// Reads a stable version; anything else is refused.
    pub fn parse(text: &str) -> (r: Result<Version, String>)
        ensures
            match parsed(text@) {
                Some(t) => r matches Ok(v) && v.triple() == t,
                None => r matches Err(e) && e@ == "invalid stable version: "@ + text@,
            },
    {
        let parts = split_any_exec(text, ".");
        if parts.len() == 3 {
            proof {
                assert(views(parts@)[0] == parts@[0]@);
                assert(views(parts@)[1] == parts@[1]@);
                assert(views(parts@)[2] == parts@[2]@);
            }
            match (component(parts[0]), component(parts[1]), component(parts[2])) {
                (Some(a), Some(b), Some(c)) => return Ok(Version { major: a, minor: b, patch: c }),
                _ => {},
            }
        }
        Err(crate::text::concat2("invalid stable version: ", text))
    }

    /// `self` is strictly later than `other`.
    pub fn is_later_than(&self, other: &Version) -> (r: bool)
        ensures
            r == later(self.triple(), other.triple()),
            r == (self.major * 4294967296 + self.minor * 65536 + self.patch
                > other.major * 4294967296 + other.minor * 65536 + other.patch),
    {
        self.major > other.major || (self.major == other.major && self.minor > other.minor)
            || (self.major == other.major && self.minor == other.minor && self.patch > other.patch)
    }
}

/// Installing `new` over `installed` is a downgrade when the installed
/// version is later; an unreadable version on either side counts as a
/// downgrade, so the operation is refused.
pub fn is_downgrade(installed: &str, new: &str) -> (r: bool)
    ensures
        r == match (parsed(installed@), parsed(new@)) {
            (Some(a), Some(b)) => later(a, b),
            _ => true,
        },
        r == match (parsed(installed@), parsed(new@)) {
            (Some(a), Some(b)) => a.0 * 4294967296 + a.1 * 65536 + a.2 > b.0 * 4294967296 + b.1 * 65536 + b.2,
            _ => true,
        },
{
    proof {
        if parsed(installed@) is Some && parsed(new@) is Some {
            downgrade_follows_the_positional_order(installed@, new@);
        }
    }
    match (Version::parse(installed), Version::parse(new)) {
        (Ok(a), Ok(b)) => a.is_later_than(&b),
        _ => true,
    }
}

/// Versions are ordered as the numbers their components spell in base
/// 65536, the major component most significant, then the minor, then the
/// patch: a later major wins whatever follows, and with equal majors a later
/// minor wins whatever the patches are.
pub proof fn later_is_the_positional_order(a: (int, int, int), b: (int, int, int))
    requires
        0 <= a.0 <= 65535 && 0 <= a.1 <= 65535 && 0 <= a.2 <= 65535,
        0 <= b.0 <= 65535 && 0 <= b.1 <= 65535 && 0 <= b.2 <= 65535,
    ensures
        later(a, b) <==> a.0 * 4294967296 + a.1 * 65536 + a.2 > b.0 * 4294967296 + b.1 * 65536 + b.2,
        a.0 == b.0 && a.1 > b.1 ==> later(a, b),
        a.0 > b.0 ==> later(a, b),
{
}

/// The components of a readable version are 16-bit numbers.
proof fn lemma_parsed_range(text: Seq<char>)
    ensures
        parsed(text) matches Some(t) ==> 0 <= t.0 <= 65535 && 0 <= t.1 <= 65535 && 0 <= t.2 <= 65535,
{
    let parts = split_any(text, "."@);
    if parsed(text) is Some {
        lemma_component_range(parts[0]);
        lemma_component_range(parts[1]);
        lemma_component_range(parts[2]);
    }
}

proof fn lemma_component_range(p: Seq<char>)
    ensures
        parse_unsigned(p, 65535) matches Some(v) ==> 0 <= v <= 65535,
{
    let digits = if p.len() > 0 && p[0] == '+' { p.skip(1) } else { p };
    if parse_unsigned(p, 65535) is Some {
        crate::text::lemma_digits_value_nonneg(digits);
    }
}

/// Between two readable versions, installing `new` over `installed` is a
/// downgrade exactly when the installed one is later in the positional
/// order (major, then minor, then patch).
pub proof fn downgrade_follows_the_positional_order(installed: Seq<char>, new: Seq<char>)
    requires
        parsed(installed) is Some,
        parsed(new) is Some,
    ensures
        ({
            let a = parsed(installed)->0;
            let b = parsed(new)->0;
            later(a, b) <==> a.0 * 4294967296 + a.1 * 65536 + a.2 > b.0 * 4294967296 + b.1 * 65536 + b.2
        }),
{
    lemma_parsed_range(installed);
    lemma_parsed_range(new);
    later_is_the_positional_order(parsed(installed)->0, parsed(new)->0);
}

/// Reinstalling the same readable version is no downgrade, of two readable
/// versions at most one is a downgrade from the other, and an unreadable
/// version on either side always counts as one.
pub proof fn downgrade_is_strict_and_fails_closed(a: Seq<char>, b: Seq<char>)
    ensures
        parsed(a) is Some ==> !later(parsed(a)->0, parsed(a)->0),
        parsed(a) is Some && parsed(b) is Some ==> !(later(parsed(a)->0, parsed(b)->0) && later(parsed(b)->0, parsed(a)->0)),
        parsed(a) is None || parsed(b) is None ==> match (parsed(a), parsed(b)) {
            (Some(x), Some(y)) => later(x, y),
            _ => true,
        },
{
}

} // verus!
