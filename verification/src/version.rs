//! Versions of the form `major.minor.patch`: parsing, formatting and order.

use crate::error::ServerError;
use crate::text::{
    chain, decimal, decimal_string, is_digit, join, lemma_decimal_digits,
    lemma_decimal_of_plain, lemma_join_split, lemma_parse_decimal, lemma_split_append,
    lemma_split_whole, parse_unsigned, parse_unsigned_spec, plain_number, split, split_on,
    views,
};
use std::cmp::Ordering;
use vstd::prelude::*;
use vstd::std_specs::cmp::PartialOrdSpecImpl;
use vstd::std_specs::convert::FromSpecImpl;
use vstd::string::*;

verus! {

broadcast use vstd::string::group_string_axioms;

/// A version: three numbers, ordered lexicographically.
#[derive(PartialEq, Eq, Structural, Debug, Copy, Clone, Hash)]
pub struct Version {
    major: u16,
    minor: u16,
    patch: u16,
}

impl View for Version {
    type V = (nat, nat, nat);

    closed spec fn view(&self) -> (nat, nat, nat) {
        (self.major as nat, self.minor as nat, self.patch as nat)
    }
}

/// Whether `a` comes before `b` or is `b`, comparing first by the first
/// component, then by the second, then by the third.
pub open spec fn triple_le(a: (nat, nat, nat), b: (nat, nat, nat)) -> bool {
    a.0 < b.0 || (a.0 == b.0 && (a.1 < b.1 || (a.1 == b.1 && a.2 <= b.2)))
}

/// How two triples compare, first by the first component, then by the
/// second, then by the third.
pub open spec fn triple_order(a: (nat, nat, nat), b: (nat, nat, nat)) -> Ordering {
    if a.0 < b.0 {
        Ordering::Less
    } else if a.0 > b.0 {
        Ordering::Greater
    } else if a.1 < b.1 {
        Ordering::Less
    } else if a.1 > b.1 {
        Ordering::Greater
    } else if a.2 < b.2 {
        Ordering::Less
    } else if a.2 > b.2 {
        Ordering::Greater
    } else {
        Ordering::Equal
    }
}

impl PartialOrd for Version {
    fn partial_cmp(&self, other: &Self) -> (r: Option<Ordering>) {
        if self.major < other.major {
            Some(Ordering::Less)
        } else if self.major > other.major {
            Some(Ordering::Greater)
        } else if self.minor < other.minor {
            Some(Ordering::Less)
        } else if self.minor > other.minor {
            Some(Ordering::Greater)
        } else if self.patch < other.patch {
            Some(Ordering::Less)
        } else if self.patch > other.patch {
            Some(Ordering::Greater)
        } else {
            Some(Ordering::Equal)
        }
    }
}

impl PartialOrdSpecImpl for Version {
    open spec fn obeys_partial_cmp_spec() -> bool {
        true
    }

    open spec fn partial_cmp_spec(&self, other: &Self) -> Option<Ordering> {
        Some(triple_order(self@, other@))
    }
}

impl From<[u16; 3]> for Version {
    fn from(value: [u16; 3]) -> (v: Self) {
        Version { major: value[0], minor: value[1], patch: value[2] }
    }
}

impl FromSpecImpl<[u16; 3]> for Version {
    open spec fn obeys_from_spec() -> bool {
        true
    }

    open spec fn from_spec(value: [u16; 3]) -> Self {
        Version::of(value[0], value[1], value[2])
    }
}

/// The largest number a component can hold.
pub open spec fn component_max() -> nat {
    65535
}

/// The text of a triple: its components in decimal with a dot between them.
pub open spec fn format_spec(v: (nat, nat, nat)) -> Seq<char> {
    decimal(v.0) + seq!['.'] + decimal(v.1) + seq!['.'] + decimal(v.2)
}

/// The triple that a text writes, if it is three dot-separated unsigned
/// numbers that each fit a component.
pub open spec fn parse_spec(s: Seq<char>) -> Option<(nat, nat, nat)> {
    let parts = split(s, '.');
    if parts.len() == 3 {
        match (
            parse_unsigned_spec(parts[0], component_max()),
            parse_unsigned_spec(parts[1], component_max()),
            parse_unsigned_spec(parts[2], component_max()),
        ) {
            (Some(major), Some(minor), Some(patch)) => Some((major, minor, patch)),
            _ => None,
        }
    } else {
        None
    }
}

/// The first of three parts that is no component.
pub open spec fn first_bad_part(parts: Seq<Seq<char>>) -> Seq<char> {
    if parse_unsigned_spec(parts[0], component_max()) is None {
        parts[0]
    } else if parse_unsigned_spec(parts[1], component_max()) is None {
        parts[1]
    } else {
        parts[2]
    }
}

/// What the error says about a text that is no version.
pub open spec fn parse_error_text(s: Seq<char>) -> Seq<char> {
    let parts = split(s, '.');
    if parts.len() != 3 {
        "expected 3 parts, got "@ + decimal(parts.len())
    } else {
        "invalid version part: "@ + first_bad_part(parts)
    }
}

impl Version {
    /// The version with the given components.
    pub closed spec fn of(major: u16, minor: u16, patch: u16) -> Version {
        Version { major, minor, patch }
    }

    /// The components of the version with the given components.
    pub broadcast proof fn lemma_view_of(major: u16, minor: u16, patch: u16)
        ensures
            #[trigger] Version::of(major, minor, patch)@ == (major as nat, minor as nat, patch as nat),
    {
    }

    /// The version `major.minor.patch`.
    pub fn new(major: u16, minor: u16, patch: u16) -> (v: Version)
        ensures
            v@ == (major as nat, minor as nat, patch as nat),
            v == Version::of(major, minor, patch),
    {
        Version { major, minor, patch }
    }

    /// Two versions with the same components are the same version.
    pub proof fn lemma_view_injective(a: Version, b: Version)
        requires
            a@ == b@,
        ensures
            a == b,
    {
    }

    /// Every component of a version fits sixteen bits.
    pub proof fn lemma_view_bounded(self)
        ensures
            self@.0 <= component_max(),
            self@.1 <= component_max(),
            self@.2 <= component_max(),
    {
    }

    /// Reads a version from `major.minor.patch`. Each part follows the
    /// unsigned-integer grammar; anything else is `InvalidVersionFormat`, with
    /// a message that names the number of parts or the first bad part.
    pub fn parse(s: &str) -> (r: Result<Version, ServerError>)
        ensures
            match r {
                Ok(v) => parse_spec(s@) == Some(v@),
                Err(e) => {
                    &&& parse_spec(s@) is None
                    &&& e matches ServerError::InvalidVersionFormat(text) && text@
                        == parse_error_text(s@)
                },
            },
    {
        let parts = split_on(s, '.');
        if parts.len() != 3 {
            let count = decimal_string(parts.len() as u64);
            return Err(
                ServerError::InvalidVersionFormat(chain("expected 3 parts, got ", count.as_str())),
            );
        }
        assert(views(parts@)[0] == parts@[0]@);
        assert(views(parts@)[1] == parts@[1]@);
        assert(views(parts@)[2] == parts@[2]@);
        let major = match parse_unsigned(parts[0].as_str(), 65535) {
            Some(n) => n as u16,
            None => {
                return Err(Self::bad_part(parts[0].as_str()));
            },
        };
        let minor = match parse_unsigned(parts[1].as_str(), 65535) {
            Some(n) => n as u16,
            None => {
                return Err(Self::bad_part(parts[1].as_str()));
            },
        };
        let patch = match parse_unsigned(parts[2].as_str(), 65535) {
            Some(n) => n as u16,
            None => {
                return Err(Self::bad_part(parts[2].as_str()));
            },
        };
        Ok(Version { major, minor, patch })
    }

    fn bad_part(part: &str) -> (e: ServerError)
        ensures
            e matches ServerError::InvalidVersionFormat(text) && text@ == "invalid version part: "@
                + part@,
    {
        ServerError::InvalidVersionFormat(chain("invalid version part: ", part))
    }

    /// The text of the version: `major.minor.patch` in decimal.
    pub fn to_string(&self) -> (s: String)
        ensures
            s@ == format_spec(self@),
    {
        proof {
            reveal_strlit(".");
            assert("."@ =~= seq!['.']);
        }
        let mut s = decimal_string(self.major as u64);
        s.append(".");
        s.append(decimal_string(self.minor as u64).as_str());
        s.append(".");
        s.append(decimal_string(self.patch as u64).as_str());
        s
    }

    /// Whether this version is `other` or a later one.
    pub fn at_least(&self, other: &Version) -> (r: bool)
        ensures
            r == triple_le(other@, self@),
    {
        *self >= *other
    }
}

impl std::str::FromStr for Version {
    type Err = ServerError;

    /// Reads a version as `Version::parse` does.
    fn from_str(s: &str) -> (r: Result<Self, Self::Err>)
        ensures
            match r {
                Ok(v) => parse_spec(s@) == Some(v@),
                Err(e) => {
                    &&& parse_spec(s@) is None
                    &&& e matches ServerError::InvalidVersionFormat(text) && text@
                        == parse_error_text(s@)
                },
            },
    {
        Version::parse(s)
    }
}

/// Every part of the text is a number written without sign or padding zeros.
pub open spec fn plainly_written(s: Seq<char>) -> bool {
    forall|i: int| 0 <= i < split(s, '.').len() ==> plain_number(#[trigger] split(s, '.')[i])
}

/// The parts of a formatted triple are the decimal texts of its components.
pub proof fn lemma_split_format(t: (nat, nat, nat))
    ensures
        split(format_spec(t), '.') == seq![decimal(t.0), decimal(t.1), decimal(t.2)],
{
    let d0 = decimal(t.0);
    let d1 = decimal(t.1);
    let d2 = decimal(t.2);
    lemma_decimal_digits(t.0);
    lemma_decimal_digits(t.1);
    lemma_decimal_digits(t.2);
    assert forall|i: int| 0 <= i < d0.len() implies d0[i] != '.' by {
        assert(is_digit(d0[i]));
    }
    assert forall|i: int| 0 <= i < d1.len() implies d1[i] != '.' by {
        assert(is_digit(d1[i]));
    }
    assert forall|i: int| 0 <= i < d2.len() implies d2[i] != '.' by {
        assert(is_digit(d2[i]));
    }
    lemma_split_whole(d0, '.');
    let s1 = d0 + seq!['.'];
    assert(s1.drop_last() =~= d0);
    assert(split(s1, '.') =~= seq![d0, Seq::<char>::empty()]);
    lemma_split_append(s1, d1, '.');
    let s2 = s1 + d1;
    assert(Seq::<char>::empty() + d1 =~= d1);
    assert(split(s2, '.') =~= seq![d0, d1]);
    let s3 = s2 + seq!['.'];
    assert(s3.drop_last() =~= s2);
    assert(split(s3, '.') =~= seq![d0, d1, Seq::<char>::empty()]);
    lemma_split_append(s3, d2, '.');
    assert(Seq::<char>::empty() + d2 =~= d2);
    assert(split(s3 + d2, '.') =~= seq![d0, d1, d2]);
    assert(s3 + d2 =~= format_spec(t));
}

/// Formatting then parsing gives the version back.
pub proof fn lemma_parse_format(v: Version)
    ensures
        parse_spec(format_spec(v@)) == Some(v@),
{
    v.lemma_view_bounded();
    lemma_split_format(v@);
    lemma_parse_decimal(v@.0, component_max());
    lemma_parse_decimal(v@.1, component_max());
    lemma_parse_decimal(v@.2, component_max());
}

/// Parsing then formatting gives the text back exactly when the text writes
/// each number plainly: `1.02.3` and `+1.2.3` parse, and format as `1.2.3`.
pub proof fn lemma_format_parse(s: Seq<char>)
    requires
        parse_spec(s) is Some,
    ensures
        format_spec(parse_spec(s)->0) == s <==> plainly_written(s),
{
    let t = parse_spec(s)->0;
    let parts = split(s, '.');
    if plainly_written(s) {
        assert(plain_number(parts[0]) && plain_number(parts[1]) && plain_number(parts[2]));
        assert(is_digit(parts[0][0]) && is_digit(parts[1][0]) && is_digit(parts[2][0]));
        lemma_decimal_of_plain(parts[0]);
        lemma_decimal_of_plain(parts[1]);
        lemma_decimal_of_plain(parts[2]);
        lemma_join_split(s, '.');
        let two = parts.drop_last();
        assert(two.drop_last() =~= seq![parts[0]]);
        assert(join(two.drop_last(), seq!['.']) == parts[0]);
        assert(two.last() == parts[1]);
        assert(join(two, seq!['.']) =~= parts[0] + seq!['.'] + parts[1]);
        assert(join(parts, seq!['.']) =~= format_spec(t));
    }
    if format_spec(t) == s {
        lemma_split_format(t);
        lemma_decimal_digits(t.0);
        lemma_decimal_digits(t.1);
        lemma_decimal_digits(t.2);
    }
}

/// The order of versions is total: of two versions, one is less, or they
/// are the same version, or the other is less.
pub proof fn lemma_order_total(a: Version, b: Version)
    ensures
        triple_order(a@, b@) == Ordering::Equal <==> a == b,
        triple_order(a@, b@) == Ordering::Less <==> triple_order(b@, a@) == Ordering::Greater,
        triple_le(a@, b@) <==> triple_order(a@, b@) != Ordering::Greater,
        triple_le(a@, b@) || triple_le(b@, a@),
{
}

/// The order of versions is transitive.
pub proof fn lemma_order_transitive(a: Version, b: Version, c: Version)
    requires
        triple_order(a@, b@) != Ordering::Greater,
        triple_order(b@, c@) != Ordering::Greater,
    ensures
        triple_order(a@, c@) != Ordering::Greater,
{
}

} // verus!
