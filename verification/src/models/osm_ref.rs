//! Canonical references to OpenStreetMap elements: `node/123`, `way/456`,
//! `relation/789`.
use vstd::prelude::*;

use crate::message::{failure, text, ErrorMessage, Piece};
use crate::text::{
    chars_of, decimal, digit_char, push_signed_decimal, signed_decimal, str_equal,
};
use crate::validation::{
    all_digits, digits_value, has_no_slash, is_ascii_digit, parse_i64, parse_i64_chars,
};

verus! {

/// OSM element type.
#[derive(Clone, Copy, Debug, PartialEq, Eq, Structural)]
pub enum OsmElementType {
    Node,
    Way,
    Relation,
}

/// The lowercase name of an element type.
pub open spec fn element_name(t: OsmElementType) -> Seq<char> {
    match t {
        OsmElementType::Node => "node"@,
        OsmElementType::Way => "way"@,
        OsmElementType::Relation => "relation"@,
    }
}

/// The element type of a lowercase name.
pub open spec fn type_of_name(s: Seq<char>) -> Option<OsmElementType> {
    if s == "node"@ {
        Some(OsmElementType::Node)
    } else if s == "way"@ {
        Some(OsmElementType::Way)
    } else if s == "relation"@ {
        Some(OsmElementType::Relation)
    } else {
        None
    }
}

impl OsmElementType {
    /// The lowercase name: `node`, `way` or `relation`.
    pub fn to_string(&self) -> (s: String)
        ensures
            s@ == element_name(*self),
    {
        match self {
            OsmElementType::Node => String::from_str("node"),
            OsmElementType::Way => String::from_str("way"),
            OsmElementType::Relation => String::from_str("relation"),
        }
    }
}

/// A reference to an OSM element, embedded in other models.
#[derive(Clone, Copy, Debug, PartialEq, Eq, Structural)]
pub struct OsmRef {
    pub osm_type: OsmElementType,
    pub osm_id: i64,
}

/// The canonical text of a reference: `{type}/{id}`.
pub open spec fn canonical_text(r: OsmRef) -> Seq<char> {
    element_name(r.osm_type) + "/"@ + signed_decimal(r.osm_id as int)
}

/// Position `i` holds the first `/` of `s`.
pub open spec fn is_first_slash(s: Seq<char>, i: int) -> bool {
    0 <= i < s.len() && s[i] == '/' && has_no_slash(s.subrange(0, i))
}

/// What `from_canonical` gives for `s`: the text before the first `/` names
/// the type, the text after it is the id as parsed by `str::parse::<i64>`.
pub open spec fn parse_canonical(s: Seq<char>) -> Result<OsmRef, Seq<Piece>> {
    if !exists|i: int| is_first_slash(s, i) {
        Err(text("Invalid canonical format: "@ + s))
    } else {
        let i = choose|i: int| is_first_slash(s, i);
        let kind = s.subrange(0, i);
        let id = s.subrange(i + 1, s.len() as int);
        match type_of_name(kind) {
            None => Err(text("Invalid OSM element type: "@ + kind)),
            Some(t) => match parse_i64(id) {
                None => Err(text("Invalid OSM ID: "@ + id)),
                Some(n) => Ok(OsmRef { osm_type: t, osm_id: n }),
            },
        }
    }
}

/// A reference names an element only by a positive id.
pub open spec fn osm_ref_error(r: OsmRef) -> Option<Seq<Piece>> {
    if r.osm_id <= 0 {
        Some(text("Validation Error: OSM ID must be positive, got "@ + signed_decimal(r.osm_id as int)))
    } else {
        None
    }
}

/// The view of a parse outcome.
pub open spec fn canonical_outcome(r: Result<OsmRef, ErrorMessage>) -> Result<OsmRef, Seq<Piece>> {
    match r {
        Ok(x) => Ok(x),
        Err(e) => Err(e@),
    }
}

fn first_slash(v: &Vec<char>) -> (r: Option<usize>)
    ensures
        match r {
            Some(i) => is_first_slash(v@, i as int),
            None => !exists|i: int| is_first_slash(v@, i),
        },
{
    let n: usize = v.len();
    let mut i: usize = 0;
    while i < n
        invariant
            n == v@.len(),
            i <= n,
            has_no_slash(v@.subrange(0, i as int)),
        decreases n - i,
    {
        if v[i] == '/' {
            return Some(i);
        }
        assert(v@.subrange(0, i + 1) =~= v@.subrange(0, i as int).push(v@[i as int]));
        i = i + 1;
    }
    assert forall|j: int| is_first_slash(v@, j) implies false by {
        assert(v@.subrange(0, n as int)[j] == '/');
    }
    None
}

fn slice_chars(v: &Vec<char>, from: usize, to: usize) -> (r: Vec<char>)
    requires
        from <= to <= v.len(),
    ensures
        r@ == v@.subrange(from as int, to as int),
{
    let mut r: Vec<char> = Vec::new();
    let mut i: usize = from;
    while i < to
        invariant
            from <= i <= to <= v.len(),
            r@ == v@.subrange(from as int, i as int),
        decreases to - i,
    {
        r.push(v[i]);
        i = i + 1;
        assert(r@ =~= v@.subrange(from as int, i as int));
    }
    r
}

impl OsmRef {
    /// A reference to the element of the given type and id.
    pub fn new(osm_type: OsmElementType, osm_id: i64) -> (r: OsmRef)
        ensures
            r == (OsmRef { osm_type, osm_id }),
    {
        OsmRef { osm_type, osm_id }
    }

    /// The canonical text, such as `node/123456789`.
    pub fn canonical(&self) -> (s: String)
        ensures
            s@ == canonical_text(*self),
    {
        let mut s = self.osm_type.to_string();
        s.append("/");
        push_signed_decimal(&mut s, self.osm_id);
        s
    }

    /// The OSM URL, such as `https://www.openstreetmap.org/node/123456789`.
    pub fn osm_url(&self) -> (s: String)
        ensures
            s@ == "https://www.openstreetmap.org/"@ + canonical_text(*self),
    {
        let mut s = String::from_str("https://www.openstreetmap.org/");
        let c = self.canonical();
        s.append(c.as_str());
        s
    }

    /// Parses the canonical text `{type}/{id}`.
    pub fn from_canonical(s: &str) -> (r: Result<OsmRef, ErrorMessage>)
        ensures
            canonical_outcome(r) == parse_canonical(s@),
    {
        let v = chars_of(s);
        let i = match first_slash(&v) {
            None => {
                let mut t = String::from_str("Invalid canonical format: ");
                t.append(s);
                return Err(ErrorMessage::from_text(t));
            },
            Some(i) => i,
        };
        proof {
            assert forall|j: int| is_first_slash(s@, j) implies j == i by {
                if j < i {
                    assert(s@.subrange(0, i as int)[j] == '/');
                } else if j > i {
                    assert(s@.subrange(0, j)[i as int] == '/');
                }
            }
        }
        let kind = String::from_str(s.substring_char(0, i));
        let osm_type = if str_equal(kind.as_str(), "node") {
            OsmElementType::Node
        } else if str_equal(kind.as_str(), "way") {
            OsmElementType::Way
        } else if str_equal(kind.as_str(), "relation") {
            OsmElementType::Relation
        } else {
            let mut t = String::from_str("Invalid OSM element type: ");
            t.append(kind.as_str());
            return Err(ErrorMessage::from_text(t));
        };
        let id_chars = slice_chars(&v, i + 1, v.len());
        match parse_i64_chars(&id_chars) {
            None => {
                let mut t = String::from_str("Invalid OSM ID: ");
                t.append(s.substring_char(i + 1, v.len()));
                Err(ErrorMessage::from_text(t))
            },
            Some(osm_id) => Ok(OsmRef { osm_type, osm_id }),
        }
    }

    /// Checks that the id is positive.
    pub fn validate(&self) -> (r: Result<(), ErrorMessage>)
        ensures
            failure(r) == osm_ref_error(*self),
    {
        if self.osm_id <= 0 {
            let mut t = String::from_str("Validation Error: OSM ID must be positive, got ");
            push_signed_decimal(&mut t, self.osm_id);
            return Err(ErrorMessage::from_text(t));
        }
        Ok(())
    }
}

proof fn lemma_digit_char(d: nat)
    requires
        d < 10,
    ensures
        is_ascii_digit(digit_char(d)),
        digit_char(d) as nat - '0' as nat == d,
{
}

/// The decimal rendering of `n` is a run of digits worth `n`.
pub proof fn lemma_decimal_digits(n: nat)
    ensures
        decimal(n).len() > 0,
        all_digits(decimal(n)),
        digits_value(decimal(n)) == n,
    decreases n,
{
    if n < 10 {
        lemma_digit_char(n);
        let d = decimal(n);
        assert(d.drop_last() =~= Seq::<char>::empty());
        assert(digits_value(d.drop_last()) == 0);
        assert(d.last() == digit_char(n));
        assert(digits_value(d) == digits_value(d.drop_last()) * 10 + (d.last() as nat - '0' as nat) as nat);
    } else {
        lemma_decimal_digits(n / 10);
        lemma_digit_char(n % 10);
        let d = decimal(n);
        assert(d.drop_last() =~= decimal(n / 10));
        assert(d.last() == digit_char(n % 10));
        assert((n / 10) * 10 + n % 10 == n) by (nonlinear_arith);
        assert(digits_value(d) == digits_value(d.drop_last()) * 10 + (d.last() as nat - '0' as nat) as nat);
        assert forall|k: int| 0 <= k < d.len() implies is_ascii_digit(#[trigger] d[k]) by {
            if k < d.len() - 1 {
                assert(d[k] == decimal(n / 10)[k]);
            }
        }
    }
}

/// Parsing the decimal rendering of an `i64` gives it back.
pub proof fn lemma_parse_signed_decimal(n: i64)
    ensures
        parse_i64(signed_decimal(n as int)) == Some(n),
{
    let s = signed_decimal(n as int);
    if n < 0 {
        let m = (-(n as int)) as nat;
        lemma_decimal_digits(m);
        assert(s.drop_first() =~= decimal(m));
    } else {
        lemma_decimal_digits(n as nat);
        assert(is_ascii_digit(s[0]));
    }
}

/// Canonical text round trip: parsing the canonical text of a reference
/// gives back the same reference.
pub proof fn lemma_canonical_round_trip(r: OsmRef)
    ensures
        parse_canonical(canonical_text(r)) == Ok::<OsmRef, Seq<Piece>>(r),
{
    reveal_strlit("node");
    reveal_strlit("way");
    reveal_strlit("relation");
    reveal_strlit("/");
    let s = canonical_text(r);
    let name = element_name(r.osm_type);
    let k = name.len() as int;
    lemma_parse_signed_decimal(r.osm_id);
    assert(s.subrange(0, k) =~= name);
    assert(s.subrange(k + 1, s.len() as int) =~= signed_decimal(r.osm_id as int));
    assert(has_no_slash(name));
    assert(is_first_slash(s, k));
    assert forall|j: int| is_first_slash(s, j) implies j == k by {
        if j < k {
            assert(name[j] == '/');
        } else if j > k {
            assert(s.subrange(0, j)[k] == '/');
        }
    }
    assert(type_of_name(name) == Some(r.osm_type));
}

} // verus!
