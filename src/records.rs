//! Small records: a person and a coordinate, both rendered as JSON objects,
//! and a point read from text of the form `(x,y)`.
use vstd::prelude::*;
use vstd::string::*;
use crate::integer::{parse_i32_between, parsed_i32};
use crate::text::{chars_of, decimal_of, push_decimal};

verus! {

/// What `serde_json` writes for a string: the JSON string literal, quotes
/// and escapes included.
pub uninterp spec fn json_string_of(s: Seq<char>) -> Seq<char>;

/// Relies on `serde_json::to_string` applied to a `str`: the JSON string
/// literal for `s`. Serialising into its in-memory buffer does not fail, so
/// the error arm is never taken.
#[verifier::external_body]
fn json_string(s: &str) -> (r: String)
    ensures
        r@ == json_string_of(s@),
{
    serde_json::to_string(s).unwrap_or_default()
}

/// A value that can be written as JSON text.
pub trait ToJson {
    /// The JSON text of this value.
    spec fn json_view(&self) -> Seq<char>;

    fn to_json(&self) -> (r: String)
        ensures
            r@ == self.json_view(),
    ;
}

#[derive(Debug, Clone, PartialEq, Eq)]
pub struct Person {
    pub name: String,
    pub age: u8,
}

impl Person {
    pub fn new(name: &str, age: u8) -> (r: Person)
        ensures
            r.name@ == name@,
            r.age == age,
    {
        Person { name: name.to_owned(), age }
    }
}

/// `{"name":<name>,"age":<age>}`, fields in declaration order.
pub open spec fn person_json(p: Person) -> Seq<char> {
    "{\"name\":"@ + json_string_of(p.name@) + ",\"age\":"@ + decimal_of(p.age as int) + "}"@
}

impl ToJson for Person {
    open spec fn json_view(&self) -> Seq<char> {
        person_json(*self)
    }

    fn to_json(&self) -> (r: String) {
        let mut s = String::from_str("{\"name\":");
        let name = json_string(self.name.as_str());
        s.append(name.as_str());
        s.append(",\"age\":");
        push_decimal(&mut s, self.age as i64);
        s.append("}");
        assert(s@ =~= person_json(*self));
        s
    }
}

#[derive(Debug, Clone, Copy, PartialEq, Eq, Structural)]
pub struct Coord {
    pub x: i32,
    pub y: i32,
}

impl Coord {
    pub fn new(x: i32, y: i32) -> (r: Coord)
        ensures
            r == (Coord { x, y }),
    {
        Coord { x, y }
    }
}

/// `{"x":<x>,"y":<y>}`.
pub open spec fn coord_json(c: Coord) -> Seq<char> {
    "{\"x\":"@ + decimal_of(c.x as int) + ",\"y\":"@ + decimal_of(c.y as int) + "}"@
}

impl ToJson for Coord {
    open spec fn json_view(&self) -> Seq<char> {
        coord_json(*self)
    }

    fn to_json(&self) -> (r: String) {
        let mut s = String::from_str("{\"x\":");
        push_decimal(&mut s, self.x as i64);
        s.append(",\"y\":");
        push_decimal(&mut s, self.y as i64);
        s.append("}");
        assert(s@ =~= coord_json(*self));
        s
    }
}

#[derive(Debug, Clone, Copy, PartialEq, Eq, Structural)]
pub struct Point {
    pub x: i32,
    pub y: i32,
}

/// The text was not of the form `(x,y)` with two `i32` values.
#[derive(Debug, Clone, Copy, PartialEq, Eq, Structural)]
pub struct ParsePointError;

/// The position of the first comma in `s`.
pub open spec fn first_comma(s: Seq<char>) -> Option<nat>
    decreases s.len(),
{
    if s.len() == 0 {
        None
    } else if s[0] == ',' {
        Some(0)
    } else {
        match first_comma(s.drop_first()) {
            Some(k) => Some(k + 1),
            None => None,
        }
    }
}

/// The point that `s` spells: `(`, an `i32`, a comma, an `i32`, `)`, with
/// nothing else; the split is made at the first comma.
pub open spec fn point_of(s: Seq<char>) -> Option<Point> {
    if s.len() >= 2 && s[0] == '(' && s.last() == ')' {
        let inner = s.subrange(1, s.len() - 1);
        match first_comma(inner) {
            Some(k) => match (
                parsed_i32(inner.subrange(0, k as int)),
                parsed_i32(inner.subrange(k as int + 1, inner.len() as int)),
            ) {
                (Some(x), Some(y)) => Some(Point { x, y }),
                _ => None,
            },
            None => None,
        }
    } else {
        None
    }
}

proof fn lemma_first_comma(s: Seq<char>, i: int)
    requires
        0 <= i <= s.len(),
        forall|j: int| 0 <= j < i ==> s[j] != ',',
    ensures
        i < s.len() && s[i] == ',' ==> first_comma(s) == Some(i as nat),
        i == s.len() ==> first_comma(s) is None,
    decreases i,
{
    if i > 0 {
        lemma_first_comma(s.drop_first(), i - 1);
    }
}

impl Point {
    /// Reads a point written as `(x,y)`.
    pub fn parse(s: &str) -> (r: Result<Point, ParsePointError>)
        ensures
            match point_of(s@) {
                Some(p) => r == Ok::<Point, ParsePointError>(p),
                None => r == Err::<Point, ParsePointError>(ParsePointError),
            },
    {
        let cs = chars_of(s);
        let n = cs.len();
        if n < 2 || cs[0] != '(' || cs[n - 1] != ')' {
            return Err(ParsePointError);
        }
        let ghost inner = cs@.subrange(1, n - 1);
        let mut k: usize = 1;
        while k < n - 1 && cs[k] != ','
            invariant
                1 <= k <= n - 1,
                n == cs.len(),
                inner == cs@.subrange(1, n - 1),
                forall|j: int| 0 <= j < k - 1 ==> inner[j] != ',',
            decreases n - k,
        {
            k = k + 1;
        }
        proof {
            lemma_first_comma(inner, k - 1);
        }
        if k == n - 1 {
            return Err(ParsePointError);
        }
        assert(inner.subrange(0, k - 1) =~= cs@.subrange(1, k as int));
        assert(inner.subrange(k as int, inner.len() as int) =~= cs@.subrange(k + 1, n - 1));
        let x = parse_i32_between(&cs, 1, k);
        let y = parse_i32_between(&cs, k + 1, n - 1);
        match (x, y) {
            (Some(x), Some(y)) => Ok(Point { x, y }),
            _ => Err(ParsePointError),
        }
    }
}

impl std::str::FromStr for Point {
    type Err = ParsePointError;

    fn from_str(s: &str) -> Result<Point, ParsePointError> {
        Point::parse(s)
    }
}

} // verus!
