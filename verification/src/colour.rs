use vstd::prelude::*;

verus! {

/// Whether `c` is an ASCII hexadecimal digit (`0-9`, `a-f` or `A-F`).
pub open spec fn spec_is_hex_digit(c: char) -> bool {
    ||| ('0' as u32 <= c as u32 && c as u32 <= '9' as u32)
    ||| ('a' as u32 <= c as u32 && c as u32 <= 'f' as u32)
    ||| ('A' as u32 <= c as u32 && c as u32 <= 'F' as u32)
}

/// The value of a hexadecimal digit, case-insensitively.
pub open spec fn spec_hex_value(c: char) -> int {
    if '0' as u32 <= c as u32 && c as u32 <= '9' as u32 {
        c as u32 - '0' as u32
    } else if 'a' as u32 <= c as u32 && c as u32 <= 'f' as u32 {
        c as u32 - 'a' as u32 + 10
    } else {
        c as u32 - 'A' as u32 + 10
    }
}

/// Tests whether a character is a hexadecimal digit.
pub fn is_hex_digit(c: char) -> (b: bool)
    ensures
        b == spec_is_hex_digit(c),
{
    match c {
        '0'..='9' | 'a'..='f' | 'A'..='F' => true,
        _ => false,
    }
}

/// A colour given by its red, green and blue bytes.
#[derive(Clone, Copy, Debug, PartialEq, Eq, Structural)]
pub struct Rgb {
    pub red: u8,
    pub green: u8,
    pub blue: u8,
}

/// Why a colour argument was rejected. Offsets count characters from the
/// start of the argument.
#[derive(Clone, Copy, Debug, PartialEq, Eq, Structural)]
pub enum ColourError {
    /// The argument ended early: this many more characters were needed to
    /// finish the element being read.
    Incomplete(usize),
    /// The first character is not `#`.
    MissingHash,
    /// The pair of hexadecimal digits that should start at this offset
    /// holds a character that is not a hexadecimal digit.
    BadHexPair(usize),
}

/// The byte written by the two hexadecimal digits `hi` and `lo`.
pub open spec fn spec_hex_byte(hi: char, lo: char) -> int {
    16 * spec_hex_value(hi) + spec_hex_value(lo)
}

/// Reads one colour primary: exactly two hexadecimal digits starting at
/// offset `p` of `s`.
pub open spec fn spec_hex_primary(s: Seq<char>, p: int) -> Result<u8, ColourError> {
    if p >= s.len() {
        Err(ColourError::Incomplete(2))
    } else if !spec_is_hex_digit(s[p]) {
        Err(ColourError::BadHexPair(p as usize))
    } else if p + 1 >= s.len() {
        Err(ColourError::Incomplete(1))
    } else if !spec_is_hex_digit(s[p + 1]) {
        Err(ColourError::BadHexPair(p as usize))
    } else {
        Ok(spec_hex_byte(s[p], s[p + 1]) as u8)
    }
}

/// The colour that an argument `#RRGGBB` denotes. Characters after the
/// seventh are not read.
pub open spec fn spec_parse_colour(s: Seq<char>) -> Result<Rgb, ColourError> {
    if s.len() == 0 {
        Err(ColourError::Incomplete(1))
    } else if s[0] != '#' {
        Err(ColourError::MissingHash)
    } else {
        match spec_hex_primary(s, 1) {
            Err(e) => Err(e),
            Ok(red) => match spec_hex_primary(s, 3) {
                Err(e) => Err(e),
                Ok(green) => match spec_hex_primary(s, 5) {
                    Err(e) => Err(e),
                    Ok(blue) => Ok(Rgb { red, green, blue }),
                },
            },
        }
    }
}

/// The value of one hexadecimal digit.
fn hex_digit_value(c: char) -> (v: u8)
    requires
        spec_is_hex_digit(c),
    ensures
        v == spec_hex_value(c),
        v < 16,
{
    match c {
        '0'..='9' => (c as u32 - '0' as u32) as u8,
        'a'..='f' => (c as u32 - 'a' as u32 + 10) as u8,
        _ => (c as u32 - 'A' as u32 + 10) as u8,
    }
}

/// The byte written by two hexadecimal digits, most significant first.
fn from_hex(hi: char, lo: char) -> (v: u8)
    requires
        spec_is_hex_digit(hi),
        spec_is_hex_digit(lo),
    ensures
        v == spec_hex_byte(hi, lo),
{
    let h = hex_digit_value(hi);
    let l = hex_digit_value(lo);
    h * 16 + l
}

/// Reads the colour primary that starts at offset `p`.
fn hex_primary(s: &Vec<char>, p: usize) -> (r: Result<u8, ColourError>)
    requires
        p <= s@.len(),
    ensures
        r == spec_hex_primary(s@, p as int),
{
    if p >= s.len() {
        Err(ColourError::Incomplete(2))
    } else if !is_hex_digit(s[p]) {
        Err(ColourError::BadHexPair(p))
    } else if p + 1 >= s.len() {
        Err(ColourError::Incomplete(1))
    } else if !is_hex_digit(s[p + 1]) {
        Err(ColourError::BadHexPair(p))
    } else {
        Ok(from_hex(s[p], s[p + 1]))
    }
}

/// Parses a colour written `#RRGGBB`: a `#` and then three pairs of
/// hexadecimal digits (either case) for red, green and blue. Whatever
/// follows the seventh character is ignored.
pub fn parse_colour(c: &str) -> (r: Result<Rgb, ColourError>)
    ensures
        r == spec_parse_colour(c@),
{
    let s = chars_of(c);
    if s.len() == 0 {
        return Err(ColourError::Incomplete(1));
    }
    if s[0] != '#' {
        return Err(ColourError::MissingHash);
    }
    let red = match hex_primary(&s, 1) {
        Ok(v) => v,
        Err(e) => return Err(e),
    };
    let green = match hex_primary(&s, 3) {
        Ok(v) => v,
        Err(e) => return Err(e),
    };
    let blue = match hex_primary(&s, 5) {
        Ok(v) => v,
        Err(e) => return Err(e),
    };
    Ok(Rgb { red, green, blue })
}

/// Whether `s` starts with `#` and six hexadecimal digits.
pub open spec fn is_colour_literal(s: Seq<char>) -> bool {
    &&& s.len() >= 7
    &&& s[0] == '#'
    &&& forall|i: int| 1 <= i < 7 ==> spec_is_hex_digit(#[trigger] s[i])
}

/// An argument is accepted exactly when it starts with `#` and six
/// hexadecimal digits.
pub proof fn lemma_accepts_exactly_colour_literals(s: Seq<char>)
    ensures
        spec_parse_colour(s) is Ok <==> is_colour_literal(s),
{
    if is_colour_literal(s) {
        assert(spec_is_hex_digit(s[1]) && spec_is_hex_digit(s[2]));
        assert(spec_is_hex_digit(s[3]) && spec_is_hex_digit(s[4]));
        assert(spec_is_hex_digit(s[5]) && spec_is_hex_digit(s[6]));
    }
    if spec_parse_colour(s) is Ok {
        assert forall|i: int| 1 <= i < 7 implies spec_is_hex_digit(#[trigger] s[i]) by {
            if i == 1 || i == 2 {
            } else if i == 3 || i == 4 {
            } else {
            }
        }
    }
}

/// Only the first seven characters of an argument are read: whatever
/// follows them does not change the result.
pub proof fn lemma_reads_seven_characters(s: Seq<char>, t: Seq<char>)
    requires
        s.len() >= 7,
    ensures
        spec_parse_colour(s) == spec_parse_colour(s.take(7) + t),
{
    let u = s.take(7) + t;
    assert forall|i: int| 0 <= i < 7 implies u[i] == s[i] by {}
    assert(u[0] == s[0]);
    assert(u[1] == s[1] && u[2] == s[2] && u[3] == s[3]);
    assert(u[4] == s[4] && u[5] == s[5] && u[6] == s[6]);
}

/// The lower-case form of an ASCII letter; other characters are unchanged.
pub open spec fn spec_ascii_lowercase(c: char) -> char {
    if 'A' as u32 <= c as u32 && c as u32 <= 'Z' as u32 {
        ((c as u32) + 32) as char
    } else {
        c
    }
}

/// Hexadecimal digits are read without regard to case: lower-casing the
/// argument does not change the result.
pub proof fn lemma_case_insensitive(s: Seq<char>)
    ensures
        spec_parse_colour(s) == spec_parse_colour(s.map_values(|c: char| spec_ascii_lowercase(c))),
{
    let l = s.map_values(|c: char| spec_ascii_lowercase(c));
    assert forall|i: int| 0 <= i < s.len() implies {
        &&& (spec_is_hex_digit(#[trigger] l[i]) <==> spec_is_hex_digit(s[i]))
        &&& (spec_is_hex_digit(s[i]) ==> spec_hex_value(l[i]) == spec_hex_value(s[i]))
        &&& (l[i] == '#' <==> s[i] == '#')
    } by {
        lemma_lowercase_keeps_digits(s[i]);
    }
}

proof fn lemma_lowercase_keeps_digits(c: char)
    ensures
        spec_is_hex_digit(spec_ascii_lowercase(c)) <==> spec_is_hex_digit(c),
        spec_is_hex_digit(c) ==> spec_hex_value(spec_ascii_lowercase(c)) == spec_hex_value(c),
        spec_ascii_lowercase(c) == '#' <==> c == '#',
{
    if 'A' as u32 <= c as u32 && c as u32 <= 'Z' as u32 {
        let d = ((c as u32) + 32) as char;
        assert(d as u32 == c as u32 + 32);
    }
}

/// The hexadecimal digit for a value below 16, in upper or lower case.
pub open spec fn spec_hex_digit_char(v: int, upper: bool) -> char {
    if v < 10 {
        (48 + v) as char
    } else if upper {
        (55 + v) as char
    } else {
        (87 + v) as char
    }
}

/// The argument `#RRGGBB` that writes colour `c`, with its letter digits in
/// upper or lower case.
pub open spec fn spec_colour_literal(c: Rgb, upper: bool) -> Seq<char> {
    seq![
        '#',
        spec_hex_digit_char(c.red as int / 16, upper),
        spec_hex_digit_char(c.red as int % 16, upper),
        spec_hex_digit_char(c.green as int / 16, upper),
        spec_hex_digit_char(c.green as int % 16, upper),
        spec_hex_digit_char(c.blue as int / 16, upper),
        spec_hex_digit_char(c.blue as int % 16, upper),
    ]
}

/// Each of the sixteen digits, in either case, is a hexadecimal digit and
/// stands for its own value.
pub proof fn lemma_digit_values(v: int, upper: bool)
    requires
        0 <= v < 16,
    ensures
        spec_is_hex_digit(spec_hex_digit_char(v, upper)),
        spec_hex_value(spec_hex_digit_char(v, upper)) == v,
{
    let d = spec_hex_digit_char(v, upper);
    if v < 10 {
        assert(d as u32 == 48 + v);
    } else if upper {
        assert(d as u32 == 55 + v);
    } else {
        assert(d as u32 == 87 + v);
    }
}

/// Writing any colour as `#RRGGBB`, most significant digit first, in either
/// case and followed by anything, and parsing it gives back that colour:
/// each primary is the base-16 value of its two digits.
pub proof fn lemma_literal_round_trip(c: Rgb, upper: bool, t: Seq<char>)
    ensures
        spec_parse_colour(spec_colour_literal(c, upper) + t) == Ok::<Rgb, ColourError>(c),
{
    let s = spec_colour_literal(c, upper) + t;
    let l = spec_colour_literal(c, upper);
    assert(s[0] == '#');
    assert(s[1] == l[1] && s[2] == l[2] && s[3] == l[3]);
    assert(s[4] == l[4] && s[5] == l[5] && s[6] == l[6]);
    lemma_digit_values(c.red as int / 16, upper);
    lemma_digit_values(c.red as int % 16, upper);
    lemma_digit_values(c.green as int / 16, upper);
    lemma_digit_values(c.green as int % 16, upper);
    lemma_digit_values(c.blue as int / 16, upper);
    lemma_digit_values(c.blue as int % 16, upper);
    assert(16 * (c.red as int / 16) + c.red as int % 16 == c.red);
    assert(16 * (c.green as int / 16) + c.green as int % 16 == c.green);
    assert(16 * (c.blue as int / 16) + c.blue as int % 16 == c.blue);
}

/// The hexadecimal digits are exactly the sixteen digits in upper or lower
/// case.
pub proof fn lemma_hex_digits_are_the_sixteen(c: char)
    ensures
        spec_is_hex_digit(c) <==> exists|v: int, upper: bool|
            0 <= v < 16 && c == #[trigger] spec_hex_digit_char(v, upper),
{
    if spec_is_hex_digit(c) {
        let v = spec_hex_value(c);
        let upper = 'A' as u32 <= c as u32 && c as u32 <= 'F' as u32;
        lemma_digit_values(v, upper);
        let d = spec_hex_digit_char(v, upper);
        if v < 10 {
            assert(d as u32 == 48 + v);
        } else if upper {
            assert(d as u32 == 55 + v);
        } else {
            assert(d as u32 == 87 + v);
        }
        assert(d as u32 == c as u32);
        assert(c == spec_hex_digit_char(v, upper));
    }
    if exists|v: int, upper: bool| 0 <= v < 16 && c == #[trigger] spec_hex_digit_char(v, upper) {
        let (v, upper) = choose|v: int, upper: bool|
            0 <= v < 16 && c == #[trigger] spec_hex_digit_char(v, upper);
        lemma_digit_values(v, upper);
    }
}

/// Whether all characters of `s` at offsets `1 <= i < n` are hexadecimal
/// digits.
pub open spec fn hex_digits_from_one(s: Seq<char>, n: int) -> bool {
    forall|i: int| 1 <= i < n ==> spec_is_hex_digit(#[trigger] s[i])
}

/// How an argument is rejected. It lacks its `#` exactly when its first
/// character is something else. It is incomplete exactly when it is a
/// proper prefix of a colour literal, and then the count is what the
/// pair (or the `#`) being read still lacks. Otherwise a bad pair is named
/// by its starting offset: the first pair holding a non-digit, all
/// characters before it being well formed.
pub proof fn lemma_rejections(s: Seq<char>)
    ensures
        spec_parse_colour(s) == Err::<Rgb, ColourError>(ColourError::MissingHash) <==> (s.len()
            > 0 && s[0] != '#'),
        (spec_parse_colour(s) matches Err(ColourError::Incomplete(_))) <==> (s.len() < 7 && (s.len() > 0 ==> s[0] == '#') && hex_digits_from_one(s, s.len() as int)),
        s.len() == 0 ==> spec_parse_colour(s) == Err::<Rgb, ColourError>(ColourError::Incomplete(1)),
        (0 < s.len() < 7 && s[0] == '#' && hex_digits_from_one(s, s.len() as int)) ==> spec_parse_colour(s)
            == Err::<Rgb, ColourError>(ColourError::Incomplete(if s.len() % 2 == 1 { 2 } else { 1 })),
        spec_parse_colour(s) matches Err(ColourError::BadHexPair(p)) ==> {
            &&& (p == 1 || p == 3 || p == 5)
            &&& s[0] == '#'
            &&& hex_digits_from_one(s, p as int)
            &&& p < s.len()
            &&& (!spec_is_hex_digit(s[p as int]) || (p + 1 < s.len() && !spec_is_hex_digit(s[p + 1])))
        },
{
    if s.len() > 0 && s[0] == '#' {
        if s.len() >= 2 && spec_is_hex_digit(s[1]) && s.len() >= 3 && spec_is_hex_digit(s[2]) {
            if s.len() >= 4 && spec_is_hex_digit(s[3]) && s.len() >= 5 && spec_is_hex_digit(s[4]) {
            }
        }
    }
    if s.len() < 7 && (s.len() > 0 ==> s[0] == '#') && hex_digits_from_one(s, s.len() as int) {
        if s.len() > 1 { assert(spec_is_hex_digit(s[1])); }
        if s.len() > 2 { assert(spec_is_hex_digit(s[2])); }
        if s.len() > 3 { assert(spec_is_hex_digit(s[3])); }
        if s.len() > 4 { assert(spec_is_hex_digit(s[4])); }
        if s.len() > 5 { assert(spec_is_hex_digit(s[5])); }
    }
}

/// Collects the characters of a string slice.
fn chars_of(s: &str) -> (v: Vec<char>)
    ensures
        v@ == s@,
{
    broadcast use vstd::string::axiom_spec_iter;
    let mut v: Vec<char> = Vec::new();
    for ch in it: s.chars()
        invariant
            v@ == it.seq().take(it.index() as int),
    {
        v.push(ch);
    }
    v
}

} // verus!
