//! The protocol's own encodings of single values: integers in which zero
//! means "none", and colors written in hexadecimal.

use crate::decode::{req, required, FromJson};
use crate::error::ShapeError;
use crate::json::{Json, JsonValue};
use crate::text::{chars_of, result_view};
use vstd::prelude::*;
use vstd::string::*;

verus! {

/// A `u64` that is not zero.
#[derive(Clone, Copy, Debug, PartialEq, Eq, Hash)]
pub struct NonZeroU64 {
    value: u64,
}

impl NonZeroU64 {
    #[verifier::type_invariant]
    spec fn well_formed(self) -> bool {
        self.value != 0
    }

    /// The number held.
    pub closed spec fn value(self) -> u64 {
        self.value
    }

    /// The value whose number is `v`; meaningful for `v != 0`.
    pub closed spec fn of(v: u64) -> NonZeroU64 {
        NonZeroU64 { value: v }
    }

    /// The value made of a number holds that number.
    pub broadcast proof fn lemma_of_value(v: u64)
        ensures
            (#[trigger] NonZeroU64::of(v)).value() == v,
    {
    }

    /// A value is the one made of the number that it holds.
    pub broadcast proof fn lemma_value_of(n: NonZeroU64)
        ensures
            NonZeroU64::of(#[trigger] n.value()) == n,
    {
    }

    /// The only way to make a value: `None` for zero.
    pub fn new(v: u64) -> (r: Option<NonZeroU64>)
        ensures
            r == sentinel(v),
    {
        if v == 0 {
            None
        } else {
            Some(NonZeroU64 { value: v })
        }
    }

    pub fn get(&self) -> (v: u64)
        ensures
            v == self.value(),
            v != 0,
    {
        proof {
            use_type_invariant(self);
        }
        self.value
    }
}

impl DeepView for NonZeroU64 {
    type V = NonZeroU64;

    open spec fn deep_view(&self) -> NonZeroU64 {
        *self
    }
}

/// Zero stands for "no value"; any other number stands for itself.
pub open spec fn sentinel(v: u64) -> Option<NonZeroU64> {
    if v == 0 {
        None
    } else {
        Some(NonZeroU64::of(v))
    }
}

/// Reads an integer in which zero means "none".
pub fn de_nonzero(v: u64) -> (r: Option<NonZeroU64>)
    ensures
        r == sentinel(v),
        v == 0 ==> r is None,
        v != 0 ==> r is Some && r.unwrap().value() == v,
{
    broadcast use NonZeroU64::lemma_of_value;

    NonZeroU64::new(v)
}

/// A member that has to be an unsigned integer, in which zero means "none".
#[verifier::opaque]
pub open spec fn required_sentinel(j: JsonValue, key: Seq<char>) -> Result<
    Option<NonZeroU64>,
    ShapeError,
> {
    match required::<u64>(j, key) {
        Ok(v) => Ok(sentinel(v)),
        Err(e) => Err(e),
    }
}

pub fn req_sentinel(j: &Json, key: &str) -> (r: Result<Option<NonZeroU64>, ShapeError>)
    ensures
        r == required_sentinel(j@, key@),
{
    reveal(required_sentinel);
    match req::<u64>(j, key) {
        Ok(v) => Ok(de_nonzero(v)),
        Err(e) => Err(e),
    }
}

pub open spec fn is_hex_digit(c: char) -> bool {
    ('0' <= c && c <= '9') || ('a' <= c && c <= 'f') || ('A' <= c && c <= 'F')
}

/// The number that a hexadecimal digit stands for.
pub open spec fn hex_digit_value(c: char) -> nat
    recommends
        is_hex_digit(c),
{
    if '0' <= c && c <= '9' {
        (c as int - '0' as int) as nat
    } else if 'a' <= c && c <= 'f' {
        (c as int - 'a' as int + 10) as nat
    } else {
        (c as int - 'A' as int + 10) as nat
    }
}

/// The number that a run of hexadecimal digits writes, most significant
/// digit first.
pub open spec fn hex_value(digits: Seq<char>) -> nat
    decreases digits.len(),
{
    if digits.len() == 0 {
        0
    } else {
        16 * hex_value(digits.drop_last()) + hex_digit_value(digits.last())
    }
}

pub fn hex_digit(c: char) -> (r: Option<u8>)
    ensures
        r is Some <==> is_hex_digit(c),
        r matches Some(d) ==> d == hex_digit_value(c) && d < 16,
{
    if '0' <= c && c <= '9' {
        Some((c as u32 - '0' as u32) as u8)
    } else if 'a' <= c && c <= 'f' {
        Some((c as u32 - 'a' as u32 + 10) as u8)
    } else if 'A' <= c && c <= 'F' {
        Some((c as u32 - 'A' as u32 + 10) as u8)
    } else {
        None
    }
}

/// Why a color could not be read.
#[derive(Clone, Debug, PartialEq, Eq)]
pub enum ColorError {
    /// No run of hexadecimal digits that writes a 32-bit number.
    InvalidColorFormat,
    /// The two characters of one component, which are not both hexadecimal digits.
    InvalidColorComponent(String),
    /// The number of characters found where nine were expected.
    InvalidLength(usize),
}

pub enum ColorErrorView {
    InvalidColorFormat,
    InvalidColorComponent(Seq<char>),
    InvalidLength(nat),
}

impl View for ColorError {
    type V = ColorErrorView;

    open spec fn view(&self) -> ColorErrorView {
        match self {
            ColorError::InvalidColorFormat => ColorErrorView::InvalidColorFormat,
            ColorError::InvalidColorComponent(s) => ColorErrorView::InvalidColorComponent(s@),
            ColorError::InvalidLength(n) => ColorErrorView::InvalidLength(*n as nat),
        }
    }
}

impl DeepView for ColorError {
    type V = ColorErrorView;

    open spec fn deep_view(&self) -> ColorErrorView {
        self@
    }
}

impl ColorErrorView {
    /// The error as the reason why a document does not decode.
    pub open spec fn shape(self) -> ShapeError {
        match self {
            ColorErrorView::InvalidColorFormat => ShapeError::InvalidColorFormat,
            ColorErrorView::InvalidColorComponent(_) => ShapeError::InvalidColorComponent,
            ColorErrorView::InvalidLength(_) => ShapeError::InvalidLength,
        }
    }
}

impl ColorError {
    /// The error as the reason why a document does not decode.
    pub fn shape(&self) -> (r: ShapeError)
        ensures
            r == self@.shape(),
    {
        match self {
            ColorError::InvalidColorFormat => ShapeError::InvalidColorFormat,
            ColorError::InvalidColorComponent(_) => ShapeError::InvalidColorComponent,
            ColorError::InvalidLength(_) => ShapeError::InvalidLength,
        }
    }

    pub open spec fn spec_describe(self) -> Seq<char> {
        match self {
            ColorError::InvalidColorFormat => "expected hexadecimal digits that write a 32-bit color"@,
            ColorError::InvalidColorComponent(part) => "expected two hexadecimal digits, found "@
                + part@,
            ColorError::InvalidLength(_) => "expected nine characters of the form #RRGGBBAA"@,
        }
    }

    /// A sentence for a log or a message.
    pub fn describe(&self) -> (r: String)
        ensures
            r@ == self.spec_describe(),
    {
        match self {
            ColorError::InvalidColorFormat => {
                "expected hexadecimal digits that write a 32-bit color".to_owned()
            },
            ColorError::InvalidColorComponent(part) => {
                "expected two hexadecimal digits, found ".to_owned().concat(part.as_str())
            },
            ColorError::InvalidLength(_) => {
                "expected nine characters of the form #RRGGBBAA".to_owned()
            },
        }
    }
}

/// A color packed into 32 bits.
#[derive(Clone, Copy, Debug, PartialEq, Eq, Hash, Structural)]
pub struct Color {
    pub color: u32,
}

impl DeepView for Color {
    type V = Color;

    open spec fn deep_view(&self) -> Color {
        *self
    }
}

/// A set of packed colors; the protocol names none so far.
#[derive(Clone, Copy, Debug, PartialEq, Eq, Hash, Structural)]
pub struct Colors {}

/// `s[a..b]` is the one run of hexadecimal digits in `s`: it is not empty,
/// and no character before or after it is a hexadecimal digit.
pub open spec fn is_hex_run(s: Seq<char>, a: int, b: int) -> bool {
    &&& 0 <= a < b <= s.len()
    &&& forall|i: int| 0 <= i < a ==> !is_hex_digit(#[trigger] s[i])
    &&& forall|i: int| a <= i < b ==> is_hex_digit(#[trigger] s[i])
    &&& forall|i: int| b <= i < s.len() ==> !is_hex_digit(#[trigger] s[i])
}

pub open spec fn has_hex_run(s: Seq<char>) -> bool {
    exists|a: int, b: int| #[trigger] is_hex_run(s, a, b)
}

/// The digits of the run of hexadecimal digits in `s`.
pub open spec fn hex_run(s: Seq<char>) -> Seq<char>
    recommends
        has_hex_run(s),
{
    let (a, b) = choose|a: int, b: int| #[trigger] is_hex_run(s, a, b);
    s.subrange(a, b)
}

/// A string has at most one run of hexadecimal digits.
pub proof fn lemma_hex_run_unique(s: Seq<char>, a: int, b: int)
    requires
        is_hex_run(s, a, b),
    ensures
        has_hex_run(s),
        hex_run(s) == s.subrange(a, b),
{
    let (a2, b2) = choose|a2: int, b2: int| #[trigger] is_hex_run(s, a2, b2);
    assert(is_hex_digit(s[a]));
    assert(is_hex_digit(s[a2]));
    assert(is_hex_digit(s[b - 1]));
    assert(is_hex_digit(s[b2 - 1]));
    assert(a == a2 && b == b2);
}

/// The value of a run of digits is at least the value of each of its prefixes.
pub proof fn lemma_hex_value_prefix(digits: Seq<char>, n: int)
    requires
        0 <= n <= digits.len(),
    ensures
        hex_value(digits.take(n)) <= hex_value(digits),
    decreases digits.len() - n,
{
    if n == digits.len() {
        assert(digits.take(n) =~= digits);
    } else {
        lemma_hex_value_prefix(digits, n + 1);
        assert(digits.take(n + 1).drop_last() =~= digits.take(n));
    }
}

impl Color {
    /// The color that a string writes: its run of hexadecimal digits, between
    /// any characters that are no such digits, read as a number that fits in
    /// 32 bits.
    pub open spec fn spec_parse(s: Seq<char>) -> Result<Color, ColorErrorView> {
        if has_hex_run(s) && hex_value(hex_run(s)) <= u32::MAX {
            Ok(Color { color: hex_value(hex_run(s)) as u32 })
        } else {
            Err(ColorErrorView::InvalidColorFormat)
        }
    }

    pub fn from_u32(v: u32) -> (c: Color)
        ensures
            c.color == v,
    {
        Color { color: v }
    }

    /// Reads a color from text such as `#1a2b3c` or `0xff00ff00`: what stands
    /// before the first and after the last hexadecimal digit is dropped, and
    /// what is left must be hexadecimal digits only.
    pub fn parse(s: &str) -> (r: Result<Color, ColorError>)
        ensures
            result_view(r) == Color::spec_parse(s@),
    {
        let cs = chars_of(s);
        let n = cs.len();
        let mut a: usize = 0;
        while a < n && hex_digit(cs[a]).is_none()
            invariant
                a <= n,
                n == cs@.len(),
                forall|i: int| 0 <= i < a ==> !is_hex_digit(#[trigger] cs@[i]),
            decreases n - a,
        {
            a += 1;
        }
        if a == n {
            proof {
                assert forall|x: int, y: int| !#[trigger] is_hex_run(cs@, x, y) by {
                    if is_hex_run(cs@, x, y) {
                        assert(is_hex_digit(cs@[x]));
                    }
                }
            }
            return Err(ColorError::InvalidColorFormat);
        }
        let mut b: usize = n;
        while hex_digit(cs[b - 1]).is_none()
            invariant
                a < b <= n,
                n == cs@.len(),
                is_hex_digit(cs@[a as int]),
                forall|i: int| b <= i < n ==> !is_hex_digit(#[trigger] cs@[i]),
            decreases b,
        {
            b -= 1;
        }
        let mut value: u64 = 0;
        let mut i: usize = a;
        while i < b
            invariant
                a <= i <= b <= n,
                a < b,
                n == cs@.len(),
                cs@ == s@,
                is_hex_digit(cs@[a as int]),
                is_hex_digit(cs@[b - 1]),
                forall|k: int| 0 <= k < a ==> !is_hex_digit(#[trigger] cs@[k]),
                forall|k: int| b <= k < n ==> !is_hex_digit(#[trigger] cs@[k]),
                forall|k: int| a <= k < i ==> is_hex_digit(#[trigger] cs@[k]),
                value == hex_value(cs@.subrange(a as int, i as int)),
                value <= u32::MAX,
            decreases b - i,
        {
            let ghost run = cs@.subrange(a as int, b as int);
            let ghost next = cs@.subrange(a as int, i + 1);
            proof {
                assert(next.drop_last() =~= cs@.subrange(a as int, i as int));
                assert(run.take(i + 1 - a) =~= next);
                lemma_hex_value_prefix(run, i + 1 - a);
            }
            match hex_digit(cs[i]) {
                Some(d) => {
                    let wider: u64 = value * 16 + d as u64;
                    if wider > u32::MAX as u64 {
                        proof {
                            Self::lemma_not_a_color(cs@, a as int, b as int);
                        }
                        return Err(ColorError::InvalidColorFormat);
                    }
                    value = wider;
                },
                None => {
                    proof {
                        assert forall|x: int, y: int| !#[trigger] is_hex_run(cs@, x, y) by {
                            if is_hex_run(cs@, x, y) {
                                assert(is_hex_digit(cs@[x]));
                                assert(is_hex_digit(cs@[y - 1]));
                                assert(x <= a && b <= y);
                                assert(!is_hex_digit(cs@[i as int]));
                            }
                        }
                    }
                    return Err(ColorError::InvalidColorFormat);
                },
            }
            i += 1;
        }
        proof {
            lemma_hex_run_unique(cs@, a as int, b as int);
        }
        Ok(Color { color: value as u32 })
    }

    /// A string whose first and last hexadecimal digits enclose a number that
    /// does not fit in 32 bits writes no color.
    proof fn lemma_not_a_color(s: Seq<char>, a: int, b: int)
        requires
            0 <= a < b <= s.len(),
            is_hex_digit(s[a]),
            is_hex_digit(s[b - 1]),
            forall|i: int| 0 <= i < a ==> !is_hex_digit(#[trigger] s[i]),
            forall|i: int| b <= i < s.len() ==> !is_hex_digit(#[trigger] s[i]),
            hex_value(s.subrange(a, b)) > u32::MAX,
        ensures
            Color::spec_parse(s) == Err::<Color, ColorErrorView>(ColorErrorView::InvalidColorFormat),
    {
        if has_hex_run(s) {
            let (x, y) = choose|x: int, y: int| #[trigger] is_hex_run(s, x, y);
            assert(is_hex_digit(s[x]));
            assert(is_hex_digit(s[y - 1]));
            assert(x == a && y == b);
        }
    }
}

/// A packed color is a number below 2^32, taken as it is, or a string that
/// writes one.
impl FromJson for Color {
    open spec fn decoded(j: JsonValue) -> Result<Color, ShapeError> {
        match j {
            JsonValue::Number(n) => match n.unsigned {
                Some(v) if v <= u32::MAX => Ok(Color { color: v as u32 }),
                _ => Err(ShapeError::TypeMismatch),
            },
            JsonValue::String(s) => match Color::spec_parse(s) {
                Ok(c) => Ok(c),
                Err(e) => Err(e.shape()),
            },
            _ => Err(ShapeError::TypeMismatch),
        }
    }

    fn from_json(j: &Json) -> (r: Result<Color, ShapeError>) {
        match j {
            Json::Number(n) => match n.unsigned {
                Some(v) => if v <= u32::MAX as u64 {
                    Ok(Color { color: v as u32 })
                } else {
                    Err(ShapeError::TypeMismatch)
                },
                None => Err(ShapeError::TypeMismatch),
            },
            Json::String(s) => match Color::parse(s.as_str()) {
                Ok(c) => Ok(c),
                Err(e) => Err(e.shape()),
            },
            _ => Err(ShapeError::TypeMismatch),
        }
    }
}

/// A color of a bar, one byte for each of red, green, blue and opacity.
#[derive(Clone, Copy, Debug, PartialEq, Eq, Hash, Structural)]
pub struct BarConfigColor {
    pub red: u8,
    pub green: u8,
    pub blue: u8,
    pub alpha: u8,
}

impl DeepView for BarConfigColor {
    type V = BarConfigColor;

    open spec fn deep_view(&self) -> BarConfigColor {
        *self
    }
}

/// Whether the two characters of `s` from `at` on are hexadecimal digits.
pub open spec fn is_hex_pair(s: Seq<char>, at: int) -> bool
    recommends
        0 <= at,
        at + 2 <= s.len(),
{
    is_hex_digit(s[at]) && is_hex_digit(s[at + 1])
}

/// The byte that the two hexadecimal digits of `s` from `at` on write.
pub open spec fn hex_pair_value(s: Seq<char>, at: int) -> u8
    recommends
        0 <= at,
        at + 2 <= s.len(),
        is_hex_pair(s, at),
{
    (16 * hex_digit_value(s[at]) + hex_digit_value(s[at + 1])) as u8
}

/// The byte of a pair of digits is the number that the pair writes.
pub proof fn lemma_hex_pair_value(s: Seq<char>, at: int)
    requires
        0 <= at,
        at + 2 <= s.len(),
        is_hex_pair(s, at),
    ensures
        hex_pair_value(s, at) == hex_value(s.subrange(at, at + 2)),
{
    let pair = s.subrange(at, at + 2);
    let head = pair.drop_last();
    assert(hex_value(head.drop_last()) == 0);
    assert(hex_value(head) == hex_digit_value(s[at]));
}

impl BarConfigColor {
    /// The color that `#RRGGBBAA` writes. The first character is not looked
    /// at; the first of the four components that is not two hexadecimal
    /// digits is the one reported.
    pub open spec fn spec_parse(s: Seq<char>) -> Result<BarConfigColor, ColorErrorView> {
        if s.len() != 9 {
            Err(ColorErrorView::InvalidLength(s.len()))
        } else if !is_hex_pair(s, 1) {
            Err(ColorErrorView::InvalidColorComponent(s.subrange(1, 3)))
        } else if !is_hex_pair(s, 3) {
            Err(ColorErrorView::InvalidColorComponent(s.subrange(3, 5)))
        } else if !is_hex_pair(s, 5) {
            Err(ColorErrorView::InvalidColorComponent(s.subrange(5, 7)))
        } else if !is_hex_pair(s, 7) {
            Err(ColorErrorView::InvalidColorComponent(s.subrange(7, 9)))
        } else {
            Ok(
                BarConfigColor {
                    red: hex_pair_value(s, 1),
                    green: hex_pair_value(s, 3),
                    blue: hex_pair_value(s, 5),
                    alpha: hex_pair_value(s, 7),
                },
            )
        }
    }

    /// A string of any length but nine is refused for its length, whatever
    /// it holds.
    pub proof fn lemma_wrong_length(s: Seq<char>)
        requires
            s.len() != 9,
        ensures
            BarConfigColor::spec_parse(s) == Err::<BarConfigColor, ColorErrorView>(
                ColorErrorView::InvalidLength(s.len()),
            ),
    {
    }

    /// A string of nine characters is a color exactly when each of its four
    /// pairs is two hexadecimal digits, and then each component is the number
    /// that its pair writes.
    pub proof fn lemma_nine_characters(s: Seq<char>)
        requires
            s.len() == 9,
        ensures
            BarConfigColor::spec_parse(s) is Ok <==> is_hex_pair(s, 1) && is_hex_pair(s, 3)
                && is_hex_pair(s, 5) && is_hex_pair(s, 7),
            BarConfigColor::spec_parse(s) matches Ok(c) ==> {
                &&& c.red == hex_value(s.subrange(1, 3))
                &&& c.green == hex_value(s.subrange(3, 5))
                &&& c.blue == hex_value(s.subrange(5, 7))
                &&& c.alpha == hex_value(s.subrange(7, 9))
            },
    {
        if BarConfigColor::spec_parse(s) is Ok {
            lemma_hex_pair_value(s, 1);
            lemma_hex_pair_value(s, 3);
            lemma_hex_pair_value(s, 5);
            lemma_hex_pair_value(s, 7);
        }
    }

    /// Reads the two hexadecimal digits of one component.
    fn component(s: &str, cs: &Vec<char>, at: usize) -> (r: Result<u8, ColorError>)
        requires
            cs@ == s@,
            at + 2 <= cs@.len(),
            at <= 7,
        ensures
            is_hex_pair(s@, at as int) ==> r == Ok::<u8, ColorError>(hex_pair_value(s@, at as int)),
            !is_hex_pair(s@, at as int) ==> r is Err && r->Err_0@
                == ColorErrorView::InvalidColorComponent(s@.subrange(at as int, at + 2)),
    {
        match (hex_digit(cs[at]), hex_digit(cs[at + 1])) {
            (Some(high), Some(low)) => Ok(high * 16 + low),
            _ => Err(ColorError::InvalidColorComponent(s.substring_char(at, at + 2).to_owned())),
        }
    }

    /// Reads a color written as `#RRGGBBAA`.
    pub fn parse(s: &str) -> (r: Result<BarConfigColor, ColorError>)
        ensures
            result_view(r) == BarConfigColor::spec_parse(s@),
    {
        let cs = chars_of(s);
        if cs.len() != 9 {
            return Err(ColorError::InvalidLength(cs.len()));
        }
        let red = BarConfigColor::component(s, &cs, 1)?;
        let green = BarConfigColor::component(s, &cs, 3)?;
        let blue = BarConfigColor::component(s, &cs, 5)?;
        let alpha = BarConfigColor::component(s, &cs, 7)?;
        Ok(BarConfigColor { red, green, blue, alpha })
    }
}

/// A color of a bar is a string, written as `#RRGGBBAA`.
impl FromJson for BarConfigColor {
    open spec fn decoded(j: JsonValue) -> Result<BarConfigColor, ShapeError> {
        match j {
            JsonValue::String(s) => match BarConfigColor::spec_parse(s) {
                Ok(c) => Ok(c),
                Err(e) => Err(e.shape()),
            },
            _ => Err(ShapeError::TypeMismatch),
        }
    }

    fn from_json(j: &Json) -> (r: Result<BarConfigColor, ShapeError>) {
        match j {
            Json::String(s) => match BarConfigColor::parse(s.as_str()) {
                Ok(c) => Ok(c),
                Err(e) => Err(e.shape()),
            },
            _ => Err(ShapeError::TypeMismatch),
        }
    }
}

} // verus!
