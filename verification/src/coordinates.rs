//! Points on the globe, held as the decimal numbers that name them.
//!
//! An angle is kept as it was written: an optional minus sign, one or more
//! digits and, optionally, a point followed by one or more digits. Nothing is
//! rounded, and what was read is what is written back.

use vstd::prelude::*;
use vstd::std_specs::cmp::PartialEqSpecImpl;
use crate::error::ConstructionError;

verus! {

/// Whether `c` is one of the digits `0` to `9`.
pub open spec fn is_digit(c: char) -> bool {
    '0' <= c <= '9'
}

/// The number of digits with which `s` begins.
pub open spec fn leading_digits(s: Seq<char>) -> nat
    decreases s.len(),
{
    if s.len() > 0 && is_digit(s[0]) {
        1 + leading_digits(s.skip(1))
    } else {
        0
    }
}

/// `s` without its minus sign, if it begins with one.
pub open spec fn magnitude(s: Seq<char>) -> Seq<char> {
    if s.len() > 0 && s[0] == '-' {
        s.skip(1)
    } else {
        s
    }
}

/// The digits of `s` before its point.
pub open spec fn whole(s: Seq<char>) -> Seq<char> {
    magnitude(s).take(leading_digits(magnitude(s)) as int)
}

/// What follows the whole digits of `s`: nothing, or a point and what is
/// behind it.
pub open spec fn tail(s: Seq<char>) -> Seq<char> {
    magnitude(s).skip(leading_digits(magnitude(s)) as int)
}

/// What stands behind the point of `s`.
pub open spec fn fraction(s: Seq<char>) -> Seq<char> {
    if tail(s).len() > 0 {
        tail(s).skip(1)
    } else {
        Seq::empty()
    }
}

/// Whether `s` is a decimal number: an optional minus sign, one or more
/// digits and, optionally, a point followed by one or more digits.
pub open spec fn is_decimal(s: Seq<char>) -> bool {
    &&& whole(s).len() > 0
    &&& tail(s).len() > 0 ==> {
        &&& tail(s)[0] == '.'
        &&& fraction(s).len() > 0
        &&& leading_digits(fraction(s)) == fraction(s).len()
    }
}

/// What the digit `c` counts.
pub open spec fn digit(c: char) -> nat {
    if is_digit(c) {
        (c as int - '0' as int) as nat
    } else {
        0
    }
}

/// The number that the digits `s` write in base ten.
pub open spec fn number(s: Seq<char>) -> nat
    decreases s.len(),
{
    if s.len() == 0 {
        0
    } else {
        number(s.drop_last()) * 10 + digit(s.last())
    }
}

/// Ten to the power `n`.
pub open spec fn pow10(n: nat) -> nat
    decreases n,
{
    if n == 0 {
        1
    } else {
        10 * pow10((n - 1) as nat)
    }
}

/// Whether the decimal number `s` lies between `-limit` and `limit`: with `k`
/// digits behind the point, its digits write at most `limit` times ten to the
/// `k`.
pub open spec fn within(s: Seq<char>, limit: nat) -> bool {
    number(whole(s) + fraction(s)) <= limit * pow10(fraction(s).len())
}

/// Whether `s` is a decimal number of degrees between `-limit` and `limit`.
pub open spec fn is_angle(s: Seq<char>, limit: nat) -> bool {
    is_decimal(s) && within(s, limit)
}

/// The greatest latitude, in degrees.
pub const MAX_LATITUDE: u32 = 90;

/// The greatest longitude, in degrees.
pub const MAX_LONGITUDE: u32 = 180;

/// A text begins with `n` digits where its first `n` characters are digits and
/// the next one, if there is one, is none.
proof fn lemma_leading_digits(s: Seq<char>, n: nat)
    requires
        n <= s.len(),
        forall|i: int| 0 <= i < n ==> is_digit(#[trigger] s[i]),
        n < s.len() ==> !is_digit(s[n as int]),
    ensures
        leading_digits(s) == n,
    decreases n,
{
    if n > 0 {
        let rest = s.skip(1);
        assert forall|i: int| 0 <= i < n - 1 implies is_digit(#[trigger] rest[i]) by {
            assert(rest[i] == s[i + 1]);
        }
        lemma_leading_digits(rest, (n - 1) as nat);
    }
}

/// The characters that `leading_digits` counts are digits.
proof fn lemma_leading_are_digits(s: Seq<char>)
    ensures
        leading_digits(s) <= s.len(),
        forall|i: int| 0 <= i < leading_digits(s) ==> is_digit(#[trigger] s[i]),
    decreases s.len(),
{
    if s.len() > 0 && is_digit(s[0]) {
        let rest = s.skip(1);
        lemma_leading_are_digits(rest);
        assert forall|i: int| 0 <= i < leading_digits(s) implies is_digit(#[trigger] s[i]) by {
            if i > 0 {
                assert(rest[i - 1] == s[i]);
            }
        }
    }
}

/// A decimal number is written in ASCII.
pub proof fn lemma_decimal_is_ascii(s: Seq<char>)
    requires
        is_decimal(s),
    ensures
        vstd::utf8::is_ascii_chars(s),
{
    let m = magnitude(s);
    let run = leading_digits(m) as int;
    lemma_leading_are_digits(m);
    lemma_leading_are_digits(fraction(s));
    let sign: int = s.len() - m.len();
    assert forall|i: int| 0 <= i < s.len() implies '\0' <= #[trigger] s[i] <= '\u{7f}' by {
        if i < sign {
            assert(s[i] == '-');
        } else if i - sign < run {
            assert(m[i - sign] == s[i]);
        } else if i - sign == run {
            assert(tail(s)[0] == s[i]);
        } else {
            assert(fraction(s)[i - sign - run - 1] == s[i]);
        }
    }
}

/// The digits of two texts written one after the other.
proof fn lemma_number_concat(a: Seq<char>, b: Seq<char>)
    ensures
        number(a + b) == number(a) * pow10(b.len()) + number(b),
    decreases b.len(),
{
    if b.len() == 0 {
        assert(a + b =~= a);
        assert(number(a) * pow10(0) == number(a)) by (nonlinear_arith)
            requires
                pow10(0) == 1,
        ;
    } else {
        let front = b.drop_last();
        assert((a + b).drop_last() =~= a + front);
        assert((a + b).last() == b.last());
        lemma_number_concat(a, front);
        let x = number(a);
        let p = pow10(front.len());
        let f = number(front);
        assert(number(a + b) == number(a + front) * 10 + digit(b.last()));
        assert(number(b) == f * 10 + digit(b.last()));
        assert(pow10(b.len()) == 10 * p);
        assert((x * p + f) * 10 == x * (10 * p) + f * 10) by (nonlinear_arith);
        assert(number(a + b) == x * pow10(b.len()) + number(b));
    }
}

/// `k` digits write less than ten to the `k`.
proof fn lemma_number_bound(s: Seq<char>)
    requires
        forall|i: int| 0 <= i < s.len() ==> is_digit(#[trigger] s[i]),
    ensures
        number(s) < pow10(s.len()),
    decreases s.len(),
{
    if s.len() > 0 {
        let front = s.drop_last();
        assert forall|i: int| 0 <= i < front.len() implies is_digit(#[trigger] front[i]) by {
            assert(front[i] == s[i]);
        }
        lemma_number_bound(front);
        assert(is_digit(s[s.len() - 1]));
    }
}

/// A number with whole part `w` and `f` behind the point, `f` less than the
/// power `p`, is at most `limit` where `w` is less, or is `limit` with nothing
/// behind the point.
proof fn lemma_compare_scaled(w: nat, f: nat, p: nat, limit: nat)
    requires
        f < p,
    ensures
        (w * p + f <= limit * p) == (w < limit || (w == limit && f == 0)),
{
    if w < limit {
        assert(w * p + p <= limit * p) by (nonlinear_arith)
            requires
                w + 1 <= limit,
        ;
    } else if w > limit {
        assert(w * p >= limit * p + p) by (nonlinear_arith)
            requires
                w >= limit + 1,
        ;
    }
}

/// A decimal number lies within `limit` exactly where its whole part is less
/// than `limit`, or is `limit` with nothing but zeros behind the point.
pub proof fn lemma_within_by_parts(s: Seq<char>, limit: nat)
    requires
        is_decimal(s),
    ensures
        within(s, limit) == (number(whole(s)) < limit || (number(whole(s)) == limit && number(
            fraction(s),
        ) == 0)),
{
    let f = fraction(s);
    lemma_leading_are_digits(f);
    lemma_number_concat(whole(s), f);
    lemma_number_bound(f);
    lemma_compare_scaled(number(whole(s)), number(f), pow10(f.len()), limit);
}

/// The bytes of `text` where it is written in ASCII.
fn ascii_bytes(text: &str) -> (bytes: Option<&[u8]>)
    ensures
        match bytes {
            Some(b) => same_codes(b@, text@),
            None => !vstd::utf8::is_ascii_chars(text@),
        },
{
    if text.is_ascii() {
        let bytes = text.as_bytes();
        proof {
            vstd::string::is_ascii_spec_bytes(text);
            assert(bytes@.len() == text@.len());
            assert forall|i: int| 0 <= i < bytes@.len() implies #[trigger] bytes@[i]
                == text@[i] as int by {
                assert('\0' <= text@[i] <= '\u{7f}');
                assert(bytes@[i] == text@[i] as u8);
            }
        }
        Some(bytes)
    } else {
        None
    }
}

/// Whether the bytes `b` are the characters `s`, code by code.
spec fn same_codes(b: Seq<u8>, s: Seq<char>) -> bool {
    &&& b.len() == s.len()
    &&& forall|i: int| 0 <= i < b.len() ==> #[trigger] b[i] == s[i] as int
}

/// Whether the characters of `s` from `from` up to `end` are digits.
spec fn digits_between(s: Seq<char>, from: int, end: int) -> bool {
    &&& 0 <= from <= end <= s.len()
    &&& forall|i: int| from <= i < end ==> is_digit(#[trigger] s[i])
}

/// Where the digits that begin at `from` end.
fn digits_end(bytes: &[u8], from: usize, Ghost(s): Ghost<Seq<char>>) -> (end: usize)
    requires
        same_codes(bytes@, s),
        from <= bytes@.len(),
    ensures
        digits_between(s, from as int, end as int),
        end < s.len() ==> !is_digit(s[end as int]),
{
    let mut end: usize = from;
    while end < bytes.len() && 48 <= bytes[end] && bytes[end] <= 57
        invariant
            same_codes(bytes@, s),
            digits_between(s, from as int, end as int),
        decreases bytes@.len() - end,
    {
        end += 1;
    }
    end
}

/// The number that the digits from `from` up to `end` write, unless it is
/// above `limit`.
fn number_up_to(
    bytes: &[u8],
    from: usize,
    end: usize,
    limit: u32,
    Ghost(s): Ghost<Seq<char>>,
) -> (value: Option<u32>)
    requires
        same_codes(bytes@, s),
        digits_between(s, from as int, end as int),
        limit <= 1000,
    ensures
        match value {
            Some(n) => n == number(s.subrange(from as int, end as int)) && n <= limit,
            None => number(s.subrange(from as int, end as int)) > limit,
        },
{
    let mut i: usize = from;
    let mut value: u32 = 0;
    let mut over: bool = false;
    while i < end
        invariant
            same_codes(bytes@, s),
            digits_between(s, from as int, end as int),
            from <= i <= end,
            limit <= 1000,
            over ==> number(s.subrange(from as int, i as int)) > limit,
            !over ==> value == number(s.subrange(from as int, i as int)) && value <= limit,
        decreases end - i,
    {
        proof {
            let now = s.subrange(from as int, i + 1);
            assert(now.drop_last() =~= s.subrange(from as int, i as int));
            assert(now.last() == s[i as int]);
            assert(is_digit(s[i as int]));
        }
        if !over {
            value = value * 10 + (bytes[i] - 48) as u32;
            if value > limit {
                over = true;
            }
        }
        i += 1;
    }
    if over {
        None
    } else {
        Some(value)
    }
}

/// Whether the digits from `from` up to `end` write zero.
fn writes_zero(bytes: &[u8], from: usize, end: usize, Ghost(s): Ghost<Seq<char>>) -> (zero: bool)
    requires
        same_codes(bytes@, s),
        digits_between(s, from as int, end as int),
    ensures
        zero == (number(s.subrange(from as int, end as int)) == 0),
{
    let mut i: usize = from;
    let mut zero: bool = true;
    while i < end
        invariant
            same_codes(bytes@, s),
            digits_between(s, from as int, end as int),
            from <= i <= end,
            zero == (number(s.subrange(from as int, i as int)) == 0),
        decreases end - i,
    {
        proof {
            let now = s.subrange(from as int, i + 1);
            assert(now.drop_last() =~= s.subrange(from as int, i as int));
            assert(now.last() == s[i as int]);
            assert(is_digit(s[i as int]));
        }
        if bytes[i] != 48 {
            zero = false;
        }
        i += 1;
    }
    zero
}

/// How a text splits where it has digits from `start` up to `point` and none
/// at `point`, with `start` behind its minus sign, if it has one.
proof fn lemma_parts(s: Seq<char>, start: int, point: int)
    requires
        digits_between(s, start, point),
        point < s.len() ==> !is_digit(s[point]),
        start == if s.len() > 0 && s[0] == '-' { 1int } else { 0int },
    ensures
        whole(s) == s.subrange(start, point),
        tail(s) == s.skip(point),
        point < s.len() ==> fraction(s) == s.skip(point + 1),
        point == s.len() ==> fraction(s) == Seq::<char>::empty(),
{
    let m = magnitude(s);
    assert(m =~= s.skip(start));
    assert forall|i: int| 0 <= i < point - start implies is_digit(#[trigger] m[i]) by {
        assert(m[i] == s[start + i]);
    }
    assert(point < s.len() ==> m[point - start] == s[point]);
    lemma_leading_digits(m, (point - start) as nat);
    assert(whole(s) =~= s.subrange(start, point));
    assert(tail(s) =~= s.skip(point));
    if point < s.len() {
        assert(fraction(s) =~= s.skip(point + 1));
    }
}

/// Whether `text` is a decimal number of degrees between `-limit` and
/// `limit`.
fn is_angle_text(text: &str, limit: u32) -> (ok: bool)
    requires
        limit <= 1000,
    ensures
        ok == is_angle(text@, limit as nat),
{
    let ghost s = text@;
    let bytes = match ascii_bytes(text) {
        Some(b) => b,
        None => {
            proof {
                if is_decimal(s) {
                    lemma_decimal_is_ascii(s);
                }
            }
            return false;
        },
    };
    let len = bytes.len();
    let start: usize = if len > 0 && bytes[0] == 45 {
        1
    } else {
        0
    };
    assert(len > 0 ==> bytes@[0] == s[0] as int);
    let point = digits_end(bytes, start, Ghost(s));
    proof {
        lemma_parts(s, start as int, point as int);
    }
    if point == start {
        return false;
    }
    let value = number_up_to(bytes, start, point, limit, Ghost(s));
    if point == len {
        proof {
            lemma_within_by_parts(s, limit as nat);
        }
        return value.is_some();
    }
    assert(tail(s)[0] == s[point as int]);
    if bytes[point] != 46 {
        return false;
    }
    let ghost f = fraction(s);
    let end = digits_end(bytes, point + 1, Ghost(s));
    proof {
        assert forall|i: int| 0 <= i < end - point - 1 implies is_digit(#[trigger] f[i]) by {
            assert(f[i] == s[point + 1 + i]);
        }
        assert(end < len ==> f[end - point - 1] == s[end as int]);
        lemma_leading_digits(f, (end - point - 1) as nat);
    }
    if end == point + 1 || end < len {
        return false;
    }
    let zero = writes_zero(bytes, point + 1, end, Ghost(s));
    proof {
        assert(s.subrange(point + 1, end as int) =~= f);
        lemma_within_by_parts(s, limit as nat);
    }
    match value {
        Some(n) => n < limit || zero,
        None => false,
    }
}

/// A point on the globe: a latitude between -90 and 90 degrees and a
/// longitude between -180 and 180 degrees, each a decimal number held as it
/// was written.
#[derive(Debug)]
pub struct Coordinates {
    latitude: String,
    longitude: String,
}

impl Coordinates {
    #[verifier::type_invariant]
    spec fn on_the_globe(&self) -> bool {
        &&& is_angle(self.latitude@, MAX_LATITUDE as nat)
        &&& is_angle(self.longitude@, MAX_LONGITUDE as nat)
    }

    /// The latitude, in decimal degrees, as it was written.
    pub closed spec fn latitude_text(&self) -> Seq<char> {
        self.latitude@
    }

    /// The longitude, in decimal degrees, as it was written.
    pub closed spec fn longitude_text(&self) -> Seq<char> {
        self.longitude@
    }

    /// The coordinate as the service reads it: latitude, comma, longitude.
    pub open spec fn text(&self) -> Seq<char> {
        self.latitude_text() + seq![','] + self.longitude_text()
    }

    /// Why two texts are no coordinate: the latitude where it is no angle of
    /// up to 90 degrees, else the longitude where it is no angle of up to 180
    /// degrees, else nothing.
    pub open spec fn refusal(latitude: Seq<char>, longitude: Seq<char>) -> Option<
        ConstructionError,
    > {
        if !is_angle(latitude, MAX_LATITUDE as nat) {
            Some(ConstructionError::Latitude)
        } else if !is_angle(longitude, MAX_LONGITUDE as nat) {
            Some(ConstructionError::Longitude)
        } else {
            None
        }
    }

    /// The point with the given latitude and longitude, where both are
    /// decimal numbers in their ranges.
    pub fn try_new(latitude: &str, longitude: &str) -> (made: Result<Coordinates, ConstructionError>)
        ensures
            match made {
                Ok(point) => {
                    &&& Coordinates::refusal(latitude@, longitude@).is_none()
                    &&& point.latitude_text() == latitude@
                    &&& point.longitude_text() == longitude@
                },
                Err(reason) => Coordinates::refusal(latitude@, longitude@) == Some(reason),
            },
    {
        if !is_angle_text(latitude, MAX_LATITUDE) {
            Err(ConstructionError::Latitude)
        } else if !is_angle_text(longitude, MAX_LONGITUDE) {
            Err(ConstructionError::Longitude)
        } else {
            Ok(Coordinates { latitude: String::from_str(latitude), longitude: String::from_str(longitude) })
        }
    }

    /// The latitude, in decimal degrees: a decimal number between -90 and 90.
    pub fn latitude(&self) -> (text: &str)
        ensures
            text@ == self.latitude_text(),
            is_angle(text@, MAX_LATITUDE as nat),
    {
        proof {
            use_type_invariant(self);
        }
        self.latitude.as_str()
    }

    /// The longitude, in decimal degrees: a decimal number between -180 and
    /// 180.
    pub fn longitude(&self) -> (text: &str)
        ensures
            text@ == self.longitude_text(),
            is_angle(text@, MAX_LONGITUDE as nat),
    {
        proof {
            use_type_invariant(self);
        }
        self.longitude.as_str()
    }

    /// The coordinate as the service reads it: latitude, comma, longitude.
    pub fn to_string(&self) -> (text: String)
        ensures
            text@ == self.text(),
    {
        proof {
            reveal_strlit(",");
            use_type_invariant(self);
        }
        let mut text = self.latitude.clone();
        text.append(",");
        text.append(self.longitude.as_str());
        assert(text@ =~= self.text());
        text
    }
}

impl Clone for Coordinates {
    fn clone(&self) -> (copy: Self)
        ensures
            copy == *self,
    {
        proof {
            use_type_invariant(self);
        }
        Coordinates { latitude: self.latitude.clone(), longitude: self.longitude.clone() }
    }
}

impl PartialEq for Coordinates {
    /// Two points are equal where both of their numbers are written alike.
    fn eq(&self, other: &Self) -> (same: bool) {
        self.latitude == other.latitude && self.longitude == other.longitude
    }
}

impl PartialEqSpecImpl for Coordinates {
    open spec fn obeys_eq_spec() -> bool {
        true
    }

    open spec fn eq_spec(&self, other: &Self) -> bool {
        &&& self.latitude_text() == other.latitude_text()
        &&& self.longitude_text() == other.longitude_text()
    }
}

impl Eq for Coordinates {

}

/// A bounding box, given by two of its corners.
#[derive(Debug, PartialEq, Eq)]
pub struct Viewport {
    /// The northeast corner of the box.
    pub northeast: Coordinates,
    /// The southwest corner of the box.
    pub southwest: Coordinates,
}

impl Viewport {
    /// The box as the service reads it: the southwest corner, `|`, the
    /// northeast corner.
    pub open spec fn text(&self) -> Seq<char> {
        self.southwest.text() + seq!['|'] + self.northeast.text()
    }

    /// The box as the service reads it: the southwest corner, `|`, the
    /// northeast corner.
    pub fn to_string(&self) -> (text: String)
        ensures
            text@ == self.text(),
    {
        proof {
            reveal_strlit("|");
        }
        let mut text = self.southwest.to_string();
        text.append("|");
        text.append(self.northeast.to_string().as_str());
        assert(text@ =~= self.text());
        text
    }
}

impl Clone for Viewport {
    fn clone(&self) -> (copy: Self)
        ensures
            copy == *self,
    {
        Viewport { northeast: self.northeast.clone(), southwest: self.southwest.clone() }
    }
}

} // verus!
