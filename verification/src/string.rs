use vstd::prelude::*;
use vstd::string::*;
use vstd::slice::slice_subrange;
use vstd::utf8::{decode_utf8, encode_utf8, valid_utf8};

use crate::result::{Error, Result};

verus! {

/// A string in the form the host reads: bytes up to a terminating NUL.
///
/// `Static` holds a literal that carries its terminator as its last
/// character; `Dynamic` holds text without any NUL, the terminator being
/// added when the string crosses to the host.
#[derive(Debug, Clone, PartialEq, Eq, Hash)]
pub enum ObsString {
    Static(&'static str),
    Dynamic(String),
}

/// Whether `bytes` holds a NUL byte.
pub open spec fn has_nul(bytes: Seq<u8>) -> bool {
    exists|i: int| 0 <= i < bytes.len() && bytes[i] == 0u8
}

/// Whether `i` is the offset of the first NUL byte of `bytes`.
pub open spec fn first_nul_at(bytes: Seq<u8>, i: int) -> bool {
    &&& 0 <= i < bytes.len()
    &&& bytes[i] == 0u8
    &&& forall|j: int| 0 <= j < i ==> bytes[j] != 0u8
}

/// The offset of the first NUL byte of `bytes`, if it holds one.
pub fn find_nul(bytes: &[u8]) -> (r: Option<usize>)
    ensures
        r is None <==> !has_nul(bytes@),
        r matches Some(i) ==> first_nul_at(bytes@, i as int),
{
    let mut i: usize = 0;
    while i < bytes.len()
        invariant
            i <= bytes.len(),
            forall|j: int| 0 <= j < i ==> bytes@[j] != 0u8,
        decreases bytes.len() - i,
    {
        if bytes[i] == 0 {
            return Some(i);
        }
        i += 1;
    }
    None
}

impl ObsString {
    /// The string is terminated exactly once: a literal ends in its only
    /// NUL, owned text holds none.
    pub open spec fn wf(&self) -> bool {
        match self {
            ObsString::Static(s) => first_nul_at(encode_utf8(s@), encode_utf8(s@).len() - 1),
            ObsString::Dynamic(s) => !has_nul(encode_utf8(s@)),
        }
    }

    /// The characters as stored, a literal's terminator included.
    pub open spec fn stored(&self) -> Seq<char> {
        match self {
            ObsString::Static(s) => s@,
            ObsString::Dynamic(s) => s@,
        }
    }

    /// Wraps a literal that already ends in NUL. Nothing is checked:
    /// [`ObsString::is_terminated`] tells whether the literal keeps the promise.
    pub fn from_nul_terminted_str(string: &'static str) -> (r: Self)
        ensures
            r == ObsString::Static(string),
    {
        Self::Static(string)
    }

    /// Whether the string is terminated exactly once.
    pub fn is_terminated(&self) -> (r: bool)
        ensures
            r == self.wf(),
    {
        match self {
            ObsString::Static(s) => {
                let bytes = s.as_bytes();
                match find_nul(bytes) {
                    Some(i) => i == bytes.len() - 1,
                    None => false,
                }
            },
            ObsString::Dynamic(s) => find_nul(s.as_str().as_bytes()).is_none(),
        }
    }

    pub fn as_str(&self) -> (r: &str)
        ensures
            r@ == self.stored(),
    {
        match self {
            ObsString::Static(s) => s,
            ObsString::Dynamic(s) => s.as_str(),
        }
    }
}

/// Conversion into an [`ObsString`] that reports an interior NUL instead of
/// failing.
pub trait TryIntoObsString {
    fn try_into_obs_string(self) -> Result<ObsString>;
}

impl TryIntoObsString for &str {
    fn try_into_obs_string(self) -> (r: Result<ObsString>)
        ensures
            r is Ok <==> !has_nul(encode_utf8(self@)),
            r matches Ok(s) ==> s.wf() && s is Dynamic && s.stored() == self@,
            r matches Err(e) ==> e matches Error::NulError(i) && first_nul_at(
                encode_utf8(self@),
                i as int,
            ),
    {
        match find_nul(self.as_bytes()) {
            Some(i) => Err(Error::NulError(i)),
            None => {
                let owned = String::from_str(self);
                Ok(ObsString::Dynamic(owned))
            },
        }
    }
}

impl TryIntoObsString for String {
    fn try_into_obs_string(self) -> (r: Result<ObsString>)
        ensures
            r is Ok <==> !has_nul(encode_utf8(self@)),
            r matches Ok(s) ==> s == ObsString::Dynamic(self),
            r matches Err(e) ==> e matches Error::NulError(i) && first_nul_at(
                encode_utf8(self@),
                i as int,
            ),
    {
        match find_nul(self.as_str().as_bytes()) {
            Some(i) => Err(Error::NulError(i)),
            None => Ok(ObsString::Dynamic(self)),
        }
    }
}

/// `std::str::from_utf8`: the bytes as text where they are UTF-8, and
/// otherwise the length of the longest prefix that is.
#[verifier::external_body]
fn str_from_utf8(bytes: &[u8]) -> (r: Result<&str, usize>)
    ensures
        r is Ok <==> valid_utf8(bytes@),
        r matches Ok(text) ==> text@ == decode_utf8(bytes@),
        r matches Err(upto) ==> upto <= bytes@.len() && valid_utf8(bytes@.take(upto as int))
            && forall|longer: int|
            upto < longer <= bytes@.len() ==> !valid_utf8(#[trigger] bytes@.take(longer)),
{
    match std::str::from_utf8(bytes) {
        Ok(text) => Ok(text),
        Err(e) => Err(e.valid_up_to()),
    }
}

/// The bytes of a string of the host as the host hands them over: up to
/// the first NUL, or all of them where there is none.
pub open spec fn until_nul(bytes: Seq<u8>) -> Seq<u8> {
    if has_nul(bytes) {
        bytes.take(choose|i: int| first_nul_at(bytes, i))
    } else {
        bytes
    }
}

impl TryIntoObsString for Option<&[u8]> {
    /// Reads a string of the host. A null string is an error, and so is
    /// one whose bytes before the terminator are not UTF-8; the error names
    /// the offset at which they stop being so.
    fn try_into_obs_string(self) -> (r: Result<ObsString>)
        ensures
            self is None ==> r == Err::<ObsString, Error>(Error::NulPointer("ObsString")),
            self matches Some(bytes) ==> (r is Ok <==> valid_utf8(until_nul(bytes@))),
            self matches Some(bytes) ==> (r matches Ok(s) ==> s.wf() && s is Dynamic && s.stored()
                == decode_utf8(until_nul(bytes@))),
            self matches Some(bytes) ==> (r matches Err(e) ==> e matches Error::Utf8Error(upto)
                && upto <= until_nul(bytes@).len() && valid_utf8(
                until_nul(bytes@).take(upto as int),
            ) && forall|longer: int|
                upto < longer <= until_nul(bytes@).len() ==> !valid_utf8(
                    #[trigger] until_nul(bytes@).take(longer),
                )),
    {
        broadcast use vstd::utf8::decode_utf8_encode_utf8;

        let bytes = match self {
            Some(bytes) => bytes,
            None => {
                return Err(Error::NulPointer("ObsString"));
            },
        };
        let end = match find_nul(bytes) {
            Some(i) => i,
            None => bytes.len(),
        };
        let text = slice_subrange(bytes, 0, end);
        proof {
            if has_nul(bytes@) {
                let chosen = choose|i: int| first_nul_at(bytes@, i);
                assert(first_nul_at(bytes@, end as int));
                assert(chosen == end) by {
                    if chosen < end {
                        assert(bytes@[chosen] != 0u8);
                    } else if end < chosen {
                        assert(bytes@[end as int] != 0u8);
                    }
                }
            }
            assert(text@ =~= until_nul(bytes@));
        }
        match str_from_utf8(text) {
            Ok(valid) => {
                let owned = String::from_str(valid);
                proof {
                    assert(encode_utf8(owned@) == text@);
                    assert(!has_nul(text@));
                }
                Ok(ObsString::Dynamic(owned))
            },
            Err(upto) => Err(Error::Utf8Error(upto)),
        }
    }
}

/// A value wrapped for showing it to people.
#[derive(Debug)]
pub struct DisplayStr<'a, T>(pub &'a T);

/// Values that can be shown to people.
pub trait DisplayExt: Sized {
    fn display(&self) -> (r: DisplayStr<'_, Self>)
        ensures
            *r.0 == *self,
    {
        DisplayStr(self)
    }
}

impl DisplayExt for ObsString {

}

impl DisplayExt for Option<ObsString> {

}

impl<'a> DisplayExt for Option<&'a ObsString> {

}

impl DisplayExt for Result<ObsString> {

}

impl ObsString {
    /// The text of the string: what is stored, without the terminator of a
    /// literal.
    pub open spec fn text(&self) -> Seq<char> {
        match self {
            ObsString::Static(s) => if s@.len() > 0 {
                s@.drop_last()
            } else {
                s@
            },
            ObsString::Dynamic(s) => s@,
        }
    }

    /// The text of the string as an owned string.
    pub fn to_text(&self) -> (r: String)
        ensures
            r@ == self.text(),
    {
        match self {
            ObsString::Static(s) => {
                let n = s.unicode_len();
                if n == 0 {
                    return String::from_str(s);
                }
                let cut = s.substring_char(0, n - 1);
                assert(cut@ =~= s@.drop_last());
                String::from_str(cut)
            },
            ObsString::Dynamic(s) => s.clone(),
        }
    }
}

impl DisplayStr<'_, ObsString> {
    /// The text of the string.
    pub fn to_string(&self) -> (r: String)
        ensures
            r@ == self.0.text(),
    {
        self.0.to_text()
    }
}

impl DisplayStr<'_, Option<ObsString>> {
    /// The text of the string, or `<null>` where there is none.
    pub fn to_string(&self) -> (r: String)
        ensures
            r@ == match *self.0 {
                Some(s) => s.text(),
                None => "<null>"@,
            },
    {
        match self.0 {
            Some(s) => s.to_text(),
            None => String::from_str("<null>"),
        }
    }
}

impl<'a> DisplayStr<'_, Option<&'a ObsString>> {
    /// The text of the string, or `<null>` where there is none.
    pub fn to_string(&self) -> (r: String)
        ensures
            r@ == match *self.0 {
                Some(s) => s.text(),
                None => "<null>"@,
            },
    {
        match self.0 {
            Some(s) => s.to_text(),
            None => String::from_str("<null>"),
        }
    }
}

impl DisplayStr<'_, Result<ObsString>> {
    /// The text of the string, or `Error` where there is an error in its
    /// place.
    pub fn to_string(&self) -> (r: String)
        ensures
            r@ == match *self.0 {
                Ok(s) => s.text(),
                Err(_) => "Error"@,
            },
    {
        match self.0 {
            Ok(s) => s.to_text(),
            Err(_) => String::from_str("Error"),
        }
    }
}

/// The character of the decimal digit `d`.
pub open spec fn digit_char(d: int) -> char
    recommends
        0 <= d < 10,
{
    ('0' as u8 + d as u8) as char
}

/// The decimal digits of `n`, the most significant first, without leading
/// zeros; a single `0` for zero.
pub open spec fn decimal_digits(n: nat) -> Seq<char>
    decreases n,
{
    if n < 10 {
        seq![digit_char(n as int)]
    } else {
        decimal_digits(n / 10).push(digit_char((n % 10) as int))
    }
}

/// The decimal form of `value`: a minus sign for a negative number, then
/// the digits of its magnitude.
pub open spec fn decimal(value: int) -> Seq<char> {
    if value < 0 {
        seq!['-'] + decimal_digits((-value) as nat)
    } else {
        decimal_digits(value as nat)
    }
}

/// `String::push` appends the character to the end of the string.
pub assume_specification[ std::string::String::push ](s: &mut std::string::String, c: char)
    ensures
        final(s)@ == old(s)@.push(c),
;

/// The text of the digits in `digits`, which holds them the least
/// significant first.
fn reversed(digits: &Vec<char>) -> (r: String)
    ensures
        r@ == digits@.reverse(),
{
    let mut r = String::new();
    let mut i: usize = digits.len();
    while i > 0
        invariant
            i <= digits@.len(),
            r@ == digits@.subrange(i as int, digits@.len() as int).reverse(),
        decreases i,
    {
        i -= 1;
        r.push(digits[i]);
        proof {
            let tail = digits@.subrange(i as int, digits@.len() as int);
            let rest = digits@.subrange(i + 1, digits@.len() as int);
            assert(tail.reverse() =~= rest.reverse().push(digits@[i as int]));
        }
    }
    assert(digits@.subrange(0, digits@.len() as int) =~= digits@);
    r
}

/// Writes `value` in decimal.
pub fn to_decimal(value: i64) -> (r: String)
    ensures
        r@ == decimal(value as int),
{
    let negative = value < 0;
    // The magnitude of the least `i64` does not fit an `i64`.
    let mut rest: u64 = if negative {
        (-(value + 1)) as u64 + 1
    } else {
        value as u64
    };
    let ghost magnitude = rest as nat;
    let mut digits: Vec<char> = Vec::new();
    loop
        invariant_except_break
            decimal_digits(magnitude) == decimal_digits(rest as nat) + digits@.reverse(),
        ensures
            decimal_digits(magnitude) == digits@.reverse(),
        decreases rest,
    {
        let d = (rest % 10) as u8;
        let c = (48u8 + d) as char;
        assert(c == digit_char((rest % 10) as int));
        let ghost before = digits@;
        digits.push(c);
        proof {
            assert(digits@.reverse() =~= seq![c] + before.reverse());
        }
        if rest < 10 {
            proof {
                assert(decimal_digits(rest as nat) =~= seq![c]);
                assert(decimal_digits(magnitude) =~= digits@.reverse());
            }
            break ;
        }
        proof {
            assert(decimal_digits(rest as nat) =~= decimal_digits((rest / 10) as nat).push(c));
            assert(decimal_digits(magnitude) =~= decimal_digits((rest / 10) as nat)
                + digits@.reverse());
        }
        rest = rest / 10;
    }
    let body = reversed(&digits);
    if negative {
        let mut r = String::from_str("-");
        proof {
            reveal_strlit("-");
            assert("-"@ =~= seq!['-']);
        }
        r.append(body.as_str());
        r
    } else {
        body
    }
}

} // verus!
