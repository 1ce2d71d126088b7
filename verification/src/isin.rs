//! Security identifiers and named securities.
//!
//! A security identifier is a 12-character string: a 2-character country
//! code, a 9-character national number, and one decimal check digit.  It
//! is only built by a validating parse, and parsing and formatting
//! round-trip exactly.  A named security couples a non-empty display name
//! with an identifier and the time it was observed; its identity — and so
//! its equality — ignores the observation time.

use vstd::prelude::*;
use crate::dates::{DateTime, now_utc};
use crate::text::{is_digit, digit_val, str_chars, chars_to_string, push_char, copy_range};

verus! {

/// The character for decimal digit `d`.
pub open spec fn digit_char(d: int) -> char {
    ((48 + d) as u32) as char
}

/// Renders a decimal digit as its character.
pub fn digit_char_exec(d: u8) -> (c: char)
    requires
        d <= 9,
    ensures
        c == digit_char(d as int),
{
    let r: char = match d {
        0 => '0',
        1 => '1',
        2 => '2',
        3 => '3',
        4 => '4',
        5 => '5',
        6 => '6',
        7 => '7',
        8 => '8',
        _ => '9',
    };
    proof {
        vstd::utf8::char_u32_cast(r, (48 + d) as u32);
    }
    r
}

/// A validated 12-character security identifier.
#[derive(Debug, Clone, Hash)]
pub struct Isin {
    /// Two-character country code.
    pub country: String,
    /// Nine-character national number.
    pub nna: String,
    /// Decimal check digit.
    pub check: u8,
}

/// Why a string is not a security identifier.
#[derive(Debug, Clone)]
pub enum IsinError {
    /// The string does not have exactly 12 characters; carries its length.
    InvalidLength(usize),
    /// The 12th character is not a decimal digit; carries that character.
    InvalidCheckDigit(String),
}

impl PartialEq for IsinError {
    fn eq(&self, other: &Self) -> bool {
        match self {
            IsinError::InvalidLength(a) => match other {
                IsinError::InvalidLength(b) => *a == *b,
                _ => false,
            },
            IsinError::InvalidCheckDigit(a) => match other {
                IsinError::InvalidCheckDigit(b) => *a == *b,
                _ => false,
            },
        }
    }
}

/// Equality of identifier errors: same variant, same payload (strings by
/// their characters).
pub open spec fn isin_error_eq(a: IsinError, b: IsinError) -> bool {
    match a {
        IsinError::InvalidLength(x) => match b {
            IsinError::InvalidLength(y) => x == y,
            _ => false,
        },
        IsinError::InvalidCheckDigit(x) => match b {
            IsinError::InvalidCheckDigit(y) => x@ == y@,
            _ => false,
        },
    }
}

impl vstd::std_specs::cmp::PartialEqSpecImpl for IsinError {
    open spec fn obeys_eq_spec() -> bool {
        true
    }

    open spec fn eq_spec(&self, other: &Self) -> bool {
        isin_error_eq(*self, *other)
    }
}

impl Isin {
    /// Field shapes of a validated identifier.
    pub open spec fn wf(self) -> bool {
        self.country@.len() == 2 && self.nna@.len() == 9 && self.check <= 9
    }

    /// The canonical 12-character string form.
    pub open spec fn isin_str(self) -> Seq<char> {
        self.country@ + self.nna@ + seq![digit_char(self.check as int)]
    }

    /// A string parses as an identifier when it has 12 characters and its
    /// last one is a decimal digit.
    pub open spec fn parse_ok(s: Seq<char>) -> bool {
        s.len() == 12 && is_digit(s[11])
    }

    /// Validates a 12-character identifier string.
    ///
    /// Fails with `InvalidLength` for any other length, with
    /// `InvalidCheckDigit` when the 12th character is not a digit;
    /// otherwise splits positionally and round-trips exactly.
    pub fn parse(s: &str) -> (r: Result<Isin, IsinError>)
        ensures
            match r {
                Ok(isin) => Isin::parse_ok(s@) && isin.wf() && isin.country@ == s@.subrange(0, 2)
                    && isin.nna@ == s@.subrange(2, 11) && isin.check as int == digit_val(s@[11])
                    && isin.isin_str() == s@,
                Err(IsinError::InvalidLength(n)) => s@.len() != 12 && n == s@.len(),
                Err(IsinError::InvalidCheckDigit(c)) => s@.len() == 12 && !is_digit(s@[11]) && c@
                    == s@.subrange(11, 12),
            },
    {
        let v = str_chars(s);
        if v.len() != 12 {
            return Err(IsinError::InvalidLength(v.len()));
        }
        let last = v[11];
        if !crate::text::check_digit_char(last) {
            let tail = copy_range(&v, 11, 12);
            return Err(IsinError::InvalidCheckDigit(chars_to_string(&tail)));
        }
        let country_chars = copy_range(&v, 0, 2);
        let nna_chars = copy_range(&v, 2, 11);
        let check: u8 = ((last as u32) - 48) as u8;
        let isin = Isin {
            country: chars_to_string(&country_chars),
            nna: chars_to_string(&nna_chars),
            check,
        };
        proof {
            lemma_isin_round_trip(isin, s@);
        }
        Ok(isin)
    }

    /// Validates an identifier string, discarding the failure reason.
    pub fn new(isin_str: String) -> (r: Option<Isin>)
        ensures
            r is Some <==> Isin::parse_ok(isin_str@),
            r matches Some(isin) ==> isin.wf() && isin.isin_str() == isin_str@,
    {
        match Isin::parse(isin_str.as_str()) {
            Ok(isin) => Some(isin),
            Err(_) => None,
        }
    }

    /// The canonical string form, `country + nationalNumber + checkDigit`.
    pub fn get_str(&self) -> (r: String)
        requires
            self.check <= 9,
        ensures
            r@ == self.isin_str(),
    {
        let mut r = String::new();
        r.append(self.country.as_str());
        r.append(self.nna.as_str());
        push_char(&mut r, digit_char_exec(self.check));
        proof {
            assert(r@ =~= self.isin_str());
        }
        r
    }

    /// A field-equal copy.
    pub fn duplicate(&self) -> (r: Isin)
        ensures
            r == *self,
    {
        let r = Isin { country: self.country.clone(), nna: self.nna.clone(), check: self.check };
        proof {
            assert(r =~= *self);
        }
        r
    }
}

impl PartialEq for Isin {
    fn eq(&self, other: &Self) -> bool {
        self.country == other.country && self.nna == other.nna && self.check == other.check
    }
}

impl vstd::std_specs::cmp::PartialEqSpecImpl for Isin {
    open spec fn obeys_eq_spec() -> bool {
        true
    }

    open spec fn eq_spec(&self, other: &Self) -> bool {
        self.country@ == other.country@ && self.nna@ == other.nna@ && self.check == other.check
    }
}

/// Splitting a valid identifier string and formatting the parts again
/// yields the same string.
pub proof fn lemma_isin_round_trip(isin: Isin, s: Seq<char>)
    requires
        s.len() == 12,
        is_digit(s[11]),
        isin.country@ == s.subrange(0, 2),
        isin.nna@ == s.subrange(2, 11),
        isin.check as int == digit_val(s[11]),
    ensures
        isin.isin_str() == s,
{
    vstd::utf8::char_u32_cast(s[11], s[11] as u32);
    assert(digit_char(isin.check as int) == s[11]);
    assert(isin.isin_str() =~= s);
}

/// A discovered security: display name, identifier, observation time.
#[derive(Debug, Clone)]
pub struct ShareIsin {
    pub share_name: String,
    pub isin: Isin,
    pub updated_at: DateTime,
}

/// The identity of two named securities: equal names and equal
/// identifiers — the observation time plays no part.
pub open spec fn sec_key_eq(a: ShareIsin, b: ShareIsin) -> bool {
    a.share_name@ == b.share_name@ && a.isin.country@ == b.isin.country@ && a.isin.nna@
        == b.isin.nna@ && a.isin.check == b.isin.check
}

impl PartialEq for ShareIsin {
    fn eq(&self, other: &Self) -> bool {
        self.share_name == other.share_name && self.isin == other.isin
    }
}

impl vstd::std_specs::cmp::PartialEqSpecImpl for ShareIsin {
    open spec fn obeys_eq_spec() -> bool {
        true
    }

    open spec fn eq_spec(&self, other: &Self) -> bool {
        sec_key_eq(*self, *other)
    }
}

impl ShareIsin {
    /// Non-empty name, valid identifier, valid timestamp.
    pub open spec fn wf(self) -> bool {
        self.share_name@.len() > 0 && self.isin.wf() && self.updated_at.wf()
    }

    /// Builds a named security observed now.
    ///
    /// Fails exactly when the name is empty or the identifier string does
    /// not validate.
    pub fn new(name: String, isin_str: String) -> (r: Option<ShareIsin>)
        ensures
            r is Some <==> (name@.len() > 0 && Isin::parse_ok(isin_str@)),
            r matches Some(si) ==> si.wf() && si.share_name@ == name@ && si.isin.isin_str()
                == isin_str@,
    {
        if name.as_str().is_empty() {
            return None;
        }
        match Isin::new(isin_str) {
            Some(isin) => Some(ShareIsin { share_name: name, isin, updated_at: now_utc() }),
            None => None,
        }
    }

    /// A field-equal copy.
    pub fn duplicate(&self) -> (r: ShareIsin)
        ensures
            r == *self,
    {
        let r = ShareIsin {
            share_name: self.share_name.clone(),
            isin: self.isin.duplicate(),
            updated_at: self.updated_at,
        };
        proof {
            assert(r =~= *self);
        }
        r
    }
}

/// The digit character of `d` carries exactly the code `48 + d`.
pub proof fn lemma_digit_char_inverse(d: int)
    requires
        0 <= d <= 9,
    ensures
        digit_char(d) as u32 == 48 + d,
{
    if d == 0 {
        vstd::utf8::char_u32_cast('0', 48);
    } else if d == 1 {
        vstd::utf8::char_u32_cast('1', 49);
    } else if d == 2 {
        vstd::utf8::char_u32_cast('2', 50);
    } else if d == 3 {
        vstd::utf8::char_u32_cast('3', 51);
    } else if d == 4 {
        vstd::utf8::char_u32_cast('4', 52);
    } else if d == 5 {
        vstd::utf8::char_u32_cast('5', 53);
    } else if d == 6 {
        vstd::utf8::char_u32_cast('6', 54);
    } else if d == 7 {
        vstd::utf8::char_u32_cast('7', 55);
    } else if d == 8 {
        vstd::utf8::char_u32_cast('8', 56);
    } else {
        vstd::utf8::char_u32_cast('9', 57);
    }
}

/// The string form determines the fields of a well-formed identifier.
pub proof fn lemma_isin_str_injective(a: Isin, b: Isin)
    requires
        a.wf(),
        b.wf(),
        a.isin_str() == b.isin_str(),
    ensures
        a.country@ == b.country@,
        a.nna@ == b.nna@,
        a.check == b.check,
{
    assert(a.country@ =~= a.isin_str().subrange(0, 2));
    assert(b.country@ =~= b.isin_str().subrange(0, 2));
    assert(a.nna@ =~= a.isin_str().subrange(2, 11));
    assert(b.nna@ =~= b.isin_str().subrange(2, 11));
    assert(a.isin_str()[11] == digit_char(a.check as int));
    assert(b.isin_str()[11] == digit_char(b.check as int));
    lemma_digit_char_inverse(a.check as int);
    lemma_digit_char_inverse(b.check as int);
}

/// The dedup key of a named security: its name and identifier string.
pub open spec fn sec_key(si: ShareIsin) -> (Seq<char>, Seq<char>) {
    (si.share_name@, si.isin.isin_str())
}

/// For well-formed securities, the dedup key and the identity relation
/// agree.
pub proof fn lemma_sec_key_eq(a: ShareIsin, b: ShareIsin)
    requires
        a.isin.wf(),
        b.isin.wf(),
    ensures
        sec_key_eq(a, b) <==> sec_key(a) == sec_key(b),
{
    if sec_key_eq(a, b) {
        assert(a.isin.isin_str() =~= b.isin.isin_str());
    }
    if sec_key(a) == sec_key(b) {
        lemma_isin_str_injective(a.isin, b.isin);
    }
}

/// The identity of a named security ignores when it was observed: equal
/// names and identifiers stay equal under any pair of timestamps.
pub proof fn lemma_identity_ignores_observed_at(
    a: ShareIsin,
    b: ShareIsin,
    ta: DateTime,
    tb: DateTime,
)
    ensures
        sec_key_eq(
            ShareIsin { updated_at: ta, ..a },
            ShareIsin { updated_at: tb, ..b },
        ) == sec_key_eq(a, b),
{
}

} // verus!
