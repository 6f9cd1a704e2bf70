//! Prices in the textual form in which they are logged.

use vstd::prelude::*;
use vstd::string::*;

verus! {

/// One of the ten decimal digits.
pub open spec fn is_digit(c: char) -> bool {
    '0' <= c && c <= '9'
}

/// One or more digits, a point, and exactly two digits.
pub open spec fn is_unsigned_decimal(s: Seq<char>) -> bool {
    &&& s.len() >= 4
    &&& s[s.len() - 3] == '.'
    &&& forall|i: int| 0 <= i < s.len() && i != s.len() - 3 ==> is_digit(#[trigger] s[i])
}

/// A decimal with two fractional digits, with or without a leading minus
/// sign.
pub open spec fn is_decimal(s: Seq<char>) -> bool {
    ||| is_unsigned_decimal(s)
    ||| (s.len() > 0 && s[0] == '-' && is_unsigned_decimal(s.skip(1)))
}

/// The texts that stand for a price in a log line: a decimal with two
/// fractional digits, or one of the three texts that show a double which is
/// no finite number.
pub open spec fn is_amount_text(s: Seq<char>) -> bool {
    ||| is_decimal(s)
    ||| s == seq!['N', 'a', 'N']
    ||| s == seq!['i', 'n', 'f']
    ||| s == seq!['-', 'i', 'n', 'f']
}

/// A price shown with two fractional digits, as it appears in a log line.
///
/// Every value of this type holds an amount text.
#[derive(Debug, PartialEq, Eq)]
pub struct Amount {
    text: String,
}

impl View for Amount {
    type V = Seq<char>;

    closed spec fn view(&self) -> Seq<char> {
        self.text@
    }
}

impl Amount {
    #[verifier::type_invariant]
    spec fn holds_amount_text(self) -> bool {
        is_amount_text(self.text@)
    }

    /// Takes `text` as an amount if it is an amount text, and rejects every
    /// other text.
    pub fn parse(text: &str) -> (amount: Option<Amount>)
        ensures
            amount is Some <==> is_amount_text(text@),
            amount matches Some(accepted) ==> accepted@ == text@,
    {
        if !text.is_ascii() {
            proof {
                if is_amount_text(text@) {
                    lemma_amount_text_is_plain(text@);
                }
            }
            return None;
        }
        let bytes = text.as_bytes();
        proof {
            is_ascii_spec_bytes(text);
            assert(text@.skip(0) =~= text@);
        }
        let n = bytes.len();
        let accepted = is_named_value(bytes, Ghost(text@)) || is_unsigned_decimal_from(
            bytes,
            0,
            Ghost(text@),
        ) || (n > 0 && bytes[0] == '-' as u8 && is_unsigned_decimal_from(bytes, 1, Ghost(text@)));
        if accepted {
            Some(Amount { text: text.to_owned() })
        } else {
            None
        }
    }

    /// The text of the amount.
    pub fn as_str(&self) -> (text: &str)
        ensures
            text@ == self@,
            is_amount_text(self@),
    {
        proof {
            use_type_invariant(self);
        }
        self.text.as_str()
    }
}

/// An amount text is made of ASCII characters and holds neither a comma nor
/// a line break, so an amount can be told from what follows it in a log
/// line.
pub proof fn lemma_amount_text_is_plain(s: Seq<char>)
    requires
        is_amount_text(s),
    ensures
        vstd::utf8::is_ascii_chars(s),
        forall|i: int| 0 <= i < s.len() ==> s[i] != ',' && s[i] != '\n',
{
    assert forall|i: int| 0 <= i < s.len() implies '\0' <= #[trigger] s[i] <= '\u{7f}' && s[i]
        != ',' && s[i] != '\n' by {
        if is_unsigned_decimal(s) {
            if i != s.len() - 3 {
                assert(is_digit(s[i]));
            }
        } else if is_decimal(s) {
            let digits = s.skip(1);
            if i > 0 {
                assert(s[i] == digits[i - 1]);
                if i - 1 != digits.len() - 3 {
                    assert(is_digit(digits[i - 1]));
                }
            }
        }
    }
}

/// Whether `bytes` are the ASCII characters `chars`, one byte for each.
spec fn spells(bytes: Seq<u8>, chars: Seq<char>) -> bool {
    &&& bytes.len() == chars.len()
    &&& forall|i: int|
        0 <= i < chars.len() ==> {
            &&& '\0' <= #[trigger] chars[i] <= '\u{7f}'
            &&& bytes[i] == chars[i] as u8
        }
}

/// Whether the text is one of the three that show a double which is no
/// finite number.
fn is_named_value(bytes: &[u8], Ghost(chars): Ghost<Seq<char>>) -> (yes: bool)
    requires
        spells(bytes@, chars),
    ensures
        yes <==> (chars == seq!['N', 'a', 'N'] || chars == seq!['i', 'n', 'f'] || chars == seq![
            '-',
            'i',
            'n',
            'f',
        ]),
{
    let n = bytes.len();
    if n == 3 {
        let nan = bytes[0] == 'N' as u8 && bytes[1] == 'a' as u8 && bytes[2] == 'N' as u8;
        let inf = bytes[0] == 'i' as u8 && bytes[1] == 'n' as u8 && bytes[2] == 'f' as u8;
        proof {
            if nan {
                assert(chars =~= seq!['N', 'a', 'N']);
            }
            if inf {
                assert(chars =~= seq!['i', 'n', 'f']);
            }
        }
        nan || inf
    } else if n == 4 {
        let yes = bytes[0] == '-' as u8 && bytes[1] == 'i' as u8 && bytes[2] == 'n' as u8
            && bytes[3] == 'f' as u8;
        proof {
            if yes {
                assert(chars =~= seq!['-', 'i', 'n', 'f']);
            }
        }
        yes
    } else {
        false
    }
}

/// Whether the part of the text from `start` on is an unsigned decimal.
fn is_unsigned_decimal_from(bytes: &[u8], start: usize, Ghost(chars): Ghost<Seq<char>>) -> (yes:
    bool)
    requires
        spells(bytes@, chars),
        start <= bytes.len(),
    ensures
        yes <==> is_unsigned_decimal(chars.skip(start as int)),
{
    let n = bytes.len();
    let ghost digits = chars.skip(start as int);
    if n - start < 4 {
        return false;
    }
    let point = n - 3;
    assert(digits[digits.len() - 3] == chars[point as int]);
    if bytes[point] != '.' as u8 {
        return false;
    }
    let mut i = start;
    while i < n
        invariant
            spells(bytes@, chars),
            n == bytes.len(),
            start <= i <= n,
            start <= point == n - 3,
            digits == chars.skip(start as int),
            forall|j: int|
                0 <= j < i - start && j != digits.len() - 3 ==> is_digit(#[trigger] digits[j]),
        decreases n - i,
    {
        assert(digits[i - start] == chars[i as int]);
        if i != point && (bytes[i] < '0' as u8 || bytes[i] > '9' as u8) {
            assert(!is_digit(digits[i - start]));
            return false;
        }
        i += 1;
    }
    true
}

} // verus!
