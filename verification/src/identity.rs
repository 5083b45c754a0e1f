//! Identities: the 128 bits that name a node or a volume, and their text.

use vstd::prelude::*;
use vstd::string::*;
use crate::error::{Error, ErrorKind};

verus! {

/// The identity of a node or of a volume.
#[derive(Clone, Copy, Debug, PartialEq, Eq, Hash, Structural)]
pub struct Identity {
    pub value: u128,
}

/// The digit of a number below sixteen.
pub open spec fn hex_digit(n: int) -> char {
    seq!['0', '1', '2', '3', '4', '5', '6', '7', '8', '9', 'a', 'b', 'c', 'd', 'e', 'f'][n]
}

/// The last `digits` hexadecimal digits of `value`.
pub open spec fn hex_text(value: nat, digits: nat) -> Seq<char>
    decreases digits,
{
    if digits == 0 {
        Seq::empty()
    } else {
        hex_text(value / 16, (digits - 1) as nat).push(hex_digit((value % 16) as int))
    }
}

/// The text of an identity: its 32 hexadecimal digits in groups of 8, 4, 4,
/// 4 and 12, with a hyphen between each two groups.
pub open spec fn hyphenated(value: u128) -> Seq<char> {
    let digits = hex_text(value as nat, 32);
    digits.subrange(0, 8) + seq!['-'] + digits.subrange(8, 12) + seq!['-'] + digits.subrange(
        12,
        16,
    ) + seq!['-'] + digits.subrange(16, 20) + seq!['-'] + digits.subrange(20, 32)
}

/// Whether `value` is marked as made at random: its version is 4 and its
/// variant is the one of RFC 4122.
pub open spec fn marked_random(value: u128) -> bool {
    &&& (value / 0x1000_0000_0000_0000_0000) % 16 == 4
    &&& (value / 0x4000_0000_0000_0000) % 4 == 2
}

/// What `Uuid::parse_str` makes of a text: the value of the identity that
/// it reads, or the message of its error.
pub uninterp spec fn parsed_identity(text: Seq<char>) -> Result<u128, Seq<char>>;

/// `Uuid::new_v4`: the value of a new random identity. Which value it is
/// depends on the random source; every value that comes back carries the
/// marks of a random identity.
#[verifier::external_body]
fn random_value() -> (value: u128)
    ensures
        marked_random(value),
{
    uuid::Uuid::new_v4().as_u128()
}

/// `Uuid::from_u128(value).hyphenated().to_string()`: the hyphenated text
/// of the identity with this value, in lower case.
#[verifier::external_body]
fn hyphenated_text(value: u128) -> (text: String)
    ensures
        text@ == hyphenated(value),
{
    uuid::Uuid::from_u128(value).hyphenated().to_string()
}

/// `Uuid::parse_str`: the result depends on the text alone, and is what
/// `parsed_identity` names.
#[verifier::external_body]
fn parse_text(text: &str) -> (value: Result<u128, String>)
    ensures
        match value {
            Ok(v) => parsed_identity(text@) == Ok::<u128, Seq<char>>(v),
            Err(message) => parsed_identity(text@) == Err::<u128, Seq<char>>(message@),
        },
{
    match uuid::Uuid::parse_str(text) {
        Ok(id) => Ok(id.as_u128()),
        Err(e) => Err(e.to_string()),
    }
}

impl Identity {
    /// A new identity, made at random.
    pub fn random() -> (id: Identity)
        ensures
            marked_random(id.value),
    {
        Identity { value: random_value() }
    }

    /// The text of the identity.
    pub fn text(&self) -> (text: String)
        ensures
            text@ == hyphenated(self.value),
    {
        hyphenated_text(self.value)
    }

    /// The identity that `text` stands for. A text that stands for none is
    /// an invalid argument, with the message of the parser.
    pub fn parse(text: &str) -> (id: Result<Identity, Error>)
        ensures
            match id {
                Ok(i) => parsed_identity(text@) == Ok::<u128, Seq<char>>(i.value),
                Err(e) => parsed_identity(text@) == Err::<u128, Seq<char>>(e.message@) && e.kind
                    == ErrorKind::InvalidArgument,
            },
    {
        match parse_text(text) {
            Ok(value) => Ok(Identity { value }),
            Err(message) => Err(Error { kind: ErrorKind::InvalidArgument, message }),
        }
    }
}

/// Whether `c` is a hexadecimal digit in lower case.
pub open spec fn is_hex_char(c: char) -> bool {
    c == '0' || c == '1' || c == '2' || c == '3' || c == '4' || c == '5' || c == '6' || c == '7'
        || c == '8' || c == '9' || c == 'a' || c == 'b' || c == 'c' || c == 'd' || c == 'e' || c
        == 'f'
}

/// The text of an identity is 36 characters long, with hyphens at the four
/// places between its groups and hexadecimal digits everywhere else. So no
/// identity is empty, and none holds a slash.
pub proof fn law_identity_text_has_its_shape(value: u128)
    ensures
        hyphenated(value).len() == 36,
        forall|i: int|
            0 <= i < 36 ==> if i == 8 || i == 13 || i == 18 || i == 23 {
                #[trigger] hyphenated(value)[i] == '-'
            } else {
                is_hex_char(hyphenated(value)[i])
            },
        forall|i: int| 0 <= i < 36 ==> #[trigger] hyphenated(value)[i] != '/',
{
    let digits = hex_text(value as nat, 32);
    lemma_hex_text_len(value as nat, 32);
    lemma_hex_text_chars(value as nat, 32);
    assert forall|i: int| 0 <= i < 36 implies if i == 8 || i == 13 || i == 18 || i == 23 {
        #[trigger] hyphenated(value)[i] == '-'
    } else {
        is_hex_char(hyphenated(value)[i])
    } by {
        let k = if i < 8 {
            i
        } else if i < 13 {
            i - 1
        } else if i < 18 {
            i - 2
        } else if i < 23 {
            i - 3
        } else {
            i - 4
        };
        if !(i == 8 || i == 13 || i == 18 || i == 23) {
            assert(hyphenated(value)[i] == digits[k]);
            assert(is_hex_char(digits[k]));
        }
    }
}

/// Every character of a hexadecimal text is a hexadecimal digit.
pub proof fn lemma_hex_text_chars(value: nat, digits: nat)
    ensures
        forall|k: int| 0 <= k < digits ==> is_hex_char(#[trigger] hex_text(value, digits)[k]),
    decreases digits,
{
    if digits > 0 {
        let front = hex_text(value / 16, (digits - 1) as nat);
        lemma_hex_text_len(value / 16, (digits - 1) as nat);
        lemma_hex_text_chars(value / 16, (digits - 1) as nat);
        let n = (value % 16) as int;
        assert(is_hex_char(hex_digit(n))) by {
            if n == 0 {
            } else if n == 1 {
            } else if n == 2 {
            } else if n == 3 {
            } else if n == 4 {
            } else if n == 5 {
            } else if n == 6 {
            } else if n == 7 {
            } else if n == 8 {
            } else if n == 9 {
            } else if n == 10 {
            } else if n == 11 {
            } else if n == 12 {
            } else if n == 13 {
            } else if n == 14 {
            } else {
            }
        }
        assert forall|k: int| 0 <= k < digits implies is_hex_char(
            #[trigger] hex_text(value, digits)[k],
        ) by {
            if k < digits - 1 {
                assert(hex_text(value, digits)[k] == front[k]);
            }
        }
    }
}

/// `hex_text` gives as many digits as it is asked for.
pub proof fn lemma_hex_text_len(value: nat, digits: nat)
    ensures
        hex_text(value, digits).len() == digits,
    decreases digits,
{
    if digits > 0 {
        lemma_hex_text_len(value / 16, (digits - 1) as nat);
    }
}

/// The number that the last `digits` hexadecimal digits of `value` make.
pub open spec fn low_digits(value: nat, digits: nat) -> nat
    decreases digits,
{
    if digits == 0 {
        0
    } else {
        low_digits(value / 16, (digits - 1) as nat) * 16 + value % 16
    }
}

/// Sixteen to the power of `digits`.
pub open spec fn sixteen_to(digits: nat) -> nat
    decreases digits,
{
    if digits == 0 {
        1
    } else {
        16 * sixteen_to((digits - 1) as nat)
    }
}

/// Two values with the same hexadecimal text agree in the digits of it.
pub proof fn lemma_hex_text_decides(a: nat, b: nat, digits: nat)
    requires
        hex_text(a, digits) == hex_text(b, digits),
    ensures
        low_digits(a, digits) == low_digits(b, digits),
    decreases digits,
{
    if digits > 0 {
        let front_a = hex_text(a / 16, (digits - 1) as nat);
        let front_b = hex_text(b / 16, (digits - 1) as nat);
        let last_a = hex_digit((a % 16) as int);
        let last_b = hex_digit((b % 16) as int);
        lemma_hex_text_len(a / 16, (digits - 1) as nat);
        lemma_hex_text_len(b / 16, (digits - 1) as nat);
        assert(front_a.push(last_a).last() == front_b.push(last_b).last());
        assert(front_a.push(last_a).drop_last() =~= front_a);
        assert(front_b.push(last_b).drop_last() =~= front_b);
        assert(a % 16 == b % 16);
        lemma_hex_text_decides(a / 16, b / 16, (digits - 1) as nat);
    }
}

/// A value below sixteen to the `digits` is the number that its last
/// `digits` digits make.
pub proof fn lemma_low_digits_are_all(value: nat, digits: nat)
    requires
        value < sixteen_to(digits),
    ensures
        low_digits(value, digits) == value,
    decreases digits,
{
    if digits > 0 {
        lemma_low_digits_are_all(value / 16, (digits - 1) as nat);
    }
}

/// Different identities have different texts: no two volumes share an
/// identity directory, and no two nodes a peer file.
pub proof fn law_identities_differ_in_text(a: u128, b: u128)
    requires
        hyphenated(a) == hyphenated(b),
    ensures
        a == b,
{
    let da = hex_text(a as nat, 32);
    let db = hex_text(b as nat, 32);
    lemma_hex_text_len(a as nat, 32);
    lemma_hex_text_len(b as nat, 32);
    assert forall|k: int| 0 <= k < 32 implies da[k] == db[k] by {
        let at = if k < 8 {
            k
        } else if k < 12 {
            k + 1
        } else if k < 16 {
            k + 2
        } else if k < 20 {
            k + 3
        } else {
            k + 4
        };
        assert(hyphenated(a)[at] == da[k]);
        assert(hyphenated(b)[at] == db[k]);
    }
    assert(da =~= db);
    lemma_hex_text_decides(a as nat, b as nat, 32);
    assert(sixteen_to(32) == 0x1_0000_0000_0000_0000_0000_0000_0000_0000) by {
        reveal_with_fuel(sixteen_to, 33);
    }
    lemma_low_digits_are_all(a as nat, 32);
    lemma_low_digits_are_all(b as nat, 32);
}

} // verus!
