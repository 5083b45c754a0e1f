//! Who may ask: the credential that a request carries, and what becomes of
//! a request whose credential is not accepted.
//!
//! Whether a token is genuine is decided outside, with the key that this
//! module hands out. Here it is decided which token and which key those are,
//! and that nothing is asked of the store for a request that is not admitted.

use vstd::prelude::*;
use vstd::string::*;
use crate::error::{Error, ErrorKind, ErrorView};
use crate::text::{chars_of, part};

verus! {

/// The seconds by which the clocks of client and service may differ.
pub const LEEWAY_SECONDS: u64 = 60000;

/// What `base64::decode` makes of a text: the bytes that it stands for, or
/// the message of its error.
pub uninterp spec fn base64_decoded(text: Seq<char>) -> Result<Seq<u8>, Seq<char>>;

/// Whether `c` is white space as `char::is_whitespace` decides it.
pub uninterp spec fn whitespace(c: char) -> bool;

/// `base64::decode` with the standard alphabet: the result depends on the
/// text alone, and is what `base64_decoded` names.
#[verifier::external_body]
fn decode_base64(text: &str) -> (bytes: Result<Vec<u8>, String>)
    ensures
        match bytes {
            Ok(b) => base64_decoded(text@) == Ok::<Seq<u8>, Seq<char>>(b@),
            Err(message) => base64_decoded(text@) == Err::<Seq<u8>, Seq<char>>(message@),
        },
{
    match base64::decode(text) {
        Ok(bytes) => Ok(bytes),
        Err(e) => Err(e.to_string()),
    }
}

/// `char::is_whitespace` depends on the character alone; its answer is
/// `whitespace`.
pub assume_specification[ char::is_whitespace ](c: char) -> (yes: bool)
    ensures
        yes == whitespace(c),
;

/// `text` from its first character on that is not white space.
pub open spec fn after_blank(text: Seq<char>) -> Seq<char>
    decreases text.len(),
{
    if text.len() > 0 && whitespace(text[0]) {
        after_blank(text.subrange(1, text.len() as int))
    } else {
        text
    }
}

/// The characters of `text` before its first white space.
pub open spec fn leading_word(text: Seq<char>) -> Seq<char>
    decreases text.len(),
{
    if text.len() > 0 && !whitespace(text[0]) {
        seq![text[0]] + leading_word(text.subrange(1, text.len() as int))
    } else {
        Seq::empty()
    }
}

/// The word of `text` with `n` words before it, where words are what white
/// space separates; empty where there are not that many.
pub open spec fn word(text: Seq<char>, n: nat) -> Seq<char>
    decreases n,
{
    let rest = after_blank(text);
    if n == 0 {
        leading_word(rest)
    } else {
        word(rest.subrange(leading_word(rest).len() as int, rest.len() as int), (n - 1) as nat)
    }
}

/// The token that an authorization header carries: its second word.
pub open spec fn token_of(header: Seq<char>) -> Option<Seq<char>> {
    if word(header, 1).len() > 0 {
        Some(word(header, 1))
    } else {
        None
    }
}

/// The message of the failure of a request without a token.
pub open spec fn no_token_message() -> Seq<char> {
    "JWT token missing from request"@
}

/// The index of the first character from `from` on that is not white
/// space.
fn blank_end(text: &Vec<char>, from: usize) -> (end: usize)
    requires
        from <= text.len(),
    ensures
        from <= end <= text.len(),
        text@.subrange(end as int, text.len() as int) == after_blank(
            text@.subrange(from as int, text.len() as int),
        ),
{
    let mut end = from;
    while end < text.len() && text[end].is_whitespace()
        invariant
            from <= end <= text.len(),
            after_blank(text@.subrange(end as int, text.len() as int)) == after_blank(
                text@.subrange(from as int, text.len() as int),
            ),
        decreases text.len() - end,
    {
        proof {
            let rest = text@.subrange(end as int, text.len() as int);
            assert(rest[0] == text[end as int]);
            assert(rest.subrange(1, rest.len() as int) =~= text@.subrange(
                end + 1,
                text.len() as int,
            ));
        }
        end += 1;
    }
    proof {
        let rest = text@.subrange(end as int, text.len() as int);
        if end < text.len() {
            assert(rest[0] == text[end as int]);
        }
    }
    end
}

/// The index behind the word that begins at `from`.
fn word_end(text: &Vec<char>, from: usize) -> (end: usize)
    requires
        from <= text.len(),
    ensures
        from <= end <= text.len(),
        text@.subrange(from as int, end as int) == leading_word(
            text@.subrange(from as int, text.len() as int),
        ),
{
    let mut end = from;
    assert(text@.subrange(from as int, from as int) =~= Seq::empty());
    while end < text.len() && !text[end].is_whitespace()
        invariant
            from <= end <= text.len(),
            text@.subrange(from as int, end as int) + leading_word(
                text@.subrange(end as int, text.len() as int),
            ) == leading_word(text@.subrange(from as int, text.len() as int)),
        decreases text.len() - end,
    {
        proof {
            let rest = text@.subrange(end as int, text.len() as int);
            let tail = text@.subrange(end + 1, text.len() as int);
            assert(rest[0] == text[end as int]);
            assert(rest.subrange(1, rest.len() as int) =~= tail);
            assert(text@.subrange(from as int, end as int) + (seq![rest[0]] + leading_word(tail))
                =~= text@.subrange(from as int, end + 1) + leading_word(tail));
        }
        end += 1;
    }
    proof {
        let rest = text@.subrange(end as int, text.len() as int);
        if end < text.len() {
            assert(rest[0] == text[end as int]);
        }
        assert(text@.subrange(from as int, end as int) + Seq::<char>::empty()
            =~= text@.subrange(from as int, end as int));
    }
    end
}

/// The token that an authorization header carries.
pub fn token_in(header: &str) -> (token: Option<String>)
    ensures
        match token {
            Some(t) => token_of(header@) == Some(t@),
            None => token_of(header@) is None,
        },
{
    let text = chars_of(header);
    let ghost all = text@;
    assert(all.subrange(0, all.len() as int) =~= all);
    let first = blank_end(&text, 0);
    let after_first = word_end(&text, first);
    let second = blank_end(&text, after_first);
    let after_second = word_end(&text, second);
    proof {
        reveal_with_fuel(word, 2);
        let rest = after_blank(all);
        assert(rest == all.subrange(first as int, all.len() as int));
        assert(leading_word(rest).len() == after_first - first);
        assert(rest.subrange(leading_word(rest).len() as int, rest.len() as int) =~= all.subrange(
            after_first as int,
            all.len() as int,
        ));
        assert(word(all, 1) == all.subrange(second as int, after_second as int));
    }
    if after_second == second {
        None
    } else {
        Some(part(&text, second, after_second))
    }
}

/// What is to be checked of a request: the token, and the key to check it
/// with.
#[derive(Clone, Debug, PartialEq, Eq)]
pub struct Credential {
    pub token: String,
    pub key: Vec<u8>,
}

/// The failure of the class `Unauthenticated` with this message.
pub open spec fn unauthenticated(message: Seq<char>) -> ErrorView {
    ErrorView { kind: ErrorKind::Unauthenticated, message }
}

/// The credential of a request, or the failure that keeps it out: the
/// secret of the service encodes the key, and the authorization header
/// carries the token. `secret` is the secret, or the message that tells why
/// there is none.
pub open spec fn credential_of(
    secret: Result<Seq<char>, Seq<char>>,
    header: Option<Seq<char>>,
) -> Result<(Seq<char>, Seq<u8>), ErrorView> {
    match secret {
        Err(message) => Err(unauthenticated(message)),
        Ok(text) => match base64_decoded(text) {
            Err(message) => Err(unauthenticated(message)),
            Ok(key) => match header {
                None => Err(unauthenticated(no_token_message())),
                Some(h) => match token_of(h) {
                    None => Err(unauthenticated(no_token_message())),
                    Some(token) => Ok((token, key)),
                },
            },
        },
    }
}

/// The view of a secret or of the message in its place.
pub open spec fn secret_text(secret: Result<String, String>) -> Result<Seq<char>, Seq<char>> {
    match secret {
        Ok(text) => Ok(text@),
        Err(message) => Err(message@),
    }
}

/// The view of an optional header.
pub open spec fn header_text(header: Option<String>) -> Option<Seq<char>> {
    match header {
        Some(h) => Some(h@),
        None => None,
    }
}

/// The credential of a request.
pub fn credential(secret: &Result<String, String>, header: &Option<String>) -> (found: Result<
    Credential,
    Error,
>)
    ensures
        match found {
            Ok(c) => credential_of(secret_text(*secret), header_text(*header)) == Ok::<
                (Seq<char>, Seq<u8>),
                ErrorView,
            >((c.token@, c.key@)),
            Err(e) => credential_of(secret_text(*secret), header_text(*header)) == Err::<
                (Seq<char>, Seq<u8>),
                ErrorView,
            >(e@),
        },
{
    let text = match secret {
        Ok(text) => text,
        Err(message) => {
            return Err(Error { kind: ErrorKind::Unauthenticated, message: message.clone() });
        },
    };
    let key = match decode_base64(text.as_str()) {
        Ok(key) => key,
        Err(message) => {
            return Err(Error { kind: ErrorKind::Unauthenticated, message });
        },
    };
    let token = match header {
        Some(h) => token_in(h.as_str()),
        None => None,
    };
    match token {
        Some(token) => Ok(Credential { token, key }),
        None => Err(Error::new(ErrorKind::Unauthenticated, "JWT token missing from request")),
    }
}

/// Whether a request is admitted, once its token was checked: `checked`
/// holds the message of the check where the token was not accepted.
pub fn let_in(checked: Result<(), String>) -> (admitted: Result<(), Error>)
    ensures
        match admitted {
            Ok(_) => checked is Ok,
            Err(e) => checked is Err && e@ == unauthenticated(checked->Err_0@),
        },
{
    match checked {
        Ok(_) => Ok(()),
        Err(message) => Err(Error { kind: ErrorKind::Unauthenticated, message }),
    }
}

} // verus!
