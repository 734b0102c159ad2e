//! The decisions of the `DBUS_COOKIE_SHA1` mechanism.
//!
//! The server sends a challenge that names a keyring file and a cookie in
//! it. The client proves that it can read the file: it answers with a
//! challenge of its own and the SHA-1 digest of both challenges and the
//! cookie. Reading the file, drawing the client's challenge and computing
//! the digest are left to the caller.

use vstd::prelude::*;
use vstd::slice::slice_subrange;

use crate::connection::command::{spec_hex, spec_word, spec_words, split_words, write_hex};
use crate::message::fields::write_bytes;

verus! {

/// Whether a context can name a keyring file: it is not empty, is ASCII, and
/// holds no slash, backslash, blank or dot.
pub open spec fn is_context(context: Seq<u8>) -> bool {
    &&& context.len() > 0
    &&& forall|i: int|
        0 <= i < context.len() ==> {
            let b = #[trigger] context[i];
            b < 0x80 && b != 0x2f && b != 0x5c && b != 0x20 && b != 0x0a && b != 0x0d && b != 0x09
                && b != 0x2e
        }
}

/// The number that a text of decimal digits stands for; an empty text stands
/// for zero, a text with another character for none.
pub open spec fn spec_decimal_value(text: Seq<u8>) -> Option<nat>
    decreases text.len(),
{
    if text.len() == 0 {
        Some(0)
    } else if !(0x30 <= text.last() <= 0x39) {
        None
    } else {
        match spec_decimal_value(text.drop_last()) {
            None => None,
            Some(v) => Some((10 * v + (text.last() - 0x30)) as nat),
        }
    }
}

/// The number that a text stands for: the text is one decimal digit or
/// more, and the number fits 64 bits.
pub open spec fn spec_parse_decimal(text: Seq<u8>) -> Option<u64> {
    match spec_decimal_value(text) {
        Some(v) => if text.len() > 0 && v <= u64::MAX {
            Some(v as u64)
        } else {
            None
        },
        None => None,
    }
}

/// A longer text of digits stands for a number that is no smaller, and a
/// text with a character that is no digit stays one.
pub proof fn lemma_decimal_prefix(text: Seq<u8>, n: int)
    requires
        0 <= n <= text.len(),
    ensures
        spec_decimal_value(text.subrange(0, n)) is None ==> spec_decimal_value(text) is None,
        spec_decimal_value(text) matches Some(v) ==> spec_decimal_value(text.subrange(0, n))
            matches Some(p) && p <= v,
    decreases text.len(),
{
    if n == text.len() {
        assert(text.subrange(0, n) =~= text);
    } else {
        assert(text.drop_last().subrange(0, n) =~= text.subrange(0, n));
        lemma_decimal_prefix(text.drop_last(), n);
    }
}

/// Reads a number from its decimal text.
pub fn parse_decimal(text: &[u8]) -> (r: Option<u64>)
    ensures
        r == spec_parse_decimal(text@),
{
    if text.len() == 0 {
        return None;
    }
    let mut value: u64 = 0;
    let mut i: usize = 0;
    assert(text@.subrange(0, 0) =~= Seq::<u8>::empty());
    while i < text.len()
        invariant
            i <= text.len(),
            spec_decimal_value(text@.subrange(0, i as int)) == Some(value as nat),
        decreases text.len() - i,
    {
        let b = text[i];
        proof {
            let next = text@.subrange(0, i + 1);
            assert(next.drop_last() =~= text@.subrange(0, i as int));
            assert(next.last() == b);
            lemma_decimal_prefix(text@, i + 1);
        }
        if b < 0x30 || b > 0x39 {
            return None;
        }
        let digit: u64 = (b - 0x30) as u64;
        if value > (u64::MAX - digit) / 10 {
            return None;
        }
        value = value * 10 + digit;
        i = i + 1;
    }
    assert(text@.subrange(0, text@.len() as int) =~= text@);
    Some(value)
}

/// The challenge of a server.
#[derive(Debug)]
pub struct Challenge {
    /// The name of the keyring file.
    pub context: Vec<u8>,
    /// The number of the cookie in the file.
    pub id: u64,
    /// The challenge proper.
    pub server_challenge: Vec<u8>,
}

/// What a challenge holds.
pub struct ChallengeView {
    /// The name of the keyring file.
    pub context: Seq<u8>,
    /// The number of the cookie in the file.
    pub id: u64,
    /// The challenge proper.
    pub server_challenge: Seq<u8>,
}

impl View for Challenge {
    type V = ChallengeView;

    open spec fn view(&self) -> ChallengeView {
        ChallengeView {
            context: self.context@,
            id: self.id,
            server_challenge: self.server_challenge@,
        }
    }
}

/// The challenge that the data of a server is: its first three words are
/// the context, which must be one that [`is_context`] accepts, the number of
/// the cookie in decimal, and the challenge proper.
pub open spec fn spec_parse_challenge(data: Seq<u8>) -> Option<ChallengeView> {
    let words = spec_words(data, 0);
    if words.len() < 3 || !is_context(spec_word(data, words[0])) {
        None
    } else {
        match spec_parse_decimal(spec_word(data, words[1])) {
            None => None,
            Some(id) => Some(
                ChallengeView {
                    context: spec_word(data, words[0]),
                    id,
                    server_challenge: spec_word(data, words[2]),
                },
            ),
        }
    }
}

/// Whether a context can name a keyring file.
pub fn check_context(context: &[u8]) -> (ok: bool)
    ensures
        ok == is_context(context@),
{
    if context.len() == 0 {
        return false;
    }
    let mut i: usize = 0;
    while i < context.len()
        invariant
            i <= context.len(),
            context@.len() > 0,
            forall|j: int|
                0 <= j < i ==> {
                    let b = #[trigger] context@[j];
                    b < 0x80 && b != 0x2f && b != 0x5c && b != 0x20 && b != 0x0a && b != 0x0d && b
                        != 0x09 && b != 0x2e
                },
        decreases context.len() - i,
    {
        let b = context[i];
        if !(b < 0x80 && b != 0x2f && b != 0x5c && b != 0x20 && b != 0x0a && b != 0x0d && b != 0x09
            && b != 0x2e) {
            return false;
        }
        i = i + 1;
    }
    true
}

/// A copy of the bytes from `start` up to `end`.
pub fn copy_range(s: &[u8], start: usize, end: usize) -> (copy: Vec<u8>)
    requires
        start <= end <= s.len(),
    ensures
        copy@ == s@.subrange(start as int, end as int),
{
    let mut copy: Vec<u8> = Vec::new();
    write_bytes(&mut copy, slice_subrange(s, start, end));
    assert(copy@ =~= s@.subrange(start as int, end as int));
    copy
}

/// Reads the challenge of a server from its data.
pub fn parse_challenge(data: &[u8]) -> (r: Option<Challenge>)
    ensures
        match r {
            Some(c) => spec_parse_challenge(data@) == Some(c@),
            None => spec_parse_challenge(data@) is None,
        },
{
    let words = split_words(data);
    if words.len() < 3 {
        return None;
    }
    let (context_start, context_end) = words[0];
    let (id_start, id_end) = words[1];
    let (challenge_start, challenge_end) = words[2];
    if !check_context(slice_subrange(data, context_start, context_end)) {
        return None;
    }
    let id = match parse_decimal(slice_subrange(data, id_start, id_end)) {
        Some(id) => id,
        None => {
            return None;
        },
    };
    Some(
        Challenge {
            context: copy_range(data, context_start, context_end),
            id,
            server_challenge: copy_range(data, challenge_start, challenge_end),
        },
    )
}

/// Whether a keyring file with the given permission bits is private to its
/// owner: neither the group nor others may read or write it.
pub open spec fn spec_keyring_is_private(mode: u32) -> bool {
    mode & 0o066 == 0
}

/// Whether a keyring file with the given permission bits is private to its
/// owner.
pub fn keyring_is_private(mode: u32) -> (private: bool)
    ensures
        private == spec_keyring_is_private(mode),
{
    mode & 0o066 == 0
}

/// The first offset from `i` on at which `s` holds a line feed, or the
/// length of `s`.
pub open spec fn spec_first_lf(s: Seq<u8>, i: int) -> int
    decreases s.len() - i,
{
    if i < 0 || i >= s.len() {
        s.len() as int
    } else if s[i] == 0x0a {
        i
    } else {
        spec_first_lf(s, i + 1)
    }
}

/// A line ends at or behind its start.
pub proof fn lemma_first_lf_bounds(s: Seq<u8>, i: int)
    requires
        0 <= i <= s.len(),
    ensures
        i <= spec_first_lf(s, i) <= s.len(),
        spec_first_lf(s, i) < s.len() ==> s[spec_first_lf(s, i)] == 0x0a,
        forall|j: int| i <= j < spec_first_lf(s, i) ==> s[j] != 0x0a,
    decreases s.len() - i,
{
    if i < s.len() && s[i] != 0x0a {
        lemma_first_lf_bounds(s, i + 1);
    }
}

/// Finds the first line feed from `i` on.
pub fn first_lf(s: &[u8], i: usize) -> (end: usize)
    requires
        i <= s.len(),
    ensures
        end == spec_first_lf(s@, i as int),
        i <= end <= s.len(),
{
    let mut k: usize = i;
    while k < s.len() && s[k] != 0x0a
        invariant
            i <= k <= s.len(),
            spec_first_lf(s@, i as int) == spec_first_lf(s@, k as int),
        decreases s.len() - k,
    {
        k = k + 1;
    }
    k
}

/// The cookie with the given number in the lines of a keyring file from
/// offset `i` on, where `found` is the cookie that the lines before hold.
/// Each line that is not blank holds the number of a cookie, the time it was
/// made, and the cookie; the first line with the number that is sought
/// counts. A line with fewer than three words, or with a first word that is
/// no number, makes the whole file unusable: `Err`.
pub open spec fn spec_find_cookie(contents: Seq<u8>, id: u64, i: int, found: Option<Seq<u8>>)
    -> core::result::Result<Option<Seq<u8>>, ()>
    decreases contents.len() - i,
{
    if i < 0 || i >= contents.len() {
        Ok(found)
    } else {
        let end = spec_first_lf(contents, i);
        let line = contents.subrange(i, end);
        let words = spec_words(line, 0);
        if words.len() > 0 && (words.len() < 3 || spec_parse_decimal(spec_word(line, words[0]))
            is None) {
            Err(())
        } else {
            let found = if words.len() > 0 && found is None && spec_parse_decimal(
                spec_word(line, words[0]),
            ) == Some(id) {
                Some(spec_word(line, words[2]))
            } else {
                found
            };
            proof {
                lemma_first_lf_bounds(contents, i);
            }
            if end >= contents.len() {
                Ok(found)
            } else {
                spec_find_cookie(contents, id, end + 1, found)
            }
        }
    }
}

/// Looks the cookie with the given number up in the contents of a keyring
/// file. `Err` where the file is unusable, `Ok(None)` where it does not
/// hold the cookie.
pub fn find_cookie(contents: &[u8], id: u64) -> (r: Result<Option<Vec<u8>>, ()>)
    ensures
        match r {
            Ok(Some(cookie)) => spec_find_cookie(contents@, id, 0, None) == Ok::<_, ()>(
                Some(cookie@),
            ),
            Ok(None) => spec_find_cookie(contents@, id, 0, None) == Ok::<Option<Seq<u8>>, ()>(None),
            Err(_) => spec_find_cookie(contents@, id, 0, None) is Err,
        },
{
    let mut found: Option<Vec<u8>> = None;
    let mut i: usize = 0;
    while i < contents.len()
        invariant
            i <= contents.len(),
            spec_find_cookie(contents@, id, 0, None) == spec_find_cookie(
                contents@,
                id,
                i as int,
                crate::connection::command::spec_bytes_view(found),
            ),
        decreases contents.len() - i,
    {
        let end = first_lf(contents, i);
        let line = slice_subrange(contents, i, end);
        let words = split_words(line);
        if words.len() > 0 {
            if words.len() < 3 {
                return Err(());
            }
            let (id_start, id_end) = words[0];
            let (cookie_start, cookie_end) = words[2];
            match parse_decimal(slice_subrange(line, id_start, id_end)) {
                None => {
                    return Err(());
                },
                Some(n) => {
                    if found.is_none() && n == id {
                        found = Some(copy_range(line, cookie_start, cookie_end));
                    }
                },
            }
        }
        i = if end < contents.len() {
            end + 1
        } else {
            end
        };
    }
    Ok(found)
}

/// `b` is an ASCII letter or digit.
pub open spec fn is_alphanumeric(b: u8) -> bool {
    (0x30 <= b <= 0x39) || (0x41 <= b <= 0x5a) || (0x61 <= b <= 0x7a)
}

/// The form of a client challenge: sixteen ASCII letters and digits.
pub open spec fn is_client_challenge(challenge: Seq<u8>) -> bool {
    &&& challenge.len() == 16
    &&& forall|i: int| 0 <= i < challenge.len() ==> is_alphanumeric(#[trigger] challenge[i])
}

/// Whether the bytes have the form of a client challenge.
pub fn check_client_challenge(challenge: &[u8]) -> (ok: bool)
    ensures
        ok == is_client_challenge(challenge@),
{
    if challenge.len() != 16 {
        return false;
    }
    let mut i: usize = 0;
    while i < 16
        invariant
            i <= 16,
            challenge@.len() == 16,
            forall|j: int| 0 <= j < i ==> is_alphanumeric(#[trigger] challenge@[j]),
        decreases 16 - i,
    {
        let b = challenge[i];
        if !((0x30 <= b && b <= 0x39) || (0x41 <= b && b <= 0x5a) || (0x61 <= b && b <= 0x7a)) {
            return false;
        }
        i = i + 1;
    }
    true
}

/// The bytes whose digest proves that the client knows the cookie: the
/// server's challenge, the client's challenge and the cookie, with a colon
/// between them.
pub open spec fn spec_digest_input(
    server_challenge: Seq<u8>,
    client_challenge: Seq<u8>,
    cookie: Seq<u8>,
) -> Seq<u8> {
    server_challenge + seq![0x3au8] + client_challenge + seq![0x3au8] + cookie
}

/// The bytes whose digest proves that the client knows the cookie.
pub fn digest_input(server_challenge: &[u8], client_challenge: &[u8], cookie: &[u8]) -> (input:
    Vec<u8>)
    ensures
        input@ == spec_digest_input(server_challenge@, client_challenge@, cookie@),
{
    let mut input: Vec<u8> = Vec::new();
    write_bytes(&mut input, server_challenge);
    input.push(0x3a);
    write_bytes(&mut input, client_challenge);
    input.push(0x3a);
    write_bytes(&mut input, cookie);
    assert(input@ =~= spec_digest_input(server_challenge@, client_challenge@, cookie@));
    input
}

/// The data that answers the server's challenge: the client's challenge, a
/// space, and the digest in lowercase hexadecimal.
pub open spec fn spec_cookie_response(client_challenge: Seq<u8>, digest: Seq<u8>) -> Seq<u8> {
    client_challenge + seq![0x20u8] + spec_hex(digest)
}

/// The data that answers the server's challenge.
pub fn cookie_response(client_challenge: &[u8], digest: &[u8]) -> (response: Vec<u8>)
    ensures
        response@ == spec_cookie_response(client_challenge@, digest@),
{
    let mut response: Vec<u8> = Vec::new();
    write_bytes(&mut response, client_challenge);
    response.push(0x20);
    write_hex(&mut response, digest);
    assert(response@ =~= spec_cookie_response(client_challenge@, digest@));
    response
}

} // verus!
