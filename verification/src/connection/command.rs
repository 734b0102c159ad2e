//! The commands of the authentication conversation and their text form.
//!
//! A command is one line of ASCII text that ends in CR LF: a keyword and,
//! for some commands, arguments that are separated by blanks. Binary
//! arguments are written in lowercase hexadecimal.

use vstd::prelude::*;
use vstd::slice::slice_subrange;
use vstd::string::StringSliceAdditionalSpecFns;
use vstd::utf8::{decode_utf8, valid_utf8};

use crate::error::{Error, ErrorKind};
use crate::guid::{hex_digit_value, is_guid, is_hex_digit, Guid};
use crate::message::fields::{text_from_utf8, write_bytes};

verus! {

/// `b` is a blank: a space, a tab, a line feed, a form feed or a carriage
/// return.
pub open spec fn is_blank(b: u8) -> bool {
    b == 0x20 || b == 0x09 || b == 0x0a || b == 0x0c || b == 0x0d
}

/// The first offset from `i` on at which `s` holds no blank, or the length of
/// `s`.
pub open spec fn spec_skip_blanks(s: Seq<u8>, i: int) -> int
    decreases s.len() - i,
{
    if i < 0 || i >= s.len() {
        s.len() as int
    } else if is_blank(s[i]) {
        spec_skip_blanks(s, i + 1)
    } else {
        i
    }
}

/// The first offset from `i` on at which `s` holds a blank, or the length of
/// `s`.
pub open spec fn spec_word_end(s: Seq<u8>, i: int) -> int
    decreases s.len() - i,
{
    if i < 0 || i >= s.len() {
        s.len() as int
    } else if is_blank(s[i]) {
        i
    } else {
        spec_word_end(s, i + 1)
    }
}

/// A word starts where blanks end, and ends behind its start.
pub proof fn lemma_word_bounds(s: Seq<u8>, i: int)
    requires
        0 <= i <= s.len(),
    ensures
        i <= spec_skip_blanks(s, i) <= s.len(),
        i <= spec_word_end(s, i) <= s.len(),
        spec_skip_blanks(s, i) < s.len() ==> !is_blank(s[spec_skip_blanks(s, i)]),
        i < s.len() && !is_blank(s[i]) ==> i < spec_word_end(s, i),
    decreases s.len() - i,
{
    if i < s.len() {
        lemma_word_bounds(s, i + 1);
    }
}

/// The words of `s` from offset `i` on, each as the offsets of its first
/// byte and of the byte behind its last: the longest runs of bytes that are
/// no blanks.
pub open spec fn spec_words(s: Seq<u8>, i: int) -> Seq<(int, int)>
    decreases s.len() - i,
{
    let start = spec_skip_blanks(s, i);
    if i < 0 || start >= s.len() {
        Seq::empty()
    } else {
        let end = spec_word_end(s, start);
        proof {
            lemma_word_bounds(s, i);
            lemma_word_bounds(s, start);
        }
        seq![(start, end)] + spec_words(s, end)
    }
}

/// The word of `s` that `range` stands for.
pub open spec fn spec_word(s: Seq<u8>, range: (int, int)) -> Seq<u8> {
    s.subrange(range.0, range.1)
}

/// Finds the first offset from `i` on that holds no blank.
fn skip_blanks(s: &[u8], i: usize) -> (start: usize)
    requires
        i <= s.len(),
    ensures
        start == spec_skip_blanks(s@, i as int),
        i <= start <= s.len(),
{
    let mut k: usize = i;
    while k < s.len() && is_blank_byte(s[k])
        invariant
            i <= k <= s.len(),
            spec_skip_blanks(s@, i as int) == spec_skip_blanks(s@, k as int),
        decreases s.len() - k,
    {
        k = k + 1;
    }
    k
}

/// Finds the first offset from `i` on that holds a blank.
fn word_end(s: &[u8], i: usize) -> (end: usize)
    requires
        i <= s.len(),
    ensures
        end == spec_word_end(s@, i as int),
        i <= end <= s.len(),
{
    let mut k: usize = i;
    while k < s.len() && !is_blank_byte(s[k])
        invariant
            i <= k <= s.len(),
            spec_word_end(s@, i as int) == spec_word_end(s@, k as int),
        decreases s.len() - k,
    {
        k = k + 1;
    }
    k
}

/// Whether `b` is a blank.
pub fn is_blank_byte(b: u8) -> (blank: bool)
    ensures
        blank == is_blank(b),
{
    b == 0x20 || b == 0x09 || b == 0x0a || b == 0x0c || b == 0x0d
}

/// Splits a line into its words.
pub fn split_words(s: &[u8]) -> (words: Vec<(usize, usize)>)
    ensures
        words@.len() == spec_words(s@, 0).len(),
        forall|k: int|
            0 <= k < words@.len() ==> {
                &&& (#[trigger] words@[k]).0 == spec_words(s@, 0)[k].0
                &&& words@[k].1 == spec_words(s@, 0)[k].1
                &&& words@[k].0 < words@[k].1 <= s@.len()
            },
{
    let mut words: Vec<(usize, usize)> = Vec::new();
    let mut i: usize = 0;
    loop
        invariant
            i <= s.len(),
            spec_words(s@, 0).len() == words@.len() + spec_words(s@, i as int).len(),
            forall|k: int|
                0 <= k < words@.len() ==> {
                    &&& (#[trigger] words@[k]).0 == spec_words(s@, 0)[k].0
                    &&& words@[k].1 == spec_words(s@, 0)[k].1
                    &&& words@[k].0 < words@[k].1 <= s@.len()
                },
            forall|k: int|
                0 <= k < spec_words(s@, i as int).len() ==> spec_words(s@, 0)[words@.len() + k]
                    == #[trigger] spec_words(s@, i as int)[k],
        ensures
            spec_words(s@, 0).len() == words@.len(),
            forall|k: int|
                0 <= k < words@.len() ==> {
                    &&& (#[trigger] words@[k]).0 == spec_words(s@, 0)[k].0
                    &&& words@[k].1 == spec_words(s@, 0)[k].1
                    &&& words@[k].0 < words@[k].1 <= s@.len()
                },
        decreases s.len() - i,
    {
        let start = skip_blanks(s, i);
        if start >= s.len() {
            break;
        }
        let end = word_end(s, start);
        proof {
            lemma_word_bounds(s@, i as int);
            lemma_word_bounds(s@, start as int);
            let here = spec_words(s@, i as int);
            let rest = spec_words(s@, end as int);
            assert(here == seq![(start as int, end as int)] + rest);
            assert(here[0] == (start as int, end as int));
            assert forall|k: int| 0 <= k < rest.len() implies spec_words(s@, 0)[words@.len() + 1
                + k] == #[trigger] rest[k] by {
                assert(here[k + 1] == rest[k]);
            }
        }
        words.push((start, end));
        i = end;
    }
    words
}

/// The lowercase hexadecimal digit of a number below 16.
pub open spec fn spec_hex_digit(n: u8) -> u8 {
    if n < 10 {
        (0x30 + n) as u8
    } else {
        (0x61 + n - 10) as u8
    }
}

/// The text of bytes in lowercase hexadecimal: two digits for each byte.
pub open spec fn spec_hex(bytes: Seq<u8>) -> Seq<u8>
    decreases bytes.len(),
{
    if bytes.len() == 0 {
        Seq::empty()
    } else {
        spec_hex(bytes.drop_last()) + seq![
            spec_hex_digit(bytes.last() / 16),
            spec_hex_digit(bytes.last() % 16),
        ]
    }
}

/// The bytes that a hexadecimal text of either case stands for: one for
/// each two digits. A text of odd length or with another character than a
/// hexadecimal digit stands for none.
pub open spec fn spec_hex_decode(text: Seq<u8>) -> Option<Seq<u8>>
    decreases text.len(),
{
    if text.len() == 0 {
        Some(Seq::empty())
    } else if text.len() == 1 || !is_hex_digit(text[text.len() - 2]) || !is_hex_digit(
        text[text.len() - 1],
    ) {
        None
    } else {
        match spec_hex_decode(text.subrange(0, text.len() - 2)) {
            None => None,
            Some(bytes) => Some(
                bytes.push(
                    (spec_hex_value(text[text.len() - 2]) * 16 + spec_hex_value(
                        text[text.len() - 1],
                    )) as u8,
                ),
            ),
        }
    }
}

/// The number that a hexadecimal digit of either case stands for.
pub open spec fn spec_hex_value(b: u8) -> int {
    if b <= 0x39 {
        b - 0x30
    } else if b <= 0x46 {
        b - 0x41 + 10
    } else {
        b - 0x61 + 10
    }
}

/// The text of a number in decimal, without leading zeros.
pub open spec fn spec_decimal(n: nat) -> Seq<u8>
    decreases n,
{
    if n < 10 {
        seq![(0x30 + n) as u8]
    } else {
        spec_decimal(n / 10).push((0x30 + n % 10) as u8)
    }
}

/// Appends the text of `bytes` in lowercase hexadecimal.
pub fn write_hex(out: &mut Vec<u8>, bytes: &[u8])
    ensures
        final(out)@ == old(out)@ + spec_hex(bytes@),
{
    let mut i: usize = 0;
    assert(bytes@.subrange(0, 0) =~= Seq::<u8>::empty());
    while i < bytes.len()
        invariant
            i <= bytes.len(),
            out@ == old(out)@ + spec_hex(bytes@.subrange(0, i as int)),
        decreases bytes.len() - i,
    {
        let b = bytes[i];
        let hi = b / 16;
        let lo = b % 16;
        out.push(
            if hi < 10 {
                0x30 + hi
            } else {
                0x61 + hi - 10
            },
        );
        out.push(
            if lo < 10 {
                0x30 + lo
            } else {
                0x61 + lo - 10
            },
        );
        proof {
            let next = bytes@.subrange(0, i + 1);
            assert(next.drop_last() =~= bytes@.subrange(0, i as int));
            assert(next.last() == b);
            assert(out@ =~= old(out)@ + spec_hex(next));
        }
        i = i + 1;
    }
    assert(bytes@.subrange(0, bytes@.len() as int) =~= bytes@);
}

/// Reads bytes from their hexadecimal text.
pub fn hex_decode(text: &[u8]) -> (bytes: Option<Vec<u8>>)
    ensures
        match bytes {
            Some(b) => spec_hex_decode(text@) == Some(b@),
            None => spec_hex_decode(text@) is None,
        },
{
    let mut out: Vec<u8> = Vec::new();
    let mut i: usize = 0;
    assert(text@.subrange(0, 0) =~= Seq::<u8>::empty());
    while i < text.len()
        invariant
            i <= text.len(),
            i % 2 == 0,
            spec_hex_decode(text@.subrange(0, i as int)) == Some(out@),
        decreases text.len() - i,
    {
        if text.len() - i < 2 {
            proof {
                lemma_hex_decode_prefix(text@, i as int);
            }
            return None;
        }
        let hi = hex_digit_value(text[i]);
        let lo = hex_digit_value(text[i + 1]);
        proof {
            let next = text@.subrange(0, i + 2);
            assert(next.subrange(0, next.len() - 2) =~= text@.subrange(0, i as int));
            assert(next[next.len() - 2] == text@[i as int]);
            assert(next[next.len() - 1] == text@[i + 1]);
            if hi is None || lo is None {
                assert(spec_hex_decode(next) is None);
                lemma_hex_decode_prefix(text@, i + 2);
            }
        }
        match (hi, lo) {
            (Some(h), Some(l)) => {
                out.push(h * 16 + l);
            },
            _ => {
                return None;
            },
        }
        i = i + 2;
    }
    assert(text@.subrange(0, text@.len() as int) =~= text@);
    Some(out)
}

/// A text is hexadecimal only if each of its prefixes of even length is, and
/// only if its length is even.
pub proof fn lemma_hex_decode_prefix(text: Seq<u8>, n: int)
    requires
        0 <= n <= text.len(),
        n % 2 == 0,
        spec_hex_decode(text.subrange(0, n)) is None || text.len() % 2 == 1,
    ensures
        spec_hex_decode(text) is None,
    decreases text.len(),
{
    if text.len() % 2 == 1 {
        if text.len() >= 2 {
            lemma_hex_decode_prefix(text.subrange(0, text.len() - 2), 0);
        }
    } else if text.len() == n {
        assert(text.subrange(0, n) =~= text);
    } else {
        let shorter = text.subrange(0, text.len() - 2);
        assert(shorter.subrange(0, n) =~= text.subrange(0, n));
        lemma_hex_decode_prefix(shorter, n);
    }
}

/// Appends the text of `n` in decimal.
pub fn write_decimal(out: &mut Vec<u8>, n: u32)
    ensures
        final(out)@ == old(out)@ + spec_decimal(n as nat),
    decreases n,
{
    if n >= 10 {
        write_decimal(out, n / 10);
    }
    out.push(0x30 + (n % 10) as u8);
    assert(out@ =~= old(out)@ + spec_decimal(n as nat));
}

/// The hexadecimal digit of a number below 16, as a text.
fn hex_digit_str(n: u8) -> (s: &'static str)
    requires
        n < 16,
    ensures
        s@ == spec_hex_digit_text(n),
{
    if n == 0 {
        "0"
    } else if n == 1 {
        "1"
    } else if n == 2 {
        "2"
    } else if n == 3 {
        "3"
    } else if n == 4 {
        "4"
    } else if n == 5 {
        "5"
    } else if n == 6 {
        "6"
    } else if n == 7 {
        "7"
    } else if n == 8 {
        "8"
    } else if n == 9 {
        "9"
    } else if n == 10 {
        "a"
    } else if n == 11 {
        "b"
    } else if n == 12 {
        "c"
    } else if n == 13 {
        "d"
    } else if n == 14 {
        "e"
    } else {
        "f"
    }
}

/// The lowercase hexadecimal digit of a number below 16, as a text of one
/// character.
pub open spec fn spec_hex_digit_text(n: u8) -> Seq<char> {
    if n == 0 {
        "0"@
    } else if n == 1 {
        "1"@
    } else if n == 2 {
        "2"@
    } else if n == 3 {
        "3"@
    } else if n == 4 {
        "4"@
    } else if n == 5 {
        "5"@
    } else if n == 6 {
        "6"@
    } else if n == 7 {
        "7"@
    } else if n == 8 {
        "8"@
    } else if n == 9 {
        "9"@
    } else if n == 10 {
        "a"@
    } else if n == 11 {
        "b"@
    } else if n == 12 {
        "c"@
    } else if n == 13 {
        "d"@
    } else if n == 14 {
        "e"@
    } else {
        "f"@
    }
}

/// The text of bytes in lowercase hexadecimal, as characters: two digits
/// for each byte.
pub open spec fn spec_hex_text(bytes: Seq<u8>) -> Seq<char>
    decreases bytes.len(),
{
    if bytes.len() == 0 {
        Seq::empty()
    } else {
        spec_hex_text(bytes.drop_last()) + spec_hex_digit_text(bytes.last() / 16)
            + spec_hex_digit_text(bytes.last() % 16)
    }
}

/// The bytes as a text in lowercase hexadecimal: each byte becomes two hex
/// digits.
pub fn bytes_to_hex(bytes: &[u8]) -> (s: String)
    ensures
        s@ == spec_hex_text(bytes@),
{
    let mut s = String::new();
    let mut i: usize = 0;
    assert(bytes@.subrange(0, 0) =~= Seq::<u8>::empty());
    while i < bytes.len()
        invariant
            i <= bytes.len(),
            s@ == spec_hex_text(bytes@.subrange(0, i as int)),
        decreases bytes.len() - i,
    {
        let b = bytes[i];
        s.append(hex_digit_str(b / 16));
        s.append(hex_digit_str(b % 16));
        proof {
            let next = bytes@.subrange(0, i + 1);
            assert(next.drop_last() =~= bytes@.subrange(0, i as int));
            assert(next.last() == b);
        }
        i = i + 1;
    }
    assert(bytes@.subrange(0, bytes@.len() as int) =~= bytes@);
    s
}


/// Whether two byte strings are the same.
pub fn bytes_eq(a: &[u8], b: &[u8]) -> (same: bool)
    ensures
        same == (a@ == b@),
{
    if a.len() != b.len() {
        return false;
    }
    let mut i: usize = 0;
    while i < a.len()
        invariant
            i <= a.len(),
            a@.len() == b@.len(),
            forall|j: int| 0 <= j < i ==> a@[j] == b@[j],
        decreases a.len() - i,
    {
        if a[i] != b[i] {
            return false;
        }
        i = i + 1;
    }
    assert(a@ =~= b@);
    true
}

/// Authentication mechanisms, in the order in which a client tries them.
///
/// See <https://dbus.freedesktop.org/doc/dbus-specification.html#auth-mechanisms>
#[derive(Clone, Copy, Debug, PartialEq, Eq, Structural)]
pub enum AuthMechanism {
    /// This is the recommended authentication mechanism on platforms where
    /// credentials can be transferred out-of-band, in particular Unix
    /// platforms that can perform credentials-passing over the `unix:`
    /// transport.
    External,
    /// This mechanism is designed to establish that a client has the ability
    /// to read a private file owned by the user being authenticated.
    Cookie,
    /// Does not perform any authentication at all, and should not be
    /// accepted by message buses.
    Anonymous,
}

impl AuthMechanism {
    /// The name of the mechanism in the conversation.
    pub open spec fn spec_name(self) -> Seq<u8> {
        match self {
            AuthMechanism::External => "EXTERNAL".spec_bytes(),
            AuthMechanism::Cookie => "DBUS_COOKIE_SHA1".spec_bytes(),
            AuthMechanism::Anonymous => "ANONYMOUS".spec_bytes(),
        }
    }

    /// The mechanism of the given name, if there is one.
    pub open spec fn spec_from_name(name: Seq<u8>) -> Option<AuthMechanism> {
        if name == "EXTERNAL".spec_bytes() {
            Some(AuthMechanism::External)
        } else if name == "DBUS_COOKIE_SHA1".spec_bytes() {
            Some(AuthMechanism::Cookie)
        } else if name == "ANONYMOUS".spec_bytes() {
            Some(AuthMechanism::Anonymous)
        } else {
            None
        }
    }

    /// The name of the mechanism, as a text.
    pub open spec fn spec_as_str(&self) -> Seq<char> {
        match self {
            AuthMechanism::External => "EXTERNAL"@,
            AuthMechanism::Cookie => "DBUS_COOKIE_SHA1"@,
            AuthMechanism::Anonymous => "ANONYMOUS"@,
        }
    }

    /// The name of the mechanism in the conversation.
    pub fn as_str(&self) -> (name: &'static str)
        ensures
            name.spec_bytes() == self.spec_name(),
            name@ == self.spec_as_str(),
    {
        match self {
            AuthMechanism::External => "EXTERNAL",
            AuthMechanism::Cookie => "DBUS_COOKIE_SHA1",
            AuthMechanism::Anonymous => "ANONYMOUS",
        }
    }

    /// The name of the mechanism, as an owned text.
    pub fn to_string(&self) -> (name: String)
        ensures
            name@ == self.spec_as_str(),
    {
        self.as_str().to_owned()
    }

    /// The mechanism of the given name. Any other text is
    /// [`Error::Handshake`].
    pub fn from_str(name: &str) -> (r: Result<AuthMechanism, Error>)
        ensures
            match r {
                Ok(m) => Self::spec_from_name(name.spec_bytes()) == Some(m),
                Err(e) => e is Handshake && Self::spec_from_name(name.spec_bytes()) is None,
            },
    {
        Self::from_bytes(name.as_bytes())
    }

    /// The mechanism of the given name. Any other text is
    /// [`Error::Handshake`].
    pub fn from_bytes(name: &[u8]) -> (r: Result<AuthMechanism, Error>)
        ensures
            match r {
                Ok(m) => Self::spec_from_name(name@) == Some(m),
                Err(e) => e is Handshake && Self::spec_from_name(name@) is None,
            },
    {
        if bytes_eq(name, "EXTERNAL".as_bytes()) {
            Ok(AuthMechanism::External)
        } else if bytes_eq(name, "DBUS_COOKIE_SHA1".as_bytes()) {
            Ok(AuthMechanism::Cookie)
        } else if bytes_eq(name, "ANONYMOUS".as_bytes()) {
            Ok(AuthMechanism::Anonymous)
        } else {
            Err(Error::Handshake("Unknown mechanism".to_owned()))
        }
    }
}

/// The commands of the plain-text authentication protocol, which can be
/// parsed from or serialized to text.
#[derive(Debug)]
pub enum Command {
    /// `AUTH`, with the mechanism and the initial response.
    Auth(Option<AuthMechanism>, Option<Vec<u8>>),
    /// `CANCEL`.
    Cancel,
    /// `BEGIN`.
    Begin,
    /// `DATA`, with the data.
    Data(Option<Vec<u8>>),
    /// `ERROR`, with the explanation.
    Error(String),
    /// `NEGOTIATE_UNIX_FD`.
    NegotiateUnixFD,
    /// `REJECTED`, with the mechanisms that the server supports.
    Rejected(Vec<AuthMechanism>),
    /// `OK`, with the GUID of the server.
    Okay(Guid),
    /// `AGREE_UNIX_FD`.
    AgreeUnixFD,
}

/// What a command holds.
pub enum CommandView {
    /// See [`Command::Auth`].
    Auth(Option<AuthMechanism>, Option<Seq<u8>>),
    /// See [`Command::Cancel`].
    Cancel,
    /// See [`Command::Begin`].
    Begin,
    /// See [`Command::Data`].
    Data(Option<Seq<u8>>),
    /// See [`Command::Error`].
    Error(Seq<char>),
    /// See [`Command::NegotiateUnixFD`].
    NegotiateUnixFD,
    /// See [`Command::Rejected`].
    Rejected(Seq<AuthMechanism>),
    /// See [`Command::Okay`].
    Okay(Seq<u8>),
    /// See [`Command::AgreeUnixFD`].
    AgreeUnixFD,
}

/// The bytes behind an optional byte vector.
pub open spec fn spec_bytes_view(bytes: Option<Vec<u8>>) -> Option<Seq<u8>> {
    match bytes {
        Some(b) => Some(b@),
        None => None,
    }
}

impl View for Command {
    type V = CommandView;

    open spec fn view(&self) -> CommandView {
        match self {
            Command::Auth(m, r) => CommandView::Auth(*m, spec_bytes_view(*r)),
            Command::Cancel => CommandView::Cancel,
            Command::Begin => CommandView::Begin,
            Command::Data(d) => CommandView::Data(spec_bytes_view(*d)),
            Command::Error(e) => CommandView::Error(e@),
            Command::NegotiateUnixFD => CommandView::NegotiateUnixFD,
            Command::Rejected(m) => CommandView::Rejected(m@),
            Command::Okay(g) => CommandView::Okay(g@),
            Command::AgreeUnixFD => CommandView::AgreeUnixFD,
        }
    }
}

/// The names of mechanisms in a row, with a space before each.
pub open spec fn spec_mechanism_list(mechanisms: Seq<AuthMechanism>) -> Seq<u8>
    decreases mechanisms.len(),
{
    if mechanisms.len() == 0 {
        Seq::empty()
    } else {
        spec_mechanism_list(mechanisms.drop_last()) + " ".spec_bytes()
            + mechanisms.last().spec_name()
    }
}

/// The line that a command is sent as: the keyword, the arguments with a
/// space before each, binary ones in hexadecimal, and CR LF.
pub open spec fn spec_command_bytes(command: CommandView) -> Seq<u8> {
    (match command {
        CommandView::Auth(Some(m), Some(r)) => "AUTH".spec_bytes() + " ".spec_bytes()
            + m.spec_name() + " ".spec_bytes() + spec_hex(r),
        CommandView::Auth(Some(m), None) => "AUTH".spec_bytes() + " ".spec_bytes() + m.spec_name(),
        CommandView::Auth(None, _) => "AUTH".spec_bytes(),
        CommandView::Cancel => "CANCEL".spec_bytes(),
        CommandView::Begin => "BEGIN".spec_bytes(),
        CommandView::Data(Some(d)) => "DATA".spec_bytes() + " ".spec_bytes() + spec_hex(d),
        CommandView::Data(None) => "DATA".spec_bytes(),
        CommandView::Error(e) => "ERROR".spec_bytes() + " ".spec_bytes() + vstd::utf8::encode_utf8(
            e,
        ),
        CommandView::NegotiateUnixFD => "NEGOTIATE_UNIX_FD".spec_bytes(),
        CommandView::Rejected(m) => "REJECTED".spec_bytes() + spec_mechanism_list(m),
        CommandView::Okay(g) => "OK".spec_bytes() + " ".spec_bytes() + g,
        CommandView::AgreeUnixFD => "AGREE_UNIX_FD".spec_bytes(),
    }) + "\r\n".spec_bytes()
}

/// The mechanisms that the words of `line` from word `k` on name, or `None`
/// where one of the words names no mechanism.
pub open spec fn spec_parse_mechanisms(line: Seq<u8>, words: Seq<(int, int)>, k: int) -> Option<
    Seq<AuthMechanism>,
>
    decreases words.len() - k,
{
    if k < 0 || k >= words.len() {
        Some(Seq::empty())
    } else {
        match AuthMechanism::spec_from_name(spec_word(line, words[k])) {
            None => None,
            Some(m) => match spec_parse_mechanisms(line, words, k + 1) {
                None => None,
                Some(rest) => Some(seq![m] + rest),
            },
        }
    }
}

/// The command that a line is, or [`ErrorKind::Handshake`]: for a line that
/// is not UTF-8 or has no word, for a first word that is none of the
/// keywords that a server sends, for `REJECTED` with a word that names no
/// mechanism, for `OK` without a GUID, and for `DATA` with a word that is
/// not hexadecimal. Words behind those that a command takes are passed over.
pub open spec fn spec_parse_command(line: Seq<u8>) -> core::result::Result<CommandView, ErrorKind> {
    let words = spec_words(line, 0);
    if !valid_utf8(line) || words.len() == 0 {
        Err(ErrorKind::Handshake)
    } else {
        let keyword = spec_word(line, words[0]);
        if keyword == "CANCEL".spec_bytes() {
            Ok(CommandView::Cancel)
        } else if keyword == "BEGIN".spec_bytes() {
            Ok(CommandView::Begin)
        } else if keyword == "DATA".spec_bytes() {
            if words.len() < 2 {
                Ok(CommandView::Data(None))
            } else {
                match spec_hex_decode(spec_word(line, words[1])) {
                    Some(data) => Ok(CommandView::Data(Some(data))),
                    None => Err(ErrorKind::Handshake),
                }
            }
        } else if keyword == "ERROR".spec_bytes() {
            Ok(CommandView::Error(decode_utf8(line)))
        } else if keyword == "NEGOTIATE_UNIX_FD".spec_bytes() {
            Ok(CommandView::NegotiateUnixFD)
        } else if keyword == "REJECTED".spec_bytes() {
            match spec_parse_mechanisms(line, words, 1) {
                Some(mechanisms) => Ok(CommandView::Rejected(mechanisms)),
                None => Err(ErrorKind::Handshake),
            }
        } else if keyword == "OK".spec_bytes() {
            if words.len() >= 2 && is_guid(spec_word(line, words[1])) {
                Ok(CommandView::Okay(spec_word(line, words[1])))
            } else {
                Err(ErrorKind::Handshake)
            }
        } else if keyword == "AGREE_UNIX_FD".spec_bytes() {
            Ok(CommandView::AgreeUnixFD)
        } else {
            Err(ErrorKind::Handshake)
        }
    }
}

impl Command {
    /// The line that the command is sent as.
    pub fn to_bytes(&self) -> (line: Vec<u8>)
        ensures
            line@ == spec_command_bytes(self@),
    {
        let mut out: Vec<u8> = Vec::new();
        match self {
            Command::Auth(mechanism, response) => {
                write_bytes(&mut out, "AUTH".as_bytes());
                match mechanism {
                    Some(m) => {
                        write_bytes(&mut out, " ".as_bytes());
                        write_bytes(&mut out, m.as_str().as_bytes());
                        match response {
                            Some(r) => {
                                write_bytes(&mut out, " ".as_bytes());
                                write_hex(&mut out, r.as_slice());
                            },
                            None => {},
                        }
                    },
                    None => {},
                }
            },
            Command::Cancel => {
                write_bytes(&mut out, "CANCEL".as_bytes());
            },
            Command::Begin => {
                write_bytes(&mut out, "BEGIN".as_bytes());
            },
            Command::Data(data) => {
                write_bytes(&mut out, "DATA".as_bytes());
                match data {
                    Some(d) => {
                        write_bytes(&mut out, " ".as_bytes());
                        write_hex(&mut out, d.as_slice());
                    },
                    None => {},
                }
            },
            Command::Error(explanation) => {
                write_bytes(&mut out, "ERROR".as_bytes());
                write_bytes(&mut out, " ".as_bytes());
                write_bytes(&mut out, explanation.as_str().as_bytes());
            },
            Command::NegotiateUnixFD => {
                write_bytes(&mut out, "NEGOTIATE_UNIX_FD".as_bytes());
            },
            Command::Rejected(mechanisms) => {
                write_bytes(&mut out, "REJECTED".as_bytes());
                let mut i: usize = 0;
                assert(mechanisms@.subrange(0, 0) =~= Seq::<AuthMechanism>::empty());
                while i < mechanisms.len()
                    invariant
                        i <= mechanisms.len(),
                        out@ == "REJECTED".spec_bytes() + spec_mechanism_list(
                            mechanisms@.subrange(0, i as int),
                        ),
                    decreases mechanisms.len() - i,
                {
                    write_bytes(&mut out, " ".as_bytes());
                    write_bytes(&mut out, mechanisms[i].as_str().as_bytes());
                    proof {
                        let next = mechanisms@.subrange(0, i + 1);
                        assert(next.drop_last() =~= mechanisms@.subrange(0, i as int));
                        assert(next.last() == mechanisms@[i as int]);
                        assert(out@ =~= "REJECTED".spec_bytes() + spec_mechanism_list(next));
                    }
                    i = i + 1;
                }
                assert(mechanisms@.subrange(0, mechanisms@.len() as int) =~= mechanisms@);
            },
            Command::Okay(guid) => {
                write_bytes(&mut out, "OK".as_bytes());
                write_bytes(&mut out, " ".as_bytes());
                write_bytes(&mut out, guid.as_bytes());
            },
            Command::AgreeUnixFD => {
                write_bytes(&mut out, "AGREE_UNIX_FD".as_bytes());
            },
        }
        write_bytes(&mut out, "\r\n".as_bytes());
        assert(out@ =~= spec_command_bytes(self@));
        out
    }

    /// Reads the mechanisms that the words from word `k` on name.
    fn parse_mechanisms(line: &[u8], words: &Vec<(usize, usize)>, k: usize) -> (r: Option<
        Vec<AuthMechanism>,
    >)
        requires
            k <= words@.len(),
            words@.len() == spec_words(line@, 0).len(),
            forall|j: int|
                0 <= j < words@.len() ==> {
                    &&& (#[trigger] words@[j]).0 == spec_words(line@, 0)[j].0
                    &&& words@[j].1 == spec_words(line@, 0)[j].1
                    &&& words@[j].0 < words@[j].1 <= line@.len()
                },
        ensures
            match r {
                Some(m) => spec_parse_mechanisms(line@, spec_words(line@, 0), k as int) == Some(
                    m@,
                ),
                None => spec_parse_mechanisms(line@, spec_words(line@, 0), k as int) is None,
            },
        decreases words@.len() - k,
    {
        if k >= words.len() {
            return Some(Vec::new());
        }
        let (start, end) = words[k];
        let name = slice_subrange(line, start, end);
        let first = match AuthMechanism::from_bytes(name) {
            Ok(m) => m,
            Err(_) => {
                return None;
            },
        };
        match Self::parse_mechanisms(line, words, k + 1) {
            None => None,
            Some(rest) => {
                let mut all: Vec<AuthMechanism> = Vec::new();
                all.push(first);
                let mut i: usize = 0;
                while i < rest.len()
                    invariant
                        i <= rest.len(),
                        all@ == seq![first] + rest@.subrange(0, i as int),
                    decreases rest.len() - i,
                {
                    all.push(rest[i]);
                    i = i + 1;
                    assert(all@ =~= seq![first] + rest@.subrange(0, i as int));
                }
                assert(rest@.subrange(0, rest@.len() as int) =~= rest@);
                Some(all)
            },
        }
    }

    /// Reads a command from the text of its line.
    pub fn from_str(line: &str) -> (r: Result<Command, Error>)
        ensures
            match r {
                Ok(command) => spec_parse_command(line.spec_bytes()) == Ok::<_, ErrorKind>(
                    command@,
                ),
                Err(e) => e is Handshake && spec_parse_command(line.spec_bytes()) is Err,
            },
    {
        Self::parse(line.as_bytes())
    }

    /// Reads a command from the bytes of its line.
    pub fn parse(line: &[u8]) -> (r: Result<Command, Error>)
        ensures
            match r {
                Ok(command) => spec_parse_command(line@) == Ok::<_, ErrorKind>(command@),
                Err(e) => e is Handshake && spec_parse_command(line@) is Err,
            },
    {
        let text = match text_from_utf8(line) {
            Some(text) => text,
            None => {
                return Err(Error::Handshake("command is not UTF-8".to_owned()));
            },
        };
        let words = split_words(line);
        if words.len() == 0 {
            return Err(Error::Handshake("Unknown command".to_owned()));
        }
        let (start, end) = words[0];
        let keyword = slice_subrange(line, start, end);
        if bytes_eq(keyword, "CANCEL".as_bytes()) {
            Ok(Command::Cancel)
        } else if bytes_eq(keyword, "BEGIN".as_bytes()) {
            Ok(Command::Begin)
        } else if bytes_eq(keyword, "DATA".as_bytes()) {
            if words.len() < 2 {
                Ok(Command::Data(None))
            } else {
                let (start, end) = words[1];
                match hex_decode(slice_subrange(line, start, end)) {
                    Some(data) => Ok(Command::Data(Some(data))),
                    None => Err(Error::Handshake("data is not hexadecimal".to_owned())),
                }
            }
        } else if bytes_eq(keyword, "ERROR".as_bytes()) {
            Ok(Command::Error(text))
        } else if bytes_eq(keyword, "NEGOTIATE_UNIX_FD".as_bytes()) {
            Ok(Command::NegotiateUnixFD)
        } else if bytes_eq(keyword, "REJECTED".as_bytes()) {
            match Self::parse_mechanisms(line, &words, 1) {
                Some(mechanisms) => Ok(Command::Rejected(mechanisms)),
                None => Err(Error::Handshake("Unknown mechanism".to_owned())),
            }
        } else if bytes_eq(keyword, "OK".as_bytes()) {
            if words.len() < 2 {
                return Err(Error::Handshake("Missing OK server GUID!".to_owned()));
            }
            let (start, end) = words[1];
            match Guid::from_bytes(slice_subrange(line, start, end)) {
                Ok(guid) => Ok(Command::Okay(guid)),
                Err(_) => Err(Error::Handshake("Invalid OK server GUID".to_owned())),
            }
        } else if bytes_eq(keyword, "AGREE_UNIX_FD".as_bytes()) {
            Ok(Command::AgreeUnixFD)
        } else {
            Err(Error::Handshake("Unknown command".to_owned()))
        }
    }
}

} // verus!
