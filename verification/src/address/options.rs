//! The options of an address: the `key=value` pairs behind the colon.

use vstd::prelude::*;
use vstd::slice::slice_subrange;

use crate::connection::command::bytes_eq;
use crate::message::fields::write_bytes;

verus! {

/// The first offset from `i` on at which `s` holds the byte `b`, or the
/// length of `s`.
pub open spec fn spec_find(s: Seq<u8>, b: u8, i: int) -> int
    decreases s.len() - i,
{
    if i < 0 || i >= s.len() {
        s.len() as int
    } else if s[i] == b {
        i
    } else {
        spec_find(s, b, i + 1)
    }
}

/// What is found stands at or behind the start of the search.
pub proof fn lemma_find_bounds(s: Seq<u8>, b: u8, i: int)
    requires
        0 <= i <= s.len(),
    ensures
        i <= spec_find(s, b, i) <= s.len(),
        spec_find(s, b, i) < s.len() ==> s[spec_find(s, b, i)] == b,
    decreases s.len() - i,
{
    if i < s.len() && s[i] != b {
        lemma_find_bounds(s, b, i + 1);
    }
}

/// Finds the first offset from `i` on that holds the byte `b`.
pub fn find(s: &[u8], b: u8, i: usize) -> (at: usize)
    requires
        i <= s.len(),
    ensures
        at == spec_find(s@, b, i as int),
        i <= at <= s.len(),
        at < s.len() ==> s@[at as int] == b,
{
    let mut k: usize = i;
    while k < s.len() && s[k] != b
        invariant
            i <= k <= s.len(),
            spec_find(s@, b, i as int) == spec_find(s@, b, k as int),
        decreases s.len() - k,
    {
        k = k + 1;
    }
    k
}

/// The value of the last pair with the given key, if there is one.
pub open spec fn spec_lookup(options: Seq<(Seq<u8>, Seq<u8>)>, key: Seq<u8>) -> Option<Seq<u8>>
    decreases options.len(),
{
    if options.len() == 0 {
        None
    } else if options.last().0 == key {
        Some(options.last().1)
    } else {
        spec_lookup(options.drop_last(), key)
    }
}

/// No key occurs twice.
pub open spec fn spec_unique(options: Seq<(Seq<u8>, Seq<u8>)>) -> bool {
    forall|i: int, j: int|
        0 <= i < j < options.len() ==> (#[trigger] options[i]).0 != (#[trigger] options[j]).0
}

/// A key that is not found is the key of no pair.
pub proof fn lemma_lookup_none(options: Seq<(Seq<u8>, Seq<u8>)>, key: Seq<u8>)
    requires
        spec_lookup(options, key) is None,
    ensures
        forall|i: int| 0 <= i < options.len() ==> (#[trigger] options[i]).0 != key,
    decreases options.len(),
{
    if options.len() > 0 {
        lemma_lookup_none(options.drop_last(), key);
        assert forall|i: int| 0 <= i < options.len() implies (#[trigger] options[i]).0 != key by {
            if i < options.len() - 1 {
                assert(options.drop_last()[i] == options[i]);
            }
        }
    }
}

/// The pairs that a text of options holds from offset `i` on, behind the
/// pairs in `acc`: the text is cut at each comma, and each piece at its first
/// `=` into a key and a value. A piece without `=`, and a key that occurs
/// again, make the text no options at all.
pub open spec fn spec_parse_options(s: Seq<u8>, i: int, acc: Seq<(Seq<u8>, Seq<u8>)>) -> Option<
    Seq<(Seq<u8>, Seq<u8>)>,
>
    decreases s.len() - i,
{
    if i < 0 || i > s.len() {
        None
    } else {
        let end = spec_find(s, 0x2c, i);
        let pair = s.subrange(i, end);
        let eq = spec_find(pair, 0x3d, 0);
        if eq >= pair.len() || spec_lookup(acc, pair.subrange(0, eq)) is Some {
            None
        } else {
            let all = acc.push((pair.subrange(0, eq), pair.subrange(eq + 1, pair.len() as int)));
            proof {
                lemma_find_bounds(s, 0x2c, i);
            }
            if end >= s.len() {
                Some(all)
            } else {
                spec_parse_options(s, end + 1, all)
            }
        }
    }
}

/// The pairs that stand in `text` at the places that `entries` names: for
/// each pair the offsets of the key, of the `=` and of the end of the value.
pub open spec fn spec_pairs(text: Seq<u8>, entries: Seq<(usize, usize, usize)>) -> Seq<
    (Seq<u8>, Seq<u8>),
> {
    Seq::new(
        entries.len(),
        |j: int|
            (
                text.subrange(entries[j].0 as int, entries[j].1 as int),
                text.subrange(entries[j].1 + 1, entries[j].2 as int),
            ),
    )
}

/// Every entry names a place inside the text.
pub open spec fn spec_entries_fit(text: Seq<u8>, entries: Seq<(usize, usize, usize)>) -> bool {
    forall|j: int|
        0 <= j < entries.len() ==> {
            let e = #[trigger] entries[j];
            e.0 <= e.1 && e.1 + 1 <= e.2 <= text.len()
        }
}

/// Looks a key up among the pairs that `entries` names.
fn lookup<'a>(text: &'a [u8], entries: &Vec<(usize, usize, usize)>, key: &[u8]) -> (value: Option<
    &'a [u8],
>)
    requires
        spec_entries_fit(text@, entries@),
    ensures
        match value {
            Some(v) => spec_lookup(spec_pairs(text@, entries@), key@) == Some(v@),
            None => spec_lookup(spec_pairs(text@, entries@), key@) is None,
        },
{
    let ghost pairs = spec_pairs(text@, entries@);
    let mut found: Option<&[u8]> = None;
    let mut j: usize = 0;
    assert(pairs.subrange(0, 0) =~= Seq::<(Seq<u8>, Seq<u8>)>::empty());
    while j < entries.len()
        invariant
            j <= entries@.len(),
            spec_entries_fit(text@, entries@),
            pairs == spec_pairs(text@, entries@),
            match found {
                Some(v) => spec_lookup(pairs.subrange(0, j as int), key@) == Some(v@),
                None => spec_lookup(pairs.subrange(0, j as int), key@) is None,
            },
        decreases entries.len() - j,
    {
        let (start, eq, end) = entries[j];
        let name = slice_subrange(text, start, eq);
        proof {
            let next = pairs.subrange(0, j + 1);
            assert(next.drop_last() =~= pairs.subrange(0, j as int));
            assert(next.last() == pairs[j as int]);
        }
        if bytes_eq(name, key) {
            found = Some(slice_subrange(text, eq + 1, end));
        }
        j = j + 1;
    }
    assert(pairs.subrange(0, pairs.len() as int) =~= pairs);
    found
}

/// The options of an address: pairs of a key and a value, in the order in
/// which they were written, with no key twice.
#[derive(Debug)]
pub struct Options {
    text: Vec<u8>,
    entries: Vec<(usize, usize, usize)>,
}

impl View for Options {
    type V = Seq<(Seq<u8>, Seq<u8>)>;

    closed spec fn view(&self) -> Seq<(Seq<u8>, Seq<u8>)> {
        spec_pairs(self.text@, self.entries@)
    }
}

impl Options {
    #[verifier::type_invariant]
    closed spec fn inv(&self) -> bool {
        &&& spec_entries_fit(self.text@, self.entries@)
        &&& spec_unique(self@)
    }

    /// No options.
    pub fn new() -> (options: Options)
        ensures
            options@ == Seq::<(Seq<u8>, Seq<u8>)>::empty(),
    {
        let options = Options { text: Vec::new(), entries: Vec::new() };
        assert(options@ =~= Seq::<(Seq<u8>, Seq<u8>)>::empty());
        options
    }

    /// Reads the options from their text. `None` where a piece between
    /// commas has no `=`, and where a key occurs twice.
    pub fn parse(text: &[u8]) -> (r: Option<Options>)
        ensures
            match r {
                Some(options) => spec_parse_options(text@, 0, Seq::empty()) == Some(options@)
                    && spec_unique(options@),
                None => spec_parse_options(text@, 0, Seq::empty()) is None,
            },
    {
        let mut entries: Vec<(usize, usize, usize)> = Vec::new();
        assert(spec_pairs(text@, entries@) =~= Seq::<(Seq<u8>, Seq<u8>)>::empty());
        let mut i: usize = 0;
        loop
            invariant_except_break
                spec_parse_options(text@, 0, Seq::empty()) == spec_parse_options(
                    text@,
                    i as int,
                    spec_pairs(text@, entries@),
                ),
            invariant
                i <= text.len(),
                spec_entries_fit(text@, entries@),
                spec_unique(spec_pairs(text@, entries@)),
            ensures
                spec_parse_options(text@, 0, Seq::empty()) == Some(spec_pairs(text@, entries@)),
                spec_entries_fit(text@, entries@),
                spec_unique(spec_pairs(text@, entries@)),
            decreases text.len() - i,
        {
            let end = find(text, 0x2c, i);
            let pair = slice_subrange(text, i, end);
            let eq = find(pair, 0x3d, 0);
            if eq >= pair.len() {
                return None;
            }
            let key = slice_subrange(pair, 0, eq);
            if lookup(text, &entries, key).is_some() {
                return None;
            }
            let ghost before = spec_pairs(text@, entries@);
            let ghost value = pair@.subrange(eq + 1, pair@.len() as int);
            proof {
                lemma_lookup_none(before, key@);
            }
            entries.push((i, i + eq, end));
            proof {
                assert(text@.subrange(i as int, i + eq) =~= key@);
                assert(text@.subrange(i + eq + 1, end as int) =~= value);
                assert(spec_pairs(text@, entries@) =~= before.push((key@, value)));
            }
            if end >= text.len() {
                break;
            }
            i = end + 1;
        }
        let mut copy: Vec<u8> = Vec::new();
        write_bytes(&mut copy, text);
        assert(copy@ =~= text@);
        Some(Options { text: copy, entries })
    }

    /// The value of the option with the given key, if there is one.
    pub fn get(&self, key: &[u8]) -> (value: Option<&[u8]>)
        ensures
            match value {
                Some(v) => spec_lookup(self@, key@) == Some(v@),
                None => spec_lookup(self@, key@) is None,
            },
    {
        proof {
            use_type_invariant(self);
        }
        lookup(self.text.as_slice(), &self.entries, key)
    }
}

} // verus!
