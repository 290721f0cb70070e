//! Finding code in the program text by a pattern of bytes.

use vstd::prelude::*;
use vstd::string::StrSliceExecFns;

verus! {

/// Whether `c` is a digit of a number in base sixteen.
pub open spec fn is_hex_digit(c: char) -> bool {
    ('0' <= c && c <= '9') || ('a' <= c && c <= 'f') || ('A' <= c && c <= 'F')
}

/// Whether the two characters are a byte that has to be there.
pub open spec fn is_literal(a: char, b: char) -> bool {
    is_hex_digit(a) && is_hex_digit(b)
}

/// Whether the two characters stand for any byte.
pub open spec fn is_wildcard(a: char, b: char) -> bool {
    a == '?' && b == '?'
}

/// The number of the first tokens of a pattern among which one has to be a
/// byte that has to be there.
pub const LEADING_TOKENS: usize = 32;

/// The fewest tokens that a pattern can have.
pub const MIN_TOKENS: usize = 2;

/// The most tokens that a pattern can have.
pub const MAX_TOKENS: usize = 65535;

/// Whether token `m` of `pattern` is the first that is a byte that has to be
/// there.
pub open spec fn first_literal_at(pattern: Seq<char>, m: int) -> bool {
    &&& 0 <= m
    &&& 3 * m + 1 < pattern.len()
    &&& is_literal(pattern[3 * m], pattern[3 * m + 1])
    &&& forall|k: int| 0 <= k < m ==> is_wildcard(#[trigger] pattern[3 * k], pattern[3 * k + 1])
}

/// Whether `pattern` is a pattern of bytes: tokens of two characters with one
/// space between each two of them, each token two digits in base sixteen for
/// a byte that has to be there, or `??` for any byte, as many tokens as a
/// pattern can have, and among the first tokens one that is no `??`.
pub open spec fn spec_is_pattern(pattern: Seq<char>) -> bool {
    &&& pattern.len() % 3 == 2
    &&& MIN_TOKENS <= pattern.len() / 3 + 1 <= MAX_TOKENS
    &&& forall|i: int| 0 <= i < pattern.len() && i % 3 == 2 ==> #[trigger] pattern[i] == ' '
    &&& forall|m: int|
        0 <= m && 3 * m + 1 < pattern.len() ==> is_literal(
            #[trigger] pattern[3 * m],
            pattern[3 * m + 1],
        ) || is_wildcard(pattern[3 * m], pattern[3 * m + 1])
    &&& exists|m: int| m < LEADING_TOKENS && #[trigger] first_literal_at(pattern, m)
}

/// The offset that the scanner reports for the pattern in `data`, counted
/// from the start of `data`; `None` where it reports none. Which offset it
/// reports where `data` shows the pattern more than once, and whether it
/// reports every pattern that `data` shows, is the scanner's matter.
pub uninterp spec fn pattern_offset(data: Seq<u8>, pattern: Seq<char>) -> Option<usize>;

/// `lazysimd::get_offset_neon`: scans `data` for the pattern and gives the
/// offset at which it found it, or `None`. The scanner fails on a token that
/// is neither `??` nor a number in base sixteen, on a pattern of `??` alone,
/// and may fail on one of a single token, of very many tokens or with very
/// many `??` before the first byte, so the pattern has to be one in the
/// sense of `spec_is_pattern`. What it returns depends on `data` and
/// `pattern` alone: not on where `data` lies, nor on when it is asked.
#[verifier::external_body]
fn get_offset_neon(data: &[u8], pattern: &str) -> (r: Option<usize>)
    requires
        spec_is_pattern(pattern@),
    ensures
        r == pattern_offset(data@, pattern@),
{
    lazysimd::get_offset_neon(data, pattern)
}

/// Whether `c` is a digit of a number in base sixteen.
pub fn hex_digit(c: char) -> (r: bool)
    ensures
        r == is_hex_digit(c),
{
    ('0' <= c && c <= '9') || ('a' <= c && c <= 'f') || ('A' <= c && c <= 'F')
}

/// What the token at the characters `at` and `at + 1` is: `Some(true)` for a
/// byte that has to be there, `Some(false)` for any byte, `None` for no token.
pub fn token_at(pattern: &str, at: usize) -> (r: Option<bool>)
    requires
        at < pattern@.len() - 1,
        at < usize::MAX,
    ensures
        r == if is_literal(pattern@[at as int], pattern@[at + 1]) {
            Some(true)
        } else if is_wildcard(pattern@[at as int], pattern@[at + 1]) {
            Some(false)
        } else {
            None
        },
{
    let a: char = pattern.get_char(at);
    let b: char = pattern.get_char(at + 1);
    if hex_digit(a) && hex_digit(b) {
        Some(true)
    } else if a == '?' && b == '?' {
        Some(false)
    } else {
        None
    }
}

/// Whether `pattern` is a pattern of bytes.
pub fn is_pattern(pattern: &str) -> (r: bool)
    ensures
        r == spec_is_pattern(pattern@),
{
    let len: usize = pattern.unicode_len();
    if len % 3 != 2 || len / 3 + 1 < MIN_TOKENS || len / 3 >= MAX_TOKENS {
        return false;
    }
    let tokens: usize = len / 3 + 1;
    let mut first_literal: Option<usize> = None;
    let mut token: usize = 0;
    while token < tokens
        invariant
            len == pattern@.len(),
            len % 3 == 2,
            tokens == len / 3 + 1,
            token <= tokens,
            forall|i: int| 0 <= i < 3 * token && i < len && i % 3 == 2 ==> pattern@[i] == ' ',
            forall|m: int|
                0 <= m < token ==> is_literal(#[trigger] pattern@[3 * m], pattern@[3 * m + 1])
                    || is_wildcard(pattern@[3 * m], pattern@[3 * m + 1]),
            match first_literal {
                Some(m) => m < token && first_literal_at(pattern@, m as int),
                None => forall|k: int|
                    0 <= k < token ==> is_wildcard(#[trigger] pattern@[3 * k], pattern@[3 * k + 1]),
            },
        decreases tokens - token,
    {
        let at: usize = 3 * token;
        let kind: Option<bool> = token_at(pattern, at);
        let literal: bool = match kind {
            Some(literal) => literal,
            None => {
                proof {
                    let m = token as int;
                    assert(!(is_literal(pattern@[3 * m], pattern@[3 * m + 1]) || is_wildcard(
                        pattern@[3 * m],
                        pattern@[3 * m + 1],
                    )));
                }
                return false;
            },
        };
        if at < len - 2 {
            let gap: char = pattern.get_char(at + 2);
            if gap != ' ' {
                proof {
                    let i = at + 2;
                    assert(i % 3 == 2);
                    assert(pattern@[i] != ' ');
                }
                return false;
            }
        }
        if literal && first_literal.is_none() {
            proof {
                let m = token as int;
                assert(is_literal(pattern@[3 * m], pattern@[3 * m + 1]));
            }
            first_literal = Some(token);
        }
        proof {
            let m = token as int;
            assert(is_literal(pattern@[3 * m], pattern@[3 * m + 1]) || is_wildcard(
                pattern@[3 * m],
                pattern@[3 * m + 1],
            ));
        }
        token = token + 1;
    }
    proof {
        assert forall|m: int| 0 <= m && 3 * m + 1 < pattern@.len() implies is_literal(
            #[trigger] pattern@[3 * m],
            pattern@[3 * m + 1],
        ) || is_wildcard(pattern@[3 * m], pattern@[3 * m + 1]) by {
            assert(m < token);
        }
    }
    match first_literal {
        Some(m) => {
            if m < LEADING_TOKENS {
                true
            } else {
                proof {
                    lemma_first_literal_is_one(pattern@, m as int);
                }
                false
            }
        },
        None => {
            proof {
                assert forall|m: int| !first_literal_at(pattern@, m) by {
                    if first_literal_at(pattern@, m) {
                        assert(m < token);
                        assert(is_wildcard(pattern@[3 * m], pattern@[3 * m + 1]));
                    }
                }
            }
            false
        },
    }
}

/// A pattern has one first token that is a byte that has to be there.
pub proof fn lemma_first_literal_is_one(pattern: Seq<char>, m: int)
    requires
        first_literal_at(pattern, m),
    ensures
        forall|k: int| first_literal_at(pattern, k) ==> k == m,
{
    assert forall|k: int| first_literal_at(pattern, k) implies k == m by {
        if k < m {
            assert(is_wildcard(pattern[3 * k], pattern[3 * k + 1]));
        } else if m < k {
            assert(is_wildcard(pattern[3 * m], pattern[3 * m + 1]));
        }
    }
}

/// The offset that the scanner reports for `pattern` in `data`; `None` where
/// it reports none, and where `pattern` is no pattern of bytes, for which
/// the scanner is not asked.
pub fn find_pattern(data: &[u8], pattern: &str) -> (r: Option<usize>)
    ensures
        r == if spec_is_pattern(pattern@) {
            pattern_offset(data@, pattern@)
        } else {
            None
        },
{
    if is_pattern(pattern) {
        get_offset_neon(data, pattern)
    } else {
        None
    }
}

/// How a piece of code of the running process is known: by how far behind
/// the start of the program text it lies, or by a pattern of bytes that the
/// text is searched for.
#[derive(Clone, Copy, Debug)]
pub enum SymbolicReference {
    Offset(usize),
    Pattern(&'static str),
}

/// How far behind the start of the program text `text` the code that
/// `reference` stands for lies: the offset itself, or the offset that the
/// scanner reports for the pattern; `None` where it reports none, and for
/// what is no pattern.
pub open spec fn spec_offset_of(text: Seq<u8>, reference: SymbolicReference) -> Option<usize> {
    match reference {
        SymbolicReference::Offset(offset) => Some(offset),
        SymbolicReference::Pattern(pattern) => if spec_is_pattern(pattern@) {
            pattern_offset(text, pattern@)
        } else {
            None
        },
    }
}

/// The address of the code that `reference` stands for in a program text
/// that starts at the address `base` and holds the bytes `text`; `None`
/// where the scanner reports no offset for the pattern and where there is no
/// such address.
pub open spec fn spec_resolve(base: usize, text: Seq<u8>, reference: SymbolicReference) -> Option<
    usize,
> {
    match spec_offset_of(text, reference) {
        Some(offset) => if base + offset <= usize::MAX {
            Some((base + offset) as usize)
        } else {
            None
        },
        None => None,
    }
}

/// The address of the code that `reference` stands for in a program text
/// that starts at the address `base` and holds the bytes `text`.
pub fn resolve(base: usize, text: &[u8], reference: SymbolicReference) -> (r: Option<usize>)
    ensures
        r == spec_resolve(base, text@, reference),
{
    let offset: Option<usize> = match reference {
        SymbolicReference::Offset(offset) => Some(offset),
        SymbolicReference::Pattern(pattern) => find_pattern(text, pattern),
    };
    match offset {
        Some(offset) => if offset <= usize::MAX - base {
            Some(base + offset)
        } else {
            None
        },
        None => None,
    }
}


/// An address that was found for a pattern.
#[derive(Debug)]
pub struct FoundPattern {
    pub pattern: String,
    pub address: usize,
}

/// Whether none of `entries` before position `end` is one for `pattern`.
pub open spec fn not_found_before(entries: Seq<FoundPattern>, pattern: Seq<char>, end: int) -> bool {
    forall|j: int| 0 <= j < end ==> (#[trigger] entries[j]).pattern@ != pattern
}

/// Whether position `i` is the first of `entries` for `pattern`.
pub open spec fn found_at(entries: Seq<FoundPattern>, pattern: Seq<char>, i: int) -> bool {
    &&& 0 <= i < entries.len()
    &&& entries[i].pattern@ == pattern
    &&& not_found_before(entries, pattern, i)
}

/// Whether `after` is `before` with an entry of `address` for `pattern`
/// behind its entries.
pub open spec fn entered(
    before: Seq<FoundPattern>,
    after: Seq<FoundPattern>,
    pattern: Seq<char>,
    address: usize,
) -> bool {
    &&& after.len() == before.len() + 1
    &&& after.subrange(0, before.len() as int) == before
    &&& after.last().pattern@ == pattern
    &&& after.last().address == address
}

/// The addresses that were found by a pattern in one program text: the text
/// is searched once for each pattern, and an address, once found, stays.
#[derive(Debug)]
pub struct PatternCache {
    entries: Vec<FoundPattern>,
}

impl View for PatternCache {
    type V = Seq<FoundPattern>;

    closed spec fn view(&self) -> Seq<FoundPattern> {
        self.entries@
    }
}

impl PatternCache {
    /// A cache without entries.
    pub fn new() -> (r: Self)
        ensures
            r@ == Seq::<FoundPattern>::empty(),
    {
        PatternCache { entries: Vec::new() }
    }

    /// The number of entries.
    pub fn len(&self) -> (r: usize)
        ensures
            r == self@.len(),
    {
        self.entries.len()
    }

    /// The position of the first entry for `pattern`, if there is one.
    pub fn find(&self, pattern: &str) -> (r: Option<usize>)
        ensures
            match r {
                Some(i) => found_at(self@, pattern@, i as int),
                None => not_found_before(self@, pattern@, self@.len() as int),
            },
    {
        let wanted: String = pattern.to_owned();
        let mut i: usize = 0;
        while i < self.entries.len()
            invariant
                i <= self.entries@.len(),
                wanted@ == pattern@,
                not_found_before(self@, pattern@, i as int),
            decreases self.entries@.len() - i,
        {
            let same: bool = self.entries[i].pattern == wanted;
            if same {
                return Some(i);
            }
            i += 1;
        }
        None
    }

    /// The address of the code that `reference` stands for in the program
    /// text that starts at the address `base` and holds the bytes `text`.
    /// For a pattern that the cache holds, it is the address that the cache
    /// holds and the text is not searched; an address that is found for
    /// another pattern is held from then on. That no address was found is
    /// not kept: the next request searches again.
    pub fn get_or_resolve(&mut self, base: usize, text: &[u8], reference: SymbolicReference) -> (r:
        Option<usize>)
        ensures
            match reference {
                SymbolicReference::Offset(_) => r == spec_resolve(base, text@, reference)
                    && final(self)@ == old(self)@,
                SymbolicReference::Pattern(pattern) => {
                    &&& forall|i: int|
                        found_at(old(self)@, pattern@, i) ==> r == Some(old(self)@[i].address)
                            && final(self)@ == old(self)@
                    &&& not_found_before(old(self)@, pattern@, old(self)@.len() as int) ==> r
                        == spec_resolve(base, text@, reference) && match r {
                        Some(address) => entered(old(self)@, final(self)@, pattern@, address),
                        None => final(self)@ == old(self)@,
                    }
                },
            },
    {
        match reference {
            SymbolicReference::Offset(_) => resolve(base, text, reference),
            SymbolicReference::Pattern(pattern) => {
                match self.find(pattern) {
                    Some(i) => {
                        proof {
                            lemma_found_at_is_one(self@, pattern@, i as int);
                        }
                        Some(self.entries[i].address)
                    },
                    None => {
                        proof {
                            assert forall|i: int| !found_at(self@, pattern@, i) by {
                                if found_at(self@, pattern@, i) {
                                    assert(self@[i].pattern@ == pattern@);
                                }
                            }
                        }
                        let found: Option<usize> = resolve(base, text, reference);
                        match found {
                            Some(address) => {
                                self.entries.push(
                                    FoundPattern { pattern: pattern.to_owned(), address },
                                );
                                proof {
                                    let before = old(self)@;
                                    assert(self@.subrange(0, before.len() as int) =~= before);
                                }
                                Some(address)
                            },
                            None => None,
                        }
                    },
                }
            },
        }
    }
}

/// For one pattern a cache has one first entry at most.
pub proof fn lemma_found_at_is_one(entries: Seq<FoundPattern>, pattern: Seq<char>, i: int)
    requires
        found_at(entries, pattern, i),
    ensures
        forall|j: int| found_at(entries, pattern, j) ==> j == i,
        !not_found_before(entries, pattern, entries.len() as int),
{
    assert forall|j: int| found_at(entries, pattern, j) implies j == i by {
        if j < i {
            assert(entries[j].pattern@ == pattern);
        } else if i < j {
            assert(entries[i].pattern@ == pattern);
        }
    }
    if not_found_before(entries, pattern, entries.len() as int) {
        assert(entries[i].pattern@ == pattern);
    }
}


} // verus!
