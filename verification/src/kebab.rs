//! Project identifiers: the words of a text, joined by single hyphens.

use vstd::prelude::*;
use crate::text::{chars_of, has_no_capital, is_capital, is_plain_ascii, lowercase_of, string_of};

verus! {

/// A character that belongs to a word: an ASCII letter or digit. Every other
/// character, the hyphen included, separates words.
pub open spec fn is_word_char(c: char) -> bool {
    ('0' <= c <= '9') || ('a' <= c <= 'z') || ('A' <= c <= 'Z')
}

/// The words of `s` in their order, one hyphen between two neighbours.
///
/// Read from the end: a separator adds nothing; a word character is added,
/// after a hyphen where it begins a word that is not the first.
pub open spec fn kebab_of(s: Seq<char>) -> Seq<char>
    decreases s.len(),
{
    if s.len() == 0 {
        Seq::empty()
    } else {
        let before = s.drop_last();
        let c = s.last();
        if !is_word_char(c) {
            kebab_of(before)
        } else if before.len() > 0 && !is_word_char(before.last()) && kebab_of(before).len() > 0 {
            kebab_of(before).push('-').push(c)
        } else {
            kebab_of(before).push(c)
        }
    }
}

/// Word characters and hyphens only, no hyphen at the start, no two hyphens
/// in a row. A hyphen at the end is allowed.
pub open spec fn is_open_kebab(s: Seq<char>) -> bool {
    &&& forall|i: int| 0 <= i < s.len() ==> is_word_char(#[trigger] s[i]) || s[i] == '-'
    &&& s.len() > 0 ==> s[0] != '-'
    &&& forall|i: int| 0 <= i < s.len() - 1 ==> !(#[trigger] s[i] == '-' && s[i + 1] == '-')
}

/// Word characters and hyphens only, with no hyphen at the start or at the
/// end and no two hyphens in a row.
pub open spec fn is_kebab(s: Seq<char>) -> bool {
    &&& is_open_kebab(s)
    &&& s.len() > 0 ==> s.last() != '-'
}

/// A normalized identifier: lower-case letters, digits and hyphens, with no
/// hyphen at the start or at the end and no two hyphens in a row.
pub open spec fn is_identifier(s: Seq<char>) -> bool {
    is_kebab(s) && has_no_capital(s)
}

/// Every character separates words.
pub open spec fn all_separators(s: Seq<char>) -> bool {
    forall|i: int| 0 <= i < s.len() ==> !is_word_char(#[trigger] s[i])
}

/// Two texts with one hyphen between them, where neither is empty;
/// otherwise the one that is not empty.
pub open spec fn hyphenated(x: Seq<char>, y: Seq<char>) -> Seq<char> {
    if x.len() == 0 {
        y
    } else if y.len() == 0 {
        x
    } else {
        x.push('-') + y
    }
}

/// The result never starts or ends with a hyphen and never holds two in a
/// row; it is empty only where the text ends in no word.
pub proof fn lemma_kebab_of_is_kebab(s: Seq<char>)
    ensures
        is_kebab(kebab_of(s)),
        s.len() > 0 && is_word_char(s.last()) ==> kebab_of(s).len() > 0,
    decreases s.len(),
{
    if s.len() > 0 {
        let before = s.drop_last();
        let c = s.last();
        let k = kebab_of(before);
        lemma_kebab_of_is_kebab(before);
        if is_word_char(c) {
            if before.len() > 0 && !is_word_char(before.last()) && k.len() > 0 {
                let r = k.push('-').push(c);
                assert(kebab_of(s) == r);
                assert forall|i: int| 0 <= i < r.len() implies is_word_char(#[trigger] r[i])
                    || r[i] == '-' by {
                    if i < k.len() {
                        assert(r[i] == k[i]);
                    }
                }
                assert(r[0] == k[0]);
                assert forall|i: int| 0 <= i < r.len() - 1 implies !(#[trigger] r[i] == '-'
                    && r[i + 1] == '-') by {
                    if i < k.len() - 1 {
                        assert(r[i] == k[i] && r[i + 1] == k[i + 1]);
                    } else if i == k.len() - 1 {
                        assert(r[i] == k.last());
                    }
                }
            } else {
                let r = k.push(c);
                assert(kebab_of(s) == r);
                assert forall|i: int| 0 <= i < r.len() implies is_word_char(#[trigger] r[i])
                    || r[i] == '-' by {
                    if i < k.len() {
                        assert(r[i] == k[i]);
                    }
                }
                if k.len() > 0 {
                    assert(r[0] == k[0]);
                }
                assert forall|i: int| 0 <= i < r.len() - 1 implies !(#[trigger] r[i] == '-'
                    && r[i + 1] == '-') by {
                    if i < k.len() - 1 {
                        assert(r[i] == k[i] && r[i + 1] == k[i + 1]);
                    }
                }
            }
        }
    }
}

/// A text in which no hyphen stands at the start and no two stand in a row
/// is kept, but for a hyphen at its end.
proof fn lemma_kebab_of_open(s: Seq<char>)
    requires
        is_open_kebab(s),
    ensures
        kebab_of(s) == (if s.len() > 0 && s.last() == '-' {
            s.drop_last()
        } else {
            s
        }),
    decreases s.len(),
{
    if s.len() > 0 {
        let before = s.drop_last();
        let c = s.last();
        assert forall|i: int| 0 <= i < before.len() implies is_word_char(#[trigger] before[i])
            || before[i] == '-' by {
            assert(before[i] == s[i]);
        }
        assert forall|i: int| 0 <= i < before.len() - 1 implies !(#[trigger] before[i] == '-'
            && before[i + 1] == '-') by {
            assert(before[i] == s[i] && before[i + 1] == s[i + 1]);
        }
        if before.len() > 0 {
            assert(before[0] == s[0]);
            assert(before.last() == s[s.len() - 2]);
        }
        lemma_kebab_of_open(before);
        if is_word_char(c) {
            if before.len() > 0 && before.last() == '-' {
                assert(before.len() >= 2);
                assert(before.drop_last().push('-') =~= before);
            }
            assert(before.push(c) =~= s);
        }
    }
}

/// Normalizing what is already in normal form changes nothing.
pub proof fn lemma_kebab_of_fixed(s: Seq<char>)
    requires
        is_kebab(s),
    ensures
        kebab_of(s) == s,
{
    lemma_kebab_of_open(s);
}

/// Normalizing twice gives what normalizing once gives.
pub proof fn lemma_kebab_of_idempotent(s: Seq<char>)
    ensures
        kebab_of(kebab_of(s)) == kebab_of(s),
{
    lemma_kebab_of_is_kebab(s);
    lemma_kebab_of_fixed(kebab_of(s));
}

/// Separators at the end of a text add nothing.
pub proof fn lemma_kebab_of_trailing(a: Seq<char>, sep: Seq<char>)
    requires
        all_separators(sep),
    ensures
        kebab_of(a + sep) == kebab_of(a),
    decreases sep.len(),
{
    if sep.len() == 0 {
        assert(a + sep =~= a);
    } else {
        assert((a + sep).drop_last() =~= a + sep.drop_last());
        assert((a + sep).last() == sep.last());
        lemma_kebab_of_trailing(a, sep.drop_last());
    }
}

/// A run of separators between two texts, however long and whatever it is
/// made of, becomes one hyphen between their words, and nothing where one
/// side holds no word.
pub proof fn lemma_kebab_of_separated(a: Seq<char>, sep: Seq<char>, b: Seq<char>)
    requires
        sep.len() > 0,
        all_separators(sep),
    ensures
        kebab_of(a + sep + b) == hyphenated(kebab_of(a), kebab_of(b)),
    decreases b.len(),
{
    let ka = kebab_of(a);
    if b.len() == 0 {
        assert(a + sep + b =~= a + sep);
        lemma_kebab_of_trailing(a, sep);
    } else {
        let whole = a + sep + b;
        let rest = b.drop_last();
        let c = b.last();
        let before = a + sep + rest;
        let kr = kebab_of(rest);
        assert(whole.drop_last() =~= before);
        assert(whole.last() == c);
        lemma_kebab_of_separated(a, sep, rest);
        if is_word_char(c) {
            if rest.len() == 0 {
                assert(before.last() == sep.last());
                assert(ka.push('-') + kebab_of(b) =~= ka.push('-').push(c));
            } else {
                assert(before.last() == rest.last());
                lemma_kebab_of_is_kebab(rest);
                if is_word_char(rest.last()) {
                    assert(ka.push('-') + kr.push(c) =~= (ka.push('-') + kr).push(c));
                } else {
                    assert(ka.push('-') + kr.push('-').push(c) =~= (ka.push('-') + kr).push(
                        '-',
                    ).push(c));
                    assert(ka.push('-') + kr.push(c) =~= (ka.push('-') + kr).push(c));
                }
            }
        }
    }
}

/// A text made of one word is kept as it is.
pub proof fn lemma_kebab_of_word(s: Seq<char>)
    requires
        forall|i: int| 0 <= i < s.len() ==> is_word_char(#[trigger] s[i]),
    ensures
        kebab_of(s) == s,
{
    lemma_kebab_of_fixed(s);
}

/// Normalizing brings in no upper-case letter.
pub proof fn lemma_kebab_of_no_capital(s: Seq<char>)
    requires
        has_no_capital(s),
    ensures
        has_no_capital(kebab_of(s)),
    decreases s.len(),
{
    if s.len() > 0 {
        let before = s.drop_last();
        let c = s.last();
        let k = kebab_of(before);
        assert forall|i: int| 0 <= i < before.len() implies !is_capital(#[trigger] before[i]) by {
            assert(before[i] == s[i]);
        }
        lemma_kebab_of_no_capital(before);
        let r = kebab_of(s);
        assert forall|i: int| 0 <= i < r.len() implies !is_capital(#[trigger] r[i]) by {
            if i < k.len() {
                assert(r[i] == k[i]);
            }
        }
    }
}

/// Whether `c` is an ASCII letter or digit.
fn is_word(c: char) -> (r: bool)
    ensures
        r == is_word_char(c),
{
    ('0' <= c && c <= '9') || ('a' <= c && c <= 'z') || ('A' <= c && c <= 'Z')
}

/// Joins the words of a text by single hyphens, keeping each word as it is
/// written.
pub fn kebab_from_lowered(lower: &str) -> (r: String)
    ensures
        r@ == kebab_of(lower@),
{
    let v = chars_of(lower);
    let mut out: Vec<char> = Vec::new();
    let mut gap: bool = false;
    let mut i: usize = 0;
    assert(v@.take(0) =~= Seq::<char>::empty());
    while i < v.len()
        invariant
            i <= v.len(),
            out@ == kebab_of(v@.take(i as int)),
            gap == (i > 0 && !is_word_char(v@[i - 1])),
        decreases v.len() - i,
    {
        let c = v[i];
        proof {
            let t = v@.take(i + 1);
            assert(t.drop_last() =~= v@.take(i as int));
            assert(t.last() == c);
            if i > 0 {
                assert(v@.take(i as int).last() == v@[i - 1]);
            }
        }
        if is_word(c) {
            if gap && out.len() > 0 {
                out.push('-');
            }
            out.push(c);
            gap = false;
        } else {
            gap = true;
        }
        i += 1;
    }
    assert(v@.take(v.len() as int) =~= v@);
    string_of(&out)
}

/// The identifier that a text stands for: its lower-case equivalent, with
/// the words joined by single hyphens.
///
/// The result is a normalized identifier, and a text that is one already is
/// returned unchanged. An ASCII text without upper-case letters is its own
/// lower-case equivalent: its words are joined as they stand.
pub fn format_to_kebab_case(input: &str) -> (r: String)
    ensures
        r@ == kebab_of(lowercase_of(input@)),
        is_identifier(r@),
        is_identifier(input@) ==> r@ == input@,
        is_plain_ascii(input@) ==> r@ == kebab_of(input@),
{
    let lower = input.to_lowercase();
    proof {
        lemma_kebab_of_is_kebab(lower@);
        lemma_kebab_of_no_capital(lower@);
        if is_identifier(input@) {
            assert(is_plain_ascii(input@)) by {
                assert forall|i: int| 0 <= i < input@.len() implies (#[trigger] input@[i] as u32)
                    < 128 && !is_capital(input@[i]) by {
                    assert(is_word_char(input@[i]) || input@[i] == '-');
                }
            }
            lemma_kebab_of_fixed(input@);
        }
    }
    kebab_from_lowered(lower.as_str())
}

} // verus!
