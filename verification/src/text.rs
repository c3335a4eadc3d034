//! Query tokenization: lowercasing and whitespace splitting.

use vstd::prelude::*;
use vstd::string::{StrSliceExecFns, StringExecFns};

verus! {

/// What `str::to_lowercase` returns for a given character sequence. The
/// folding depends on the characters alone, so naming it is sound; no more
/// is claimed of it than the trusted wrapper below states.
pub uninterp spec fn lower_of(s: Seq<char>) -> Seq<char>;

/// Relies on str::to_lowercase: the result depends on the characters alone,
/// and an empty string stays empty.
#[verifier::external_body]
pub fn lowercase(s: &str) -> (r: String)
    ensures
        r@ == lower_of(s@),
        s@.len() == 0 ==> r@.len() == 0,
{
    s.to_lowercase()
}

/// The whitespace alphabet used to split queries into terms: the Unicode
/// `White_Space` code points.
pub open spec fn is_ws_char(c: char) -> bool {
    let u = c as u32;
    (0x09 <= u && u <= 0x0D) || u == 0x20 || u == 0x85 || u == 0xA0 || u == 0x1680 || (0x2000
        <= u && u <= 0x200A) || u == 0x2028 || u == 0x2029 || u == 0x202F || u == 0x205F || u
        == 0x3000
}

/// Whether `c` belongs to the whitespace alphabet.
pub fn is_whitespace_char(c: char) -> (r: bool)
    ensures
        r == is_ws_char(c),
{
    let u = c as u32;
    (0x09 <= u && u <= 0x0D) || u == 0x20 || u == 0x85 || u == 0xA0 || u == 0x1680 || (0x2000
        <= u && u <= 0x200A) || u == 0x2028 || u == 0x2029 || u == 0x202F || u == 0x205F || u
        == 0x3000
}

/// Character-wise string equality.
pub fn str_eq(a: &str, b: &str) -> (r: bool)
    ensures
        r == (a@ == b@),
{
    let alen = a.unicode_len();
    let blen = b.unicode_len();
    if alen != blen {
        return false;
    }
    let mut i: usize = 0;
    while i < alen
        invariant
            0 <= i <= alen,
            alen == a@.len(),
            alen == b@.len(),
            forall|j: int| 0 <= j < i ==> a@[j] == b@[j],
        decreases alen - i,
    {
        if a.get_char(i) != b.get_char(i) {
            return false;
        }
        i = i + 1;
    }
    proof {
        assert(a@ =~= b@);
    }
    true
}

/// The maximal runs of non-whitespace characters of `s`, in order: splitting
/// on whitespace with empty terms discarded.
pub open spec fn split_ws(s: Seq<char>) -> Seq<Seq<char>>
    decreases s.len(),
{
    if s.len() == 0 {
        Seq::<Seq<char>>::empty()
    } else {
        let prefix = s.drop_last();
        let toks = split_ws(prefix);
        let c = s.last();
        if is_ws_char(c) {
            toks
        } else if prefix.len() > 0 && !is_ws_char(prefix.last()) {
            toks.update(toks.len() - 1, toks.last().push(c))
        } else {
            toks.push(seq![c])
        }
    }
}

/// A text that ends in a non-whitespace character splits into at least one
/// term.
pub proof fn lemma_split_ends_in_term(s: Seq<char>)
    requires
        s.len() > 0,
        !is_ws_char(s.last()),
    ensures
        split_ws(s).len() > 0,
    decreases s.len(),
{
    let prefix = s.drop_last();
    if prefix.len() > 0 && !is_ws_char(prefix.last()) {
        lemma_split_ends_in_term(prefix);
    }
}

/// Tokenizer soundness: every term the split yields is non-empty and free of
/// whitespace — empty terms are discarded by construction.
pub proof fn lemma_split_terms_are_words(s: Seq<char>, i: int)
    requires
        0 <= i < split_ws(s).len(),
    ensures
        split_ws(s)[i].len() > 0,
        forall|j: int| 0 <= j < split_ws(s)[i].len() ==> !is_ws_char(#[trigger] split_ws(s)[i][j]),
    decreases s.len(),
{
    if s.len() == 0 {
    } else {
        let prefix = s.drop_last();
        let toks = split_ws(prefix);
        let c = s.last();
        if is_ws_char(c) {
            lemma_split_terms_are_words(prefix, i);
        } else if prefix.len() > 0 && !is_ws_char(prefix.last()) {
            lemma_split_ends_in_term(prefix);
            lemma_split_terms_are_words(prefix, i);
            if i == toks.len() - 1 {
                let grown = toks.last().push(c);
                assert(split_ws(s)[i] == grown);
                assert forall|j: int| 0 <= j < grown.len() implies !is_ws_char(
                    #[trigger] grown[j],
                ) by {
                    if j < grown.len() - 1 {
                        assert(grown[j] == toks[i][j]);
                    }
                }
            } else {
                assert(split_ws(s)[i] == toks[i]);
            }
        } else {
            if i == toks.len() {
                assert(split_ws(s)[i] == seq![c]);
            } else {
                lemma_split_terms_are_words(prefix, i);
                assert(split_ws(s)[i] == toks[i]);
            }
        }
    }
}

/// The views of a sequence of owned strings.
pub open spec fn views_of(ts: Seq<String>) -> Seq<Seq<char>> {
    ts.map_values(|t: String| t@)
}

/// Splits `s` on whitespace, discarding empty terms.
pub fn split_whitespace_terms(s: &str) -> (terms: Vec<String>)
    ensures
        views_of(terms@) == split_ws(s@),
{
    let n = s.unicode_len();
    let mut terms: Vec<String> = Vec::new();
    let mut in_token = false;
    let mut i: usize = 0;
    while i < n
        invariant
            0 <= i <= n,
            n == s@.len(),
            views_of(terms@) == split_ws(s@.take(i as int)),
            in_token == (i > 0 && !is_ws_char(s@[i as int - 1])),
            in_token ==> terms@.len() > 0,
        decreases n - i,
    {
        let c = s.get_char(i);
        proof {
            assert(s@.take(i as int + 1).drop_last() =~= s@.take(i as int));
        }
        if is_whitespace_char(c) {
            in_token = false;
            proof {
                assert(views_of(terms@) =~~= split_ws(s@.take(i as int + 1)));
            }
        } else {
            let piece = s.substring_char(i, i + 1);
            proof {
                assert(piece@ =~= seq![s@[i as int]]);
            }
            if in_token {
                let mut t = terms.pop().unwrap();
                t.append(piece);
                terms.push(t);
                proof {
                    let old_toks = split_ws(s@.take(i as int));
                    assert(views_of(terms@) =~~= old_toks.update(
                        old_toks.len() - 1,
                        old_toks.last().push(s@[i as int]),
                    ));
                    assert(views_of(terms@) =~~= split_ws(s@.take(i as int + 1)));
                }
            } else {
                terms.push(String::from_str(piece));
                proof {
                    assert(views_of(terms@) =~~= split_ws(s@.take(i as int)).push(
                        seq![s@[i as int]],
                    ));
                    assert(views_of(terms@) =~~= split_ws(s@.take(i as int + 1)));
                }
            }
            in_token = true;
        }
        i = i + 1;
    }
    proof {
        assert(s@.take(n as int) =~= s@);
    }
    terms
}

} // verus!
