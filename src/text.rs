//! Character classes and case folding that the validation rules rely on.

use vstd::prelude::*;

verus! {

/// Whether `c` has the Unicode `Alphabetic` property.
pub uninterp spec fn alphabetic_of(c: char) -> bool;

/// Whether `c` has the Unicode `Uppercase` property.
pub uninterp spec fn uppercase_of(c: char) -> bool;

/// Whether `c` has the Unicode `Lowercase` property.
pub uninterp spec fn lowercase_of(c: char) -> bool;

/// Whether `c` is in one of the Unicode numeric general categories.
pub uninterp spec fn numeric_of(c: char) -> bool;

/// Whether `c` has the Unicode `White_Space` property.
pub uninterp spec fn whitespace_of(c: char) -> bool;

/// The lower-case form of a text, by Unicode case mapping.
pub uninterp spec fn lower_of(s: Seq<char>) -> Seq<char>;

/// Relies on `char::is_alphabetic`: a property of the character alone.
#[verifier::external_body]
fn is_alphabetic(c: char) -> (r: bool)
    ensures
        r == alphabetic_of(c),
{
    c.is_alphabetic()
}

/// Relies on `char::is_uppercase`: a property of the character alone.
#[verifier::external_body]
fn is_uppercase(c: char) -> (r: bool)
    ensures
        r == uppercase_of(c),
{
    c.is_uppercase()
}

/// Relies on `char::is_lowercase`: a property of the character alone.
#[verifier::external_body]
fn is_lowercase(c: char) -> (r: bool)
    ensures
        r == lowercase_of(c),
{
    c.is_lowercase()
}

/// Relies on `char::is_numeric`: a property of the character alone.
#[verifier::external_body]
fn is_numeric(c: char) -> (r: bool)
    ensures
        r == numeric_of(c),
{
    c.is_numeric()
}

/// Relies on `char::is_whitespace`: a property of the character alone.
#[verifier::external_body]
fn is_whitespace(c: char) -> (r: bool)
    ensures
        r == whitespace_of(c),
{
    c.is_whitespace()
}

/// Relies on `String::from_iter` over characters: the characters in order.
#[verifier::external_body]
pub(crate) fn string_from_chars(chars: Vec<char>) -> (r: String)
    ensures
        r@ == chars@,
{
    String::from_iter(chars)
}

/// Relies on `str::to_lowercase`: the result depends on the text alone, and
/// an empty text stays empty.
#[verifier::external_body]
pub(crate) fn to_lowercase(s: &str) -> (r: String)
    ensures
        r@ == lower_of(s@),
        s@.len() == 0 ==> r@.len() == 0,
{
    s.to_lowercase()
}

/// A class of characters that the validation rules look for.
#[derive(Clone, Copy, Debug, PartialEq, Eq, Structural)]
pub enum CharClass {
    NonAlphabetic,
    Uppercase,
    Lowercase,
    Numeric,
}

/// Whether `c` belongs to `class`.
pub open spec fn in_class(class: CharClass, c: char) -> bool {
    match class {
        CharClass::NonAlphabetic => !alphabetic_of(c),
        CharClass::Uppercase => uppercase_of(c),
        CharClass::Lowercase => lowercase_of(c),
        CharClass::Numeric => numeric_of(c),
    }
}

/// Whether some character of `s` belongs to `class`.
pub open spec fn has_char_in(s: Seq<char>, class: CharClass) -> bool {
    exists|i: int| 0 <= i < s.len() && in_class(class, #[trigger] s[i])
}

fn char_in_class(class: CharClass, c: char) -> (r: bool)
    ensures
        r == in_class(class, c),
{
    match class {
        CharClass::NonAlphabetic => !is_alphabetic(c),
        CharClass::Uppercase => is_uppercase(c),
        CharClass::Lowercase => is_lowercase(c),
        CharClass::Numeric => is_numeric(c),
    }
}

/// Whether some character of `s` belongs to `class`.
pub fn contains_char_in(s: &str, class: CharClass) -> (r: bool)
    ensures
        r == has_char_in(s@, class),
{
    let mut found = false;
    for c in it: s.chars()
        invariant
            it.seq() == s@,
            found == exists|i: int| 0 <= i < it.index() && in_class(class, #[trigger] s@[i]),
    {
        if char_in_class(class, c) {
            found = true;
        }
    }
    found
}

/// Whether `s` begins with `p`.
pub open spec fn starts_with(s: Seq<char>, p: Seq<char>) -> bool {
    p.len() <= s.len() && s.subrange(0, p.len() as int) == p
}

/// The characters of `s`, in order.
pub fn chars_of(s: &str) -> (r: Vec<char>)
    ensures
        r@ == s@,
{
    let mut v: Vec<char> = Vec::new();
    for c in it: s.chars()
        invariant
            it.seq() == s@,
            v@ == s@.subrange(0, it.index() as int),
    {
        v.push(c);
        proof {
            assert(s@.subrange(0, it.index() + 1) =~= s@.subrange(0, it.index() as int).push(c));
        }
    }
    proof {
        assert(s@.subrange(0, s@.len() as int) =~= s@);
    }
    v
}

/// Whether `s` begins with `p`.
pub fn has_prefix(s: &str, p: &str) -> (r: bool)
    ensures
        r == starts_with(s@, p@),
{
    let sv = chars_of(s);
    let pv = chars_of(p);
    if pv.len() > sv.len() {
        return false;
    }
    let mut i: usize = 0;
    while i < pv.len()
        invariant
            pv@ == p@,
            sv@ == s@,
            pv.len() <= sv.len(),
            i <= pv.len(),
            forall|j: int| 0 <= j < i ==> sv@[j] == pv@[j],
        decreases pv.len() - i,
    {
        if sv[i] != pv[i] {
            proof {
                assert(s@.subrange(0, p@.len() as int)[i as int] != p@[i as int]);
            }
            return false;
        }
        i = i + 1;
    }
    proof {
        assert(s@.subrange(0, p@.len() as int) =~= p@);
    }
    true
}

/// `s` without its leading white space.
pub open spec fn trim_start_of(s: Seq<char>) -> Seq<char>
    decreases s.len(),
{
    if s.len() > 0 && whitespace_of(s[0]) {
        trim_start_of(s.drop_first())
    } else {
        s
    }
}

/// `s` without its trailing white space.
pub open spec fn trim_end_of(s: Seq<char>) -> Seq<char>
    decreases s.len(),
{
    if s.len() > 0 && whitespace_of(s.last()) {
        trim_end_of(s.drop_last())
    } else {
        s
    }
}

/// `s` without leading and trailing white space.
pub open spec fn trim_of(s: Seq<char>) -> Seq<char> {
    trim_end_of(trim_start_of(s))
}

/// The pieces of `s` between commas, in order; a text without commas is one piece.
pub open spec fn comma_pieces(s: Seq<char>) -> Seq<Seq<char>>
    decreases s.len(),
{
    if s.len() == 0 {
        seq![Seq::empty()]
    } else {
        let init = comma_pieces(s.drop_last());
        if s.last() == ',' {
            init.push(Seq::empty())
        } else {
            init.update(init.len() - 1, init.last().push(s.last()))
        }
    }
}

proof fn lemma_comma_pieces_nonempty(s: Seq<char>)
    ensures
        comma_pieces(s).len() >= 1,
    decreases s.len(),
{
    if s.len() > 0 {
        lemma_comma_pieces_nonempty(s.drop_last());
    }
}

/// The characters of `s[lo..hi]` without leading and trailing white space.
fn trimmed(s: &Vec<char>, lo: usize, hi: usize) -> (r: String)
    requires
        lo <= hi <= s.len(),
    ensures
        r@ == trim_of(s@.subrange(lo as int, hi as int)),
{
    let mut a = lo;
    while a < hi && is_whitespace(s[a])
        invariant
            lo <= a <= hi <= s.len(),
            trim_start_of(s@.subrange(lo as int, hi as int)) == trim_start_of(s@.subrange(a as int, hi as int)),
        decreases hi - a,
    {
        assert(s@.subrange(a as int, hi as int).drop_first() =~= s@.subrange(a + 1, hi as int));
        a = a + 1;
    }
    proof {
        if a < hi {
            assert(s@.subrange(a as int, hi as int)[0] == s@[a as int]);
        }
    }
    let mut b = hi;
    while b > a && is_whitespace(s[b - 1])
        invariant
            lo <= a <= b <= hi <= s.len(),
            trim_end_of(s@.subrange(a as int, hi as int)) == trim_end_of(s@.subrange(a as int, b as int)),
        decreases b - a,
    {
        assert(s@.subrange(a as int, b as int).drop_last() =~= s@.subrange(a as int, b - 1));
        b = b - 1;
    }
    proof {
        if b > a {
            assert(s@.subrange(a as int, b as int).last() == s@[b - 1]);
        }
    }
    let mut piece: Vec<char> = Vec::new();
    piece.extend_from_slice(&s.as_slice()[a..b]);
    proof {
        assert(piece@ =~= s@.subrange(a as int, b as int));
    }
    string_from_chars(piece)
}

/// Splits `s` at each comma and trims white space off every piece.
pub fn split_trimmed(s: &str) -> (r: Vec<String>)
    ensures
        r@.map_values(|p: String| p@) == comma_pieces(s@).map_values(|p: Seq<char>| trim_of(p)),
{
    let chars = chars_of(s);
    let mut pieces: Vec<String> = Vec::new();
    let mut start: usize = 0;
    let mut i: usize = 0;
    while i < chars.len()
        invariant
            chars@ == s@,
            start <= i <= chars.len(),
            comma_pieces(chars@.subrange(0, i as int)).len() == pieces@.len() + 1,
            comma_pieces(chars@.subrange(0, i as int)).last() == chars@.subrange(start as int, i as int),
            forall|k: int| 0 <= k < pieces@.len() ==> #[trigger] pieces@[k]@ == trim_of(
                comma_pieces(chars@.subrange(0, i as int))[k],
            ),
        decreases chars.len() - i,
    {
        let ghost before = comma_pieces(chars@.subrange(0, i as int));
        proof {
            lemma_comma_pieces_nonempty(chars@.subrange(0, i as int));
            assert(chars@.subrange(0, i + 1).drop_last() =~= chars@.subrange(0, i as int));
            assert(chars@.subrange(0, i + 1).last() == chars@[i as int]);
        }
        if chars[i] == ',' {
            let piece = trimmed(&chars, start, i);
            pieces.push(piece);
            start = i + 1;
            i = i + 1;
            proof {
                let after = comma_pieces(chars@.subrange(0, i as int));
                assert(after == before.push(Seq::empty()));
                assert(chars@.subrange(start as int, i as int) =~= Seq::<char>::empty());
                assert forall|k: int| 0 <= k < pieces@.len() implies #[trigger] pieces@[k]@ == trim_of(after[k]) by {
                    if k < pieces@.len() - 1 {
                        assert(after[k] == before[k]);
                    }
                }
            }
        } else {
            i = i + 1;
            proof {
                let after = comma_pieces(chars@.subrange(0, i as int));
                assert(after == before.update(before.len() - 1, before.last().push(chars@[i - 1])));
                assert(chars@.subrange(start as int, i as int) =~= chars@.subrange(start as int, i - 1).push(chars@[i - 1]));
                assert forall|k: int| 0 <= k < pieces@.len() implies #[trigger] pieces@[k]@ == trim_of(after[k]) by {
                    assert(after[k] == before[k]);
                }
            }
        }
    }
    let last = trimmed(&chars, start, chars.len());
    pieces.push(last);
    proof {
        assert(chars@.subrange(0, chars@.len() as int) =~= s@);
        let all = comma_pieces(s@);
        assert(pieces@.map_values(|p: String| p@) =~= all.map_values(|p: Seq<char>| trim_of(p)));
    }
    pieces
}

} // verus!
