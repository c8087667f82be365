//! Text utilities shared by the pipeline: the whitespace-normalization
//! algorithm applied to selected descriptions, and the syntactic check on
//! requested species names.

use vstd::prelude::*;

verus! {

/// The Unicode white-space code points: the characters whose maximal runs are
/// collapsed to a single ASCII space by [`clean_flavor_text`].
pub open spec fn is_space_char(c: char) -> bool {
    let u = c as u32;
    ||| u == 0x20
    ||| (0x09 <= u && u <= 0x0d)
    ||| u == 0x85
    ||| u == 0xa0
    ||| u == 0x1680
    ||| (0x2000 <= u && u <= 0x200a)
    ||| u == 0x2028
    ||| u == 0x2029
    ||| u == 0x202f
    ||| u == 0x205f
    ||| u == 0x3000
}

/// Runtime counterpart of [`is_space_char`].
pub fn is_space(c: char) -> (r: bool)
    ensures
        r == is_space_char(c),
{
    let u = c as u32;
    u == 0x20 || (0x09 <= u && u <= 0x0d) || u == 0x85 || u == 0xa0 || u == 0x1680
        || (0x2000 <= u && u <= 0x200a) || u == 0x2028 || u == 0x2029 || u == 0x202f
        || u == 0x205f || u == 0x3000
}

/// Whitespace normalization of the characters of `s`, carrying a flag that
/// says whether the previously consumed character belonged to a white-space
/// run: every maximal run of white space becomes one ASCII space, and a run
/// continuing an already-opened one is dropped entirely.
pub open spec fn normalize_rec(s: Seq<char>, prev_space: bool) -> Seq<char>
    decreases s.len(),
{
    if s.len() == 0 {
        Seq::empty()
    } else if is_space_char(s[0]) {
        if prev_space {
            normalize_rec(s.drop_first(), true)
        } else {
            seq![' '] + normalize_rec(s.drop_first(), true)
        }
    } else {
        seq![s[0]] + normalize_rec(s.drop_first(), false)
    }
}

/// Whitespace normalization: every maximal run of white-space characters,
/// leading and trailing runs included, is replaced by a single ASCII space.
pub open spec fn normalize_ws(s: Seq<char>) -> Seq<char> {
    normalize_rec(s, false)
}

/// Relies on `String::push`: appends the character at the end of the string.
#[verifier::external_body]
pub(crate) fn push_char(s: &mut String, c: char)
    ensures
        final(s)@ == old(s)@.push(c),
{
    s.push(c);
}

/// Collapse every maximal run of white space in `text`, newlines and
/// form feeds included, to a single ASCII space.
pub fn clean_flavor_text(text: &str) -> (r: String)
    ensures
        r@ == normalize_ws(text@),
{
    let n = text.unicode_len();
    let mut out = String::new();
    let mut prev_space = false;
    let mut i: usize = 0;
    proof {
        assert(text@.skip(0) =~= text@);
        assert(out@ + normalize_ws(text@) =~= normalize_ws(text@));
    }
    while i < n
        invariant
            n == text@.len(),
            i <= n,
            out@ + normalize_rec(text@.skip(i as int), prev_space) == normalize_ws(text@),
        decreases n - i,
    {
        let ghost out0 = out@;
        let ghost rest0 = text@.skip(i as int);
        let ghost rest1 = text@.skip(i as int + 1);
        proof {
            assert(rest0.drop_first() =~= rest1);
            assert(rest0[0] == text@[i as int]);
        }
        let c = text.get_char(i);
        if is_space(c) {
            if !prev_space {
                push_char(&mut out, ' ');
                proof {
                    assert(out@ + normalize_rec(rest1, true) =~= out0 + normalize_rec(rest0, false));
                }
            }
            prev_space = true;
        } else {
            push_char(&mut out, c);
            proof {
                assert(out@ + normalize_rec(rest1, false)
                    =~= out0 + normalize_rec(rest0, prev_space));
            }
            prev_space = false;
        }
        i = i + 1;
    }
    proof {
        assert(text@.skip(n as int) =~= Seq::<char>::empty());
        assert(out@ + normalize_rec(text@.skip(n as int), prev_space) =~= out@);
    }
    out
}

/// An ASCII letter, upper or lower case.
pub open spec fn is_ascii_letter(c: char) -> bool {
    let u = c as u32;
    (0x41 <= u && u <= 0x5a) || (0x61 <= u && u <= 0x7a)
}

/// A character allowed after the first one of a species name: an ASCII
/// letter, an ASCII digit, or a hyphen.
pub open spec fn is_name_char(c: char) -> bool {
    let u = c as u32;
    is_ascii_letter(c) || (0x30 <= u && u <= 0x39) || u == 0x2d
}

/// The shape rule on requested species names: non-empty, the first character
/// an ASCII letter, every further character an ASCII letter, digit or hyphen.
pub open spec fn valid_name(s: Seq<char>) -> bool {
    &&& s.len() > 0
    &&& is_ascii_letter(s[0])
    &&& forall|i: int| 1 <= i < s.len() ==> is_name_char(#[trigger] s[i])
}

/// Accept a requested species name if and only if it matches the shape rule
/// of [`valid_name`]. Ill-shaped names are rejected before any upstream call.
pub fn validate_name(name: &str) -> (r: bool)
    ensures
        r == valid_name(name@),
{
    let n = name.unicode_len();
    if n == 0 {
        return false;
    }
    let first = name.get_char(0);
    let u = first as u32;
    if !((0x41 <= u && u <= 0x5a) || (0x61 <= u && u <= 0x7a)) {
        return false;
    }
    let mut i: usize = 1;
    while i < n
        invariant
            n == name@.len(),
            1 <= i <= n,
            is_ascii_letter(name@[0]),
            forall|j: int| 1 <= j < i ==> is_name_char(#[trigger] name@[j]),
        decreases n - i,
    {
        let c = name.get_char(i);
        let v = c as u32;
        if !((0x41 <= v && v <= 0x5a) || (0x61 <= v && v <= 0x7a) || (0x30 <= v && v <= 0x39)
            || v == 0x2d) {
            return false;
        }
        i = i + 1;
    }
    true
}

/// Character-wise string comparison, with the equality of the views as its
/// contract.
pub fn str_eq(a: &str, b: &str) -> (r: bool)
    ensures
        r == (a@ == b@),
{
    let na = a.unicode_len();
    let nb = b.unicode_len();
    if na != nb {
        return false;
    }
    let mut i: usize = 0;
    while i < na
        invariant
            na == a@.len(),
            na == b@.len(),
            i <= na,
            forall|j: int| 0 <= j < i ==> a@[j] == b@[j],
        decreases na - i,
    {
        if a.get_char(i) != b.get_char(i) {
            return false;
        }
        i = i + 1;
    }
    proof {
        assert(a@ =~= b@);
    }
    true
}

/// A string is in normal form when its only white-space character is the
/// ASCII space and no two spaces are adjacent.
pub open spec fn ws_normal(s: Seq<char>) -> bool {
    &&& forall|i: int| 0 <= i < s.len() && is_space_char(#[trigger] s[i]) ==> s[i] == ' '
    &&& forall|i: int|
        0 <= i < s.len() - 1 ==> !(is_space_char(#[trigger] s[i]) && is_space_char(s[i + 1]))
}

/// Normalization always yields a string in normal form; with an open
/// white-space run the result moreover never starts with a space.
proof fn lemma_normalize_rec_normal(s: Seq<char>, prev_space: bool)
    ensures
        ws_normal(normalize_rec(s, prev_space)),
        prev_space && normalize_rec(s, prev_space).len() > 0 ==> !is_space_char(
            normalize_rec(s, prev_space)[0],
        ),
    decreases s.len(),
{
    if s.len() == 0 {
    } else {
        let rest = s.drop_first();
        lemma_normalize_rec_normal(rest, true);
        lemma_normalize_rec_normal(rest, false);
    }
}

/// Normalizing a string that is already in normal form gives it back
/// unchanged; with an open white-space run this needs the string not to start
/// with a space.
proof fn lemma_normalize_rec_of_normal(s: Seq<char>, prev_space: bool)
    requires
        ws_normal(s),
        prev_space ==> (s.len() > 0 ==> !is_space_char(s[0])),
    ensures
        normalize_rec(s, prev_space) == s,
    decreases s.len(),
{
    if s.len() == 0 {
        assert(normalize_rec(s, prev_space) =~= s);
    } else {
        let rest = s.drop_first();
        assert(forall|i: int| 0 <= i < rest.len() ==> rest[i] == s[i + 1]);
        if is_space_char(s[0]) {
            lemma_normalize_rec_of_normal(rest, true);
            assert(normalize_rec(s, false) =~= s);
        } else {
            lemma_normalize_rec_of_normal(rest, false);
            assert(normalize_rec(s, prev_space) =~= s);
        }
    }
}

/// Normalizing a string that is already in normal form returns it unchanged.
pub proof fn lemma_normalize_of_normal(s: Seq<char>)
    requires
        ws_normal(s),
    ensures
        normalize_ws(s) == s,
{
    lemma_normalize_rec_of_normal(s, false);
}

/// Whitespace normalization is idempotent.
pub proof fn lemma_normalize_idempotent(s: Seq<char>)
    ensures
        normalize_ws(normalize_ws(s)) == normalize_ws(s),
{
    lemma_normalize_rec_normal(s, false);
    lemma_normalize_of_normal(normalize_ws(s));
}

} // verus!
