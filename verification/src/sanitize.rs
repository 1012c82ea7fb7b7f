//! Mapping arbitrary note titles to safe filesystem path components.

use vstd::prelude::*;
use vstd::string::*;

verus! {

/// What `char::is_alphanumeric` returns for a character. The Unicode
/// categories behind it are not restated here; the result depends on the
/// character alone.
pub uninterp spec fn char_is_alphanumeric(c: char) -> bool;

/// Relies on `char::is_alphanumeric`: true exactly for characters in the
/// Unicode letter and number categories, a function of the character alone.
pub assume_specification[ char::is_alphanumeric ](c: char) -> (r: bool)
    ensures
        r == char_is_alphanumeric(c),
;

/// Characters that pass through the sanitizer unchanged.
pub open spec fn is_allowed_char(c: char) -> bool {
    char_is_alphanumeric(c) || c == '-' || c == '_'
}

/// An allowed character stays; every other character becomes `'_'`.
pub open spec fn keep_char(c: char) -> char {
    if is_allowed_char(c) {
        c
    } else {
        '_'
    }
}

/// The sanitized form of a title: each character mapped through
/// [`keep_char`], truncated to the first 100 characters.
pub open spec fn sanitize_spec(title: Seq<char>) -> Seq<char> {
    Seq::new(
        if title.len() <= 100 {
            title.len()
        } else {
            100 as nat
        },
        |i: int| keep_char(title[i]),
    )
}

/// Maps a title to a safe path component: alphanumeric characters, `'-'`
/// and `'_'` are kept, every other character is replaced by `'_'`, and the
/// result is cut to the first 100 characters. A title that is already safe
/// and short enough comes back unchanged.
pub fn sanitize_filename(name: &str) -> (r: String)
    ensures
        r@ == sanitize_spec(name@),
        r@.len() <= 100,
        forall|i: int| 0 <= i < r@.len() ==> is_allowed_char(#[trigger] r@[i]),
        name@.len() <= 100 && (forall|i: int|
            0 <= i < name@.len() ==> is_allowed_char(#[trigger] name@[i])) ==> r@ == name@,
{
    let n = name.unicode_len();
    let limit = if n <= 100 {
        n
    } else {
        100
    };
    let mut out = String::new();
    let mut i: usize = 0;
    while i < limit
        invariant
            i <= limit,
            limit <= n,
            n == name@.len(),
            limit == if n <= 100 {
                n
            } else {
                100
            },
            out@ == Seq::new(i as nat, |j: int| keep_char(name@[j])),
        decreases limit - i,
    {
        let c = name.get_char(i);
        let kept = if c.is_alphanumeric() || c == '-' || c == '_' {
            c
        } else {
            '_'
        };
        out.push(kept);
        proof {
            assert(out@ =~= Seq::new((i + 1) as nat, |j: int| keep_char(name@[j])));
        }
        i += 1;
    }
    proof {
        assert(out@ =~= sanitize_spec(name@));
        if name@.len() <= 100 && (forall|j: int|
            0 <= j < name@.len() ==> is_allowed_char(#[trigger] name@[j])) {
            assert(out@ =~= name@);
        }
    }
    out
}

} // verus!
