//! Small verified text utilities used by address-bar resolution.
//!
//! Trimming removes Unicode white space from both ends — the same
//! character set the standard trim removes; the placeholder substitution
//! replaces every `%s` of a search template, left to right and without
//! overlap, exactly as the standard two-character replace does.

use vstd::prelude::*;

verus! {

/// The characters trimmed from address-bar input: the Unicode
/// White_Space set.
pub open spec fn is_url_space(c: char) -> bool {
    ||| c == '\t'
    ||| c == '\n'
    ||| c == '\u{b}'
    ||| c == '\u{c}'
    ||| c == '\r'
    ||| c == ' '
    ||| c == '\u{85}'
    ||| c == '\u{a0}'
    ||| c == '\u{1680}'
    ||| c == '\u{2000}'
    ||| c == '\u{2001}'
    ||| c == '\u{2002}'
    ||| c == '\u{2003}'
    ||| c == '\u{2004}'
    ||| c == '\u{2005}'
    ||| c == '\u{2006}'
    ||| c == '\u{2007}'
    ||| c == '\u{2008}'
    ||| c == '\u{2009}'
    ||| c == '\u{200a}'
    ||| c == '\u{2028}'
    ||| c == '\u{2029}'
    ||| c == '\u{202f}'
    ||| c == '\u{205f}'
    ||| c == '\u{3000}'
}

/// Checks one character against the trimmed set.
pub fn is_url_space_char(c: char) -> (r: bool)
    ensures
        r == is_url_space(c),
{
    c == '\t' || c == '\n' || c == '\u{b}' || c == '\u{c}' || c == '\r' || c == ' '
        || c == '\u{85}' || c == '\u{a0}' || c == '\u{1680}' || (c >= '\u{2000}'
        && c <= '\u{200a}') || c == '\u{2028}' || c == '\u{2029}' || c == '\u{202f}'
        || c == '\u{205f}' || c == '\u{3000}'
}

/// The sequence with leading whitespace removed.
pub open spec fn trim_start_spec(s: Seq<char>) -> Seq<char>
    decreases s.len(),
{
    if s.len() > 0 && is_url_space(s[0]) {
        trim_start_spec(s.skip(1))
    } else {
        s
    }
}

/// The sequence with trailing whitespace removed.
pub open spec fn trim_end_spec(s: Seq<char>) -> Seq<char>
    decreases s.len(),
{
    if s.len() > 0 && is_url_space(s.last()) {
        trim_end_spec(s.drop_last())
    } else {
        s
    }
}

/// The sequence with whitespace removed from both ends.
pub open spec fn trim_spec(s: Seq<char>) -> Seq<char> {
    trim_end_spec(trim_start_spec(s))
}

/// Whether the sequence holds the character anywhere.
pub open spec fn contains_char(s: Seq<char>, c: char) -> bool {
    exists|k: int| 0 <= k < s.len() && s[k] == c
}

/// Whether the sequence begins with the character.
pub open spec fn starts_with_char(s: Seq<char>, c: char) -> bool {
    s.len() > 0 && s[0] == c
}

/// Trims Unicode white space from both ends of a string.
pub fn trim_str(s: &str) -> (r: String)
    ensures
        r@ == trim_spec(s@),
{
    let len = s.unicode_len();
    let mut i: usize = 0;
    assert(s@.skip(0) =~= s@);
    while i < len && is_url_space_char(s.get_char(i))
        invariant
            0 <= i <= len,
            len == s@.len(),
            trim_start_spec(s@) == trim_start_spec(s@.skip(i as int)),
        decreases len - i,
    {
        assert(s@.skip(i as int)[0] == s@[i as int]);
        assert(s@.skip(i as int).skip(1) =~= s@.skip(i as int + 1));
        i += 1;
    }
    assert(trim_start_spec(s@) == s@.skip(i as int)) by {
        if i < len {
            assert(s@.skip(i as int).len() > 0);
            assert(!is_url_space(s@.skip(i as int)[0]));
        } else {
            assert(s@.skip(i as int).len() == 0);
        }
    }
    let mut j: usize = len;
    assert(s@.subrange(i as int, len as int) =~= s@.skip(i as int));
    while j > i && is_url_space_char(s.get_char(j - 1))
        invariant
            i <= j <= len,
            len == s@.len(),
            i <= len,
            trim_end_spec(s@.skip(i as int)) == trim_end_spec(s@.subrange(i as int, j as int)),
        decreases j,
    {
        assert(s@.subrange(i as int, j as int).last() == s@[j as int - 1]);
        assert(s@.subrange(i as int, j as int).drop_last() =~= s@.subrange(
            i as int,
            j as int - 1,
        ));
        j -= 1;
    }
    assert(trim_end_spec(s@.skip(i as int)) == s@.subrange(i as int, j as int)) by {
        if j > i {
            assert(s@.subrange(i as int, j as int).last() == s@[j as int - 1]);
            assert(!is_url_space(s@.subrange(i as int, j as int).last()));
        } else {
            assert(s@.subrange(i as int, j as int).len() == 0);
        }
    }
    let out = s.substring_char(i, j);
    String::from_str(out)
}

/// Reports whether the string holds the character anywhere.
pub fn str_contains_char(s: &str, c: char) -> (r: bool)
    ensures
        r == contains_char(s@, c),
{
    let len = s.unicode_len();
    let mut i: usize = 0;
    while i < len
        invariant
            0 <= i <= len,
            len == s@.len(),
            forall|k: int| 0 <= k < i ==> s@[k] != c,
        decreases len - i,
    {
        if s.get_char(i) == c {
            assert(contains_char(s@, c));
            return true;
        }
        i += 1;
    }
    false
}

/// Reports whether the string begins with the character.
pub fn str_starts_with_char(s: &str, c: char) -> (r: bool)
    ensures
        r == starts_with_char(s@, c),
{
    if s.unicode_len() == 0 {
        return false;
    }
    s.get_char(0) == c
}

/// The template with every `%s` replaced by `val`, scanning left to right
/// without overlap.
pub open spec fn replace_placeholder(s: Seq<char>, val: Seq<char>) -> Seq<char>
    decreases s.len(),
{
    if s.len() >= 2 && s[0] == '%' && s[1] == 's' {
        val + replace_placeholder(s.skip(2), val)
    } else if s.len() >= 1 {
        seq![s[0]] + replace_placeholder(s.skip(1), val)
    } else {
        Seq::empty()
    }
}

/// Substitutes `value` for every `%s` of the template.
pub fn replace_placeholder_str(template: &str, value: &str) -> (r: String)
    ensures
        r@ == replace_placeholder(template@, value@),
{
    let len = template.unicode_len();
    let mut out = String::new();
    let mut i: usize = 0;
    assert(template@.skip(0) =~= template@);
    while i < len
        invariant
            0 <= i <= len,
            len == template@.len(),
            out@ + replace_placeholder(template@.skip(i as int), value@) == replace_placeholder(
                template@,
                value@,
            ),
        decreases len - i,
    {
        assert(template@.skip(i as int)[0] == template@[i as int]);
        if i + 1 < len && template.get_char(i) == '%' && template.get_char(i + 1) == 's' {
            assert(template@.skip(i as int)[1] == template@[i as int + 1]);
            assert(template@.skip(i as int).skip(2) =~= template@.skip(i as int + 2));
            out.append(value);
            i += 2;
        } else {
            assert(template@.skip(i as int).skip(1) =~= template@.skip(i as int + 1));
            let piece = template.substring_char(i, i + 1);
            assert(piece@ =~= seq![template@[i as int]]);
            out.append(piece);
            i += 1;
        }
    }
    assert(template@.skip(i as int).len() == 0);
    assert(out@ =~= replace_placeholder(template@, value@));
    out
}

/// Whether trimmed address-bar input looks like a bare domain: either it
/// holds a path separator without starting with one, or it is a dotted
/// name with no space that does not start with a dot.
pub open spec fn is_domain_like(s: Seq<char>) -> bool {
    (!starts_with_char(s, '/') && contains_char(s, '/')) || (!contains_char(s, ' ')
        && !starts_with_char(s, '.') && contains_char(s, '.'))
}

/// Checks the bare-domain shape of trimmed input.
pub fn is_domain_like_str(s: &str) -> (r: bool)
    ensures
        r == is_domain_like(s@),
{
    (!str_starts_with_char(s, '/') && str_contains_char(s, '/')) || (!str_contains_char(s, ' ')
        && !str_starts_with_char(s, '.') && str_contains_char(s, '.'))
}

} // verus!
