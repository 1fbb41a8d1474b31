//! Paths as platform-independent text: components separated by `/`.

use vstd::prelude::*;
use vstd::string::StrSliceExecFns;

verus! {

broadcast use vstd::string::group_string_axioms;

/// Text is portable when it holds no backslash, which some platforms read as
/// a separator and others as an ordinary character.
pub open spec fn portable(text: Seq<char>) -> bool {
    forall|i: int| 0 <= i < text.len() ==> text[i] != '\\'
}

/// `text` with every backslash replaced by the separator.
pub open spec fn portable_form(text: Seq<char>) -> Seq<char> {
    text.map_values(
        |c: char|
            if c == '\\' {
                '/'
            } else {
                c
            },
    )
}

/// Whether `c` can name a drive.
pub open spec fn drive_letter(c: char) -> bool {
    ('a' <= c && c <= 'z') || ('A' <= c && c <= 'Z')
}

/// A path is absolute when it begins at a root: `/`, or a drive such as `C:/`.
pub open spec fn absolute(path: Seq<char>) -> bool {
    ||| path.len() >= 1 && path[0] == '/'
    ||| path.len() >= 3 && drive_letter(path[0]) && path[1] == ':' && path[2] == '/'
}

/// A path is resolved when it is absolute and portable: it names the same
/// place whoever reads it, on whatever machine.
pub open spec fn resolved(path: Seq<char>) -> bool {
    absolute(path) && portable(path)
}

/// The form of `path` relative to `base`, or `None` where `path` lies outside
/// the subtree of `base`.
///
/// Both are taken as written: `path` lies under `base` when it is `base`
/// itself, or `base` followed by a separator and further components.
pub open spec fn relative_form(path: Seq<char>, base: Seq<char>) -> Option<Seq<char>> {
    if base.len() == 0 {
        Some(path)
    } else if !base.is_prefix_of(path) {
        None
    } else if path.len() == base.len() {
        Some(Seq::empty())
    } else if base.last() == '/' {
        Some(path.skip(base.len() as int))
    } else if path[base.len() as int] == '/' {
        Some(path.skip(base.len() as int + 1))
    } else {
        None
    }
}

/// Whether `text` holds no backslash.
pub fn is_portable(text: &str) -> (r: bool)
    ensures
        r == portable(text@),
{
    let chars = text.chars();
    for c in it: chars
        invariant
            it.seq() == text@,
            forall|i: int| 0 <= i < it.index() ==> text@[i] != '\\',
    {
        if c == '\\' {
            return false;
        }
    }
    true
}

/// `String::push` of std: it appends the character to the end of the text.
pub assume_specification[ String::push ](text: &mut String, c: char)
    ensures
        final(text)@ == old(text)@.push(c),
;

/// Brings `text` into portable form: every backslash becomes a separator.
pub fn to_portable(text: &str) -> (r: String)
    ensures
        r@ == portable_form(text@),
        portable(r@),
        portable(text@) ==> r@ == text@,
{
    let mut out = String::new();
    let chars = text.chars();
    for c in it: chars
        invariant
            it.seq() == text@,
            out@ == portable_form(text@.take(it.index())),
    {
        proof {
            assert(text@.take(it.index() + 1) == text@.take(it.index()).push(c));
        }
        if c == '\\' {
            out.push('/');
        } else {
            out.push(c);
        }
    }
    proof {
        assert(text@.take(text@.len() as int) == text@);
        if portable(text@) {
            assert(portable_form(text@) =~= text@);
        }
    }
    out
}

/// Whether `path` begins at a root.
pub fn is_absolute(path: &str) -> (r: bool)
    ensures
        r == absolute(path@),
{
    let n = path.unicode_len();
    if n >= 1 && path.get_char(0) == '/' {
        return true;
    }
    if n < 3 {
        return false;
    }
    let drive = path.get_char(0);
    let letter = ('a' <= drive && drive <= 'z') || ('A' <= drive && drive <= 'Z');
    letter && path.get_char(1) == ':' && path.get_char(2) == '/'
}

/// Whether `path` is absolute and portable.
pub fn is_resolved(path: &str) -> (r: bool)
    ensures
        r == resolved(path@),
{
    is_absolute(path) && is_portable(path)
}

/// Makes `path` relative to `base`.
pub fn relative_to(path: &str, base: &str) -> (r: Option<String>)
    ensures
        match r {
            Some(rest) => relative_form(path@, base@) == Some(rest@),
            None => relative_form(path@, base@) is None,
        },
{
    let path_len = path.unicode_len();
    let base_len = base.unicode_len();
    if base_len == 0 {
        return Some(path.to_owned());
    }
    if path_len < base_len {
        return None;
    }
    let head = path.substring_char(0, base_len).to_owned();
    if head != base.to_owned() {
        return None;
    }
    if path_len == base_len {
        return Some(String::new());
    }
    if base.get_char(base_len - 1) == '/' {
        Some(path.substring_char(base_len, path_len).to_owned())
    } else if path.get_char(base_len) == '/' {
        Some(path.substring_char(base_len + 1, path_len).to_owned())
    } else {
        None
    }
}

} // verus!
