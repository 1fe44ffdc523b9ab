use vstd::prelude::*;

use crate::text::{lower_of, lowercase};

verus! {

/// What `std::path::Path::extension` finds in a path given as text.
pub uninterp spec fn extension_of(path: Seq<char>) -> Option<Seq<char>>;

/// Relies on std::path::Path::extension: the extension of the path's last
/// component, a function of the path's text.
#[verifier::external_body]
fn path_extension(path: &str) -> (r: Option<String>)
    ensures
        match r {
            Some(e) => extension_of(path@) == Some(e@),
            None => extension_of(path@) is None,
        },
{
    match std::path::Path::new(path).extension() {
        Some(e) => match e.to_str() {
            Some(t) => Some(t.to_string()),
            None => None,
        },
        None => None,
    }
}

/// The extension of `path`, in lower case.
pub fn get_file_extension(path: &str) -> (r: Option<String>)
    ensures
        match extension_of(path@) {
            Some(e) => r is Some && r->Some_0@ == lower_of(e),
            None => r is None,
        },
{
    match path_extension(path) {
        Some(e) => Some(lowercase(e.as_str())),
        None => None,
    }
}

/// Characters that a file name may not hold.
pub open spec fn is_forbidden_char(c: char) -> bool {
    c == '/' || c == '\\' || c == ':' || c == '*' || c == '?' || c == '"' || c == '<' || c == '>'
        || c == '|'
}

/// A file name is valid when it is not empty, holds no forbidden character
/// and no `..`.
pub open spec fn valid_filename(s: Seq<char>) -> bool {
    &&& s.len() > 0
    &&& forall|i: int| 0 <= i < s.len() ==> !is_forbidden_char(#[trigger] s[i])
    &&& forall|i: int| 0 <= i < s.len() - 1 ==> !(#[trigger] s[i] == '.' && s[i + 1] == '.')
}

pub fn is_valid_filename(name: &str) -> (r: bool)
    ensures
        r == valid_filename(name@),
{
    let n = name.unicode_len();
    if n == 0 {
        return false;
    }
    let mut prev_dot = false;
    let mut i: usize = 0;
    while i < n
        invariant
            n == name@.len(),
            i <= n,
            prev_dot == (i > 0 && name@[i - 1] == '.'),
            forall|j: int| 0 <= j < i ==> !is_forbidden_char(#[trigger] name@[j]),
            forall|j: int| 0 <= j < i - 1 ==> !(#[trigger] name@[j] == '.' && name@[j + 1] == '.'),
        decreases n - i,
    {
        let c = name.get_char(i);
        if c == '/' || c == '\\' || c == ':' || c == '*' || c == '?' || c == '"' || c == '<' || c
            == '>' || c == '|' {
            return false;
        }
        if c == '.' && prev_dot {
            assert(name@[i - 1] == '.' && name@[(i - 1) + 1] == '.');
            return false;
        }
        prev_dot = c == '.';
        i = i + 1;
    }
    true
}

} // verus!
