//! Checks on names typed by the user: file names in the rename dialog and
//! track names in the track dialog.
use vstd::prelude::*;
use vstd::string::StrSliceExecFns;

verus! {

/// Whether `c` has the Unicode `White_Space` property, the property that
/// `char::is_whitespace` and `str::trim` go by.
pub open spec fn is_whitespace_char(c: char) -> bool {
    let u = c as u32;
    ||| 0x09 <= u <= 0x0d
    ||| u == 0x20
    ||| u == 0x85
    ||| u == 0xa0
    ||| u == 0x1680
    ||| 0x2000 <= u <= 0x200a
    ||| u == 0x2028
    ||| u == 0x2029
    ||| u == 0x202f
    ||| u == 0x205f
    ||| u == 0x3000
}

/// Whether `s` is empty once trimmed, that is, holds whitespace only.
pub open spec fn is_blank_spec(s: Seq<char>) -> bool {
    forall|i: int| 0 <= i < s.len() ==> #[trigger] is_whitespace_char(s[i])
}

/// Whether `s` begins with a dot, which would make a hidden file.
pub open spec fn starts_with_dot(s: Seq<char>) -> bool {
    s.len() > 0 && s[0] == '.'
}

/// A file name is valid when it is not blank, holds no path separator and
/// does not begin with a dot.
pub open spec fn file_name_ok(s: Seq<char>, separator: char) -> bool {
    !is_blank_spec(s) && !s.contains(separator) && !starts_with_dot(s)
}

/// Whether `c` is a whitespace character.
pub fn is_whitespace(c: char) -> (ws: bool)
    ensures
        ws == is_whitespace_char(c),
{
    let u = c as u32;
    (0x09 <= u && u <= 0x0d) || u == 0x20 || u == 0x85 || u == 0xa0 || u == 0x1680 || (0x2000 <= u
        && u <= 0x200a) || u == 0x2028 || u == 0x2029 || u == 0x202f || u == 0x205f || u == 0x3000
}

/// Whether `name` is empty once leading and trailing whitespace is trimmed.
pub fn is_blank(name: &str) -> (blank: bool)
    ensures
        blank == is_blank_spec(name@),
{
    let n = name.unicode_len();
    let mut i: usize = 0;
    while i < n
        invariant
            n == name@.len(),
            i <= n,
            forall|j: int| 0 <= j < i ==> #[trigger] is_whitespace_char(name@[j]),
        decreases n - i,
    {
        let c = name.get_char(i);
        if !is_whitespace(c) {
            assert(!is_whitespace_char(name@[i as int]));
            return false;
        }
        i += 1;
    }
    true
}

/// Whether `name` holds the character `c`.
fn contains_char(name: &str, c: char) -> (found: bool)
    ensures
        found == name@.contains(c),
{
    let n = name.unicode_len();
    let mut i: usize = 0;
    while i < n
        invariant
            n == name@.len(),
            i <= n,
            forall|j: int| 0 <= j < i ==> name@[j] != c,
        decreases n - i,
    {
        if name.get_char(i) == c {
            assert(name@[i as int] == c);
            return true;
        }
        i += 1;
    }
    false
}

/// Whether `name` is a valid file name on a platform whose path separator
/// is `separator`.
pub fn file_name_is_valid(name: &str, separator: char) -> (ok: bool)
    ensures
        ok == file_name_ok(name@, separator),
{
    if is_blank(name) {
        return false;
    }
    if contains_char(name, separator) {
        return false;
    }
    let n = name.unicode_len();
    !(n > 0 && name.get_char(0) == '.')
}

/// Reads `std::path::MAIN_SEPARATOR`, the path separator of the platform the
/// program was built for. Nothing is stated of the value: it differs from
/// one platform to another.
#[verifier::external_body]
fn main_separator() -> char {
    std::path::MAIN_SEPARATOR
}

/// Whether `name` is a valid new name for a file: not blank, no path
/// separator of this platform, no leading dot. The separator of the platform
/// cannot be named in a contract (it differs between platforms), so what
/// is stated here is the part that holds on every platform;
/// `file_name_is_valid` states the whole rule for a given separator.
pub fn validate_file_name(name: &str) -> (ok: bool)
    ensures
        ok ==> !is_blank_spec(name@) && !starts_with_dot(name@),
        is_blank_spec(name@) || starts_with_dot(name@) ==> !ok,
{
    let separator = main_separator();
    file_name_is_valid(name, separator)
}

} // verus!
