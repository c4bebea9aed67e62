use vstd::prelude::*;
use vstd::string::*;
use crate::text::ends_with;

verus! {

/// `res` is `base` extended by the relative path `part`, with a path
/// separator (`/` or `\`) between them where the platform adds one.
pub open spec fn joins(base: Seq<char>, part: Seq<char>, res: Seq<char>) -> bool {
    ||| res == base + part
    ||| res == base + seq!['/'] + part
    ||| res == base + seq!['\\'] + part
}

/// `p` is `base` extended by `x`, then by `y`.
pub open spec fn joins2(base: Seq<char>, x: Seq<char>, y: Seq<char>, p: Seq<char>) -> bool {
    exists|a: Seq<char>| joins(base, x, a) && joins(a, y, p)
}

/// `p` is `base` extended by `x`, then by `y`, then by `z`.
pub open spec fn joins3(base: Seq<char>, x: Seq<char>, y: Seq<char>, z: Seq<char>, p: Seq<char>) -> bool {
    exists|a: Seq<char>| joins(base, x, a) && joins2(a, y, z, p)
}

/// The text of an optional directory, empty when there is none.
pub open spec fn dir_or_empty(d: Option<String>) -> Seq<char> {
    match d {
        Some(s) => s@,
        None => Seq::empty(),
    }
}

/// The text of an optional directory, `.` when there is none.
pub open spec fn dir_or_dot(d: Option<String>) -> Seq<char> {
    match d {
        Some(s) => s@,
        None => "."@,
    }
}

/// A path that `Path::join` appends rather than substitutes: not empty,
/// not starting with a separator and without a drive prefix.
pub open spec fn is_relative_part(part: Seq<char>) -> bool {
    &&& part.len() > 0
    &&& part[0] != '/'
    &&& part[0] != '\\'
    &&& !(part.len() >= 2 && part[1] == ':')
}

/// A base that `Path::join` extends as it stands: not a Windows verbatim
/// path (`\\?\...`, here anything that begins with `\\?`), which
/// `PathBuf::push` rebuilds from its components.
pub open spec fn plain_base(b: Seq<char>) -> bool {
    !(b.len() >= 3 && b[0] == '\\' && b[1] == '\\' && b[2] == '?')
}

/// A single file or directory name: a relative part with no separator that
/// is neither `.` nor `..`.
pub open spec fn is_name(part: Seq<char>) -> bool {
    &&& is_relative_part(part)
    &&& !part.contains('/')
    &&& !part.contains('\\')
    &&& part != "."@
    &&& part != ".."@
}

/// `Path::new(base).join(part)`, as text.
///
/// Trusted: calls `std::path::Path::join`. For a relative `part` (not
/// empty, no root, no drive prefix) the documentation of `PathBuf::push`
/// says the part is appended, with the platform's separator in between when
/// `base` is not empty and does not already end in one; on Windows a base
/// with a verbatim prefix (`\\?\`) is instead rebuilt from its components
/// with `.` and `..` resolved. The contract claims: for a relative part and
/// a base that does not begin with `\\?`, the result is `base`, possibly
/// one separator, then `part`; for an empty base, exactly `part`; and for a
/// single name, whatever the base, the result ends with that name (the last
/// component pushed). Which separator is used, and when, depends on the
/// platform and is not stated; nor is the rest of the result for a verbatim
/// base, or any of it for a `part` that is not relative, which replaces
/// `base`.
#[verifier::external_body]
pub(crate) fn join_path(base: &str, part: &str) -> (res: String)
    ensures
        is_relative_part(part@) && plain_base(base@) ==> joins(base@, part@, res@),
        is_relative_part(part@) && base@.len() == 0 ==> res@ == part@,
        is_name(part@) ==> ends_with(res@, part@),
{
    std::path::Path::new(base).join(part).to_string_lossy().into_owned()
}

/// Joining a plain base with a relative part that does not begin with `?`
/// gives a plain path again.
pub proof fn lemma_join_plain(base: Seq<char>, part: Seq<char>, r: Seq<char>)
    requires
        plain_base(base),
        is_relative_part(part),
        part[0] != '?',
        joins(base, part, r),
    ensures
        plain_base(r),
{
    if r.len() >= 3 && r[0] == '\\' && r[1] == '\\' && r[2] == '?' {
        if base.len() >= 3 {
            assert(r[0] == base[0] && r[1] == base[1] && r[2] == base[2]);
        } else if r == base + part {
            assert(r[base.len() as int] == part[0]);
        } else if r == base + seq!['/'] + part {
            assert(r[base.len() as int] == '/');
        } else {
            assert(r[base.len() as int] == '\\');
            assert(r[base.len() as int + 1] == part[0]);
            if base.len() == 0 {
                assert(r[1] == part[0]);
            } else if base.len() == 1 {
                assert(r[2] == part[0]);
            } else {
                assert(r[0] == base[0] && r[1] == base[1]);
            }
        }
    }
}

/// A part of at least three characters without separators, not starting
/// with `?` and without a drive prefix is a name.
pub proof fn lemma_long_name(part: Seq<char>)
    requires
        part.len() >= 3,
        part[0] != '?',
        part[1] != ':',
        forall|i: int| 0 <= i < part.len() ==> #[trigger] part[i] != '/' && part[i] != '\\',
    ensures
        is_name(part),
        part[0] != '?',
{
    reveal_strlit(".");
    reveal_strlit("..");
    assert(part.len() != "."@.len() && part.len() != ".."@.len());
}

/// `dirs::data_local_dir()`, as text.
///
/// Trusted: calls `dirs::data_local_dir`, which reads the environment or
/// asks the operating system; nothing is claimed of the result.
#[verifier::external_body]
pub(crate) fn data_local_dir() -> Option<String> {
    dirs::data_local_dir().map(|p| p.to_string_lossy().into_owned())
}

/// `dirs::data_dir()`, as text.
///
/// Trusted: calls `dirs::data_dir`, which reads the environment or asks the
/// operating system; nothing is claimed of the result.
#[verifier::external_body]
pub(crate) fn data_dir() -> Option<String> {
    dirs::data_dir().map(|p| p.to_string_lossy().into_owned())
}

/// `dirs::home_dir()`, as text.
///
/// Trusted: calls `dirs::home_dir`, which reads the environment or asks the
/// operating system; nothing is claimed of the result.
#[verifier::external_body]
pub(crate) fn home_dir() -> Option<String> {
    dirs::home_dir().map(|p| p.to_string_lossy().into_owned())
}

/// `dirs::config_dir()`, as text.
///
/// Trusted: calls `dirs::config_dir`, which reads the environment or asks
/// the operating system; nothing is claimed of the result.
#[verifier::external_body]
pub(crate) fn config_dir() -> Option<String> {
    dirs::config_dir().map(|p| p.to_string_lossy().into_owned())
}

/// The text of an optional directory, or the working directory (`.`) when
/// there is none.
pub fn or_dot(d: Option<String>) -> (r: String)
    ensures
        r@ == dir_or_dot(d),
{
    match d {
        Some(s) => s,
        None => String::from_str("."),
    }
}

/// The text of an optional directory, or the empty path when there is none.
pub fn or_empty(d: Option<String>) -> (r: String)
    ensures
        r@ == dir_or_empty(d),
{
    match d {
        Some(s) => s,
        None => String::new(),
    }
}

} // verus!
