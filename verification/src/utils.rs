//! Paths: how a path given by the caller becomes the absolute path that is
//! stored, and how a shortcut is followed to its target.
//!
//! The library never touches the file system. What it needs to know of it
//! (the working directory, the canonical form of a path, what a shortcut
//! points to) the host finds out and hands over as plain values.

use crate::models::text_of;
use vstd::prelude::*;

verus! {

/// What the host found out about one path before it is made absolute.
#[derive(Debug)]
pub struct PathProbe {
    /// The working directory of the process, or why it could not be had.
    pub cwd: Result<String, String>,
    /// The canonical form of the path, where the file system could resolve
    /// it; `None` where it could not, as for a path that does not exist.
    pub canonical: Option<String>,
}

/// What the host found out about a shortcut file.
#[derive(Debug)]
pub struct ShortcutLookup {
    /// What the shell printed as the shortcut's target.
    pub output: String,
    /// Whether that output, trimmed, names something that exists.
    pub target_exists: bool,
}

/// Whether `c` is white space: one of the code points that Unicode gives
/// the property White_Space, which are the ones that `char::is_whitespace`
/// accepts.
pub open spec fn white_space(c: char) -> bool {
    let n = c as u32;
    ||| 0x09 <= n <= 0x0d
    ||| n == 0x20
    ||| n == 0x85
    ||| n == 0xa0
    ||| n == 0x1680
    ||| 0x2000 <= n <= 0x200a
    ||| n == 0x2028
    ||| n == 0x2029
    ||| n == 0x202f
    ||| n == 0x205f
    ||| n == 0x3000
}

/// The lower-case form of `s`, as `str::to_lowercase` gives it.
pub uninterp spec fn lowercased(s: Seq<char>) -> Seq<char>;

/// `std::path::Path::join`: `rest` appended to `base` with the platform's
/// separator, or `rest` alone where it is absolute itself. The result is
/// the platform's; nothing is promised of it.
#[verifier::external_body]
pub(crate) fn join_path(base: &str, rest: &str) -> (joined: String) {
    std::path::Path::new(base).join(rest).to_string_lossy().into_owned()
}

/// `std::path::Path::is_absolute`, by the platform's own rules. Nothing is
/// promised of the answer.
#[verifier::external_body]
pub(crate) fn path_is_absolute(path: &str) -> (absolute: bool) {
    std::path::Path::new(path).is_absolute()
}

/// `std::path::Path::file_name`: the last component of `path`, if it has
/// one, by the platform's own rules. Nothing is promised of the answer.
#[verifier::external_body]
pub(crate) fn file_name_of(path: &str) -> (name: Option<String>) {
    std::path::Path::new(path).file_name().map(|n| n.to_string_lossy().into_owned())
}

/// `std::path::Path::extension`: what follows the last dot of the file
/// name, if anything does, by the platform's own rules. Nothing is promised
/// of the answer.
#[verifier::external_body]
pub(crate) fn extension_of(path: &str) -> (extension: Option<String>) {
    std::path::Path::new(path).extension().map(|e| e.to_string_lossy().into_owned())
}

/// `std::path::Path::parent`: `path` without its last component, if it has
/// one, by the platform's own rules. Nothing is promised of the answer.
#[verifier::external_body]
pub(crate) fn parent_of(path: &str) -> (parent: Option<String>) {
    std::path::Path::new(path).parent().map(|p| p.to_string_lossy().into_owned())
}

/// `str::to_lowercase`. The result is named, not described: the same text
/// always has the same lower-case form.
#[verifier::external_body]
pub(crate) fn lowercase_text(s: &str) -> (r: String)
    ensures
        r@ == lowercased(s@),
{
    s.to_lowercase()
}

/// Whether `path` begins with the marker `\\?\` that Windows puts before a
/// canonical path.
pub open spec fn has_long_path_marker(path: Seq<char>) -> bool {
    &&& path.len() >= 4
    &&& path[0] == '\\'
    &&& path[1] == '\\'
    &&& path[2] == '?'
    &&& path[3] == '\\'
}

/// Whether `path` begins with the marker `\\?\UNC\` that Windows puts
/// before the canonical path of a file on a network share.
pub open spec fn has_share_marker(path: Seq<char>) -> bool {
    &&& path.len() >= 8
    &&& has_long_path_marker(path)
    &&& path[4] == 'U'
    &&& path[5] == 'N'
    &&& path[6] == 'C'
    &&& path[7] == '\\'
}

/// `path` without a leading long-path marker: `\\?\UNC\server\share` is
/// the network path `\\server\share`, any other `\\?\rest` is `rest`, and
/// a path without marker is itself.
pub open spec fn without_long_path_marker(path: Seq<char>) -> Seq<char> {
    if has_share_marker(path) {
        seq!['\\', '\\'] + path.skip(8)
    } else if has_long_path_marker(path) {
        path.skip(4)
    } else {
        path
    }
}

/// Removes one leading long-path marker, if there is one; a path on a
/// network share keeps the two backslashes that make it absolute.
pub fn strip_long_path_marker(path: String) -> (r: String)
    ensures
        r@ == without_long_path_marker(path@),
{
    let len = path.as_str().unicode_len();
    if len >= 4 && path.as_str().get_char(0) == '\\' && path.as_str().get_char(1) == '\\'
        && path.as_str().get_char(2) == '?' && path.as_str().get_char(3) == '\\' {
        if len >= 8 && path.as_str().get_char(4) == 'U' && path.as_str().get_char(5) == 'N'
            && path.as_str().get_char(6) == 'C' && path.as_str().get_char(7) == '\\' {
            proof {
                reveal_strlit("\\\\");
            }
            let share = String::from_str("\\\\").concat(path.as_str().substring_char(8, len));
            assert(share@ =~= seq!['\\', '\\'] + path@.skip(8));
            share
        } else {
            String::from_str(path.as_str().substring_char(4, len))
        }
    } else {
        path
    }
}

/// The absolute path that stands for `path`, from the platform's answers:
/// whether `path` is `absolute`; what it is `joined` to the working
/// directory, or why there is no working directory; and its `canonical`
/// form, if it has one. A relative path without a working directory fails,
/// with that reason, and nothing else does. Else the result is the
/// canonical form where there is one, else `path` itself where it is
/// absolute, else the joined path; without a leading long-path marker.
pub open spec fn abs_path_of(
    path: Seq<char>,
    absolute: bool,
    joined: Result<Seq<char>, Seq<char>>,
    canonical: Option<Seq<char>>,
) -> Result<Seq<char>, Seq<char>> {
    match (absolute, joined) {
        (false, Err(reason)) => Err(reason),
        _ => Ok(
            without_long_path_marker(
                match canonical {
                    Some(c) => c,
                    None => if absolute {
                        path
                    } else {
                        joined->Ok_0
                    },
                },
            ),
        ),
    }
}

/// The characters of a text or of a failure's reason.
pub open spec fn texts_of(r: Result<String, String>) -> Result<Seq<char>, Seq<char>> {
    match r {
        Ok(text) => Ok(text@),
        Err(reason) => Err(reason@),
    }
}

/// What a path is joined to the working directory: `joined`, the platform's
/// join, where there is a working directory; else the reason why there is
/// none.
pub open spec fn joined_to(cwd: Result<String, String>, joined: Seq<char>) -> Result<
    Seq<char>,
    Seq<char>,
> {
    match cwd {
        Ok(_) => Ok(joined),
        Err(reason) => Err(reason@),
    }
}

/// Makes `path` absolute from the platform's answers (see [`abs_path_of`]).
pub fn abs_path_from(
    path: &str,
    absolute: bool,
    joined: Result<String, String>,
    canonical: Option<String>,
) -> (r: Result<String, String>)
    ensures
        texts_of(r) == abs_path_of(path@, absolute, texts_of(joined), text_of(canonical)),
{
    let abs = if absolute {
        String::from_str(path)
    } else {
        match joined {
            Ok(joined) => joined,
            Err(reason) => {
                return Err(reason);
            },
        }
    };
    let abs = match canonical {
        Some(c) => c,
        None => abs,
    };
    Ok(strip_long_path_marker(abs))
}

/// The absolute path that stands for `path`, from what the host found out:
/// the canonical form where there is one; else `path` itself where it is
/// absolute, or joined to the working directory where it is not. A path that
/// does not exist is thus accepted. A leading long-path marker is removed.
/// Whether the path is absolute, and what it is joined to the working
/// directory, the platform says (see [`abs_path_from`]).
///
/// The only failure is a relative path with no working directory to resolve
/// it against; the error is the host's reason.
pub fn to_abs_path(path: &str, probe: &PathProbe) -> (r: Result<String, String>)
    ensures
        exists|absolute: bool, joined: Seq<char>|
            texts_of(r) == #[trigger] abs_path_of(
                path@,
                absolute,
                joined_to(probe.cwd, joined),
                text_of(probe.canonical),
            ),
        probe.cwd is Ok ==> r is Ok,
        r matches Err(e) ==> (probe.cwd matches Err(reason) && e@ == reason@),
        r matches Ok(p) ==> match probe.canonical {
            Some(c) => p@ == without_long_path_marker(c@),
            None => probe.cwd is Err ==> p@ == without_long_path_marker(path@),
        },
{
    let absolute = path_is_absolute(path);
    let joined = match &probe.cwd {
        Ok(cwd) => Ok(join_path(cwd.as_str(), path)),
        Err(reason) => Err(reason.clone()),
    };
    let canonical = match &probe.canonical {
        Some(c) => Some(c.clone()),
        None => None,
    };
    let ghost joined_text = match texts_of(joined) {
        Ok(j) => j,
        Err(_) => Seq::<char>::empty(),
    };
    let r = abs_path_from(path, absolute, joined, canonical);
    assert(texts_of(r) == abs_path_of(
        path@,
        absolute,
        joined_to(probe.cwd, joined_text),
        text_of(probe.canonical),
    ));
    r
}

/// Whether `c` is white space.
pub fn is_white_space(c: char) -> (r: bool)
    ensures
        r == white_space(c),
{
    let n = c as u32;
    (0x09 <= n && n <= 0x0d) || n == 0x20 || n == 0x85 || n == 0xa0 || n == 0x1680 || (0x2000 <= n
        && n <= 0x200a) || n == 0x2028 || n == 0x2029 || n == 0x202f || n == 0x205f || n == 0x3000
}

/// `s` without the white space it begins with.
pub open spec fn without_leading_space(s: Seq<char>) -> Seq<char>
    decreases s.len(),
{
    if s.len() > 0 && white_space(s[0]) {
        without_leading_space(s.skip(1))
    } else {
        s
    }
}

/// `s` without the white space it ends with.
pub open spec fn without_trailing_space(s: Seq<char>) -> Seq<char>
    decreases s.len(),
{
    if s.len() > 0 && white_space(s.last()) {
        without_trailing_space(s.drop_last())
    } else {
        s
    }
}

/// `s` without the white space around it.
pub open spec fn trimmed(s: Seq<char>) -> Seq<char> {
    without_trailing_space(without_leading_space(s))
}

/// Removes the white space around a text.
pub fn trim_text(s: &str) -> (r: String)
    ensures
        r@ == trimmed(s@),
{
    let len = s.unicode_len();
    let mut start: usize = 0;
    assert(s@.skip(0) =~= s@);
    loop
        invariant
            start <= len,
            len == s@.len(),
            without_leading_space(s@) == without_leading_space(s@.skip(start as int)),
        ensures
            start <= len,
            without_leading_space(s@) == s@.skip(start as int),
        decreases len - start,
    {
        if start == len {
            break ;
        }
        if !is_white_space(s.get_char(start)) {
            break ;
        }
        assert(s@.skip(start as int).skip(1) =~= s@.skip(start + 1));
        start = start + 1;
    }
    let ghost rest = s@.skip(start as int);
    let mut end: usize = len;
    assert(s@.subrange(start as int, end as int) =~= rest);
    loop
        invariant
            start <= end <= len,
            len == s@.len(),
            rest == s@.skip(start as int),
            without_trailing_space(rest) == without_trailing_space(
                s@.subrange(start as int, end as int),
            ),
        ensures
            start <= end <= len,
            without_trailing_space(rest) == s@.subrange(start as int, end as int),
        decreases end - start,
    {
        if end == start {
            break ;
        }
        if !is_white_space(s.get_char(end - 1)) {
            break ;
        }
        assert(s@.subrange(start as int, end as int).drop_last() =~= s@.subrange(
            start as int,
            end - 1,
        ));
        end = end - 1;
    }
    String::from_str(s.substring_char(start, end))
}

/// What is left of a path that the caller asked to open: the path itself,
/// or the refusal of an empty one. `given` is the caller's text, trimmed.
pub fn check_requested_path(given: String) -> (r: Result<String, String>)
    ensures
        given@.len() == 0 ==> (r matches Err(e) && e@ == "path is empty"@),
        given@.len() > 0 ==> (r matches Ok(p) && p@ == given@),
{
    if given.as_str().unicode_len() == 0 {
        Err(String::from_str("path is empty"))
    } else {
        Ok(given)
    }
}

/// Trims the path that the caller asked to open and refuses an empty one.
pub fn requested_path(path: &str) -> (r: Result<String, String>)
    ensures
        trimmed(path@).len() == 0 ==> (r matches Err(e) && e@ == "path is empty"@),
        trimmed(path@).len() > 0 ==> (r matches Ok(p) && p@ == trimmed(path@)),
{
    check_requested_path(trim_text(path))
}

/// Whether `s` ends in `.lnk`.
pub open spec fn ends_in_lnk(s: Seq<char>) -> bool {
    &&& s.len() >= 4
    &&& s[s.len() - 4] == '.'
    &&& s[s.len() - 3] == 'l'
    &&& s[s.len() - 2] == 'n'
    &&& s[s.len() - 1] == 'k'
}

/// Whether a lower-cased path has the extension of a Windows shortcut.
pub fn has_shortcut_extension(lower: &str) -> (r: bool)
    ensures
        r == ends_in_lnk(lower@),
{
    let len = lower.unicode_len();
    len >= 4 && lower.get_char(len - 4) == '.' && lower.get_char(len - 3) == 'l' && lower.get_char(
        len - 2,
    ) == 'n' && lower.get_char(len - 1) == 'k'
}

/// Whether `path` names a Windows shortcut, whatever the case of its
/// extension.
pub fn is_shortcut(path: &str) -> (r: bool)
    ensures
        r == ends_in_lnk(lowercased(path@)),
{
    let lower = lowercase_text(path);
    has_shortcut_extension(lower.as_str())
}

/// The path to go on with after a shortcut was looked up: `target`, the
/// trimmed output of the shell, where it is not empty and exists; else the
/// path of the shortcut itself.
pub fn choose_shortcut_target(path: &str, target: String, target_exists: bool) -> (r: String)
    ensures
        r@ == if target@.len() > 0 && target_exists {
            target@
        } else {
            path@
        },
{
    if target.as_str().unicode_len() > 0 && target_exists {
        target
    } else {
        String::from_str(path)
    }
}

/// Follows a shortcut to its target. Only a path that [`is_shortcut`] is
/// followed, and only where the host looked it up: `lookup` is `None` for
/// a lookup that failed and on a platform without shortcuts. Any other path
/// stands for itself.
pub fn resolve_shortcut(path: &str, lookup: Option<&ShortcutLookup>) -> (r: String)
    ensures
        r@ == match lookup {
            Some(found) => if ends_in_lnk(lowercased(path@)) && trimmed(found.output@).len() > 0
                && found.target_exists {
                trimmed(found.output@)
            } else {
                path@
            },
            None => path@,
        },
{
    match lookup {
        Some(found) => {
            if is_shortcut(path) {
                choose_shortcut_target(
                    path,
                    trim_text(found.output.as_str()),
                    found.target_exists,
                )
            } else {
                String::from_str(path)
            }
        },
        None => String::from_str(path),
    }
}

/// Whether `text` is one of `list`.
pub fn is_one_of(list: &Vec<&'static str>, text: &String) -> (found: bool)
    ensures
        found == list.deep_view().contains(text@),
{
    let mut i: usize = 0;
    while i < list.len()
        invariant
            i <= list.len(),
            forall|j: int| 0 <= j < i ==> list.deep_view()[j] != text@,
        decreases list.len() - i,
    {
        let entry = String::from_str(list[i]);
        if entry == *text {
            assert(list.deep_view()[i as int] == text@);
            return true;
        }
        i = i + 1;
    }
    false
}

/// The position of the last `c` in `s`, or -1 where there is none.
pub open spec fn last_index_of(s: Seq<char>, c: char) -> int
    decreases s.len(),
{
    if s.len() == 0 {
        -1
    } else if s.last() == c {
        s.len() - 1
    } else {
        last_index_of(s.drop_last(), c)
    }
}

/// Finds the last `c` in `s`.
pub fn find_last(s: &str, c: char) -> (r: Option<usize>)
    ensures
        match r {
            Some(i) => i == last_index_of(s@, c) && i < s@.len() && s@[i as int] == c,
            None => last_index_of(s@, c) == -1,
        },
{
    let len = s.unicode_len();
    let mut i: usize = len;
    assert(s@.take(len as int) =~= s@);
    while i > 0
        invariant
            i <= len,
            len == s@.len(),
            last_index_of(s@, c) == last_index_of(s@.take(i as int), c),
        decreases i,
    {
        proof {
            let upto = s@.take(i as int);
            assert(upto.drop_last() =~= s@.take(i - 1));
            assert(upto.last() == s@[i - 1]);
        }
        if s.get_char(i - 1) == c {
            return Some(i - 1);
        }
        i = i - 1;
    }
    None
}

} // verus!
