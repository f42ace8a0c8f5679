//! Text shown to the user: numbers, file names and labels.
use vstd::prelude::*;
use vstd::string::*;

verus! {

/// The character of decimal digit `d`.
pub open spec fn digit_char(d: int) -> char {
    (d + 48) as char
}

/// The decimal representation of `n`, without leading zeros.
pub open spec fn decimal(n: nat) -> Seq<char>
    decreases n,
{
    if n < 10 {
        seq![digit_char(n as int)]
    } else {
        decimal(n / 10) + seq![digit_char((n % 10) as int)]
    }
}

fn digit_str(d: u32) -> (s: &'static str)
    requires
        d < 10,
    ensures
        s@ == seq![digit_char(d as int)],
{
    proof {
        reveal_strlit("0");
        reveal_strlit("1");
        reveal_strlit("2");
        reveal_strlit("3");
        reveal_strlit("4");
        reveal_strlit("5");
        reveal_strlit("6");
        reveal_strlit("7");
        reveal_strlit("8");
        reveal_strlit("9");
    }
    match d {
        0 => "0",
        1 => "1",
        2 => "2",
        3 => "3",
        4 => "4",
        5 => "5",
        6 => "6",
        7 => "7",
        8 => "8",
        _ => "9",
    }
}

/// Appends the decimal representation of `n` to `s`.
pub fn push_decimal(s: &mut String, n: u32)
    ensures
        final(s)@ == old(s)@ + decimal(n as nat),
    decreases n,
{
    if n >= 10 {
        push_decimal(s, n / 10);
    }
    s.append(digit_str(n % 10));
    proof {
        if n >= 10 {
            assert(old(s)@ + decimal((n / 10) as nat) + seq![digit_char((n % 10) as int)]
                =~= old(s)@ + decimal(n as nat));
        } else {
            assert(n % 10 == n);
        }
    }
}

/// `name` if there is one, `fallback` otherwise.
pub open spec fn spec_name_or(name: Option<Seq<char>>, fallback: Seq<char>) -> Seq<char> {
    match name {
        Some(n) => n,
        None => fallback,
    }
}

/// The text of an optional string.
pub open spec fn opt_view(o: Option<String>) -> Option<Seq<char>> {
    match o {
        Some(s) => Some(s@),
        None => None,
    }
}

/// `name` if there is one, `fallback` otherwise.
pub fn name_or(name: Option<String>, fallback: &str) -> (s: String)
    ensures
        s@ == spec_name_or(opt_view(name), fallback@),
{
    match name {
        Some(n) => n,
        None => String::from_str(fallback),
    }
}

/// Whether `n` can be a file name on every platform: it is not empty and
/// holds no `/`, which separates path components everywhere.
pub open spec fn is_file_name(n: Seq<char>) -> bool {
    n.len() > 0 && !n.contains('/')
}

/// Whether `path` is a single plain component on every platform: not
/// empty, not `.` or `..`, and free of the characters that separate
/// components (`/`, `\`) or start a drive prefix (`:`) on some platform.
pub open spec fn is_plain_name(path: Seq<char>) -> bool {
    &&& path.len() > 0
    &&& path != "."@
    &&& path != ".."@
    &&& !path.contains('/')
    &&& !path.contains('\\')
    &&& !path.contains(':')
}

/// The characters after the last `/` of `path` (all of them when it holds
/// no `/`; none when it ends with `/`).
pub open spec fn last_segment(path: Seq<char>) -> Seq<char>
    decreases path.len(),
{
    if path.len() == 0 {
        path
    } else if path.last() == '/' {
        Seq::empty()
    } else {
        last_segment(path.drop_last()).push(path.last())
    }
}

/// Whether `path` splits into components at `/` alone on every platform:
/// it holds no `\` (which separates components on some platforms and
/// starts their verbatim, device and network prefixes) and does not start
/// with `//` (a network prefix on some platforms).
pub open spec fn is_portable_path(path: Seq<char>) -> bool {
    &&& !path.contains('\\')
    &&& !(path.len() >= 2 && path[0] == '/' && path[1] == '/')
}

/// Whether `n` occurs in `path` as a run of consecutive characters.
pub open spec fn is_segment_of(n: Seq<char>, path: Seq<char>) -> bool {
    exists|i: int, j: int| 0 <= i <= j <= path.len() && #[trigger] path.subrange(i, j) == n
}

/// What holds on every platform of the file name `name` that
/// `std::path::Path::file_name` finds in `path`:
/// - it is a run of the characters of `path`;
/// - when `path` holds no `\`, it is not empty and holds no `/`;
/// - a path that is a single plain component is its own file name;
/// - when `path` splits at `/` alone and its text after the last `/` is a
///   plain component, that text is the file name.
pub open spec fn file_name_facts(path: Seq<char>, name: Option<Seq<char>>) -> bool {
    &&& name matches Some(n) ==> is_segment_of(n, path)
    &&& !path.contains('\\') ==> (name matches Some(n) ==> is_file_name(n))
    &&& is_plain_name(path) ==> name == Some(path)
    &&& is_portable_path(path) && is_plain_name(last_segment(path)) ==> name == Some(
        last_segment(path),
    )
}

/// What the file name of `path` as shown to the user, `s`, satisfies on
/// every platform when `fallback` stands for a path without one.
pub open spec fn shown_file_name(path: Seq<char>, fallback: Seq<char>, s: Seq<char>) -> bool {
    &&& s == fallback || is_segment_of(s, path)
    &&& !path.contains('\\') ==> (s == fallback || is_file_name(s))
    &&& is_plain_name(path) ==> s == path
    &&& is_portable_path(path) && is_plain_name(last_segment(path)) ==> s == last_segment(path)
}

/// The last component of `path` as `std::path::Path::file_name` finds it
/// (a `str` path always gives a valid-text component).
///
/// `file_name` gives the final normal component of the path, if there is
/// one, as a slice of the path. Components are never empty. `/` separates
/// components except in verbatim paths, which start with `\\?\`; a path
/// without `\` or a leading `//` has no prefix other than a drive letter
/// and splits at `/` alone. Which other characters separate components,
/// and which prefixes exist, depends on the platform the program is built
/// for; what holds on every platform is `file_name_facts`, and the rest is
/// left unsaid.
#[verifier::external_body]
pub(crate) fn path_file_name(path: &str) -> (name: Option<String>)
    ensures
        file_name_facts(path@, opt_view(name)),
{
    let name = std::path::Path::new(path).file_name()?;
    name.to_str().map(|n| n.to_string())
}

/// The file name of `path`, or `untitled` when it has none.
pub fn short_path(path: &str) -> (s: String)
    ensures
        shown_file_name(path@, "untitled"@, s@),
{
    let name = path_file_name(path);
    name_or(name, "untitled")
}

} // verus!
