use vstd::prelude::*;
use crate::text::{chars_of, push_char};
use crate::wide::{
    decode_wide_path, has_interior_nul, is_plain_unit, utf16_encode, utf16_lossy, wide_cstring_from_str,
    wide_units, without_terminator,
};
use widestring::U16CString;

verus! {

/// The exports through which the library stands in for the system's
/// `version.dll`; each one forwards to the system function of the same name.
#[derive(Debug, Clone, Copy, PartialEq, Eq, Structural)]
pub enum VersionExport {
    VerQueryValueA,
    VerQueryValueW,
    GetFileVersionInfoA,
    GetFileVersionInfoW,
    GetFileVersionInfoSizeA,
    GetFileVersionInfoSizeW,
}

/// The name of the system function that an export forwards to.
pub open spec fn export_symbol(e: VersionExport) -> Seq<char> {
    match e {
        VersionExport::VerQueryValueA => "VerQueryValueA"@,
        VersionExport::VerQueryValueW => "VerQueryValueW"@,
        VersionExport::GetFileVersionInfoA => "GetFileVersionInfoA"@,
        VersionExport::GetFileVersionInfoW => "GetFileVersionInfoW"@,
        VersionExport::GetFileVersionInfoSizeA => "GetFileVersionInfoSizeA"@,
        VersionExport::GetFileVersionInfoSizeW => "GetFileVersionInfoSizeW"@,
    }
}

impl VersionExport {
    /// The name of the system function this export forwards to.
    pub fn symbol(&self) -> (s: &'static str)
        ensures
            s@ == export_symbol(*self),
    {
        match self {
            VersionExport::VerQueryValueA => "VerQueryValueA",
            VersionExport::VerQueryValueW => "VerQueryValueW",
            VersionExport::GetFileVersionInfoA => "GetFileVersionInfoA",
            VersionExport::GetFileVersionInfoW => "GetFileVersionInfoW",
            VersionExport::GetFileVersionInfoSizeA => "GetFileVersionInfoSizeA",
            VersionExport::GetFileVersionInfoSizeW => "GetFileVersionInfoSizeW",
        }
    }
}

/// Whether a character separates path components on Windows.
pub open spec fn is_separator(c: char) -> bool {
    c == '\\' || c == '/'
}

/// Whether a character is an ASCII letter.
pub open spec fn is_ascii_letter(c: char) -> bool {
    ('a' <= c && c <= 'z') || ('A' <= c && c <= 'Z')
}

/// Whether a path is a bare drive such as `C:` (an ASCII letter and a
/// colon, nothing more), to which a file name is joined without a separator.
pub open spec fn is_bare_drive(dir: Seq<char>) -> bool {
    dir.len() == 2 && is_ascii_letter(dir[0]) && dir[1] == ':'
}

/// Whether joining a name onto `dir` puts a separator between them.
pub open spec fn needs_separator(dir: Seq<char>) -> bool {
    dir.len() > 0 && !is_separator(dir.last()) && !is_bare_drive(dir)
}

/// Whether a directory has the verbatim prefix `\\?\`, under which Windows
/// paths are not normalized by the system and only `\` separates.
pub open spec fn is_verbatim(dir: Seq<char>) -> bool {
    dir.len() >= 4 && dir[0] == '\\' && dir[1] == '\\' && dir[2] == '?' && dir[3] == '\\'
}

/// The place of the first `\` in `dir` at or after `from`, or the length of
/// `dir` when there is none.
pub open spec fn next_backslash(dir: Seq<char>, from: int) -> int
    decreases dir.len() - from,
{
    if from >= dir.len() {
        dir.len() as int
    } else if dir[from] == '\\' {
        from
    } else {
        next_backslash(dir, from + 1)
    }
}

/// Whether a verbatim directory names a network share: `\\?\UNC\`.
pub open spec fn is_verbatim_unc(dir: Seq<char>) -> bool {
    dir.len() >= 8 && dir[4] == 'U' && dir[5] == 'N' && dir[6] == 'C' && dir[7] == '\\'
}

/// Whether `dir[start..end]` is exactly a drive: an ASCII letter and a
/// colon, followed by nothing or by a separator.
pub open spec fn is_exact_drive(dir: Seq<char>, start: int, end: int) -> bool {
    &&& end - start >= 2
    &&& is_ascii_letter(dir[start])
    &&& dir[start + 1] == ':'
    &&& (end - start == 2 || is_separator(dir[start + 2]))
}

/// The length of the prefix of a verbatim directory: `\\?\UNC\server\share`
/// (or `\\?\UNC\server` when no share follows), `\\?\C:` for a drive, and
/// otherwise `\\?\` with the component that follows, up to the next `\`.
pub open spec fn verbatim_prefix_len(dir: Seq<char>) -> int {
    if is_verbatim_unc(dir) {
        let server_end = next_backslash(dir, 8);
        if server_end >= dir.len() {
            server_end
        } else {
            let share_end = next_backslash(dir, server_end + 1);
            if share_end > server_end + 1 {
                share_end
            } else {
                server_end
            }
        }
    } else {
        let first_end = next_backslash(dir, 4);
        if is_exact_drive(dir, 4, first_end) {
            6
        } else {
            first_end
        }
    }
}

/// The components of the part of a verbatim path after its prefix, each
/// written after one `\`: runs of `\` count as one and a final `\` is
/// dropped.
pub open spec fn backslashed_components(body: Seq<char>) -> Seq<char>
    decreases body.len(),
{
    if body.len() == 0 {
        Seq::empty()
    } else if body.last() == '\\' {
        backslashed_components(body.drop_last())
    } else if body.len() == 1 || body[body.len() - 2] == '\\' {
        backslashed_components(body.drop_last()) + seq!['\\', body.last()]
    } else {
        backslashed_components(body.drop_last()).push(body.last())
    }
}

/// A relative file name joined onto a directory without the verbatim
/// prefix: a backslash goes between them unless the directory is empty,
/// ends in a separator or is a bare drive.
pub open spec fn plain_join(dir: Seq<char>, name: Seq<char>) -> Seq<char> {
    if needs_separator(dir) {
        dir.push('\\') + name
    } else {
        dir + name
    }
}

/// A relative file name (one component, without separators) joined onto a
/// directory the way Windows joins paths. A verbatim directory is rebuilt
/// from its prefix and its components, each after one `\`, and the name
/// follows after one more `\`; any other directory is joined plainly.
pub open spec fn join_path(dir: Seq<char>, name: Seq<char>) -> Seq<char> {
    if is_verbatim(dir) {
        let p = verbatim_prefix_len(dir);
        dir.take(p) + backslashed_components(dir.skip(p)) + seq!['\\'] + name
    } else {
        plain_join(dir, name)
    }
}

/// The library whose functions the exports forward to.
pub open spec fn forwarded_library() -> Seq<char> {
    "version.dll"@
}

proof fn lemma_next_backslash_bounds(dir: Seq<char>, from: int)
    requires
        0 <= from <= dir.len(),
    ensures
        from <= next_backslash(dir, from) <= dir.len(),
        next_backslash(dir, from) < dir.len() ==> dir[next_backslash(dir, from)] == '\\',
    decreases dir.len() - from,
{
    if from < dir.len() && dir[from] != '\\' {
        lemma_next_backslash_bounds(dir, from + 1);
    }
}

proof fn lemma_verbatim_prefix_bounds(dir: Seq<char>)
    requires
        is_verbatim(dir),
    ensures
        4 <= verbatim_prefix_len(dir) <= dir.len(),
{
    if is_verbatim_unc(dir) {
        lemma_next_backslash_bounds(dir, 8);
        let server_end = next_backslash(dir, 8);
        if server_end < dir.len() {
            lemma_next_backslash_bounds(dir, server_end + 1);
        }
    } else {
        lemma_next_backslash_bounds(dir, 4);
    }
}

/// The place of the first `\` at or after `from`.
fn find_backslash(dir: &Vec<char>, from: usize) -> (r: usize)
    requires
        from <= dir@.len(),
    ensures
        r == next_backslash(dir@, from as int),
        from <= r <= dir@.len(),
{
    let mut i = from;
    while i < dir.len() && dir[i] != '\\'
        invariant
            from <= i <= dir@.len(),
            next_backslash(dir@, from as int) == next_backslash(dir@, i as int),
        decreases dir@.len() - i,
    {
        i = i + 1;
    }
    i
}

fn is_letter(c: char) -> (b: bool)
    ensures
        b <==> is_ascii_letter(c),
{
    ('a' <= c && c <= 'z') || ('A' <= c && c <= 'Z')
}

/// The length of a verbatim directory's prefix.
fn prefix_len(dir: &Vec<char>) -> (p: usize)
    requires
        is_verbatim(dir@),
    ensures
        p == verbatim_prefix_len(dir@),
{
    let n = dir.len();
    if n >= 8 && dir[4] == 'U' && dir[5] == 'N' && dir[6] == 'C' && dir[7] == '\\' {
        let server_end = find_backslash(dir, 8);
        if server_end >= n {
            server_end
        } else {
            let share_end = find_backslash(dir, server_end + 1);
            if share_end > server_end + 1 {
                share_end
            } else {
                server_end
            }
        }
    } else {
        let first_end = find_backslash(dir, 4);
        let drive = first_end >= 6 && is_letter(dir[4]) && dir[5] == ':'
            && (first_end == 6 || dir[6] == '\\' || dir[6] == '/');
        if drive {
            6
        } else {
            first_end
        }
    }
}

/// The path of the system's own `version.dll` in the given system
/// directory, joined as Windows joins paths.
pub fn system_library_path(system_dir: &str) -> (s: String)
    ensures
        s@ == join_path(system_dir@, forwarded_library()),
{
    let dir = chars_of(system_dir);
    let n = dir.len();
    let verbatim = n >= 4 && dir[0] == '\\' && dir[1] == '\\' && dir[2] == '?' && dir[3] == '\\';
    if !verbatim {
        let mut s = String::new();
        s.append(system_dir);
        let bare_drive = n == 2 && dir[1] == ':' && is_letter(dir[0]);
        let sep = n > 0 && !(dir[n - 1] == '\\' || dir[n - 1] == '/') && !bare_drive;
        if sep {
            push_char(&mut s, '\\');
        }
        s.append("version.dll");
        return s;
    }
    let p = prefix_len(&dir);
    proof {
        lemma_verbatim_prefix_bounds(dir@);
    }
    let mut s = String::new();
    let mut k: usize = 0;
    while k < p
        invariant
            p <= n == dir@.len(),
            k <= p,
            s@ == dir@.take(k as int),
        decreases p - k,
    {
        push_char(&mut s, dir[k]);
        k = k + 1;
        assert(s@ =~= dir@.take(k as int));
    }
    proof {
        assert(dir@.subrange(p as int, p as int) =~= Seq::<char>::empty());
    }
    while k < n
        invariant
            4 <= p <= k <= n == dir@.len(),
            s@ == dir@.take(p as int) + backslashed_components(dir@.subrange(p as int, k as int)),
        decreases n - k,
    {
        let c = dir[k];
        let ghost body = dir@.subrange(p as int, k as int + 1);
        proof {
            assert(body.drop_last() =~= dir@.subrange(p as int, k as int));
            assert(body.last() == c);
            if k > p {
                assert(body[body.len() - 2] == dir@[k - 1]);
            }
        }
        if c != '\\' {
            if k == p || dir[k - 1] == '\\' {
                push_char(&mut s, '\\');
            }
            push_char(&mut s, c);
        }
        k = k + 1;
        proof {
            assert(s@ =~= dir@.take(p as int) + backslashed_components(body));
        }
    }
    push_char(&mut s, '\\');
    s.append("version.dll");
    proof {
        assert(dir@.subrange(p as int, n as int) =~= dir@.skip(p as int));
    }
    s
}

/// Where an export forwards its call: the library to load and the name of
/// the function to call in it.
pub struct ForwardTarget {
    pub library: String,
    pub symbol: &'static str,
}

/// Where `export` forwards its call, given the buffer of UTF-16 units into
/// which the operating system wrote the system directory and the number of
/// units it wrote; `None` when those units do not form a nul-free string.
pub fn forward_target(export: VersionExport, system_dir: &[u16], length: usize) -> (r: Option<ForwardTarget>)
    requires
        length <= system_dir@.len(),
    ensures
        r is None <==> has_interior_nul(system_dir@.take(length as int)),
        r matches Some(t) ==> {
            &&& t.library@ == join_path(
                utf16_lossy(without_terminator(system_dir@.take(length as int))),
                forwarded_library(),
            )
            &&& t.symbol@ == export_symbol(export)
            &&& (forall|i: int| 0 <= i < without_terminator(system_dir@.take(length as int)).len()
                ==> is_plain_unit(#[trigger] without_terminator(system_dir@.take(length as int))[i]))
                ==> t.library@ == join_path(
                    without_terminator(system_dir@.take(length as int)).map_values(|u: u16| u as char),
                    forwarded_library(),
                )
            &&& without_terminator(system_dir@.take(length as int)).len() > 0
                ==> t.library@ != forwarded_library()
        },
{
    match decode_wide_path(system_dir, length) {
        None => None,
        Some(dir) => {
            let library = system_library_path(dir.as_str());
            proof {
                lemma_join_never_bare(dir@);
            }
            Some(ForwardTarget { library, symbol: export.symbol() })
        },
    }
}

/// The library's path as the nul-terminated wide string the loader takes:
/// its UTF-16 encoding; `None` when that holds a nul anywhere but last.
pub fn wide_library_path(target: &ForwardTarget) -> (r: Option<U16CString>)
    ensures
        r is None <==> has_interior_nul(utf16_encode(target.library@)),
        r matches Some(w) ==> wide_units(w) == without_terminator(utf16_encode(target.library@)),
{
    wide_cstring_from_str(target.library.as_str())
}

/// How a directory without the verbatim prefix is joined: an empty
/// directory gives the name alone; one that ends in `\` or `/`, or is a
/// bare drive (an ASCII letter and `:`), is followed directly by the name;
/// any other is followed by one `\` and then the name.
pub proof fn lemma_plain_join_cases(dir: Seq<char>, name: Seq<char>)
    requires
        !is_verbatim(dir),
    ensures
        dir.len() == 0 ==> join_path(dir, name) == name,
        dir.len() > 0 && (dir.last() == '\\' || dir.last() == '/') ==> join_path(dir, name) == dir + name,
        dir.len() == 2 && (('a' <= dir[0] && dir[0] <= 'z') || ('A' <= dir[0] && dir[0] <= 'Z')) && dir[1] == ':'
            ==> join_path(dir, name) == dir + name,
        dir.len() > 0 && dir.last() != '\\' && dir.last() != '/'
            && !(dir.len() == 2 && (('a' <= dir[0] && dir[0] <= 'z') || ('A' <= dir[0] && dir[0] <= 'Z')) && dir[1] == ':')
            ==> join_path(dir, name) == dir + seq!['\\'] + name,
{
    if dir.len() == 0 {
        assert(dir + name =~= name);
    }
    assert(dir.push('\\') + name =~= dir + seq!['\\'] + name);
}

/// The part of a path after a leading `\`, with no `\` twice in a row, loses
/// only a final `\` when its components are rebuilt.
proof fn lemma_backslashed_normal(body: Seq<char>)
    requires
        body.len() > 0 ==> body[0] == '\\',
        forall|i: int| 0 <= i < body.len() - 1 && #[trigger] body[i] == '\\' ==> body[i + 1] != '\\',
    ensures
        backslashed_components(body) == (if body.len() > 0 && body.last() == '\\' {
            body.drop_last()
        } else {
            body
        }),
    decreases body.len(),
{
    if body.len() > 0 {
        let d = body.drop_last();
        assert forall|i: int| 0 <= i < d.len() - 1 && #[trigger] d[i] == '\\' implies d[i + 1] != '\\' by {
            assert(d[i] == body[i] && d[i + 1] == body[i + 1]);
        }
        lemma_backslashed_normal(d);
        if body.last() == '\\' {
            if d.len() > 0 {
                assert(body[body.len() - 2] == d.last());
            }
        } else if body.len() == 1 {
        } else if body[body.len() - 2] == '\\' {
            assert(d.last() == '\\');
            assert(d.drop_last() + seq!['\\', body.last()] =~= body);
        } else {
            assert(d.push(body.last()) =~= body);
        }
    }
}

/// A verbatim directory already written the way Windows writes it (no
/// `\` twice in a row after the prefix, none at its end, no `/`) is kept
/// whole: the name follows after one `\`.
pub proof fn lemma_verbatim_normal_join(dir: Seq<char>, name: Seq<char>)
    requires
        is_verbatim(dir),
        dir.last() != '\\',
        forall|i: int| 3 <= i < dir.len() - 1 && #[trigger] dir[i] == '\\' ==> dir[i + 1] != '\\',
        forall|i: int| 0 <= i < dir.len() ==> dir[i] != '/',
    ensures
        join_path(dir, name) == dir + seq!['\\'] + name,
{
    lemma_verbatim_prefix_bounds(dir);
    let p = verbatim_prefix_len(dir);
    if is_verbatim_unc(dir) {
        lemma_next_backslash_bounds(dir, 8);
        let server_end = next_backslash(dir, 8);
        if server_end < dir.len() {
            lemma_next_backslash_bounds(dir, server_end + 1);
        }
    } else {
        lemma_next_backslash_bounds(dir, 4);
    }
    assert(p == dir.len() || dir[p] == '\\');
    let body = dir.skip(p);
    assert forall|i: int| 0 <= i < body.len() - 1 && #[trigger] body[i] == '\\' implies body[i + 1] != '\\' by {
        assert(body[i] == dir[p + i] && body[i + 1] == dir[p + i + 1]);
    }
    lemma_backslashed_normal(body);
    if body.len() > 0 {
        assert(body.last() == dir.last());
    }
    assert(dir.take(p) + body =~= dir);
}

/// Joining the library's name onto a nonempty directory never gives the
/// bare name: the path always leads into the directory.
pub proof fn lemma_join_never_bare(dir: Seq<char>)
    ensures
        dir.len() > 0 ==> join_path(dir, forwarded_library()).len() > forwarded_library().len(),
        dir.len() > 0 ==> join_path(dir, forwarded_library()) != forwarded_library(),
{
    if is_verbatim(dir) {
        lemma_verbatim_prefix_bounds(dir);
    }
}

/// The forwarded library's path always ends in the library's name. A
/// directory without the verbatim prefix comes first whole, with at most one
/// separator put after it; a verbatim one keeps its prefix.
pub proof fn lemma_join_keeps_parts(dir: Seq<char>)
    ensures
        join_path(dir, forwarded_library()).subrange(
            join_path(dir, forwarded_library()).len() - forwarded_library().len(),
            join_path(dir, forwarded_library()).len() as int,
        ) == forwarded_library(),
        !is_verbatim(dir) ==> join_path(dir, forwarded_library()).subrange(0, dir.len() as int) == dir,
        !is_verbatim(dir) ==> join_path(dir, forwarded_library()).len() - forwarded_library().len() - dir.len() <= 1,
        is_verbatim(dir) ==> join_path(dir, forwarded_library()).subrange(0, verbatim_prefix_len(dir))
            == dir.take(verbatim_prefix_len(dir)),
{
    let name = forwarded_library();
    let j = join_path(dir, name);
    if is_verbatim(dir) {
        lemma_verbatim_prefix_bounds(dir);
        let p = verbatim_prefix_len(dir);
        assert(j.subrange(0, p) =~= dir.take(p));
        assert(j.subrange(j.len() - name.len(), j.len() as int) =~= name);
    } else {
        assert(j.subrange(0, dir.len() as int) =~= dir);
        assert(j.subrange(j.len() - name.len(), j.len() as int) =~= name);
    }
}

} // verus!
