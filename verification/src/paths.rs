//! Paths of files, with `/` between their components.

use vstd::prelude::*;

use crate::strings::{chars_of, find_char, str_eq, strip_prefix};
#[allow(unused_imports)]
use crate::strings::{first_position, first_position_is_first, opt_view};

verus! {

/// Tells whether a path is absolute.
pub open spec fn is_absolute(path: Seq<char>) -> bool {
    path.len() > 0 && path[0] == '/'
}

/// A path in a directory.
pub open spec fn joined(base: Seq<char>, path: Seq<char>) -> Seq<char> {
    if is_absolute(path) {
        path
    } else if base.len() > 0 && base.last() != '/' {
        base.push('/') + path
    } else {
        base + path
    }
}

/// A relative path, resolved against a directory.
pub open spec fn resolved_path(path: Seq<char>, base: Seq<char>) -> Option<Seq<char>> {
    if is_absolute(path) {
        None
    } else {
        Some(joined(base, path))
    }
}

/// Tells whether a text starts with `prefix` and does not go on with `rest`.
pub open spec fn starts_without(s: Seq<char>, prefix: Seq<char>, rest: Seq<char>) -> bool {
    prefix.is_prefix_of(s) && !rest.is_prefix_of(s.skip(prefix.len() as int))
}

/// Tells whether a database URI is an absolute URI filename or an in-memory database.
pub open spec fn is_fixed_uri(uri: Seq<char>) -> bool {
    ||| "file:///"@.is_prefix_of(uri)
    ||| "file://localhost/"@.is_prefix_of(uri)
    ||| starts_without(uri, "file:/"@, seq!['/'])
    ||| uri == ":memory:"@
}

/// The number of characters before the query of a URI filename, or before its fragment where it
/// has no query.
pub open spec fn path_len(path: Seq<char>) -> int {
    match (first_position(path, '?'), first_position(path, '#')) {
        (Some(i), _) => i,
        (None, Some(i)) => i,
        (None, None) => path.len() as int,
    }
}

/// A database URI, resolved against a directory; nothing where it stays as it is.
pub open spec fn resolved_uri(uri: Seq<char>, base: Seq<char>) -> Option<Seq<char>> {
    if is_fixed_uri(uri) {
        None
    } else if starts_without(uri, "file:"@, "//"@) {
        let path = uri.skip(5);
        let i = path_len(path);
        match resolved_path(path.take(i), base) {
            Some(new) => Some("file:"@ + new + path.skip(i)),
            None => None,
        }
    } else {
        resolved_path(uri, base)
    }
}

/// Resolves a relative path against a directory. Returns nothing for an absolute path.
pub fn resolve_path(path: &str, base: &str) -> (r: Option<String>)
    ensures
        opt_view(r) == resolved_path(path@, base@),
{
    let path_chars = chars_of(path);
    if path_chars.len() > 0 && path_chars[0] == '/' {
        None
    } else {
        let base_chars = chars_of(base);
        let mut new = base.to_owned();
        if base_chars.len() > 0 && base_chars[base_chars.len() - 1] != '/' {
            new.push('/');
        }
        new.append(path);
        Some(new)
    }
}

/// Tells whether a text starts with `prefix` and does not go on with `rest`.
fn has_prefix_without(s: &str, prefix: &str, rest: &str) -> (r: bool)
    ensures
        r == starts_without(s@, prefix@, rest@),
{
    match strip_prefix(s, prefix) {
        Some(s) => strip_prefix(s, rest).is_none(),
        None => false,
    }
}

/// Resolves a database URI against a directory. Returns nothing where it stays as it is.
pub fn resolve_database_uri(uri: &str, base: &str) -> (r: Option<String>)
    ensures
        opt_view(r) == resolved_uri(uri@, base@),
{
    proof {
        reveal_strlit("/");
        reveal_strlit("file:");
        assert("/"@ == seq!['/']);
        assert("file:"@.len() == 5);
    }
    if strip_prefix(uri, "file:///").is_some() || strip_prefix(uri, "file://localhost/").is_some()
        || has_prefix_without(uri, "file:/", "/") || str_eq(uri, ":memory:") {
        // Absolute URI filename or in-memory database.
        return None;
    }
    if has_prefix_without(uri, "file:", "//") {
        // Relative URI filename
        let path = match strip_prefix(uri, "file:") {
            Some(path) => path,
            None => return None,
        };
        assert(path@ == uri@.skip(5));
        let i: usize = match find_char(path, '?') {
            Some(i) => i,
            None => match find_char(path, '#') {
                Some(i) => i,
                None => path.unicode_len(),
            },
        };
        assert(i as int == path_len(path@));
        let n: usize = path.unicode_len();
        let name = path.substring_char(0, i);
        let query_and_fragment = path.substring_char(i, n);
        assert(name@ == path@.take(i as int));
        assert(query_and_fragment@ == path@.skip(i as int));
        match resolve_path(name, base) {
            Some(new) => {
                let mut uri = "file:".to_owned();
                uri.append(new.as_str());
                uri.append(query_and_fragment);
                Some(uri)
            },
            None => None,
        }
    } else {
        // Ordinary filename
        resolve_path(uri, base)
    }
}

/// A path that was resolved against an absolute directory is not resolved again.
pub proof fn resolved_path_is_absolute(path: Seq<char>, base: Seq<char>)
    requires
        is_absolute(base),
    ensures
        resolved_path(path, base) matches Some(new) ==> resolved_path(new, base) is None,
{
}

/// A path that was resolved starts with the directory and ends with the path.
pub proof fn resolved_path_lies_in_base(path: Seq<char>, base: Seq<char>)
    ensures
        resolved_path(path, base) matches Some(new) ==> base.is_prefix_of(new) && new.skip(
            new.len() - path.len(),
        ) == path,
{
    if let Some(new) = resolved_path(path, base) {
        assert(new.subrange(0, base.len() as int) == base);
    }
}

/// A database URI as it is used: resolved against a directory, or as it stands.
pub open spec fn used_uri(uri: Seq<char>, base: Seq<char>) -> Seq<char> {
    match resolved_uri(uri, base) {
        Some(new) => new,
        None => uri,
    }
}

/// A database URI that was resolved stays as it is when it is resolved again. This leaves out what is
/// resolved to neither an absolute URI filename nor an absolute path: what a relative directory that
/// is not empty stands in front of, and a URI filename whose directory starts with two slashes, so
/// that its first component would be taken for a host.
pub proof fn resolved_uri_is_fixed(uri: Seq<char>, base: Seq<char>)
    requires
        resolved_uri(uri, base) matches Some(new) ==> {
            ||| base.len() == 0
            ||| is_fixed_uri(new)
            ||| is_absolute(new)
        },
    ensures
        used_uri(used_uri(uri, base), base) == used_uri(uri, base),
{
    if let Some(new) = resolved_uri(uri, base) {
        if base.len() == 0 {
            if starts_without(uri, "file:"@, "//"@) {
                reveal_strlit("file:");
                let path = uri.skip(5);
                let i = path_len(path);
                first_position_is_first(path, '?');
                first_position_is_first(path, '#');
                assert(path.take(i) + path.skip(i) == path);
                assert(uri.subrange(0, 5) == "file:"@);
                assert("file:"@ + path == uri);
                assert(base + path.take(i) == path.take(i));
                assert(new == uri);
            } else {
                assert(new == uri);
            }
        } else if !is_fixed_uri(new) {
            reveal_strlit("file:");
            if starts_without(new, "file:"@, "//"@) {
                assert(new.subrange(0, 5) == "file:"@);
                assert("file:"@[0] == 'f');
                assert(new[0] == 'f');
            }
        }
    }
}

/// What is resolved against an absolute directory that does not start with two slashes stays as it is
/// when it is resolved again.
pub proof fn uri_in_absolute_base_is_fixed(uri: Seq<char>, base: Seq<char>)
    requires
        is_absolute(base),
        base.len() > 1 ==> base[1] != '/',
    ensures
        used_uri(used_uri(uri, base), base) == used_uri(uri, base),
{
    if let Some(new) = resolved_uri(uri, base) {
        if starts_without(uri, "file:"@, "//"@) {
            reveal_strlit("file:");
            reveal_strlit("file:/");
            let path = uri.skip(5);
            let i = path_len(path);
            first_position_is_first(path, '?');
            first_position_is_first(path, '#');
            let rest = joined(base, path.take(i)) + path.skip(i);
            assert(new == "file:"@ + rest);
            assert(rest[0] == '/');
            assert(new.subrange(0, 6) == "file:/"@);
            let tail = new.skip(6);
            if seq!['/'].is_prefix_of(tail) {
                assert(tail.subrange(0, 1)[0] == '/');
                assert(tail[0] == rest[1]);
                if base.len() == 1 {
                    assert(rest[1] == path[0]);
                    assert(i > 0 ==> path.take(i)[0] == path[0]);
                }
            }
            assert(is_fixed_uri(new));
        }
        resolved_uri_is_fixed(uri, base);
    }
}

/// The position behind the last slash.
pub open spec fn segment_start(s: Seq<char>) -> int
    decreases s.len(),
{
    if s.len() == 0 {
        0
    } else if s.last() == '/' {
        s.len() as int
    } else {
        segment_start(s.drop_last())
    }
}

/// Tells whether a segment of a path stands for nothing.
pub open spec fn is_idle(segment: Seq<char>) -> bool {
    segment.len() == 0 || segment == seq!['.']
}

/// Where the last segment of a path starts and ends that stands for something.
pub open spec fn last_segment(s: Seq<char>) -> Option<(int, int)>
    decreases s.len(),
{
    let start = segment_start(s);
    if start < 0 || start > s.len() {
        None
    } else if !is_idle(s.skip(start)) {
        Some((start, s.len() as int))
    } else if start == 0 {
        None
    } else {
        last_segment(s.take(start - 1))
    }
}

/// Where the name of the file of a path starts and ends. A path that ends in the parent of a
/// directory has none.
pub open spec fn file_name_range(path: Seq<char>) -> Option<(int, int)> {
    match last_segment(path) {
        Some((start, end)) => if path.subrange(start, end) == seq!['.', '.'] {
            None
        } else {
            Some((start, end))
        },
        None => None,
    }
}

/// The name of the file of a path.
pub open spec fn file_name(path: Seq<char>) -> Option<Seq<char>> {
    match file_name_range(path) {
        Some((start, end)) => Some(path.subrange(start, end)),
        None => None,
    }
}

/// A directory without what stands for nothing at its end.
pub open spec fn trimmed(dir: Seq<char>) -> Seq<char>
    decreases dir.len(),
{
    if dir.len() <= 1 {
        dir
    } else if dir.last() == '/' || dir.last() == '.' && dir[dir.len() - 2] == '/' {
        trimmed(dir.drop_last())
    } else {
        dir
    }
}

/// A path with another name of its file.
pub open spec fn with_file_name(path: Seq<char>, name: Seq<char>) -> Seq<char> {
    match file_name_range(path) {
        Some((start, _)) => joined(trimmed(path.take(start)), name),
        None => joined(path, name),
    }
}

/// The position of the last dot.
pub open spec fn last_dot(name: Seq<char>) -> Option<int>
    decreases name.len(),
{
    if name.len() == 0 {
        None
    } else if name.last() == '.' {
        Some(name.len() - 1)
    } else {
        last_dot(name.drop_last())
    }
}

/// What follows the last dot of the name of a path's file, unless the name starts with it.
pub open spec fn extension(path: Seq<char>) -> Option<Seq<char>> {
    match file_name(path) {
        Some(name) => match last_dot(name) {
            Some(i) => if i > 0 {
                Some(name.skip(i + 1))
            } else {
                None
            },
            None => None,
        },
        None => None,
    }
}

/// Returns the position behind the last slash before `end`.
fn find_segment_start(chars: &Vec<char>, end: usize) -> (r: usize)
    requires
        end <= chars@.len(),
    ensures
        r == segment_start(chars@.take(end as int)),
        r <= end,
{
    let mut i: usize = end;
    while i > 0
        invariant
            i <= end <= chars@.len(),
            segment_start(chars@.take(end as int)) == segment_start(chars@.take(i as int)),
        decreases i,
    {
        assert(chars@.take(i as int).last() == chars@[i - 1]);
        if chars[i - 1] == '/' {
            return i;
        }
        assert(chars@.take(i as int).drop_last() == chars@.take(i - 1));
        i -= 1;
    }
    0
}

/// Returns where the name of the file of a path starts and ends.
fn find_file_name(chars: &Vec<char>) -> (r: Option<(usize, usize)>)
    ensures
        match r {
            Some((start, end)) => file_name_range(chars@) == Some((start as int, end as int))
                && start < end <= chars@.len(),
            None => file_name_range(chars@) is None,
        },
{
    let mut end: usize = chars.len();
    assert(chars@.take(end as int) == chars@);
    loop
        invariant
            end <= chars@.len(),
            last_segment(chars@) == last_segment(chars@.take(end as int)),
        decreases end,
    {
        let ghost s = chars@.take(end as int);
        let start: usize = find_segment_start(chars, end);
        let len: usize = end - start;
        let idle = len == 0 || len == 1 && chars[start] == '.';
        assert(idle == is_idle(s.skip(start as int))) by {
            let segment = s.skip(start as int);
            if len == 1 {
                assert(segment[0] == chars@[start as int]);
                assert(segment == seq![chars@[start as int]]);
            }
            if segment == seq!['.'] {
                assert(segment[0] == '.');
            }
        }
        if !idle {
            assert(last_segment(chars@) == Some((start as int, end as int)));
            let ghost name = chars@.subrange(start as int, end as int);
            let parent = len == 2 && chars[start] == '.' && chars[start + 1] == '.';
            assert(parent == (name == seq!['.', '.'])) by {
                let dots = seq!['.', '.'];
                assert(name.len() == len);
                if parent {
                    assert(name == dots);
                }
                if name == dots {
                    assert(name[0] == dots[0] && name[1] == dots[1]);
                    assert(name[0] == chars@[start as int] && name[1] == chars@[start + 1]);
                }
            }
            if parent {
                return None;
            }
            return Some((start, end));
        }
        if start == 0 {
            return None;
        }
        assert(s.take(start - 1) == chars@.take(start - 1));
        end = start - 1;
    }
}

/// Returns the length of a directory without what stands for nothing at its end.
fn trimmed_len(chars: &Vec<char>, len: usize) -> (r: usize)
    requires
        len <= chars@.len(),
    ensures
        r <= len,
        trimmed(chars@.take(len as int)) == chars@.take(r as int),
{
    let mut n: usize = len;
    while n > 1 && (chars[n - 1] == '/' || chars[n - 1] == '.' && chars[n - 2] == '/')
        invariant
            n <= len <= chars@.len(),
            trimmed(chars@.take(len as int)) == trimmed(chars@.take(n as int)),
        decreases n,
    {
        let ghost dir = chars@.take(n as int);
        assert(dir.last() == chars@[n - 1]);
        assert(dir.drop_last() == chars@.take(n - 1));
        n -= 1;
    }
    n
}

/// Returns the path of the socket of a manifest: a hidden file beside it, named after it.
pub open spec fn socket_path(manifest_path: Seq<char>) -> Seq<char> {
    with_file_name(
        manifest_path,
        seq!['.'] + file_name(manifest_path)->0 + ".sock"@,
    )
}

/// Returns the path of the socket of a manifest.
pub fn ipc_path(manifest_path: &str) -> (r: String)
    requires
        file_name(manifest_path@) is Some,
    ensures
        r@ == socket_path(manifest_path@),
{
    let chars = chars_of(manifest_path);
    let (start, end) = match find_file_name(&chars) {
        Some(range) => range,
        None => return String::new(),
    };
    let mut sock = String::new();
    sock.push('.');
    let name = crate::strings::string_of(&chars, start, end);
    sock.append(name.as_str());
    sock.append(".sock");
    assert(sock@ == seq!['.'] + file_name(manifest_path@)->0 + ".sock"@);
    let n: usize = trimmed_len(&chars, start);
    let dir = crate::strings::string_of(&chars, 0, n);
    assert(dir@ == trimmed(chars@.take(start as int)));
    match resolve_path(sock.as_str(), dir.as_str()) {
        Some(path) => path,
        None => sock,
    }
}

/// Tells whether a path has an extension.
pub fn has_extension(path: &str, expected: &str) -> (r: bool)
    ensures
        r == (extension(path@) == Some(expected@)),
{
    let chars = chars_of(path);
    let (start, end) = match find_file_name(&chars) {
        Some(range) => range,
        None => return false,
    };
    let ghost name = chars@.subrange(start as int, end as int);
    let mut i: usize = end;
    assert(name.take(name.len() as int) == name);
    while i > start
        invariant
            start <= i <= end <= chars@.len(),
            chars@ == path@,
            file_name_range(path@) == Some((start as int, end as int)),
            name == chars@.subrange(start as int, end as int),
            last_dot(name) == last_dot(name.take(i - start)),
        decreases i,
    {
        assert(name.take(i - start).last() == chars@[i - 1]);
        if chars[i - 1] == '.' {
            if i - 1 == start {
                return false;
            }
            let found = crate::strings::string_of(&chars, i, end);
            assert(found@ == name.skip(i - start));
            return str_eq(found.as_str(), expected);
        }
        assert(name.take(i - start).drop_last() == name.take(i - start - 1));
        i -= 1;
    }
    false
}

/// A path that does not start with a slash is put behind the directory, with a single slash between
/// them unless the directory is empty. One that does stays as it is.
pub proof fn relative_paths_are_joined(path: Seq<char>, base: Seq<char>)
    ensures
        path.len() > 0 && path[0] == '/' ==> resolved_path(path, base) is None,
        path.len() == 0 || path[0] != '/' ==> {
            &&& base.len() == 0 ==> resolved_path(path, base) == Some(path)
            &&& base.len() > 0 && base.last() == '/' ==> resolved_path(path, base) == Some(
                base + path,
            )
            &&& base.len() > 0 && base.last() != '/' ==> resolved_path(path, base) == Some(
                base + seq!['/'] + path,
            )
        },
{
    assert(base.push('/') + path == base + seq!['/'] + path);
    assert(Seq::<char>::empty() + path == path);
    if base.len() == 0 {
        assert(base + path == path);
    }
}

/// Absolute URI filenames and in-memory databases stay as they are, in any directory.
pub proof fn fixed_uris_stay(rest: Seq<char>, base: Seq<char>)
    ensures
        resolved_uri("file:///"@ + rest, base) is None,
        resolved_uri("file://localhost/"@ + rest, base) is None,
        rest.len() == 0 || rest[0] != '/' ==> resolved_uri("file:/"@ + rest, base) is None,
        resolved_uri(":memory:"@, base) is None,
{
    assert(("file:///"@ + rest).subrange(0, "file:///"@.len() as int) == "file:///"@);
    assert(("file://localhost/"@ + rest).subrange(0, "file://localhost/"@.len() as int)
        == "file://localhost/"@);
    assert(("file:/"@ + rest).subrange(0, "file:/"@.len() as int) == "file:/"@);
    assert(("file:/"@ + rest).skip("file:/"@.len() as int) == rest);
    if rest.len() == 0 || rest[0] != '/' {
        if seq!['/'].is_prefix_of(rest) {
            assert(rest.subrange(0, 1)[0] == '/');
        }
    }
}

/// A text is no prefix of another that differs from it at a position.
proof fn no_prefix(prefix: Seq<char>, s: Seq<char>, i: int)
    requires
        0 <= i < prefix.len(),
        i >= s.len() || prefix[i] != s[i],
    ensures
        !prefix.is_prefix_of(s),
{
    if prefix.is_prefix_of(s) {
        assert(s.subrange(0, prefix.len() as int)[i] == prefix[i]);
    }
}

/// In a relative URI filename the name of the file is resolved like a path, and the query and the
/// fragment stay behind it as they are.
pub proof fn names_in_uris_are_resolved(name: Seq<char>, rest: Seq<char>, base: Seq<char>)
    requires
        name.len() == 0 || name[0] != '/',
        !name.contains('?'),
        !name.contains('#'),
        rest.len() == 0 || rest[0] == '?' || rest[0] == '#' && !rest.contains('?'),
    ensures
        resolved_path(name, base) is Some,
        resolved_uri("file:"@ + name + rest, base) == Some(
            "file:"@ + resolved_path(name, base)->0 + rest,
        ),
{
    reveal_strlit("file:");
    reveal_strlit("file:/");
    reveal_strlit("file:///");
    reveal_strlit("file://localhost/");
    reveal_strlit(":memory:");
    reveal_strlit("//");
    let uri = "file:"@ + name + rest;
    let path = name + rest;
    assert(uri.skip(5) == path);
    assert(uri.subrange(0, 5) == "file:"@);
    assert(path.len() == 0 || path[0] != '/');
    assert(uri.len() == 5 + path.len());
    if path.len() > 0 {
        assert(uri[5] == path[0]);
    }
    no_prefix("file:///"@, uri, 5);
    no_prefix("file://localhost/"@, uri, 5);
    no_prefix("file:/"@, uri, 5);
    no_prefix("//"@, path, 0);
    assert(uri[0] == 'f' && ":memory:"@[0] == ':');
    first_position_is_first(path, '?');
    first_position_is_first(path, '#');
    let n = name.len() as int;
    assert forall|i: int| 0 <= i < n implies path[i] != '?' && path[i] != '#' by {
        assert(path[i] == name[i]);
        assert(name.contains(name[i]));
    }
    assert forall|i: int| n <= i < path.len() implies path[i] == rest[i - n] by {}
    if rest.len() > 0 {
        assert(path[n] == rest[0]);
        if rest[0] == '?' {
            assert(path_len(path) == n);
        } else {
            assert forall|i: int| 0 <= i < path.len() implies path[i] != '?' by {
                if i >= n {
                    assert(rest.contains(rest[i - n]));
                }
            }
            assert(path_len(path) == n);
        }
    } else {
        assert(path_len(path) == n);
    }
    assert(path.take(n) == name);
    assert(path.skip(n) == rest);
}

/// What does not start like a URI filename, and is no in-memory database, is resolved as a path.
pub proof fn other_uris_are_paths(uri: Seq<char>, base: Seq<char>)
    requires
        !"file:"@.is_prefix_of(uri),
        uri != ":memory:"@,
    ensures
        resolved_uri(uri, base) == resolved_path(uri, base),
{
    reveal_strlit("file:");
    reveal_strlit("file:/");
    reveal_strlit("file:///");
    reveal_strlit("file://localhost/");
    if "file:/"@.is_prefix_of(uri) {
        assert(uri.subrange(0, 6) == "file:/"@);
        assert(uri.subrange(0, 5) == "file:"@);
    }
    if "file:///"@.is_prefix_of(uri) {
        assert(uri.subrange(0, 8) == "file:///"@);
        assert forall|i: int| 0 <= i < 5 implies uri[i] == "file:"@[i] by {
            assert(uri.subrange(0, 8)[i] == uri[i]);
        }
        assert(uri.subrange(0, 5) == "file:"@);
    }
    if "file://localhost/"@.is_prefix_of(uri) {
        assert forall|i: int| 0 <= i < 5 implies uri[i] == "file:"@[i] by {
            assert(uri.subrange(0, "file://localhost/"@.len() as int)[i] == uri[i]);
        }
        assert(uri.subrange(0, 5) == "file:"@);
    }
}

/// The last segment starts behind the last slash.
proof fn segments_start_behind_slashes(dir: Seq<char>, name: Seq<char>)
    requires
        dir.len() == 0 || dir.last() == '/',
        !name.contains('/'),
    ensures
        segment_start(dir + name) == dir.len(),
    decreases name.len(),
{
    let s = dir + name;
    if name.len() == 0 {
        assert(s == dir);
    } else {
        assert(s.last() == name.last());
        assert(name.contains(name.last())) by {
            assert(name[name.len() - 1] == name.last());
        }
        let before = name.drop_last();
        if before.contains('/') {
            let i = before.index_of('/');
            assert(name[i] == '/');
        }
        assert(s.drop_last() == dir + before);
        segments_start_behind_slashes(dir, before);
    }
}

/// The name of a file is what follows the last slash, whatever directory stands in front of it; a
/// slash or a dot behind it is nothing. A path that ends in the parent of a directory names no file.
pub proof fn files_have_their_names(dir: Seq<char>, name: Seq<char>)
    requires
        dir.len() == 0 || dir.last() == '/',
        name.len() > 0,
        !name.contains('/'),
        name != seq!['.'],
    ensures
        name != seq!['.', '.'] ==> {
            &&& file_name_range(dir + name) == Some((dir.len() as int, (dir + name).len() as int))
            &&& file_name(dir + name) == Some(name)
            &&& file_name(dir + name + seq!['/']) == Some(name)
            &&& file_name(dir + name + seq!['/', '.']) == Some(name)
        },
        name == seq!['.', '.'] ==> file_name(dir + name) is None,
{
    let path = dir + name;
    segments_start_behind_slashes(dir, name);
    assert(path.skip(dir.len() as int) == name);
    assert(last_segment(path) == Some((dir.len() as int, path.len() as int)));
    assert(path.subrange(dir.len() as int, path.len() as int) == name);
    let slashed = path + seq!['/'];
    let none: Seq<char> = Seq::empty();
    segments_start_behind_slashes(slashed, none);
    assert(slashed + none == slashed);
    assert(slashed.skip(slashed.len() as int) == none);
    assert(slashed.take(slashed.len() - 1) == path);
    assert(last_segment(slashed) == last_segment(path));
    assert(slashed.subrange(dir.len() as int, path.len() as int) == name);
    let dotted = path + seq!['/', '.'];
    let dot = seq!['.'];
    assert(dotted == slashed + dot);
    assert(!dot.contains('/'));
    segments_start_behind_slashes(slashed, dot);
    assert(dotted.skip(slashed.len() as int) == dot);
    assert(dotted.take(slashed.len() - 1) == path);
    assert(last_segment(dotted) == last_segment(path));
    assert(dotted.subrange(dir.len() as int, path.len() as int) == name);
}

/// The socket of a manifest is a hidden file in the directory of the manifest, named after it.
pub proof fn sockets_lie_beside_manifests(dir: Seq<char>, name: Seq<char>)
    requires
        name.len() > 0,
        !name.contains('/'),
        name != seq!['.'],
        name != seq!['.', '.'],
    ensures
        socket_path(name) == seq!['.'] + name + ".sock"@,
        socket_path(seq!['/'] + name) == seq!['/', '.'] + name + ".sock"@,
        dir.len() > 0 && dir.last() != '/' && (dir.len() > 1 && dir.last() == '.' ==> dir[dir.len()
            - 2] != '/') ==> socket_path(dir + seq!['/'] + name) == dir + seq!['/', '.'] + name
            + ".sock"@,
{
    let none: Seq<char> = Seq::empty();
    let sock = seq!['.'] + name + ".sock"@;
    assert(sock[0] == '.');
    files_have_their_names(none, name);
    assert(none + name == name);
    assert(name.take(0) == none);
    assert(trimmed(none) == none);
    assert(none + sock == sock);
    let root = seq!['/'];
    files_have_their_names(root, name);
    assert((root + name).take(1) == root);
    assert(trimmed(root) == root);
    assert(root + sock == seq!['/', '.'] + name + ".sock"@);
    if dir.len() > 0 && dir.last() != '/' && (dir.len() > 1 && dir.last() == '.' ==> dir[dir.len()
        - 2] != '/') {
        let slashed = dir + seq!['/'];
        files_have_their_names(slashed, name);
        assert((slashed + name).take(slashed.len() as int) == slashed);
        assert(slashed.drop_last() == dir);
        reveal_with_fuel(trimmed, 2);
        assert(trimmed(slashed) == dir);
        assert(dir.push('/') + sock == dir + seq!['/', '.'] + name + ".sock"@);
    }
}

/// The last dot is where a text without dots follows it.
proof fn last_dot_is_last(stem: Seq<char>, rest: Seq<char>)
    requires
        !rest.contains('.'),
    ensures
        last_dot(stem + seq!['.'] + rest) == Some(stem.len() as int),
        last_dot(rest) is None,
    decreases rest.len(),
{
    let s = stem + seq!['.'] + rest;
    if rest.len() == 0 {
        assert(s.last() == '.');
    } else {
        let before = rest.drop_last();
        if before.contains('.') {
            let i = before.index_of('.');
            assert(rest[i] == '.');
        }
        assert(rest.contains(rest.last())) by {
            assert(rest[rest.len() - 1] == rest.last());
        }
        last_dot_is_last(stem, before);
        assert(s.drop_last() == stem + seq!['.'] + before);
        assert(s.last() == rest.last());
    }
}

/// The extension of a file is what follows the last dot of its name, in any directory. A name without
/// a dot has none, nor has one that only starts with a dot.
pub proof fn files_have_their_extensions(dir: Seq<char>, stem: Seq<char>, ext: Seq<char>)
    requires
        dir.len() == 0 || dir.last() == '/',
        stem.len() > 0,
        !stem.contains('/'),
        !ext.contains('/'),
        !ext.contains('.'),
        stem + seq!['.'] + ext != seq!['.', '.'],
    ensures
        extension(dir + (stem + seq!['.'] + ext)) == Some(ext),
        ext.len() > 0 ==> extension(dir + ext) is None,
        ext.len() > 0 ==> extension(dir + (seq!['.'] + ext)) is None,
{
    let none: Seq<char> = Seq::empty();
    let name = stem + seq!['.'] + ext;
    assert(!name.contains('/')) by {
        if name.contains('/') {
            let i = name.index_of('/');
            if i < stem.len() {
                assert(stem[i] == '/');
            } else if i > stem.len() {
                assert(ext[i - stem.len() - 1] == '/');
            }
        }
    }
    files_have_their_names(dir, name);
    last_dot_is_last(stem, ext);
    assert(name.skip(stem.len() as int + 1) == ext);
    if ext.len() > 0 {
        assert(ext[0] != '.') by {
            assert(ext.contains(ext[0]));
        }
        assert(ext != seq!['.'] && ext != seq!['.', '.']) by {
            assert(seq!['.'][0] == '.');
            assert(seq!['.', '.'][0] == '.');
        }
        files_have_their_names(dir, ext);
        let hidden = seq!['.'] + ext;
        assert(!hidden.contains('/')) by {
            if hidden.contains('/') {
                let i = hidden.index_of('/');
                assert(i > 0);
                assert(ext[i - 1] == '/');
            }
        }
        assert(hidden.len() > 1);
        assert(hidden != seq!['.', '.']) by {
            assert(hidden[1] == ext[0]);
            assert(seq!['.', '.'][1] == '.');
        }
        files_have_their_names(dir, hidden);
        last_dot_is_last(none, ext);
        assert(none + seq!['.'] + ext == hidden);
    }
}

} // verus!
