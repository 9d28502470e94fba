//! Where archives are stored under the crates root, and which archive a
//! download request names.
//!
//! A download request reads `<crate-name>/<version>`, possibly after leading
//! slashes. Both segments must be non-empty, hold no `/`, and not be the
//! parent reference `..`, so a resolved path never leaves the crates root.

use vstd::prelude::*;
use vstd::string::*;

verus! {

/// The name of the archive file inside a version's directory.
pub open spec fn archive_file_name() -> Seq<char> {
    seq!['a', 'r', 'c', 'h', 'i', 'v', 'e', '.', 'c', 'r', 'a', 't', 'e']
}

/// The directory of a crate version's archive, relative to the crates root:
/// `<name>/<version>`.
pub open spec fn archive_dir_of(name: Seq<char>, vers: Seq<char>) -> Seq<char> {
    name + seq!['/'] + vers
}

/// The directory of a crate version's archive, relative to the crates root.
pub fn archive_dir(name: &str, vers: &str) -> (r: String)
    ensures
        r@ == archive_dir_of(name@, vers@),
{
    proof {
        reveal_strlit("/");
        assert("/"@ =~= seq!['/']);
    }
    let r = String::from_str(name).concat("/").concat(vers);
    proof {
        assert(r@ =~= archive_dir_of(name@, vers@));
    }
    r
}

/// The archive path of a crate version, relative to the crates root:
/// `<name>/<version>/archive.crate`.
pub open spec fn archive_path_of(name: Seq<char>, vers: Seq<char>) -> Seq<char> {
    name + seq!['/'] + vers + seq!['/'] + archive_file_name()
}

/// The archive path of a crate version, relative to the crates root.
pub fn archive_path(name: &str, vers: &str) -> (r: String)
    ensures
        r@ == archive_path_of(name@, vers@),
{
    proof {
        reveal_strlit("/");
        reveal_strlit("/archive.crate");
        assert("/archive.crate"@ =~= seq!['/'] + archive_file_name());
    }
    let r = String::from_str(name).concat("/").concat(vers).concat("/archive.crate");
    proof {
        assert(r@ =~= archive_path_of(name@, vers@));
    }
    r
}

/// The first index at or after `i` that holds no `/`.
pub open spec fn skip_slashes(s: Seq<char>, i: int) -> int
    decreases s.len() - i,
{
    if 0 <= i < s.len() && s[i] == '/' {
        skip_slashes(s, i + 1)
    } else {
        i
    }
}

/// The first index at or after `i` that holds a `/`, or the length of `s`.
pub open spec fn find_slash(s: Seq<char>, i: int) -> int
    decreases s.len() - i,
{
    if 0 <= i < s.len() {
        if s[i] == '/' {
            i
        } else {
            find_slash(s, i + 1)
        }
    } else {
        s.len() as int
    }
}

/// A path segment that does not lead out of its directory: non-empty, and
/// not the parent reference `..`.
pub open spec fn is_plain_segment(s: Seq<char>) -> bool {
    s.len() > 0 && s != seq!['.', '.']
}

/// The crate name and version that a download request names, if it is well
/// formed.
pub open spec fn download_target(p: Seq<char>) -> Option<(Seq<char>, Seq<char>)> {
    let start = skip_slashes(p, 0);
    let mid = find_slash(p, start);
    if mid < p.len() && find_slash(p, mid + 1) == p.len() {
        let name = p.subrange(start, mid);
        let vers = p.subrange(mid + 1, p.len() as int);
        if is_plain_segment(name) && is_plain_segment(vers) {
            Some((name, vers))
        } else {
            None
        }
    } else {
        None
    }
}

/// The archive path, relative to the crates root, that a download request
/// resolves to; `None` when the request is not of the form
/// `<crate-name>/<version>`.
pub open spec fn download_path_of(p: Seq<char>) -> Option<Seq<char>> {
    match download_target(p) {
        Some((name, vers)) => Some(archive_path_of(name, vers)),
        None => None,
    }
}

fn plain_segment(s: &str) -> (r: bool)
    ensures
        r == is_plain_segment(s@),
{
    let n = s.unicode_len();
    if n == 0 {
        false
    } else if n == 2 {
        let c0 = s.get_char(0);
        let c1 = s.get_char(1);
        proof {
            if c0 == '.' && c1 == '.' {
                assert(s@ =~= seq!['.', '.']);
            }
        }
        !(c0 == '.' && c1 == '.')
    } else {
        true
    }
}

/// A name or version under which an archive can be stored: a plain
/// segment that holds no `/`.
pub open spec fn is_storable_segment(s: Seq<char>) -> bool {
    is_plain_segment(s) && !s.contains('/')
}

/// Whether a crate name or version can be used as a directory name under
/// the crates root.
pub fn storable_segment(s: &str) -> (r: bool)
    ensures
        r == is_storable_segment(s@),
{
    if !plain_segment(s) {
        return false;
    }
    let n = s.unicode_len();
    let mut i: usize = 0;
    while i < n
        invariant
            n == s@.len(),
            i <= n,
            forall|j: int| 0 <= j < i ==> s@[j] != '/',
        decreases n - i,
    {
        if s.get_char(i) == '/' {
            assert(s@.contains('/'));
            return false;
        }
        i = i + 1;
    }
    true
}

/// Resolves a download request to the archive path it names, relative to
/// the crates root.
pub fn resolve_download(request: &str) -> (r: Option<String>)
    ensures
        match download_path_of(request@) {
            Some(p) => r.is_some() && r.unwrap()@ == p,
            None => r.is_none(),
        },
{
    let n = request.unicode_len();
    let mut start: usize = 0;
    while start < n && request.get_char(start) == '/'
        invariant
            start <= n,
            n == request@.len(),
            skip_slashes(request@, 0) == skip_slashes(request@, start as int),
        decreases n - start,
    {
        start = start + 1;
    }
    let mut mid: usize = start;
    while mid < n && request.get_char(mid) != '/'
        invariant
            start <= mid <= n,
            n == request@.len(),
            find_slash(request@, start as int) == find_slash(request@, mid as int),
        decreases n - mid,
    {
        mid = mid + 1;
    }
    if mid == n {
        return None;
    }
    let mut end: usize = mid + 1;
    while end < n && request.get_char(end) != '/'
        invariant
            mid < end <= n,
            n == request@.len(),
            find_slash(request@, mid as int + 1) == find_slash(request@, end as int),
        decreases n - end,
    {
        end = end + 1;
    }
    if end != n {
        return None;
    }
    let name = request.substring_char(start, mid);
    let vers = request.substring_char(mid + 1, n);
    if plain_segment(name) && plain_segment(vers) {
        Some(archive_path(name, vers))
    } else {
        None
    }
}

proof fn lemma_find_slash_run(s: Seq<char>, i: int, e: int)
    requires
        0 <= i <= e <= s.len(),
        forall|j: int| i <= j < e ==> s[j] != '/',
        e == s.len() || s[e] == '/',
    ensures
        find_slash(s, i) == e,
    decreases e - i,
{
    if i < e {
        lemma_find_slash_run(s, i + 1, e);
    }
}

/// A download request for a published name and version, written as
/// `/<name>/<version>`, resolves to the very path the archive was stored at.
pub proof fn lemma_download_finds_archive(name: Seq<char>, vers: Seq<char>)
    requires
        is_storable_segment(name),
        is_storable_segment(vers),
    ensures
        download_path_of(seq!['/'] + name + seq!['/'] + vers) == Some(archive_path_of(name, vers)),
{
    let p = seq!['/'] + name + seq!['/'] + vers;
    let mid: int = 1 + name.len() as int;
    assert(p[0] == '/');
    assert(p[1] == name[0]);
    assert(name[0] != '/') by {
        if name[0] == '/' {
            assert(name.contains('/'));
        }
    }
    assert(skip_slashes(p, 1) == 1);
    assert(skip_slashes(p, 0) == 1);
    assert forall|j: int| 1 <= j < mid implies p[j] != '/' by {
        assert(p[j] == name[j - 1]);
        if name[j - 1] == '/' {
            assert(name.contains('/'));
        }
    }
    assert(p[mid] == '/');
    lemma_find_slash_run(p, 1, mid);
    assert forall|j: int| mid + 1 <= j < p.len() implies p[j] != '/' by {
        assert(p[j] == vers[j - mid - 1]);
        if vers[j - mid - 1] == '/' {
            assert(vers.contains('/'));
        }
    }
    lemma_find_slash_run(p, mid + 1, p.len() as int);
    assert(p.subrange(1, mid) =~= name);
    assert(p.subrange(mid + 1, p.len() as int) =~= vers);
}

} // verus!
