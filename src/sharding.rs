//! Where a crate's index file lives inside the index tree.
//!
//! Names are sharded by length so that no directory grows too large:
//! one-letter names go under `1`, two-letter names under `2`, three-letter
//! names under `3/<first char>`, and longer names under
//! `<first two chars>/<next two chars>`.

use vstd::prelude::*;
use vstd::string::*;

verus! {

/// The lowercase form of a text, as `str::to_lowercase` gives it.
pub uninterp spec fn lower_of(s: Seq<char>) -> Seq<char>;

/// Relies on `str::to_lowercase`: the result is a function of the characters,
/// the empty text stays empty, and each character maps to one or more
/// characters, so the result is at least as long as the input.
#[verifier::external_body]
pub(crate) fn lowercase(s: &str) -> (r: String)
    ensures
        r@ == lower_of(s@),
        s@.len() == 0 ==> r@.len() == 0,
        r@.len() >= s@.len(),
{
    s.to_lowercase()
}

/// The directory, relative to the index root, that holds the index file of a
/// lowercased crate name.
pub open spec fn shard_dir_of(name: Seq<char>) -> Seq<char> {
    if name.len() == 1 {
        seq!['1']
    } else if name.len() == 2 {
        seq!['2']
    } else if name.len() == 3 {
        seq!['3', '/'] + name.subrange(0, 1)
    } else {
        name.subrange(0, 2) + seq!['/'] + name.subrange(2, 4)
    }
}

/// The index file's path, relative to the index root: the shard directory,
/// then the lowercased name itself.
pub open spec fn index_path_of(name: Seq<char>) -> Seq<char> {
    shard_dir_of(name) + seq!['/'] + name
}

/// The shard directory of a lowercased, non-empty crate name.
pub fn shard_dir(name: &str) -> (r: String)
    requires
        name@.len() > 0,
    ensures
        r@ == shard_dir_of(name@),
{
    let n = name.unicode_len();
    if n == 1 {
        proof { reveal_strlit("1"); }
        String::from_str("1")
    } else if n == 2 {
        proof { reveal_strlit("2"); }
        String::from_str("2")
    } else if n == 3 {
        proof { reveal_strlit("3/"); }
        String::from_str("3/").concat(name.substring_char(0, 1))
    } else {
        proof { reveal_strlit("/"); }
        let first = String::from_str(name.substring_char(0, 2));
        let r = first.concat("/").concat(name.substring_char(2, 4));
        proof {
            assert(r@ =~= name@.subrange(0, 2) + seq!['/'] + name@.subrange(2, 4));
        }
        r
    }
}

/// The index file path of a lowercased, non-empty crate name.
pub fn index_path(name: &str) -> (r: String)
    requires
        name@.len() > 0,
    ensures
        r@ == index_path_of(name@),
{
    proof { reveal_strlit("/"); }
    let r = shard_dir(name).concat("/").concat(name);
    proof {
        assert(r@ =~= shard_dir_of(name@) + seq!['/'] + name@);
    }
    r
}

/// The index file path of a crate name of any case: the name is lowercased
/// first. `None` when the lowercased name is empty, which happens exactly for
/// the empty name.
pub fn index_path_for(name: &str) -> (r: Option<String>)
    ensures
        name@.len() > 0 <==> lower_of(name@).len() > 0,
        lower_of(name@).len() == 0 ==> r.is_none(),
        lower_of(name@).len() > 0 ==> r.is_some() && r.unwrap()@ == index_path_of(lower_of(name@)),
{
    let lower = lowercase(name);
    if lower.unicode_len() == 0 {
        None
    } else {
        Some(index_path(lower.as_str()))
    }
}

} // verus!
