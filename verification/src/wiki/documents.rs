//! Where the documents of a wiki stand, and which names they may have.

use vstd::prelude::*;
use vstd::string::*;
use crate::text;
use crate::text::joined;

verus! {

/// Whether `s` ends in `suffix`.
pub open spec fn ends_with(s: Seq<char>, suffix: Seq<char>) -> bool {
    s.len() >= suffix.len() && s.subrange(s.len() - suffix.len(), s.len() as int) == suffix
}

/// Whether a path inside a wiki names the wiki's own directory: it is empty or a lone `/`.
pub open spec fn is_root(relative: Seq<char>) -> bool {
    relative.len() == 0 || relative == seq!['/']
}

/// `s` without the `/` that it may start with.
pub open spec fn without_leading_slash(s: Seq<char>) -> Seq<char> {
    if s.len() > 0 && s[0] == '/' {
        s.drop_first()
    } else {
        s
    }
}

/// The place of the document `relative` in the wiki at `root`. One `/` at the start of
/// `relative` is passed over.
pub open spec fn document_place(root: Seq<char>, relative: Seq<char>) -> Seq<char> {
    if is_root(relative) {
        root
    } else {
        joined(root, without_leading_slash(relative))
    }
}

/// The place of a new entry `name` in the directory `parent` of the wiki at `root`.
pub open spec fn child_place(root: Seq<char>, parent: Seq<char>, name: Seq<char>) -> Seq<char> {
    if is_root(parent) {
        joined(root, name)
    } else {
        joined(joined(root, parent), name)
    }
}

/// Whether a path inside a wiki names the wiki's own directory.
fn names_root(relative: &str) -> (r: bool)
    ensures
        r == is_root(relative@),
{
    let len = relative.unicode_len();
    if len == 0 {
        true
    } else if len == 1 {
        let only = relative.get_char(0);
        assert(relative@ =~= seq![only]);
        only == '/'
    } else {
        false
    }
}

/// Whether `name` may be the name of a document: whether it ends in `.md`.
pub fn is_markdown(name: &str) -> (r: bool)
    ensures
        r == ends_with(name@, ".md"@),
{
    proof {
        reveal_strlit(".md");
    }
    let len = name.unicode_len();
    if len < 3 {
        return false;
    }
    let found = name.get_char(len - 3) == '.' && name.get_char(len - 2) == 'm' && name.get_char(
        len - 1,
    ) == 'd';
    proof {
        let tail = name@.subrange(len - 3, len as int);
        if found {
            assert(tail =~= ".md"@);
        } else {
            assert(tail[0] == name@[len - 3]);
            assert(tail[1] == name@[len - 2]);
            assert(tail[2] == name@[len - 1]);
        }
    }
    found
}

/// The path of the document `relative` in the wiki at `root`.
pub fn document_path(root: &str, relative: &str) -> (r: String)
    ensures
        r@ == document_place(root@, relative@),
{
    if names_root(relative) {
        return String::from_str(root);
    }
    let len = relative.unicode_len();
    if relative.get_char(0) == '/' {
        let rest = relative.substring_char(1, len);
        assert(rest@ =~= relative@.drop_first());
        text::join(root, rest)
    } else {
        text::join(root, relative)
    }
}

/// The path of a new entry `name` in the directory `parent` of the wiki at `root`.
pub fn child_path(root: &str, parent: &str, name: &str) -> (r: String)
    ensures
        r@ == child_place(root@, parent@, name@),
{
    if names_root(parent) {
        text::join(root, name)
    } else {
        let directory = text::join(root, parent);
        text::join(directory.as_str(), name)
    }
}

} // verus!
