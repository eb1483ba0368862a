//! Paths and names as sequences of characters.

use vstd::prelude::*;
use vstd::string::*;

verus! {

/// The part of `s` behind its last `c`; all of `s` where it holds no `c`.
pub open spec fn after_last(s: Seq<char>, c: char) -> Seq<char>
    decreases s.len(),
{
    if s.len() == 0 {
        s
    } else if s.last() == c {
        Seq::empty()
    } else {
        after_last(s.drop_last(), c).push(s.last())
    }
}

/// The place of the last `c` in `s`; -1 where `s` holds no `c`.
pub open spec fn last_place(s: Seq<char>, c: char) -> int
    decreases s.len(),
{
    if s.len() == 0 {
        -1
    } else if s.last() == c {
        s.len() - 1
    } else {
        last_place(s.drop_last(), c)
    }
}

/// The part of `s` before its last `c`; all of `s` where it holds no `c`.
pub open spec fn before_last(s: Seq<char>, c: char) -> Seq<char> {
    if last_place(s, c) < 0 {
        s
    } else {
        s.subrange(0, last_place(s, c))
    }
}

/// `name` below the directory `base`, with `/` between the two where `base` does not end
/// in one. A `name` that starts at the root stands for itself.
pub open spec fn joined(base: Seq<char>, name: Seq<char>) -> Seq<char> {
    if name.len() > 0 && name[0] == '/' {
        name
    } else if base.len() == 0 || base.last() == '/' {
        base + name
    } else {
        base + seq!['/'] + name
    }
}

/// A suffix of `s` that holds no `c` and has a `c` right before it, or starts `s`, is the
/// part behind the last `c`.
pub proof fn lemma_after_last(s: Seq<char>, c: char, from: int)
    requires
        0 <= from <= s.len(),
        forall|k: int| from <= k < s.len() ==> s[k] != c,
        from == 0 || s[from - 1] == c,
    ensures
        after_last(s, c) == s.subrange(from, s.len() as int),
    decreases s.len(),
{
    if s.len() == 0 {
        assert(s.subrange(from, s.len() as int) =~= s);
    } else if from == s.len() {
        assert(s.subrange(from, s.len() as int) =~= Seq::<char>::empty());
    } else {
        let shorter = s.drop_last();
        assert(s.last() != c);
        assert forall|k: int| from <= k < shorter.len() implies shorter[k] != c by {
            assert(shorter[k] == s[k]);
        }
        lemma_after_last(shorter, c, from);
        assert(shorter.subrange(from, shorter.len() as int).push(s.last()) =~= s.subrange(
            from,
            s.len() as int,
        ));
    }
}

/// A place that holds `c` and has no `c` behind it is the last place of `c`; and where no
/// place from `from` on holds `c` and `from` is the start, there is no such place.
pub proof fn lemma_last_place(s: Seq<char>, c: char, from: int)
    requires
        0 <= from <= s.len(),
        forall|k: int| from <= k < s.len() ==> s[k] != c,
        from == 0 || s[from - 1] == c,
    ensures
        last_place(s, c) == from - 1,
    decreases s.len(),
{
    if s.len() == 0 {
    } else if from == s.len() {
    } else {
        let shorter = s.drop_last();
        assert(s.last() != c);
        assert forall|k: int| from <= k < shorter.len() implies shorter[k] != c by {
            assert(shorter[k] == s[k]);
        }
        if from > 0 {
            assert(shorter[from - 1] == s[from - 1]);
        }
        lemma_last_place(shorter, c, from);
    }
}

/// The part of `s` behind its last `c`; all of `s` where it holds no `c`.
pub fn segment_after_last(s: &str, c: char) -> (r: String)
    ensures
        r@ == after_last(s@, c),
{
    let len = s.unicode_len();
    let mut from: usize = len;
    while from > 0 && s.get_char(from - 1) != c
        invariant
            len == s@.len(),
            from <= len,
            forall|k: int| from <= k < len ==> s@[k] != c,
        decreases from,
    {
        from = from - 1;
    }
    proof {
        lemma_after_last(s@, c, from as int);
    }
    String::from_str(s.substring_char(from, len))
}

/// The part of `s` before its last `c`; all of `s` where it holds no `c`.
pub fn part_before_last(s: &str, c: char) -> (r: String)
    ensures
        r@ == before_last(s@, c),
{
    let len = s.unicode_len();
    let mut from: usize = len;
    while from > 0 && s.get_char(from - 1) != c
        invariant
            len == s@.len(),
            from <= len,
            forall|k: int| from <= k < len ==> s@[k] != c,
        decreases from,
    {
        from = from - 1;
    }
    proof {
        lemma_last_place(s@, c, from as int);
    }
    if from == 0 {
        assert(s@.subrange(0, len as int) =~= s@);
        String::from_str(s.substring_char(0, len))
    } else {
        String::from_str(s.substring_char(0, from - 1))
    }
}

/// The path of `name` below the directory `base`.
pub fn join(base: &str, name: &str) -> (r: String)
    ensures
        r@ == joined(base@, name@),
{
    let name_len = name.unicode_len();
    if name_len > 0 && name.get_char(0) == '/' {
        return String::from_str(name);
    }
    let base_len = base.unicode_len();
    let mut path = String::from_str(base);
    if base_len > 0 && base.get_char(base_len - 1) != '/' {
        proof {
            reveal_strlit("/");
        }
        assert("/"@ =~= seq!['/']);
        path.append("/");
    }
    path.append(name);
    path
}

} // verus!
