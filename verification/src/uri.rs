//! Request addresses: a base address and a path, joined by one slash.

use vstd::prelude::*;
use vstd::string::StrSliceExecFns;
use vstd::string::StringExecFns;

verus! {

/// `s` without the slashes it ends in.
pub open spec fn without_trailing_slashes(s: Seq<char>) -> Seq<char>
    decreases s.len(),
{
    if s.len() > 0 && s.last() == '/' {
        without_trailing_slashes(s.drop_last())
    } else {
        s
    }
}

/// `s` without the slashes it starts with.
pub open spec fn without_leading_slashes(s: Seq<char>) -> Seq<char>
    decreases s.len(),
{
    if s.len() > 0 && s.first() == '/' {
        without_leading_slashes(s.drop_first())
    } else {
        s
    }
}

/// The address of `path` under `base`: the base without its trailing
/// slashes, one slash, and the path without its leading slashes.
pub open spec fn joined(base: Seq<char>, path: Seq<char>) -> Seq<char> {
    without_trailing_slashes(base) + seq!['/'] + without_leading_slashes(path)
}

/// Whether every character of `s` is a slash.
pub open spec fn all_slashes(s: Seq<char>) -> bool {
    forall|i: int| 0 <= i < s.len() ==> #[trigger] s[i] == '/'
}

/// What is left of `s` is `s` up to its last character that is no slash;
/// what was cut off is slashes only.
pub proof fn lemma_without_trailing_slashes(s: Seq<char>)
    ensures
        ({
            let t = without_trailing_slashes(s);
            &&& t.len() <= s.len()
            &&& t == s.take(t.len() as int)
            &&& all_slashes(s.skip(t.len() as int))
            &&& t.len() > 0 ==> t.last() != '/'
        }),
    decreases s.len(),
{
    let t = without_trailing_slashes(s);
    if s.len() > 0 && s.last() == '/' {
        lemma_without_trailing_slashes(s.drop_last());
        assert(s.drop_last().take(t.len() as int) =~= s.take(t.len() as int));
        assert forall|i: int| 0 <= i < s.skip(t.len() as int).len() implies #[trigger] s.skip(
            t.len() as int,
        )[i] == '/' by {
            if t.len() + i < s.len() - 1 {
                assert(s.drop_last().skip(t.len() as int)[i] == '/');
            }
        }
    } else {
        assert(s.take(s.len() as int) =~= s);
    }
}

/// What is left of `s` is `s` from its first character that is no slash;
/// what was cut off is slashes only.
pub proof fn lemma_without_leading_slashes(s: Seq<char>)
    ensures
        ({
            let t = without_leading_slashes(s);
            &&& t.len() <= s.len()
            &&& t == s.skip(s.len() - t.len())
            &&& all_slashes(s.take(s.len() - t.len()))
            &&& t.len() > 0 ==> t.first() != '/'
        }),
    decreases s.len(),
{
    let t = without_leading_slashes(s);
    if s.len() > 0 && s.first() == '/' {
        let rest = s.drop_first();
        lemma_without_leading_slashes(rest);
        assert(rest.skip(rest.len() - t.len()) =~= s.skip(s.len() - t.len()));
        assert forall|i: int| 0 <= i < s.take(s.len() - t.len()).len() implies #[trigger] s.take(
            s.len() - t.len(),
        )[i] == '/' by {
            if i > 0 {
                assert(rest.take(rest.len() - t.len())[i - 1] == '/');
            }
        }
    } else {
        assert(s.skip(0) =~= s);
    }
}

/// A joined address holds exactly one slash between what is left of the
/// base and what is left of the path: the base part does not end in a slash
/// and the path part does not start with one.
pub proof fn lemma_join_one_slash(base: Seq<char>, path: Seq<char>)
    ensures
        ({
            let b = without_trailing_slashes(base);
            let p = without_leading_slashes(path);
            let j = joined(base, path);
            &&& j.len() == b.len() + 1 + p.len()
            &&& j.take(b.len() as int) == b
            &&& j[b.len() as int] == '/'
            &&& j.skip(b.len() as int + 1) == p
            &&& b.len() > 0 ==> j[b.len() - 1] != '/'
            &&& p.len() > 0 ==> j[b.len() as int + 1] != '/'
        }),
{
    let b = without_trailing_slashes(base);
    let p = without_leading_slashes(path);
    let j = joined(base, path);
    lemma_without_trailing_slashes(base);
    lemma_without_leading_slashes(path);
    assert(j.take(b.len() as int) =~= b);
    assert(j.skip(b.len() as int + 1) =~= p);
}

/// A slash more at the end of the base, or at the start of the path, makes
/// no difference to the joined address.
pub proof fn lemma_join_ignores_slashes(base: Seq<char>, path: Seq<char>)
    ensures
        joined(base.push('/'), path) == joined(base, path),
        joined(base, seq!['/'] + path) == joined(base, path),
        joined(base.push('/'), seq!['/'] + path) == joined(base, path),
{
    assert(base.push('/').drop_last() =~= base);
    assert((seq!['/'] + path).drop_first() =~= path);
}

/// The part of `s` before the slashes it ends in.
pub fn trim_trailing_slashes(s: &str) -> (r: &str)
    ensures
        r@ == without_trailing_slashes(s@),
{
    let n: usize = s.unicode_len();
    let mut end: usize = 0;
    let mut i: usize = 0;
    assert(s@.take(0) =~= Seq::<char>::empty());
    for c in it: s.chars()
        invariant
            n == s@.len(),
            it.seq() == s@,
            i == it.index(),
            end <= i <= n,
            without_trailing_slashes(s@.take(i as int)) == s@.take(end as int),
    {
        proof {
            assert(s@.take(i + 1).drop_last() =~= s@.take(i as int));
            assert(s@.take(i + 1).last() == c);
        }
        i += 1;
        if c != '/' {
            end = i;
        }
    }
    assert(s@.take(n as int) =~= s@);
    s.substring_char(0, end)
}

/// The part of `s` after the slashes it starts with.
pub fn trim_leading_slashes(s: &str) -> (r: &str)
    ensures
        r@ == without_leading_slashes(s@),
{
    let n: usize = s.unicode_len();
    let mut start: usize = 0;
    let mut leading: bool = true;
    let mut i: usize = 0;
    for c in it: s.chars()
        invariant
            n == s@.len(),
            it.seq() == s@,
            i == it.index(),
            start <= i <= n,
            all_slashes(s@.take(start as int)),
            leading ==> start == i,
            !leading ==> start < i && s@[start as int] != '/',
    {
        if leading && c == '/' {
            assert forall|k: int| 0 <= k < s@.take(start + 1).len() implies #[trigger] s@.take(
                start + 1,
            )[k] == '/' by {
                if k < start {
                    assert(s@.take(start as int)[k] == '/');
                }
            }
            start += 1;
        } else {
            leading = false;
        }
        i += 1;
    }
    proof {
        lemma_without_leading_slashes(s@);
        let cut = s@.len() - without_leading_slashes(s@).len();
        if cut < start {
            assert(s@.take(start as int)[cut] == '/');
            assert(s@.skip(cut)[0] == s@[cut]);
        }
        if cut > start {
            assert(s@.take(cut)[start as int] == '/');
        }
    }
    s.substring_char(start, n)
}

/// Joins a base address and a path with exactly one slash between them,
/// whether or not the base ends in slashes or the path starts with them.
pub fn join(base: &str, path: &str) -> (r: String)
    ensures
        r@ == joined(base@, path@),
{
    let mut r = String::from_str(trim_trailing_slashes(base));
    proof {
        reveal_strlit("/");
    }
    r.append("/");
    r.append(trim_leading_slashes(path));
    assert(r@ =~= joined(base@, path@));
    r
}

} // verus!
