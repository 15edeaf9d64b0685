use vstd::prelude::*;

use crate::casing::push_char;

verus! {

/// A path with its trailing slashes removed; a bare root `/` keeps its one
/// slash.
pub open spec fn strip_trailing_spec(p: Seq<char>) -> Seq<char>
    decreases p.len(),
{
    if p.len() > 1 && p[p.len() - 1] == '/' {
        strip_trailing_spec(p.drop_last())
    } else {
        p
    }
}

/// The index of the last slash of `q`, or `-1` when `q` holds none.
pub open spec fn rfind_slash(q: Seq<char>) -> int
    decreases q.len(),
{
    if q.len() == 0 {
        -1
    } else if q[q.len() - 1] == '/' {
        q.len() - 1
    } else {
        rfind_slash(q.drop_last())
    }
}

/// The parent directory of a slash-separated path: everything before the
/// last slash of the stripped path. The root and the empty path have none;
/// a single bare component has the empty parent.
pub open spec fn parent_spec(p: Seq<char>) -> Option<Seq<char>> {
    let q = strip_trailing_spec(p);
    if q.len() == 0 || (q.len() == 1 && q[0] == '/') {
        None
    } else {
        let k = rfind_slash(q);
        if k == -1 {
            Some(Seq::<char>::empty())
        } else if k == 0 {
            Some(seq!['/'])
        } else {
            Some(q.subrange(0, k))
        }
    }
}

/// The final component of a slash-separated path: everything after the last
/// slash of the stripped path. The root and the empty path have none, and
/// the dot components `.` and `..` are no usable name.
pub open spec fn file_name_spec(p: Seq<char>) -> Option<Seq<char>> {
    let q = strip_trailing_spec(p);
    if q.len() == 0 || (q.len() == 1 && q[0] == '/') {
        None
    } else {
        let k = rfind_slash(q);
        let name = q.subrange(k + 1, q.len() as int);
        if name == seq!['.'] || name == seq!['.', '.'] {
            None
        } else {
            Some(name)
        }
    }
}

/// `base` extended by the component `comp`, with exactly one slash between
/// them; an empty base leaves the component alone.
pub open spec fn join_spec(base: Seq<char>, comp: Seq<char>) -> Seq<char> {
    if base.len() == 0 {
        comp
    } else if base[base.len() - 1] == '/' {
        base + comp
    } else {
        base + seq!['/'] + comp
    }
}

/// Finds the split of `p` into stripped length `e` and the position of the
/// last slash before `e`: the stripped path is `p[..e]` and its last slash
/// sits at `k - 1`, or nowhere when `k == 0`.
fn split_points(p: &str) -> (res: (usize, usize))
    ensures
        ({
            let (e, k) = res;
            &&& e <= p@.len()
            &&& strip_trailing_spec(p@) == p@.subrange(0, e as int)
            &&& k <= e
            &&& rfind_slash(p@.subrange(0, e as int)) == k as int - 1
        }),
{
    let n = p.unicode_len();
    proof {
        assert(p@.subrange(0, n as int) =~= p@);
    }
    let mut e: usize = n;
    while e > 1 && p.get_char(e - 1) == '/'
        invariant
            n == p@.len(),
            e <= n,
            strip_trailing_spec(p@) == strip_trailing_spec(p@.subrange(0, e as int)),
        decreases e,
    {
        proof {
            assert(p@.subrange(0, e as int).drop_last() =~= p@.subrange(0, e as int - 1));
        }
        e -= 1;
    }
    proof {
        assert(strip_trailing_spec(p@.subrange(0, e as int)) == p@.subrange(0, e as int));
    }
    let mut k: usize = e;
    while k > 0 && p.get_char(k - 1) != '/'
        invariant
            n == p@.len(),
            k <= e <= n,
            rfind_slash(p@.subrange(0, e as int)) == rfind_slash(p@.subrange(0, k as int)),
        decreases k,
    {
        proof {
            assert(p@.subrange(0, k as int).drop_last() =~= p@.subrange(0, k as int - 1));
        }
        k -= 1;
    }
    proof {
        if k == 0 {
            assert(rfind_slash(p@.subrange(0, 0)) == -1);
        } else {
            assert(p@.subrange(0, k as int)[k - 1] == '/');
        }
    }
    (e, k)
}

/// The parent directory of `p`, or `None` for the root or the empty path.
pub fn parent_of(p: &str) -> (r: Option<String>)
    ensures
        match r {
            Some(s) => parent_spec(p@) == Some(s@),
            None => parent_spec(p@) is None,
        },
{
    let (e, k) = split_points(p);
    if e == 0 {
        return None;
    }
    if e == 1 && p.get_char(0) == '/' {
        return None;
    }
    if k == 0 {
        Some(String::new())
    } else if k == 1 {
        let mut root = String::new();
        push_char(&mut root, '/');
        proof {
            assert(root@ =~= seq!['/']);
        }
        Some(root)
    } else {
        let s = p.substring_char(0, k - 1);
        proof {
            assert(p@.subrange(0, e as int).subrange(0, k - 1) =~= p@.subrange(0, k - 1));
        }
        Some(s.to_owned())
    }
}

/// The final component of `p`, or `None` for the root, the empty path, and
/// the dot components `.` and `..`.
pub fn file_name_of(p: &str) -> (r: Option<String>)
    ensures
        match r {
            Some(s) => file_name_spec(p@) == Some(s@),
            None => file_name_spec(p@) is None,
        },
{
    let (e, k) = split_points(p);
    if e == 0 {
        return None;
    }
    if e == 1 && p.get_char(0) == '/' {
        return None;
    }
    proof {
        assert(p@.subrange(0, e as int).subrange(k as int, e as int) =~= p@.subrange(
            k as int,
            e as int,
        ));
    }
    let ghost name = p@.subrange(k as int, e as int);
    if e - k == 1 && p.get_char(k) == '.' {
        proof {
            assert(name =~= seq!['.']);
        }
        return None;
    }
    if e - k == 2 && p.get_char(k) == '.' && p.get_char(k + 1) == '.' {
        proof {
            assert(name =~= seq!['.', '.']);
        }
        return None;
    }
    proof {
        assert(name != seq!['.']) by {
            if name == seq!['.'] {
                assert(name.len() == 1 && name[0] == '.');
            }
        }
        assert(name != seq!['.', '.']) by {
            if name == seq!['.', '.'] {
                assert(name.len() == 2 && name[0] == '.' && name[1] == '.');
            }
        }
    }
    let s = p.substring_char(k, e);
    Some(s.to_owned())
}

/// `base` extended by the component `comp` with a single slash between.
pub fn join_path(base: &str, comp: &str) -> (r: String)
    ensures
        r@ == join_spec(base@, comp@),
{
    let n = base.unicode_len();
    if n == 0 {
        return comp.to_owned();
    }
    let mut r = base.to_owned();
    if base.get_char(n - 1) != '/' {
        push_char(&mut r, '/');
        proof {
            assert(base@.push('/') =~= base@ + seq!['/']);
        }
    }
    r.append(comp);
    proof {
        assert(r@ =~= join_spec(base@, comp@));
    }
    r
}

} // verus!
