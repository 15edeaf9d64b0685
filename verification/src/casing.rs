use vstd::prelude::*;

verus! {

/// A separator in a raw name: space, hyphen or underscore.
pub open spec fn is_sep(c: char) -> bool {
    c == ' ' || c == '-' || c == '_'
}

/// What `str::to_lowercase` returns for a string.
pub uninterp spec fn lower_of(s: Seq<char>) -> Seq<char>;

/// Relies on `str::to_lowercase`: the Unicode lowercase equivalent of the
/// string, a function of the characters alone.
#[verifier::external_body]
fn lowercase(s: &str) -> (r: String)
    ensures
        r@ == lower_of(s@),
{
    s.to_lowercase()
}

/// Separator normalisation of `s` from position `i` on, with `j` as the
/// joining character: runs of separators collapse into a single `j` between
/// words, and leading or trailing separators vanish. `started` records that
/// a word character has been emitted already, `pending` that a separator
/// has been seen since the last word character.
pub open spec fn sep_norm_from(
    s: Seq<char>,
    i: int,
    started: bool,
    pending: bool,
    j: char,
) -> Seq<char>
    decreases s.len() - i,
{
    if i < 0 || i >= s.len() {
        Seq::<char>::empty()
    } else {
        let c = s[i];
        if is_sep(c) {
            sep_norm_from(s, i + 1, started, started || pending, j)
        } else if started && pending {
            seq![j, c] + sep_norm_from(s, i + 1, true, false, j)
        } else {
            seq![c] + sep_norm_from(s, i + 1, true, false, j)
        }
    }
}

/// What `normalize_separators` returns: the words of `s`, joined by `j`.
pub open spec fn sep_norm(s: Seq<char>, j: char) -> Seq<char> {
    sep_norm_from(s, 0, false, false, j)
}

/// What `to_snake_case` returns: the string lowered, its words joined by `_`.
pub open spec fn snake_spec(s: Seq<char>) -> Seq<char> {
    sep_norm(lower_of(s), '_')
}

/// What `to_kebab_case` returns: the string lowered, its words joined by `-`.
pub open spec fn kebab_spec(s: Seq<char>) -> Seq<char> {
    sep_norm(lower_of(s), '-')
}

/// A sequence already in normal form for the joiner `j`: the only separator
/// occurring is `j` itself, and no separator stands first, last, or next to
/// another.
pub open spec fn sep_canon(t: Seq<char>, j: char) -> bool {
    &&& forall|k: int| 0 <= k < t.len() && is_sep(#[trigger] t[k]) ==> t[k] == j
    &&& t.len() > 0 ==> !is_sep(t[0]) && !is_sep(t[t.len() - 1])
    &&& forall|k: int| 0 <= k < t.len() - 1 && is_sep(#[trigger] t[k]) ==> !is_sep(t[k + 1])
}

/// The result of separator normalisation is itself in normal form.
proof fn lemma_sep_norm_canon(s: Seq<char>, i: int, started: bool, pending: bool, j: char)
    requires
        is_sep(j),
        0 <= i,
    ensures
        ({
            let t = sep_norm_from(s, i, started, pending, j);
            &&& forall|k: int| 0 <= k < t.len() && is_sep(#[trigger] t[k]) ==> t[k] == j
            &&& t.len() > 0 ==> !is_sep(t[t.len() - 1])
            &&& t.len() > 0 && !started ==> !is_sep(t[0])
            &&& forall|k: int|
                0 <= k < t.len() - 1 && is_sep(#[trigger] t[k]) ==> !is_sep(t[k + 1])
        }),
    decreases s.len() - i,
{
    let t = sep_norm_from(s, i, started, pending, j);
    if i >= s.len() {
    } else {
        let c = s[i];
        if is_sep(c) {
            lemma_sep_norm_canon(s, i + 1, started, started || pending, j);
            let rest = sep_norm_from(s, i + 1, started, started || pending, j);
            if rest.len() > 0 && !started {
                assert(t[0] == rest[0]);
            }
        } else {
            lemma_sep_norm_canon(s, i + 1, true, false, j);
            let rest = sep_norm_from(s, i + 1, true, false, j);
            if started && pending {
                assert(t =~= seq![j, c] + rest);
                assert forall|k: int|
                    0 <= k < t.len() - 1 && is_sep(#[trigger] t[k]) implies !is_sep(t[k + 1]) by {
                    if k == 0 {
                        assert(t[1] == c);
                    } else if k == 1 {
                    } else {
                        assert(t[k] == rest[k - 2]);
                        assert(t[k + 1] == rest[k - 1]);
                    }
                }
            } else {
                assert(t =~= seq![c] + rest);
                assert forall|k: int|
                    0 <= k < t.len() - 1 && is_sep(#[trigger] t[k]) implies !is_sep(t[k + 1]) by {
                    if k == 0 {
                    } else {
                        assert(t[k] == rest[k - 1]);
                        assert(t[k + 1] == rest[k]);
                    }
                }
            }
        }
    }
}

/// Separator normalisation leaves a sequence in normal form unchanged, from
/// position `i` on, up to an already-pending joiner.
proof fn lemma_sep_norm_canon_identity(t: Seq<char>, i: int, started: bool, pending: bool, j: char)
    requires
        is_sep(j),
        sep_canon(t, j),
        0 <= i <= t.len(),
        pending ==> started,
        !started ==> i == 0 && !pending,
        started && pending ==> i < t.len() && !is_sep(t[i]),
    ensures
        sep_norm_from(t, i, started, pending, j) == (if started && pending {
            seq![j]
        } else {
            Seq::<char>::empty()
        }) + t.subrange(i, t.len() as int),
    decreases t.len() - i,
{
    let pre: Seq<char> = if started && pending {
        seq![j]
    } else {
        Seq::<char>::empty()
    };
    if i >= t.len() {
        assert(sep_norm_from(t, i, started, pending, j) =~= pre + t.subrange(i, t.len() as int));
    } else {
        let c = t[i];
        if is_sep(c) {
            assert(t[i] == j);
            assert(!is_sep(t[0])) by {
                assert(t.len() > 0);
            }
            assert(started) by {
                if !started {
                    assert(i == 0);
                }
            }
            assert(!pending);
            assert(i < t.len() - 1) by {
                assert(!is_sep(t[t.len() - 1]));
            }
            assert(!is_sep(t[i + 1]));
            lemma_sep_norm_canon_identity(t, i + 1, true, true, j);
            assert(sep_norm_from(t, i, started, pending, j) == sep_norm_from(t, i + 1, true, true, j));
            assert(seq![j] + t.subrange(i + 1, t.len() as int) =~= pre + t.subrange(
                i,
                t.len() as int,
            ));
        } else {
            lemma_sep_norm_canon_identity(t, i + 1, true, false, j);
            if started && pending {
                assert(sep_norm_from(t, i, started, pending, j) =~= seq![j, c] + t.subrange(
                    i + 1,
                    t.len() as int,
                ));
                assert(seq![j, c] + t.subrange(i + 1, t.len() as int) =~= pre + t.subrange(
                    i,
                    t.len() as int,
                ));
            } else {
                assert(sep_norm_from(t, i, started, pending, j) =~= seq![c] + t.subrange(
                    i + 1,
                    t.len() as int,
                ));
                assert(seq![c] + t.subrange(i + 1, t.len() as int) =~= pre + t.subrange(
                    i,
                    t.len() as int,
                ));
            }
        }
    }
}

/// Law: separator normalisation is idempotent for any separator joiner —
/// normalising its own result returns that result unchanged.
pub proof fn lemma_sep_norm_idempotent(s: Seq<char>, j: char)
    requires
        is_sep(j),
    ensures
        sep_norm(sep_norm(s, j), j) == sep_norm(s, j),
{
    let t = sep_norm(s, j);
    lemma_sep_norm_canon(s, 0, false, false, j);
    assert(sep_canon(t, j));
    lemma_sep_norm_canon_identity(t, 0, false, false, j);
    assert(Seq::<char>::empty() + t.subrange(0, t.len() as int) =~= t);
}

/// Law: `to_snake_case` is idempotent on every string whose snake form the
/// lowering maps to itself (lowering an already-lowered, `_`-joined string
/// changes nothing, so this covers every input in practice; it is stated as
/// a hypothesis because `lower_of` carries no contract of its own).
pub proof fn lemma_snake_idempotent(s: Seq<char>)
    ensures
        lower_of(snake_spec(s)) == snake_spec(s) ==> snake_spec(snake_spec(s)) == snake_spec(s),
{
    if lower_of(snake_spec(s)) == snake_spec(s) {
        lemma_sep_norm_idempotent(lower_of(s), '_');
    }
}

/// Law: `to_kebab_case` is idempotent on every string whose kebab form the
/// lowering maps to itself; see `lemma_snake_idempotent`.
pub proof fn lemma_kebab_idempotent(s: Seq<char>)
    ensures
        lower_of(kebab_spec(s)) == kebab_spec(s) ==> kebab_spec(kebab_spec(s)) == kebab_spec(s),
{
    if lower_of(kebab_spec(s)) == kebab_spec(s) {
        lemma_sep_norm_idempotent(lower_of(s), '-');
    }
}

/// Relies on `String::push`: appends exactly one character at the end.
#[verifier::external_body]
pub(crate) fn push_char(s: &mut String, c: char)
    ensures
        final(s)@ == old(s)@.push(c),
{
    s.push(c);
}

/// Character-for-character string equality.
pub fn str_eq(a: &str, b: &str) -> (r: bool)
    ensures
        r == (a@ == b@),
{
    let na = a.unicode_len();
    let nb = b.unicode_len();
    if na != nb {
        return false;
    }
    let mut i: usize = 0;
    while i < na
        invariant
            na == a@.len(),
            na == b@.len(),
            i <= na,
            forall|k: int| 0 <= k < i ==> a@[k] == b@[k],
        decreases na - i,
    {
        if a.get_char(i) != b.get_char(i) {
            return false;
        }
        i += 1;
    }
    proof {
        assert(a@ =~= b@);
    }
    true
}

/// Collapse the separators of `s`: its words (the runs free of space,
/// hyphen and underscore) joined by `j`, with nothing leading or trailing.
pub fn normalize_separators(s: &str, j: char) -> (r: String)
    ensures
        r@ == sep_norm(s@, j),
{
    let n = s.unicode_len();
    let mut r = String::new();
    let mut started: bool = false;
    let mut pending: bool = false;
    let mut i: usize = 0;
    while i < n
        invariant
            n == s@.len(),
            i <= n,
            r@ + sep_norm_from(s@, i as int, started, pending, j) == sep_norm(s@, j),
        decreases n - i,
    {
        let c = s.get_char(i);
        if c == ' ' || c == '-' || c == '_' {
            pending = started || pending;
        } else {
            if started && pending {
                push_char(&mut r, j);
            }
            push_char(&mut r, c);
            started = true;
            pending = false;
        }
        proof {
            assert(r@ + sep_norm_from(s@, i + 1, started, pending, j) =~= sep_norm(s@, j));
        }
        i += 1;
    }
    proof {
        assert(r@ =~= sep_norm(s@, j));
    }
    r
}

/// Turn a raw name into `snake_case`: the string lowered, its words joined
/// by `_`.
pub fn to_snake_case(s: &str) -> (r: String)
    ensures
        r@ == snake_spec(s@),
{
    let lowered = lowercase(s);
    normalize_separators(lowered.as_str(), '_')
}

/// Turn a raw name into `kebab-case`: the string lowered, its words joined
/// by `-`.
pub fn to_kebab_case(s: &str) -> (r: String)
    ensures
        r@ == kebab_spec(s@),
{
    let lowered = lowercase(s);
    normalize_separators(lowered.as_str(), '-')
}

} // verus!
