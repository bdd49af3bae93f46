//! The `nxfs` table that stands in for the file functions Steamodded expects: how it
//! shapes the paths and arguments it receives and the lists and messages it returns.
use vstd::prelude::*;
use vstd::multiset::Multiset;

verus! {

/// Lua type code of `nil`.
pub const LUA_TNIL: i32 = 0;

/// Lua type code of a string.
pub const LUA_TSTRING: i32 = 4;

/// `path` with every trailing `/` removed.
pub open spec fn trimmed(path: Seq<u8>) -> Seq<u8>
    decreases path.len(),
{
    if path.len() > 0 && path.last() == 0x2fu8 {
        trimmed(path.drop_last())
    } else {
        path
    }
}

/// The path that `nxfs.info` looks up: trailing slashes removed, except that the root
/// of a device (`sd:`) keeps one slash.
pub open spec fn spec_info_path(path: Seq<u8>) -> Seq<u8> {
    let t = trimmed(path);
    if t.len() > 0 && t.last() == 0x3au8 {
        t.push(0x2fu8)
    } else {
        t
    }
}

/// What `trimmed` gives back is a prefix of the path, ends in no slash, and only
/// slashes were removed.
pub proof fn lemma_trimmed(path: Seq<u8>)
    ensures
        trimmed(path).len() <= path.len(),
        trimmed(path) == path.take(trimmed(path).len() as int),
        trimmed(path).len() > 0 ==> trimmed(path).last() != 0x2fu8,
        forall|i: int| trimmed(path).len() <= i < path.len() ==> #[trigger] path[i] == 0x2fu8,
    decreases path.len(),
{
    if path.len() > 0 && path.last() == 0x2fu8 {
        lemma_trimmed(path.drop_last());
        assert forall|i: int| trimmed(path).len() <= i < path.len() implies #[trigger] path[i] == 0x2fu8 by {
            if i < path.len() - 1 {
                assert(path.drop_last()[i] == path[i]);
            }
        }
        assert(path.drop_last().take(trimmed(path).len() as int) =~= path.take(trimmed(path).len() as int));
    } else {
        assert(path.take(path.len() as int) =~= path);
    }
}

/// Removing trailing slashes twice is removing them once.
pub proof fn lemma_trimmed_idempotent(path: Seq<u8>)
    ensures
        trimmed(trimmed(path)) == trimmed(path),
{
    lemma_trimmed(path);
}

/// The path that `nxfs.info` looks up is the given path with every trailing `/` removed,
/// and one `/` put back only when what is left ends in `:` (the root of a device). So
/// it is a prefix of the path followed by at most one `/`, everything dropped was `/`,
/// and it ends in `/` only right after a `:`.
pub proof fn lemma_info_path_shape(path: Seq<u8>)
    ensures
        ({
            let r = spec_info_path(path);
            let t = trimmed(path);
            &&& t.len() <= path.len()
            &&& t == path.take(t.len() as int)
            &&& forall|i: int| t.len() <= i < path.len() ==> #[trigger] path[i] == 0x2fu8
            &&& (t.len() > 0 ==> t.last() != 0x2fu8)
            &&& (t.len() > 0 && t.last() == 0x3au8 ==> r == t.push(0x2fu8))
            &&& (!(t.len() > 0 && t.last() == 0x3au8) ==> r == t)
            &&& (r.len() > 0 && r.last() == 0x2fu8 ==> r.len() >= 2 && r[r.len() - 2] == 0x3au8)
        }),
{
    lemma_trimmed(path);
}

/// Normalizing a path for `nxfs.info` a second time changes nothing.
pub proof fn lemma_info_path_idempotent(path: Seq<u8>)
    ensures
        spec_info_path(spec_info_path(path)) == spec_info_path(path),
{
    let t = trimmed(path);
    lemma_trimmed(path);
    lemma_trimmed_idempotent(path);
    if t.len() > 0 && t.last() == 0x3au8 {
        let p = t.push(0x2fu8);
        assert(p.drop_last() =~= t);
        assert(trimmed(p) == trimmed(t));
    }
}

/// `path` with every trailing `/` removed, as `nxfs.mkdir` creates it.
pub fn trim_trailing_slashes(path: &[u8]) -> (r: Vec<u8>)
    ensures
        r@ == trimmed(path@),
{
    let mut end: usize = path.len();
    assert(path@.take(end as int) =~= path@);
    while end > 0 && path[end - 1] == 0x2fu8
        invariant
            0 <= end <= path@.len(),
            trimmed(path@) == trimmed(path@.take(end as int)),
        decreases end,
    {
        assert(path@.take(end as int).drop_last() =~= path@.take(end - 1));
        end = end - 1;
    }
    let mut r: Vec<u8> = Vec::new();
    let mut i: usize = 0;
    while i < end
        invariant
            0 <= i <= end <= path@.len(),
            r@ == path@.take(i as int),
        decreases end - i,
    {
        r.push(path[i]);
        assert(path@.take(i as int).push(path@[i as int]) =~= path@.take(i + 1));
        i = i + 1;
    }
    assert(trimmed(path@.take(end as int)) == path@.take(end as int));
    r
}

/// The path that `nxfs.info` looks up.
pub fn info_path(path: &[u8]) -> (r: Vec<u8>)
    ensures
        r@ == spec_info_path(path@),
        ({
            let t = trimmed(path@);
            &&& t.len() > 0 && t.last() == 0x3au8 ==> r@ == t.push(0x2fu8)
            &&& !(t.len() > 0 && t.last() == 0x3au8) ==> r@ == t
        }),
{
    let mut r = trim_trailing_slashes(path);
    let n = r.len();
    if n > 0 && r[n - 1] == 0x3au8 {
        r.push(0x2fu8);
    }
    r
}

/// Whether `nxfs.write` appends: its third argument, when it is a string, is `"a"`.
pub fn append_requested(mode: Option<&[u8]>) -> (r: bool)
    ensures
        r == (mode matches Some(m) && m@ == seq![0x61u8]),
{
    match mode {
        Some(m) => {
            let yes = m.len() == 1 && m[0] == 0x61u8;
            assert(yes ==> m@ =~= seq![0x61u8]);
            yes
        },
        None => false,
    }
}

/// What `nxfs.info` reports of an entry besides its modification time: its kind, and
/// its size, which for a directory is 0.
pub fn info_fields(is_dir: bool, len: u64) -> (r: (&'static str, u64))
    ensures
        is_dir ==> r.0@ == "directory"@ && r.1 == 0,
        !is_dir ==> r.0@ == "file"@ && r.1 == len,
{
    if is_dir {
        ("directory", 0)
    } else {
        ("file", len)
    }
}

/// Whether `package.preload` lacks an entry, given the Lua type found under its name.
pub fn preload_missing(found_type: i32) -> (r: bool)
    ensures
        r == (found_type == LUA_TNIL),
{
    found_type == LUA_TNIL
}

/// The message returned with `nil` when a file operation fails: the path, `": "`, and
/// the reason.
pub fn failure_message(path: &[u8], reason: &[u8]) -> (r: Vec<u8>)
    requires
        path@.len() + reason@.len() + 2 <= usize::MAX,
    ensures
        r@ == path@ + seq![0x3au8, 0x20u8] + reason@,
{
    let mut r: Vec<u8> = Vec::new();
    let mut i: usize = 0;
    while i < path.len()
        invariant
            0 <= i <= path@.len(),
            r@ == path@.take(i as int),
        decreases path@.len() - i,
    {
        r.push(path[i]);
        assert(path@.take(i as int).push(path@[i as int]) =~= path@.take(i + 1));
        i = i + 1;
    }
    assert(path@.take(path@.len() as int) =~= path@);
    r.push(0x3au8);
    r.push(0x20u8);
    let ghost head = r@;
    let mut j: usize = 0;
    while j < reason.len()
        invariant
            0 <= j <= reason@.len(),
            head == path@ + seq![0x3au8, 0x20u8],
            r@ == head + reason@.take(j as int),
        decreases reason@.len() - j,
    {
        r.push(reason[j]);
        assert(reason@.take(j as int).push(reason@[j as int]) =~= reason@.take(j + 1));
        j = j + 1;
    }
    assert(reason@.take(reason@.len() as int) =~= reason@);
    r
}

/// Byte-wise lexicographic order of names: `a` comes strictly before `b`.
pub open spec fn lex_lt(a: Seq<u8>, b: Seq<u8>) -> bool
    decreases a.len(),
{
    if b.len() == 0 {
        false
    } else if a.len() == 0 {
        true
    } else if a[0] != b[0] {
        a[0] < b[0]
    } else {
        lex_lt(a.drop_first(), b.drop_first())
    }
}

/// Names are ordered by unsigned byte value at the first byte where they differ: when
/// `a` and `b` agree on their first `k` bytes and `a[k] < b[k]`, `a` comes strictly
/// before `b`, and `b` does not come before `a`.
pub proof fn lemma_lex_lt_first_difference(a: Seq<u8>, b: Seq<u8>, k: int)
    requires
        0 <= k < a.len(),
        k < b.len(),
        forall|j: int| 0 <= j < k ==> a[j] == b[j],
        a[k] < b[k],
    ensures
        lex_lt(a, b),
        !lex_lt(b, a),
    decreases k,
{
    if k > 0 {
        assert(a[0] == b[0]);
        lemma_lex_lt_first_difference(a.drop_first(), b.drop_first(), k - 1);
    }
}

/// A name comes strictly before every longer name that it begins, and no such longer
/// name comes before it.
pub proof fn lemma_lex_lt_prefix(a: Seq<u8>, b: Seq<u8>)
    requires
        a.len() < b.len(),
        forall|j: int| 0 <= j < a.len() ==> a[j] == b[j],
    ensures
        lex_lt(a, b),
        !lex_lt(b, a),
    decreases a.len(),
{
    if a.len() > 0 {
        assert(a[0] == b[0]);
        lemma_lex_lt_prefix(a.drop_first(), b.drop_first());
    }
}

/// The order of names is transitive.
pub proof fn lemma_lex_lt_transitive(a: Seq<u8>, b: Seq<u8>, c: Seq<u8>)
    requires
        lex_lt(a, b),
        lex_lt(b, c),
    ensures
        lex_lt(a, c),
    decreases a.len(),
{
    if a.len() > 0 && a[0] == b[0] && b[0] == c[0] {
        lemma_lex_lt_transitive(a.drop_first(), b.drop_first(), c.drop_first());
    }
}

/// No name comes before itself.
pub proof fn lemma_lex_lt_irreflexive(a: Seq<u8>)
    ensures
        !lex_lt(a, a),
    decreases a.len(),
{
    if a.len() > 0 {
        lemma_lex_lt_irreflexive(a.drop_first());
    }
}

/// Of two different names, exactly one comes first.
pub proof fn lemma_lex_lt_total(a: Seq<u8>, b: Seq<u8>)
    ensures
        a != b ==> (lex_lt(a, b) != lex_lt(b, a)),
        a == b ==> !lex_lt(a, b),
    decreases a.len(),
{
    if a == b {
        lemma_lex_lt_irreflexive(a);
    } else if a.len() == 0 && b.len() == 0 {
        assert(a =~= b);
    } else if a.len() > 0 && b.len() > 0 && a[0] == b[0] {
        lemma_lex_lt_total(a.drop_first(), b.drop_first());
        if a.drop_first() == b.drop_first() {
            assert forall|i: int| 0 <= i < a.len() implies a[i] == b[i] by {
                if i > 0 {
                    assert(a[i] == a.drop_first()[i - 1]);
                    assert(b[i] == b.drop_first()[i - 1]);
                }
            }
            assert(a =~= b);
        }
    }
}

/// The names, in order, with no name after one that it comes before.
pub open spec fn names_sorted(s: Seq<Seq<u8>>) -> bool {
    forall|i: int, j: int| 0 <= i < j < s.len() ==> !lex_lt(#[trigger] s[j], #[trigger] s[i])
}

/// The names held by a list of byte vectors.
pub open spec fn names_view(v: Seq<Vec<u8>>) -> Seq<Seq<u8>> {
    Seq::new(v.len(), |i: int| v[i]@)
}

/// Whether name `a` comes strictly before name `b`.
pub fn name_lt(a: &[u8], b: &[u8]) -> (r: bool)
    ensures
        r == lex_lt(a@, b@),
{
    let mut i: usize = 0;
    assert(a@.skip(0) =~= a@);
    assert(b@.skip(0) =~= b@);
    while i < a.len() && i < b.len()
        invariant
            0 <= i <= a@.len(),
            i <= b@.len(),
            lex_lt(a@, b@) == lex_lt(a@.skip(i as int), b@.skip(i as int)),
        decreases a@.len() - i,
    {
        if a[i] != b[i] {
            return a[i] < b[i];
        }
        assert(a@.skip(i as int).drop_first() =~= a@.skip(i + 1));
        assert(b@.skip(i as int).drop_first() =~= b@.skip(i + 1));
        i = i + 1;
    }
    i == a.len() && i < b.len()
}

/// The names sorted in byte-wise lexicographic order, as `nxfs.list` returns them.
pub fn sort_names(names: Vec<Vec<u8>>) -> (r: Vec<Vec<u8>>)
    ensures
        names_sorted(names_view(r@)),
        names_view(r@).to_multiset() == names_view(names@).to_multiset(),
{
    broadcast use vstd::seq_lib::group_to_multiset_ensures;
    broadcast use vstd::multiset::group_multiset_axioms;

    let ghost all = names_view(names@);
    let mut rest = names;
    let mut r: Vec<Vec<u8>> = Vec::new();
    assert(names_view(r@) =~= Seq::<Seq<u8>>::empty());
    assert(names_view(r@).to_multiset() =~= Multiset::empty());
    while rest.len() > 0
        invariant
            names_sorted(names_view(r@)),
            names_view(r@).to_multiset().add(names_view(rest@).to_multiset()) == all.to_multiset(),
        decreases rest@.len(),
    {
        let ghost before_rest = rest@;
        let x = rest.pop().unwrap();
        assert(names_view(before_rest) =~= names_view(rest@).push(x@));
        let mut p: usize = 0;
        while p < r.len() && !name_lt(x.as_slice(), r[p].as_slice())
            invariant
                0 <= p <= r@.len(),
                forall|k: int| 0 <= k < p ==> !lex_lt(x@, #[trigger] r@[k]@),
            decreases r@.len() - p,
        {
            p = p + 1;
        }
        let ghost old_view = names_view(r@);
        let ghost xv = x@;
        proof {
            assert forall|j: int| p <= j < old_view.len() implies !lex_lt(#[trigger] old_view[j], xv) by {
                assert(lex_lt(xv, old_view[p as int]));
                if lex_lt(old_view[j], xv) {
                    lemma_lex_lt_transitive(old_view[j], xv, old_view[p as int]);
                    if j == p {
                        lemma_lex_lt_irreflexive(old_view[j]);
                    } else {
                        assert(!lex_lt(old_view[j], old_view[p as int]));
                    }
                }
            }
        }
        r.insert(p, x);
        let ghost new_view = names_view(r@);
        assert(new_view =~= old_view.insert(p as int, xv));
        assert forall|i: int, j: int| 0 <= i < j < new_view.len() implies !lex_lt(#[trigger] new_view[j], #[trigger] new_view[i]) by {
            if i < p && j == p {
                assert(new_view[i] == old_view[i]);
                assert(r@[i]@ == old_view[i]);
            } else if i == p {
                assert(new_view[j] == old_view[j - 1]);
            } else if j < p {
                assert(new_view[i] == old_view[i] && new_view[j] == old_view[j]);
            } else if i < p {
                assert(new_view[i] == old_view[i] && new_view[j] == old_view[j - 1]);
            } else {
                assert(new_view[i] == old_view[i - 1] && new_view[j] == old_view[j - 1]);
            }
        }
        proof {
            vstd::seq_lib::to_multiset_insert(old_view, p as int, xv);
            vstd::seq_lib::to_multiset_build(names_view(rest@), xv);
        }
        assert(names_view(r@).to_multiset().add(names_view(rest@).to_multiset()) =~= all.to_multiset());
    }
    assert(names_view(rest@) =~= Seq::<Seq<u8>>::empty());
    assert(names_view(r@).to_multiset().add(Multiset::empty()) =~= names_view(r@).to_multiset());
    r
}

} // verus!
