use vstd::prelude::*;
use vstd::utf8::encode_utf8;

verus! {

/// Byte-wise lexicographic "less or equal" on byte strings: the order in
/// which slice paths are arranged, and so the depth order of the volume.
pub open spec fn lex_le(a: Seq<u8>, b: Seq<u8>) -> bool
    decreases a.len(),
{
    if a.len() == 0 {
        true
    } else if b.len() == 0 {
        false
    } else if a[0] < b[0] {
        true
    } else if a[0] > b[0] {
        false
    } else {
        lex_le(a.drop_first(), b.drop_first())
    }
}

/// Path order: lexicographic on the UTF-8 bytes of the path string,
/// which is how the file system's path strings compare.
pub open spec fn path_le(a: Seq<char>, b: Seq<char>) -> bool {
    lex_le(encode_utf8(a), encode_utf8(b))
}

/// A sequence of path strings in ascending `path_le` order.
pub open spec fn paths_sorted(v: Seq<Seq<char>>) -> bool {
    forall|i: int, j: int| 0 <= i < j < v.len() ==> #[trigger] path_le(v[i], v[j])
}

/// When two byte strings agree on their first `i` bytes, their order is
/// decided by the remainders.
proof fn lemma_lex_skip(a: Seq<u8>, b: Seq<u8>, i: int)
    requires
        0 <= i <= a.len(),
        i <= b.len(),
        forall|k: int| 0 <= k < i ==> a[k] == b[k],
    ensures
        lex_le(a, b) == lex_le(a.skip(i), b.skip(i)),
    decreases i,
{
    if i > 0 {
        let a1 = a.drop_first();
        let b1 = b.drop_first();
        assert(a[0] == b[0]);
        assert(forall|k: int| 0 <= k < i - 1 ==> a1[k] == b1[k]);
        lemma_lex_skip(a1, b1, i - 1);
        assert(a1.skip(i - 1) =~= a.skip(i));
        assert(b1.skip(i - 1) =~= b.skip(i));
    } else {
        assert(a.skip(0) =~= a);
        assert(b.skip(0) =~= b);
    }
}

/// The order is total: any two byte strings compare one way or the other.
pub proof fn lemma_lex_total(a: Seq<u8>, b: Seq<u8>)
    ensures
        lex_le(a, b) || lex_le(b, a),
    decreases a.len(),
{
    if a.len() != 0 && b.len() != 0 && a[0] == b[0] {
        lemma_lex_total(a.drop_first(), b.drop_first());
    }
}

/// The order is transitive.
pub proof fn lemma_lex_trans(a: Seq<u8>, b: Seq<u8>, c: Seq<u8>)
    requires
        lex_le(a, b),
        lex_le(b, c),
    ensures
        lex_le(a, c),
    decreases a.len(),
{
    if a.len() != 0 && b.len() != 0 && c.len() != 0 && a[0] == b[0] && b[0] == c[0] {
        lemma_lex_trans(a.drop_first(), b.drop_first(), c.drop_first());
    }
}

/// Compares two byte slices in lexicographic order.
pub fn bytes_le(a: &[u8], b: &[u8]) -> (r: bool)
    ensures
        r == lex_le(a@, b@),
{
    let alen = a.len();
    let blen = b.len();
    let mut i: usize = 0;
    while i < alen && i < blen
        invariant
            alen == a@.len(),
            blen == b@.len(),
            i <= alen,
            i <= blen,
            forall|k: int| 0 <= k < i ==> a@[k] == b@[k],
        decreases alen - i,
    {
        let ab = a[i];
        let bb = b[i];
        if ab != bb {
            proof {
                lemma_lex_skip(a@, b@, i as int);
                assert(a@.skip(i as int)[0] == a@[i as int]);
                assert(b@.skip(i as int)[0] == b@[i as int]);
            }
            return ab < bb;
        }
        i += 1;
    }
    proof {
        lemma_lex_skip(a@, b@, i as int);
        if i == alen {
            assert(a@.skip(i as int).len() == 0);
        } else {
            assert(b@.skip(i as int).len() == 0);
            assert(a@.skip(i as int).len() > 0);
        }
    }
    alen <= blen
}

/// Compares two path strings in `path_le` order.
pub fn str_le(a: &str, b: &str) -> (r: bool)
    ensures
        r == path_le(a@, b@),
{
    bytes_le(a.as_bytes(), b.as_bytes())
}

/// Sorts path strings ascending in `path_le` order, keeping exactly the
/// same collection of paths.
pub fn sort_paths(v: &Vec<String>) -> (r: Vec<String>)
    ensures
        paths_sorted(r.deep_view()),
        r.deep_view().to_multiset() == v.deep_view().to_multiset(),
        r@.len() == v@.len(),
{
    let mut out: Vec<String> = Vec::new();
    proof {
        assert(out.deep_view() =~= Seq::<Seq<char>>::empty());
        assert(v.deep_view().take(0) =~= Seq::<Seq<char>>::empty());
    }
    let mut idx: usize = 0;
    while idx < v.len()
        invariant
            idx <= v@.len(),
            out@.len() == idx,
            paths_sorted(out.deep_view()),
            out.deep_view().to_multiset() == v.deep_view().take(idx as int).to_multiset(),
        decreases v@.len() - idx,
    {
        let cur = v[idx].clone();
        let ghost pre = out.deep_view();
        let mut j: usize = 0;
        while j < out.len() && str_le(out[j].as_str(), cur.as_str())
            invariant
                j <= out@.len(),
                out@.len() == idx,
                forall|k: int| 0 <= k < j ==> #[trigger] path_le(out.deep_view()[k], cur@),
            decreases out@.len() - j,
        {
            j += 1;
        }
        proof {
            if j < out@.len() {
                lemma_lex_total(encode_utf8(pre[j as int]), encode_utf8(cur@));
                assert(path_le(cur@, pre[j as int]));
            }
        }
        out.insert(j, cur);
        proof {
            assert(out.deep_view() =~= pre.insert(j as int, cur@));
            let post = out.deep_view();
            assert forall|x: int, y: int| 0 <= x < y < post.len() implies #[trigger] path_le(
                post[x],
                post[y],
            ) by {
                if x < j && y == j {
                    assert(path_le(pre[x], cur@));
                } else if x == j && y > j {
                    assert(path_le(cur@, pre[j as int]));
                    assert(path_le(pre[j as int], pre[y - 1]) || j == y - 1);
                    if j < y - 1 {
                        lemma_lex_trans(
                            encode_utf8(cur@),
                            encode_utf8(pre[j as int]),
                            encode_utf8(pre[y - 1]),
                        );
                    }
                } else if x < j && y > j {
                    assert(path_le(pre[x], pre[y - 1]));
                } else if x > j && y > j {
                    assert(path_le(pre[x - 1], pre[y - 1]));
                }
            }
            vstd::seq_lib::to_multiset_insert(pre, j as int, cur@);
            assert(v.deep_view().take(idx as int + 1) =~= v.deep_view().take(idx as int).push(
                cur@,
            ));
            vstd::seq_lib::to_multiset_build(v.deep_view().take(idx as int), cur@);
        }
        idx += 1;
    }
    proof {
        assert(v.deep_view().take(v@.len() as int) =~= v.deep_view());
    }
    out
}

} // verus!
