//! File-name rules of the input directory: which extensions count as
//! images, and the ascending name order the slides are shown in. Names are
//! handled as byte strings, exactly as the file system hands them over.

use vstd::prelude::*;

verus! {

broadcast use vstd::seq_lib::group_to_multiset_ensures;

/// The ASCII lower-case image of a byte; other bytes are unchanged.
pub open spec fn lower_byte(b: u8) -> u8 {
    if 65 <= b <= 90 {
        (b + 32) as u8
    } else {
        b
    }
}

/// Whether a file extension names an image format the show accepts:
/// png, jpg, jpeg, bmp or gif, case-insensitively.
pub open spec fn is_image_extension(ext: Seq<u8>) -> bool {
    ||| (ext.len() == 3 && lower_byte(ext[0]) == 112 && lower_byte(ext[1]) == 110 && lower_byte(
        ext[2],
    ) == 103)  // png
    ||| (ext.len() == 3 && lower_byte(ext[0]) == 106 && lower_byte(ext[1]) == 112 && lower_byte(
        ext[2],
    ) == 103)  // jpg
    ||| (ext.len() == 4 && lower_byte(ext[0]) == 106 && lower_byte(ext[1]) == 112 && lower_byte(
        ext[2],
    ) == 101 && lower_byte(ext[3]) == 103)  // jpeg
    ||| (ext.len() == 3 && lower_byte(ext[0]) == 98 && lower_byte(ext[1]) == 109 && lower_byte(
        ext[2],
    ) == 112)  // bmp
    ||| (ext.len() == 3 && lower_byte(ext[0]) == 103 && lower_byte(ext[1]) == 105 && lower_byte(
        ext[2],
    ) == 102)  // gif
}

/// Lower-case one ASCII byte.
fn to_lower(b: u8) -> (r: u8)
    ensures
        r == lower_byte(b),
{
    if 65 <= b && b <= 90 {
        b + 32
    } else {
        b
    }
}

/// Whether the extension names an accepted image format; see
/// `is_image_extension`.
pub fn supported_extension(ext: &Vec<u8>) -> (r: bool)
    ensures
        r == is_image_extension(ext@),
{
    if ext.len() == 3 {
        let a = to_lower(ext[0]);
        let b = to_lower(ext[1]);
        let c = to_lower(ext[2]);
        (a == 112 && b == 110 && c == 103) || (a == 106 && b == 112 && c == 103) || (a == 98 && b
            == 109 && c == 112) || (a == 103 && b == 105 && c == 102)
    } else if ext.len() == 4 {
        let a = to_lower(ext[0]);
        let b = to_lower(ext[1]);
        let c = to_lower(ext[2]);
        let d = to_lower(ext[3]);
        a == 106 && b == 112 && c == 101 && d == 103
    } else {
        false
    }
}

/// Byte-wise lexicographic order on names: the order the slides are shown
/// in.
pub open spec fn lex_le(a: Seq<u8>, b: Seq<u8>) -> bool
    decreases a.len(),
{
    if a.len() == 0 {
        true
    } else if b.len() == 0 {
        false
    } else if a[0] < b[0] {
        true
    } else if a[0] > b[0] {
        false
    } else {
        lex_le(a.drop_first(), b.drop_first())
    }
}

/// Comparing two names that agree on their first `i` bytes is comparing
/// what follows.
proof fn lemma_lex_le_common_prefix(a: Seq<u8>, b: Seq<u8>, i: int)
    requires
        0 <= i <= a.len(),
        i <= b.len(),
        forall|j: int| 0 <= j < i ==> a[j] == b[j],
    ensures
        lex_le(a, b) == lex_le(a.skip(i), b.skip(i)),
    decreases i,
{
    if i > 0 {
        assert(a.len() > 0 && b.len() > 0 && a[0] == b[0]);
        assert(a.drop_first() == a.skip(1));
        assert(b.drop_first() == b.skip(1));
        lemma_lex_le_common_prefix(a.skip(1), b.skip(1), i - 1);
        assert(a.skip(1).skip(i - 1) == a.skip(i));
        assert(b.skip(1).skip(i - 1) == b.skip(i));
    } else {
        assert(a.skip(0) == a);
        assert(b.skip(0) == b);
    }
}

/// The order is total: of any two names, one comes no later than the
/// other.
pub proof fn lemma_lex_le_total(a: Seq<u8>, b: Seq<u8>)
    ensures
        lex_le(a, b) || lex_le(b, a),
    decreases a.len(),
{
    if a.len() > 0 && b.len() > 0 && a[0] == b[0] {
        lemma_lex_le_total(a.drop_first(), b.drop_first());
    }
}

/// The order is transitive.
pub proof fn lemma_lex_le_trans(a: Seq<u8>, b: Seq<u8>, c: Seq<u8>)
    requires
        lex_le(a, b),
        lex_le(b, c),
    ensures
        lex_le(a, c),
    decreases a.len(),
{
    if a.len() > 0 && b.len() > 0 && c.len() > 0 && a[0] == b[0] && b[0] == c[0] {
        lemma_lex_le_trans(a.drop_first(), b.drop_first(), c.drop_first());
    }
}

/// Compare two names; see `lex_le`.
pub fn bytes_le(a: &Vec<u8>, b: &Vec<u8>) -> (r: bool)
    ensures
        r == lex_le(a@, b@),
{
    let shorter: usize = if a.len() < b.len() {
        a.len()
    } else {
        b.len()
    };
    let mut i: usize = 0;
    while i < shorter
        invariant
            shorter == if a.len() < b.len() {
                a.len()
            } else {
                b.len()
            },
            i <= shorter,
            forall|j: int| 0 <= j < i ==> a@[j] == b@[j],
        decreases shorter - i,
    {
        if a[i] < b[i] {
            proof {
                lemma_lex_le_common_prefix(a@, b@, i as int);
            }
            return true;
        }
        if a[i] > b[i] {
            proof {
                lemma_lex_le_common_prefix(a@, b@, i as int);
            }
            return false;
        }
        i = i + 1;
    }
    proof {
        lemma_lex_le_common_prefix(a@, b@, shorter as int);
    }
    a.len() <= b.len()
}

/// Whether a list of names is in ascending order.
pub open spec fn sorted_names(names: Seq<Seq<u8>>) -> bool {
    forall|p: int, q: int| 0 <= p < q < names.len() ==> lex_le(#[trigger] names[p], #[trigger] names[q])
}

/// Sort names ascending: the result holds exactly the given names, in
/// byte-wise lexicographic order. This is the order the slides are later
/// revealed in.
pub fn sort_names(names: Vec<Vec<u8>>) -> (sorted: Vec<Vec<u8>>)
    ensures
        sorted_names(sorted@.map_values(|n: Vec<u8>| n@)),
        sorted@.map_values(|n: Vec<u8>| n@).to_multiset() == names@.map_values(
            |n: Vec<u8>| n@,
        ).to_multiset(),
        sorted.len() == names.len(),
{
    if names.len() <= 1 {
        return names;
    }
    let mut work = names;
    let mut i: usize = 1;
    while i < work.len()
        invariant
            1 <= i <= work.len(),
            work.len() == names.len(),
            sorted_names(work@.map_values(|n: Vec<u8>| n@).take(i as int)),
            work@.map_values(|n: Vec<u8>| n@).to_multiset() == names@.map_values(
                |n: Vec<u8>| n@,
            ).to_multiset(),
        decreases work.len() - i,
    {
        let ghost pre = work@.map_values(|n: Vec<u8>| n@);
        let x = work.remove(i);
        let ghost mid = work@.map_values(|n: Vec<u8>| n@);
        // Find the first kept position whose name does not precede `x`.
        let mut j: usize = 0;
        while j < i
            invariant_except_break
                j <= i,
                i <= work.len(),
                work.len() + 1 == names.len(),
                forall|p: int| 0 <= p < j ==> lex_le(#[trigger] mid[p], x@),
                mid == work@.map_values(|n: Vec<u8>| n@),
            ensures
                j <= i,
                i <= work.len(),
                work.len() + 1 == names.len(),
                forall|p: int| 0 <= p < j ==> lex_le(#[trigger] mid[p], x@),
                j < i ==> lex_le(x@, mid[j as int]),
                mid == work@.map_values(|n: Vec<u8>| n@),
            decreases i - j,
        {
            let le = bytes_le(&work[j], &x);
            if !le {
                proof {
                    lemma_lex_le_total(mid[j as int], x@);
                }
                break ;
            }
            j = j + 1;
        }
        work.insert(j, x);
        proof {
            let post = work@.map_values(|n: Vec<u8>| n@);
            assert(mid == pre.remove(i as int)) by {
                assert(pre.remove(i as int) =~= mid);
            }
            assert(post == mid.insert(j as int, x@)) by {
                assert(mid.insert(j as int, x@) =~= post);
            }
            assert(post.to_multiset() == pre.to_multiset()) by {
                assert(pre[i as int] == x@);
                vstd::seq_lib::to_multiset_remove(pre, i as int);
                vstd::seq_lib::to_multiset_insert(mid, j as int, x@);
            }
            assert(sorted_names(post.take(i as int + 1))) by {
                let taken = post.take(i as int + 1);
                assert forall|p: int, q: int| 0 <= p < q < taken.len() implies lex_le(
                    #[trigger] taken[p],
                    #[trigger] taken[q],
                ) by {
                    let prev_sorted = pre.take(i as int);
                    assert(forall|t: int|
                        0 <= t < j ==> #[trigger] taken[t] == prev_sorted[t]);
                    assert(taken[j as int] == x@);
                    assert(forall|t: int|
                        j < t < taken.len() ==> #[trigger] taken[t] == prev_sorted[t - 1]);
                    if q < j {
                        assert(lex_le(taken[p], taken[q]));
                    } else if q == j {
                        assert(p < j);
                        assert(lex_le(mid[p], x@));
                        assert(mid[p] == prev_sorted[p]);
                    } else {
                        // q > j: taken[q] is a kept name that x precedes
                        if j < i {
                            assert(lex_le(x@, mid[j as int]));
                        }
                        if p < j {
                            assert(lex_le(taken[p], prev_sorted[q - 1]));
                        } else if p == j {
                            assert(lex_le(x@, mid[j as int]));
                            assert(mid[j as int] == prev_sorted[j as int]);
                            if q - 1 > j {
                                lemma_lex_le_trans(x@, prev_sorted[j as int],
                                    prev_sorted[q - 1]);
                            }
                        } else {
                            assert(lex_le(prev_sorted[p - 1], prev_sorted[q - 1]));
                        }
                    }
                }
            }
        }
        i = i + 1;
    }
    proof {
        assert(work@.map_values(|n: Vec<u8>| n@).take(work.len() as int) =~= work@.map_values(
            |n: Vec<u8>| n@,
        ));
    }
    work
}

} // verus!
