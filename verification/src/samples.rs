use vstd::prelude::*;

verus! {

/// The file extension of the images that a folder benchmark renders.
pub const SAMPLE_EXTENSION: &'static str = "avif";

/// The most files a folder benchmark renders.
pub const SAMPLE_LIMIT: usize = 10;

/// A file with this extension is a benchmark sample.
pub open spec fn is_sample(extension: Option<String>) -> bool {
    extension matches Some(e) && e@ == SAMPLE_EXTENSION@
}

/// The positions, in order, of all samples among the file extensions.
pub open spec fn sample_positions(extensions: Seq<Option<String>>) -> Seq<usize>
    decreases extensions.len(),
{
    if extensions.len() == 0 {
        seq![]
    } else {
        let earlier = sample_positions(extensions.drop_last());
        if is_sample(extensions.last()) {
            earlier.push((extensions.len() - 1) as usize)
        } else {
            earlier
        }
    }
}

/// The first `SAMPLE_LIMIT` of the given positions, or all if there are fewer.
pub open spec fn first_samples(positions: Seq<usize>) -> Seq<usize> {
    if positions.len() <= SAMPLE_LIMIT {
        positions
    } else {
        positions.take(SAMPLE_LIMIT as int)
    }
}

/// The positions found in a prefix start the positions found in the whole.
proof fn lemma_positions_grow(extensions: Seq<Option<String>>, i: int, n: int)
    requires
        0 <= i <= n <= extensions.len(),
    ensures
        sample_positions(extensions.take(i)).len() <= sample_positions(extensions.take(n)).len(),
        sample_positions(extensions.take(n)).take(
            sample_positions(extensions.take(i)).len() as int,
        ) == sample_positions(extensions.take(i)),
    decreases n - i,
{
    if i < n {
        lemma_positions_grow(extensions, i, n - 1);
        assert(extensions.take(n).drop_last() == extensions.take(n - 1));
        let small = sample_positions(extensions.take(i));
        let mid = sample_positions(extensions.take(n - 1));
        let big = sample_positions(extensions.take(n));
        assert(big.take(small.len() as int) =~= mid.take(small.len() as int));
    } else {
        let p = sample_positions(extensions.take(i));
        assert(p.take(p.len() as int) =~= p);
    }
}

/// The extension is exactly `avif`.
pub open spec fn is_avif(extension: Option<String>) -> bool {
    extension matches Some(e) && e@ == "avif"@
}

/// The sample positions are the positions of exactly the `avif` files, in
/// increasing order.
pub proof fn law_sample_positions(extensions: Seq<Option<String>>)
    requires
        extensions.len() <= usize::MAX,
    ensures
        forall|j: int|
            0 <= j < sample_positions(extensions).len() ==> {
                &&& #[trigger] sample_positions(extensions)[j] < extensions.len()
                &&& is_avif(extensions[sample_positions(extensions)[j] as int])
            },
        forall|a: int, b: int|
            0 <= a < b < sample_positions(extensions).len() ==> #[trigger] sample_positions(
                extensions,
            )[a] < #[trigger] sample_positions(extensions)[b],
        forall|q: int|
            0 <= q < extensions.len() && #[trigger] is_avif(extensions[q]) ==> exists|j: int|
                0 <= j < sample_positions(extensions).len() && sample_positions(extensions)[j]
                    == q,
    decreases extensions.len(),
{
    assert(SAMPLE_EXTENSION@ == "avif"@);
    if extensions.len() > 0 {
        let before = extensions.drop_last();
        law_sample_positions(before);
        let earlier = sample_positions(before);
        let now = sample_positions(extensions);
        let last = (extensions.len() - 1) as int;
        assert(is_sample(extensions.last()) == is_avif(extensions[last]));
        if is_sample(extensions.last()) {
            assert(now == earlier.push(last as usize));
        } else {
            assert(now == earlier);
        }
        assert forall|j: int| 0 <= j < now.len() implies {
            &&& #[trigger] now[j] < extensions.len()
            &&& is_avif(extensions[now[j] as int])
        } by {
            if j < earlier.len() {
                assert(now[j] == earlier[j]);
                assert(earlier[j] < before.len());
                assert(is_avif(before[earlier[j] as int]));
                assert(extensions[earlier[j] as int] == before[earlier[j] as int]);
            } else {
                assert(now[j] == last as usize);
            }
        }
        assert forall|a: int, b: int| 0 <= a < b < now.len() implies #[trigger] now[a]
            < #[trigger] now[b] by {
            assert(now[a] == earlier[a]);
            assert(earlier[a] < before.len());
            if b < earlier.len() {
                assert(now[b] == earlier[b]);
                assert(earlier[a] < earlier[b]);
            } else {
                assert(now[b] == last as usize);
            }
        }
        assert forall|q: int| 0 <= q < extensions.len() && #[trigger] is_avif(extensions[q])
            implies exists|j: int| 0 <= j < now.len() && now[j] == q by {
            if q < last {
                assert(before[q] == extensions[q]);
                assert(is_avif(before[q]));
                let j = choose|j: int| 0 <= j < earlier.len() && earlier[j] == q;
                assert(now[j] == earlier[j]);
            } else {
                assert(now[earlier.len() as int] == q);
            }
        }
    }
}

/// The positions of the files to render in a folder benchmark, given the
/// extension of each file (`None` for a file without one): the first
/// `SAMPLE_LIMIT` files, in order, whose extension is `SAMPLE_EXTENSION`.
pub fn pick_samples(extensions: &Vec<Option<String>>) -> (picked: Vec<usize>)
    ensures
        picked@ == first_samples(sample_positions(extensions@)),
        picked@.len() <= 10,
        forall|j: int|
            0 <= j < picked@.len() ==> #[trigger] picked@[j] < extensions@.len() && is_avif(
                extensions@[picked@[j] as int],
            ),
        forall|a: int, b: int|
            0 <= a < b < picked@.len() ==> #[trigger] picked@[a] < #[trigger] picked@[b],
        forall|q: int|
            0 <= q < extensions@.len() && #[trigger] is_avif(extensions@[q]) ==> picked@.contains(
                q as usize,
            ) || (picked@.len() == 10 && forall|j: int|
                0 <= j < picked@.len() ==> picked@[j] < q),
{
    let wanted = SAMPLE_EXTENSION.to_owned();
    let mut picked: Vec<usize> = Vec::new();
    let mut i: usize = 0;
    while i < extensions.len() && picked.len() < SAMPLE_LIMIT
        invariant
            0 <= i <= extensions.len(),
            wanted@ == SAMPLE_EXTENSION@,
            picked@ == first_samples(sample_positions(extensions@.take(i as int))),
        decreases extensions.len() - i,
    {
        let hit = match &extensions[i] {
            Some(e) => *e == wanted,
            None => false,
        };
        proof {
            assert(extensions@.take(i + 1).drop_last() == extensions@.take(i as int));
            assert(extensions@.take(i + 1).last() == extensions@[i as int]);
        }
        if hit {
            picked.push(i);
        }
        i = i + 1;
        proof {
            let now = sample_positions(extensions@.take(i as int));
            assert(picked@ =~= first_samples(now));
        }
    }
    proof {
        let n = extensions.len() as int;
        assert(extensions@.take(n) == extensions@);
        lemma_positions_grow(extensions@, i as int, n);
        let part = sample_positions(extensions@.take(i as int));
        let whole = sample_positions(extensions@);
        if i < extensions.len() {
            assert(part.len() >= SAMPLE_LIMIT);
            assert(whole.take(SAMPLE_LIMIT as int) =~= part.take(SAMPLE_LIMIT as int));
        }
        law_sample_positions(extensions@);
        let chosen = first_samples(whole);
        assert(picked@ == chosen);
        assert forall|j: int| 0 <= j < chosen.len() implies chosen[j] == whole[j] by {}
        assert forall|q: int|
            0 <= q < extensions@.len() && #[trigger] is_avif(extensions@[q]) implies picked@.contains(
                q as usize,
            ) || (picked@.len() == 10 && forall|j: int|
                0 <= j < picked@.len() ==> picked@[j] < q) by {
            let k = choose|k: int| 0 <= k < whole.len() && whole[k] == q;
            if k < chosen.len() {
                assert(picked@[k] == q as usize);
                assert(picked@.contains(q as usize));
            } else {
                assert forall|j: int| 0 <= j < picked@.len() implies picked@[j] < q by {
                    assert(whole[j] < whole[k]);
                }
            }
        }
    }
    picked
}

} // verus!
