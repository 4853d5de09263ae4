use vstd::prelude::*;
use crate::config::ConfigError;
use crate::listing::{files_of, find_files, paths_of, Listed};
use vstd::arithmetic::div_mod::{lemma_fundamental_div_mod, lemma_fundamental_div_mod_converse};

verus! {

/// The number of batches of size `b` that `n` items fill: `n / b` rounded up.
pub open spec fn batch_count(n: nat, b: nat) -> nat
    recommends
        b > 0,
{
    if n % b == 0 {
        n / b
    } else {
        n / b + 1
    }
}

/// Batch `k` of `s`: the items from `k * b` up to `(k + 1) * b`, or to the
/// end of `s` where that comes first.
pub open spec fn batch_at<A>(s: Seq<A>, b: nat, k: int) -> Seq<A> {
    let end = if (k + 1) * b <= s.len() {
        (k + 1) * b
    } else {
        s.len() as int
    };
    s.subrange(k * b, end)
}

/// `s` cut into consecutive batches of `b` items; the last one holds the rest.
pub open spec fn batches_of<A>(s: Seq<A>, b: nat) -> Seq<Seq<A>> {
    Seq::new(batch_count(s.len(), b), |k: int| batch_at(s, b, k))
}

/// For `n > 0`, the batch count `k` is the one with `(k - 1) * b < n <= k * b`.
pub proof fn lemma_batch_count_bounds(n: nat, b: nat)
    requires
        b > 0,
    ensures
        n == 0 ==> batch_count(n, b) == 0,
        n > 0 ==> (batch_count(n, b) - 1) * b < n <= batch_count(n, b) * b,
{
    let q = (n / b) as int;
    let r = (n % b) as int;
    lemma_fundamental_div_mod(n as int, b as int);
    assert(n == b * q + r);
    assert((q + 1) * b == q * b + b) by (nonlinear_arith);
    assert(q * b == b * q) by (nonlinear_arith);
    assert((q - 1) * b == q * b - b) by (nonlinear_arith);
    if q < 0 {
        assert(q * b < 0) by (nonlinear_arith)
            requires
                q < 0,
                b > 0,
        ;
    }
    if n == 0 {
        if q > 0 {
            assert(q * b >= b) by (nonlinear_arith)
                requires
                    q > 0,
                    b > 0,
            ;
        }
    }
}

/// The only count that meets the bounds of `lemma_batch_count_bounds` is `batch_count`.
pub proof fn lemma_batch_count_unique(n: nat, b: nat, k: nat)
    requires
        b > 0,
        (k == 0 && n == 0) || (k > 0 && (k - 1) * b < n <= k * b),
    ensures
        batch_count(n, b) == k,
{
    if k == 0 {
        lemma_fundamental_div_mod_converse(n as int, b as int, 0, 0);
    } else {
        let r = n - (k - 1) * b;
        assert(k * b == (k - 1) * b + b) by (nonlinear_arith);
        if r == b {
            lemma_fundamental_div_mod_converse(n as int, b as int, k as int, 0);
        } else {
            lemma_fundamental_div_mod_converse(n as int, b as int, k - 1, r);
        }
    }
}

/// Cutting `s` into batches of `b` gives `n / b` batches rounded up, and the
/// batches, joined end to end in order, give back `s` exactly.
pub proof fn lemma_batches_concat<A>(s: Seq<A>, b: nat)
    requires
        b > 0,
    ensures
        batches_of(s, b).len() == batch_count(s.len(), b),
        batches_of(s, b).flatten() == s,
    decreases s.len(),
{
    let n = s.len();
    let bs = batches_of(s, b);
    lemma_batch_count_bounds(n, b);
    if n == 0 {
        assert(bs.len() == 0);
    } else if n <= b {
        assert(0 * b == 0 && 1 * b == b) by (nonlinear_arith);
        lemma_batch_count_unique(n, b, 1);
        assert(bs.drop_first().len() == 0);
        assert(bs[0] =~= s);
        assert(bs.drop_first().flatten() =~= Seq::<A>::empty());
        assert(bs.flatten() == bs.first() + bs.drop_first().flatten());
        assert(bs.flatten() =~= s);
    } else {
        let t = s.skip(b as int);
        let cnt = batch_count(n, b);
        assert(0 * b == 0 && 1 * b == b) by (nonlinear_arith);
        assert((cnt - 1) * b == (cnt - 2) * b + b) by (nonlinear_arith);
        assert(cnt * b == (cnt - 1) * b + b) by (nonlinear_arith);
        if cnt <= 1 {
            assert(cnt * b <= b) by (nonlinear_arith)
                requires
                    cnt <= 1,
                    b > 0,
            ;
        }
        lemma_batch_count_unique(t.len(), b, (cnt - 1) as nat);
        lemma_batches_concat(t, b);
        assert forall|k: int| 0 <= k < cnt - 1 implies batch_at(t, b, k) =~= batch_at(
            s,
            b,
            k + 1,
        ) by {
            let k1 = k + 1;
            assert(k1 * b == k * b + b) by (nonlinear_arith)
                requires
                    k1 == k + 1,
            ;
            assert((k1 + 1) * b == k1 * b + b) by (nonlinear_arith);
            assert((k + 1) * b == k * b + b) by (nonlinear_arith);
            assert(k * b >= 0) by (nonlinear_arith)
                requires
                    k >= 0,
            ;
            assert(k * b <= (cnt - 2) * b) by (nonlinear_arith)
                requires
                    k <= cnt - 2,
                    b > 0,
            ;
            let e = if (k + 1) * b <= t.len() {
                (k + 1) * b
            } else {
                t.len() as int
            };
            assert(batch_at(t, b, k) == t.subrange(k * b, e));
            assert(batch_at(s, b, k1) == s.subrange(k1 * b, e + b));
        }
        assert(bs.drop_first() =~= batches_of(t, b));
        assert(bs[0] =~= s.subrange(0, b as int));
        assert(bs.flatten() =~= s);
    }
}

/// With at least one item, every batch but the last holds exactly `b` items
/// and the last holds between one and `b`; with no items there is no batch.
pub proof fn lemma_batch_sizes<A>(s: Seq<A>, b: nat)
    requires
        b > 0,
    ensures
        s.len() == 0 ==> batches_of(s, b).len() == 0,
        s.len() > 0 ==> {
            let bs = batches_of(s, b);
            &&& bs.len() > 0
            &&& 1 <= bs.last().len() <= b
            &&& forall|k: int| 0 <= k < bs.len() - 1 ==> (#[trigger] bs[k]).len() == b
        },
{
    let n = s.len();
    lemma_batch_count_bounds(n, b);
    if n > 0 {
        let bs = batches_of(s, b);
        let cnt = bs.len() as int;
        assert(cnt * b == (cnt - 1) * b + b) by (nonlinear_arith);
        if cnt <= 0 {
            assert(cnt * b <= 0) by (nonlinear_arith)
                requires
                    cnt <= 0,
                    b > 0,
            ;
        }
        assert forall|k: int| 0 <= k < bs.len() - 1 implies (#[trigger] bs[k]).len() == b by {
            assert((k + 1) * b == k * b + b) by (nonlinear_arith);
            assert((k + 1) * b <= (cnt - 1) * b) by (nonlinear_arith)
                requires
                    k + 1 <= cnt - 1,
                    b > 0,
            ;
        }
    }
}

/// Every path in every batch of a listing is the path of an entry that was
/// listed as a regular file: subdirectories and other entries never appear.
pub proof fn lemma_batches_hold_only_files(entries: Seq<Listed>, b: nat, k: int, j: int)
    requires
        b > 0,
        0 <= k < batches_of(files_of(entries), b).len(),
        0 <= j < batches_of(files_of(entries), b)[k].len(),
    ensures
        exists|i: int|
            0 <= i < entries.len() && #[trigger] entries[i] is File && entries[i]->File_0@
                == batches_of(files_of(entries), b)[k][j],
{
    let fs = files_of(entries);
    lemma_batch_count_bounds(fs.len(), b);
    let cnt = batch_count(fs.len(), b) as int;
    assert(k * b >= 0) by (nonlinear_arith)
        requires
            k >= 0,
    ;
    assert(k * b <= (cnt - 1) * b) by (nonlinear_arith)
        requires
            k <= cnt - 1,
            b > 0,
    ;
    assert((k + 1) * b == k * b + b) by (nonlinear_arith);
    assert(batches_of(fs, b)[k][j] == fs[k * b + j]);
    crate::listing::lemma_files_of_are_files(entries, k * b + j);
}

/// The text of each path of each batch.
pub open spec fn batch_paths(bs: Seq<Vec<String>>) -> Seq<Seq<Seq<char>>> {
    bs.map_values(|v: Vec<String>| paths_of(v@))
}

/// Cuts `files` into consecutive batches of `size` paths, keeping their order;
/// the last batch holds what is left.
pub fn batches(files: &Vec<String>, size: usize) -> (r: Vec<Vec<String>>)
    requires
        size > 0,
    ensures
        batch_paths(r@) == batches_of(paths_of(files@), size as nat),
{
    let ghost fv = paths_of(files@);
    let n = files.len();
    let mut out: Vec<Vec<String>> = Vec::new();
    let mut start: usize = 0;
    assert(out@.len() * size == 0) by (nonlinear_arith)
        requires
            out@.len() == 0,
    ;
    while start < n
        invariant
            fv == paths_of(files@),
            n == files@.len(),
            size > 0,
            start <= n,
            start < n ==> start as int == out@.len() * size,
            out@.len() > 0 ==> (out@.len() - 1) * size < start,
            start <= out@.len() * size,
            forall|j: int|
                0 <= j < out@.len() ==> #[trigger] paths_of(out@[j]@) == batch_at(
                    fv,
                    size as nat,
                    j,
                ),
        decreases n - start,
    {
        let ghost k = out@.len() as int;
        let end: usize = if n - start < size {
            n
        } else {
            start + size
        };
        let mut chunk: Vec<String> = Vec::new();
        let mut i: usize = start;
        while i < end
            invariant
                start <= i <= end <= n,
                n == files@.len(),
                fv == paths_of(files@),
                paths_of(chunk@) == fv.subrange(start as int, i as int),
            decreases end - i,
        {
            let item = files[i].clone();
            let ghost before = chunk@;
            chunk.push(item);
            assert(paths_of(chunk@) =~= paths_of(before).push(item@));
            assert(paths_of(chunk@) =~= fv.subrange(start as int, i + 1));
            i = i + 1;
        }
        assert((k + 1) * size == k * size + size) by (nonlinear_arith);
        assert(paths_of(chunk@) == batch_at(fv, size as nat, k));
        let ghost prev = out@;
        out.push(chunk);
        assert(forall|j: int| 0 <= j < k ==> out@[j] == prev[j]);
        start = end;
    }
    proof {
        lemma_batch_count_unique(n as nat, size as nat, out@.len());
    }
    assert(batch_paths(out@) =~= batches_of(fv, size as nat));
    out
}

/// Lists the regular files among `entries` and cuts them into batches of
/// `chunk_size`. A batch size of zero is refused.
pub fn chunk_dir(entries: &Vec<Listed>, chunk_size: usize) -> (r: Result<
    Vec<Vec<String>>,
    ConfigError,
>)
    ensures
        r is Err <==> chunk_size == 0,
        r matches Err(e) ==> e == ConfigError::ZeroBatchSize,
        r matches Ok(bs) ==> batch_paths(bs@) == batches_of(
            files_of(entries@),
            chunk_size as nat,
        ),
{
    if chunk_size == 0 {
        return Err(ConfigError::ZeroBatchSize);
    }
    let files = find_files(entries);
    Ok(batches(&files, chunk_size))
}

} // verus!
