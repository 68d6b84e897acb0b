//! Drawing lottery fields: a uniformly random set of distinct numbers from a
//! pool, arranged in ascending order and shifted to the 1-indexed range.
//!
//! The randomness itself comes from the `rand` crate behind trusted
//! wrappers; everything that is done with a drawn sample is verified.

use vstd::prelude::*;
use vstd::set::group_set_axioms;

use crate::config::PoolConfig;
use crate::config::SubConfig;

verus! {

/// Declares rand's thread-local generator handle; a value of it is opaque
/// here and only passed to the sampler.
#[verifier::external_type_specification]
#[verifier::external_body]
pub struct ExThreadRng(rand::rngs::ThreadRng);

/// Relies on rand::thread_rng: a handle to the thread-local generator.
#[verifier::external_body]
fn fresh_rng() -> rand::rngs::ThreadRng {
    rand::thread_rng()
}

/// Relies on rand::seq::index::sample: exactly `amount` distinct indices
/// drawn from `0..length`, in random order. Nothing more is promised of a
/// random result; `sample` panics when `amount > length`, so that case is
/// excluded here.
#[verifier::external_body]
fn sample_indices(rng: &mut rand::rngs::ThreadRng, length: usize, amount: usize) -> (r: Vec<usize>)
    requires
        amount <= length,
    ensures
        r@.len() == amount,
        forall|i: int| 0 <= i < r@.len() ==> #[trigger] r@[i] < length,
        forall|i: int, j: int| 0 <= i < j < r@.len() ==> r@[i] != r@[j],
{
    rand::seq::index::sample(rng, length, amount).into_vec()
}

/// Whether `v` holds `x`.
fn contains_val(v: &Vec<usize>, x: usize) -> (r: bool)
    ensures
        r == v@.contains(x),
{
    let mut k: usize = 0;
    while k < v.len()
        invariant
            k <= v@.len(),
            forall|i: int| 0 <= i < k ==> v@[i] != x,
        decreases v@.len() - k,
    {
        if v[k] == x {
            assert(v@[k as int] == x);
            return true;
        }
        k += 1;
    }
    false
}

/// The values of `sample` in ascending order. `sample` must hold distinct
/// values below `bound`; the result holds exactly the same values.
fn ascending_values(sample: &Vec<usize>, bound: usize) -> (r: Vec<usize>)
    requires
        forall|i: int| 0 <= i < sample@.len() ==> #[trigger] sample@[i] < bound,
        forall|i: int, j: int| 0 <= i < j < sample@.len() ==> sample@[i] != sample@[j],
    ensures
        r@.len() == sample@.len(),
        forall|i: int| 0 <= i < r@.len() ==> #[trigger] r@[i] < bound,
        forall|i: int, j: int| 0 <= i < j < r@.len() ==> r@[i] < r@[j],
        forall|x: usize| r@.contains(x) <==> sample@.contains(x),
{
    let mut out: Vec<usize> = Vec::new();
    let mut c: usize = 0;
    while c < bound
        invariant
            c <= bound,
            forall|i: int| 0 <= i < out@.len() ==> #[trigger] out@[i] < c,
            forall|i: int, j: int| 0 <= i < j < out@.len() ==> out@[i] < out@[j],
            forall|x: usize| out@.contains(x) <==> sample@.contains(x) && x < c,
            forall|i: int| 0 <= i < sample@.len() ==> #[trigger] sample@[i] < bound,
            forall|i: int, j: int| 0 <= i < j < sample@.len() ==> sample@[i] != sample@[j],
        decreases bound - c,
    {
        if contains_val(sample, c) {
            let ghost prev = out@;
            out.push(c);
            proof {
                assert(out@ == prev.push(c));
                assert forall|x: usize| out@.contains(x) <==> (sample@.contains(x) && x < c
                    + 1) by {
                    if out@.contains(x) {
                        let i = choose|i: int| 0 <= i < out@.len() && out@[i] == x;
                        if i < prev.len() {
                            assert(prev[i] == x);
                            assert(prev.contains(x));
                        } else {
                            assert(x == c);
                        }
                    }
                    if sample@.contains(x) && x < c + 1 {
                        if x < c {
                            let i = choose|i: int| 0 <= i < prev.len() && prev[i] == x;
                            assert(out@[i] == x);
                        } else {
                            assert(out@[prev.len() as int] == c);
                        }
                    }
                }
            }
        }
        c += 1;
    }
    proof {
        broadcast use group_set_axioms;

        assert forall|x: usize| out@.contains(x) <==> sample@.contains(x) by {
            if sample@.contains(x) {
                let i = choose|i: int| 0 <= i < sample@.len() && sample@[i] == x;
                assert(sample@[i] < bound);
            }
        }
        assert(out@.no_duplicates()) by {
            assert forall|i: int, j: int|
                0 <= i < out@.len() && 0 <= j < out@.len() && i != j implies out@[i]
                != out@[j] by {
                if i < j {
                    assert(out@[i] < out@[j]);
                } else {
                    assert(out@[j] < out@[i]);
                }
            }
        }
        assert(sample@.no_duplicates()) by {
            assert forall|i: int, j: int|
                0 <= i < sample@.len() && 0 <= j < sample@.len() && i != j implies sample@[i]
                != sample@[j] by {
                if i < j {
                    assert(sample@[i] != sample@[j]);
                } else {
                    assert(sample@[j] != sample@[i]);
                }
            }
        }
        assert(out@.to_set() =~= sample@.to_set());
        out@.unique_seq_to_set();
        sample@.unique_seq_to_set();
    }
    out
}

/// What a drawn field is for one pool: `number_count` distinct values from
/// `1..=pool_size`, in strictly ascending order.
pub open spec fn field_wf(f: Seq<usize>, sc: SubConfig) -> bool {
    &&& f.len() == sc.number_count
    &&& forall|i: int| 0 <= i < f.len() ==> 1 <= #[trigger] f[i] <= sc.pool_size
    &&& forall|i: int, j: int| 0 <= i < j < f.len() ==> f[i] < f[j]
}

/// Draws one field: `number_count` distinct numbers from `1..=pool_size`,
/// returned in ascending order.
pub fn generate_field(number_count: usize, pool_size: usize) -> (r: Vec<usize>)
    requires
        number_count <= pool_size,
    ensures
        field_wf(r@, (SubConfig { number_count, pool_size })),
{
    let mut rng = fresh_rng();
    let sample = sample_indices(&mut rng, pool_size, number_count);
    let asc = ascending_values(&sample, pool_size);
    let mut r: Vec<usize> = Vec::new();
    let mut i: usize = 0;
    while i < asc.len()
        invariant
            i <= asc@.len(),
            asc@.len() == number_count,
            r@.len() == i,
            forall|k: int| 0 <= k < i ==> r@[k] == asc@[k] + 1,
            forall|k: int| 0 <= k < asc@.len() ==> #[trigger] asc@[k] < pool_size,
            forall|k: int, l: int| 0 <= k < l < asc@.len() ==> asc@[k] < asc@[l],
        decreases asc@.len() - i,
    {
        let v = asc[i];
        r.push(v + 1);
        i += 1;
    }
    r
}

/// One generated row: a field for the primary pool and, when the
/// configuration has one, a field for the secondary pool.
pub struct Row {
    pub primary: Vec<usize>,
    pub secondary: Option<Vec<usize>>,
}

/// The mathematical content of a `Row`.
pub ghost struct RowView {
    pub primary: Seq<usize>,
    pub secondary: Option<Seq<usize>>,
}

impl View for Row {
    type V = RowView;

    open spec fn view(&self) -> RowView {
        RowView {
            primary: self.primary@,
            secondary: match self.secondary {
                Some(f) => Some(f@),
                None => None,
            },
        }
    }
}

/// What a generated row is under a configuration: a well-formed field per
/// active pool, and a secondary field exactly when the configuration has a
/// secondary pool.
pub open spec fn row_wf(rv: RowView, cfg: PoolConfig) -> bool {
    &&& field_wf(rv.primary, cfg.primary)
    &&& match cfg.secondary {
        Some(sc) => rv.secondary is Some && field_wf(rv.secondary.unwrap(), sc),
        None => rv.secondary is None,
    }
}

/// Draws one row under `cfg`, sampling each active pool independently.
pub fn generate_row(cfg: &PoolConfig) -> (r: Row)
    requires
        cfg.valid(),
    ensures
        row_wf(r@, *cfg),
{
    let primary = generate_field(cfg.primary.number_count, cfg.primary.pool_size);
    let secondary = match cfg.secondary {
        Some(sc) => Some(generate_field(sc.number_count, sc.pool_size)),
        None => None,
    };
    Row { primary, secondary }
}

/// Draws `count` rows under `cfg`, each sampled independently of the others.
pub fn generate_rows(cfg: &PoolConfig, count: u32) -> (r: Vec<Row>)
    requires
        cfg.valid(),
    ensures
        r@.len() == count,
        forall|k: int| 0 <= k < r@.len() ==> row_wf(#[trigger] r@[k]@, *cfg),
{
    let mut rows: Vec<Row> = Vec::new();
    let mut i: u32 = 0;
    while i < count
        invariant
            cfg.valid(),
            i <= count,
            rows@.len() == i,
            forall|k: int| 0 <= k < rows@.len() ==> row_wf(#[trigger] rows@[k]@, *cfg),
        decreases count - i,
    {
        let row = generate_row(cfg);
        rows.push(row);
        i += 1;
    }
    rows
}

/// The shape of a row: how many numbers its primary field holds, and how
/// many its secondary field holds, if it has one.
pub open spec fn row_shape(rv: RowView) -> (nat, Option<nat>) {
    (
        rv.primary.len(),
        match rv.secondary {
            Some(f) => Some(f.len()),
            None => None,
        },
    )
}

/// A configuration determines the shape of its output: any two runs over the
/// same configuration and the same row count produce rows of identical
/// shape, row for row — only the drawn values vary.
pub proof fn lemma_config_determines_shape(
    cfg: PoolConfig,
    rows1: Seq<RowView>,
    rows2: Seq<RowView>,
)
    requires
        rows1.len() == rows2.len(),
        forall|k: int| 0 <= k < rows1.len() ==> row_wf(#[trigger] rows1[k], cfg),
        forall|k: int| 0 <= k < rows2.len() ==> row_wf(#[trigger] rows2[k], cfg),
    ensures
        forall|k: int| 0 <= k < rows1.len() ==> row_shape(#[trigger] rows1[k]) == row_shape(
            rows2[k],
        ),
{
}

} // verus!
