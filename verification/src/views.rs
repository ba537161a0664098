//! Read and write views that map a small element-local vector or matrix
//! into and out of the global state vectors and matrices, as directed by a
//! list of dofs. Write views add contributions for free dofs only and
//! silently drop contributions destined for fixed dofs: this is the entire
//! Dirichlet boundary-condition mechanism of the engine, with no separate
//! constraint elimination step.

use vstd::arithmetic::div_mod::{lemma_fundamental_div_mod, lemma_fundamental_div_mod_converse};
use vstd::prelude::*;

use crate::dof::Dof;

verus! {

/// The view of a vector of fixed-point values as mathematical integers.
pub open spec fn int_values(s: Seq<i64>) -> Seq<int> {
    s.map_values(|v: i64| v as int)
}

/// Whether a dof may be used with a global vector of length `n`.
pub open spec fn dof_in_range(dof: Dof, n: int) -> bool {
    match dof {
        Dof::Free(i) => i < n,
        Dof::Fixed(_) => true,
    }
}

/// The local position value of a dof: its constant for fixed dofs, the
/// indexed entry of the global vector for free dofs.
pub open spec fn position_transform(vector: Seq<i64>, dof: Dof) -> i64 {
    match dof {
        Dof::Fixed(u) => u,
        Dof::Free(i) => vector[i as int],
    }
}

/// The local rate value (velocity, acceleration, force) of a dof: fixed
/// dofs never contribute rate-type quantities, so their value is zero.
pub open spec fn rate_transform(vector: Seq<i64>, dof: Dof) -> i64 {
    match dof {
        Dof::Fixed(_) => 0i64,
        Dof::Free(i) => vector[i as int],
    }
}

/// Local read-only view into a global vector as defined by a list of dofs,
/// including the constant offsets of fixed dofs.
pub struct AffineView {
    pub dofs: Vec<Dof>,
}

/// Read view for positions: fixed dofs contribute their constant value.
pub type PositionView = AffineView;

impl AffineView {
    /// Creates a new view for the given dofs.
    pub fn new(dofs: Vec<Dof>) -> (r: AffineView)
        ensures
            r.dofs@ == dofs@,
    {
        AffineView { dofs }
    }

    /// The local position associated with the dof of the given index.
    pub fn at(&self, vector: &Vec<i64>, index: usize) -> (r: i64)
        requires
            index < self.dofs@.len(),
            dof_in_range(self.dofs@[index as int], vector@.len() as int),
        ensures
            r == position_transform(vector@, self.dofs@[index as int]),
    {
        Self::transform(vector, self.dofs[index])
    }

    /// The local positions of all dofs of the view.
    pub fn get(&self, vector: &Vec<i64>) -> (r: Vec<i64>)
        requires
            forall|k: int|
                0 <= k < self.dofs@.len() ==> dof_in_range(
                    #[trigger] self.dofs@[k],
                    vector@.len() as int,
                ),
        ensures
            r@.len() == self.dofs@.len(),
            forall|k: int|
                0 <= k < r@.len() ==> #[trigger] r@[k] == position_transform(
                    vector@,
                    self.dofs@[k],
                ),
    {
        let mut r: Vec<i64> = Vec::new();
        let mut k: usize = 0;
        while k < self.dofs.len()
            invariant
                k <= self.dofs@.len(),
                r@.len() == k,
                forall|j: int|
                    0 <= j < self.dofs@.len() ==> dof_in_range(
                        #[trigger] self.dofs@[j],
                        vector@.len() as int,
                    ),
                forall|j: int|
                    0 <= j < k ==> #[trigger] r@[j] == position_transform(vector@, self.dofs@[j]),
            decreases self.dofs@.len() - k,
        {
            r.push(Self::transform(vector, self.dofs[k]));
            k += 1;
        }
        r
    }

    /// Transforms a global vector and a dof to the local position value.
    pub fn transform(vector: &Vec<i64>, dof: Dof) -> (r: i64)
        requires
            dof_in_range(dof, vector@.len() as int),
        ensures
            r == position_transform(vector@, dof),
    {
        match dof {
            Dof::Fixed(u) => u,
            Dof::Free(i) => vector[i],
        }
    }
}

/// Local read-only view into a global vector as defined by a list of dofs,
/// disregarding the offsets of fixed dofs.
pub struct LinearView {
    pub dofs: Vec<Dof>,
}

/// Read view for velocities: fixed dofs contribute zero.
pub type VelocityView = LinearView;

/// Read view for accelerations: fixed dofs contribute zero.
pub type AccelerationView = LinearView;

/// Read view for forces: fixed dofs contribute zero.
pub type ForceView = LinearView;

impl LinearView {
    /// Creates a new view for the given dofs.
    pub fn new(dofs: Vec<Dof>) -> (r: LinearView)
        ensures
            r.dofs@ == dofs@,
    {
        LinearView { dofs }
    }

    /// The local rate value associated with the dof of the given index.
    pub fn at(&self, vector: &Vec<i64>, index: usize) -> (r: i64)
        requires
            index < self.dofs@.len(),
            dof_in_range(self.dofs@[index as int], vector@.len() as int),
        ensures
            r == rate_transform(vector@, self.dofs@[index as int]),
    {
        Self::transform(vector, self.dofs[index])
    }

    /// The local rate values of all dofs of the view.
    pub fn get(&self, vector: &Vec<i64>) -> (r: Vec<i64>)
        requires
            forall|k: int|
                0 <= k < self.dofs@.len() ==> dof_in_range(
                    #[trigger] self.dofs@[k],
                    vector@.len() as int,
                ),
        ensures
            r@.len() == self.dofs@.len(),
            forall|k: int|
                0 <= k < r@.len() ==> #[trigger] r@[k] == rate_transform(vector@, self.dofs@[k]),
    {
        let mut r: Vec<i64> = Vec::new();
        let mut k: usize = 0;
        while k < self.dofs.len()
            invariant
                k <= self.dofs@.len(),
                r@.len() == k,
                forall|j: int|
                    0 <= j < self.dofs@.len() ==> dof_in_range(
                        #[trigger] self.dofs@[j],
                        vector@.len() as int,
                    ),
                forall|j: int|
                    0 <= j < k ==> #[trigger] r@[j] == rate_transform(vector@, self.dofs@[j]),
            decreases self.dofs@.len() - k,
        {
            r.push(Self::transform(vector, self.dofs[k]));
            k += 1;
        }
        r
    }

    /// Transforms a global vector and a dof to the local rate value.
    pub fn transform(vector: &Vec<i64>, dof: Dof) -> (r: i64)
        requires
            dof_in_range(dof, vector@.len() as int),
        ensures
            r == rate_transform(vector@, dof),
    {
        match dof {
            Dof::Fixed(_) => 0,
            Dof::Free(i) => vector[i],
        }
    }
}

/// The global vector after the first `k` local contributions have been
/// added: the contribution of a free dof is added onto the entry it
/// references, the contribution of a fixed dof is dropped.
pub open spec fn vector_view_applied(
    global: Seq<int>,
    dofs: Seq<Dof>,
    local: Seq<int>,
    k: int,
) -> Seq<int>
    decreases k,
{
    if k <= 0 {
        global
    } else {
        let prev = vector_view_applied(global, dofs, local, k - 1);
        match dofs[k - 1] {
            Dof::Fixed(_) => prev,
            Dof::Free(i) => prev.update(i as int, prev[i as int] + local[k - 1]),
        }
    }
}

/// Whether every intermediate global entry stays within `i64` while the
/// local contributions are added.
pub open spec fn vector_view_fits(global: Seq<int>, dofs: Seq<Dof>, local: Seq<int>) -> bool {
    forall|k: int, j: int|
        0 <= k <= local.len() && 0 <= j < global.len() ==> i64::MIN <= #[trigger] vector_view_applied(
            global,
            dofs,
            local,
            k,
        )[j] <= i64::MAX
}

/// Adding local contributions never changes the length of the global
/// vector.
pub proof fn lemma_vector_view_applied_len(
    global: Seq<int>,
    dofs: Seq<Dof>,
    local: Seq<int>,
    k: int,
)
    requires
        forall|t: int| 0 <= t < local.len() ==> dof_in_range(#[trigger] dofs[t], global.len() as int),
        k <= local.len() <= dofs.len(),
    ensures
        vector_view_applied(global, dofs, local, k).len() == global.len(),
    decreases k,
{
    if k > 0 {
        lemma_vector_view_applied_len(global, dofs, local, k - 1);
    }
}

/// Boundary conditions, vector case: a global entry that no free dof of
/// the view references is left unchanged; in particular every contribution
/// destined for a fixed dof is silently dropped.
pub proof fn lemma_vector_view_preserves_unreferenced(
    global: Seq<int>,
    dofs: Seq<Dof>,
    local: Seq<int>,
    k: int,
    j: int,
)
    requires
        forall|t: int| 0 <= t < local.len() ==> dof_in_range(#[trigger] dofs[t], global.len() as int),
        k <= local.len() <= dofs.len(),
        global.len() <= usize::MAX,
        0 <= j < global.len(),
        forall|t: int| 0 <= t < k ==> #[trigger] dofs[t] != Dof::Free(j as usize),
    ensures
        vector_view_applied(global, dofs, local, k)[j] == global[j],
    decreases k,
{
    if k > 0 {
        lemma_vector_view_preserves_unreferenced(global, dofs, local, k - 1, j);
        lemma_vector_view_applied_len(global, dofs, local, k - 1);
    }
}

/// Boundary conditions, vector case: if the free dofs of the view
/// reference pairwise distinct global entries, then the entry referenced by
/// the free dof at position `t` receives exactly the local contribution at
/// position `t`.
pub proof fn lemma_vector_view_adds_referenced(
    global: Seq<int>,
    dofs: Seq<Dof>,
    local: Seq<int>,
    k: int,
    t: int,
    j: int,
)
    requires
        forall|s: int| 0 <= s < local.len() ==> dof_in_range(#[trigger] dofs[s], global.len() as int),
        k <= local.len() <= dofs.len(),
        global.len() <= usize::MAX,
        0 <= t < k,
        dofs[t] == Dof::Free(j as usize),
        0 <= j < global.len(),
        forall|s: int| 0 <= s < k && s != t ==> #[trigger] dofs[s] != Dof::Free(j as usize),
    ensures
        vector_view_applied(global, dofs, local, k)[j] == global[j] + local[t],
    decreases k,
{
    lemma_vector_view_applied_len(global, dofs, local, k - 1);
    if k - 1 == t {
        lemma_vector_view_preserves_unreferenced(global, dofs, local, k - 1, j);
    } else {
        lemma_vector_view_adds_referenced(global, dofs, local, k - 1, t, j);
    }
}

/// Mass assembly, monotonicity half: when all local contributions are
/// nonnegative (as every element's mass contribution is), no global entry
/// ever decreases.
pub proof fn lemma_vector_view_monotone(
    global: Seq<int>,
    dofs: Seq<Dof>,
    local: Seq<int>,
    k: int,
    j: int,
)
    requires
        forall|t: int| 0 <= t < local.len() ==> dof_in_range(#[trigger] dofs[t], global.len() as int),
        k <= local.len() <= dofs.len(),
        0 <= j < global.len(),
        forall|t: int| 0 <= t < local.len() ==> #[trigger] local[t] >= 0,
    ensures
        vector_view_applied(global, dofs, local, k)[j] >= global[j],
    decreases k,
{
    if k > 0 {
        lemma_vector_view_monotone(global, dofs, local, k - 1, j);
        lemma_vector_view_applied_len(global, dofs, local, k - 1);
    }
}

/// Mass assembly, positivity half: a global entry that starts nonnegative
/// and receives at least one strictly positive contribution through a free
/// dof ends strictly positive, provided all contributions are nonnegative.
/// Together with the monotonicity above this gives the assembled mass
/// vector's positive definiteness once every free dof carries some
/// mass-bearing contribution.
pub proof fn lemma_vector_view_positive(
    global: Seq<int>,
    dofs: Seq<Dof>,
    local: Seq<int>,
    k: int,
    t: int,
    j: int,
)
    requires
        forall|s: int| 0 <= s < local.len() ==> dof_in_range(#[trigger] dofs[s], global.len() as int),
        k <= local.len() <= dofs.len(),
        global.len() <= usize::MAX,
        0 <= j < global.len(),
        global[j] >= 0,
        forall|s: int| 0 <= s < local.len() ==> #[trigger] local[s] >= 0,
        0 <= t < k,
        dofs[t] == Dof::Free(j as usize),
        local[t] > 0,
    ensures
        vector_view_applied(global, dofs, local, k)[j] > 0,
    decreases k,
{
    lemma_vector_view_applied_len(global, dofs, local, k - 1);
    if k - 1 == t {
        lemma_vector_view_monotone(global, dofs, local, k - 1, j);
    } else {
        lemma_vector_view_positive(global, dofs, local, k - 1, t, j);
    }
}

/// Local write-only view into a global vector (used for forces) as defined
/// by a list of dofs.
pub struct VectorView {
    pub dofs: Vec<Dof>,
}

impl VectorView {
    /// Creates a new view for the given dofs.
    pub fn new(dofs: Vec<Dof>) -> (r: VectorView)
        ensures
            r.dofs@ == dofs@,
    {
        VectorView { dofs }
    }

    /// Adds the local contributions of all dofs of the view to the global
    /// vector. Contributions of fixed dofs have no link to the global
    /// vector and are dropped.
    pub fn add(&self, global: &mut Vec<i64>, local: &Vec<i64>)
        requires
            local@.len() == self.dofs@.len(),
            forall|k: int|
                0 <= k < self.dofs@.len() ==> dof_in_range(
                    #[trigger] self.dofs@[k],
                    old(global)@.len() as int,
                ),
            vector_view_fits(int_values(old(global)@), self.dofs@, int_values(local@)),
        ensures
            final(global)@.len() == old(global)@.len(),
            int_values(final(global)@) == vector_view_applied(
                int_values(old(global)@),
                self.dofs@,
                int_values(local@),
                local@.len() as int,
            ),
    {
        let ghost g0 = int_values(global@);
        let ghost l = int_values(local@);
        let mut row: usize = 0;
        while row < local.len()
            invariant
                row <= local@.len(),
                local@.len() == self.dofs@.len(),
                g0 == int_values(old(global)@),
                l == int_values(local@),
                g0.len() == old(global)@.len(),
                forall|k: int|
                    0 <= k < self.dofs@.len() ==> dof_in_range(
                        #[trigger] self.dofs@[k],
                        g0.len() as int,
                    ),
                vector_view_fits(g0, self.dofs@, l),
                global@.len() == old(global)@.len(),
                int_values(global@) == vector_view_applied(g0, self.dofs@, l, row as int),
            decreases local@.len() - row,
        {
            proof {
                lemma_vector_view_applied_len(g0, self.dofs@, l, row as int);
                assert(vector_view_applied(g0, self.dofs@, l, row + 1) == (match self.dofs@[
                    row as int
                ] {
                    Dof::Fixed(_) => vector_view_applied(g0, self.dofs@, l, row as int),
                    Dof::Free(i) => vector_view_applied(g0, self.dofs@, l, row as int).update(
                        i as int,
                        vector_view_applied(g0, self.dofs@, l, row as int)[i as int] + l[
                            row as int],
                    ),
                }));
            }
            match self.dofs[row] {
                Dof::Fixed(_) => {
                    // No link from the local value to the global vector.
                },
                Dof::Free(i) => {
                    proof {
                        assert(int_values(global@)[i as int] == global@[i as int]);
                        assert(vector_view_applied(g0, self.dofs@, l, row + 1)[i as int]
                            == global@[i as int] + local@[row as int]);
                        assert(i64::MIN <= global@[i as int] + local@[row as int] <= i64::MAX);
                    }
                    let updated: i64 = global[i] + local[row];
                    global[i] = updated;
                    proof {
                        assert(int_values(global@) =~= vector_view_applied(
                            g0,
                            self.dofs@,
                            l,
                            row + 1,
                        ));
                    }
                },
            }
            row += 1;
        }
    }
}

} // verus!

verus! {

/// A dense rectangular matrix of fixed-point values in row-major storage.
pub struct Matrix {
    pub rows: usize,
    pub cols: usize,
    pub data: Vec<i64>,
}

impl Matrix {
    /// Well-formedness: the storage holds exactly `rows * cols` entries.
    pub open spec fn wf(&self) -> bool {
        self.data@.len() == self.rows * self.cols
    }

    /// The entry at row `r` and column `c`.
    pub open spec fn entry(&self, r: int, c: int) -> i64
        recommends
            self.wf(),
            0 <= r < self.rows,
            0 <= c < self.cols,
    {
        self.data@[r * self.cols + c]
    }

    /// Creates a matrix of the given dimensions with all entries zero.
    pub fn zeros(rows: usize, cols: usize) -> (r: Matrix)
        requires
            rows * cols <= usize::MAX,
        ensures
            r.wf(),
            r.rows == rows,
            r.cols == cols,
            forall|i: int, j: int| 0 <= i < rows && 0 <= j < cols ==> r.entry(i, j) == 0,
    {
        let n: usize = rows * cols;
        let mut data: Vec<i64> = Vec::new();
        let mut k: usize = 0;
        while k < n
            invariant
                k <= n,
                data@.len() == k,
                forall|t: int| 0 <= t < k ==> #[trigger] data@[t] == 0,
            decreases n - k,
        {
            data.push(0);
            k += 1;
        }
        let r = Matrix { rows, cols, data };
        proof {
            assert forall|i: int, j: int| 0 <= i < rows && 0 <= j < cols implies r.entry(i, j)
                == 0 by {
                lemma_flat_index_bounds(i, j, rows as int, cols as int);
            }
        }
        r
    }

    /// The entry at row `r` and column `c`.
    pub fn get(&self, r: usize, c: usize) -> (v: i64)
        requires
            self.wf(),
            r < self.rows,
            c < self.cols,
        ensures
            v == self.entry(r as int, c as int),
    {
        let total: usize = self.data.len();
        proof {
            lemma_flat_index_bounds(r as int, c as int, self.rows as int, self.cols as int);
        }
        self.data[r * self.cols + c]
    }

    /// Overwrites the entry at row `r` and column `c`; all other entries
    /// and the dimensions are unchanged.
    pub fn set(&mut self, r: usize, c: usize, v: i64)
        requires
            old(self).wf(),
            r < old(self).rows,
            c < old(self).cols,
        ensures
            final(self).wf(),
            final(self).rows == old(self).rows,
            final(self).cols == old(self).cols,
            final(self).entry(r as int, c as int) == v,
            final(self).data@ == old(self).data@.update(r * old(self).cols + c, v),
            forall|i: int, j: int|
                0 <= i < old(self).rows && 0 <= j < old(self).cols && !(i == r && j == c)
                    ==> final(self).entry(i, j) == old(self).entry(i, j),
    {
        let total: usize = self.data.len();
        proof {
            lemma_flat_index_bounds(r as int, c as int, self.rows as int, self.cols as int);
        }
        let index: usize = r * self.cols + c;
        self.data[index] = v;
        proof {
            assert forall|i: int, j: int|
                0 <= i < self.rows && 0 <= j < self.cols && !(i == r && j == c) implies self.entry(
                i,
                j,
            ) == old(self).entry(i, j) by {
                lemma_flat_index_bounds(i, j, self.rows as int, self.cols as int);
                lemma_flat_index_injective(i, j, r as int, c as int, self.cols as int);
            }
        }
    }
}

/// A row-major flat index lies within the storage of its matrix.
proof fn lemma_flat_index_bounds(r: int, c: int, rows: int, cols: int)
    requires
        0 <= r < rows,
        0 <= c < cols,
    ensures
        0 <= r * cols + c < rows * cols,
{
    assert(r * cols + c < rows * cols) by (nonlinear_arith)
        requires
            0 <= r < rows,
            0 <= c < cols,
    ;
}

/// Distinct matrix positions have distinct row-major flat indices.
proof fn lemma_flat_index_injective(r1: int, c1: int, r2: int, c2: int, cols: int)
    requires
        0 <= c1 < cols,
        0 <= c2 < cols,
        0 <= r1,
        0 <= r2,
        !(r1 == r2 && c1 == c2),
    ensures
        r1 * cols + c1 != r2 * cols + c2,
{
    assert(r1 * cols + c1 != r2 * cols + c2) by (nonlinear_arith)
        requires
            0 <= c1 < cols,
            0 <= c2 < cols,
            0 <= r1,
            0 <= r2,
            !(r1 == r2 && c1 == c2),
    ;
}

/// The flat global matrix storage (dimension `n`) after the first `t` of
/// the `dofs.len() * dofs.len()` local contributions, taken in row-major
/// order, have been added: a contribution is added onto the global entry
/// addressed by two free dofs and dropped as soon as its row or column dof
/// is fixed.
pub open spec fn matrix_view_applied(
    global: Seq<int>,
    n: int,
    dofs: Seq<Dof>,
    local: Seq<int>,
    t: int,
) -> Seq<int>
    decreases t,
{
    if t <= 0 {
        global
    } else {
        let prev = matrix_view_applied(global, n, dofs, local, t - 1);
        let row = (t - 1) / (dofs.len() as int);
        let col = (t - 1) % (dofs.len() as int);
        match (dofs[row], dofs[col]) {
            (Dof::Free(i), Dof::Free(j)) => prev.update(
                i * n + j,
                prev[i * n + j] + local[t - 1],
            ),
            _ => prev,
        }
    }
}

/// Whether every intermediate global entry stays within `i64` while the
/// local matrix contributions are added.
pub open spec fn matrix_view_fits(
    global: Seq<int>,
    n: int,
    dofs: Seq<Dof>,
    local: Seq<int>,
) -> bool {
    forall|t: int, p: int|
        0 <= t <= local.len() && 0 <= p < global.len() ==> i64::MIN
            <= #[trigger] matrix_view_applied(global, n, dofs, local, t)[p] <= i64::MAX
}

/// Adding local matrix contributions never changes the length of the
/// global storage.
pub proof fn lemma_matrix_view_applied_len(
    global: Seq<int>,
    n: int,
    dofs: Seq<Dof>,
    local: Seq<int>,
    t: int,
)
    requires
        forall|k: int| 0 <= k < dofs.len() ==> dof_in_range(#[trigger] dofs[k], n),
        t <= local.len() <= dofs.len() * dofs.len(),
        global.len() == n * n,
    ensures
        matrix_view_applied(global, n, dofs, local, t).len() == global.len(),
    decreases t,
{
    if t > 0 {
        lemma_matrix_view_applied_len(global, n, dofs, local, t - 1);
        let nn = dofs.len() as int;
        let row = (t - 1) / nn;
        let col = (t - 1) % nn;
        assert(0 <= row < nn && 0 <= col < nn) by (nonlinear_arith)
            requires
                nn > 0,
                0 <= t - 1 < nn * nn,
                row == (t - 1) / nn,
                col == (t - 1) % nn,
        ;
        match (dofs[row], dofs[col]) {
            (Dof::Free(gi), Dof::Free(gj)) => {
                lemma_flat_index_bounds(gi as int, gj as int, n, n);
            },
            _ => {},
        }
    }
}

/// Boundary conditions, matrix case: a global entry `(i, j)` that no pair
/// of free dofs of the view addresses is left unchanged; in particular
/// every block whose row or column dof is fixed vanishes.
pub proof fn lemma_matrix_view_preserves_unreferenced(
    global: Seq<int>,
    n: int,
    dofs: Seq<Dof>,
    local: Seq<int>,
    t: int,
    i: int,
    j: int,
)
    requires
        forall|k: int| 0 <= k < dofs.len() ==> dof_in_range(#[trigger] dofs[k], n),
        t <= local.len() <= dofs.len() * dofs.len(),
        global.len() == n * n,
        n <= usize::MAX,
        0 <= i < n,
        0 <= j < n,
        forall|r: int, c: int|
            0 <= r < dofs.len() && 0 <= c < dofs.len() ==> !(#[trigger] dofs[r] == Dof::Free(
                i as usize,
            ) && #[trigger] dofs[c] == Dof::Free(j as usize)),
    ensures
        matrix_view_applied(global, n, dofs, local, t)[i * n + j] == global[i * n + j],
    decreases t,
{
    if t > 0 {
        lemma_matrix_view_preserves_unreferenced(global, n, dofs, local, t - 1, i, j);
        lemma_matrix_view_applied_len(global, n, dofs, local, t - 1);
        let nn = dofs.len() as int;
        let row = (t - 1) / nn;
        let col = (t - 1) % nn;
        assert(0 <= row < nn && 0 <= col < nn) by (nonlinear_arith)
            requires
                nn > 0,
                0 <= t - 1 < nn * nn,
                row == (t - 1) / nn,
                col == (t - 1) % nn,
        ;
        lemma_flat_index_bounds(i, j, n, n);
        match (dofs[row], dofs[col]) {
            (Dof::Free(gi), Dof::Free(gj)) => {
                lemma_flat_index_bounds(gi as int, gj as int, n, n);
                if gi * n + gj == i * n + j {
                    assert(gi as int == i && gj as int == j) by (nonlinear_arith)
                        requires
                            gi * n + gj == i * n + j,
                            0 <= gj < n,
                            0 <= j < n,
                            0 <= gi,
                            0 <= i,
                    ;
                    assert(dofs[row] == Dof::Free(i as usize) && dofs[col] == Dof::Free(
                        j as usize,
                    ));
                }
            },
            _ => {},
        }
    }
}

/// Boundary conditions, matrix case, exact contribution: if exactly one
/// pair of view positions `(r0, c0)` addresses the global entry `(i, j)`
/// through two free dofs, that entry receives exactly the local
/// contribution at `(r0, c0)` once the traversal has passed it, and is
/// untouched before.
pub proof fn lemma_matrix_view_adds_referenced(
    global: Seq<int>,
    n: int,
    dofs: Seq<Dof>,
    local: Seq<int>,
    t: int,
    r0: int,
    c0: int,
    i: int,
    j: int,
)
    requires
        forall|k: int| 0 <= k < dofs.len() ==> dof_in_range(#[trigger] dofs[k], n),
        t <= local.len() <= dofs.len() * dofs.len(),
        global.len() == n * n,
        n <= usize::MAX,
        0 <= i < n,
        0 <= j < n,
        0 <= r0 < dofs.len(),
        0 <= c0 < dofs.len(),
        dofs[r0] == Dof::Free(i as usize),
        dofs[c0] == Dof::Free(j as usize),
        forall|r: int, c: int|
            0 <= r < dofs.len() && 0 <= c < dofs.len() && !(r == r0 && c == c0) ==> !(
            #[trigger] dofs[r] == Dof::Free(i as usize) && #[trigger] dofs[c] == Dof::Free(
                j as usize,
            )),
    ensures
        t <= r0 * dofs.len() + c0 ==> matrix_view_applied(global, n, dofs, local, t)[i * n + j]
            == global[i * n + j],
        t > r0 * dofs.len() + c0 ==> matrix_view_applied(global, n, dofs, local, t)[i * n + j]
            == global[i * n + j] + local[r0 * dofs.len() + c0],
    decreases t,
{
    lemma_flat_index_bounds(i, j, n, n);
    if t > 0 {
        lemma_matrix_view_adds_referenced(global, n, dofs, local, t - 1, r0, c0, i, j);
        lemma_matrix_view_applied_len(global, n, dofs, local, t - 1);
        let nn = dofs.len() as int;
        let t0 = r0 * nn + c0;
        let row = (t - 1) / nn;
        let col = (t - 1) % nn;
        assert(0 <= row < nn && 0 <= col < nn) by (nonlinear_arith)
            requires
                nn > 0,
                0 <= t - 1 < nn * nn,
                row == (t - 1) / nn,
                col == (t - 1) % nn,
        ;
        if t - 1 == t0 {
            assert(row == r0 && col == c0) by {
                lemma_flat_index_bounds(r0, c0, nn, nn);
                lemma_fundamental_div_mod_converse(t0, nn, r0, c0);
            }
        } else {
            assert(!(row == r0 && col == c0)) by {
                lemma_fundamental_div_mod(t - 1, nn);
                assert(nn * row + col == row * nn + col) by (nonlinear_arith);
            }
        }
        match (dofs[row], dofs[col]) {
            (Dof::Free(gi), Dof::Free(gj)) => {
                lemma_flat_index_bounds(gi as int, gj as int, n, n);
                if gi * n + gj == i * n + j {
                    assert(gi as int == i && gj as int == j) by (nonlinear_arith)
                        requires
                            gi * n + gj == i * n + j,
                            0 <= gj < n,
                            0 <= j < n,
                            0 <= gi,
                            0 <= i,
                    ;
                    assert(dofs[row] == Dof::Free(i as usize) && dofs[col] == Dof::Free(
                        j as usize,
                    ));
                    assert(row == r0 && col == c0);
                }
            },
            _ => {},
        }
    }
}

/// Local write-only view into a global matrix (mass, damping, stiffness)
/// as defined by a list of dofs.
pub struct MatrixView {
    pub dofs: Vec<Dof>,
}

impl MatrixView {
    /// Creates a new view for the given dofs.
    pub fn new(dofs: Vec<Dof>) -> (r: MatrixView)
        ensures
            r.dofs@ == dofs@,
    {
        MatrixView { dofs }
    }

    /// Adds the local contributions of all dofs of the view to the global
    /// matrix. A contribution reaches the global matrix only where both its
    /// row dof and its column dof are free; every block touching a fixed
    /// dof is dropped.
    pub fn add(&self, global: &mut Matrix, local: &Matrix)
        requires
            old(global).wf(),
            local.wf(),
            old(global).rows == old(global).cols,
            local.rows == self.dofs@.len(),
            local.cols == self.dofs@.len(),
            forall|k: int|
                0 <= k < self.dofs@.len() ==> dof_in_range(
                    #[trigger] self.dofs@[k],
                    old(global).cols as int,
                ),
            matrix_view_fits(
                int_values(old(global).data@),
                old(global).cols as int,
                self.dofs@,
                int_values(local.data@),
            ),
        ensures
            final(global).wf(),
            final(global).rows == old(global).rows,
            final(global).cols == old(global).cols,
            int_values(final(global).data@) == matrix_view_applied(
                int_values(old(global).data@),
                old(global).cols as int,
                self.dofs@,
                int_values(local.data@),
                local.data@.len() as int,
            ),
    {
        let nloc: usize = self.dofs.len();
        let n: usize = global.cols;
        let ghost g0 = int_values(global.data@);
        let ghost l = int_values(local.data@);
        proof {
            assert(local.data@.len() == nloc * nloc);
            assert(g0.len() == n * n);
        }
        let mut row: usize = 0;
        while row < nloc
            invariant
                row <= nloc,
                nloc == self.dofs@.len(),
                local.wf(),
                local.rows == nloc,
                local.cols == nloc,
                g0 == int_values(old(global).data@),
                l == int_values(local.data@),
                l.len() == nloc * nloc,
                global.wf(),
                global.rows == old(global).rows,
                global.cols == old(global).cols,
                global.rows == global.cols,
                n == global.cols,
                forall|k: int|
                    0 <= k < self.dofs@.len() ==> dof_in_range(#[trigger] self.dofs@[k], n as int),
                matrix_view_fits(g0, n as int, self.dofs@, l),
                g0.len() == n * n,
                int_values(global.data@) == matrix_view_applied(
                    g0,
                    n as int,
                    self.dofs@,
                    l,
                    row * nloc,
                ),
            decreases nloc - row,
        {
            let mut col: usize = 0;
            while col < nloc
                invariant
                    row < nloc,
                    col <= nloc,
                    nloc == self.dofs@.len(),
                    local.wf(),
                    local.rows == nloc,
                    local.cols == nloc,
                    g0 == int_values(old(global).data@),
                    l == int_values(local.data@),
                    l.len() == nloc * nloc,
                    global.wf(),
                    global.rows == old(global).rows,
                    global.cols == old(global).cols,
                    global.rows == global.cols,
                    n == global.cols,
                    forall|k: int|
                        0 <= k < self.dofs@.len() ==> dof_in_range(
                            #[trigger] self.dofs@[k],
                            n as int,
                        ),
                    matrix_view_fits(g0, n as int, self.dofs@, l),
                    g0.len() == n * n,
                    int_values(global.data@) == matrix_view_applied(
                        g0,
                        n as int,
                        self.dofs@,
                        l,
                        row * nloc + col,
                    ),
                decreases nloc - col,
            {
                let ghost t = row * nloc + col;
                proof {
                    lemma_flat_index_bounds(row as int, col as int, nloc as int, nloc as int);
                    lemma_fundamental_div_mod_converse(
                        t as int,
                        nloc as int,
                        row as int,
                        col as int,
                    );
                    lemma_matrix_view_applied_len(g0, n as int, self.dofs@, l, t as int);
                    assert(matrix_view_applied(g0, n as int, self.dofs@, l, t + 1)
                        == (match (self.dofs@[row as int], self.dofs@[col as int]) {
                        (Dof::Free(i), Dof::Free(j)) => matrix_view_applied(
                            g0,
                            n as int,
                            self.dofs@,
                            l,
                            t as int,
                        ).update(
                            i * n + j,
                            matrix_view_applied(g0, n as int, self.dofs@, l, t as int)[i * n + j]
                                + l[t as int],
                        ),
                        _ => matrix_view_applied(g0, n as int, self.dofs@, l, t as int),
                    }));
                }
                match (self.dofs[row], self.dofs[col]) {
                    (Dof::Free(i), Dof::Free(j)) => {
                        proof {
                            lemma_flat_index_bounds(i as int, j as int, n as int, n as int);
                            assert(int_values(global.data@)[i * n + j] == global.data@[i * n + j]);
                            assert(l[t as int] == local.data@[t as int]);
                            assert(matrix_view_applied(g0, n as int, self.dofs@, l, t + 1)[i * n
                                + j] == global.data@[i * n + j] + local.data@[t as int]);
                            assert(i64::MIN <= global.data@[i * n + j] + local.data@[t as int]
                                <= i64::MAX);
                        }
                        let cur: i64 = global.get(i, j);
                        let contribution: i64 = local.get(row, col);
                        global.set(i, j, cur + contribution);
                        proof {
                            assert(int_values(global.data@) =~= matrix_view_applied(
                                g0,
                                n as int,
                                self.dofs@,
                                l,
                                t + 1,
                            ));
                        }
                    },
                    _ => {
                        // The local value has no link to the global matrix.
                    },
                }
                col += 1;
            }
            proof {
                assert(row * nloc + nloc == (row + 1) * nloc) by (nonlinear_arith);
            }
            row += 1;
        }
    }
}

} // verus!
