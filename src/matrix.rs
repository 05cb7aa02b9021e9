use vstd::prelude::*;
use crate::error::PipelineError;

verus! {

/// A dense two-dimensional array stored row by row.
pub struct Matrix<T> {
    pub rows: usize,
    pub cols: usize,
    pub data: Vec<T>,
}

impl<T> Matrix<T> {
    /// The storage holds exactly `rows * cols` entries.
    pub open spec fn wf(&self) -> bool {
        self.data@.len() == self.rows as int * self.cols as int
    }

    /// A single row or a single column whose storage matches its shape.
    pub open spec fn vector_shaped(&self) -> bool {
        ||| (self.rows == 1 && self.data@.len() == self.cols as int)
        ||| (self.cols == 1 && self.data@.len() == self.rows as int)
    }

    /// The entries of a row or column vector read as one row. Row-major storage
    /// of a 1 x n and of an n x 1 matrix both list the entries in order, so
    /// transposing a column into a row leaves the storage as it is.
    pub open spec fn canonical_row(&self) -> Seq<T> {
        self.data@
    }

    /// Row `i` of a well-formed matrix.
    pub open spec fn row(&self, i: int) -> Seq<T> {
        self.data@.subrange(i * self.cols as int, (i + 1) * self.cols as int)
    }

    /// A matrix of the given shape, when `data` holds exactly `rows * cols` entries.
    pub fn new(rows: usize, cols: usize, data: Vec<T>) -> (r: Result<Matrix<T>, PipelineError>)
        ensures
            data@.len() == rows as int * cols as int ==> (r matches Ok(m) && m.rows == rows
                && m.cols == cols && m.data@ == data@),
            data@.len() != rows as int * cols as int ==> r == Err::<Matrix<T>, PipelineError>(
                PipelineError::ShapeMismatch,
            ),
    {
        let len = data.len();
        match rows.checked_mul(cols) {
            Some(n) => {
                if n == len {
                    Ok(Matrix { rows, cols, data })
                } else {
                    Err(PipelineError::ShapeMismatch)
                }
            },
            None => Err(PipelineError::ShapeMismatch),
        }
    }

    /// The values as one column, `n x 1`: the shape a descriptor primitive hands back.
    pub fn column(data: Vec<T>) -> (r: Matrix<T>)
        ensures
            r.rows == data@.len(),
            r.cols == 1,
            r.data@ == data@,
            r.wf(),
            r.vector_shaped(),
    {
        Matrix { rows: data.len(), cols: 1, data }
    }

    /// The values as one row, `1 x n`.
    pub fn row_vector(data: Vec<T>) -> (r: Matrix<T>)
        ensures
            r.rows == 1,
            r.cols == data@.len(),
            r.data@ == data@,
            r.wf(),
            r.vector_shaped(),
    {
        Matrix { rows: 1, cols: data.len(), data }
    }

    /// Whether the matrix is a row or a column vector; see `vector_shaped`.
    pub fn is_vector_shaped(&self) -> (r: bool)
        ensures
            r == self.vector_shaped(),
    {
        (self.rows == 1 && self.data.len() == self.cols) || (self.cols == 1 && self.data.len()
            == self.rows)
    }

    /// The number of entries of a vector, whichever its orientation.
    pub fn vector_len(&self) -> (r: usize)
        ensures
            r == self.data@.len(),
    {
        self.data.len()
    }
}

/// Every matrix of `s` is a row or a column, and all hold as many entries as the first.
pub open spec fn uniform_vectors<T>(s: Seq<Matrix<T>>) -> bool {
    forall|i: int|
        0 <= i < s.len() ==> (#[trigger] s[i]).vector_shaped() && s[i].data@.len()
            == s[0].data@.len()
}

/// The canonical rows of `s`, one after another.
pub open spec fn stacked_rows<T>(s: Seq<Matrix<T>>) -> Seq<T>
    decreases s.len(),
{
    if s.len() == 0 {
        Seq::empty()
    } else {
        stacked_rows(s.drop_last()) + s.last().canonical_row()
    }
}

/// What building a training matrix from `s` yields: its failure, or its shape and storage.
pub open spec fn train_set_result<T>(s: Seq<Matrix<T>>, r: Result<Matrix<T>, PipelineError>) -> bool {
    if s.len() == 0 {
        r == Err::<Matrix<T>, PipelineError>(PipelineError::NoValidFiles)
    } else if !uniform_vectors(s) {
        r == Err::<Matrix<T>, PipelineError>(PipelineError::ShapeMismatch)
    } else {
        r matches Ok(m) && m.rows == s.len() && m.cols == s[0].data@.len() && m.wf()
            && m.data@ == stacked_rows(s) && forall|i: int|
            0 <= i < s.len() ==> #[trigger] m.row(i) == s[i].canonical_row()
    }
}

proof fn lemma_stacked_len<T>(s: Seq<Matrix<T>>, n: int)
    requires
        forall|i: int| 0 <= i < s.len() ==> (#[trigger] s[i]).data@.len() == n,
    ensures
        stacked_rows(s).len() == s.len() * n,
    decreases s.len(),
{
    if s.len() > 0 {
        let p = s.drop_last();
        assert forall|i: int| 0 <= i < p.len() implies (#[trigger] p[i]).data@.len() == n by {
            assert(p[i] == s[i]);
        }
        lemma_stacked_len(p, n);
        assert(stacked_rows(s).len() == (s.len() - 1) * n + n);
        assert((s.len() - 1) * n + n == s.len() * n) by (nonlinear_arith);
    }
}

proof fn lemma_stacked_row<T>(s: Seq<Matrix<T>>, n: int, i: int)
    requires
        n >= 0,
        0 <= i < s.len(),
        forall|j: int| 0 <= j < s.len() ==> (#[trigger] s[j]).data@.len() == n,
    ensures
        stacked_rows(s).subrange(i * n, (i + 1) * n) == s[i].canonical_row(),
    decreases s.len(),
{
    let p = s.drop_last();
    assert forall|j: int| 0 <= j < p.len() implies (#[trigger] p[j]).data@.len() == n by {
        assert(p[j] == s[j]);
    }
    lemma_stacked_len(p, n);
    assert(i * n + n == (i + 1) * n) by (nonlinear_arith);
    if i == s.len() - 1 {
        assert(stacked_rows(s).subrange(i * n, (i + 1) * n) =~= s[i].canonical_row());
    } else {
        lemma_stacked_row(p, n, i);
        assert(i + 1 <= p.len());
        assert((i + 1) * n <= p.len() * n) by (nonlinear_arith)
            requires
                i + 1 <= p.len(),
                n >= 0,
        ;
        assert(0 <= i * n) by (nonlinear_arith)
            requires
                i >= 0,
                n >= 0,
        ;
        assert(stacked_rows(s).subrange(i * n, (i + 1) * n) =~= stacked_rows(p).subrange(
            i * n,
            (i + 1) * n,
        ));
        assert(p[i] == s[i]);
    }
}

/// Stacks feature vectors, each a row or a column, into one matrix with one
/// row per vector, in order. Column vectors are transposed into rows.
pub fn convert_train_set<T: Copy>(train_data: &Vec<Matrix<T>>) -> (r: Result<Matrix<T>, PipelineError>)
    ensures
        train_set_result(train_data@, r),
{
    if train_data.len() == 0 {
        return Err(PipelineError::NoValidFiles);
    }
    let cols = train_data[0].vector_len();
    let mut k: usize = 0;
    while k < train_data.len()
        invariant
            0 <= k <= train_data@.len(),
            cols == train_data@[0].data@.len(),
            forall|i: int|
                0 <= i < k ==> (#[trigger] train_data@[i]).vector_shaped()
                    && train_data@[i].data@.len() == cols,
        decreases train_data@.len() - k,
    {
        if !train_data[k].is_vector_shaped() || train_data[k].vector_len() != cols {
            return Err(PipelineError::ShapeMismatch);
        }
        k = k + 1;
    }
    let ghost s = train_data@;
    let mut data: Vec<T> = Vec::new();
    let mut i: usize = 0;
    while i < train_data.len()
        invariant
            0 <= i <= s.len(),
            s == train_data@,
            uniform_vectors(s),
            cols == s[0].data@.len(),
            data@ == stacked_rows(s.subrange(0, i as int)),
        decreases s.len() - i,
    {
        let m = &train_data[i];
        let ghost before = data@;
        let mut j: usize = 0;
        while j < m.data.len()
            invariant
                0 <= j <= m.data@.len(),
                data@ == before + m.data@.subrange(0, j as int),
            decreases m.data@.len() - j,
        {
            data.push(m.data[j]);
            j = j + 1;
            assert(data@ =~= before + m.data@.subrange(0, j as int));
        }
        assert(m.data@.subrange(0, j as int) =~= m.data@);
        assert(s.subrange(0, i + 1).drop_last() =~= s.subrange(0, i as int));
        i = i + 1;
    }
    assert(s.subrange(0, s.len() as int) =~= s);
    proof {
        assert forall|j: int| 0 <= j < s.len() implies (#[trigger] s[j]).data@.len() == cols by {}
        lemma_stacked_len(s, cols as int);
        assert forall|j: int| 0 <= j < s.len() implies #[trigger] stacked_rows(s).subrange(
            j * cols,
            (j + 1) * cols,
        ) == s[j].canonical_row() by {
            lemma_stacked_row(s, cols as int, j);
        }
    }
    let r = Matrix { rows: train_data.len(), cols, data };
    assert forall|j: int| 0 <= j < s.len() implies #[trigger] r.row(j) == s[j].canonical_row() by {
        assert(stacked_rows(s).subrange(j * cols, (j + 1) * cols) == s[j].canonical_row());
    }
    Ok(r)
}

/// A row vector and a column vector of the same entries stack into the same
/// training row: for two sets that differ only in the orientation of their
/// vectors, building a training matrix succeeds or fails alike and yields the
/// same storage.
pub proof fn lemma_orientation_irrelevant<T>(a: Seq<Matrix<T>>, b: Seq<Matrix<T>>)
    requires
        a.len() == b.len(),
        forall|i: int|
            0 <= i < a.len() ==> (#[trigger] a[i]).data@ == b[i].data@ && ((a[i].rows == b[i].rows
                && a[i].cols == b[i].cols) || (a[i].rows == b[i].cols && a[i].cols == b[i].rows)),
    ensures
        uniform_vectors(a) <==> uniform_vectors(b),
        stacked_rows(a) == stacked_rows(b),
    decreases a.len(),
{
    assert forall|i: int| 0 <= i < a.len() implies (#[trigger] a[i]).vector_shaped() <==> b[i].vector_shaped() by {}
    if uniform_vectors(a) {
        assert forall|i: int| 0 <= i < b.len() implies (#[trigger] b[i]).vector_shaped() && b[i].data@.len()
            == b[0].data@.len() by {
            assert(a[i].vector_shaped() && a[0].data@ == b[0].data@);
        }
    }
    if uniform_vectors(b) {
        assert forall|i: int| 0 <= i < a.len() implies (#[trigger] a[i]).vector_shaped() && a[i].data@.len()
            == a[0].data@.len() by {
            assert(b[i].vector_shaped() && a[0].data@ == b[0].data@);
        }
    }
    if a.len() > 0 {
        let pa = a.drop_last();
        let pb = b.drop_last();
        assert forall|i: int| 0 <= i < pa.len() implies (#[trigger] pa[i]).data@ == pb[i].data@ && ((pa[i].rows == pb[i].rows
                && pa[i].cols == pb[i].cols) || (pa[i].rows == pb[i].cols && pa[i].cols == pb[i].rows)) by {
            assert(pa[i] == a[i] && pb[i] == b[i]);
        }
        lemma_orientation_irrelevant(pa, pb);
        assert(a.last().data@ == b.last().data@);
    }
}

} // verus!
