use vstd::prelude::*;
use crate::error::PipelineError;
use crate::matrix::{Matrix, convert_train_set, train_set_result};

verus! {

/// The class label of a sample from the positive directory.
pub const POSITIVE_LABEL: i32 = 0;

/// The class label of a sample from the negative directory.
pub const NEGATIVE_LABEL: i32 = 1;

/// What a margin classifier is trained on: one matrix row per sample and the
/// label of each row, in the same order.
pub struct TrainingSet<T> {
    pub samples: Matrix<T>,
    pub labels: Vec<i32>,
}

/// `p` positive labels followed by `n` negative ones.
pub open spec fn labels_for(p: nat, n: nat) -> Seq<i32> {
    Seq::new(p + n, |i: int| if i < p { POSITIVE_LABEL } else { NEGATIVE_LABEL })
}

/// Stacks the positive feature vectors and then the negative ones into one
/// training matrix, and labels the rows: positives first, negatives second.
pub fn build_training_set<T: Copy>(positive: Vec<Matrix<T>>, negative: Vec<Matrix<T>>) -> (r:
    Result<TrainingSet<T>, PipelineError>)
    ensures
        match r {
            Ok(t) => train_set_result(positive@ + negative@, Ok(t.samples)) && t.labels@
                == labels_for(positive@.len(), negative@.len()),
            Err(e) => train_set_result(positive@ + negative@, Err(e)),
        },
{
    let ghost all = positive@ + negative@;
    let p = positive.len();
    let mut samples = positive;
    let mut rest = negative;
    samples.append(&mut rest);
    assert(samples@ == all);
    let total = samples.len();
    let mut labels: Vec<i32> = Vec::new();
    let mut i: usize = 0;
    while i < total
        invariant
            p <= total,
            total == all.len(),
            all.len() == positive@.len() + negative@.len(),
            p == positive@.len(),
            0 <= i <= total,
            labels@ == labels_for(positive@.len(), negative@.len()).subrange(0, i as int),
        decreases total - i,
    {
        if i < p {
            labels.push(POSITIVE_LABEL);
        } else {
            labels.push(NEGATIVE_LABEL);
        }
        i = i + 1;
        assert(labels@ =~= labels_for(positive@.len(), negative@.len()).subrange(0, i as int));
    }
    assert(labels@ =~= labels_for(positive@.len(), negative@.len()));
    match convert_train_set(&samples) {
        Ok(m) => Ok(TrainingSet { samples: m, labels }),
        Err(e) => Err(e),
    }
}

/// A training set built from positive and negative vectors of one common
/// length `L` has `P + N` rows of length `L`: row `i < P` is the `i`-th positive
/// vector labeled 0, row `P + j` the `j`-th negative vector labeled 1.
pub proof fn lemma_rows_follow_labels<T>(
    positive: Seq<Matrix<T>>,
    negative: Seq<Matrix<T>>,
    t: TrainingSet<T>,
)
    requires
        positive.len() > 0,
        train_set_result(positive + negative, Ok(t.samples)),
        t.labels@ == labels_for(positive.len(), negative.len()),
    ensures
        t.samples.rows == positive.len() + negative.len(),
        t.samples.cols == positive[0].data@.len(),
        t.labels@.len() == t.samples.rows,
        forall|i: int|
            0 <= i < positive.len() ==> #[trigger] t.samples.row(i) == positive[i].canonical_row()
                && t.labels@[i] == POSITIVE_LABEL,
        forall|j: int|
            0 <= j < negative.len() ==> #[trigger] t.samples.row(positive.len() + j)
                == negative[j].canonical_row() && t.labels@[positive.len() + j] == NEGATIVE_LABEL,
{
    let all = positive + negative;
    assert(all[0] == positive[0]);
    assert forall|i: int| 0 <= i < positive.len() implies #[trigger] t.samples.row(i)
        == positive[i].canonical_row() && t.labels@[i] == POSITIVE_LABEL by {
        assert(all[i] == positive[i]);
        assert(t.samples.row(i) == all[i].canonical_row());
    }
    assert forall|j: int| 0 <= j < negative.len() implies #[trigger] t.samples.row(
        positive.len() + j,
    ) == negative[j].canonical_row() && t.labels@[positive.len() + j] == NEGATIVE_LABEL by {
        let k = positive.len() + j;
        assert(all[k] == negative[j]);
        assert(t.samples.row(k) == all[k].canonical_row());
    }
}

} // verus!
