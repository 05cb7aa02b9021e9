use vstd::prelude::*;
use crate::error::PipelineError;
use crate::geometry::HogGeometry;
use crate::matrix::Matrix;

verus! {

/// The sign bit of an IEEE-754 single-precision value.
pub const SIGN_BIT_F32: u32 = 0x8000_0000;

/// The bit pattern of 1.0 in single precision.
pub const ONE_F32: u32 = 0x3F80_0000;

/// The bit pattern of 1.0 in double precision.
pub const ONE_F64: u64 = 0x3FF0_0000_0000_0000;

/// The bit pattern of `-x` for the single-precision value with bit pattern `b`:
/// IEEE-754 negation flips the sign bit and nothing else.
pub open spec fn negated_f32(b: u32) -> u32 {
    b ^ SIGN_BIT_F32
}

/// One coefficient of a trained decision function, as the bit pattern of the
/// floating-point value the classifier stored, or a storage type that is
/// neither single nor double precision.
#[derive(Debug, Clone, Copy, PartialEq, Eq, Structural)]
pub enum Coefficient {
    Single(u32),
    Double(u64),
    Other,
}

impl Coefficient {
    /// The coefficient is exactly 1.0, in either precision. No other bit
    /// pattern compares equal to 1.0.
    pub open spec fn spec_is_unit(&self) -> bool {
        match self {
            Coefficient::Single(b) => *b == ONE_F32,
            Coefficient::Double(b) => *b == ONE_F64,
            Coefficient::Other => false,
        }
    }

    pub fn is_unit(&self) -> (r: bool)
        ensures
            r == self.spec_is_unit(),
    {
        match self {
            Coefficient::Single(b) => *b == ONE_F32,
            Coefficient::Double(b) => *b == ONE_F64,
            Coefficient::Other => false,
        }
    }
}

/// The decision function of a trained two-class classifier for class 0: the
/// coefficients, the indices of the support vectors they weigh, and the bias
/// `rho` as the bit pattern of its single-precision rounding.
pub struct DecisionFunction {
    pub alpha: Vec<Coefficient>,
    pub sv_index: Vec<i32>,
    pub rho: u32,
}

/// What the detector conversion reads of a trained linear classifier: its
/// support vectors, one per row, as single-precision bit patterns when
/// `single_precision` holds, and its decision function for class 0.
pub struct ClassifierView {
    pub support_vectors: Matrix<u32>,
    pub single_precision: bool,
    pub decision: DecisionFunction,
}

impl ClassifierView {
    /// The classifier is one single-precision support vector with coefficient 1.0,
    /// so that its decision function is that vector as a linear filter plus a bias.
    pub open spec fn reduces_to_filter(&self) -> bool {
        &&& self.support_vectors.rows == 1
        &&& self.support_vectors.data@.len() == self.support_vectors.cols
        &&& self.single_precision
        &&& self.decision.alpha@.len() == 1
        &&& self.decision.alpha@[0].spec_is_unit()
        &&& self.decision.sv_index@.len() == 1
    }

    /// The support vector's weights followed by the negated bias.
    pub open spec fn filter(&self) -> Seq<u32> {
        self.support_vectors.data@.push(negated_f32(self.decision.rho))
    }
}

/// Re-expresses a trained linear classifier as one dense filter for window
/// scoring: the support vector's coefficients followed by `-rho`. Fails with
/// `ExtractionInvariantViolation` unless the classifier reduces to a single
/// support vector with unit coefficient.
pub fn get_svm_detector(model: &ClassifierView) -> (r: Result<Vec<u32>, PipelineError>)
    ensures
        model.reduces_to_filter() ==> (r matches Ok(v) && v@ == model.filter()),
        !model.reduces_to_filter() ==> r == Err::<Vec<u32>, PipelineError>(
            PipelineError::ExtractionInvariantViolation,
        ),
{
    let sv = &model.support_vectors;
    let alpha = &model.decision.alpha;
    if !(sv.rows == 1 && sv.data.len() == sv.cols && model.single_precision && alpha.len() == 1
        && model.decision.sv_index.len() == 1) {
        return Err(PipelineError::ExtractionInvariantViolation);
    }
    if !alpha[0].is_unit() {
        return Err(PipelineError::ExtractionInvariantViolation);
    }
    let mut detector: Vec<u32> = Vec::new();
    let mut i: usize = 0;
    while i < sv.cols
        invariant
            sv.data@.len() == sv.cols,
            0 <= i <= sv.cols,
            detector@ == sv.data@.subrange(0, i as int),
        decreases sv.cols - i,
    {
        detector.push(sv.data[i]);
        i = i + 1;
        assert(detector@ =~= sv.data@.subrange(0, i as int));
    }
    detector.push(model.decision.rho ^ SIGN_BIT_F32);
    assert(detector@ =~= model.filter());
    Ok(detector)
}

/// A linear filter ready for sliding-window search, with the window size it scores.
pub struct DetectorDescriptor {
    pub win_width: usize,
    pub win_height: usize,
    pub weights: Vec<u32>,
}

/// Builds the detector descriptor of a trained classifier for windows of the
/// extraction layout's size; see `get_svm_detector`.
pub fn create_hog_detector(model: &ClassifierView, geometry: &HogGeometry) -> (r: Result<
    DetectorDescriptor,
    PipelineError,
>)
    ensures
        model.reduces_to_filter() ==> (r matches Ok(d) && d.win_width == geometry.win_width
            && d.win_height == geometry.win_height && d.weights@ == model.filter()
            && d.weights@.len() == model.support_vectors.cols + 1),
        !model.reduces_to_filter() ==> r == Err::<DetectorDescriptor, PipelineError>(
            PipelineError::ExtractionInvariantViolation,
        ),
{
    match get_svm_detector(model) {
        Ok(weights) => Ok(
            DetectorDescriptor {
                win_width: geometry.win_width,
                win_height: geometry.win_height,
                weights,
            },
        ),
        Err(e) => Err(e),
    }
}

} // verus!
