use hog_svm::config::{stage_order, PipelineConfig, Stage};
use hog_svm::detector::{
    create_hog_detector, get_svm_detector, ClassifierView, Coefficient, DecisionFunction,
};
use hog_svm::error::PipelineError;
use hog_svm::geometry::{sample_descriptor, HogGeometry};
use hog_svm::matrix::{convert_train_set, Matrix};
use hog_svm::results::{result_file_name, result_file_names};
use hog_svm::samples::{get_files, ListedEntry};
use hog_svm::training::build_training_set;

fn col(v: Vec<f32>) -> Matrix<f32> {
    Matrix::column(v)
}

fn row(v: Vec<f32>) -> Matrix<f32> {
    Matrix::row_vector(v)
}

fn model(sv: Matrix<u32>, single: bool, alpha: Vec<Coefficient>, idx: Vec<i32>, rho: f32) -> ClassifierView {
    ClassifierView {
        support_vectors: sv,
        single_precision: single,
        decision: DecisionFunction { alpha, sv_index: idx, rho: rho.to_bits() },
    }
}

#[test]
fn reference_descriptor_length() {
    let g = HogGeometry::reference();
    assert!(g.is_valid());
    assert_eq!(g.descriptor_len(), Some(24336));
}

#[test]
fn other_geometry_length() {
    // 3 x 3 block positions, 4 cells per block, 9 bins.
    let g = HogGeometry {
        win_width: 32,
        win_height: 32,
        block_width: 16,
        block_height: 16,
        stride_width: 8,
        stride_height: 8,
        cell_width: 8,
        cell_height: 8,
        nbins: 9,
    };
    assert_eq!(g.descriptor_len(), Some(324));
}

#[test]
fn invalid_geometry_has_no_length() {
    let mut g = HogGeometry::reference();
    g.stride_width = 5;
    assert!(!g.is_valid());
    assert_eq!(g.descriptor_len(), None);
    let mut h = HogGeometry::reference();
    h.cell_height = 0;
    assert_eq!(h.descriptor_len(), None);
}

#[test]
fn sample_descriptor_is_a_column_of_the_layout_length() {
    let g = HogGeometry::reference();
    let m = sample_descriptor(&g, vec![0.25f32; 24336]).unwrap();
    assert_eq!((m.rows, m.cols), (24336, 1));
    assert!(m.is_vector_shaped());
    assert!(matches!(
        sample_descriptor(&g, vec![0.25f32; 24335]),
        Err(PipelineError::CollaboratorFailure)
    ));
}

#[test]
fn training_set_shape_and_labels() {
    let pos = vec![col(vec![1.0, 2.0, 3.0]), row(vec![4.0, 5.0, 6.0])];
    let neg = vec![col(vec![7.0, 8.0, 9.0])];
    let t = build_training_set(pos, neg).unwrap();
    assert_eq!((t.samples.rows, t.samples.cols), (3, 3));
    assert_eq!(t.samples.data, vec![1.0, 2.0, 3.0, 4.0, 5.0, 6.0, 7.0, 8.0, 9.0]);
    assert_eq!(t.labels, vec![0, 0, 1]);
}

#[test]
fn column_and_row_vectors_give_the_same_rows() {
    let a = convert_train_set(&vec![col(vec![1.5, -2.0]), col(vec![0.0, 3.0])]).unwrap();
    let b = convert_train_set(&vec![row(vec![1.5, -2.0]), row(vec![0.0, 3.0])]).unwrap();
    assert_eq!((a.rows, a.cols), (b.rows, b.cols));
    assert_eq!(a.data, b.data);
}

#[test]
fn mismatched_lengths_are_refused() {
    let r = build_training_set(vec![col(vec![1.0, 2.0])], vec![col(vec![1.0, 2.0, 3.0])]);
    assert!(matches!(r, Err(PipelineError::ShapeMismatch)));
}

#[test]
fn non_vector_matrix_is_refused() {
    let m = Matrix::new(2, 2, vec![1.0f32, 2.0, 3.0, 4.0]).unwrap();
    assert!(matches!(convert_train_set(&vec![m]), Err(PipelineError::ShapeMismatch)));
}

#[test]
fn empty_training_set_is_refused() {
    let r = build_training_set::<f32>(vec![], vec![]);
    assert!(matches!(r, Err(PipelineError::NoValidFiles)));
}

#[test]
fn matrix_new_checks_storage() {
    assert!(matches!(Matrix::new(2, 3, vec![0u32; 5]), Err(PipelineError::ShapeMismatch)));
    let m = Matrix::new(2, 3, vec![0u32; 6]).unwrap();
    assert_eq!((m.rows, m.cols), (2, 3));
}

#[test]
fn detector_is_support_vector_then_negated_bias() {
    let sv = Matrix::row_vector(vec![0.5f32.to_bits(), (-1.0f32).to_bits()]);
    let m = model(sv, true, vec![Coefficient::Single(1.0f32.to_bits())], vec![0], 0.75);
    let d = get_svm_detector(&m).unwrap();
    assert_eq!(
        d,
        vec![0.5f32.to_bits(), (-1.0f32).to_bits(), (-0.75f32).to_bits()]
    );
}

#[test]
fn double_precision_unit_coefficient_is_accepted() {
    let sv = Matrix::row_vector(vec![2.0f32.to_bits()]);
    let m = model(sv, true, vec![Coefficient::Double(1.0f64.to_bits())], vec![0], -3.0);
    let d = get_svm_detector(&m).unwrap();
    assert_eq!(d, vec![2.0f32.to_bits(), 3.0f32.to_bits()]);
}

#[test]
fn two_support_vectors_are_refused() {
    let sv = Matrix::new(2, 1, vec![1.0f32.to_bits(), 2.0f32.to_bits()]).unwrap();
    let m = model(sv, true, vec![Coefficient::Single(1.0f32.to_bits())], vec![0], 0.0);
    assert!(matches!(get_svm_detector(&m), Err(PipelineError::ExtractionInvariantViolation)));
    let g = HogGeometry::reference();
    assert!(matches!(
        create_hog_detector(&m, &g),
        Err(PipelineError::ExtractionInvariantViolation)
    ));
}

#[test]
fn non_unit_coefficient_is_refused() {
    let sv = Matrix::row_vector(vec![1.0f32.to_bits()]);
    let m = model(sv, true, vec![Coefficient::Single(0.5f32.to_bits())], vec![0], 0.0);
    assert!(matches!(get_svm_detector(&m), Err(PipelineError::ExtractionInvariantViolation)));
    let sv = Matrix::row_vector(vec![1.0f32.to_bits()]);
    let m = model(sv, true, vec![Coefficient::Other], vec![0], 0.0);
    assert!(matches!(get_svm_detector(&m), Err(PipelineError::ExtractionInvariantViolation)));
}

#[test]
fn several_coefficients_or_double_vectors_are_refused() {
    let one = Coefficient::Single(1.0f32.to_bits());
    let sv = Matrix::row_vector(vec![1.0f32.to_bits()]);
    let m = model(sv, true, vec![one, one], vec![0, 1], 0.0);
    assert!(matches!(get_svm_detector(&m), Err(PipelineError::ExtractionInvariantViolation)));
    let sv = Matrix::row_vector(vec![1.0f32.to_bits()]);
    let m = model(sv, false, vec![one], vec![0], 0.0);
    assert!(matches!(get_svm_detector(&m), Err(PipelineError::ExtractionInvariantViolation)));
}

#[test]
fn two_positives_two_negatives_give_a_detector_of_length_l_plus_one() {
    let g = HogGeometry::reference();
    let l = g.descriptor_len().unwrap();
    let pos: Vec<Matrix<f32>> = (0..2).map(|_| sample_descriptor(&g, vec![1.0f32; l]).unwrap()).collect();
    let neg: Vec<Matrix<f32>> = (0..2).map(|_| sample_descriptor(&g, vec![0.0f32; l]).unwrap()).collect();
    let t = build_training_set(pos, neg).unwrap();
    assert_eq!((t.samples.rows, t.samples.cols), (4, l));
    assert_eq!(t.labels, vec![0, 0, 1, 1]);
    let sv = Matrix::row_vector(vec![0.01f32.to_bits(); l]);
    let m = model(sv, true, vec![Coefficient::Single(1.0f32.to_bits())], vec![0], 1.0);
    let d = create_hog_detector(&m, &g).unwrap();
    assert_eq!(d.weights.len(), l + 1);
    assert_eq!((d.win_width, d.win_height), (64, 64));
    assert_eq!(d.weights[l], (-1.0f32).to_bits());
}

#[test]
fn empty_target_directory_has_no_valid_files() {
    assert!(matches!(get_files(true, &vec![]), Err(PipelineError::NoValidFiles)));
    let only_dirs = vec![ListedEntry { path: "t/sub".to_string(), is_dir: true }];
    assert!(matches!(get_files(true, &only_dirs), Err(PipelineError::NoValidFiles)));
}

#[test]
fn missing_directory_is_invalid_path() {
    let entries = vec![ListedEntry { path: "a.png".to_string(), is_dir: false }];
    assert!(matches!(get_files(false, &entries), Err(PipelineError::InvalidPath)));
}

#[test]
fn listing_skips_directories_and_keeps_order() {
    let entries = vec![
        ListedEntry { path: "d/b.png".to_string(), is_dir: false },
        ListedEntry { path: "d/sub".to_string(), is_dir: true },
        ListedEntry { path: "d/a.png".to_string(), is_dir: false },
    ];
    assert_eq!(get_files(true, &entries).unwrap(), vec!["d/b.png".to_string(), "d/a.png".to_string()]);
}

#[test]
fn no_detection_gives_no_output_file() {
    assert!(result_file_names("resource/result", 0).is_empty());
}

#[test]
fn result_files_are_numbered_in_the_results_directory() {
    assert_eq!(result_file_name("resource/result", 0), "resource/result/0.png");
    assert_eq!(result_file_name("out", 1207), "out/1207.png");
    assert_eq!(
        result_file_names("r", 3),
        vec!["r/0.png".to_string(), "r/1.png".to_string(), "r/2.png".to_string()]
    );
}

#[test]
fn stages_run_in_fixed_order() {
    assert_eq!(stage_order(true, true, true), vec![Stage::TrainClassifier, Stage::MakeDetector, Stage::Detect]);
    assert_eq!(stage_order(true, false, true), vec![Stage::TrainClassifier, Stage::Detect]);
    assert!(stage_order(false, false, false).is_empty());
}

#[test]
fn reference_configuration_paths() {
    let c = PipelineConfig::reference();
    assert_eq!(c.positive_dir, "resource/base");
    assert_eq!(c.negative_dir, "resource/negative");
    assert_eq!(c.target_dir, "resource/target");
    assert_eq!(c.classifier_path, "resource/svm_traindata.xml");
    assert_eq!(c.detector_path, "resource/hog_svm_detector.yml");
    assert_eq!(c.results_dir, "resource/result");
}

#[test]
fn error_messages_name_the_kind() {
    assert_eq!(PipelineError::InvalidPath.message(), "invalid file path.");
    assert_eq!(PipelineError::NoValidFiles.message(), "no valid files in given directory.");
    assert!(!PipelineError::ShapeMismatch.message().is_empty());
}
