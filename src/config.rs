use vstd::prelude::*;

verus! {

/// Where each stage reads and writes: the three sample directories, the two
/// persisted artifacts and the directory of annotated results.
pub struct PipelineConfig {
    pub positive_dir: String,
    pub negative_dir: String,
    pub target_dir: String,
    pub classifier_path: String,
    pub detector_path: String,
    pub results_dir: String,
}

impl PipelineConfig {
    /// The conventional layout under `resource/`.
    pub fn reference() -> (r: PipelineConfig)
        ensures
            r.positive_dir@ == "resource/base"@,
            r.negative_dir@ == "resource/negative"@,
            r.target_dir@ == "resource/target"@,
            r.classifier_path@ == "resource/svm_traindata.xml"@,
            r.detector_path@ == "resource/hog_svm_detector.yml"@,
            r.results_dir@ == "resource/result"@,
    {
        PipelineConfig {
            positive_dir: "resource/base".to_owned(),
            negative_dir: "resource/negative".to_owned(),
            target_dir: "resource/target".to_owned(),
            classifier_path: "resource/svm_traindata.xml".to_owned(),
            detector_path: "resource/hog_svm_detector.yml".to_owned(),
            results_dir: "resource/result".to_owned(),
        }
    }
}

/// A stage that one run of the pipeline can perform.
#[derive(Debug, Clone, Copy, PartialEq, Eq, Structural)]
pub enum Stage {
    TrainClassifier,
    MakeDetector,
    Detect,
}

/// The selected stages in their fixed order: training, then conversion, then detection.
pub open spec fn spec_stage_order(train: bool, make_detector: bool, detect: bool) -> Seq<Stage> {
    (if train { seq![Stage::TrainClassifier] } else { Seq::empty() }) + (if make_detector {
        seq![Stage::MakeDetector]
    } else {
        Seq::empty()
    }) + (if detect { seq![Stage::Detect] } else { Seq::empty() })
}

/// The stages to run for the given selection; see `spec_stage_order`.
pub fn stage_order(train: bool, make_detector: bool, detect: bool) -> (r: Vec<Stage>)
    ensures
        r@ == spec_stage_order(train, make_detector, detect),
{
    let mut stages: Vec<Stage> = Vec::new();
    if train {
        stages.push(Stage::TrainClassifier);
    }
    if make_detector {
        stages.push(Stage::MakeDetector);
    }
    if detect {
        stages.push(Stage::Detect);
    }
    assert(stages@ =~= spec_stage_order(train, make_detector, detect));
    stages
}

} // verus!
