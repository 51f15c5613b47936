use vstd::prelude::*;

verus! {

/// Why a model file could not be imported.
#[derive(Debug, Clone, Copy, PartialEq, Eq, Structural)]
pub enum PhyzzyLoaderError {
    /// The file's text is not a model description.
    JSONReaderError,
    /// The file could not be read.
    FileReaderError,
    /// The description names a spring the model refuses.
    ModelBuildError,
}

/// Who made a model, and when.
pub struct PhyzzyMeta {
    pub name: String,
    pub creator: String,
    pub created: String,
}

impl Default for PhyzzyMeta {
    /// The description of a model that came from no file.
    fn default() -> (m: PhyzzyMeta)
        ensures
            m.name@ == "No name"@,
            m.creator@ == "anonymous"@,
            m.created@ == "no date"@,
    {
        PhyzzyMeta {
            name: "No name".to_owned(),
            creator: "anonymous".to_owned(),
            created: "no date".to_owned(),
        }
    }
}

/// Kind of a muscle as a model file writes it.
#[derive(Debug, Clone, Copy, PartialEq, Eq, Structural)]
pub enum MuscleDataType {
    Classic,
    Relaxation,
}

/// Kind of a muscle as the model runs it.
#[derive(Debug, Clone, Copy, PartialEq, Eq, Structural)]
pub enum MuscleType {
    ClassicMuscle,
    RelaxationMuscle,
}

/// Kind of a bladder as a model file writes it.
#[derive(Debug, Clone, Copy, PartialEq, Eq, Structural)]
pub enum BladderDataType {
    Balloon,
    Tank,
}

/// Kind of a bladder as the model runs it.
#[derive(Debug, Clone, Copy, PartialEq, Eq, Structural)]
pub enum BladderType {
    Balloon,
    Tank,
}

/// Reads model files.
pub struct PhyzzyIO;

impl PhyzzyIO {
    /// The muscle kind the model runs for the kind a file names.
    pub fn muscle_type(data: MuscleDataType) -> (t: MuscleType)
        ensures
            data == MuscleDataType::Classic ==> t == MuscleType::ClassicMuscle,
            data == MuscleDataType::Relaxation ==> t == MuscleType::RelaxationMuscle,
    {
        match data {
            MuscleDataType::Classic => MuscleType::ClassicMuscle,
            MuscleDataType::Relaxation => MuscleType::RelaxationMuscle,
        }
    }

    /// The bladder kind the model runs for the kind a file names.
    pub fn bladder_type(data: BladderDataType) -> (t: BladderType)
        ensures
            data == BladderDataType::Balloon ==> t == BladderType::Balloon,
            data == BladderDataType::Tank ==> t == BladderType::Tank,
    {
        match data {
            BladderDataType::Balloon => BladderType::Balloon,
            BladderDataType::Tank => BladderType::Tank,
        }
    }
}

} // verus!
