//! The error kinds of the crate.

use vstd::prelude::*;

verus! {

/// Everything that can go wrong while building or driving a population.
/// Construction-time validation returns one of these before any object is
/// created; boundary-layer failures reuse the same enumeration.
#[derive(Clone, Copy, Debug, PartialEq, Eq, Structural)]
pub enum BrainsError {
    NoError,
    InternalError,
    PopulationPointerNull,
    PopulationPointerAlreadyInitialized,
    InvalidConfigPath,
    CannotReadConfigFile,
    InvalidConfigJson,
    PopulationSizeZero,
    MinWeightLargerThanMaxWeight,
    ConfigPathNull,
    InvalidElitismRatio,
    NeuralNetworkConfigNoLayers,
    NeuralNetworkConfigEmptyLayer,
    NeuralNetworkConfigInputCountNull,
    CrossoverInvalidMinNodeRatio,
    CrossoverInvalidMaxNodeRatio,
    CrossoverInvalidMethodProbabilities,
    CrossoverEmptyMethodProbabilities,
    CrossoverInvalidSwapWeightsRatios,
    MutationInvalidProbability,
    MutationInvalidMinWeightsAffectedRatio,
    MutationInvalidMaxWeightsAffectedRatio,
    MutationMethodsEmpty,
    MutationInvalidMethodProbabilities,
    MutationInvalidReplaceMethodMinMax,
    MutationInvalidScaleMethodMinMax,
    MutationInvalidShiftMethodMinMax,
    FitnessPointerNull,
    MissingEvolutionConfig,
    InvalidOutputPath,
    ExportMemberCountZero,
    FileSaveError,
    OutputPathNull,
    PopulationPathNull,
    PopulationPathInvalid,
    CannotReadMembersFile,
    InvalidMembersJson,
    InvalidMemberIndex,
    InputsPointerNull,
    OutputsPointerNull,
    InconsistentNetworkInputCounts,
    InconsistentNetworkOutputCounts,
    PopulationConfigMismatch,
}

} // verus!
