//! Model, backend and checkpoint-format choices.
use vstd::prelude::*;
use crate::game::VERTEX_COUNT;
use crate::text::{chars_of, range_eq};

verus! {

/// Number of inputs of the multilayer perceptron: three per vertex.
pub const MLP_INPUT_SIZE: usize = 264;

/// Number of features per vertex of the graph network.
pub const FEATURE_DIM: usize = 8;

/// Hidden width of the graph network by default.
pub const DEFAULT_HIDDEN_DIM: usize = 128;

/// The tensor backend a model runs on.
#[derive(Debug, Clone, Copy, PartialEq, Eq, Structural)]
pub enum BackendKind {
    Flex,
    Cuda,
}

/// The device that runs inference or training.
#[derive(Debug, Clone, Copy, PartialEq, Eq, Structural)]
pub enum DeviceKind {
    Cpu,
    Cuda,
}

impl DeviceKind {
    pub open spec fn spec_as_str(self) -> Seq<char> {
        match self {
            DeviceKind::Cpu => "cpu"@,
            DeviceKind::Cuda => "cuda"@,
        }
    }

    /// The device's name as written on the command line.
    pub fn as_str(&self) -> (s: &'static str)
        ensures
            s@ == self.spec_as_str(),
    {
        match self {
            DeviceKind::Cpu => "cpu",
            DeviceKind::Cuda => "cuda",
        }
    }
}

/// The network architecture.
#[derive(Debug, Clone, Copy, PartialEq, Eq, Structural)]
pub enum ModelType {
    Mlp,
}

impl ModelType {
    pub open spec fn spec_as_str(self) -> Seq<char> {
        match self {
            ModelType::Mlp => "mlp"@,
        }
    }

    /// The architecture's name, used in checkpoint and data paths.
    pub fn as_str(&self) -> (s: &'static str)
        ensures
            s@ == self.spec_as_str(),
    {
        match self {
            ModelType::Mlp => "mlp",
        }
    }
}

/// Shape of the graph network.
#[derive(Debug, Clone, Copy, PartialEq, Eq, Structural)]
pub struct GnnModelConfig {
    pub feature_dim: usize,
    pub hidden_dim: usize,
    pub num_vertices: usize,
}

impl GnnModelConfig {
    /// One node per vertex of the compact board, the standard features and width.
    pub fn default() -> (c: GnnModelConfig)
        ensures
            c.feature_dim == FEATURE_DIM,
            c.hidden_dim == DEFAULT_HIDDEN_DIM,
            c.num_vertices == VERTEX_COUNT,
    {
        GnnModelConfig {
            feature_dim: FEATURE_DIM,
            hidden_dim: DEFAULT_HIDDEN_DIM,
            num_vertices: VERTEX_COUNT,
        }
    }
}

/// Checkpoint storage format.
#[derive(Debug, Clone, Copy, PartialEq, Eq, Structural)]
pub enum StoreType {
    BPK,
    MPK,
}

/// What a checkpoint path's (lower-case) extension says of its format.
#[derive(Debug, Clone, Copy, PartialEq, Eq, Structural)]
pub enum ExtensionKind {
    /// The extension names a format.
    Known(StoreType),
    /// There is no extension: the format is found by probing the files.
    Missing,
    /// The extension names no supported format.
    Unsupported,
}

pub open spec fn spec_extension_kind(ext: Seq<char>) -> ExtensionKind {
    if ext == "bpk"@ {
        ExtensionKind::Known(StoreType::BPK)
    } else if ext == "mpk"@ {
        ExtensionKind::Known(StoreType::MPK)
    } else if ext.len() == 0 {
        ExtensionKind::Missing
    } else {
        ExtensionKind::Unsupported
    }
}

/// Classifies a lower-case file extension (empty when the path has none).
pub fn extension_kind(ext: &str) -> (k: ExtensionKind)
    ensures
        k == spec_extension_kind(ext@),
{
    let e = chars_of(ext);
    let bpk: Vec<char> = vec!['b', 'p', 'k'];
    let mpk: Vec<char> = vec!['m', 'p', 'k'];
    proof {
        reveal_strlit("bpk");
        reveal_strlit("mpk");
        assert(bpk@ =~= "bpk"@);
        assert(mpk@ =~= "mpk"@);
        assert(e@.subrange(0, e@.len() as int) =~= e@);
    }
    if range_eq(&e, 0, e.len(), &bpk) {
        ExtensionKind::Known(StoreType::BPK)
    } else if range_eq(&e, 0, e.len(), &mpk) {
        ExtensionKind::Known(StoreType::MPK)
    } else if e.len() == 0 {
        ExtensionKind::Missing
    } else {
        ExtensionKind::Unsupported
    }
}

/// The format of an extension-less checkpoint: `.mpk` is tried before `.bpk`.
pub fn probed_store_type(mpk_is_file: bool, bpk_is_file: bool) -> (r: Option<StoreType>)
    ensures
        r == if mpk_is_file {
            Some(StoreType::MPK)
        } else if bpk_is_file {
            Some(StoreType::BPK)
        } else {
            None
        },
{
    if mpk_is_file {
        Some(StoreType::MPK)
    } else if bpk_is_file {
        Some(StoreType::BPK)
    } else {
        None
    }
}

} // verus!
