use vstd::prelude::*;

verus! {

/// Usage errors that the context and dispatch units report.
#[derive(Clone, Copy, Debug, PartialEq, Eq, Structural)]
pub enum GpuError {
    /// A push-constant payload whose raw length is 128 bytes or less.
    PushConstantTooSmall,
    /// A dispatch with neither block dimensions nor an indirect buffer.
    MissingBlockDimensions,
    /// A dispatch with no descriptor set to bind.
    MissingDescriptorSets,
    /// A shader asset that held no compiled bytecode.
    InvalidShader,
}

} // verus!
