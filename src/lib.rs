//! GPU resource orchestration and time stepping for an FFT ocean-wave
//! synthesizer.
//!
//! The library keeps every decision and every piece of bookkeeping as plain
//! values: resource handles are the device's 64-bit identifiers (0 is the
//! invalid handle), times are whole microseconds, floats travel as their
//! IEEE-754 bits, and device work is described as requests and commands
//! that the host carries out on its rendering device.
pub mod clock;
pub mod context;
pub mod coordinator;
pub mod deletion_queue;
pub mod dispatch;
pub mod error;
pub mod generator;
pub mod layout;
pub mod push_constant;

pub use clock::{period_for, SimulationClock, MICROS_PER_SECOND};
pub use context::{
    buffer_request, descriptor_set_bindings, texture_request, Descriptor, DescriptorKind,
    RenderingContext, Teardown, TexelFormat, TextureRequest, TextureUsage, UniformBinding,
    MIN_BUFFER_SIZE,
};
pub use coordinator::{
    CoordinatorState, OceanCoordinator, SetupRequest, TickAction, DEFAULT_MAP_SIZE,
    DEFAULT_SYNC_THRESHOLD_US, DEFAULT_UPDATES_PER_SECOND,
};
pub use deletion_queue::{DeletionQueue, INVALID_HANDLE};
pub use dispatch::{BlockDims, ComputeCommand, DispatchUnit};
pub use error::GpuError;
pub use generator::{plan_update, GeneratorResources, PipelineStep, Resource, Stage, WaveGenerator};
pub use layout::{fft_stage_count, generator_layout, reserve_cascades, GeneratorLayout};
pub use push_constant::{create_push_constant, PushValue, PUSH_CONSTANT_FLOOR};
