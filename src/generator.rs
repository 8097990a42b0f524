use vstd::prelude::*;

use crate::context::Descriptor;
use crate::dispatch::DispatchUnit;
use crate::layout::GeneratorLayout;

verus! {

/// The six compute stages of the wave pipeline, in setup order.
#[derive(Clone, Copy, Debug, PartialEq, Eq, Structural)]
pub enum Stage {
    SpectrumCompute,
    FftButterfly,
    SpectrumModulate,
    FftCompute,
    Transpose,
    FftUnpack,
}

/// The resources a generator allocates.
#[derive(Clone, Copy, Debug, PartialEq, Eq, Structural)]
pub enum Resource {
    Spectrum,
    ButterflyFactors,
    FftBuffer,
    DisplacementMap,
    NormalMap,
}

/// One dispatch of a tick.
#[derive(Clone, Copy, Debug, PartialEq, Eq, Structural)]
pub enum PipelineStep {
    Butterfly,
    Spectrum { cascade: u32 },
    Modulate,
    Fft,
    Transpose,
    Unpack,
}

/// Position of a stage in setup order.
pub open spec fn stage_index(s: Stage) -> nat {
    match s {
        Stage::SpectrumCompute => 0,
        Stage::FftButterfly => 1,
        Stage::SpectrumModulate => 2,
        Stage::FftCompute => 3,
        Stage::Transpose => 4,
        Stage::FftUnpack => 5,
    }
}

/// The stage that runs a step.
pub open spec fn step_stage(p: PipelineStep) -> Stage {
    match p {
        PipelineStep::Butterfly => Stage::FftButterfly,
        PipelineStep::Spectrum { .. } => Stage::SpectrumCompute,
        PipelineStep::Modulate => Stage::SpectrumModulate,
        PipelineStep::Fft => Stage::FftCompute,
        PipelineStep::Transpose => Stage::Transpose,
        PipelineStep::Unpack => Stage::FftUnpack,
    }
}

/// The resources bound by a stage's descriptor set, in binding order.
pub open spec fn stage_resources(s: Stage) -> Seq<Resource> {
    match s {
        Stage::SpectrumCompute => seq![Resource::Spectrum],
        Stage::FftButterfly => seq![Resource::ButterflyFactors],
        Stage::SpectrumModulate => seq![Resource::Spectrum, Resource::FftBuffer],
        Stage::FftCompute => seq![Resource::ButterflyFactors, Resource::FftBuffer],
        Stage::Transpose => seq![Resource::FftBuffer],
        Stage::FftUnpack => seq![Resource::FftBuffer, Resource::DisplacementMap, Resource::NormalMap],
    }
}

/// Shader asset path of a stage.
pub open spec fn stage_shader_path(s: Stage) -> Seq<char> {
    match s {
        Stage::SpectrumCompute => "res://shaders/compute/spectrum_compute.glsl"@,
        Stage::FftButterfly => "res://shaders/compute/fft_butterfly.glsl"@,
        Stage::SpectrumModulate => "res://shaders/compute/spectrum_modulate.glsl"@,
        Stage::FftCompute => "res://shaders/compute/fft_compute.glsl"@,
        Stage::Transpose => "res://shaders/compute/transpose.glsl"@,
        Stage::FftUnpack => "res://shaders/compute/fft_unpack.glsl"@,
    }
}

/// Spectrum regenerations for the cascades whose flag is set, in cascade
/// order.
pub open spec fn spectrum_steps(flags: Seq<bool>) -> Seq<PipelineStep>
    decreases flags.len(),
{
    if flags.len() == 0 {
        Seq::empty()
    } else {
        let pre = spectrum_steps(flags.drop_last());
        if flags.last() {
            pre.push(PipelineStep::Spectrum { cascade: (flags.len() - 1) as u32 })
        } else {
            pre
        }
    }
}

/// One FFT pass: a dispatch per stage.
pub open spec fn fft_pass(stages: nat) -> Seq<PipelineStep> {
    Seq::new(stages, |i: int| PipelineStep::Fft)
}

/// The dispatches of one tick, in order: the butterfly table once, the
/// flagged spectra, modulation, the row pass, a transpose, the column pass,
/// and unpacking.
pub open spec fn update_steps(stages: nat, flags: Seq<bool>, butterfly_ready: bool) -> Seq<PipelineStep> {
    let head = if butterfly_ready { Seq::empty() } else { seq![PipelineStep::Butterfly] };
    head + spectrum_steps(flags) + seq![PipelineStep::Modulate] + fft_pass(stages) + seq![PipelineStep::Transpose]
        + fft_pass(stages) + seq![PipelineStep::Unpack]
}

impl Stage {
    /// Every stage, in setup order.
    pub fn all() -> (r: Vec<Stage>)
        ensures
            r@.len() == 6,
            forall|i: int| 0 <= i < 6 ==> stage_index(#[trigger] r@[i]) == i,
    {
        vec![
            Stage::SpectrumCompute,
            Stage::FftButterfly,
            Stage::SpectrumModulate,
            Stage::FftCompute,
            Stage::Transpose,
            Stage::FftUnpack,
        ]
    }

    pub fn index(self) -> (r: usize)
        ensures
            r == stage_index(self),
    {
        match self {
            Stage::SpectrumCompute => 0,
            Stage::FftButterfly => 1,
            Stage::SpectrumModulate => 2,
            Stage::FftCompute => 3,
            Stage::Transpose => 4,
            Stage::FftUnpack => 5,
        }
    }

    /// Shader asset path of the stage.
    pub fn shader_path(self) -> (r: &'static str)
        ensures
            r@ == stage_shader_path(self),
    {
        match self {
            Stage::SpectrumCompute => "res://shaders/compute/spectrum_compute.glsl",
            Stage::FftButterfly => "res://shaders/compute/fft_butterfly.glsl",
            Stage::SpectrumModulate => "res://shaders/compute/spectrum_modulate.glsl",
            Stage::FftCompute => "res://shaders/compute/fft_compute.glsl",
            Stage::Transpose => "res://shaders/compute/transpose.glsl",
            Stage::FftUnpack => "res://shaders/compute/fft_unpack.glsl",
        }
    }

    /// The resources the stage's descriptor set binds, in binding order.
    pub fn resources(self) -> (r: Vec<Resource>)
        ensures
            r@ == stage_resources(self),
    {
        let r = match self {
            Stage::SpectrumCompute => vec![Resource::Spectrum],
            Stage::FftButterfly => vec![Resource::ButterflyFactors],
            Stage::SpectrumModulate => vec![Resource::Spectrum, Resource::FftBuffer],
            Stage::FftCompute => vec![Resource::ButterflyFactors, Resource::FftBuffer],
            Stage::Transpose => vec![Resource::FftBuffer],
            Stage::FftUnpack => vec![Resource::FftBuffer, Resource::DisplacementMap, Resource::NormalMap],
        };
        assert(r@ =~= stage_resources(self));
        r
    }
}

impl PipelineStep {
    pub fn stage(self) -> (r: Stage)
        ensures
            r == step_stage(self),
    {
        match self {
            PipelineStep::Butterfly => Stage::FftButterfly,
            PipelineStep::Spectrum { .. } => Stage::SpectrumCompute,
            PipelineStep::Modulate => Stage::SpectrumModulate,
            PipelineStep::Fft => Stage::FftCompute,
            PipelineStep::Transpose => Stage::Transpose,
            PipelineStep::Unpack => Stage::FftUnpack,
        }
    }
}

fn push_fft_pass(steps: &mut Vec<PipelineStep>, stages: u32)
    ensures
        final(steps)@ == old(steps)@ + fft_pass(stages as nat),
{
    let ghost start = steps@;
    let mut i: u32 = 0;
    while i < stages
        invariant
            i <= stages,
            steps@ =~= start + fft_pass(i as nat),
        decreases stages - i,
    {
        steps.push(PipelineStep::Fft);
        i = i + 1;
    }
}

/// The dispatches of one tick for `stages` FFT stages and the cascades'
/// spectrum flags.
pub fn plan_update(stages: u32, flags: &Vec<bool>, butterfly_ready: bool) -> (r: Vec<PipelineStep>)
    requires
        flags@.len() <= u32::MAX,
    ensures
        r@ == update_steps(stages as nat, flags@, butterfly_ready),
{
    let mut steps: Vec<PipelineStep> = Vec::new();
    if !butterfly_ready {
        steps.push(PipelineStep::Butterfly);
    }
    let ghost head = steps@;
    let n = flags.len();
    let mut c: usize = 0;
    while c < n
        invariant
            c <= n,
            n == flags@.len(),
            n <= u32::MAX,
            steps@ =~= head + spectrum_steps(flags@.subrange(0, c as int)),
        decreases n - c,
    {
        proof {
            let next = flags@.subrange(0, c + 1);
            assert(next.drop_last() =~= flags@.subrange(0, c as int));
            assert(next.last() == flags@[c as int]);
        }
        if flags[c] {
            steps.push(PipelineStep::Spectrum { cascade: c as u32 });
        }
        c = c + 1;
    }
    assert(flags@.subrange(0, n as int) =~= flags@);
    steps.push(PipelineStep::Modulate);
    push_fft_pass(&mut steps, stages);
    steps.push(PipelineStep::Transpose);
    push_fft_pass(&mut steps, stages);
    steps.push(PipelineStep::Unpack);
    assert(steps@ =~= update_steps(stages as nat, flags@, butterfly_ready));
    steps
}

/// The handles of a generator's resources.
#[derive(Clone, Copy, Debug, PartialEq, Eq, Structural)]
pub struct GeneratorResources {
    pub spectrum: Descriptor,
    pub butterfly_factors: Descriptor,
    pub fft_buffer: Descriptor,
    pub displacement_map: Descriptor,
    pub normal_map: Descriptor,
}

/// The descriptor that stands for `r`.
pub open spec fn resource_descriptor(res: GeneratorResources, r: Resource) -> Descriptor {
    match r {
        Resource::Spectrum => res.spectrum,
        Resource::ButterflyFactors => res.butterfly_factors,
        Resource::FftBuffer => res.fft_buffer,
        Resource::DisplacementMap => res.displacement_map,
        Resource::NormalMap => res.normal_map,
    }
}

impl GeneratorResources {
    pub fn descriptor(&self, r: Resource) -> (d: Descriptor)
        ensures
            d == resource_descriptor(*self, r),
    {
        match r {
            Resource::Spectrum => self.spectrum,
            Resource::ButterflyFactors => self.butterfly_factors,
            Resource::FftBuffer => self.fft_buffer,
            Resource::DisplacementMap => self.displacement_map,
            Resource::NormalMap => self.normal_map,
        }
    }

    /// The descriptors of a stage's set, in binding order.
    pub fn stage_descriptors(&self, stage: Stage) -> (r: Vec<Descriptor>)
        ensures
            r@.len() == stage_resources(stage).len(),
            forall|i: int| 0 <= i < r@.len() ==> #[trigger] r@[i] == resource_descriptor(*self, stage_resources(stage)[i]),
    {
        let rs = stage.resources();
        let mut out: Vec<Descriptor> = Vec::new();
        let mut i: usize = 0;
        while i < rs.len()
            invariant
                i <= rs@.len(),
                rs@ == stage_resources(stage),
                out@.len() == i,
                forall|k: int| 0 <= k < i ==> #[trigger] out@[k] == resource_descriptor(*self, rs@[k]),
            decreases rs@.len() - i,
        {
            out.push(self.descriptor(rs[i]));
            i = i + 1;
        }
        out
    }
}

/// A built wave pipeline: its layout, its resources, and one dispatch unit
/// per stage in setup order.
pub struct WaveGenerator {
    layout: GeneratorLayout,
    resources: GeneratorResources,
    units: Vec<DispatchUnit>,
    butterfly_ready: bool,
}

impl WaveGenerator {
    pub closed spec fn wf(&self) -> bool {
        self.units@.len() == 6
    }

    pub closed spec fn spec_layout(&self) -> GeneratorLayout {
        self.layout
    }

    pub closed spec fn spec_resources(&self) -> GeneratorResources {
        self.resources
    }

    pub fn layout(&self) -> (r: GeneratorLayout)
        ensures
            r == self.spec_layout(),
    {
        self.layout
    }

    pub fn resources(&self) -> (r: GeneratorResources)
        ensures
            r == self.spec_resources(),
    {
        self.resources
    }

    pub closed spec fn butterfly_ready(&self) -> bool {
        self.butterfly_ready
    }

    /// The dispatch unit of a stage.
    pub closed spec fn unit_spec(&self, s: Stage) -> DispatchUnit {
        self.units@[stage_index(s) as int]
    }

    /// Assembles a generator; `units` holds one unit per stage in setup
    /// order.
    pub fn new(layout: GeneratorLayout, resources: GeneratorResources, units: Vec<DispatchUnit>) -> (r: Self)
        requires
            units@.len() == 6,
        ensures
            r.wf(),
            r.spec_layout() == layout,
            r.spec_resources() == resources,
            !r.butterfly_ready(),
            forall|s: Stage| #[trigger] r.unit_spec(s) == units@[stage_index(s) as int],
    {
        WaveGenerator { layout, resources, units, butterfly_ready: false }
    }

    pub fn unit(&self, stage: Stage) -> (r: &DispatchUnit)
        requires
            self.wf(),
        ensures
            *r == self.unit_spec(stage),
    {
        &self.units[stage.index()]
    }

    /// The dispatches of one tick. Every spectrum flag is cleared, since
    /// the flagged spectra are regenerated, and the butterfly table counts
    /// as computed from then on.
    pub fn update(&mut self, flags: &mut Vec<bool>) -> (r: Vec<PipelineStep>)
        requires
            old(flags)@.len() <= u32::MAX,
        ensures
            r@ == update_steps(old(self).spec_layout().stage_count as nat, old(flags)@, old(self).butterfly_ready()),
            final(flags)@ == Seq::new(old(flags)@.len(), |i: int| false),
            final(self).butterfly_ready(),
            final(self).spec_layout() == old(self).spec_layout(),
            final(self).spec_resources() == old(self).spec_resources(),
            final(self).wf() == old(self).wf(),
            forall|s: Stage| #[trigger] final(self).unit_spec(s) == old(self).unit_spec(s),
    {
        let steps = plan_update(self.layout.stage_count, flags, self.butterfly_ready);
        let n = flags.len();
        let mut i: usize = 0;
        while i < n
            invariant
                i <= n,
                n == flags@.len(),
                forall|k: int| 0 <= k < i ==> flags@[k] == false,
            decreases n - i,
        {
            flags.set(i, false);
            i = i + 1;
        }
        assert(flags@ =~= Seq::new(old(flags)@.len(), |i: int| false));
        self.butterfly_ready = true;
        steps
    }
}

} // verus!
