use vstd::prelude::*;

use crate::context::{texture_request, TexelFormat, TextureRequest, TextureUsage};

verus! {

/// Bytes in one four-component 32-bit texel, and in one butterfly entry.
pub const VEC4_BYTES: u32 = 16;

/// Side length of a compute workgroup: each stage dispatches one group per
/// 16 by 16 texels of every cascade layer.
pub const WORKGROUP_SIZE: u32 = 16;

/// `floor(log2(n))`, taking 0 for `n <= 1`.
pub open spec fn log2_floor(n: nat) -> nat
    decreases n,
{
    if n <= 1 {
        0
    } else {
        1 + log2_floor(n / 2)
    }
}

/// The map resolutions the generator supports.
pub open spec fn valid_map_size(m: nat) -> bool {
    m == 128 || m == 256 || m == 512 || m == 1024
}

/// Bytes of the butterfly-factor buffer: one four-component entry per FFT
/// stage and texel column.
pub open spec fn butterfly_bytes(m: nat) -> nat {
    log2_floor(m) * m * 16
}

/// Bytes of the FFT working buffer: per cascade, two buffers of two-
/// component 32-bit complex values, one per texel.
pub open spec fn fft_buffer_bytes(m: nat, cascades: nat) -> nat {
    cascades * (m * m) * 2 * 2 * 4
}

/// Bytes of one texel in `f`.
pub open spec fn texel_bytes(f: TexelFormat) -> nat {
    match f {
        TexelFormat::Rgba32Float => 16,
        TexelFormat::Rgba16Float => 8,
    }
}

/// Bytes of a texture request.
pub open spec fn texture_bytes(t: TextureRequest) -> nat {
    t.width as nat * t.height as nat * t.layers as nat * texel_bytes(t.format)
}

/// The cascades a generator reserves room for: at least two.
pub open spec fn reserved_cascades(parameters: nat) -> nat {
    if parameters < 2 { 2 } else { parameters }
}

/// Sizes of every resource a generator allocates.
#[derive(Clone, Copy, Debug, PartialEq, Eq, Structural)]
pub struct GeneratorLayout {
    pub map_size: u32,
    pub num_cascades: u32,
    pub stage_count: u32,
    pub spectrum: TextureRequest,
    pub butterfly_bytes: u32,
    pub fft_buffer_bytes: u32,
    pub displacement: TextureRequest,
    pub normal: TextureRequest,
    /// Workgroups of every stage's dispatch, along x, y and z.
    pub groups_x: u32,
    pub groups_y: u32,
    pub groups_z: u32,
}

/// The layout of a generator for maps of `m` texels square and `c` cascades.
pub open spec fn layout_of(m: nat, c: nat) -> GeneratorLayout {
    let output_usage = TextureUsage { storage: true, sampling: true, can_update: true, can_copy_from: false };
    GeneratorLayout {
        map_size: m as u32,
        num_cascades: c as u32,
        stage_count: log2_floor(m) as u32,
        spectrum: TextureRequest {
            width: m as u32,
            height: m as u32,
            layers: c as u32,
            format: TexelFormat::Rgba32Float,
            usage: TextureUsage { storage: true, sampling: false, can_update: false, can_copy_from: true },
        },
        butterfly_bytes: butterfly_bytes(m) as u32,
        fft_buffer_bytes: fft_buffer_bytes(m, c) as u32,
        displacement: TextureRequest {
            width: m as u32,
            height: m as u32,
            layers: c as u32,
            format: TexelFormat::Rgba16Float,
            usage: output_usage,
        },
        normal: TextureRequest {
            width: m as u32,
            height: m as u32,
            layers: c as u32,
            format: TexelFormat::Rgba16Float,
            usage: output_usage,
        },
        groups_x: (m / 16) as u32,
        groups_y: (m / 16) as u32,
        groups_z: c as u32,
    }
}

/// The number of FFT stages for maps of `map_size` texels square.
pub fn fft_stage_count(map_size: u32) -> (r: u32)
    ensures
        r == log2_floor(map_size as nat),
{
    let mut n: u32 = map_size;
    let mut r: u32 = 0;
    proof {
        lemma_log2_bound(map_size as nat);
    }
    while n > 1
        invariant
            r + log2_floor(n as nat) == log2_floor(map_size as nat),
            log2_floor(map_size as nat) <= map_size,
        decreases n,
    {
        proof {
            lemma_log2_step(n as nat);
        }
        n = n / 2;
        r = r + 1;
    }
    r
}

proof fn lemma_log2_bound(n: nat)
    ensures
        log2_floor(n) <= n,
    decreases n,
{
    if n > 1 {
        lemma_log2_bound(n / 2);
    }
}

proof fn lemma_log2_step(n: nat)
    requires
        n > 1,
    ensures
        log2_floor(n) == 1 + log2_floor(n / 2),
{
}

/// The cascades reserved for `parameters` configured cascades.
pub fn reserve_cascades(parameters: usize) -> (r: u32)
    requires
        parameters <= u32::MAX,
    ensures
        r == reserved_cascades(parameters as nat),
{
    if parameters < 2 { 2 } else { parameters as u32 }
}

/// The layout of a generator for maps of `map_size` texels square and
/// `num_cascades` cascades.
pub fn generator_layout(map_size: u32, num_cascades: u32) -> (r: GeneratorLayout)
    requires
        valid_map_size(map_size as nat),
        1 <= num_cascades,
        fft_buffer_bytes(map_size as nat, num_cascades as nat) <= u32::MAX,
    ensures
        r == layout_of(map_size as nat, num_cascades as nat),
{
    let stage_count = fft_stage_count(map_size);
    assert(stage_count <= 10) by {
        reveal_with_fuel(log2_floor, 12);
    }
    let butterfly: u32 = stage_count * map_size * VEC4_BYTES;
    let fft: u32 = num_cascades * (map_size * map_size) * 2 * 2 * 4;
    let output_usage = TextureUsage { storage: true, sampling: true, can_update: true, can_copy_from: false };
    GeneratorLayout {
        map_size,
        num_cascades,
        stage_count,
        spectrum: texture_request(
            map_size,
            map_size,
            TexelFormat::Rgba32Float,
            TextureUsage { storage: true, sampling: false, can_update: false, can_copy_from: true },
            num_cascades,
        ),
        butterfly_bytes: butterfly,
        fft_buffer_bytes: fft,
        displacement: texture_request(map_size, map_size, TexelFormat::Rgba16Float, output_usage, num_cascades),
        normal: texture_request(map_size, map_size, TexelFormat::Rgba16Float, output_usage, num_cascades),
        groups_x: map_size / WORKGROUP_SIZE,
        groups_y: map_size / WORKGROUP_SIZE,
        groups_z: num_cascades,
    }
}

/// The stage count of each supported resolution is its base-2 logarithm:
/// 7, 8, 9 and 10 for 128, 256, 512 and 1024.
pub proof fn lemma_stage_counts()
    ensures
        log2_floor(128) == 7,
        log2_floor(256) == 8,
        log2_floor(512) == 9,
        log2_floor(1024) == 10,
{
    reveal_with_fuel(log2_floor, 12);
}

/// Every cascade-dependent allocation doubles exactly when the cascade
/// count doubles, and the FFT working buffer quadruples when the map side
/// doubles.
pub proof fn lemma_sizes_scale(m: nat, c: nat)
    requires
        valid_map_size(m),
        c >= 1,
        fft_buffer_bytes(m, 2 * c) <= u32::MAX,
    ensures
        fft_buffer_bytes(m, 2 * c) == 2 * fft_buffer_bytes(m, c),
        fft_buffer_bytes(2 * m, c) == 4 * fft_buffer_bytes(m, c),
        texture_bytes(layout_of(m, 2 * c).spectrum) == 2 * texture_bytes(layout_of(m, c).spectrum),
        texture_bytes(layout_of(m, 2 * c).displacement) == 2 * texture_bytes(layout_of(m, c).displacement),
        texture_bytes(layout_of(m, 2 * c).normal) == 2 * texture_bytes(layout_of(m, c).normal),
        butterfly_bytes(m) == layout_of(m, 2 * c).butterfly_bytes,
{
    assert(fft_buffer_bytes(m, 2 * c) == 2 * fft_buffer_bytes(m, c)) by (nonlinear_arith);
    assert(fft_buffer_bytes(2 * m, c) == 4 * fft_buffer_bytes(m, c)) by (nonlinear_arith);
    assert(2 * c <= fft_buffer_bytes(m, 2 * c)) by (nonlinear_arith)
        requires
            m >= 1,
    ;
    assert(texture_bytes(layout_of(m, 2 * c).spectrum) == 2 * texture_bytes(layout_of(m, c).spectrum)) by (nonlinear_arith)
        requires
            layout_of(m, 2 * c).spectrum.layers == 2 * c,
            layout_of(m, c).spectrum.layers == c,
            layout_of(m, 2 * c).spectrum.width == layout_of(m, c).spectrum.width,
            layout_of(m, 2 * c).spectrum.height == layout_of(m, c).spectrum.height,
    ;
    assert(texture_bytes(layout_of(m, 2 * c).displacement) == 2 * texture_bytes(layout_of(m, c).displacement)) by (nonlinear_arith)
        requires
            layout_of(m, 2 * c).displacement.layers == 2 * c,
            layout_of(m, c).displacement.layers == c,
            layout_of(m, 2 * c).displacement.width == layout_of(m, c).displacement.width,
            layout_of(m, 2 * c).displacement.height == layout_of(m, c).displacement.height,
    ;
    assert(texture_bytes(layout_of(m, 2 * c).normal) == 2 * texture_bytes(layout_of(m, c).normal)) by (nonlinear_arith)
        requires
            layout_of(m, 2 * c).normal.layers == 2 * c,
            layout_of(m, c).normal.layers == c,
            layout_of(m, 2 * c).normal.width == layout_of(m, c).normal.width,
            layout_of(m, 2 * c).normal.height == layout_of(m, c).normal.height,
    ;
    lemma_stage_counts();
}

} // verus!
