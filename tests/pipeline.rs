use gdocean::{
    fft_stage_count, generator_layout, plan_update, reserve_cascades, Descriptor, DescriptorKind,
    DispatchUnit, GeneratorResources, PipelineStep, Resource, Stage, TexelFormat, WaveGenerator,
};

fn resources() -> GeneratorResources {
    GeneratorResources {
        spectrum: Descriptor { rid: 1, kind: DescriptorKind::Image },
        butterfly_factors: Descriptor { rid: 2, kind: DescriptorKind::StorageBuffer },
        fft_buffer: Descriptor { rid: 3, kind: DescriptorKind::StorageBuffer },
        displacement_map: Descriptor { rid: 4, kind: DescriptorKind::Image },
        normal_map: Descriptor { rid: 5, kind: DescriptorKind::Image },
    }
}

#[test]
fn stage_count_is_log2_of_map_size() {
    assert_eq!(fft_stage_count(128), 7);
    assert_eq!(fft_stage_count(256), 8);
    assert_eq!(fft_stage_count(512), 9);
    assert_eq!(fft_stage_count(1024), 10);
    assert_eq!(fft_stage_count(1), 0);
    assert_eq!(fft_stage_count(1000), 9);
}

#[test]
fn layout_sizes_for_256_and_three_cascades() {
    let l = generator_layout(256, 3);
    assert_eq!(l.stage_count, 8);
    assert_eq!(l.butterfly_bytes, 8 * 256 * 4 * 4);
    assert_eq!(l.fft_buffer_bytes, 3 * 256 * 256 * 2 * 2 * 4);
    assert_eq!((l.spectrum.width, l.spectrum.height, l.spectrum.layers), (256, 256, 3));
    assert_eq!(l.spectrum.format, TexelFormat::Rgba32Float);
    assert_eq!((l.displacement.width, l.displacement.height, l.displacement.layers), (256, 256, 3));
    assert_eq!(l.displacement.format, TexelFormat::Rgba16Float);
    assert!(l.displacement.usage.sampling && l.displacement.usage.storage && l.displacement.usage.can_update);
    assert_eq!((l.normal.width, l.normal.height, l.normal.layers), (256, 256, 3));
    assert_eq!((l.groups_x, l.groups_y, l.groups_z), (16, 16, 3));
}

#[test]
fn layout_scales_with_cascades_and_map_size() {
    let a = generator_layout(512, 2);
    let b = generator_layout(512, 4);
    assert_eq!(b.fft_buffer_bytes, 2 * a.fft_buffer_bytes);
    assert_eq!(b.spectrum.layers, 2 * a.spectrum.layers);
    assert_eq!(b.displacement.layers, 2 * a.displacement.layers);
    assert_eq!(b.normal.layers, 2 * a.normal.layers);
    assert_eq!(b.butterfly_bytes, a.butterfly_bytes);
    let c = generator_layout(1024, 2);
    assert_eq!(c.fft_buffer_bytes, 4 * a.fft_buffer_bytes);
}

#[test]
fn at_least_two_cascades_are_reserved() {
    assert_eq!(reserve_cascades(0), 2);
    assert_eq!(reserve_cascades(1), 2);
    assert_eq!(reserve_cascades(2), 2);
    assert_eq!(reserve_cascades(5), 5);
}

#[test]
fn update_plan_orders_the_stages() {
    let plan = plan_update(2, &vec![true, false, true], false);
    assert_eq!(
        plan,
        vec![
            PipelineStep::Butterfly,
            PipelineStep::Spectrum { cascade: 0 },
            PipelineStep::Spectrum { cascade: 2 },
            PipelineStep::Modulate,
            PipelineStep::Fft,
            PipelineStep::Fft,
            PipelineStep::Transpose,
            PipelineStep::Fft,
            PipelineStep::Fft,
            PipelineStep::Unpack
        ]
    );
    let plan = plan_update(1, &vec![false, false], true);
    assert_eq!(plan, vec![PipelineStep::Modulate, PipelineStep::Fft, PipelineStep::Transpose, PipelineStep::Fft, PipelineStep::Unpack]);
}

#[test]
fn generator_update_clears_spectrum_flags() {
    let layout = generator_layout(128, 2);
    let units: Vec<DispatchUnit> = (0..6u64).map(|i| DispatchUnit::new(100 + i, vec![200 + i], Some((8, 8, 2)))).collect();
    let mut generator = WaveGenerator::new(layout, resources(), units);
    let mut flags = vec![true, true];
    let first = generator.update(&mut flags);
    assert_eq!(flags, vec![false, false]);
    assert_eq!(first.len(), 1 + 2 + 1 + 7 + 1 + 7 + 1);
    assert_eq!(first[0], PipelineStep::Butterfly);
    let second = generator.update(&mut flags);
    assert_eq!(second.len(), 1 + 7 + 1 + 7 + 1);
    assert_eq!(second[0], PipelineStep::Modulate);
    assert_eq!(generator.unit(Stage::Transpose).pipeline, 104);
    assert_eq!(generator.unit(PipelineStep::Unpack.stage()).pipeline, 105);
    assert_eq!(generator.layout(), layout);
}

#[test]
fn stage_sets_bind_resources_in_shader_order() {
    let res = resources();
    let rids = |s: Stage| res.stage_descriptors(s).iter().map(|d| d.rid).collect::<Vec<u64>>();
    assert_eq!(rids(Stage::SpectrumCompute), vec![1]);
    assert_eq!(rids(Stage::FftButterfly), vec![2]);
    assert_eq!(rids(Stage::SpectrumModulate), vec![1, 3]);
    assert_eq!(rids(Stage::FftCompute), vec![2, 3]);
    assert_eq!(rids(Stage::Transpose), vec![3]);
    assert_eq!(rids(Stage::FftUnpack), vec![3, 4, 5]);
    assert_eq!(res.descriptor(Resource::NormalMap).rid, 5);
}

#[test]
fn stages_have_distinct_shaders() {
    let all = Stage::all();
    assert_eq!(all.len(), 6);
    for (i, s) in all.iter().enumerate() {
        assert_eq!(s.index(), i);
        assert!(s.shader_path().ends_with(".glsl"));
    }
    assert!(Stage::FftUnpack.shader_path().contains("fft_unpack"));
    let mut paths: Vec<&str> = all.iter().map(|s| s.shader_path()).collect();
    paths.sort();
    paths.dedup();
    assert_eq!(paths.len(), 6);
}
