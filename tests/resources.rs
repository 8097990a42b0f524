use gdocean::{
    buffer_request, descriptor_set_bindings, texture_request, DeletionQueue, Descriptor,
    DescriptorKind, GpuError, RenderingContext, TexelFormat, TextureUsage, UniformBinding,
};

fn usage() -> TextureUsage {
    TextureUsage { storage: true, sampling: true, can_update: false, can_copy_from: false }
}

#[test]
fn flush_releases_in_reverse_creation_order() {
    let mut q = DeletionQueue::new();
    for rid in 1..=5u64 {
        q.push(rid);
    }
    assert_eq!(q.flush(), vec![5, 4, 3, 2, 1]);
    assert_eq!(q.len(), 0);
    assert_eq!(q.flush(), Vec::<u64>::new());
}

#[test]
fn flush_skips_invalid_and_already_released_handles() {
    let mut q = DeletionQueue::new();
    q.push(5);
    q.push(0);
    q.push(7);
    q.push(5);
    assert_eq!(q.flush(), vec![5, 7]);
}

#[test]
fn free_rid_forgets_oldest_entry() {
    let mut q = DeletionQueue::new();
    q.push(1);
    q.push(2);
    q.push(1);
    assert!(q.free_rid(1));
    assert!(!q.free_rid(9));
    assert_eq!(q.len(), 2);
    assert_eq!(q.flush(), vec![1, 2]);
}

#[test]
fn buffer_request_pads_to_minimum_and_size() {
    let r = buffer_request(4, vec![1, 2]);
    assert_eq!(r.len(), 16);
    assert_eq!(&r[..2], &[1, 2]);
    assert!(r[2..].iter().all(|b| *b == 0));

    let r = buffer_request(32, vec![9; 8]);
    assert_eq!(r.len(), 32);
    assert_eq!(&r[..8], &[9; 8]);
    assert!(r[8..].iter().all(|b| *b == 0));
}

#[test]
fn buffer_request_keeps_longer_data() {
    let data: Vec<u8> = (0..40u8).collect();
    assert_eq!(buffer_request(20, data.clone()), data);
}

#[test]
fn texture_request_raises_zero_layers_to_one() {
    let t = texture_request(64, 32, TexelFormat::Rgba16Float, usage(), 0);
    assert_eq!(t.layers, 1);
    assert_eq!(t.width, 64);
    assert_eq!(t.height, 32);
    let t = texture_request(64, 32, TexelFormat::Rgba16Float, usage(), 4);
    assert_eq!(t.layers, 4);
}

#[test]
fn descriptor_set_binding_index_is_position() {
    let ds = vec![
        Descriptor { rid: 11, kind: DescriptorKind::Image },
        Descriptor { rid: 12, kind: DescriptorKind::StorageBuffer },
        Descriptor { rid: 13, kind: DescriptorKind::UniformBuffer },
    ];
    let b = descriptor_set_bindings(&ds);
    assert_eq!(
        b,
        vec![
            UniformBinding { binding: 0, kind: DescriptorKind::Image, rid: 11 },
            UniformBinding { binding: 1, kind: DescriptorKind::StorageBuffer, rid: 12 },
            UniformBinding { binding: 2, kind: DescriptorKind::UniformBuffer, rid: 13 },
        ]
    );
}

#[test]
fn context_created_resources_are_released_newest_first() {
    let mut ctx = RenderingContext::new();
    ctx.initialize();
    assert_eq!(ctx.create_storage_buffer(1), Descriptor { rid: 1, kind: DescriptorKind::StorageBuffer });
    assert_eq!(ctx.create_uniform_buffer(2), Descriptor { rid: 2, kind: DescriptorKind::UniformBuffer });
    assert_eq!(ctx.create_texture(3), Descriptor { rid: 3, kind: DescriptorKind::Image });
    assert_eq!(ctx.create_descriptor_set(4), 4);
    let unit = ctx.create_pipeline(5, Some((1, 1, 1)), vec![4]);
    assert_eq!(unit.pipeline, 5);
    assert_eq!(unit.default_sets, vec![4]);
    let t = ctx.teardown(false).unwrap();
    assert_eq!(t.released, vec![5, 4, 3, 2, 1]);
    assert!(t.free_device);
    assert!(!ctx.has_device_attached());
}

#[test]
fn teardown_keeps_default_device() {
    let mut ctx = RenderingContext::new();
    ctx.initialize();
    ctx.create_texture(8);
    let t = ctx.teardown(true).unwrap();
    assert_eq!(t.released, vec![8]);
    assert!(!t.free_device);
}

#[test]
fn teardown_without_device_does_nothing() {
    let mut ctx = RenderingContext::new();
    assert!(ctx.teardown(false).is_none());
}

#[test]
fn shader_compiles_once_per_path() {
    let mut ctx = RenderingContext::new();
    ctx.initialize();
    let a = String::from("res://a.glsl");
    assert_eq!(ctx.cached_shader(&a), None);
    assert_eq!(ctx.load_shader(a.clone(), Some(7)), Ok(7));
    assert_eq!(ctx.cached_shader(&a), Some(7));
    assert_eq!(ctx.load_shader(a.clone(), Some(9)), Ok(7));
    assert_eq!(ctx.load_shader(String::from("res://b.glsl"), Some(9)), Ok(9));
    let t = ctx.teardown(false).unwrap();
    assert_eq!(t.released, vec![9, 7]);
    assert_eq!(ctx.cached_shader(&a), None);
}

#[test]
fn invalid_shader_is_reported() {
    let mut ctx = RenderingContext::new();
    ctx.initialize();
    let p = String::from("res://broken.glsl");
    assert_eq!(ctx.load_shader(p.clone(), None), Err(GpuError::InvalidShader));
    assert_eq!(ctx.cached_shader(&p), None);
}

#[test]
fn submit_and_sync_track_pending_work() {
    let mut ctx = RenderingContext::new();
    ctx.initialize();
    assert!(!ctx.is_sync_pending());
    ctx.submit();
    assert!(ctx.is_sync_pending());
    ctx.sync();
    assert!(!ctx.is_sync_pending());
}

#[test]
fn context_free_rid_forgets_handle() {
    let mut ctx = RenderingContext::new();
    ctx.initialize();
    ctx.create_storage_buffer(1);
    ctx.create_storage_buffer(2);
    assert!(ctx.free_rid(1));
    assert!(!ctx.free_rid(1));
    assert_eq!(ctx.teardown(false).unwrap().released, vec![2]);
}

#[test]
fn default_descriptor_is_invalid_storage_buffer() {
    let d = Descriptor::default();
    assert_eq!(d, Descriptor { rid: 0, kind: DescriptorKind::StorageBuffer });
}
