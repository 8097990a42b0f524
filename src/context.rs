use vstd::prelude::*;

use crate::deletion_queue::{release_order, DeletionQueue, INVALID_HANDLE};
use crate::dispatch::{BlockDims, DispatchUnit};
use crate::error::GpuError;

verus! {

/// Smallest buffer, in bytes, that the context asks the device for.
pub const MIN_BUFFER_SIZE: usize = 16;

/// What a descriptor's handle refers to.
#[derive(Clone, Copy, Debug, PartialEq, Eq, Structural)]
pub enum DescriptorKind {
    StorageBuffer,
    UniformBuffer,
    Image,
}

/// A resource handle tagged with the binding kind it is bound as.
#[derive(Clone, Copy, Debug, PartialEq, Eq, Structural)]
pub struct Descriptor {
    pub rid: u64,
    pub kind: DescriptorKind,
}

impl Default for Descriptor {
    /// The invalid handle, bound as a storage buffer.
    fn default() -> (r: Self)
        ensures
            r == (Descriptor { rid: INVALID_HANDLE, kind: DescriptorKind::StorageBuffer }),
    {
        Descriptor { rid: INVALID_HANDLE, kind: DescriptorKind::StorageBuffer }
    }
}

/// One slot of a descriptor set.
#[derive(Clone, Copy, Debug, PartialEq, Eq, Structural)]
pub struct UniformBinding {
    pub binding: u32,
    pub kind: DescriptorKind,
    pub rid: u64,
}

/// Texel formats of the textures the context creates.
#[derive(Clone, Copy, Debug, PartialEq, Eq, Structural)]
pub enum TexelFormat {
    Rgba32Float,
    Rgba16Float,
}

/// Usage flags of a texture.
#[derive(Clone, Copy, Debug, PartialEq, Eq, Structural)]
pub struct TextureUsage {
    pub storage: bool,
    pub sampling: bool,
    pub can_update: bool,
    pub can_copy_from: bool,
}

/// The description of a 2D array texture that the device is asked for.
#[derive(Clone, Copy, Debug, PartialEq, Eq, Structural)]
pub struct TextureRequest {
    pub width: u32,
    pub height: u32,
    pub layers: u32,
    pub format: TexelFormat,
    pub usage: TextureUsage,
}

/// What the host does to the device when a context is torn down.
pub struct Teardown {
    /// Handles to free, in this order.
    pub released: Vec<u64>,
    /// Whether the device itself is freed too.
    pub free_device: bool,
}

/// Buffer contents for a request of `size` bytes holding `data`: at least
/// 16 bytes, zero-padded up to the requested size.
pub open spec fn buffer_contents(size: nat, data: Seq<u8>) -> Seq<u8> {
    let want: nat = if size < MIN_BUFFER_SIZE { MIN_BUFFER_SIZE as nat } else { size };
    if want > data.len() {
        data + Seq::new((want - data.len()) as nat, |k: int| 0u8)
    } else {
        data
    }
}

/// The handle cached for `path`, searching the entries in order.
pub open spec fn lookup(paths: Seq<Seq<char>>, rids: Seq<u64>, path: Seq<char>) -> Option<u64>
    decreases paths.len(),
{
    if paths.len() == 0 || rids.len() == 0 {
        None
    } else if paths[0] == path {
        Some(rids[0])
    } else {
        lookup(paths.subrange(1, paths.len() as int), rids.subrange(1, rids.len() as int), path)
    }
}

proof fn lemma_lookup_push(paths: Seq<Seq<char>>, rids: Seq<u64>, p: Seq<char>, r: u64, q: Seq<char>)
    requires
        paths.len() == rids.len(),
        lookup(paths, rids, p) is None,
    ensures
        lookup(paths.push(p), rids.push(r), q) == if q == p { Some(r) } else { lookup(paths, rids, q) },
    decreases paths.len(),
{
    let pp = paths.push(p);
    let rr = rids.push(r);
    let tpp = pp.subrange(1, pp.len() as int);
    let trr = rr.subrange(1, rr.len() as int);
    assert(lookup(pp, rr, q) == if pp[0] == q { Some(rr[0]) } else { lookup(tpp, trr, q) });
    if paths.len() == 0 {
        assert(tpp =~= Seq::<Seq<char>>::empty());
        assert(lookup(tpp, trr, q) is None);
        assert(lookup(paths, rids, q) is None);
    } else {
        let tp = paths.subrange(1, paths.len() as int);
        let tr = rids.subrange(1, rids.len() as int);
        assert(tpp =~= tp.push(p));
        assert(trr =~= tr.push(r));
        assert(lookup(paths, rids, q) == if paths[0] == q { Some(rids[0]) } else { lookup(tp, tr, q) });
        assert(lookup(paths, rids, p) == if paths[0] == p { Some(rids[0]) } else { lookup(tp, tr, p) });
        assert(paths[0] != p);
        lemma_lookup_push(tp, tr, p, r, q);
    }
}

/// Pads `data` for a buffer request of `size` bytes.
pub fn buffer_request(size: usize, data: Vec<u8>) -> (r: Vec<u8>)
    requires
        size <= u32::MAX,
        data@.len() <= u32::MAX,
    ensures
        r@ == buffer_contents(size as nat, data@),
        r@.len() <= u32::MAX,
{
    let want: usize = if size < MIN_BUFFER_SIZE { MIN_BUFFER_SIZE } else { size };
    let mut out = data;
    let ghost orig = out@;
    if want > out.len() {
        while out.len() < want
            invariant
                orig.len() <= out@.len() <= want,
                out@ =~= orig + Seq::new((out@.len() - orig.len()) as nat, |k: int| 0u8),
            decreases want - out.len(),
        {
            out.push(0u8);
        }
    }
    out
}

/// One binding per descriptor; a descriptor's binding index is its position.
pub fn descriptor_set_bindings(descriptors: &Vec<Descriptor>) -> (r: Vec<UniformBinding>)
    requires
        descriptors@.len() <= u32::MAX,
    ensures
        r@.len() == descriptors@.len(),
        forall|i: int| 0 <= i < r@.len() ==> #[trigger] r@[i] == (UniformBinding {
            binding: i as u32,
            kind: descriptors@[i].kind,
            rid: descriptors@[i].rid,
        }),
{
    let mut r: Vec<UniformBinding> = Vec::new();
    let n = descriptors.len();
    let mut i: usize = 0;
    while i < n
        invariant
            i <= n,
            n == descriptors@.len(),
            n <= u32::MAX,
            r@.len() == i,
            forall|k: int| 0 <= k < i ==> #[trigger] r@[k] == (UniformBinding {
                binding: k as u32,
                kind: descriptors@[k].kind,
                rid: descriptors@[k].rid,
            }),
        decreases n - i,
    {
        let d = descriptors[i];
        r.push(UniformBinding { binding: i as u32, kind: d.kind, rid: d.rid });
        i = i + 1;
    }
    r
}

/// The texture the device is asked for; a layer count of zero is raised to
/// one.
pub fn texture_request(width: u32, height: u32, format: TexelFormat, usage: TextureUsage, layers: u32) -> (r: TextureRequest)
    ensures
        r == (TextureRequest {
            width,
            height,
            layers: if layers < 1 { 1 } else { layers },
            format,
            usage,
        }),
{
    let layers = if layers < 1 { 1 } else { layers };
    TextureRequest { width, height, layers, format, usage }
}

/// Bookkeeping of one compute device: the resources allocated through it,
/// the shaders compiled on it, and whether submitted work awaits a sync.
pub struct RenderingContext {
    device_attached: bool,
    deletion_queue: DeletionQueue,
    shader_paths: Vec<String>,
    shader_rids: Vec<u64>,
    needs_sync: bool,
}

impl RenderingContext {
    pub closed spec fn has_device(&self) -> bool {
        self.device_attached
    }

    pub closed spec fn needs_sync(&self) -> bool {
        self.needs_sync
    }

    /// The allocated handles, oldest first.
    pub closed spec fn allocated(&self) -> Seq<u64> {
        self.deletion_queue@
    }

    /// The handle compiled for a shader path, if any.
    pub closed spec fn shader(&self, path: Seq<char>) -> Option<u64> {
        lookup(self.shader_paths@.map_values(|s: String| s@), self.shader_rids@, path)
    }

    pub closed spec fn wf(&self) -> bool {
        self.shader_paths@.len() == self.shader_rids@.len()
    }

    /// A context with no device and nothing allocated.
    pub fn new() -> (r: Self)
        ensures
            r.wf(),
            !r.has_device(),
            !r.needs_sync(),
            r.allocated() == Seq::<u64>::empty(),
            forall|p: Seq<char>| r.shader(p) is None,
    {
        RenderingContext {
            device_attached: false,
            deletion_queue: DeletionQueue::new(),
            shader_paths: Vec::new(),
            shader_rids: Vec::new(),
            needs_sync: false,
        }
    }

    /// Marks the host's device as attached.
    pub fn initialize(&mut self)
        ensures
            final(self).has_device(),
            final(self).wf() == old(self).wf(),
            final(self).needs_sync() == old(self).needs_sync(),
            final(self).allocated() == old(self).allocated(),
            forall|p: Seq<char>| final(self).shader(p) == old(self).shader(p),
    {
        self.device_attached = true;
    }

    pub fn has_device_attached(&self) -> (r: bool)
        ensures
            r == self.has_device(),
    {
        self.device_attached
    }

    pub fn is_sync_pending(&self) -> (r: bool)
        ensures
            r == self.needs_sync(),
    {
        self.needs_sync
    }

    fn track(&mut self, rid: u64)
        requires
            old(self).has_device(),
        ensures
            final(self).allocated() == old(self).allocated().push(rid),
            final(self).has_device(),
            final(self).wf() == old(self).wf(),
            final(self).needs_sync() == old(self).needs_sync(),
            forall|p: Seq<char>| final(self).shader(p) == old(self).shader(p),
    {
        self.deletion_queue.push(rid);
    }

    /// Records a storage buffer the device created from `buffer_request`.
    pub fn create_storage_buffer(&mut self, rid: u64) -> (r: Descriptor)
        requires
            old(self).has_device(),
        ensures
            r == (Descriptor { rid, kind: DescriptorKind::StorageBuffer }),
            final(self).allocated() == old(self).allocated().push(rid),
            final(self).has_device(),
            final(self).wf() == old(self).wf(),
            final(self).needs_sync() == old(self).needs_sync(),
            forall|p: Seq<char>| final(self).shader(p) == old(self).shader(p),
    {
        self.track(rid);
        Descriptor { rid, kind: DescriptorKind::StorageBuffer }
    }

    /// Records a uniform buffer the device created from `buffer_request`.
    pub fn create_uniform_buffer(&mut self, rid: u64) -> (r: Descriptor)
        requires
            old(self).has_device(),
        ensures
            r == (Descriptor { rid, kind: DescriptorKind::UniformBuffer }),
            final(self).allocated() == old(self).allocated().push(rid),
            final(self).has_device(),
            final(self).wf() == old(self).wf(),
            final(self).needs_sync() == old(self).needs_sync(),
            forall|p: Seq<char>| final(self).shader(p) == old(self).shader(p),
    {
        self.track(rid);
        Descriptor { rid, kind: DescriptorKind::UniformBuffer }
    }

    /// Records a texture the device created from `texture_request`.
    pub fn create_texture(&mut self, rid: u64) -> (r: Descriptor)
        requires
            old(self).has_device(),
        ensures
            r == (Descriptor { rid, kind: DescriptorKind::Image }),
            final(self).allocated() == old(self).allocated().push(rid),
            final(self).has_device(),
            final(self).wf() == old(self).wf(),
            final(self).needs_sync() == old(self).needs_sync(),
            forall|p: Seq<char>| final(self).shader(p) == old(self).shader(p),
    {
        self.track(rid);
        Descriptor { rid, kind: DescriptorKind::Image }
    }

    /// Records a descriptor set the device built from
    /// `descriptor_set_bindings`.
    pub fn create_descriptor_set(&mut self, rid: u64) -> (r: u64)
        requires
            old(self).has_device(),
        ensures
            r == rid,
            final(self).allocated() == old(self).allocated().push(rid),
            final(self).has_device(),
            final(self).wf() == old(self).wf(),
            final(self).needs_sync() == old(self).needs_sync(),
            forall|p: Seq<char>| final(self).shader(p) == old(self).shader(p),
    {
        self.track(rid);
        rid
    }

    /// Records a compute pipeline the device linked, and returns the unit
    /// that dispatches it with `descriptor_sets` and `block_dims` by default.
    pub fn create_pipeline(&mut self, pipeline: u64, block_dims: Option<BlockDims>, descriptor_sets: Vec<u64>) -> (r: DispatchUnit)
        requires
            old(self).has_device(),
        ensures
            r.pipeline == pipeline,
            r.default_sets == descriptor_sets,
            r.block_dims == block_dims,
            final(self).allocated() == old(self).allocated().push(pipeline),
            final(self).has_device(),
            final(self).wf() == old(self).wf(),
            final(self).needs_sync() == old(self).needs_sync(),
            forall|p: Seq<char>| final(self).shader(p) == old(self).shader(p),
    {
        self.track(pipeline);
        DispatchUnit::new(pipeline, descriptor_sets, block_dims)
    }

    /// The shader handle already compiled for `path`.
    pub fn cached_shader(&self, path: &String) -> (r: Option<u64>)
        requires
            self.wf(),
        ensures
            r == self.shader(path@),
    {
        let n = self.shader_paths.len();
        let ghost paths = self.shader_paths@.map_values(|s: String| s@);
        let ghost rids = self.shader_rids@;
        let mut i: usize = 0;
        assert(paths.subrange(0, n as int) =~= paths);
        assert(rids.subrange(0, n as int) =~= rids);
        while i < n
            invariant
                i <= n,
                n == paths.len(),
                n == rids.len(),
                paths == self.shader_paths@.map_values(|s: String| s@),
                rids == self.shader_rids@,
                lookup(paths, rids, path@) == lookup(
                    paths.subrange(i as int, n as int),
                    rids.subrange(i as int, n as int),
                    path@,
                ),
            decreases n - i,
        {
            let ghost sp = paths.subrange(i as int, n as int);
            let ghost sr = rids.subrange(i as int, n as int);
            assert(sp.subrange(1, sp.len() as int) =~= paths.subrange(i + 1, n as int));
            assert(sr.subrange(1, sr.len() as int) =~= rids.subrange(i + 1, n as int));
            assert(sp[0] == self.shader_paths@[i as int]@);
            if self.shader_paths[i] == *path {
                return Some(self.shader_rids[i]);
            }
            i = i + 1;
        }
        None
    }

    /// The handle of the shader at `path`, compiling it at most once.
    ///
    /// A path already cached returns its handle and `compiled` is not used.
    /// Otherwise `compiled` is the result of compiling the asset: none means
    /// the asset held no bytecode; a handle is cached and tracked.
    pub fn load_shader(&mut self, path: String, compiled: Option<u64>) -> (r: Result<u64, GpuError>)
        requires
            old(self).wf(),
            old(self).has_device(),
        ensures
            final(self).wf(),
            final(self).has_device(),
            final(self).needs_sync() == old(self).needs_sync(),
            old(self).shader(path@) is Some ==> {
                &&& r == Ok::<u64, GpuError>(old(self).shader(path@).unwrap())
                &&& final(self).allocated() == old(self).allocated()
                &&& forall|p: Seq<char>| final(self).shader(p) == old(self).shader(p)
            },
            old(self).shader(path@) is None && compiled is None ==> {
                &&& r == Err::<u64, GpuError>(GpuError::InvalidShader)
                &&& final(self).allocated() == old(self).allocated()
                &&& forall|p: Seq<char>| final(self).shader(p) == old(self).shader(p)
            },
            old(self).shader(path@) is None && compiled is Some ==> {
                &&& r == Ok::<u64, GpuError>(compiled.unwrap())
                &&& final(self).allocated() == old(self).allocated().push(compiled.unwrap())
                &&& forall|p: Seq<char>| #[trigger] final(self).shader(p) == if p == path@ {
                    compiled
                } else {
                    old(self).shader(p)
                }
            },
    {
        match self.cached_shader(&path) {
            Some(rid) => Ok(rid),
            None => match compiled {
                None => Err(GpuError::InvalidShader),
                Some(rid) => {
                    let ghost old_paths = self.shader_paths@.map_values(|s: String| s@);
                    let ghost old_rids = self.shader_rids@;
                    let ghost p0 = path@;
                    self.deletion_queue.push(rid);
                    self.shader_paths.push(path);
                    self.shader_rids.push(rid);
                    proof {
                        assert(self.shader_paths@.map_values(|s: String| s@) =~= old_paths.push(p0));
                        assert forall|p: Seq<char>| #[trigger] self.shader(p) == if p == p0 {
                            Some(rid)
                        } else {
                            lookup(old_paths, old_rids, p)
                        } by {
                            lemma_lookup_push(old_paths, old_rids, p0, rid, p);
                        }
                    }
                    Ok(rid)
                },
            },
        }
    }

    /// Marks submitted work as pending.
    pub fn submit(&mut self)
        requires
            old(self).has_device(),
        ensures
            final(self).needs_sync(),
            final(self).has_device(),
            final(self).wf() == old(self).wf(),
            final(self).allocated() == old(self).allocated(),
            forall|p: Seq<char>| final(self).shader(p) == old(self).shader(p),
    {
        self.needs_sync = true;
    }

    /// Marks pending work as complete.
    pub fn sync(&mut self)
        requires
            old(self).has_device(),
        ensures
            !final(self).needs_sync(),
            final(self).has_device(),
            final(self).wf() == old(self).wf(),
            final(self).allocated() == old(self).allocated(),
            forall|p: Seq<char>| final(self).shader(p) == old(self).shader(p),
    {
        self.needs_sync = false;
    }

    /// Forgets `rid`, which the caller frees on the device when this
    /// returns true.
    pub fn free_rid(&mut self, rid: u64) -> (found: bool)
        requires
            old(self).has_device(),
        ensures
            found == old(self).allocated().contains(rid),
            !found ==> final(self).allocated() == old(self).allocated(),
            found ==> exists|k: int|
                0 <= k < old(self).allocated().len() && old(self).allocated()[k] == rid
                    && (forall|m: int| 0 <= m < k ==> old(self).allocated()[m] != rid)
                    && final(self).allocated() == old(self).allocated().remove(k),
            final(self).has_device(),
            final(self).wf() == old(self).wf(),
            final(self).needs_sync() == old(self).needs_sync(),
            forall|p: Seq<char>| final(self).shader(p) == old(self).shader(p),
    {
        let found = self.deletion_queue.free_rid(rid);
        proof {
            if found {
                let k = choose|k: int|
                    0 <= k < old(self).deletion_queue@.len() && old(self).deletion_queue@[k] == rid
                        && (forall|m: int| 0 <= m < k ==> old(self).deletion_queue@[m] != rid)
                        && self.deletion_queue@ == old(self).deletion_queue@.remove(k);
                assert(old(self).allocated()[k] == rid);
            }
        }
        found
    }

    /// Tears the context down: with a device attached, every allocated
    /// handle is handed out for release newest first, the shader cache is
    /// emptied and the device is detached; the device itself is freed
    /// unless it is the host's default device.
    pub fn teardown(&mut self, device_is_default: bool) -> (r: Option<Teardown>)
        requires
            old(self).wf(),
        ensures
            final(self).wf(),
            !final(self).has_device(),
            old(self).has_device() ==> {
                &&& r is Some
                &&& r.unwrap().released@ == release_order(old(self).allocated())
                &&& r.unwrap().free_device == !device_is_default
                &&& final(self).allocated() == Seq::<u64>::empty()
                &&& forall|p: Seq<char>| final(self).shader(p) is None
            },
            !old(self).has_device() ==> r is None && *final(self) == *old(self),
    {
        if !self.device_attached {
            return None;
        }
        let released = self.deletion_queue.flush();
        self.shader_paths = Vec::new();
        self.shader_rids = Vec::new();
        self.device_attached = false;
        Some(Teardown { released, free_device: !device_is_default })
    }
}

} // verus!
