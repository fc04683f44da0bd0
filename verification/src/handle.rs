//! Device resource handles.
//!
//! A handle shares ownership of a resource name with the [`Manager`] that
//! made it. The manager keeps a reference to every resource it made and to
//! every resource a command buffer referenced, and releases those that no
//! handle refers to any longer when it is cleaned.

use crate::info::{BufferInfo, PipelineInfo, ProgramInfo, SamplerInfo, SurfaceInfo, TextureInfo};
use crate::shared::{append_clones, arc_address, arc_clone, clean_vec, names, record, trail};
use crate::positions::{cleaned, flagged, released_at};
use std::cmp::Ordering;
use std::marker::PhantomData;
use std::sync::Arc;
use vstd::prelude::*;

verus! {

/// The types that a rendering back end uses to name its resources.
pub trait Resources: Clone + std::hash::Hash + std::fmt::Debug + Eq + PartialEq {
    type Buffer: Clone + std::hash::Hash + std::fmt::Debug + Eq + PartialEq + Copy;
    type ArrayBuffer: Clone + std::hash::Hash + std::fmt::Debug + Eq + PartialEq + Copy;
    type Shader: Clone + std::hash::Hash + std::fmt::Debug + Eq + PartialEq + Copy;
    type Program: Clone + std::hash::Hash + std::fmt::Debug + Eq + PartialEq + Copy;
    type PipelineState: Clone + std::hash::Hash + std::fmt::Debug + Eq + PartialEq + Copy;
    type FrameBuffer: Clone + std::hash::Hash + std::fmt::Debug + Eq + PartialEq + Copy;
    type Surface: Clone + std::hash::Hash + std::fmt::Debug + Eq + PartialEq + Copy;
    type Texture: Clone + std::hash::Hash + std::fmt::Debug + Eq + PartialEq + Copy;
    type Sampler: Clone + std::hash::Hash + std::fmt::Debug + Eq + PartialEq + Copy;
    type Fence: Clone + std::hash::Hash + std::fmt::Debug + Eq + PartialEq + Copy;
}

/// The order of two allocation addresses.
pub fn order_by_address(a: usize, b: usize) -> (r: Ordering)
    ensures
        r == Ordering::Less <==> a < b,
        r == Ordering::Equal <==> a == b,
        r == Ordering::Greater <==> a > b,
{
    if a < b {
        Ordering::Less
    } else if a == b {
        Ordering::Equal
    } else {
        Ordering::Greater
    }
}

/// Raw (untyped) Buffer Handle
#[derive(Debug, Eq, Hash, PartialEq)]
pub struct RawBuffer<R: Resources>(Arc<R::Buffer>, BufferInfo);

impl<R: Resources> Clone for RawBuffer<R> {
    /// Another handle to the same buffer, with the same description.
    fn clone(&self) -> (r: Self)
        ensures
            r == *self,
    {
        RawBuffer(arc_clone(&self.0), self.1)
    }
}

impl<R: Resources> RawBuffer<R> {
    /// The back end's name of the buffer.
    pub closed spec fn name(&self) -> R::Buffer {
        *self.0
    }

    /// The buffer's description.
    pub closed spec fn info(&self) -> BufferInfo {
        self.1
    }

    /// Two raw buffer handles with the same name and description are equal.
    pub proof fn lemma_eq(a: Self, b: Self)
        requires
            a.name() == b.name(),
            a.info() == b.info(),
        ensures
            a == b,
    {
    }

    /// Get raw buffer info
    pub fn get_info(&self) -> (r: &BufferInfo)
        ensures
            *r == self.info(),
    {
        &self.1
    }

    /// Compare the handle by the reference (not data)
    pub fn cmp_ref(&self, other: &RawBuffer<R>) -> Ordering {
        order_by_address(arc_address(&self.0), arc_address(&other.0))
    }
}

/// Type-safe buffer handle
#[derive(Debug, Hash, PartialEq)]
pub struct Buffer<R: Resources, T> {
    raw: RawBuffer<R>,
    phantom_t: PhantomData<T>,
}

impl<R: Resources, T: Clone> Clone for Buffer<R, T> {
    /// Another handle to the same buffer.
    fn clone(&self) -> (r: Self)
        ensures
            r.raw_handle() == self.raw_handle(),
    {
        Buffer { raw: self.raw.clone(), phantom_t: PhantomData }
    }
}

impl<R: Resources, T> Buffer<R, T> {
    /// The untyped handle underneath.
    pub closed spec fn raw_handle(&self) -> RawBuffer<R> {
        self.raw
    }

    /// Two typed buffer handles over the same raw handle are equal.
    pub proof fn lemma_eq(a: Self, b: Self)
        requires
            a.raw_handle() == b.raw_handle(),
        ensures
            a == b,
    {
    }

    /// Create a type-safe Buffer from a RawBuffer
    pub fn from_raw(handle: RawBuffer<R>) -> (r: Buffer<R, T>)
        ensures
            r.raw_handle() == handle,
    {
        Buffer { raw: handle, phantom_t: PhantomData }
    }

    /// Cast the type this Buffer references
    pub fn cast<U>(self) -> (r: Buffer<R, U>)
        ensures
            r.raw_handle() == self.raw_handle(),
    {
        Buffer::from_raw(self.raw)
    }

    /// Get the underlying raw Handle
    pub fn raw(&self) -> (r: &RawBuffer<R>)
        ensures
            *r == self.raw_handle(),
    {
        &self.raw
    }

    /// Get the associated information about the buffer
    pub fn get_info(&self) -> (r: &BufferInfo)
        ensures
            *r == self.raw_handle().info(),
    {
        self.raw.get_info()
    }

    /// Get the number of elements in the buffer.
    ///
    /// Fails if `T` is zero-sized.
    pub fn len(&self) -> (r: usize)
        requires
            vstd::layout::size_of::<T>() != 0,
        ensures
            r as nat == self.raw_handle().info().size as nat / vstd::layout::size_of::<T>(),
    {
        self.get_info().size / core::mem::size_of::<T>()
    }
}

/// Array Buffer Handle
#[derive(Debug, Hash, PartialEq)]
pub struct ArrayBuffer<R: Resources>(Arc<R::ArrayBuffer>);

impl<R: Resources> Clone for ArrayBuffer<R> {
    /// Another handle to the same array buffer.
    fn clone(&self) -> (r: Self)
        ensures
            r == *self,
    {
        ArrayBuffer(arc_clone(&self.0))
    }
}

impl<R: Resources> ArrayBuffer<R> {
    /// The back end's name of the array buffer.
    pub closed spec fn name(&self) -> R::ArrayBuffer {
        *self.0
    }
}

/// Shader Handle
#[derive(Debug, Hash, PartialEq)]
pub struct Shader<R: Resources>(Arc<R::Shader>);

impl<R: Resources> Clone for Shader<R> {
    /// Another handle to the same shader.
    fn clone(&self) -> (r: Self)
        ensures
            r == *self,
    {
        Shader(arc_clone(&self.0))
    }
}

impl<R: Resources> Shader<R> {
    /// The back end's name of the shader.
    pub closed spec fn name(&self) -> R::Shader {
        *self.0
    }
}

/// Program Handle
#[derive(Debug, PartialEq)]
pub struct Program<R: Resources>(Arc<R::Program>, ProgramInfo);

impl<R: Resources> Clone for Program<R> {
    /// Another handle to the same program.
    fn clone(&self) -> (r: Self)
        ensures
            r == *self,
    {
        Program(arc_clone(&self.0), self.1)
    }
}

impl<R: Resources> Program<R> {
    /// The back end's name of the program.
    pub closed spec fn name(&self) -> R::Program {
        *self.0
    }

    /// The program's description.
    pub closed spec fn info(&self) -> ProgramInfo {
        self.1
    }

    /// Get program info
    pub fn get_info(&self) -> (r: &ProgramInfo)
        ensures
            *r == self.info(),
    {
        &self.1
    }
}

/// Pipeline State Handle
#[derive(Debug, PartialEq)]
pub struct PipelineState<R: Resources>(Arc<R::PipelineState>, PipelineInfo, ProgramInfo);

impl<R: Resources> Clone for PipelineState<R> {
    /// Another handle to the same pipeline state object.
    fn clone(&self) -> (r: Self)
        ensures
            r == *self,
    {
        PipelineState(arc_clone(&self.0), self.1, self.2)
    }
}

impl<R: Resources> PipelineState<R> {
    /// The back end's name of the pipeline state object.
    pub closed spec fn name(&self) -> R::PipelineState {
        *self.0
    }

    /// The pipeline's description.
    pub closed spec fn info(&self) -> PipelineInfo {
        self.1
    }

    /// The description of the program the pipeline runs.
    pub closed spec fn program_info(&self) -> ProgramInfo {
        self.2
    }

    /// get pipeline info
    pub fn get_info(&self) -> (r: &PipelineInfo)
        ensures
            *r == self.info(),
    {
        &self.1
    }

    /// Get program info
    pub fn get_program_info(&self) -> (r: &ProgramInfo)
        ensures
            *r == self.program_info(),
    {
        &self.2
    }
}

/// Frame Buffer Handle
#[derive(Debug, Hash, PartialEq)]
pub struct FrameBuffer<R: Resources>(Arc<R::FrameBuffer>);

impl<R: Resources> Clone for FrameBuffer<R> {
    /// Another handle to the same frame buffer.
    fn clone(&self) -> (r: Self)
        ensures
            r == *self,
    {
        FrameBuffer(arc_clone(&self.0))
    }
}

impl<R: Resources> FrameBuffer<R> {
    /// The back end's name of the frame buffer.
    pub closed spec fn name(&self) -> R::FrameBuffer {
        *self.0
    }
}

/// Surface Handle
#[derive(Debug, Hash, PartialEq)]
pub struct Surface<R: Resources>(Arc<R::Surface>, SurfaceInfo);

impl<R: Resources> Clone for Surface<R> {
    /// Another handle to the same surface.
    fn clone(&self) -> (r: Self)
        ensures
            r == *self,
    {
        Surface(arc_clone(&self.0), self.1)
    }
}

impl<R: Resources> Surface<R> {
    /// The back end's name of the surface.
    pub closed spec fn name(&self) -> R::Surface {
        *self.0
    }

    /// The surface's description.
    pub closed spec fn info(&self) -> SurfaceInfo {
        self.1
    }

    /// Get surface info
    pub fn get_info(&self) -> (r: &SurfaceInfo)
        ensures
            *r == self.info(),
    {
        &self.1
    }
}

/// Texture Handle
#[derive(Debug, Hash, PartialEq)]
pub struct Texture<R: Resources>(Arc<R::Texture>, TextureInfo);

impl<R: Resources> Clone for Texture<R> {
    /// Another handle to the same texture.
    fn clone(&self) -> (r: Self)
        ensures
            r == *self,
    {
        Texture(arc_clone(&self.0), self.1)
    }
}

impl<R: Resources> Texture<R> {
    /// The back end's name of the texture.
    pub closed spec fn name(&self) -> R::Texture {
        *self.0
    }

    /// The texture's description.
    pub closed spec fn info(&self) -> TextureInfo {
        self.1
    }

    /// Get texture info
    pub fn get_info(&self) -> (r: &TextureInfo)
        ensures
            *r == self.info(),
    {
        &self.1
    }
}

/// Sampler Handle
#[derive(Debug, PartialEq)]
pub struct Sampler<R: Resources>(Arc<R::Sampler>, SamplerInfo);

impl<R: Resources> Clone for Sampler<R> {
    /// Another handle to the same sampler.
    fn clone(&self) -> (r: Self)
        ensures
            r == *self,
    {
        Sampler(arc_clone(&self.0), self.1)
    }
}

impl<R: Resources> Sampler<R> {
    /// The back end's name of the sampler.
    pub closed spec fn name(&self) -> R::Sampler {
        *self.0
    }

    /// The sampler's description.
    pub closed spec fn info(&self) -> SamplerInfo {
        self.1
    }

    /// Get sampler info
    pub fn get_info(&self) -> (r: &SamplerInfo)
        ensures
            *r == self.info(),
    {
        &self.1
    }
}

/// Fence Handle
#[derive(Debug, PartialEq)]
pub struct Fence<R: Resources>(Arc<R::Fence>);

impl<R: Resources> Clone for Fence<R> {
    /// Another handle to the same fence.
    fn clone(&self) -> (r: Self)
        ensures
            r == *self,
    {
        Fence(arc_clone(&self.0))
    }
}

impl<R: Resources> Fence<R> {
    /// The back end's name of the fence.
    pub closed spec fn name(&self) -> R::Fence {
        *self.0
    }
}

/// The kinds of resource a [`Manager`] keeps references to.
pub enum Kind {
    /// Buffers.
    Buffer,
    /// Array buffers (vertex array objects).
    ArrayBuffer,
    /// Shaders.
    Shader,
    /// Linked programs.
    Program,
    /// Pipeline state objects.
    PipelineState,
    /// Frame buffers.
    FrameBuffer,
    /// Surfaces.
    Surface,
    /// Textures.
    Texture,
    /// Samplers.
    Sampler,
    /// Fences.
    Fence,
}

/// Stores reference-counted resources used in a command buffer.
/// Seals actual resource names behind the interface, automatically
/// referencing them both by the Factory on resource creation
/// and the Renderer during CommandBuffer population.
pub struct Manager<R: Resources> {
    buffers: Vec<Arc<R::Buffer>>,
    array_buffers: Vec<Arc<R::ArrayBuffer>>,
    shaders: Vec<Arc<R::Shader>>,
    programs: Vec<Arc<R::Program>>,
    pipeline_states: Vec<Arc<R::PipelineState>>,
    frame_buffers: Vec<Arc<R::FrameBuffer>>,
    surfaces: Vec<Arc<R::Surface>>,
    textures: Vec<Arc<R::Texture>>,
    samplers: Vec<Arc<R::Sampler>>,
    fences: Vec<Arc<R::Fence>>,
}

impl<R: Resources> Manager<R> {
    /// The buffers referenced, one entry per reference, in order.
    pub closed spec fn buffers(&self) -> Seq<R::Buffer> {
        names(self.buffers@)
    }

    /// The array buffers referenced, one entry per reference, in order.
    pub closed spec fn array_buffers(&self) -> Seq<R::ArrayBuffer> {
        names(self.array_buffers@)
    }

    /// The shaders referenced, one entry per reference, in order.
    pub closed spec fn shaders(&self) -> Seq<R::Shader> {
        names(self.shaders@)
    }

    /// The programs referenced, one entry per reference, in order.
    pub closed spec fn programs(&self) -> Seq<R::Program> {
        names(self.programs@)
    }

    /// The pipeline state objects referenced, one entry per reference, in order.
    pub closed spec fn pipeline_states(&self) -> Seq<R::PipelineState> {
        names(self.pipeline_states@)
    }

    /// The frame buffers referenced, one entry per reference, in order.
    pub closed spec fn frame_buffers(&self) -> Seq<R::FrameBuffer> {
        names(self.frame_buffers@)
    }

    /// The surfaces referenced, one entry per reference, in order.
    pub closed spec fn surfaces(&self) -> Seq<R::Surface> {
        names(self.surfaces@)
    }

    /// The textures referenced, one entry per reference, in order.
    pub closed spec fn textures(&self) -> Seq<R::Texture> {
        names(self.textures@)
    }

    /// The samplers referenced, one entry per reference, in order.
    pub closed spec fn samplers(&self) -> Seq<R::Sampler> {
        names(self.samplers@)
    }

    /// The fences referenced, one entry per reference, in order.
    pub closed spec fn fences(&self) -> Seq<R::Fence> {
        names(self.fences@)
    }

    /// The number of references held, over all kinds.
    pub open spec fn total(&self) -> nat {
        self.buffers().len() + self.array_buffers().len() + self.shaders().len()
            + self.programs().len() + self.pipeline_states().len() + self.frame_buffers().len()
            + self.surfaces().len() + self.textures().len() + self.samplers().len()
            + self.fences().len()
    }

    /// No references of any kind are held.
    pub open spec fn is_empty(&self) -> bool {
        &&& self.buffers().len() == 0
        &&& self.array_buffers().len() == 0
        &&& self.shaders().len() == 0
        &&& self.programs().len() == 0
        &&& self.pipeline_states().len() == 0
        &&& self.frame_buffers().len() == 0
        &&& self.surfaces().len() == 0
        &&& self.textures().len() == 0
        &&& self.samplers().len() == 0
        &&& self.fences().len() == 0
    }

    /// `self` and `other` hold the same references of every kind, in the same order.
    pub open spec fn same_records(&self, other: &Self) -> bool {
        &&& self.buffers() == other.buffers()
        &&& self.array_buffers() == other.array_buffers()
        &&& self.shaders() == other.shaders()
        &&& self.programs() == other.programs()
        &&& self.pipeline_states() == other.pipeline_states()
        &&& self.frame_buffers() == other.frame_buffers()
        &&& self.surfaces() == other.surfaces()
        &&& self.textures() == other.textures()
        &&& self.samplers() == other.samplers()
        &&& self.fences() == other.fences()
    }

    /// `self` and `other` hold the same references of every kind but `kind`.
    pub open spec fn same_except(&self, other: &Self, kind: Kind) -> bool {
        &&& kind != Kind::Buffer ==> self.buffers() == other.buffers()
        &&& kind != Kind::ArrayBuffer ==> self.array_buffers() == other.array_buffers()
        &&& kind != Kind::Shader ==> self.shaders() == other.shaders()
        &&& kind != Kind::Program ==> self.programs() == other.programs()
        &&& kind != Kind::PipelineState ==> self.pipeline_states() == other.pipeline_states()
        &&& kind != Kind::FrameBuffer ==> self.frame_buffers() == other.frame_buffers()
        &&& kind != Kind::Surface ==> self.surfaces() == other.surfaces()
        &&& kind != Kind::Texture ==> self.textures() == other.textures()
        &&& kind != Kind::Sampler ==> self.samplers() == other.samplers()
        &&& kind != Kind::Fence ==> self.fences() == other.fences()
    }
}

impl<R: Resources> Manager<R> {
    /// Create a new handle manager
    pub fn new() -> (r: Manager<R>)
        ensures
            r.is_empty(),
            r.total() == 0,
    {
        let r = Manager {
            buffers: Vec::new(),
            array_buffers: Vec::new(),
            shaders: Vec::new(),
            programs: Vec::new(),
            pipeline_states: Vec::new(),
            frame_buffers: Vec::new(),
            surfaces: Vec::new(),
            textures: Vec::new(),
            samplers: Vec::new(),
            fences: Vec::new(),
        };
        assert(r.buffers() =~= Seq::empty());
        r
    }

    /// Clear all references
    pub fn clear(&mut self)
        ensures
            final(self).is_empty(),
            final(self).total() == 0,
    {
        self.buffers.clear();
        self.array_buffers.clear();
        self.shaders.clear();
        self.programs.clear();
        self.pipeline_states.clear();
        self.frame_buffers.clear();
        self.surfaces.clear();
        self.textures.clear();
        self.samplers.clear();
        self.fences.clear();
    }

    /// Extend with all references of another handle manager
    pub fn extend(&mut self, other: &Manager<R>)
        ensures
            final(self).buffers() == old(self).buffers() + other.buffers(),
            final(self).array_buffers() == old(self).array_buffers() + other.array_buffers(),
            final(self).shaders() == old(self).shaders() + other.shaders(),
            final(self).programs() == old(self).programs() + other.programs(),
            final(self).pipeline_states() == old(self).pipeline_states() + other.pipeline_states(),
            final(self).frame_buffers() == old(self).frame_buffers() + other.frame_buffers(),
            final(self).surfaces() == old(self).surfaces() + other.surfaces(),
            final(self).textures() == old(self).textures() + other.textures(),
            final(self).samplers() == old(self).samplers() + other.samplers(),
            final(self).fences() == old(self).fences() + other.fences(),
            final(self).total() == old(self).total() + other.total(),
    {
        append_clones(&mut self.buffers, &other.buffers);
        append_clones(&mut self.array_buffers, &other.array_buffers);
        append_clones(&mut self.shaders, &other.shaders);
        append_clones(&mut self.programs, &other.programs);
        append_clones(&mut self.pipeline_states, &other.pipeline_states);
        append_clones(&mut self.frame_buffers, &other.frame_buffers);
        append_clones(&mut self.surfaces, &other.surfaces);
        append_clones(&mut self.textures, &other.textures);
        append_clones(&mut self.samplers, &other.samplers);
        append_clones(&mut self.fences, &other.fences);
    }

    /// Count the total number of referenced resources
    pub fn count(&self) -> (r: usize)
        requires
            self.total() <= usize::MAX,
        ensures
            r == self.total(),
    {
        self.buffers.len() + self.array_buffers.len() + self.shaders.len() + self.programs.len()
            + self.pipeline_states.len() + self.frame_buffers.len() + self.surfaces.len()
            + self.textures.len() + self.samplers.len() + self.fences.len()
    }

    /// Reference a buffer
    pub fn ref_buffer(&mut self, handle: &RawBuffer<R>) -> (r: R::Buffer)
        ensures
            r == handle.name(),
            final(self).buffers() == old(self).buffers().push(handle.name()),
            final(self).same_except(old(self), Kind::Buffer),
            final(self).total() == old(self).total() + 1,
    {
        record(&mut self.buffers, &handle.0);
        *handle.0
    }

    /// Reference an array buffer
    pub fn ref_array_buffer(&mut self, handle: &ArrayBuffer<R>) -> (r: R::ArrayBuffer)
        ensures
            r == handle.name(),
            final(self).array_buffers() == old(self).array_buffers().push(handle.name()),
            final(self).same_except(old(self), Kind::ArrayBuffer),
            final(self).total() == old(self).total() + 1,
    {
        record(&mut self.array_buffers, &handle.0);
        *handle.0
    }

    /// Reference a shader
    pub fn ref_shader(&mut self, handle: &Shader<R>) -> (r: R::Shader)
        ensures
            r == handle.name(),
            final(self).shaders() == old(self).shaders().push(handle.name()),
            final(self).same_except(old(self), Kind::Shader),
            final(self).total() == old(self).total() + 1,
    {
        record(&mut self.shaders, &handle.0);
        *handle.0
    }

    /// Reference a program
    pub fn ref_program(&mut self, handle: &Program<R>) -> (r: R::Program)
        ensures
            r == handle.name(),
            final(self).programs() == old(self).programs().push(handle.name()),
            final(self).same_except(old(self), Kind::Program),
            final(self).total() == old(self).total() + 1,
    {
        record(&mut self.programs, &handle.0);
        *handle.0
    }

    /// Reference a pipeline state object
    pub fn ref_pipeline_state(&mut self, handle: &PipelineState<R>) -> (r: R::PipelineState)
        ensures
            r == handle.name(),
            final(self).pipeline_states() == old(self).pipeline_states().push(handle.name()),
            final(self).same_except(old(self), Kind::PipelineState),
            final(self).total() == old(self).total() + 1,
    {
        record(&mut self.pipeline_states, &handle.0);
        *handle.0
    }

    /// Reference a frame buffer
    pub fn ref_frame_buffer(&mut self, handle: &FrameBuffer<R>) -> (r: R::FrameBuffer)
        ensures
            r == handle.name(),
            final(self).frame_buffers() == old(self).frame_buffers().push(handle.name()),
            final(self).same_except(old(self), Kind::FrameBuffer),
            final(self).total() == old(self).total() + 1,
    {
        record(&mut self.frame_buffers, &handle.0);
        *handle.0
    }

    /// Reference a surface
    pub fn ref_surface(&mut self, handle: &Surface<R>) -> (r: R::Surface)
        ensures
            r == handle.name(),
            final(self).surfaces() == old(self).surfaces().push(handle.name()),
            final(self).same_except(old(self), Kind::Surface),
            final(self).total() == old(self).total() + 1,
    {
        record(&mut self.surfaces, &handle.0);
        *handle.0
    }

    /// Reference a texture
    pub fn ref_texture(&mut self, handle: &Texture<R>) -> (r: R::Texture)
        ensures
            r == handle.name(),
            final(self).textures() == old(self).textures().push(handle.name()),
            final(self).same_except(old(self), Kind::Texture),
            final(self).total() == old(self).total() + 1,
    {
        record(&mut self.textures, &handle.0);
        *handle.0
    }

    /// Reference a sampler
    pub fn ref_sampler(&mut self, handle: &Sampler<R>) -> (r: R::Sampler)
        ensures
            r == handle.name(),
            final(self).samplers() == old(self).samplers().push(handle.name()),
            final(self).same_except(old(self), Kind::Sampler),
            final(self).total() == old(self).total() + 1,
    {
        record(&mut self.samplers, &handle.0);
        *handle.0
    }

    /// Reference a fence
    pub fn ref_fence(&mut self, fence: &Fence<R>) -> (r: R::Fence)
        ensures
            r == fence.name(),
            final(self).fences() == old(self).fences().push(fence.name()),
            final(self).same_except(old(self), Kind::Fence),
            final(self).total() == old(self).total() + 1,
    {
        record(&mut self.fences, &fence.0);
        *fence.0
    }
}

/// A service trait to be used by the device implementation
pub trait Producer<R: Resources> {
    /// Takes over a new buffer and hands out a handle to it.
    fn make_buffer(&mut self, name: R::Buffer, info: BufferInfo) -> RawBuffer<R>;

    /// Takes over a new array buffer and hands out a handle to it.
    fn make_array_buffer(&mut self, name: R::ArrayBuffer) -> ArrayBuffer<R>;

    /// Takes over a new shader and hands out a handle to it.
    fn make_shader(&mut self, name: R::Shader) -> Shader<R>;

    /// Takes over a new program and hands out a handle to it.
    fn make_program(&mut self, name: R::Program, info: ProgramInfo) -> Program<R>;

    /// Takes over a new pipeline state object and hands out a handle to it.
    fn make_pipeline_state(&mut self, name: R::PipelineState, info: PipelineInfo, prog_info: ProgramInfo) -> PipelineState<R>;

    /// Takes over a new frame buffer and hands out a handle to it.
    fn make_frame_buffer(&mut self, name: R::FrameBuffer) -> FrameBuffer<R>;

    /// Takes over a new surface and hands out a handle to it.
    fn make_surface(&mut self, name: R::Surface, info: SurfaceInfo) -> Surface<R>;

    /// Takes over a new texture and hands out a handle to it.
    fn make_texture(&mut self, name: R::Texture, info: TextureInfo) -> Texture<R>;

    /// Takes over a new sampler and hands out a handle to it.
    fn make_sampler(&mut self, name: R::Sampler, info: SamplerInfo) -> Sampler<R>;

    /// Takes over a new fence and hands out a handle to it.
    fn make_fence(&mut self, name: R::Fence) -> Fence<R>;

    /// Walk through all the handles, keep ones that are reference elsewhere
    /// and call the provided delete function (resource-specific) for others
    fn clean_with<
        T,
        A: Fn(&mut T, &R::Buffer),
        B: Fn(&mut T, &R::ArrayBuffer),
        C: Fn(&mut T, &R::Shader),
        D: Fn(&mut T, &R::Program),
        E: Fn(&mut T, &R::PipelineState),
        F: Fn(&mut T, &R::FrameBuffer),
        G: Fn(&mut T, &R::Surface),
        H: Fn(&mut T, &R::Texture),
        I: Fn(&mut T, &R::Sampler),
        J: Fn(&mut T, &R::Fence),
    >(&mut self, param: &mut T, fa: A, fb: B, fc: C, fd: D, fe: E, ff: F, fg: G, fh: H, fi: I, fj: J)
        requires
            forall|args: (&mut T, &R::Buffer)| #[trigger] fa.requires(args),
            forall|args: (&mut T, &R::ArrayBuffer)| #[trigger] fb.requires(args),
            forall|args: (&mut T, &R::Shader)| #[trigger] fc.requires(args),
            forall|args: (&mut T, &R::Program)| #[trigger] fd.requires(args),
            forall|args: (&mut T, &R::PipelineState)| #[trigger] fe.requires(args),
            forall|args: (&mut T, &R::FrameBuffer)| #[trigger] ff.requires(args),
            forall|args: (&mut T, &R::Surface)| #[trigger] fg.requires(args),
            forall|args: (&mut T, &R::Texture)| #[trigger] fh.requires(args),
            forall|args: (&mut T, &R::Sampler)| #[trigger] fi.requires(args),
            forall|args: (&mut T, &R::Fence)| #[trigger] fj.requires(args),
    ;
}

impl<R: Resources> Producer<R> for Manager<R> {
    fn make_buffer(&mut self, name: R::Buffer, info: BufferInfo) -> (r: RawBuffer<R>)
        ensures
            r.name() == name,
            r.info() == info,
            final(self).buffers() == old(self).buffers().push(name),
            final(self).same_except(old(self), Kind::Buffer),
            final(self).total() == old(self).total() + 1,
    {
        let r = Arc::new(name);
        record(&mut self.buffers, &r);
        RawBuffer(r, info)
    }

    fn make_array_buffer(&mut self, name: R::ArrayBuffer) -> (r: ArrayBuffer<R>)
        ensures
            r.name() == name,
            final(self).array_buffers() == old(self).array_buffers().push(name),
            final(self).same_except(old(self), Kind::ArrayBuffer),
            final(self).total() == old(self).total() + 1,
    {
        let r = Arc::new(name);
        record(&mut self.array_buffers, &r);
        ArrayBuffer(r)
    }

    fn make_shader(&mut self, name: R::Shader) -> (r: Shader<R>)
        ensures
            r.name() == name,
            final(self).shaders() == old(self).shaders().push(name),
            final(self).same_except(old(self), Kind::Shader),
            final(self).total() == old(self).total() + 1,
    {
        let r = Arc::new(name);
        record(&mut self.shaders, &r);
        Shader(r)
    }

    fn make_program(&mut self, name: R::Program, info: ProgramInfo) -> (r: Program<R>)
        ensures
            r.name() == name,
            r.info() == info,
            final(self).programs() == old(self).programs().push(name),
            final(self).same_except(old(self), Kind::Program),
            final(self).total() == old(self).total() + 1,
    {
        let r = Arc::new(name);
        record(&mut self.programs, &r);
        Program(r, info)
    }

    fn make_pipeline_state(&mut self, name: R::PipelineState, info: PipelineInfo, prog_info: ProgramInfo) -> (r: PipelineState<R>)
        ensures
            r.name() == name,
            r.info() == info,
            r.program_info() == prog_info,
            final(self).pipeline_states() == old(self).pipeline_states().push(name),
            final(self).same_except(old(self), Kind::PipelineState),
            final(self).total() == old(self).total() + 1,
    {
        let r = Arc::new(name);
        record(&mut self.pipeline_states, &r);
        PipelineState(r, info, prog_info)
    }

    fn make_frame_buffer(&mut self, name: R::FrameBuffer) -> (r: FrameBuffer<R>)
        ensures
            r.name() == name,
            final(self).frame_buffers() == old(self).frame_buffers().push(name),
            final(self).same_except(old(self), Kind::FrameBuffer),
            final(self).total() == old(self).total() + 1,
    {
        let r = Arc::new(name);
        record(&mut self.frame_buffers, &r);
        FrameBuffer(r)
    }

    fn make_surface(&mut self, name: R::Surface, info: SurfaceInfo) -> (r: Surface<R>)
        ensures
            r.name() == name,
            r.info() == info,
            final(self).surfaces() == old(self).surfaces().push(name),
            final(self).same_except(old(self), Kind::Surface),
            final(self).total() == old(self).total() + 1,
    {
        let r = Arc::new(name);
        record(&mut self.surfaces, &r);
        Surface(r, info)
    }

    fn make_texture(&mut self, name: R::Texture, info: TextureInfo) -> (r: Texture<R>)
        ensures
            r.name() == name,
            r.info() == info,
            final(self).textures() == old(self).textures().push(name),
            final(self).same_except(old(self), Kind::Texture),
            final(self).total() == old(self).total() + 1,
    {
        let r = Arc::new(name);
        record(&mut self.textures, &r);
        Texture(r, info)
    }

    fn make_sampler(&mut self, name: R::Sampler, info: SamplerInfo) -> (r: Sampler<R>)
        ensures
            r.name() == name,
            r.info() == info,
            final(self).samplers() == old(self).samplers().push(name),
            final(self).same_except(old(self), Kind::Sampler),
            final(self).total() == old(self).total() + 1,
    {
        let r = Arc::new(name);
        record(&mut self.samplers, &r);
        Sampler(r, info)
    }

    fn make_fence(&mut self, name: R::Fence) -> (r: Fence<R>)
        ensures
            r.name() == name,
            final(self).fences() == old(self).fences().push(name),
            final(self).same_except(old(self), Kind::Fence),
            final(self).total() == old(self).total() + 1,
    {
        let r = Arc::new(name);
        record(&mut self.fences, &r);
        Fence(r)
    }

    fn clean_with<
        T,
        A: Fn(&mut T, &R::Buffer),
        B: Fn(&mut T, &R::ArrayBuffer),
        C: Fn(&mut T, &R::Shader),
        D: Fn(&mut T, &R::Program),
        E: Fn(&mut T, &R::PipelineState),
        F: Fn(&mut T, &R::FrameBuffer),
        G: Fn(&mut T, &R::Surface),
        H: Fn(&mut T, &R::Texture),
        I: Fn(&mut T, &R::Sampler),
        J: Fn(&mut T, &R::Fence),
    >(&mut self, param: &mut T, fa: A, fb: B, fc: C, fd: D, fe: E, ff: F, fg: G, fh: H, fi: I, fj: J)
        ensures
            cleaned(old(self).buffers(), final(self).buffers()),
            cleaned(old(self).array_buffers(), final(self).array_buffers()),
            cleaned(old(self).shaders(), final(self).shaders()),
            cleaned(old(self).programs(), final(self).programs()),
            cleaned(old(self).pipeline_states(), final(self).pipeline_states()),
            cleaned(old(self).frame_buffers(), final(self).frame_buffers()),
            cleaned(old(self).surfaces(), final(self).surfaces()),
            cleaned(old(self).textures(), final(self).textures()),
            cleaned(old(self).samplers(), final(self).samplers()),
            cleaned(old(self).fences(), final(self).fences()),
            final(self).total() <= old(self).total(),
            final(self).total() == old(self).total() ==> *final(param) == *old(param),
            final(self).total() == old(self).total() ==> final(self).same_records(old(self)),
            exists|stages: Seq<T>|
                #![trigger trail(stages, *old(param), *final(param), 10)]
                trail(stages, *old(param), *final(param), 10)
                && exists|flags: Seq<bool>, trace: Seq<T>|
                    #![trigger released_at(old(self).buffers(), final(self).buffers(), flags), trail(trace, stages[0], stages[1], flagged(flags).len())]
                    released_at(old(self).buffers(), final(self).buffers(), flags)
                    && trail(trace, stages[0], stages[1], flagged(flags).len())
                    && forall|j: int|
                        #![trigger flagged(flags)[j]]
                        0 <= j < flagged(flags).len() ==> flagged(flags)[j] < old(self).buffers().len() && exists|r: &mut T|
                            #![trigger fa.ensures((r, &old(self).buffers()[flagged(flags)[j] as int]), ())]
                            *r == trace[j] && *final(r) == trace[j + 1] && fa.ensures(
                                (r, &old(self).buffers()[flagged(flags)[j] as int]),
                                (),
                            )
                && exists|flags: Seq<bool>, trace: Seq<T>|
                    #![trigger released_at(old(self).array_buffers(), final(self).array_buffers(), flags), trail(trace, stages[1], stages[2], flagged(flags).len())]
                    released_at(old(self).array_buffers(), final(self).array_buffers(), flags)
                    && trail(trace, stages[1], stages[2], flagged(flags).len())
                    && forall|j: int|
                        #![trigger flagged(flags)[j]]
                        0 <= j < flagged(flags).len() ==> flagged(flags)[j] < old(self).array_buffers().len() && exists|r: &mut T|
                            #![trigger fb.ensures((r, &old(self).array_buffers()[flagged(flags)[j] as int]), ())]
                            *r == trace[j] && *final(r) == trace[j + 1] && fb.ensures(
                                (r, &old(self).array_buffers()[flagged(flags)[j] as int]),
                                (),
                            )
                && exists|flags: Seq<bool>, trace: Seq<T>|
                    #![trigger released_at(old(self).shaders(), final(self).shaders(), flags), trail(trace, stages[2], stages[3], flagged(flags).len())]
                    released_at(old(self).shaders(), final(self).shaders(), flags)
                    && trail(trace, stages[2], stages[3], flagged(flags).len())
                    && forall|j: int|
                        #![trigger flagged(flags)[j]]
                        0 <= j < flagged(flags).len() ==> flagged(flags)[j] < old(self).shaders().len() && exists|r: &mut T|
                            #![trigger fc.ensures((r, &old(self).shaders()[flagged(flags)[j] as int]), ())]
                            *r == trace[j] && *final(r) == trace[j + 1] && fc.ensures(
                                (r, &old(self).shaders()[flagged(flags)[j] as int]),
                                (),
                            )
                && exists|flags: Seq<bool>, trace: Seq<T>|
                    #![trigger released_at(old(self).programs(), final(self).programs(), flags), trail(trace, stages[3], stages[4], flagged(flags).len())]
                    released_at(old(self).programs(), final(self).programs(), flags)
                    && trail(trace, stages[3], stages[4], flagged(flags).len())
                    && forall|j: int|
                        #![trigger flagged(flags)[j]]
                        0 <= j < flagged(flags).len() ==> flagged(flags)[j] < old(self).programs().len() && exists|r: &mut T|
                            #![trigger fd.ensures((r, &old(self).programs()[flagged(flags)[j] as int]), ())]
                            *r == trace[j] && *final(r) == trace[j + 1] && fd.ensures(
                                (r, &old(self).programs()[flagged(flags)[j] as int]),
                                (),
                            )
                && exists|flags: Seq<bool>, trace: Seq<T>|
                    #![trigger released_at(old(self).pipeline_states(), final(self).pipeline_states(), flags), trail(trace, stages[4], stages[5], flagged(flags).len())]
                    released_at(old(self).pipeline_states(), final(self).pipeline_states(), flags)
                    && trail(trace, stages[4], stages[5], flagged(flags).len())
                    && forall|j: int|
                        #![trigger flagged(flags)[j]]
                        0 <= j < flagged(flags).len() ==> flagged(flags)[j] < old(self).pipeline_states().len() && exists|r: &mut T|
                            #![trigger fe.ensures((r, &old(self).pipeline_states()[flagged(flags)[j] as int]), ())]
                            *r == trace[j] && *final(r) == trace[j + 1] && fe.ensures(
                                (r, &old(self).pipeline_states()[flagged(flags)[j] as int]),
                                (),
                            )
                && exists|flags: Seq<bool>, trace: Seq<T>|
                    #![trigger released_at(old(self).frame_buffers(), final(self).frame_buffers(), flags), trail(trace, stages[5], stages[6], flagged(flags).len())]
                    released_at(old(self).frame_buffers(), final(self).frame_buffers(), flags)
                    && trail(trace, stages[5], stages[6], flagged(flags).len())
                    && forall|j: int|
                        #![trigger flagged(flags)[j]]
                        0 <= j < flagged(flags).len() ==> flagged(flags)[j] < old(self).frame_buffers().len() && exists|r: &mut T|
                            #![trigger ff.ensures((r, &old(self).frame_buffers()[flagged(flags)[j] as int]), ())]
                            *r == trace[j] && *final(r) == trace[j + 1] && ff.ensures(
                                (r, &old(self).frame_buffers()[flagged(flags)[j] as int]),
                                (),
                            )
                && exists|flags: Seq<bool>, trace: Seq<T>|
                    #![trigger released_at(old(self).surfaces(), final(self).surfaces(), flags), trail(trace, stages[6], stages[7], flagged(flags).len())]
                    released_at(old(self).surfaces(), final(self).surfaces(), flags)
                    && trail(trace, stages[6], stages[7], flagged(flags).len())
                    && forall|j: int|
                        #![trigger flagged(flags)[j]]
                        0 <= j < flagged(flags).len() ==> flagged(flags)[j] < old(self).surfaces().len() && exists|r: &mut T|
                            #![trigger fg.ensures((r, &old(self).surfaces()[flagged(flags)[j] as int]), ())]
                            *r == trace[j] && *final(r) == trace[j + 1] && fg.ensures(
                                (r, &old(self).surfaces()[flagged(flags)[j] as int]),
                                (),
                            )
                && exists|flags: Seq<bool>, trace: Seq<T>|
                    #![trigger released_at(old(self).textures(), final(self).textures(), flags), trail(trace, stages[7], stages[8], flagged(flags).len())]
                    released_at(old(self).textures(), final(self).textures(), flags)
                    && trail(trace, stages[7], stages[8], flagged(flags).len())
                    && forall|j: int|
                        #![trigger flagged(flags)[j]]
                        0 <= j < flagged(flags).len() ==> flagged(flags)[j] < old(self).textures().len() && exists|r: &mut T|
                            #![trigger fh.ensures((r, &old(self).textures()[flagged(flags)[j] as int]), ())]
                            *r == trace[j] && *final(r) == trace[j + 1] && fh.ensures(
                                (r, &old(self).textures()[flagged(flags)[j] as int]),
                                (),
                            )
                && exists|flags: Seq<bool>, trace: Seq<T>|
                    #![trigger released_at(old(self).samplers(), final(self).samplers(), flags), trail(trace, stages[8], stages[9], flagged(flags).len())]
                    released_at(old(self).samplers(), final(self).samplers(), flags)
                    && trail(trace, stages[8], stages[9], flagged(flags).len())
                    && forall|j: int|
                        #![trigger flagged(flags)[j]]
                        0 <= j < flagged(flags).len() ==> flagged(flags)[j] < old(self).samplers().len() && exists|r: &mut T|
                            #![trigger fi.ensures((r, &old(self).samplers()[flagged(flags)[j] as int]), ())]
                            *r == trace[j] && *final(r) == trace[j + 1] && fi.ensures(
                                (r, &old(self).samplers()[flagged(flags)[j] as int]),
                                (),
                            )
                && exists|flags: Seq<bool>, trace: Seq<T>|
                    #![trigger released_at(old(self).fences(), final(self).fences(), flags), trail(trace, stages[9], stages[10], flagged(flags).len())]
                    released_at(old(self).fences(), final(self).fences(), flags)
                    && trail(trace, stages[9], stages[10], flagged(flags).len())
                    && forall|j: int|
                        #![trigger flagged(flags)[j]]
                        0 <= j < flagged(flags).len() ==> flagged(flags)[j] < old(self).fences().len() && exists|r: &mut T|
                            #![trigger fj.ensures((r, &old(self).fences()[flagged(flags)[j] as int]), ())]
                            *r == trace[j] && *final(r) == trace[j + 1] && fj.ensures(
                                (r, &old(self).fences()[flagged(flags)[j] as int]),
                                (),
                            ),
    {
        let ghost p0 = *param;
        let ghost pre0 = self.buffers@;
        let (Ghost(fl0), Ghost(tr0)) = clean_vec(param, &mut self.buffers, fa);
        let ghost p1 = *param;
        assert(old(self).buffers() == names(pre0));
        assert(released_at(old(self).buffers(), self.buffers(), fl0));
        assert(trail(tr0, p0, p1, flagged(fl0).len()));
        let ghost pre1 = self.array_buffers@;
        let (Ghost(fl1), Ghost(tr1)) = clean_vec(param, &mut self.array_buffers, fb);
        let ghost p2 = *param;
        assert(old(self).array_buffers() == names(pre1));
        assert(released_at(old(self).array_buffers(), self.array_buffers(), fl1));
        assert(trail(tr1, p1, p2, flagged(fl1).len()));
        let ghost pre2 = self.shaders@;
        let (Ghost(fl2), Ghost(tr2)) = clean_vec(param, &mut self.shaders, fc);
        let ghost p3 = *param;
        assert(old(self).shaders() == names(pre2));
        assert(released_at(old(self).shaders(), self.shaders(), fl2));
        assert(trail(tr2, p2, p3, flagged(fl2).len()));
        let ghost pre3 = self.programs@;
        let (Ghost(fl3), Ghost(tr3)) = clean_vec(param, &mut self.programs, fd);
        let ghost p4 = *param;
        assert(old(self).programs() == names(pre3));
        assert(released_at(old(self).programs(), self.programs(), fl3));
        assert(trail(tr3, p3, p4, flagged(fl3).len()));
        let ghost pre4 = self.pipeline_states@;
        let (Ghost(fl4), Ghost(tr4)) = clean_vec(param, &mut self.pipeline_states, fe);
        let ghost p5 = *param;
        assert(old(self).pipeline_states() == names(pre4));
        assert(released_at(old(self).pipeline_states(), self.pipeline_states(), fl4));
        assert(trail(tr4, p4, p5, flagged(fl4).len()));
        let ghost pre5 = self.frame_buffers@;
        let (Ghost(fl5), Ghost(tr5)) = clean_vec(param, &mut self.frame_buffers, ff);
        let ghost p6 = *param;
        assert(old(self).frame_buffers() == names(pre5));
        assert(released_at(old(self).frame_buffers(), self.frame_buffers(), fl5));
        assert(trail(tr5, p5, p6, flagged(fl5).len()));
        let ghost pre6 = self.surfaces@;
        let (Ghost(fl6), Ghost(tr6)) = clean_vec(param, &mut self.surfaces, fg);
        let ghost p7 = *param;
        assert(old(self).surfaces() == names(pre6));
        assert(released_at(old(self).surfaces(), self.surfaces(), fl6));
        assert(trail(tr6, p6, p7, flagged(fl6).len()));
        let ghost pre7 = self.textures@;
        let (Ghost(fl7), Ghost(tr7)) = clean_vec(param, &mut self.textures, fh);
        let ghost p8 = *param;
        assert(old(self).textures() == names(pre7));
        assert(released_at(old(self).textures(), self.textures(), fl7));
        assert(trail(tr7, p7, p8, flagged(fl7).len()));
        let ghost pre8 = self.samplers@;
        let (Ghost(fl8), Ghost(tr8)) = clean_vec(param, &mut self.samplers, fi);
        let ghost p9 = *param;
        assert(old(self).samplers() == names(pre8));
        assert(released_at(old(self).samplers(), self.samplers(), fl8));
        assert(trail(tr8, p8, p9, flagged(fl8).len()));
        let ghost pre9 = self.fences@;
        let (Ghost(fl9), Ghost(tr9)) = clean_vec(param, &mut self.fences, fj);
        let ghost p10 = *param;
        assert(old(self).fences() == names(pre9));
        assert(released_at(old(self).fences(), self.fences(), fl9));
        assert(trail(tr9, p9, p10, flagged(fl9).len()));
        proof {
            let stages = seq![p0, p1, p2, p3, p4, p5, p6, p7, p8, p9, p10];
            assert(stages[0] == p0);
            assert(stages[1] == p1);
            assert(stages[2] == p2);
            assert(stages[3] == p3);
            assert(stages[4] == p4);
            assert(stages[5] == p5);
            assert(stages[6] == p6);
            assert(stages[7] == p7);
            assert(stages[8] == p8);
            assert(stages[9] == p9);
            assert(stages[10] == p10);
            assert(trail(stages, *old(param), *param, 10));
        }
    }
}

} // verus!
