//! Frame planning: what the graphics device is asked to create and draw.
//!
//! Nothing here touches a device. Each function turns plain state into a
//! description (of a buffer, a texture, a pipeline, a draw) that the caller
//! carries out.

use vstd::prelude::*;
use crate::scene::{is_transform_of, Scene, Similarity};
use crate::mesh::{MaterialType, Mesh, UNIFORM_BYTES};
use crate::scalar::{ONE, TENTH};

verus! {

/// A colour as four words: red, green, blue, alpha.
#[derive(Clone, Copy, Debug, PartialEq, Eq, Structural)]
pub struct Color {
    pub r: u32,
    pub g: u32,
    pub b: u32,
    pub a: u32,
}

impl Color {
    /// An opaque colour: alpha is the word of `1.0`.
    pub fn rgb(r: u32, g: u32, b: u32) -> (c: Self)
        ensures
            c == (Color { r, g, b, a: ONE }),
    {
        Self { r, g, b, a: ONE }
    }
}

/// A size in pixels.
#[derive(Clone, Copy, Debug, PartialEq, Eq, Structural)]
pub struct Rect {
    pub width: u32,
    pub height: u32,
}

/// The least multiple of four that is not below `bytes`: the size a device
/// buffer needs to hold `bytes` bytes.
pub open spec fn spec_aligned(bytes: int) -> int {
    (bytes + 3) / 4 * 4
}

/// Rounding up to the device alignment never shrinks a size, adds fewer
/// than four bytes, gives a multiple of four, and leaves a multiple of four
/// as it is.
pub proof fn lemma_aligned(bytes: int)
    requires
        0 <= bytes,
    ensures
        bytes <= spec_aligned(bytes) < bytes + 4,
        spec_aligned(bytes) % 4 == 0,
        bytes % 4 == 0 ==> spec_aligned(bytes) == bytes,
{
}

/// Rounds a byte count up to the device alignment of four bytes.
pub fn aligned(bytes: usize) -> (size: usize)
    requires
        bytes + 3 <= usize::MAX,
    ensures
        size == spec_aligned(bytes as int),
{
    let padded: usize = bytes + 3;
    assert(padded & !3usize == padded / 4 * 4) by (bit_vector);
    padded & !3usize
}

/// What a device buffer is used for.
#[derive(Clone, Copy, Debug, PartialEq, Eq, Structural)]
pub enum BufferUsage {
    /// Vertex attributes, written once when the buffer is created.
    Vertex,
    /// 16-bit indices; also a copy destination.
    Index,
    /// Per-draw uniforms; also a copy destination.
    Uniform,
}

/// A request for a device buffer.
#[derive(Clone, Copy, Debug, PartialEq, Eq, Structural)]
pub struct BufferDescriptor {
    /// Size in bytes, a multiple of four.
    pub size: usize,
    pub usage: BufferUsage,
    /// Whether the buffer is created mapped, to receive its contents.
    pub mapped_at_creation: bool,
}

/// The pixel format of a texture.
#[derive(Clone, Copy, Debug, PartialEq, Eq, Structural)]
pub enum TextureFormat {
    /// Four 8-bit channels, for sampled images.
    Rgba8Unorm,
    /// 24 bits of depth and 8 bits of stencil, for the depth attachment.
    Depth24PlusStencil8,
}

/// What a texture is used for.
#[derive(Clone, Copy, Debug, PartialEq, Eq, Structural)]
pub enum TextureUsage {
    /// Sampled in a shader, filled by copies, and usable as an attachment.
    Sampled,
    /// The depth-stencil attachment of the frame.
    DepthAttachment,
}

/// A request for a two-dimensional device texture.
#[derive(Clone, Copy, Debug, PartialEq, Eq, Structural)]
pub struct TextureDescriptor {
    pub format: TextureFormat,
    pub width: u32,
    pub height: u32,
    /// Array layers: six for a cube map, one otherwise.
    pub layers: u32,
    pub usage: TextureUsage,
}

/// The sampler that every textured bundle shares: coordinates repeat in
/// both directions and magnification interpolates.
#[derive(Clone, Copy, Debug, PartialEq, Eq, Structural)]
pub struct SamplerDescriptor {
    pub repeat_u: bool,
    pub repeat_v: bool,
    pub linear_magnification: bool,
}

/// One of the mesh's vertex buffers.
#[derive(Clone, Copy, Debug, PartialEq, Eq, Structural)]
pub enum VertexStream {
    /// Positions, three words per vertex.
    Positions,
    /// Per-vertex colours, three words per vertex.
    Colors,
    /// Texture coordinates, two words per vertex.
    TextureCoordinates,
}

impl VertexStream {
    /// Words per vertex in this stream.
    pub open spec fn spec_words(self) -> u32 {
        match self {
            VertexStream::TextureCoordinates => 2,
            _ => 3,
        }
    }

    /// Bytes from one vertex to the next in this stream.
    pub open spec fn spec_stride(self) -> u32 {
        (4 * self.spec_words()) as u32
    }

    /// Words per vertex in this stream.
    pub fn words(self) -> (n: u32)
        ensures
            n == self.spec_words(),
    {
        match self {
            VertexStream::TextureCoordinates => 2,
            _ => 3,
        }
    }

    /// Bytes from one vertex to the next in this stream.
    pub fn stride(self) -> (n: u32)
        ensures
            n == self.spec_stride(),
    {
        4 * self.words()
    }
}

/// How a pipeline reads one vertex buffer: the buffer bound at slot `i` of
/// a pipeline is described by entry `i` of the pipeline's layouts.
#[derive(Clone, Copy, Debug, PartialEq, Eq, Structural)]
pub struct VertexBufferLayout {
    /// Which of the mesh's buffers is bound here.
    pub stream: VertexStream,
    /// Bytes from one vertex to the next.
    pub stride: u32,
    /// The shader input that the attribute feeds.
    pub shader_location: u32,
}

/// Which faces a pipeline discards.
#[derive(Clone, Copy, Debug, PartialEq, Eq, Structural)]
pub enum CullMode {
    Back,
    Front,
}

/// Which shader program a pipeline runs.
#[derive(Clone, Copy, Debug, PartialEq, Eq, Structural)]
pub enum Shader {
    /// Flat colour, vertex colour and single texture, told apart by the
    /// variant tag in the uniforms.
    Standard,
    /// Cube map sampled along the view direction.
    CubeMap,
}

/// Which winding marks the front of a triangle.
#[derive(Clone, Copy, Debug, PartialEq, Eq, Structural)]
pub enum FrontFace {
    /// Counter-clockwise.
    Ccw,
    /// Clockwise.
    Cw,
}

/// How vertices are assembled into primitives.
#[derive(Clone, Copy, Debug, PartialEq, Eq, Structural)]
pub enum PrimitiveTopology {
    /// Every three vertices make a triangle.
    TriangleList,
    /// Every vertex after the second makes a triangle with the two before.
    TriangleStrip,
}

/// Which fragments pass the depth test.
#[derive(Clone, Copy, Debug, PartialEq, Eq, Structural)]
pub enum CompareFunction {
    /// Those nearer than what is stored.
    Less,
    /// Those nearer than or as near as what is stored.
    LessEqual,
    /// All.
    Always,
}

/// A request for a render pipeline.
#[derive(Debug)]
pub struct PipelineDescriptor {
    pub shader: Shader,
    pub front_face: FrontFace,
    pub cull_mode: CullMode,
    pub topology: PrimitiveTopology,
    pub depth_format: TextureFormat,
    pub depth_compare: CompareFunction,
    pub depth_write: bool,
    /// One layout per vertex buffer slot, slot 0 first.
    pub buffers: Vec<VertexBufferLayout>,
}

/// The vertex buffers that a draw of this variant binds, slot 0 first. A
/// cube map has no colour stream; every other variant binds all three.
pub open spec fn spec_vertex_slots(material_type: MaterialType) -> Seq<VertexStream> {
    match material_type {
        MaterialType::CubeMap => seq![VertexStream::Positions, VertexStream::TextureCoordinates],
        _ => seq![VertexStream::Positions, VertexStream::Colors, VertexStream::TextureCoordinates],
    }
}

/// The layout that a pipeline declares for slot `slot` when it carries
/// `stream`.
pub open spec fn spec_slot_layout(stream: VertexStream, slot: int) -> VertexBufferLayout {
    VertexBufferLayout { stream, stride: stream.spec_stride(), shader_location: slot as u32 }
}

/// Whether `desc` is the pipeline for `material_type`. Every pipeline
/// draws triangle lists with counter-clockwise front faces, writes depth
/// and keeps the nearer fragment, and its buffer layouts follow the
/// variant's slots. A cube map runs the cube shader and discards front
/// faces because it is seen from inside; every other variant runs the
/// standard shader and discards back faces.
pub open spec fn is_pipeline_for(desc: PipelineDescriptor, material_type: MaterialType) -> bool {
    let slots = spec_vertex_slots(material_type);
    &&& desc.shader == if material_type == MaterialType::CubeMap {
        Shader::CubeMap
    } else {
        Shader::Standard
    }
    &&& desc.cull_mode == if material_type == MaterialType::CubeMap {
        CullMode::Front
    } else {
        CullMode::Back
    }
    &&& desc.front_face == FrontFace::Ccw
    &&& desc.topology == PrimitiveTopology::TriangleList
    &&& desc.depth_format == TextureFormat::Depth24PlusStencil8
    &&& desc.depth_compare == CompareFunction::Less
    &&& desc.depth_write
    &&& desc.buffers@.len() == slots.len()
    &&& forall|i: int|
        0 <= i < slots.len() ==> #[trigger] desc.buffers@[i] == spec_slot_layout(slots[i], i)
}

/// The vertex buffers that a draw of this variant binds, slot 0 first.
pub fn vertex_slots(material_type: MaterialType) -> (slots: Vec<VertexStream>)
    ensures
        slots@ == spec_vertex_slots(material_type),
{
    let mut slots: Vec<VertexStream> = Vec::new();
    slots.push(VertexStream::Positions);
    match material_type {
        MaterialType::CubeMap => {},
        _ => {
            slots.push(VertexStream::Colors);
        },
    }
    slots.push(VertexStream::TextureCoordinates);
    assert(slots@ =~= spec_vertex_slots(material_type));
    slots
}

/// The surface that frames are drawn to, with the depth texture that goes
/// with it. The depth texture always has the size of the surface.
pub struct Renderer {
    width: u32,
    height: u32,
    depth: Rect,
    color_load: LoadOp,
}

impl Renderer {
    /// The size of the surface.
    pub closed spec fn surface(&self) -> Rect {
        Rect { width: self.width, height: self.height }
    }

    /// The size of the depth texture.
    pub closed spec fn depth(&self) -> Rect {
        self.depth
    }

    /// Whether a frame starts from a cleared colour attachment or from what
    /// the frame before left.
    pub closed spec fn color_load(&self) -> LoadOp {
        self.color_load
    }

    /// The depth texture covers the surface exactly.
    pub open spec fn well_formed(&self) -> bool {
        self.depth() == self.surface()
    }

    /// A renderer for a surface of the given size, whose frames start from
    /// a cleared colour attachment.
    pub fn new(width: u32, height: u32) -> (r: Self)
        ensures
            r.surface() == (Rect { width, height }),
            r.color_load() == LoadOp::Clear,
            r.well_formed(),
    {
        Self { width, height, depth: Rect { width, height }, color_load: LoadOp::Clear }
    }

    /// Chooses whether frames start from a cleared colour attachment.
    pub fn set_color_load(&mut self, color_load: LoadOp)
        ensures
            final(self).color_load() == color_load,
            final(self).surface() == old(self).surface(),
            final(self).depth() == old(self).depth(),
    {
        self.color_load = color_load;
    }

    /// The size of the surface.
    pub fn canvas(&self) -> (size: Rect)
        ensures
            size == self.surface(),
    {
        Rect { width: self.width, height: self.height }
    }

    /// The depth texture to create for the current surface.
    pub fn depth_texture(&self) -> (desc: TextureDescriptor)
        ensures
            desc == (TextureDescriptor {
                format: TextureFormat::Depth24PlusStencil8,
                width: self.depth().width,
                height: self.depth().height,
                layers: 1,
                usage: TextureUsage::DepthAttachment,
            }),
    {
        TextureDescriptor {
            format: TextureFormat::Depth24PlusStencil8,
            width: self.depth.width,
            height: self.depth.height,
            layers: 1,
            usage: TextureUsage::DepthAttachment,
        }
    }

    /// This renderer after its surface took the size `width` by `height`.
    pub closed spec fn spec_resize(self, width: u32, height: u32) -> Renderer {
        Renderer { width, height, depth: Rect { width, height }, color_load: self.color_load }
    }

    /// Takes on a new surface size. The depth texture follows; pipelines do
    /// not depend on the size and stay as they are.
    pub fn resize(&mut self, width: u32, height: u32)
        ensures
            *final(self) == old(self).spec_resize(width, height),
            final(self).surface() == (Rect { width, height }),
            final(self).color_load() == old(self).color_load(),
            final(self).well_formed(),
    {
        self.width = width;
        self.height = height;
        self.depth = Rect { width, height };
    }

    /// The sampler shared by all textured bundles.
    pub fn texture_sampler(&self) -> (s: SamplerDescriptor)
        ensures
            s == (SamplerDescriptor { repeat_u: true, repeat_v: true, linear_magnification: true }),
    {
        SamplerDescriptor { repeat_u: true, repeat_v: true, linear_magnification: true }
    }

    /// The pipeline that draws bundles of the given variant.
    pub fn pipeline_for(&self, material_type: MaterialType) -> (desc: PipelineDescriptor)
        ensures
            is_pipeline_for(desc, material_type),
    {
        let slots = vertex_slots(material_type);
        let mut buffers: Vec<VertexBufferLayout> = Vec::new();
        let mut i: usize = 0;
        while i < slots.len()
            invariant
                i <= slots@.len() <= 3,
                slots@ == spec_vertex_slots(material_type),
                buffers@.len() == i,
                forall|k: int|
                    0 <= k < i ==> #[trigger] buffers@[k] == spec_slot_layout(slots@[k], k),
            decreases slots@.len() - i,
        {
            let stream = slots[i];
            buffers.push(
                VertexBufferLayout { stream, stride: stream.stride(), shader_location: i as u32 },
            );
            i += 1;
        }
        let cube = material_type == MaterialType::CubeMap;
        PipelineDescriptor {
            shader: if cube {
                Shader::CubeMap
            } else {
                Shader::Standard
            },
            cull_mode: if cube {
                CullMode::Front
            } else {
                CullMode::Back
            },
            front_face: FrontFace::Ccw,
            topology: PrimitiveTopology::TriangleList,
            depth_format: TextureFormat::Depth24PlusStencil8,
            depth_compare: CompareFunction::Less,
            depth_write: true,
            buffers,
        }
    }

    /// The pipeline of every variant but the cube map.
    pub fn pipeline(&self) -> (desc: PipelineDescriptor)
        ensures
            is_pipeline_for(desc, MaterialType::Color),
            is_pipeline_for(desc, MaterialType::VertexColor),
            is_pipeline_for(desc, MaterialType::Textured),
    {
        self.pipeline_for(MaterialType::Color)
    }

    /// The pipeline of the cube map.
    pub fn pipeline_cubebox(&self) -> (desc: PipelineDescriptor)
        ensures
            is_pipeline_for(desc, MaterialType::CubeMap),
    {
        self.pipeline_for(MaterialType::CubeMap)
    }

    /// The vertex buffer that holds `data`, one word per scalar: four
    /// bytes for each, which is already a multiple of the device alignment,
    /// and so no bytes for no data.
    pub fn create_buffer(&self, data: &[u32]) -> (desc: BufferDescriptor)
        requires
            data@.len() * 4 + 3 <= usize::MAX,
        ensures
            desc == (BufferDescriptor {
                size: (data@.len() * 4) as usize,
                usage: BufferUsage::Vertex,
                mapped_at_creation: true,
            }),
            desc.size == spec_aligned(data@.len() as int * 4),
            desc.size == data@.len() * 4,
            desc.size % 4 == 0,
    {
        let byte_len: usize = data.len() * 4;
        let size = aligned(byte_len);
        proof {
            lemma_aligned(byte_len as int);
        }
        BufferDescriptor { size, usage: BufferUsage::Vertex, mapped_at_creation: true }
    }

    /// The index buffer that holds `data`, two bytes per index, rounded up
    /// to the device alignment.
    pub fn create_index_buffer(&self, data: &[u16]) -> (desc: BufferDescriptor)
        requires
            data@.len() * 2 + 3 <= usize::MAX,
        ensures
            desc == (BufferDescriptor {
                size: spec_aligned(data@.len() as int * 2) as usize,
                usage: BufferUsage::Index,
                mapped_at_creation: true,
            }),
    {
        let size: usize = data.len() * 2;
        let size = aligned(size);
        BufferDescriptor { size, usage: BufferUsage::Index, mapped_at_creation: true }
    }

    /// The sampled texture of `num_images` layers, each of size `rect`.
    pub fn create_texture(&self, rect: &Rect, num_images: u32) -> (desc: TextureDescriptor)
        ensures
            desc == (TextureDescriptor {
                format: TextureFormat::Rgba8Unorm,
                width: rect.width,
                height: rect.height,
                layers: num_images,
                usage: TextureUsage::Sampled,
            }),
    {
        TextureDescriptor {
            format: TextureFormat::Rgba8Unorm,
            width: rect.width,
            height: rect.height,
            layers: num_images,
            usage: TextureUsage::Sampled,
        }
    }
}

/// Why a frame was not drawn.
#[derive(Clone, Copy, Debug, PartialEq, Eq, Structural)]
pub enum RenderError {
    /// The output surface gave no frame to draw to. Nothing was drawn; the
    /// caller reconfigures the surface and tries again at the next tick.
    SurfaceLost,
}

/// What happens to the colour attachment when a pass begins.
#[derive(Clone, Copy, Debug, PartialEq, Eq, Structural)]
pub enum LoadOp {
    /// It is filled with the clear colour.
    Clear,
    /// It keeps what the frame before left in it.
    Load,
}

/// How the attachments of a frame start out: the colour attachment is
/// cleared to a dark grey or kept, depth is cleared to the far value and
/// stencil to zero, and everything drawn is stored.
#[derive(Clone, Copy, Debug, PartialEq, Eq, Structural)]
pub struct RenderPassDescriptor {
    pub color_load: LoadOp,
    pub clear_color: Color,
    /// The word of the depth that every pixel starts at.
    pub depth_clear: u32,
    pub stencil_clear: u32,
}

/// One indexed draw. The caller selects the pipeline, binds the mesh's
/// buffers to the slots listed, binds the uniform binding set at group 0
/// and the texture binding set at group 1, writes `uniforms` at the start
/// of the mesh's uniform buffer, binds the index buffer as 16-bit indices
/// and draws `index_count` indices.
#[derive(Debug)]
pub struct DrawCall {
    /// Which mesh of the frame this draws.
    pub mesh: usize,
    /// The variant whose pipeline is selected.
    pub pipeline: MaterialType,
    /// The mesh's vertex buffers by slot, slot 0 first.
    pub vertex_slots: Vec<VertexStream>,
    /// The words written to the uniform buffer.
    pub uniforms: Vec<u32>,
    pub index_count: u32,
}

/// The work of one frame, in order: begin the pass, set viewport and
/// scissor to the whole surface, issue the draws, end the pass, submit and
/// present.
#[derive(Debug)]
pub struct Frame {
    pub pass: RenderPassDescriptor,
    /// The size of the viewport and of the scissor rectangle, both placed
    /// at the origin.
    pub viewport: Rect,
    pub draws: Vec<DrawCall>,
}

/// The pass that a frame begins with when its colour attachment starts
/// out as `color_load` says.
pub open spec fn spec_pass(color_load: LoadOp) -> RenderPassDescriptor {
    RenderPassDescriptor {
        color_load,
        clear_color: Color { r: TENTH, g: TENTH, b: TENTH, a: ONE },
        depth_clear: ONE,
        stencil_clear: 0,
    }
}

/// The words a draw writes to the uniform buffer: the sixteen words of the
/// composed matrix and, unless the mesh is a cube map, the four words of
/// its colour and the word of its variant tag.
pub open spec fn spec_uniforms(matrix: Seq<u32>, material_type: MaterialType, color: Color) -> Seq<
    u32,
> {
    if material_type == MaterialType::CubeMap {
        matrix
    } else {
        matrix + seq![color.r, color.g, color.b, color.a, material_type.spec_tag_word()]
    }
}

/// Whether `call` is the draw of mesh number `i`, of the given variant,
/// colour and index count, under the composed matrix `matrix`.
pub open spec fn is_draw_of(
    call: DrawCall,
    i: int,
    material_type: MaterialType,
    color: Color,
    index_count: u32,
    matrix: Seq<u32>,
) -> bool {
    &&& call.mesh == i
    &&& call.pipeline == material_type
    &&& call.vertex_slots@ == spec_vertex_slots(material_type)
    &&& call.uniforms@ == spec_uniforms(matrix, material_type, color)
    &&& call.index_count == index_count
}

/// The words a draw of `mesh` writes to the uniform buffer under the
/// composed matrix `matrix`.
pub fn uniforms<B, G>(matrix: &[u32; 16], mesh: &Mesh<B, G>) -> (words: Vec<u32>)
    ensures
        words@ == spec_uniforms(matrix@, mesh.material_type, mesh.color),
{
    let mut words: Vec<u32> = Vec::new();
    let mut i: usize = 0;
    while i < 16
        invariant
            i <= 16,
            words@ == matrix@.subrange(0, i as int),
        decreases 16 - i,
    {
        words.push(matrix[i]);
        assert(words@ =~= matrix@.subrange(0, i + 1));
        i += 1;
    }
    assert(words@ =~= matrix@);
    match mesh.material_type {
        MaterialType::CubeMap => {},
        _ => {
            words.push(mesh.color.r);
            words.push(mesh.color.g);
            words.push(mesh.color.b);
            words.push(mesh.color.a);
            words.push(mesh.material_type.tag_word());
            assert(words@ =~= spec_uniforms(matrix@, mesh.material_type, mesh.color));
        },
    }
    words
}

impl Renderer {
    /// The pass that every frame begins with.
    pub fn render_pass(&self) -> (pass: RenderPassDescriptor)
        ensures
            pass == spec_pass(self.color_load()),
    {
        RenderPassDescriptor {
            color_load: self.color_load,
            clear_color: Color { r: TENTH, g: TENTH, b: TENTH, a: ONE },
            depth_clear: ONE,
            stencil_clear: 0,
        }
    }

    /// Plans one frame. `meshes` and `matrices` are paired by position, up
    /// to the shorter of the two; `matrices[i]` is the camera's
    /// view-projection matrix times the transform of mesh `i`, as sixteen
    /// words. `acquired` says whether the surface gave a frame to draw to.
    pub fn render<B, G>(&self, meshes: &[Mesh<B, G>], matrices: &[[u32; 16]], acquired: bool) -> (r:
        Result<Frame, RenderError>)
        ensures
            !acquired ==> r == Err::<Frame, RenderError>(RenderError::SurfaceLost),
            acquired ==> r is Ok && ({
                let frame = r->Ok_0;
                &&& frame.pass == spec_pass(self.color_load())
                &&& frame.viewport == self.surface()
                &&& frame.draws@.len() == if meshes@.len() <= matrices@.len() {
                    meshes@.len()
                } else {
                    matrices@.len()
                }
                &&& forall|i: int|
                    0 <= i < frame.draws@.len() ==> is_draw_of(
                        #[trigger] frame.draws@[i],
                        i,
                        meshes@[i].material_type,
                        meshes@[i].color,
                        meshes@[i].index_count,
                        matrices@[i]@,
                    )
            }),
    {
        if !acquired {
            return Err(RenderError::SurfaceLost);
        }
        let count = if meshes.len() <= matrices.len() {
            meshes.len()
        } else {
            matrices.len()
        };
        let mut draws: Vec<DrawCall> = Vec::new();
        let mut i: usize = 0;
        while i < count
            invariant
                i <= count,
                count <= meshes@.len(),
                count <= matrices@.len(),
                draws@.len() == i,
                forall|k: int|
                    0 <= k < i ==> is_draw_of(
                        #[trigger] draws@[k],
                        k,
                        meshes@[k].material_type,
                        meshes@[k].color,
                        meshes@[k].index_count,
                        matrices@[k]@,
                    ),
            decreases count - i,
        {
            let mesh = &meshes[i];
            draws.push(
                DrawCall {
                    mesh: i,
                    pipeline: mesh.material_type,
                    vertex_slots: vertex_slots(mesh.material_type),
                    uniforms: uniforms(&matrices[i], mesh),
                    index_count: mesh.index_count,
                },
            );
            i += 1;
        }
        Ok(Frame { pass: self.render_pass(), viewport: self.canvas(), draws })
    }
}

/// Whether `call` is the draw of entity `i` of `scene`: the draw of its
/// mesh under a matrix that `compose` makes of the entity's transform.
pub open spec fn is_scene_draw<B, G, F: Fn(Similarity) -> [u32; 16]>(
    call: DrawCall,
    i: int,
    scene: &Scene<Mesh<B, G>>,
    compose: F,
) -> bool {
    exists|t: Similarity, matrix: [u32; 16]|
        {
            &&& is_transform_of(t, scene.body(scene.bodies()[i]), scene.scales()[i])
            &&& #[trigger] compose.ensures((t,), matrix)
            &&& is_draw_of(
                call,
                i,
                scene.mesh_seq()[i].material_type,
                scene.mesh_seq()[i].color,
                scene.mesh_seq()[i].index_count,
                matrix@,
            )
        }
}

impl Renderer {
    /// Plans the frame that shows `scene`: one draw per entity, in
    /// insertion order, each with the matrix that `compose` makes of the
    /// entity's transform. `compose` is expected to return the camera's
    /// view-projection matrix times the matrix of the transform.
    pub fn render_scene<B, G, F: Fn(Similarity) -> [u32; 16]>(
        &self,
        scene: &Scene<Mesh<B, G>>,
        compose: F,
        acquired: bool,
    ) -> (r: Result<Frame, RenderError>)
        requires
            scene.well_formed(),
            forall|t: Similarity| #[trigger] compose.requires((t,)),
        ensures
            !acquired ==> r == Err::<Frame, RenderError>(RenderError::SurfaceLost),
            acquired ==> r is Ok && ({
                let frame = r->Ok_0;
                &&& frame.pass == spec_pass(self.color_load())
                &&& frame.viewport == self.surface()
                &&& frame.draws@.len() == scene.mesh_seq().len()
                &&& forall|i: int|
                    0 <= i < frame.draws@.len() ==> is_scene_draw(
                        #[trigger] frame.draws@[i],
                        i,
                        scene,
                        compose,
                    )
            }),
    {
        if !acquired {
            return Err(RenderError::SurfaceLost);
        }
        let transforms = scene.simiarities();
        let mut matrices: Vec<[u32; 16]> = Vec::new();
        let mut k: usize = 0;
        while k < transforms.len()
            invariant
                k <= transforms@.len(),
                matrices@.len() == k,
                forall|t: Similarity| #[trigger] compose.requires((t,)),
                forall|j: int|
                    0 <= j < k ==> compose.ensures((transforms@[j],), #[trigger] matrices@[j]),
            decreases transforms@.len() - k,
        {
            matrices.push(compose(transforms[k]));
            k += 1;
        }
        let r = self.render(scene.meshes().as_slice(), matrices.as_slice(), acquired);
        proof {
            let frame = r->Ok_0;
            assert forall|i: int| 0 <= i < frame.draws@.len() implies is_scene_draw(
                #[trigger] frame.draws@[i],
                i,
                scene,
                compose,
            ) by {
                assert(is_transform_of(
                    transforms@[i],
                    scene.body(scene.bodies()[i]),
                    scene.scales()[i],
                ));
                assert(compose.ensures((transforms@[i],), matrices@[i]));
            }
        }
        r
    }
}

/// A buffer of scalars has exactly four bytes for each, and that size is
/// the one that rounding up to the device alignment gives: it is a multiple
/// of four and not below the bytes of the data.
pub proof fn lemma_scalar_buffer_size(scalars: int)
    requires
        0 <= scalars,
    ensures
        spec_aligned(scalars * 4) == scalars * 4,
        spec_aligned(scalars * 4) % 4 == 0,
        spec_aligned(scalars * 4) >= scalars * 4,
        scalars == 0 ==> spec_aligned(scalars * 4) == 0,
{
}

/// The uniforms of any draw fit the uniform buffer of its bundle: at most
/// twenty-one words go into ninety-six bytes.
pub proof fn lemma_uniforms_fit(matrix: Seq<u32>, material_type: MaterialType, color: Color)
    requires
        matrix.len() == 16,
    ensures
        spec_uniforms(matrix, material_type, color).len() * 4 <= UNIFORM_BYTES,
        material_type == MaterialType::CubeMap ==> spec_uniforms(matrix, material_type, color).len()
            == 16,
        material_type != MaterialType::CubeMap ==> spec_uniforms(matrix, material_type, color).len()
            == 21,
{
}

/// A draw binds exactly the vertex buffers that the pipeline of its
/// variant declares, slot by slot and each with the stride of its stream.
pub proof fn lemma_slots_match_pipeline(desc: PipelineDescriptor, material_type: MaterialType)
    requires
        is_pipeline_for(desc, material_type),
    ensures
        desc.buffers@.len() == spec_vertex_slots(material_type).len(),
        forall|i: int|
            0 <= i < desc.buffers@.len() ==> {
                &&& (#[trigger] desc.buffers@[i]).stream == spec_vertex_slots(material_type)[i]
                &&& desc.buffers@[i].stride == desc.buffers@[i].stream.spec_stride()
                &&& desc.buffers@[i].shader_location == i
            },
{
}

/// Resizing gives a well-formed renderer of the size asked for, whatever
/// its size was before, and resizing twice to the same size leaves it as
/// resizing once did.
pub proof fn lemma_resize_idempotent(renderer: Renderer, width: u32, height: u32)
    ensures
        renderer.spec_resize(width, height).surface() == (Rect { width, height }),
        renderer.spec_resize(width, height).color_load() == renderer.color_load(),
        renderer.spec_resize(width, height).well_formed(),
        renderer.spec_resize(width, height).spec_resize(width, height) == renderer.spec_resize(
            width,
            height,
        ),
{
}

} // verus!
