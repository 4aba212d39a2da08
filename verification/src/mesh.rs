//! Geometry, materials and the resource bundle built from them.

use vstd::prelude::*;
use vstd::arithmetic::div_mod::lemma_fundamental_div_mod_converse;
use crate::renderer::{
    spec_aligned, BufferDescriptor, BufferUsage, Color, Rect, Renderer, TextureDescriptor,
    TextureFormat, TextureUsage,
};
use crate::scalar::{ONE, TENTH, THREE, TWO, ZERO};

verus! {

/// The four material variants. The variant alone decides which auxiliary
/// buffers a bundle fills, how many images it is built from and which
/// pipeline draws it.
#[derive(PartialEq, Eq, Structural, Clone, Copy, Debug)]
pub enum MaterialType {
    Color,
    VertexColor,
    Textured,
    CubeMap,
}

impl MaterialType {
    /// The number a shader sees for this variant.
    pub open spec fn spec_tag(self) -> u32 {
        match self {
            MaterialType::Color => 0,
            MaterialType::VertexColor => 1,
            MaterialType::Textured => 2,
            MaterialType::CubeMap => 3,
        }
    }

    /// The tag as the word that is written to the uniforms: the number
    /// `spec_tag` as a single-precision value.
    pub open spec fn spec_tag_word(self) -> u32 {
        match self {
            MaterialType::Color => ZERO,
            MaterialType::VertexColor => ONE,
            MaterialType::Textured => TWO,
            MaterialType::CubeMap => THREE,
        }
    }

    /// How many source images a bundle of this variant is built from.
    pub open spec fn spec_image_count(self) -> nat {
        match self {
            MaterialType::Textured => 1,
            MaterialType::CubeMap => 6,
            _ => 0,
        }
    }

    /// How many layers the bundle's texture has: six faces for a cube map,
    /// one otherwise.
    pub open spec fn spec_texture_layers(self) -> u32 {
        match self {
            MaterialType::CubeMap => 6,
            _ => 1,
        }
    }

    /// The number a shader sees for this variant.
    pub fn tag(self) -> (t: u32)
        ensures
            t == self.spec_tag(),
    {
        match self {
            MaterialType::Color => 0,
            MaterialType::VertexColor => 1,
            MaterialType::Textured => 2,
            MaterialType::CubeMap => 3,
        }
    }

    /// The tag as the word that is written to the uniforms.
    pub fn tag_word(self) -> (w: u32)
        ensures
            w == self.spec_tag_word(),
    {
        match self {
            MaterialType::Color => ZERO,
            MaterialType::VertexColor => ONE,
            MaterialType::Textured => TWO,
            MaterialType::CubeMap => THREE,
        }
    }

    /// How many source images a bundle of this variant is built from.
    pub fn image_count(self) -> (n: usize)
        ensures
            n == self.spec_image_count(),
    {
        match self {
            MaterialType::Textured => 1,
            MaterialType::CubeMap => 6,
            _ => 0,
        }
    }

    /// How many layers the bundle's texture has.
    pub fn texture_layers(self) -> (n: u32)
        ensures
            n == self.spec_texture_layers(),
    {
        match self {
            MaterialType::CubeMap => 6,
            _ => 1,
        }
    }
}

/// Why a resource bundle could not be built.
#[derive(Debug, PartialEq, Eq)]
pub enum ResourceError {
    /// The device could not hold a buffer of the size asked for.
    AllocationFailed,
    /// The image at this source could not be fetched.
    AssetFetchFailed(String),
    /// The image at this source was fetched but could not be decoded.
    DecodeFailed(String),
    /// The description breaks a rule of its variant: too many vertices for
    /// 16-bit indices, or the wrong number of source images.
    InvariantViolation,
}

impl ResourceError {
    /// Whether building may go on without the entity that failed: true for
    /// an image that could not be fetched or decoded, false otherwise.
    pub open spec fn spec_recoverable(&self) -> bool {
        self is AssetFetchFailed || self is DecodeFailed
    }

    /// Whether building may go on without the entity that failed.
    pub fn recoverable(&self) -> (r: bool)
        ensures
            r == self.spec_recoverable(),
    {
        match self {
            ResourceError::AssetFetchFailed(_) => true,
            ResourceError::DecodeFailed(_) => true,
            _ => false,
        }
    }
}

/// What a mesh looks like: the variant and the data that the variant needs.
pub struct Material {
    pub material_type: MaterialType,
    /// One colour per vertex, three words each.
    pub vertex_colors: Vec<[u32; 3]>,
    /// One texture coordinate per vertex, two words each.
    pub texture_coordinates: Vec<[u32; 2]>,
    /// Where the images come from, in layer order.
    pub texture_src: Vec<String>,
    pub color: Color,
}

impl Material {
    /// The image sources as character sequences.
    pub open spec fn sources(&self) -> Seq<Seq<char>> {
        self.texture_src@.map_values(|s: String| s@)
    }

    /// Whether the number of image sources is the one the variant asks for:
    /// exactly one for a textured material, exactly six for a cube map. The
    /// other variants use no image, whatever is listed.
    pub open spec fn well_formed(&self) -> bool {
        match self.material_type {
            MaterialType::Textured => self.texture_src@.len() == 1,
            MaterialType::CubeMap => self.texture_src@.len() == 6,
            _ => true,
        }
    }

    /// A flat colour.
    pub fn new(color: Color) -> (m: Self)
        ensures
            m.material_type == MaterialType::Color,
            m.vertex_colors@.len() == 0,
            m.texture_coordinates@.len() == 0,
            m.texture_src@.len() == 0,
            m.color == color,
            m.well_formed(),
    {
        Self {
            material_type: MaterialType::Color,
            vertex_colors: Vec::new(),
            texture_coordinates: Vec::new(),
            texture_src: Vec::new(),
            color,
        }
    }

    /// One colour per vertex, over a white base colour.
    pub fn vertex_color(colors: Vec<[u32; 3]>) -> (m: Self)
        ensures
            m.material_type == MaterialType::VertexColor,
            m.vertex_colors == colors,
            m.texture_coordinates@.len() == 0,
            m.texture_src@.len() == 0,
            m.color == (Color { r: ONE, g: ONE, b: ONE, a: ONE }),
            m.well_formed(),
    {
        Self {
            material_type: MaterialType::VertexColor,
            vertex_colors: colors,
            texture_coordinates: Vec::new(),
            texture_src: Vec::new(),
            color: Color { r: ONE, g: ONE, b: ONE, a: ONE },
        }
    }

    /// One image, sampled at the given coordinates, over a dark grey base
    /// colour.
    pub fn textured(src: &str, coordinates: Vec<[u32; 2]>) -> (m: Self)
        ensures
            m.material_type == MaterialType::Textured,
            m.vertex_colors@.len() == 0,
            m.texture_coordinates == coordinates,
            m.sources() == seq![src@],
            m.color == (Color { r: TENTH, g: TENTH, b: TENTH, a: ONE }),
            m.well_formed(),
    {
        let mut texture_src: Vec<String> = Vec::new();
        texture_src.push(src.to_owned());
        let m = Self {
            material_type: MaterialType::Textured,
            vertex_colors: Vec::new(),
            texture_coordinates: coordinates,
            texture_src,
            color: Color { r: TENTH, g: TENTH, b: TENTH, a: ONE },
        };
        assert(m.sources() =~= seq![src@]);
        m
    }

    /// Six images, one per cube face in the order +X, -X, +Y, -Y, +Z, -Z,
    /// over a black base colour.
    pub fn cubemap(src_set: [&str; 6]) -> (m: Self)
        ensures
            m.material_type == MaterialType::CubeMap,
            m.vertex_colors@.len() == 0,
            m.texture_coordinates@.len() == 0,
            m.sources() == src_set@.map_values(|s: &str| s@),
            m.color == (Color { r: ZERO, g: ZERO, b: ZERO, a: ONE }),
            m.well_formed(),
    {
        let mut texture_src: Vec<String> = Vec::new();
        let mut i: usize = 0;
        while i < 6
            invariant
                i <= 6,
                texture_src@.len() == i,
                forall|k: int| 0 <= k < i ==> (#[trigger] texture_src@[k])@ == src_set@[k]@,
            decreases 6 - i,
        {
            texture_src.push(src_set[i].to_owned());
            i += 1;
        }
        let m = Self {
            material_type: MaterialType::CubeMap,
            vertex_colors: Vec::new(),
            texture_coordinates: Vec::new(),
            texture_src,
            color: Color { r: ZERO, g: ZERO, b: ZERO, a: ONE },
        };
        assert(m.sources() =~= src_set@.map_values(|s: &str| s@));
        m
    }

    /// Accepts the material when its image sources fit its variant.
    pub fn check(&self) -> (r: Result<(), ResourceError>)
        ensures
            self.well_formed() ==> r == Ok::<(), ResourceError>(()),
            !self.well_formed() ==> r == Err::<(), ResourceError>(ResourceError::InvariantViolation),
    {
        let expected = self.material_type.image_count();
        if expected == 0 || self.texture_src.len() == expected {
            Ok(())
        } else {
            Err(ResourceError::InvariantViolation)
        }
    }
}

/// The most vertices a mesh may have: 16-bit indices reach no further.
pub const MAX_VERTICES: usize = 65536;

/// The size in bytes of every bundle's uniform buffer: room for a 4x4
/// matrix, a colour and the variant tag, with padding.
pub const UNIFORM_BYTES: usize = 96;

/// The rows of `rows` laid end to end: word `k` of the result is word
/// `k % N` of row `k / N`.
pub open spec fn spec_flatten<const N: usize>(rows: Seq<[u32; N]>) -> Seq<u32> {
    Seq::new((rows.len() * N) as nat, |k: int| rows[k / (N as int)]@[k % (N as int)])
}

/// Lays the rows of `rows` end to end.
pub fn flatten<const N: usize>(rows: &Vec<[u32; N]>) -> (words: Vec<u32>)
    ensures
        words@ == spec_flatten(rows@),
{
    let mut words: Vec<u32> = Vec::new();
    let mut i: usize = 0;
    while i < rows.len()
        invariant
            i <= rows@.len(),
            words@.len() == i * N,
            forall|k: int|
                0 <= k < words@.len() ==> #[trigger] words@[k] == rows@[k / (N as int)]@[k % (
                N as int)],
        decreases rows@.len() - i,
    {
        let row = &rows[i];
        let mut j: usize = 0;
        while j < N
            invariant
                j <= N,
                i < rows@.len(),
                *row == rows@[i as int],
                words@.len() == i * N + j,
                forall|k: int|
                    0 <= k < words@.len() ==> #[trigger] words@[k] == rows@[k / (N as int)]@[k % (
                    N as int)],
            decreases N - j,
        {
            proof {
                lemma_fundamental_div_mod_converse(i * N + j, N as int, i as int, j as int);
            }
            words.push(row[j]);
            j += 1;
        }
        assert((i + 1) * N == i * N + N) by (nonlinear_arith);
        i += 1;
    }
    assert(words@ =~= spec_flatten(rows@));
    words
}

/// The shape of a mesh: vertex positions, three words each, and a list of
/// triangles as 16-bit indices into them, three per triangle.
pub struct Geometry {
    pub vertices: Vec<[u32; 3]>,
    pub indices: Vec<u16>,
}

impl Geometry {
    /// Whether every vertex can be reached by a 16-bit index.
    pub open spec fn well_formed(&self) -> bool {
        self.vertices@.len() <= MAX_VERTICES
    }

    /// The index list of `triangles`: corner `j` of triangle `k` stands at
    /// place `3 * k + j`, cut to its low 16 bits.
    pub open spec fn spec_indices(triangles: Seq<[usize; 3]>) -> Seq<u16> {
        Seq::new((triangles.len() * 3) as nat, |k: int| triangles[k / 3]@[k % 3] as u16)
    }

    /// The triangles of the index list `indices`, whose length is a
    /// multiple of three: triangle `k` has the corners at places `3 * k`,
    /// `3 * k + 1` and `3 * k + 2`.
    pub open spec fn spec_triangles(indices: Seq<u16>) -> Seq<Seq<u32>> {
        Seq::new(
            (indices.len() / 3) as nat,
            |k: int| seq![indices[3 * k] as u32, indices[3 * k + 1] as u32, indices[3 * k + 2] as u32],
        )
    }

    /// A geometry from the vertices and triangles that a mesh generator
    /// gave. Each corner index is cut to 16 bits, so it is kept as it is
    /// when it is below 65536.
    pub fn from_genmesh(vertices: Vec<[u32; 3]>, triangles: &Vec<[usize; 3]>) -> (g: Self)
        ensures
            g.vertices == vertices,
            g.indices@ == Self::spec_indices(triangles@),
    {
        let mut indices: Vec<u16> = Vec::new();
        let mut i: usize = 0;
        while i < triangles.len()
            invariant
                i <= triangles@.len(),
                indices@.len() == i * 3,
                forall|k: int|
                    0 <= k < indices@.len() ==> #[trigger] indices@[k] == triangles@[k / 3]@[k
                        % 3] as u16,
            decreases triangles@.len() - i,
        {
            let t = &triangles[i];
            indices.push(#[verifier::truncate] (t[0] as u16));
            indices.push(#[verifier::truncate] (t[1] as u16));
            indices.push(#[verifier::truncate] (t[2] as u16));
            i += 1;
        }
        assert(indices@ =~= Self::spec_indices(triangles@));
        Geometry { vertices, indices }
    }

    /// The positions as one run of words, three per vertex.
    pub fn vertex_data(&self) -> (words: Vec<u32>)
        ensures
            words@ == spec_flatten(self.vertices@),
    {
        flatten(&self.vertices)
    }

    /// The triangles of the index list, each as three 32-bit indices.
    pub fn triangles(&self) -> (t: Vec<[u32; 3]>)
        requires
            self.indices@.len() % 3 == 0,
        ensures
            t@.map_values(|c: [u32; 3]| c@) == Self::spec_triangles(self.indices@),
    {
        let mut t: Vec<[u32; 3]> = Vec::new();
        let n = self.indices.len() / 3;
        let mut k: usize = 0;
        while k < n
            invariant
                k <= n,
                3 * n == self.indices@.len() <= usize::MAX,
                t@.len() == k,
                forall|m: int|
                    0 <= m < k ==> (#[trigger] t@[m])@ == seq![
                        self.indices@[3 * m] as u32,
                        self.indices@[3 * m + 1] as u32,
                        self.indices@[3 * m + 2] as u32,
                    ],
            decreases n - k,
        {
            let corners: [u32; 3] = [
                self.indices[3 * k] as u32,
                self.indices[3 * k + 1] as u32,
                self.indices[3 * k + 2] as u32,
            ];
            assert(corners@ =~= seq![
                self.indices@[3 * k] as u32,
                self.indices@[3 * k + 1] as u32,
                self.indices@[3 * k + 2] as u32,
            ]);
            t.push(corners);
            k += 1;
        }
        assert(t@.map_values(|c: [u32; 3]| c@) =~= Self::spec_triangles(self.indices@));
        t
    }
}

impl Material {
    /// The words of the colour buffer: the vertex colours laid end to end
    /// for a vertex-coloured material, nothing for any other.
    pub open spec fn spec_color_data(&self) -> Seq<u32> {
        if self.material_type == MaterialType::VertexColor {
            spec_flatten(self.vertex_colors@)
        } else {
            Seq::empty()
        }
    }

    /// The words of the texture-coordinate buffer: the coordinates laid end
    /// to end for a textured or cube-map material, nothing for any other.
    pub open spec fn spec_texcoord_data(&self) -> Seq<u32> {
        if self.material_type == MaterialType::Textured || self.material_type
            == MaterialType::CubeMap {
            spec_flatten(self.texture_coordinates@)
        } else {
            Seq::empty()
        }
    }

    /// The words of the colour buffer.
    pub fn color_data(&self) -> (words: Vec<u32>)
        ensures
            words@ == self.spec_color_data(),
    {
        match self.material_type {
            MaterialType::VertexColor => flatten(&self.vertex_colors),
            _ => Vec::new(),
        }
    }

    /// The words of the texture-coordinate buffer.
    pub fn texcoord_data(&self) -> (words: Vec<u32>)
        ensures
            words@ == self.spec_texcoord_data(),
    {
        match self.material_type {
            MaterialType::Textured => flatten(&self.texture_coordinates),
            MaterialType::CubeMap => flatten(&self.texture_coordinates),
            _ => Vec::new(),
        }
    }
}

/// Everything that is decided about a bundle before the device is asked
/// for anything: the counts and the contents and size of each buffer. How
/// many images are fetched and how many layers the texture has follows from
/// the variant.
pub struct MeshPlan {
    pub vertext_count: u32,
    pub index_count: u32,
    pub material_type: MaterialType,
    pub color: Color,
    /// The contents of the vertex buffer.
    pub vertex_data: Vec<u32>,
    pub vertex_buffer: BufferDescriptor,
    pub index_buffer: BufferDescriptor,
    /// The contents of the colour buffer; empty unless the variant uses it.
    pub color_data: Vec<u32>,
    pub vertex_colors: BufferDescriptor,
    /// The contents of the texture-coordinate buffer; empty unless the
    /// variant uses it.
    pub texcoord_data: Vec<u32>,
    pub texture_coordinates: BufferDescriptor,
    pub uniform_buffer: BufferDescriptor,
}

/// The vertex buffer that holds `words` words.
pub open spec fn spec_vertex_buffer(words: int) -> BufferDescriptor {
    BufferDescriptor {
        size: (words * 4) as usize,
        usage: BufferUsage::Vertex,
        mapped_at_creation: true,
    }
}

/// Whether a vertex buffer of `words` words has a size that the machine can
/// express.
pub open spec fn fits(words: int) -> bool {
    words * 4 + 3 <= usize::MAX
}

impl MeshPlan {
    /// Why no bundle can be planned from these two, if anything: a rule of
    /// the description is broken, or, failing that, a buffer would be
    /// larger than the machine can express.
    pub open spec fn spec_error(geometry: &Geometry, material: &Material) -> Option<ResourceError> {
        if !material.well_formed() || !geometry.well_formed() {
            Some(ResourceError::InvariantViolation)
        } else if geometry.indices@.len() > u32::MAX || geometry.indices@.len() * 2 + 3
            > usize::MAX || !fits(material.spec_color_data().len() as int) || !fits(
            material.spec_texcoord_data().len() as int,
        ) {
            Some(ResourceError::AllocationFailed)
        } else {
            None
        }
    }

    /// Whether this is the plan of the bundle for `geometry` and
    /// `material`: every field is fixed by the two.
    pub open spec fn matches(&self, geometry: &Geometry, material: &Material) -> bool {
        &&& self.vertext_count == geometry.vertices@.len()
        &&& self.index_count == geometry.indices@.len()
        &&& self.material_type == material.material_type
        &&& self.color == material.color
        &&& self.vertex_data@ == spec_flatten(geometry.vertices@)
        &&& self.vertex_buffer == spec_vertex_buffer(3 * geometry.vertices@.len() as int)
        &&& self.index_buffer == (BufferDescriptor {
            size: spec_aligned(geometry.indices@.len() as int * 2) as usize,
            usage: BufferUsage::Index,
            mapped_at_creation: true,
        })
        &&& self.color_data@ == material.spec_color_data()
        &&& self.vertex_colors == spec_vertex_buffer(material.spec_color_data().len() as int)
        &&& self.texcoord_data@ == material.spec_texcoord_data()
        &&& self.texture_coordinates == spec_vertex_buffer(
            material.spec_texcoord_data().len() as int,
        )
        &&& self.uniform_buffer == (BufferDescriptor {
            size: UNIFORM_BYTES,
            usage: BufferUsage::Uniform,
            mapped_at_creation: false,
        })
    }

    /// Plans the bundle for `geometry` and `material`, or says why there
    /// can be none.
    pub fn new(renderer: &Renderer, geometry: &Geometry, material: &Material) -> (r: Result<
        Self,
        ResourceError,
    >)
        ensures
            match Self::spec_error(geometry, material) {
                Some(e) => r == Err::<Self, ResourceError>(e),
                None => r is Ok && r->Ok_0.matches(geometry, material),
            },
    {
        if material.check().is_err() || geometry.vertices.len() > MAX_VERTICES {
            return Err(ResourceError::InvariantViolation);
        }
        let limit: usize = (usize::MAX - 3) / 4;
        let indices = geometry.indices.len();
        let colors = match material.material_type {
            MaterialType::VertexColor => material.vertex_colors.len(),
            _ => 0,
        };
        let coordinates = match material.material_type {
            MaterialType::Textured => material.texture_coordinates.len(),
            MaterialType::CubeMap => material.texture_coordinates.len(),
            _ => 0,
        };
        if indices > u32::MAX as usize || indices > (usize::MAX - 3) / 2 || colors > limit / 3
            || coordinates > limit / 2 {
            return Err(ResourceError::AllocationFailed);
        }
        let vertex_data = geometry.vertex_data();
        let color_data = material.color_data();
        let texcoord_data = material.texcoord_data();
        let vertex_buffer = renderer.create_buffer(vertex_data.as_slice());
        let index_buffer = renderer.create_index_buffer(geometry.indices.as_slice());
        let vertex_colors = renderer.create_buffer(color_data.as_slice());
        let texture_coordinates = renderer.create_buffer(texcoord_data.as_slice());
        Ok(
            MeshPlan {
                vertext_count: geometry.vertices.len() as u32,
                index_count: indices as u32,
                material_type: material.material_type,
                color: material.color,
                vertex_data,
                vertex_buffer,
                index_buffer,
                color_data,
                vertex_colors,
                texcoord_data,
                texture_coordinates,
                uniform_buffer: BufferDescriptor {
                    size: UNIFORM_BYTES,
                    usage: BufferUsage::Uniform,
                    mapped_at_creation: false,
                },
            },
        )
    }
}

/// How loading one source image ended.
#[derive(Clone, Copy, Debug, PartialEq, Eq, Structural)]
pub enum ImageOutcome {
    /// The image was fetched and decoded, and has this size.
    Loaded(Rect),
    /// The image could not be fetched.
    FetchFailed,
    /// The image was fetched but could not be decoded.
    DecodeFailed,
}

/// Whether outcome `i` is the first that is not a loaded image.
pub open spec fn first_failure(outcomes: Seq<ImageOutcome>, i: int) -> bool {
    &&& 0 <= i < outcomes.len()
    &&& !(outcomes[i] is Loaded)
    &&& forall|j: int| 0 <= j < i ==> outcomes[j] is Loaded
}

/// Whether every outcome is a loaded image.
pub open spec fn all_loaded(outcomes: Seq<ImageOutcome>) -> bool {
    forall|j: int| 0 <= j < outcomes.len() ==> outcomes[j] is Loaded
}

impl Material {
    /// Whether `r` is the error for the first failure among `outcomes`,
    /// which stands at place `i`: it names source `i` and says whether the
    /// fetch or the decoding failed. A failure that belongs to no source
    /// breaks the description.
    pub open spec fn is_image_error(
        &self,
        r: Result<Vec<Rect>, ResourceError>,
        outcomes: Seq<ImageOutcome>,
        i: int,
    ) -> bool {
        if i >= self.texture_src@.len() {
            r == Err::<Vec<Rect>, ResourceError>(ResourceError::InvariantViolation)
        } else if outcomes[i] is FetchFailed {
            r matches Err(ResourceError::AssetFetchFailed(src)) && src@ == self.sources()[i]
        } else {
            r matches Err(ResourceError::DecodeFailed(src)) && src@ == self.sources()[i]
        }
    }

    /// The sizes of the images once every one is loaded, in source order;
    /// otherwise the error for the first that failed. `outcomes[i]` says
    /// how loading source `i` ended; loading may stop at the first
    /// failure.
    pub fn image_sizes(&self, outcomes: &Vec<ImageOutcome>) -> (r: Result<Vec<Rect>, ResourceError>)
        ensures
            forall|i: int| first_failure(outcomes@, i) ==> self.is_image_error(r, outcomes@, i),
            all_loaded(outcomes@) ==> r is Ok && r->Ok_0@.len() == outcomes@.len() && forall|
                j: int,
            |
                0 <= j < outcomes@.len() ==> outcomes@[j] == ImageOutcome::Loaded(
                    #[trigger] r->Ok_0@[j],
                ),
    {
        let mut sizes: Vec<Rect> = Vec::new();
        let mut i: usize = 0;
        while i < outcomes.len()
            invariant
                i <= outcomes@.len(),
                sizes@.len() == i,
                forall|j: int| 0 <= j < i ==> #[trigger] outcomes@[j] is Loaded,
                forall|j: int|
                    0 <= j < i ==> outcomes@[j] == ImageOutcome::Loaded(#[trigger] sizes@[j]),
            decreases outcomes@.len() - i,
        {
            match outcomes[i] {
                ImageOutcome::Loaded(size) => {
                    sizes.push(size);
                },
                failure => {
                    assert(first_failure(outcomes@, i as int));
                    assert forall|k: int| first_failure(outcomes@, k) implies k == i by {
                        if k > i {
                            assert(outcomes@[i as int] is Loaded);
                        }
                    }
                    if i >= self.texture_src.len() {
                        return Err(ResourceError::InvariantViolation);
                    }
                    assert(self.sources()[i as int] == self.texture_src@[i as int]@);
                    let src = self.texture_src[i].clone();
                    return Err(
                        match failure {
                            ImageOutcome::FetchFailed => ResourceError::AssetFetchFailed(src),
                            _ => ResourceError::DecodeFailed(src),
                        },
                    );
                },
            }
            i += 1;
        }
        Ok(sizes)
    }
}

/// Where one source image goes in the bundle's texture.
#[derive(Clone, Copy, Debug, PartialEq, Eq, Structural)]
pub struct ImageCopy {
    /// The place of the image among the material's sources.
    pub source: usize,
    /// The texture layer that receives it.
    pub layer: u32,
    /// The extent copied, in pixels.
    pub width: u32,
    pub height: u32,
}

/// The texture of a bundle and the copies that fill it.
pub struct TexturePlan {
    pub texture: TextureDescriptor,
    /// Whether the texture is bound as a cube, its six layers being the
    /// faces +X, -X, +Y, -Y, +Z, -Z.
    pub cube: bool,
    pub copies: Vec<ImageCopy>,
}

impl MeshPlan {
    /// The size of the bundle's texture: that of the first image, or one
    /// pixel when there is no image.
    pub open spec fn spec_texture_size(sizes: Seq<Rect>) -> Rect {
        if sizes.len() > 0 {
            sizes[0]
        } else {
            Rect { width: 1, height: 1 }
        }
    }

    /// The copy that brings image `i` into a texture of size `size`: image
    /// `i` fills layer `i` of a cube map, and layer 0 otherwise.
    pub open spec fn spec_copy(material_type: MaterialType, size: Rect, i: int) -> ImageCopy {
        ImageCopy {
            source: i as usize,
            layer: if material_type == MaterialType::CubeMap {
                i as u32
            } else {
                0
            },
            width: size.width,
            height: size.height,
        }
    }

    /// Whether `plan` is the texture plan of this bundle for decoded images
    /// of the given sizes.
    pub open spec fn texture_matches(&self, plan: &TexturePlan, sizes: Seq<Rect>) -> bool {
        let size = Self::spec_texture_size(sizes);
        &&& plan.texture == (TextureDescriptor {
            format: TextureFormat::Rgba8Unorm,
            width: size.width,
            height: size.height,
            layers: self.material_type.spec_texture_layers(),
            usage: TextureUsage::Sampled,
        })
        &&& plan.cube == (self.material_type == MaterialType::CubeMap)
        &&& plan.copies@.len() == sizes.len()
        &&& forall|i: int|
            0 <= i < sizes.len() ==> #[trigger] plan.copies@[i] == Self::spec_copy(
                self.material_type,
                size,
                i,
            )
    }

    /// How many of the material's sources are fetched, from the first on.
    pub fn images(&self) -> (n: usize)
        ensures
            n == self.material_type.spec_image_count(),
    {
        self.material_type.image_count()
    }

    /// Plans the texture once the images are decoded. `sizes` holds the
    /// size of each image in source order; there must be as many as the
    /// variant asks for, or the bundle is refused.
    pub fn texture(&self, renderer: &Renderer, sizes: &Vec<Rect>) -> (r: Result<
        TexturePlan,
        ResourceError,
    >)
        ensures
            sizes@.len() != self.material_type.spec_image_count() ==> r == Err::<
                TexturePlan,
                ResourceError,
            >(ResourceError::InvariantViolation),
            sizes@.len() == self.material_type.spec_image_count() ==> r is Ok
                && self.texture_matches(&r->Ok_0, sizes@),
    {
        if sizes.len() != self.images() {
            return Err(ResourceError::InvariantViolation);
        }
        let size = if sizes.len() > 0 {
            sizes[0]
        } else {
            Rect { width: 1, height: 1 }
        };
        let cube = self.material_type == MaterialType::CubeMap;
        let mut copies: Vec<ImageCopy> = Vec::new();
        let mut i: usize = 0;
        while i < sizes.len()
            invariant
                i <= sizes@.len() <= 6,
                size == Self::spec_texture_size(sizes@),
                cube == (self.material_type == MaterialType::CubeMap),
                copies@.len() == i,
                forall|k: int|
                    0 <= k < i ==> #[trigger] copies@[k] == Self::spec_copy(
                        self.material_type,
                        size,
                        k,
                    ),
            decreases sizes@.len() - i,
        {
            let layer: u32 = if cube {
                i as u32
            } else {
                0
            };
            copies.push(ImageCopy { source: i, layer, width: size.width, height: size.height });
            i += 1;
        }
        Ok(
            TexturePlan {
                texture: renderer.create_texture(&size, self.material_type.texture_layers()),
                cube,
                copies,
            },
        )
    }
}

/// The device objects of one bundle, as the device handed them out.
pub struct MeshHandles<B, G> {
    pub vertex_buffer: B,
    pub index_buffer: B,
    pub vertex_colors: B,
    pub uniform_buffer: B,
    pub uniform_bind_group: G,
    pub texture_coordinates: B,
    pub texture_bind_group: G,
}

/// A resource bundle: what is needed to draw one mesh. `B` is the device's
/// buffer handle and `G` its binding-set handle.
pub struct Mesh<B, G> {
    pub vertext_count: u32,
    pub index_count: u32,
    pub material_type: MaterialType,
    pub color: Color,
    pub vertex_buffer: B,
    pub index_buffer: B,
    pub vertex_colors: B,
    pub uniform_buffer: B,
    pub uniform_bind_group: G,
    pub texture_coordinates: B,
    pub texture_bind_group: G,
}

impl<B, G> Mesh<B, G> {
    /// The bundle of a plan, once the device has created what the plan
    /// asked for.
    pub fn new(plan: &MeshPlan, handles: MeshHandles<B, G>) -> (mesh: Self)
        ensures
            mesh.vertext_count == plan.vertext_count,
            mesh.index_count == plan.index_count,
            mesh.material_type == plan.material_type,
            mesh.color == plan.color,
            mesh.vertex_buffer == handles.vertex_buffer,
            mesh.index_buffer == handles.index_buffer,
            mesh.vertex_colors == handles.vertex_colors,
            mesh.uniform_buffer == handles.uniform_buffer,
            mesh.uniform_bind_group == handles.uniform_bind_group,
            mesh.texture_coordinates == handles.texture_coordinates,
            mesh.texture_bind_group == handles.texture_bind_group,
    {
        Mesh {
            vertext_count: plan.vertext_count,
            index_count: plan.index_count,
            material_type: plan.material_type,
            color: plan.color,
            vertex_buffer: handles.vertex_buffer,
            index_buffer: handles.index_buffer,
            vertex_colors: handles.vertex_colors,
            uniform_buffer: handles.uniform_buffer,
            uniform_bind_group: handles.uniform_bind_group,
            texture_coordinates: handles.texture_coordinates,
            texture_bind_group: handles.texture_bind_group,
        }
    }
}

/// A planned bundle has exactly the indices of its geometry, and a vertex
/// buffer of twelve bytes per vertex: three position scalars of four bytes
/// each, which is the byte size of the positions rounded up to the device
/// alignment. A plan exists only for a geometry of at most 65536 vertices,
/// so these sizes always fit.
pub proof fn lemma_plan_round_trip(plan: &MeshPlan, geometry: &Geometry, material: &Material)
    requires
        plan.matches(geometry, material),
        MeshPlan::spec_error(geometry, material) is None,
    ensures
        plan.index_count == geometry.indices@.len(),
        plan.vertext_count == geometry.vertices@.len(),
        plan.vertex_buffer.size == geometry.vertices@.len() * 3 * 4,
        plan.vertex_buffer.size == spec_aligned(geometry.vertices@.len() as int * 3 * 4),
        plan.vertex_buffer.size >= geometry.vertices@.len() * 3 * 4,
        plan.vertex_buffer.size % 4 == 0,
        plan.vertex_data@.len() == geometry.vertices@.len() * 3,
        plan.index_buffer.size == spec_aligned(geometry.indices@.len() as int * 2),
        plan.index_buffer.size >= geometry.indices@.len() * 2,
        plan.index_buffer.size % 4 == 0,
{
}

/// Whatever the rest of the description, a cube map is planned only from
/// exactly six image sources and a textured material only from exactly one.
pub proof fn lemma_source_count_enforced(geometry: &Geometry, material: &Material)
    ensures
        material.material_type == MaterialType::CubeMap && material.texture_src@.len() != 6
            ==> MeshPlan::spec_error(geometry, material) == Some(
            ResourceError::InvariantViolation,
        ),
        material.material_type == MaterialType::Textured && material.texture_src@.len() != 1
            ==> MeshPlan::spec_error(geometry, material) == Some(
            ResourceError::InvariantViolation,
        ),
{
}

} // verus!
