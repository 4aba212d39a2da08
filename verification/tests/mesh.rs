use scene_engine::mesh::{
    flatten, Geometry, ImageCopy, ImageOutcome, Material, MaterialType, Mesh, MeshHandles,
    MeshPlan, ResourceError, MAX_VERTICES, UNIFORM_BYTES,
};
use scene_engine::renderer::{
    BufferDescriptor, BufferUsage, Color, Rect, Renderer, TextureDescriptor, TextureFormat,
    TextureUsage,
};

fn w(x: f32) -> u32 {
    x.to_bits()
}

fn color_of(c: Color) -> [f32; 4] {
    [f32::from_bits(c.r), f32::from_bits(c.g), f32::from_bits(c.b), f32::from_bits(c.a)]
}

fn triangle() -> Geometry {
    Geometry::from_genmesh(
        vec![[w(0.0), w(0.0), w(0.0)], [w(1.0), w(0.0), w(0.0)], [w(0.0), w(1.0), w(0.0)]],
        &vec![[0, 1, 2]],
    )
}

fn cube_material(n: usize) -> Material {
    let mut m = Material::cubemap(["px", "nx", "py", "ny", "pz", "nz"]);
    m.texture_src = (0..n).map(|i| format!("face{}", i)).collect();
    m
}

#[test]
fn material_tags() {
    assert_eq!(MaterialType::Color.tag(), 0);
    assert_eq!(MaterialType::VertexColor.tag(), 1);
    assert_eq!(MaterialType::Textured.tag(), 2);
    assert_eq!(MaterialType::CubeMap.tag(), 3);
}

#[test]
fn tag_words_are_the_tags_as_numbers() {
    for variant in [
        MaterialType::Color,
        MaterialType::VertexColor,
        MaterialType::Textured,
        MaterialType::CubeMap,
    ] {
        assert_eq!(f32::from_bits(variant.tag_word()), variant.tag() as f32);
    }
}

#[test]
fn image_and_layer_counts_follow_the_variant() {
    assert_eq!(MaterialType::Color.image_count(), 0);
    assert_eq!(MaterialType::VertexColor.image_count(), 0);
    assert_eq!(MaterialType::Textured.image_count(), 1);
    assert_eq!(MaterialType::CubeMap.image_count(), 6);
    assert_eq!(MaterialType::Color.texture_layers(), 1);
    assert_eq!(MaterialType::VertexColor.texture_layers(), 1);
    assert_eq!(MaterialType::Textured.texture_layers(), 1);
    assert_eq!(MaterialType::CubeMap.texture_layers(), 6);
}

#[test]
fn flat_color_material() {
    let m = Material::new(Color::rgb(w(1.0), w(0.0), w(0.0)));
    assert_eq!(m.material_type, MaterialType::Color);
    assert!(m.vertex_colors.is_empty());
    assert!(m.texture_coordinates.is_empty());
    assert!(m.texture_src.is_empty());
    assert_eq!(color_of(m.color), [1.0, 0.0, 0.0, 1.0]);
    assert_eq!(m.check(), Ok(()));
}

#[test]
fn vertex_color_material_is_white_underneath() {
    let colors = vec![[w(0.1), w(0.2), w(0.3)], [w(0.4), w(0.5), w(0.6)]];
    let m = Material::vertex_color(colors.clone());
    assert_eq!(m.material_type, MaterialType::VertexColor);
    assert_eq!(m.vertex_colors, colors);
    assert!(m.texture_coordinates.is_empty());
    assert!(m.texture_src.is_empty());
    assert_eq!(color_of(m.color), [1.0, 1.0, 1.0, 1.0]);
    assert_eq!(m.color_data(), vec![w(0.1), w(0.2), w(0.3), w(0.4), w(0.5), w(0.6)]);
    assert!(m.texcoord_data().is_empty());
}

#[test]
fn textured_material_is_dark_grey_underneath() {
    let coordinates = vec![[w(0.0), w(1.0)], [w(0.5), w(0.25)]];
    let m = Material::textured("img/icon.png", coordinates.clone());
    assert_eq!(m.material_type, MaterialType::Textured);
    assert!(m.vertex_colors.is_empty());
    assert_eq!(m.texture_coordinates, coordinates);
    assert_eq!(m.texture_src, vec!["img/icon.png".to_string()]);
    assert_eq!(color_of(m.color), [0.1, 0.1, 0.1, 1.0]);
    assert_eq!(m.texcoord_data(), vec![w(0.0), w(1.0), w(0.5), w(0.25)]);
    assert!(m.color_data().is_empty());
    assert_eq!(m.check(), Ok(()));
}

#[test]
fn cubemap_material_keeps_the_face_order() {
    let m = Material::cubemap(["posx", "negx", "posy", "negy", "posz", "negz"]);
    assert_eq!(m.material_type, MaterialType::CubeMap);
    assert!(m.vertex_colors.is_empty());
    assert!(m.texture_coordinates.is_empty());
    assert_eq!(m.texture_src, vec!["posx", "negx", "posy", "negy", "posz", "negz"]);
    assert_eq!(color_of(m.color), [0.0, 0.0, 0.0, 1.0]);
    assert_eq!(m.check(), Ok(()));
}

#[test]
fn flatten_lays_rows_end_to_end() {
    assert_eq!(flatten(&vec![[1u32, 2, 3], [4, 5, 6]]), vec![1, 2, 3, 4, 5, 6]);
    assert_eq!(flatten(&vec![[7u32, 8], [9, 10], [11, 12]]), vec![7, 8, 9, 10, 11, 12]);
    assert_eq!(flatten::<3>(&vec![]), Vec::<u32>::new());
}

#[test]
fn geometry_flattens_triangles() {
    let g = Geometry::from_genmesh(vec![[1, 2, 3], [4, 5, 6]], &vec![[0, 1, 2], [2, 1, 3]]);
    assert_eq!(g.vertices, vec![[1, 2, 3], [4, 5, 6]]);
    assert_eq!(g.indices, vec![0, 1, 2, 2, 1, 3]);
    assert_eq!(g.vertex_data(), vec![1, 2, 3, 4, 5, 6]);
    assert_eq!(g.triangles(), vec![[0, 1, 2], [2, 1, 3]]);
}

#[test]
fn geometry_without_triangles() {
    let g = Geometry::from_genmesh(vec![], &vec![]);
    assert!(g.vertices.is_empty());
    assert!(g.indices.is_empty());
    assert!(g.triangles().is_empty());
}

#[test]
fn corner_indices_are_cut_to_sixteen_bits() {
    let g = Geometry::from_genmesh(vec![], &vec![[65535, 65536, 65537]]);
    assert_eq!(g.indices, vec![65535, 0, 1]);
}

#[test]
fn plan_counts_and_sizes() {
    let renderer = Renderer::new(800, 600);
    let g = triangle();
    let m = Material::new(Color::rgb(w(1.0), w(0.0), w(0.0)));
    let plan = MeshPlan::new(&renderer, &g, &m).unwrap();
    assert_eq!(plan.vertext_count, 3);
    assert_eq!(plan.index_count, 3);
    assert_eq!(plan.material_type, MaterialType::Color);
    assert_eq!(plan.color, m.color);
    assert_eq!(plan.vertex_data.len(), 9);
    assert_eq!(plan.vertex_data, g.vertex_data());
    assert_eq!(
        plan.vertex_buffer,
        BufferDescriptor { size: 36, usage: BufferUsage::Vertex, mapped_at_creation: true }
    );
    assert_eq!(
        plan.index_buffer,
        BufferDescriptor { size: 8, usage: BufferUsage::Index, mapped_at_creation: true }
    );
    assert!(plan.color_data.is_empty());
    assert_eq!(
        plan.vertex_colors,
        BufferDescriptor { size: 0, usage: BufferUsage::Vertex, mapped_at_creation: true }
    );
    assert!(plan.texcoord_data.is_empty());
    assert_eq!(plan.texture_coordinates.size, 0);
    assert_eq!(
        plan.uniform_buffer,
        BufferDescriptor { size: 96, usage: BufferUsage::Uniform, mapped_at_creation: false }
    );
    assert_eq!(UNIFORM_BYTES, 96);
    assert_eq!(plan.images(), 0);
}

#[test]
fn vertex_buffer_holds_twelve_bytes_per_vertex() {
    let renderer = Renderer::new(1, 1);
    for v in [0usize, 1, 2, 5, 100, 4097] {
        for i in [0usize, 1, 2, 3, 4, 7, 300] {
            let g = Geometry { vertices: vec![[0, 0, 0]; v], indices: vec![0; i] };
            let m = Material::new(Color::rgb(0, 0, 0));
            let plan = MeshPlan::new(&renderer, &g, &m).unwrap();
            assert_eq!(plan.index_count as usize, i);
            assert_eq!(plan.vertext_count as usize, v);
            assert!(plan.vertex_buffer.size >= v * 3 * 4);
            assert_eq!(plan.vertex_buffer.size, v * 12);
            assert_eq!(plan.vertex_buffer.size % 4, 0);
            assert!(plan.index_buffer.size >= i * 2);
            assert!(plan.index_buffer.size < i * 2 + 4);
            assert_eq!(plan.index_buffer.size % 4, 0);
        }
    }
}

#[test]
fn auxiliary_buffers_follow_the_variant() {
    let renderer = Renderer::new(1, 1);
    let g = triangle();
    let colors = vec![[w(1.0), w(0.0), w(0.0)]; 3];
    let coordinates = vec![[w(0.0), w(0.0)]; 3];

    let mut m = Material::vertex_color(colors.clone());
    m.texture_coordinates = coordinates.clone();
    let plan = MeshPlan::new(&renderer, &g, &m).unwrap();
    assert_eq!(plan.color_data.len(), 9);
    assert_eq!(plan.vertex_colors.size, 36);
    assert!(plan.texcoord_data.is_empty());
    assert_eq!(plan.texture_coordinates.size, 0);

    let mut m = Material::textured("a.png", coordinates.clone());
    m.vertex_colors = colors.clone();
    let plan = MeshPlan::new(&renderer, &g, &m).unwrap();
    assert!(plan.color_data.is_empty());
    assert_eq!(plan.vertex_colors.size, 0);
    assert_eq!(plan.texcoord_data.len(), 6);
    assert_eq!(plan.texture_coordinates.size, 24);
    assert_eq!(plan.images(), 1);

    let mut m = Material::cubemap(["a", "b", "c", "d", "e", "f"]);
    m.vertex_colors = colors.clone();
    m.texture_coordinates = coordinates.clone();
    let plan = MeshPlan::new(&renderer, &g, &m).unwrap();
    assert!(plan.color_data.is_empty());
    assert_eq!(plan.texcoord_data.len(), 6);
    assert_eq!(plan.texture_coordinates.size, 24);
    assert_eq!(plan.images(), 6);

    let mut m = Material::new(Color::rgb(0, 0, 0));
    m.vertex_colors = colors;
    m.texture_coordinates = coordinates;
    let plan = MeshPlan::new(&renderer, &g, &m).unwrap();
    assert!(plan.color_data.is_empty());
    assert!(plan.texcoord_data.is_empty());
}

#[test]
fn cubemap_needs_exactly_six_sources() {
    let renderer = Renderer::new(1, 1);
    let g = triangle();
    for n in [0usize, 1, 5, 7, 12] {
        let m = cube_material(n);
        assert_eq!(m.check(), Err(ResourceError::InvariantViolation));
        assert_eq!(MeshPlan::new(&renderer, &g, &m).err(), Some(ResourceError::InvariantViolation));
    }
    let m = cube_material(6);
    assert_eq!(m.check(), Ok(()));
    assert!(MeshPlan::new(&renderer, &g, &m).is_ok());
}

#[test]
fn textured_needs_exactly_one_source() {
    let renderer = Renderer::new(1, 1);
    let g = triangle();
    for n in [0usize, 2, 6] {
        let mut m = Material::textured("a.png", vec![]);
        m.texture_src = vec!["a.png".to_string(); n];
        assert_eq!(m.check(), Err(ResourceError::InvariantViolation));
        assert_eq!(MeshPlan::new(&renderer, &g, &m).err(), Some(ResourceError::InvariantViolation));
    }
}

#[test]
fn other_variants_use_no_image() {
    let renderer = Renderer::new(1, 1);
    let mut m = Material::new(Color::rgb(0, 0, 0));
    m.texture_src = vec!["unused.png".to_string()];
    assert_eq!(m.check(), Ok(()));
    let plan = MeshPlan::new(&renderer, &triangle(), &m).unwrap();
    assert_eq!(plan.images(), 0);
}

#[test]
fn more_vertices_than_indices_can_reach_are_refused() {
    let renderer = Renderer::new(1, 1);
    let m = Material::new(Color::rgb(0, 0, 0));
    let g = Geometry { vertices: vec![[0, 0, 0]; MAX_VERTICES], indices: vec![] };
    let plan = MeshPlan::new(&renderer, &g, &m).unwrap();
    assert_eq!(plan.vertext_count, 65536);
    assert_eq!(plan.vertex_buffer.size, 65536 * 12);
    let g = Geometry { vertices: vec![[0, 0, 0]; MAX_VERTICES + 1], indices: vec![] };
    assert_eq!(MeshPlan::new(&renderer, &g, &m).err(), Some(ResourceError::InvariantViolation));
}

#[test]
fn which_errors_can_be_recovered_from() {
    assert!(!ResourceError::AllocationFailed.recoverable());
    assert!(ResourceError::AssetFetchFailed("a.png".to_string()).recoverable());
    assert!(ResourceError::DecodeFailed("a.png".to_string()).recoverable());
    assert!(!ResourceError::InvariantViolation.recoverable());
}

#[test]
fn texture_without_images_is_one_pixel() {
    let renderer = Renderer::new(1, 1);
    let plan =
        MeshPlan::new(&renderer, &triangle(), &Material::new(Color::rgb(0, 0, 0))).unwrap();
    let texture = plan.texture(&renderer, &vec![]).unwrap();
    assert_eq!(
        texture.texture,
        TextureDescriptor {
            format: TextureFormat::Rgba8Unorm,
            width: 1,
            height: 1,
            layers: 1,
            usage: TextureUsage::Sampled,
        }
    );
    assert!(!texture.cube);
    assert!(texture.copies.is_empty());
}

#[test]
fn textured_image_goes_to_layer_zero() {
    let renderer = Renderer::new(1, 1);
    let m = Material::textured("a.png", vec![]);
    let plan = MeshPlan::new(&renderer, &triangle(), &m).unwrap();
    let texture = plan.texture(&renderer, &vec![Rect { width: 64, height: 32 }]).unwrap();
    assert_eq!(texture.texture.width, 64);
    assert_eq!(texture.texture.height, 32);
    assert_eq!(texture.texture.layers, 1);
    assert!(!texture.cube);
    assert_eq!(texture.copies, vec![ImageCopy { source: 0, layer: 0, width: 64, height: 32 }]);
}

#[test]
fn cube_faces_go_to_their_layers_in_source_order() {
    let renderer = Renderer::new(1, 1);
    let m = Material::cubemap(["px", "nx", "py", "ny", "pz", "nz"]);
    let plan = MeshPlan::new(&renderer, &triangle(), &m).unwrap();
    let mut sizes = vec![Rect { width: 256, height: 128 }];
    sizes.extend(vec![Rect { width: 8, height: 8 }; 5]);
    let texture = plan.texture(&renderer, &sizes).unwrap();
    assert_eq!(texture.texture.width, 256);
    assert_eq!(texture.texture.height, 128);
    assert_eq!(texture.texture.layers, 6);
    assert!(texture.cube);
    assert_eq!(texture.copies.len(), 6);
    for (i, copy) in texture.copies.iter().enumerate() {
        assert_eq!(*copy, ImageCopy { source: i, layer: i as u32, width: 256, height: 128 });
    }
}

#[test]
fn texture_with_the_wrong_number_of_images_is_refused() {
    let renderer = Renderer::new(1, 1);
    let m = Material::cubemap(["px", "nx", "py", "ny", "pz", "nz"]);
    let plan = MeshPlan::new(&renderer, &triangle(), &m).unwrap();
    for n in [0usize, 5, 7] {
        let sizes = vec![Rect { width: 2, height: 2 }; n];
        assert_eq!(plan.texture(&renderer, &sizes).err(), Some(ResourceError::InvariantViolation));
    }
    let m = Material::textured("a.png", vec![]);
    let plan = MeshPlan::new(&renderer, &triangle(), &m).unwrap();
    assert_eq!(plan.texture(&renderer, &vec![]).err(), Some(ResourceError::InvariantViolation));
    let plan = MeshPlan::new(&renderer, &triangle(), &Material::new(Color::rgb(0, 0, 0))).unwrap();
    let sizes = vec![Rect { width: 2, height: 2 }];
    assert_eq!(plan.texture(&renderer, &sizes).err(), Some(ResourceError::InvariantViolation));
}

#[test]
fn mesh_takes_counts_from_the_plan_and_handles_from_the_device() {
    let renderer = Renderer::new(1, 1);
    let m = Material::textured("a.png", vec![[0, 0]; 3]);
    let plan = MeshPlan::new(&renderer, &triangle(), &m).unwrap();
    let mesh = Mesh::new(
        &plan,
        MeshHandles {
            vertex_buffer: "vb",
            index_buffer: "ib",
            vertex_colors: "vc",
            uniform_buffer: "ub",
            uniform_bind_group: 10,
            texture_coordinates: "tc",
            texture_bind_group: 11,
        },
    );
    assert_eq!(mesh.vertext_count, 3);
    assert_eq!(mesh.index_count, 3);
    assert_eq!(mesh.material_type, MaterialType::Textured);
    assert_eq!(mesh.color, m.color);
    assert_eq!(mesh.vertex_buffer, "vb");
    assert_eq!(mesh.index_buffer, "ib");
    assert_eq!(mesh.vertex_colors, "vc");
    assert_eq!(mesh.uniform_buffer, "ub");
    assert_eq!(mesh.uniform_bind_group, 10);
    assert_eq!(mesh.texture_coordinates, "tc");
    assert_eq!(mesh.texture_bind_group, 11);
}

#[test]
fn loaded_images_give_their_sizes_in_order() {
    let m = Material::cubemap(["px", "nx", "py", "ny", "pz", "nz"]);
    let outcomes: Vec<ImageOutcome> =
        (1..=6).map(|i| ImageOutcome::Loaded(Rect { width: i, height: 10 * i })).collect();
    let sizes = m.image_sizes(&outcomes).unwrap();
    assert_eq!(sizes.len(), 6);
    for (i, size) in sizes.iter().enumerate() {
        assert_eq!(*size, Rect { width: i as u32 + 1, height: 10 * (i as u32 + 1) });
    }
    assert_eq!(m.image_sizes(&vec![]), Ok(vec![]));
}

#[test]
fn failed_fetch_names_its_source() {
    let m = Material::cubemap(["px", "nx", "py", "ny", "pz", "nz"]);
    let ok = ImageOutcome::Loaded(Rect { width: 4, height: 4 });
    assert_eq!(
        m.image_sizes(&vec![ImageOutcome::FetchFailed]),
        Err(ResourceError::AssetFetchFailed("px".to_string()))
    );
    assert_eq!(
        m.image_sizes(&vec![ok, ok, ImageOutcome::FetchFailed]),
        Err(ResourceError::AssetFetchFailed("py".to_string()))
    );
    let m = Material::textured("img/icon.png", vec![]);
    assert_eq!(
        m.image_sizes(&vec![ImageOutcome::FetchFailed]),
        Err(ResourceError::AssetFetchFailed("img/icon.png".to_string()))
    );
}

#[test]
fn failed_decoding_names_its_source() {
    let m = Material::cubemap(["px", "nx", "py", "ny", "pz", "nz"]);
    let ok = ImageOutcome::Loaded(Rect { width: 4, height: 4 });
    assert_eq!(
        m.image_sizes(&vec![ok, ImageOutcome::DecodeFailed]),
        Err(ResourceError::DecodeFailed("nx".to_string()))
    );
    assert_eq!(
        m.image_sizes(&vec![ok, ok, ok, ok, ok, ImageOutcome::DecodeFailed]),
        Err(ResourceError::DecodeFailed("nz".to_string()))
    );
}

#[test]
fn the_first_failure_decides() {
    let m = Material::cubemap(["px", "nx", "py", "ny", "pz", "nz"]);
    let ok = ImageOutcome::Loaded(Rect { width: 4, height: 4 });
    assert_eq!(
        m.image_sizes(&vec![ok, ImageOutcome::DecodeFailed, ImageOutcome::FetchFailed]),
        Err(ResourceError::DecodeFailed("nx".to_string()))
    );
    assert_eq!(
        m.image_sizes(&vec![ImageOutcome::FetchFailed, ok, ImageOutcome::DecodeFailed]),
        Err(ResourceError::AssetFetchFailed("px".to_string()))
    );
}

#[test]
fn failure_without_a_source_breaks_the_description() {
    let m = Material::new(Color::rgb(0, 0, 0));
    assert_eq!(
        m.image_sizes(&vec![ImageOutcome::FetchFailed]),
        Err(ResourceError::InvariantViolation)
    );
    let m = Material::textured("a.png", vec![]);
    let ok = ImageOutcome::Loaded(Rect { width: 4, height: 4 });
    assert_eq!(
        m.image_sizes(&vec![ok, ImageOutcome::DecodeFailed]),
        Err(ResourceError::InvariantViolation)
    );
}

#[test]
fn failed_image_leaves_other_bundles_alone() {
    let renderer = Renderer::new(1, 1);
    let g = triangle();
    let textured = Material::textured("missing.png", vec![[0, 0]; 3]);
    let plan = MeshPlan::new(&renderer, &g, &textured).unwrap();
    let failed = textured.image_sizes(&vec![ImageOutcome::FetchFailed]);
    assert!(failed.as_ref().err().unwrap().recoverable());
    assert_eq!(plan.index_count, 3);
    let flat = Material::new(Color::rgb(0, 0, 0));
    let other = MeshPlan::new(&renderer, &g, &flat).unwrap();
    let sizes = flat.image_sizes(&vec![]).unwrap();
    assert!(other.texture(&renderer, &sizes).is_ok());
}
