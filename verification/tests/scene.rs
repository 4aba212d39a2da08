use rapier3d::dynamics::{MassProperties, RigidBodyBuilder};
use rapier3d::geometry::ColliderBuilder;
use rapier3d::na::{
    Isometry3, Point3, Quaternion, Similarity3, Translation3, UnitQuaternion, Vector3,
};
use scene_engine::mesh::{MaterialType, Mesh};
use scene_engine::renderer::{uniforms, Color, RenderError, Renderer};
use scene_engine::scalar::ONE;
use scene_engine::scene::{gravity, Scene, Similarity};

fn similarity(t: Similarity) -> Similarity3<f32> {
    let [i, j, k, w] = t.rotation.map(f32::from_bits);
    let [x, y, z] = t.translation.map(f32::from_bits);
    let rotation = UnitQuaternion::new_unchecked(Quaternion::new(w, i, j, k));
    Similarity3::from_parts(Translation3::new(x, y, z), rotation, f32::from_bits(t.scale))
}

fn transforms<M>(scene: &Scene<M>) -> Vec<Similarity3<f32>> {
    scene.simiarities().into_iter().map(similarity).collect()
}

fn mesh(material_type: MaterialType, index_count: u32) -> Mesh<(), ()> {
    Mesh {
        vertext_count: 0,
        index_count,
        material_type,
        color: Color::rgb(0, 0, 0),
        vertex_buffer: (),
        index_buffer: (),
        vertex_colors: (),
        uniform_buffer: (),
        uniform_bind_group: (),
        texture_coordinates: (),
        texture_bind_group: (),
    }
}
fn compose(t: Similarity) -> [u32; 16] {
    let m = similarity(t).to_homogeneous();
    let mut words = [0u32; 16];
    for (word, x) in words.iter_mut().zip(m.iter()) {
        *word = x.to_bits();
    }
    words
}

fn close(a: f32, b: f32) -> bool {
    (a - b).abs() < 1e-5
}

#[test]
fn new_scene_is_empty() {
    let scene: Scene<u8> = Scene::new();
    assert_eq!(scene.len(), 0);
    assert!(scene.meshes().is_empty());
    assert!(scene.simiarities().is_empty());
    assert!(scene.get_body("cube").is_none());
    assert_eq!(scene.position("cube"), None);
}

#[test]
fn transforms_and_meshes_stay_aligned() {
    let mut scene: Scene<&str> = Scene::new();
    scene.add("a", "mesh a", RigidBodyBuilder::fixed().build());
    scene.add_w_scale("b", "mesh b", RigidBodyBuilder::fixed().build(), 2.0f32.to_bits());
    scene.add_w_scale_collider(
        "c",
        "mesh c",
        RigidBodyBuilder::dynamic().build(),
        ColliderBuilder::ball(1.0).build(),
        3.0f32.to_bits(),
    );
    assert_eq!(scene.len(), 3);
    assert_eq!(scene.meshes(), &vec!["mesh a", "mesh b", "mesh c"]);
    let transforms = transforms(&scene);
    assert_eq!(transforms.len(), scene.meshes().len());
    assert_eq!(transforms[0].scaling(), 1.0);
    assert_eq!(transforms[1].scaling(), 2.0);
    assert_eq!(transforms[2].scaling(), 3.0);
    scene.physics();
    assert_eq!(scene.len(), 3);
    assert_eq!(scene.simiarities().len(), 3);
    assert_eq!(scene.meshes(), &vec!["mesh a", "mesh b", "mesh c"]);
}

#[test]
fn add_uses_unit_scale() {
    let mut scene: Scene<()> = Scene::new();
    scene.add("a", (), RigidBodyBuilder::fixed().build());
    let scales: Vec<u32> = scene.simiarities().iter().map(|t| t.scale).collect();
    assert_eq!(scales, vec![ONE]);
    assert_eq!(f32::from_bits(scales[0]), 1.0);
}

#[test]
fn transform_is_pose_scaled_uniformly() {
    let rotation = Vector3::new(0.3f32, -1.1, 0.7);
    let translation = Vector3::new(1.5f32, -2.0, 0.25);
    let scale = 2.5f32;
    let mut scene: Scene<()> = Scene::new();
    scene.add_w_scale(
        "tilted",
        (),
        RigidBodyBuilder::fixed().translation(translation).rotation(rotation).build(),
        scale.to_bits(),
    );
    let transforms = transforms(&scene);
    let image = transforms[0].transform_point(&Point3::new(1.0, 0.0, 0.0));
    let r = UnitQuaternion::from_scaled_axis(rotation);
    let expected = translation + scale * (r * Vector3::new(1.0, 0.0, 0.0));
    assert!(close(image.x, expected.x));
    assert!(close(image.y, expected.y));
    assert!(close(image.z, expected.z));
    assert!(close(transforms[0].isometry.rotation.angle_to(&r), 0.0));
}

#[test]
fn spinning_body_keeps_its_place_without_gravity() {
    let mut scene: Scene<()> = Scene::new();
    let inertia = MassProperties::new(Point3::origin(), 1.0, Vector3::new(1.0, 1.0, 1.0));
    let body = RigidBodyBuilder::dynamic()
        .sleeping(false)
        .angvel(Vector3::new(0.0, 1.0, 0.0))
        .translation(Vector3::new(4.0, 4.0, 0.0))
        .additional_mass_properties(inertia)
        .build();
    scene.add("cube", (), body);
    let before: Isometry3<f32> = *scene.get_body("cube").unwrap().position();
    assert_eq!(before.rotation.angle(), 0.0);
    scene.physics();
    let after: Isometry3<f32> = *scene.get_body("cube").unwrap().position();
    assert!(close(after.translation.vector.x, 4.0));
    assert!(close(after.translation.vector.y, 4.0));
    assert!(close(after.translation.vector.z, 0.0));
    let dt = 1.0f32 / 60.0;
    let angle = after.rotation.angle();
    assert!(angle > 0.0);
    assert!((angle - dt).abs() < 1e-3);
    let axis = after.rotation.axis().unwrap();
    assert!(close(axis.x, 0.0));
    assert!((axis.y - 1.0).abs() < 1e-4);
    assert!(close(axis.z, 0.0));
    let transforms = transforms(&scene);
    assert_eq!(transforms[0].scaling(), 1.0);
    assert!(close(transforms[0].isometry.translation.vector.x, 4.0));
}

#[test]
fn body_without_inertia_stays_as_it_is() {
    let mut scene: Scene<()> = Scene::new();
    let body = RigidBodyBuilder::dynamic()
        .sleeping(false)
        .angvel(Vector3::new(0.0, 1.0, 0.0))
        .translation(Vector3::new(4.0, 4.0, 0.0))
        .build();
    scene.add("cube", (), body);
    scene.physics();
    let after: Isometry3<f32> = *scene.get_body("cube").unwrap().position();
    assert_eq!(after.translation.vector, Vector3::new(4.0, 4.0, 0.0));
    assert_eq!(after.rotation.angle(), 0.0);
}

#[test]
fn only_entities_added_with_a_collider_have_one() {
    let mut scene: Scene<&str> = Scene::new();
    scene.add("flat", "color mesh", RigidBodyBuilder::fixed().build());
    scene.add_w_scale("image", "textured mesh", RigidBodyBuilder::fixed().build(), ONE);
    scene.add_w_scale_collider(
        "ball",
        "vertex color mesh",
        RigidBodyBuilder::dynamic().build(),
        ColliderBuilder::ball(1.0).build(),
        ONE,
    );
    assert_eq!(scene.get_collider("flat"), None);
    assert_eq!(scene.get_collider("image"), None);
    assert!(scene.get_collider("ball").is_some());
    assert_eq!(scene.get_collider("nobody"), None);
    let ball = scene.get_body("ball").unwrap();
    assert_eq!(ball.colliders().len(), 1);
    assert_eq!(ball.colliders()[0].into_raw_parts(), scene.get_collider("ball").unwrap());
    assert!(scene.get_body("flat").unwrap().colliders().is_empty());
    assert!(scene.get_body("image").unwrap().colliders().is_empty());
}

#[test]
fn lookup_by_name() {
    let mut scene: Scene<()> = Scene::new();
    scene.add("a", (), RigidBodyBuilder::fixed().translation(Vector3::new(1.0, 0.0, 0.0)).build());
    scene.add("b", (), RigidBodyBuilder::fixed().translation(Vector3::new(2.0, 0.0, 0.0)).build());
    scene.add("ab", (), RigidBodyBuilder::fixed().translation(Vector3::new(3.0, 0.0, 0.0)).build());
    assert_eq!(scene.position("a"), Some(0));
    assert_eq!(scene.position("b"), Some(1));
    assert_eq!(scene.position("ab"), Some(2));
    assert_eq!(scene.position("c"), None);
    assert_eq!(scene.position(""), None);
    assert_eq!(scene.get_body("a").unwrap().translation().x, 1.0);
    assert_eq!(scene.get_body("b").unwrap().translation().x, 2.0);
    assert_eq!(scene.get_body("ab").unwrap().translation().x, 3.0);
    assert_eq!(scene.get_body_mut("ab").unwrap().translation().x, 3.0);
    assert!(scene.get_body("c").is_none());
    assert!(scene.get_body_mut("c").is_none());
}

#[test]
fn each_entity_has_a_body_of_its_own() {
    let mut scene: Scene<()> = Scene::new();
    for (i, name) in ["a", "b", "c", "d", "e"].iter().enumerate() {
        let x = i as f32;
        scene.add(name, (), RigidBodyBuilder::fixed().translation(Vector3::new(x, 0.0, 0.0)).build());
    }
    let xs: Vec<f32> =
        scene.simiarities().iter().map(|t| f32::from_bits(t.translation[0])).collect();
    assert_eq!(xs, vec![0.0, 1.0, 2.0, 3.0, 4.0]);
}

#[test]
fn body_changed_through_the_registry_is_seen_by_it() {
    let mut scene: Scene<()> = Scene::new();
    scene.add("a", (), RigidBodyBuilder::dynamic().build());
    scene.add("b", (), RigidBodyBuilder::dynamic().build());
    {
        let body = scene.get_body_mut("b").unwrap();
        body.set_translation(Vector3::new(0.0, 7.0, 0.0), true);
    }
    assert_eq!(scene.get_body("b").unwrap().translation().y, 7.0);
    assert_eq!(scene.get_body("a").unwrap().translation().y, 0.0);
    assert_eq!(scene.len(), 2);
    let ys: Vec<f32> =
        scene.simiarities().iter().map(|t| f32::from_bits(t.translation[1])).collect();
    assert_eq!(ys, vec![0.0, 7.0]);
}

#[test]
fn impulse_moves_the_body_on_the_next_step() {
    let mut scene: Scene<()> = Scene::new();
    scene.add_w_scale_collider(
        "sphere",
        (),
        RigidBodyBuilder::dynamic().sleeping(false).build(),
        ColliderBuilder::ball(1.0).build(),
        ONE,
    );
    scene.physics();
    assert!(close(scene.get_body("sphere").unwrap().translation().x, 0.0));
    let mass = scene.get_body("sphere").unwrap().mass();
    let impulse = [1.0f32, 0.0, 0.0].map(f32::to_bits);
    assert!(scene.apply_impulse("sphere", impulse, true));
    assert!(close(scene.get_body("sphere").unwrap().linvel().x, 1.0 / mass));
    assert!(!scene.apply_impulse("nobody", impulse, true));
    scene.physics();
    let body = scene.get_body("sphere").unwrap();
    assert!(body.translation().x > 0.0);
    assert!(close(body.translation().y, 0.0));
}

#[test]
fn force_acts_until_it_is_reset() {
    let mut scene: Scene<()> = Scene::new();
    scene.add_w_scale_collider(
        "sphere",
        (),
        RigidBodyBuilder::dynamic().sleeping(false).build(),
        ColliderBuilder::ball(1.0).build(),
        ONE,
    );
    scene.add("other", (), RigidBodyBuilder::dynamic().build());
    let force = [0.0f32, 0.0, 2.0].map(f32::to_bits);
    assert!(scene.apply_force("sphere", force, true));
    assert_eq!(scene.get_body("sphere").unwrap().user_force(), Vector3::new(0.0, 0.0, 2.0));
    assert_eq!(scene.get_body("other").unwrap().user_force(), Vector3::new(0.0, 0.0, 0.0));
    assert!(!scene.apply_force("nobody", force, true));
    scene.physics();
    let v1 = scene.get_body("sphere").unwrap().linvel().z;
    assert!(v1 > 0.0);
    scene.physics();
    let v2 = scene.get_body("sphere").unwrap().linvel().z;
    assert!(v2 > v1);
    assert!(scene.reset_forces("sphere", true));
    assert_eq!(scene.get_body("sphere").unwrap().user_force(), Vector3::new(0.0, 0.0, 0.0));
    assert!(!scene.reset_forces("nobody", true));
    scene.physics();
    let v3 = scene.get_body("sphere").unwrap().linvel().z;
    assert!(close(v3, v2));
    assert_eq!(scene.len(), 2);
}

#[test]
fn transform_holds_the_pose_word_for_word() {
    let mut scene: Scene<()> = Scene::new();
    let body = RigidBodyBuilder::fixed()
        .translation(Vector3::new(1.5, -2.0, 0.25))
        .rotation(Vector3::new(0.3, -1.1, 0.7))
        .build();
    let pose: Isometry3<f32> = *body.position();
    scene.add_w_scale("tilted", (), body, 2.5f32.to_bits());
    let t = scene.simiarities()[0];
    let q = pose.rotation.coords;
    assert_eq!(t.rotation, [q.x, q.y, q.z, q.w].map(f32::to_bits));
    let v = pose.translation.vector;
    assert_eq!(t.translation, [v.x, v.y, v.z].map(f32::to_bits));
    assert_eq!(t.scale, 2.5f32.to_bits());
    let stored: Isometry3<f32> = *scene.get_body("tilted").unwrap().position();
    assert_eq!(similarity(t).isometry, stored);
}

#[test]
fn collider_is_stored_with_its_parent() {
    let mut scene: Scene<()> = Scene::new();
    scene.add("bare", (), RigidBodyBuilder::dynamic().build());
    scene.add_w_scale_collider(
        "ball",
        (),
        RigidBodyBuilder::dynamic().translation(Vector3::new(0.0, 3.0, 0.0)).build(),
        ColliderBuilder::ball(0.5).density(2.0).build(),
        ONE,
    );
    let body = scene.get_body("ball").unwrap();
    assert!(body.mass() > 0.0);
    assert_eq!(scene.get_body("bare").unwrap().mass(), 0.0);
}

#[test]
fn frame_of_a_scene_has_one_draw_per_entity() {
    let mut scene: Scene<Mesh<(), ()>> = Scene::new();
    scene.add(
        "flat",
        mesh(MaterialType::Color, 36),
        RigidBodyBuilder::fixed().translation(Vector3::new(1.0, 2.0, 3.0)).build(),
    );
    scene.add_w_scale(
        "image",
        mesh(MaterialType::Textured, 12),
        RigidBodyBuilder::fixed().build(),
        2.0f32.to_bits(),
    );
    scene.add_w_scale("sky", mesh(MaterialType::CubeMap, 60), RigidBodyBuilder::fixed().build(), ONE);
    scene.physics();

    let renderer = Renderer::new(640, 480);
    assert_eq!(renderer.render_scene(&scene, compose, false).err(), Some(RenderError::SurfaceLost));
    let frame = renderer.render_scene(&scene, compose, true).unwrap();
    assert_eq!(frame.draws.len(), 3);
    let matrices: Vec<[u32; 16]> = scene.simiarities().into_iter().map(compose).collect();
    for (i, draw) in frame.draws.iter().enumerate() {
        assert_eq!(draw.mesh, i);
        assert_eq!(draw.pipeline, scene.meshes()[i].material_type);
        assert_eq!(draw.index_count, scene.meshes()[i].index_count);
        assert_eq!(draw.uniforms, uniforms(&matrices[i], &scene.meshes()[i]));
    }
    // Column-major: the translation is the fourth column, the scale the diagonal.
    let flat: Vec<f32> = frame.draws[0].uniforms.iter().map(|w| f32::from_bits(*w)).collect();
    assert_eq!(&flat[12..15], &[1.0, 2.0, 3.0]);
    let image: Vec<f32> = frame.draws[1].uniforms.iter().map(|w| f32::from_bits(*w)).collect();
    assert_eq!((image[0], image[5], image[10], image[15]), (2.0, 2.0, 2.0, 1.0));
    assert_eq!(frame.draws[2].uniforms.len(), 16);
}

#[test]
fn there_is_no_gravity() {
    assert_eq!(gravity().map(f32::from_bits), [0.0, 0.0, 0.0]);
}

#[test]
fn body_at_rest_stays_where_it_is() {
    let mut scene: Scene<()> = Scene::new();
    scene.add_w_scale_collider(
        "ball",
        (),
        RigidBodyBuilder::dynamic().sleeping(false).translation(Vector3::new(1.0, 5.0, -2.0)).build(),
        ColliderBuilder::ball(1.0).build(),
        ONE,
    );
    assert!(scene.get_body("ball").unwrap().mass() > 0.0);
    for _ in 0..60 {
        scene.physics();
    }
    let body = scene.get_body("ball").unwrap();
    assert_eq!(*body.translation(), Vector3::new(1.0, 5.0, -2.0));
    assert_eq!(*body.linvel(), Vector3::new(0.0, 0.0, 0.0));
}

#[test]
fn new_body_lists_its_collider_and_no_other() {
    let mut scene: Scene<()> = Scene::new();
    scene.add("bare", (), RigidBodyBuilder::dynamic().build());
    scene.add_w_scale_collider(
        "ball",
        (),
        RigidBodyBuilder::dynamic().build(),
        ColliderBuilder::ball(1.0).build(),
        ONE,
    );
    assert!(scene.get_body("bare").unwrap().colliders().is_empty());
    let listed: Vec<(u32, u32)> =
        scene.get_body("ball").unwrap().colliders().iter().map(|c| c.into_raw_parts()).collect();
    assert_eq!(listed, vec![scene.get_collider("ball").unwrap()]);
    scene.physics();
    assert!(scene.apply_impulse("ball", [1.0f32, 0.0, 0.0].map(f32::to_bits), true));
    scene.physics();
    let listed_after: Vec<(u32, u32)> =
        scene.get_body("ball").unwrap().colliders().iter().map(|c| c.into_raw_parts()).collect();
    assert_eq!(listed_after, listed);
    assert!(scene.get_body("bare").unwrap().colliders().is_empty());
}
