use voxelgfx::cube::{Cube, Faces};
use voxelgfx::fixed::{mul_fix, FIX_ONE};
use voxelgfx::models::{Model, Vertex};

#[test]
fn fix_one_is_256() {
    assert_eq!(FIX_ONE, 256);
}

#[test]
fn mul_fix_exact_values() {
    assert_eq!(mul_fix(256, 256), 256);
    assert_eq!(mul_fix(128, 512), 256);
    assert_eq!(mul_fix(-128, 512), -256);
    assert_eq!(mul_fix(0, 123 * 256), 0);
    assert_eq!(mul_fix(256, -256), -256);
}

#[test]
fn cube_new_has_six_faces_in_order() {
    let c = Cube::new();
    assert_eq!(c.faces.len(), 6);
    let kinds: Vec<Faces> = c.faces.iter().map(|(k, _)| *k).collect();
    assert_eq!(
        kinds,
        vec![
            Faces::Front,
            Faces::Back,
            Faces::Right,
            Faces::Left,
            Faces::Top,
            Faces::Bottom
        ]
    );
}

#[test]
fn cube_new_front_face_data() {
    let c = Cube::new();
    let front = &c.faces[0].1;
    assert_eq!(front.vertices.len(), 6);
    assert_eq!(front.vertices[0].position, (-128, -128, -128));
    assert_eq!(front.vertices[0].normal, (0, 0, -256));
    assert_eq!(front.vertices[0].tex_coords, (256, 256));
    assert_eq!(front.vertices[2].position, (128, 128, -128));
    assert_eq!(front.indices, vec![2, 1, 0, 0, 4, 2]);
}

#[test]
fn cube_new_top_face_data() {
    let c = Cube::new();
    let top = &c.faces[4].1;
    assert_eq!(c.faces[4].0, Faces::Top);
    assert_eq!(top.vertices[1].position, (128, 128, 128));
    assert_eq!(top.vertices[1].normal, (0, 256, 0));
    assert_eq!(top.indices, vec![0, 1, 2, 2, 4, 0]);
}

#[test]
fn cube_translate_local_moves_every_vertex() {
    let mut c = Cube::new();
    c.translate_local((256, 512, -256));
    for (_, face) in &c.faces {
        for v in &face.vertices {
            assert!(v.position.0 == 128 || v.position.0 == 384);
            assert!(v.position.1 == 384 || v.position.1 == 640);
            assert!(v.position.2 == -384 || v.position.2 == -128);
        }
    }
    assert_eq!(c.faces[0].1.vertices[0].position, (128, 384, -384));
    assert_eq!(c.faces[0].1.indices, vec![2, 1, 0, 0, 4, 2]);
}

#[test]
fn cube_scale_local_scales_positions_only() {
    let mut c = Cube::new();
    c.scale_local(2 * 256);
    assert_eq!(c.faces[0].1.vertices[0].position, (-256, -256, -256));
    assert_eq!(c.faces[0].1.vertices[0].normal, (0, 0, -256));
    assert_eq!(c.faces[0].1.vertices[0].tex_coords, (256, 256));
}

#[test]
fn face_texture_offset_uses_first_scale_component() {
    let mut c = Cube::new();
    let face = &mut c.faces[0].1;
    face.set_face_texture_offset((16, 16), (0, 256));
    // (256, 256) -> (256 * 16/256 + 0, 256 * 16/256 + 256) = (16, 272)
    assert_eq!(face.vertices[0].tex_coords, (16, 272));
    // (0, 256) -> (0, 272)
    assert_eq!(face.vertices[1].tex_coords, (0, 272));
    // positions untouched
    assert_eq!(face.vertices[0].position, (-128, -128, -128));
}

#[test]
fn vertex_translated_and_scaled() {
    let v = Vertex {
        position: (256, -512, 0),
        normal: (0, 256, 0),
        tex_coords: (0, 256),
    };
    let t = v.translated((-256, 512, 128));
    assert_eq!(t.position, (0, 0, 128));
    assert_eq!(t.normal, (0, 256, 0));
    let s = v.scaled(128);
    assert_eq!(s.position, (128, -256, 0));
    assert_eq!(s.tex_coords, (0, 256));
}

#[test]
fn model_translate_and_scale() {
    let mut m = Model {
        vertices: vec![
            Vertex {
                position: (0, 0, 0),
                normal: (0, 256, 0),
                tex_coords: (0, 0),
            },
            Vertex {
                position: (256, 256, 256),
                normal: (0, 256, 0),
                tex_coords: (256, 256),
            },
        ],
        indices: vec![0, 1],
    };
    m.scale_local(1000 * 256);
    assert_eq!(m.vertices[1].position, (256000, 256000, 256000));
    m.translate_local((256, 0, -256));
    assert_eq!(m.vertices[0].position, (256, 0, -256));
    assert_eq!(m.vertices[1].position, (256256, 256000, 255744));
    assert_eq!(m.indices, vec![0, 1]);
}
