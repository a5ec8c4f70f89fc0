use voxelgfx::cube::Cube;
use voxelgfx::meshbuilder::MeshBuilder;
use voxelgfx::models::{Model, Vertex};
use voxelgfx::scene::{dirt_cube, grass_cube, ground_mesh, skybox_mesh};

fn v(x: i64, y: i64, z: i64) -> Vertex {
    Vertex {
        position: (x, y, z),
        normal: (0, 256, 0),
        tex_coords: (0, 0),
    }
}

#[test]
fn add_model_offsets_indices_by_vertex_count() {
    let mut b = MeshBuilder::new();
    let first = Model {
        vertices: vec![v(0, 0, 0), v(256, 0, 0), v(0, 256, 0)],
        indices: vec![0, 1, 2],
    };
    let second = Model {
        vertices: vec![v(0, 0, 256), v(256, 0, 256)],
        indices: vec![1, 0],
    };
    b.add_model(first);
    b.add_model(second);
    assert_eq!(b.vertices.len(), 5);
    assert_eq!(b.indices, vec![0, 1, 2, 4, 3]);
}

#[test]
fn add_cube_offsets_each_face_and_batch() {
    let mut b = MeshBuilder::new();
    b.add_cube(Cube::new());
    assert_eq!(b.vertices.len(), 36);
    assert_eq!(b.indices.len(), 36);
    // first face starts at 0: [2,1,0,0,4,2]
    assert_eq!(&b.indices[0..6], &[2, 1, 0, 0, 4, 2]);
    // second face starts after 6 vertices: [0,1,2,2,4,0] + 6
    assert_eq!(&b.indices[6..12], &[6, 7, 8, 8, 10, 6]);
    // a second cube starts after 36 vertices
    b.add_cube(Cube::new());
    assert_eq!(b.vertices.len(), 72);
    assert_eq!(&b.indices[36..42], &[38, 37, 36, 36, 40, 38]);
}

#[test]
fn every_index_points_into_the_vertex_array() {
    let mut b = MeshBuilder::new();
    b.add_cube(Cube::new());
    b.add_model(Model {
        vertices: vec![v(0, 0, 0), v(256, 0, 0)],
        indices: vec![0, 1, 1],
    });
    for &i in &b.indices {
        assert!((i as usize) < b.vertices.len());
    }
}

#[test]
fn add_vertex_and_add_index_are_dropped() {
    let mut b = MeshBuilder::new();
    b.add_vertex(v(0, 0, 0));
    b.add_index(7);
    assert_eq!(b.vertices.len(), 0);
    assert_eq!(b.indices.len(), 0);
}

#[test]
fn build_moves_buffers_into_the_mesh() {
    let mut b = MeshBuilder::new();
    b.add_cube(Cube::new());
    let mesh = b.build();
    assert_eq!(mesh.vertices.as_ref().unwrap().len(), 36);
    assert_eq!(mesh.indices.as_ref().unwrap().len(), 36);
    assert!(mesh.shader.is_none());
    assert!(mesh.texture.is_none());
}

#[test]
fn skybox_mesh_scales_then_centres() {
    let model = Model {
        vertices: vec![v(256, 0, -256), v(0, 256, 0)],
        indices: vec![0, 1],
    };
    let b = skybox_mesh(model, (512, 1024, 0));
    // 256 * 1000 + 512, 0 + 1024, -256000 + 0
    assert_eq!(b.vertices[0].position, (256512, 1024, -256000));
    assert_eq!(b.vertices[1].position, (512, 257024, 0));
    assert_eq!(b.indices, vec![0, 1]);
}

#[test]
fn dirt_and_grass_cubes_pick_atlas_tiles() {
    let dirt = dirt_cube();
    // front face corner (256, 256) -> (16, 272)
    assert_eq!(dirt.faces[0].1.vertices[0].tex_coords, (16, 272));
    let grass = grass_cube();
    // top face is index 4; its first vertex has tex (0, 0) -> (64, 256)
    assert_eq!(grass.faces[4].1.vertices[0].tex_coords, (64, 256));
    // bottom face is index 5; first vertex tex (0, 0) -> (0, 256)
    assert_eq!(grass.faces[5].1.vertices[0].tex_coords, (0, 256));
    // a side face: front, first vertex tex (256, 256) -> (48, 272)
    assert_eq!(grass.faces[0].1.vertices[0].tex_coords, (48, 272));
}

#[test]
fn ground_mesh_fills_the_whole_field() {
    let dirt = dirt_cube();
    let grass = grass_cube();
    let b = ground_mesh(&dirt, &grass);
    // 99 * 99 cells, each a dirt cube and a grass cube of 36 vertices
    assert_eq!(b.vertices.len(), 9801 * 72);
    assert_eq!(b.indices.len(), 9801 * 72);
    // first cell: dirt moved to (1, 0, 1) in world units
    assert_eq!(b.vertices[0].position, (-128 + 256, -128, -128 + 256));
    // its grass cube sits one unit up, right after the dirt cube
    assert_eq!(b.vertices[36].position, (-128 + 256, -128 + 256, -128 + 256));
    // second cell continues at y = 2
    assert_eq!(b.vertices[72].position, (-128 + 256, -128, -128 + 512));
    // indices of the second cell start past the first cell's vertices
    assert_eq!(&b.indices[72..78], &[74, 73, 72, 72, 76, 74]);
    for &i in &b.indices {
        assert!((i as usize) < b.vertices.len());
    }
}
