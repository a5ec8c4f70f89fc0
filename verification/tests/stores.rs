use voxelgfx::blockbuilder::{Block, BlockBuilder};
use voxelgfx::cube::Cube;
use voxelgfx::models::{Model, Models, Vertex};
use voxelgfx::shaders::Shaders;
use voxelgfx::store::Store;
use voxelgfx::textures::Textures;

#[test]
fn shaders_load_then_get() {
    let mut shaders = Shaders::new();
    let r = shaders.load_shader("basic", "vertex src", "fragment src");
    assert_eq!(r, Ok(true));
    let program = shaders.get_shader_program("basic").unwrap();
    assert_eq!(program.vertex, "vertex src");
    assert_eq!(program.fragment, "fragment src");
}

#[test]
fn shaders_get_missing_fails() {
    let mut shaders = Shaders::new();
    shaders.load_shader("basic", "v", "f").unwrap();
    let err = shaders.get_shader_program("cloud").unwrap_err();
    assert_eq!(err, "Shader not found");
}

#[test]
fn shaders_load_replaces_previous_source() {
    let mut shaders = Shaders::new();
    shaders.load_shader("sky", "v1", "f1").unwrap();
    shaders.load_shader("sky", "v2", "f2").unwrap();
    let program = shaders.get_shader_program("sky").unwrap();
    assert_eq!(program.vertex, "v2");
    assert_eq!(program.fragment, "f2");
}

#[test]
fn models_load_then_get() {
    let mut models = Models::new();
    let skybox = Model {
        vertices: vec![Vertex {
            position: (0, 256, 0),
            normal: (0, 256, 0),
            tex_coords: (0, 0),
        }],
        indices: vec![0],
    };
    assert_eq!(models.load_model("skybox", skybox), Ok(true));
    let copy = models.get_model("skybox").unwrap();
    assert_eq!(copy.vertices.len(), 1);
    assert_eq!(copy.vertices[0].position, (0, 256, 0));
    assert_eq!(copy.indices, vec![0]);
}

#[test]
fn models_get_missing_fails() {
    let mut models = Models::new();
    let err = models.get_model("skybox").unwrap_err();
    assert_eq!(err, "Model not found");
}

#[test]
fn textures_get_missing_fails() {
    let mut textures = Textures::new();
    let err = textures.get_texture("sky").unwrap_err();
    assert_eq!(err, "Texture not found");
}

#[test]
fn store_insert_and_get() {
    let mut store: Store<u32> = Store::new();
    assert!(store.get("a").is_none());
    store.insert("a".to_string(), 1);
    store.insert("b".to_string(), 2);
    assert_eq!(store.get("a"), Some(&1));
    assert_eq!(store.get("b"), Some(&2));
    assert!(store.contains("a"));
    assert!(!store.contains("c"));
    store.insert("a".to_string(), 3);
    assert_eq!(store.get("a"), Some(&3));
}

#[test]
fn block_builder_builds_into_store() {
    let mut blocks: Store<Block> = Store::new();
    BlockBuilder::new()
        .set_name("dirt")
        .set_transparent(false)
        .add_cube(Cube::new())
        .add_cube(Cube::new())
        .build(&mut blocks);
    let block = blocks.get("dirt").unwrap();
    assert_eq!(block.cubes.len(), 2);
    assert_eq!(block.cubes[0].faces.len(), 6);
    assert!(blocks.get("none").is_none());
}

#[test]
fn block_builder_default_name_is_none() {
    let mut blocks: Store<Block> = Store::new();
    BlockBuilder::new().add_cube(Cube::new()).build(&mut blocks);
    assert!(blocks.get("none").is_some());
}
