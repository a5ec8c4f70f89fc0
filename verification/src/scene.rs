//! The demo scene, assembled from verified parts: a dirt cube and a
//! grass cube cut out of a 16-texel tile atlas, a 99 x 99 ground of
//! dirt with grass on top, and a skybox blown up around the camera.
//! Every function here hands back plain mesh data; uploading it is the
//! renderer's business.

use vstd::prelude::*;
use crate::cube::{
    Cube, Faces, can_tex_offset_vertex, cube_coords_within, face_indices, face_order,
    face_vertices, tex_offset_vertices,
};
use crate::fixed::{FIX_ONE, fix_mul, mul_operand};
use crate::meshbuilder::{
    MeshBuilder, faces_indices, faces_vertices, lemma_faces_translated, shifted_indices,
};
use crate::models::{
    Model, Vertex, can_translate_vertex, scaled_vertices, translated_vertices,
};

verus! {

/// The atlas tile scale: 16 texels of a 256-texel atlas, as the
/// fixed-point fraction 16/256, for both axes.
pub open spec fn atlas_scale() -> (i64, i64) {
    (16i64, 16i64)
}

/// Where the dirt tile sits in the atlas.
pub open spec fn dirt_offset() -> (i64, i64) {
    (0i64, 256i64)
}

/// Where the grass tiles sit: one tile for the top, dirt below, and
/// the grassy-side tile around.
pub open spec fn grass_face_offset(which: Faces) -> (i64, i64) {
    match which {
        Faces::Top => (64i64, 256i64),
        Faces::Bottom => (0i64, 256i64),
        _ => (32i64, 256i64),
    }
}

/// The canonical face data in numbers: six vertices, positions within
/// half a unit of the origin, texture coordinates at the corners.
proof fn lemma_canonical_face_data(which: Faces)
    ensures
        face_vertices(which).len() == 6,
        forall|j: int|
            0 <= j < 6 ==> {
                let v = #[trigger] face_vertices(which)[j];
                &&& (v.tex_coords.0 == 0 || v.tex_coords.0 == 256)
                &&& (v.tex_coords.1 == 0 || v.tex_coords.1 == 256)
                &&& -128 <= v.position.0 <= 128
                &&& -128 <= v.position.1 <= 128
                &&& -128 <= v.position.2 <= 128
            },
{
}

/// A corner texture coordinate pair admits any atlas transform with a
/// moderate offset.
proof fn lemma_corner_tex_can_offset(v: Vertex, scale: (i64, i64), offset: (i64, i64))
    requires
        v.tex_coords.0 == 0 || v.tex_coords.0 == 256,
        v.tex_coords.1 == 0 || v.tex_coords.1 == 256,
        mul_operand(scale.0 as int),
        -1000000 <= offset.0 <= 1000000,
        -1000000 <= offset.1 <= 1000000,
    ensures
        can_tex_offset_vertex(v, scale, offset),
{
    vstd::arithmetic::div_mod::lemma_mod_multiples_basic(scale.0 as int, FIX_ONE as int);
    vstd::arithmetic::div_mod::lemma_div_multiples_vanish(scale.0 as int, FIX_ONE as int);
    assert((0int * scale.0) % (FIX_ONE as int) == 0);
    assert(fix_mul(0, scale.0 as int) == 0);
}

/// Builds one atlas-textured cube: the canonical cube with every
/// face's texture coordinates scaled to one tile and moved to the tile
/// `offset_of(kind)` picks. Shared by the dirt and grass recipes.
fn atlas_cube(top: (i64, i64), bottom: (i64, i64), side: (i64, i64)) -> (c: Cube)
    requires
        -1000000 <= top.0 <= 1000000,
        -1000000 <= top.1 <= 1000000,
        -1000000 <= bottom.0 <= 1000000,
        -1000000 <= bottom.1 <= 1000000,
        -1000000 <= side.0 <= 1000000,
        -1000000 <= side.1 <= 1000000,
    ensures
        c.faces@.len() == 6,
        forall|i: int|
            0 <= i < 6 ==> {
                let kind = face_order()[i];
                let off = if kind == Faces::Top {
                    top
                } else if kind == Faces::Bottom {
                    bottom
                } else {
                    side
                };
                &&& (#[trigger] c.faces@[i]).0 == kind
                &&& c.faces@[i].1.vertices@ == tex_offset_vertices(
                    face_vertices(kind),
                    atlas_scale(),
                    off,
                )
                &&& c.faces@[i].1.indices@ == face_indices(kind)
            },
        c.wf(),
        cube_coords_within(c, 128),
{
    let base = Cube::new();
    let mut out: Vec<(Faces, crate::cube::Face)> = Vec::new();
    let mut i: usize = 0;
    while i < 6
        invariant
            base.is_canonical(),
            base.faces@.len() == 6,
            i <= 6,
            out@.len() == i,
            -1000000 <= top.0 <= 1000000,
            -1000000 <= top.1 <= 1000000,
            -1000000 <= bottom.0 <= 1000000,
            -1000000 <= bottom.1 <= 1000000,
            -1000000 <= side.0 <= 1000000,
            -1000000 <= side.1 <= 1000000,
            forall|j: int|
                0 <= j < i ==> {
                    let kind = face_order()[j];
                    let off = if kind == Faces::Top {
                        top
                    } else if kind == Faces::Bottom {
                        bottom
                    } else {
                        side
                    };
                    &&& (#[trigger] out@[j]).0 == kind
                    &&& out@[j].1.vertices@ == tex_offset_vertices(
                        face_vertices(kind),
                        atlas_scale(),
                        off,
                    )
                    &&& out@[j].1.indices@ == face_indices(kind)
                },
        decreases 6 - i,
    {
        let kind = base.faces[i].0;
        let offset: (i64, i64) = match kind {
            Faces::Top => top,
            Faces::Bottom => bottom,
            _ => side,
        };
        let mut f = base.faces[i].1.clone();
        proof {
            lemma_canonical_face_data(kind);
            assert forall|j: int| 0 <= j < f.vertices@.len() implies can_tex_offset_vertex(
                #[trigger] f.vertices@[j],
                atlas_scale(),
                offset,
            ) by {
                assert(f.vertices@[j] == face_vertices(kind)[j]);
                lemma_corner_tex_can_offset(f.vertices@[j], atlas_scale(), offset);
            }
        }
        f.set_face_texture_offset((16, 16), offset);
        out.push((kind, f));
        i = i + 1;
    }
    let c = Cube { faces: out };
    proof {
        assert forall|i2: int| 0 <= i2 < c.faces@.len() implies (#[trigger] c.faces@[i2]).1.wf()
        by {
            let kind = face_order()[i2];
            lemma_canonical_face_data(kind);
            assert(c.faces@[i2].1.vertices@.len() == 6);
            assert(c.faces@[i2].1.indices@ == face_indices(kind));
        }
        assert forall|i2: int, j: int|
            0 <= i2 < c.faces@.len() && 0 <= j < c.faces@[i2].1.vertices@.len() implies {
            let p = (#[trigger] c.faces@[i2].1.vertices@[j]).position;
            -128 <= p.0 <= 128 && -128 <= p.1 <= 128 && -128 <= p.2 <= 128
        } by {
            let kind = face_order()[i2];
            lemma_canonical_face_data(kind);
            assert(c.faces@[i2].1.vertices@[j] == tex_offset_vertices(
                face_vertices(kind),
                atlas_scale(),
                if kind == Faces::Top {
                    top
                } else if kind == Faces::Bottom {
                    bottom
                } else {
                    side
                },
            )[j]);
        }
    }
    c
}

/// The dirt block: every face shows the dirt tile.
pub fn dirt_cube() -> (c: Cube)
    ensures
        c.faces@.len() == 6,
        forall|i: int|
            0 <= i < 6 ==> {
                let kind = face_order()[i];
                &&& (#[trigger] c.faces@[i]).0 == kind
                &&& c.faces@[i].1.vertices@ == tex_offset_vertices(
                    face_vertices(kind),
                    atlas_scale(),
                    dirt_offset(),
                )
                &&& c.faces@[i].1.indices@ == face_indices(kind)
            },
        c.wf(),
        cube_coords_within(c, 128),
{
    atlas_cube((0, 256), (0, 256), (0, 256))
}

/// The grass block: grass on top, dirt below, grassy sides.
pub fn grass_cube() -> (c: Cube)
    ensures
        c.faces@.len() == 6,
        forall|i: int|
            0 <= i < 6 ==> {
                let kind = face_order()[i];
                &&& (#[trigger] c.faces@[i]).0 == kind
                &&& c.faces@[i].1.vertices@ == tex_offset_vertices(
                    face_vertices(kind),
                    atlas_scale(),
                    grass_face_offset(kind),
                )
                &&& c.faces@[i].1.indices@ == face_indices(kind)
            },
        c.wf(),
        cube_coords_within(c, 128),
{
    atlas_cube((64, 256), (0, 256), (32, 256))
}

/// The grid coordinates of ground cell `c`, counted row by row:
/// both run from 1 to 99.
pub open spec fn ground_cell_x(c: int) -> int {
    1 + c / 99
}

/// See [`ground_cell_x`].
pub open spec fn ground_cell_y(c: int) -> int {
    1 + c % 99
}

/// Where the cube of ground cell `c` sits, `lift` above the floor:
/// whole world units, 256 fixed-point each.
pub open spec fn ground_direction(c: int, lift: i64) -> (i64, i64, i64) {
    ((256 * ground_cell_x(c)) as i64, lift, (256 * ground_cell_y(c)) as i64)
}

/// The vertices of the first `c` ground cells: per cell, the dirt cube
/// moved to the cell, then the grass cube moved one unit above it.
pub open spec fn ground_vertices(dirt: Cube, grass: Cube, c: int) -> Seq<Vertex>
    decreases c,
{
    if c <= 0 {
        Seq::empty()
    } else {
        ground_vertices(dirt, grass, c - 1) + translated_vertices(
            faces_vertices(dirt.faces@),
            ground_direction(c - 1, 0),
        ) + translated_vertices(faces_vertices(grass.faces@), ground_direction(c - 1, 256))
    }
}

/// The indices of the first `c` ground cells, each cell's shifted past
/// everything before it.
pub open spec fn ground_indices(dirt: Cube, grass: Cube, c: int) -> Seq<u32>
    decreases c,
{
    if c <= 0 {
        Seq::empty()
    } else {
        let l = faces_vertices(dirt.faces@).len() + faces_vertices(grass.faces@).len();
        let base = (c - 1) * l;
        ground_indices(dirt, grass, c - 1) + faces_indices(dirt.faces@, base) + faces_indices(
            grass.faces@,
            base + faces_vertices(dirt.faces@).len(),
        )
    }
}

/// The first `c` ground cells hold `c` times one cell's vertices.
proof fn lemma_ground_vertices_len(dirt: Cube, grass: Cube, c: int)
    requires
        c >= 0,
    ensures
        ground_vertices(dirt, grass, c).len() == c * (faces_vertices(dirt.faces@).len()
            + faces_vertices(grass.faces@).len()),
    decreases c,
{
    let l = faces_vertices(dirt.faces@).len() + faces_vertices(grass.faces@).len();
    if c > 0 {
        lemma_ground_vertices_len(dirt, grass, c - 1);
        assert((c - 1) * l + l == c * l) by (nonlinear_arith);
    } else {
        assert(0 * l == 0) by (nonlinear_arith);
    }
}

/// Builds the ground: a 99 x 99 field, each cell a dirt cube with a
/// grass cube on top, batched into one builder in row order.
pub fn ground_mesh(dirt: &Cube, grass: &Cube) -> (m: MeshBuilder)
    requires
        dirt.wf(),
        grass.wf(),
        cube_coords_within(*dirt, 0x1000_0000),
        cube_coords_within(*grass, 0x1000_0000),
        faces_vertices(dirt.faces@).len() <= 100000,
        faces_vertices(grass.faces@).len() <= 100000,
    ensures
        m.wf(),
        m.mesh.vertices is None,
        m.mesh.indices is None,
        m.mesh.shader is None,
        m.mesh.texture is None,
        m.vertices@ == ground_vertices(*dirt, *grass, 9801),
        m.indices@ == ground_indices(*dirt, *grass, 9801),
{
    let ghost ld = faces_vertices(dirt.faces@).len() as int;
    let ghost lg = faces_vertices(grass.faces@).len() as int;
    let ghost l = ld + lg;
    let mut m = MeshBuilder::new();
    let ghost mut c: int = 0;
    let mut x: i64 = 1;
    while x < 100
        invariant
            dirt.wf(),
            grass.wf(),
            cube_coords_within(*dirt, 0x1000_0000),
            cube_coords_within(*grass, 0x1000_0000),
            ld == faces_vertices(dirt.faces@).len(),
            lg == faces_vertices(grass.faces@).len(),
            l == ld + lg,
            0 <= ld <= 100000,
            0 <= lg <= 100000,
            1 <= x <= 100,
            c == (x - 1) * 99,
            m.wf(),
            m.mesh.vertices is None,
            m.mesh.indices is None,
            m.mesh.shader is None,
            m.mesh.texture is None,
            m.vertices@ == ground_vertices(*dirt, *grass, c),
            m.indices@ == ground_indices(*dirt, *grass, c),
            m.vertices@.len() == c * l,
        decreases 100 - x,
    {
        let mut y: i64 = 1;
        while y < 100
            invariant
                dirt.wf(),
                grass.wf(),
                cube_coords_within(*dirt, 0x1000_0000),
                cube_coords_within(*grass, 0x1000_0000),
                ld == faces_vertices(dirt.faces@).len(),
                lg == faces_vertices(grass.faces@).len(),
                l == ld + lg,
                0 <= ld <= 100000,
                0 <= lg <= 100000,
                1 <= x < 100,
                1 <= y <= 100,
                c == (x - 1) * 99 + (y - 1),
                m.wf(),
                m.mesh.vertices is None,
                m.mesh.indices is None,
                m.mesh.shader is None,
                m.mesh.texture is None,
                m.vertices@ == ground_vertices(*dirt, *grass, c),
                m.indices@ == ground_indices(*dirt, *grass, c),
                m.vertices@.len() == c * l,
            decreases 100 - y,
        {
            proof {
                assert(0 <= c <= 9800);
                assert(c * l <= 9800 * 200000) by (nonlinear_arith)
                    requires
                        0 <= c <= 9800,
                        0 <= l <= 200000,
                ;
            }
            let d_dirt: (i64, i64, i64) = (256 * x, 0, 256 * y);
            let d_grass: (i64, i64, i64) = (256 * x, 256, 256 * y);
            let ghost base = m.vertices@.len() as int;

            let mut dc = dirt.clone();
            proof {
                assert forall|fi: int| 0 <= fi < dc.faces@.len() implies (#[trigger] dc.faces@[fi]).1.can_translate(d_dirt) by {
                    assert(dc.faces@[fi].1.vertices@ == dirt.faces@[fi].1.vertices@);
                    assert forall|j: int|
                        0 <= j < dc.faces@[fi].1.vertices@.len() implies can_translate_vertex(
                        #[trigger] dc.faces@[fi].1.vertices@[j],
                        d_dirt,
                    ) by {
                        assert(dc.faces@[fi].1.vertices@[j] == dirt.faces@[fi].1.vertices@[j]);
                    }
                }
            }
            dc.translate_local(d_dirt);
            proof {
                lemma_faces_translated(dirt.faces@, dc.faces@, d_dirt);
                assert forall|fi: int| 0 <= fi < dc.faces@.len() implies (#[trigger] dc.faces@[fi]).1.wf() by {
                    assert(dc.faces@[fi].1.indices@ == dirt.faces@[fi].1.indices@);
                    assert(dc.faces@[fi].1.vertices@.len() == dirt.faces@[fi].1.vertices@.len());
                }
            }
            m.add_cube(dc);

            let mut gc = grass.clone();
            proof {
                assert forall|fi: int| 0 <= fi < gc.faces@.len() implies (#[trigger] gc.faces@[fi]).1.can_translate(d_grass) by {
                    assert(gc.faces@[fi].1.vertices@ == grass.faces@[fi].1.vertices@);
                    assert forall|j: int|
                        0 <= j < gc.faces@[fi].1.vertices@.len() implies can_translate_vertex(
                        #[trigger] gc.faces@[fi].1.vertices@[j],
                        d_grass,
                    ) by {
                        assert(gc.faces@[fi].1.vertices@[j] == grass.faces@[fi].1.vertices@[j]);
                    }
                }
            }
            gc.translate_local(d_grass);
            proof {
                lemma_faces_translated(grass.faces@, gc.faces@, d_grass);
                assert forall|fi: int| 0 <= fi < gc.faces@.len() implies (#[trigger] gc.faces@[fi]).1.wf() by {
                    assert(gc.faces@[fi].1.indices@ == grass.faces@[fi].1.indices@);
                    assert(gc.faces@[fi].1.vertices@.len() == grass.faces@[fi].1.vertices@.len());
                }
            }
            m.add_cube(gc);

            proof {
                vstd::arithmetic::div_mod::lemma_fundamental_div_mod_converse(
                    c,
                    99,
                    x - 1,
                    y - 1,
                );
                assert(ground_cell_x(c) == x);
                assert(ground_cell_y(c) == y);
                assert(ground_direction(c, 0) == d_dirt);
                assert(ground_direction(c, 256) == d_grass);
                assert(m.vertices@ == ground_vertices(*dirt, *grass, c + 1));
                assert(base == c * l);
                assert(m.indices@ == ground_indices(*dirt, *grass, c + 1));
                assert((c + 1) * l == c * l + l) by (nonlinear_arith);
                c = c + 1;
            }
            y = y + 1;
        }
        x = x + 1;
    }
    m
}

/// The fixed-point skybox blow-up factor: a thousandfold.
pub const SKYBOX_SCALE: i64 = 256000;

/// Builds the skybox mesh: the model scaled a thousandfold and centred
/// on the camera, alone in its builder.
pub fn skybox_mesh(model: Model, position: (i64, i64, i64)) -> (m: MeshBuilder)
    requires
        model.wf(),
        model.can_scale(SKYBOX_SCALE),
        forall|i: int|
            0 <= i < model.vertices@.len() ==> can_translate_vertex(
                #[trigger] scaled_vertices(model.vertices@, SKYBOX_SCALE)[i],
                position,
            ),
        model.vertices@.len() <= u32::MAX,
    ensures
        m.wf(),
        m.mesh.vertices is None,
        m.mesh.indices is None,
        m.mesh.shader is None,
        m.mesh.texture is None,
        m.vertices@ == translated_vertices(
            scaled_vertices(model.vertices@, SKYBOX_SCALE),
            position,
        ),
        m.indices@ == model.indices@,
{
    let mut m = MeshBuilder::new();
    let mut model = model;
    let ghost original = model;
    model.scale_local(SKYBOX_SCALE);
    proof {
        assert(model.can_translate(position));
    }
    model.translate_local(position);
    proof {
        assert(model.wf()) by {
            assert(model.indices@ == original.indices@);
            assert(model.vertices@.len() == original.vertices@.len());
        }
    }
    m.add_model(model);
    proof {
        assert(m.indices@ =~= original.indices@) by {
            assert(m.indices@ == shifted_indices(original.indices@, 0));
        }
    }
    m
}

} // verus!
