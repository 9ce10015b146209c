//! Mesh generation scenarios, index safety, extents and the normal
//! solver.

use basil::branch::Branch;
use basil::distribution::Distribution;
use basil::dna::PlantDna;
use basil::fixed::{isqrt, FX_ONE};
use basil::leaf::Leaf;
use basil::mesh::{Mesh, SharedMesh, Vertex};
use basil::texture::{Pixel, SharedTexture, Texture};
use basil::vec3::Vec3;
use rand::rngs::StdRng;
use rand::SeedableRng;

fn frame() -> (Vec3, Vec3, Vec3) {
    (
        Vec3 { x: 0, y: 0, z: 0 },
        Vec3 { x: 0, y: FX_ONE, z: 0 },
        Vec3 { x: 0, y: 0, z: FX_ONE },
    )
}

fn assert_mesh_wf(mesh: &Mesh) {
    assert_eq!(mesh.indices.len() % 3, 0);
    for &ix in &mesh.indices {
        assert!((ix as usize) < mesh.vertices.len(), "index {ix} out of range");
    }
}

#[test]
fn leaf_ribbon_counts_and_symmetry() {
    // A unit leaf with no droop: 12 vertices, 30 indices; each
    // cross-section pair is mirrored about the spine; the first pair
    // sits on the spine (half-width sin(0) = 0) and the last lands
    // exactly at (0, length, 0) since sin(pi) is exact.
    let leaf = Leaf { length: FX_ONE, width: FX_ONE, bend: 0, bend_profile: FX_ONE };
    let (start, dir, up) = frame();
    let mut mesh = Mesh::new();
    leaf.generate(&mut mesh, start, dir, up);
    assert_eq!(mesh.vertices.len(), 12);
    assert_eq!(mesh.indices.len(), 30);
    assert_mesh_wf(&mesh);
    for i in 0..6 {
        let a = mesh.vertices[2 * i].position;
        let b = mesh.vertices[2 * i + 1].position;
        assert_eq!(a.x, -b.x, "cross-section {i} not mirrored");
        assert_eq!(a.y, b.y);
        assert_eq!(a.z, 0);
        assert_eq!(b.z, 0);
    }
    let first = mesh.vertices[0].position;
    assert_eq!((first.x, first.y, first.z), (0, 0, 0));
    let last = mesh.vertices[11].position;
    assert_eq!((last.x, last.y, last.z), (0, FX_ONE, 0));
    // The widest sampled cross-section reaches about
    // sin(0.4 * pi) / 4 of the width.
    let widest = mesh.vertices.iter().map(|v| v.position.x.abs()).max().unwrap();
    let expected = (0.4f64 * std::f64::consts::PI).sin() / 4.0 * 65536.0;
    assert!((widest as f64 - expected).abs() < 64.0, "widest {widest} vs {expected}");
}

#[test]
fn leaf_droop_lowers_tip() {
    let flat = Leaf { length: FX_ONE, width: FX_ONE, bend: 0, bend_profile: FX_ONE };
    let drooped = Leaf { length: FX_ONE, width: FX_ONE, bend: 32768, bend_profile: FX_ONE };
    let (start, dir, up) = frame();
    let mut m1 = Mesh::new();
    flat.generate(&mut m1, start, dir, up);
    let mut m2 = Mesh::new();
    drooped.generate(&mut m2, start, dir, up);
    // The droop axis here is the world z: drooped vertices move off
    // the ribbon plane, farther toward the tip.
    assert_eq!(m2.vertices[0].position.z, 0);
    assert!(m2.vertices[11].position.z != 0);
    assert_eq!(m1.vertices[11].position.y, m2.vertices[11].position.y);
}

#[test]
fn branch_tube_counts_with_full_taper() {
    // radius 1, taper 0 tapers the tube to a point: the counts stay
    // 6 rings x 5 vertices and 5 ring pairs x 30 indices.
    let branch = Branch {
        length: FX_ONE,
        radius: FX_ONE,
        bend: 0,
        taper: 0,
        end: Box::new(PlantDna::Empty),
    };
    let (start, dir, up) = frame();
    let mut mesh = Mesh::new();
    branch.generate(&mut mesh, start, dir, up);
    assert_eq!(mesh.vertices.len(), 30);
    assert_eq!(mesh.indices.len(), 150);
    assert_mesh_wf(&mesh);
    // With taper 0 the last ring collapses onto the tube axis.
    for j in 0..5 {
        let p = mesh.vertices[25 + j].position;
        assert_eq!((p.x, p.z), (0, 0));
    }
}

#[test]
fn branch_cylinder_keeps_ring_radius() {
    // taper 1 keeps every ring at the full radius: a cylinder.
    let branch = Branch {
        length: FX_ONE,
        radius: FX_ONE,
        bend: 0,
        taper: FX_ONE,
        end: Box::new(PlantDna::Empty),
    };
    let (start, dir, up) = frame();
    let mut mesh = Mesh::new();
    branch.generate(&mut mesh, start, dir, up);
    assert_eq!(mesh.vertices.len(), 30);
    assert_eq!(mesh.indices.len(), 150);
    for (i, v) in mesh.vertices.iter().enumerate() {
        let p = v.position;
        let radial = isqrt((p.x * p.x) as u64 + (p.z * p.z) as u64) as i64;
        assert!(
            (radial - FX_ONE).abs() <= 256,
            "vertex {i} radial distance {radial}"
        );
    }
    // An unbent branch grows straight up; ring heights never decrease.
    for i in 1..6 {
        assert!(mesh.vertices[5 * i].position.y >= mesh.vertices[5 * (i - 1)].position.y);
    }
}

#[test]
fn distribution_scatter_is_reproducible() {
    // amount 2.0: round(4) = 4 leaf instances, and re-rendering with
    // the same gene reproduces the mesh bit for bit, regardless of
    // unrelated draws in between.
    let dist = Distribution {
        seed: 42,
        amount: 2 * FX_ONE,
        min_angle: -20000,
        max_angle: 30000,
        value: Box::new(PlantDna::Leaf(Leaf {
            length: FX_ONE,
            width: FX_ONE,
            bend: 0,
            bend_profile: FX_ONE,
        })),
    };
    let (start, dir, up) = frame();
    let mut m1 = Mesh::new();
    dist.generate(&mut m1, start, dir, up);
    assert_eq!(m1.vertices.len(), 4 * 12);
    assert_eq!(m1.indices.len(), 4 * 30);
    assert_mesh_wf(&m1);
    let mut m2 = Mesh::new();
    dist.generate(&mut m2, start, dir, up);
    assert_eq!(m1.vertices, m2.vertices);
    assert_eq!(m1.indices, m2.indices);
    // A different seed scatters differently.
    let other = Distribution { seed: 43, value: Box::new((*dist.value).clone()), ..dist };
    let mut m3 = Mesh::new();
    other.generate(&mut m3, start, dir, up);
    assert_ne!(m1.vertices, m3.vertices);
}

#[test]
fn distribution_equal_cone_bounds() {
    // With min == max the elevation is fixed rather than drawn, and
    // the scatter still reproduces exactly.
    let dist = Distribution {
        seed: 9,
        amount: FX_ONE,
        min_angle: 10000,
        max_angle: 10000,
        value: Box::new(PlantDna::Leaf(Leaf {
            length: FX_ONE,
            width: FX_ONE,
            bend: 0,
            bend_profile: FX_ONE,
        })),
    };
    let (start, dir, up) = frame();
    let mut m1 = Mesh::new();
    dist.generate(&mut m1, start, dir, up);
    assert_eq!(m1.vertices.len(), 12);
    let mut m2 = Mesh::new();
    dist.generate(&mut m2, start, dir, up);
    assert_eq!(m1.vertices, m2.vertices);
    assert_mesh_wf(&m1);
}

#[test]
fn distribution_zero_amount_contributes_nothing() {
    let dist = Distribution {
        seed: 1,
        amount: 0,
        min_angle: 0,
        max_angle: 0,
        value: Box::new(PlantDna::Leaf(Leaf {
            length: FX_ONE,
            width: FX_ONE,
            bend: 0,
            bend_profile: FX_ONE,
        })),
    };
    let (start, dir, up) = frame();
    let mut mesh = Mesh::new();
    dist.generate(&mut mesh, start, dir, up);
    assert_eq!(mesh.vertices.len(), 0);
    assert_eq!(mesh.indices.len(), 0);
}

#[test]
fn whole_tree_generation_is_index_safe() {
    // For random trees, every emitted index stays below the vertex
    // count and the index list is whole triangles.
    for seed in 0..24u64 {
        let mut rng = StdRng::seed_from_u64(seed);
        let dna = PlantDna::new(&mut rng, 6);
        let (start, dir, up) = frame();
        let mut mesh = Mesh::new();
        dna.generate_mesh(&mut mesh, start, dir, up);
        assert_mesh_wf(&mesh);
    }
}

#[test]
fn width_and_height_queries() {
    let mut mesh = Mesh::new();
    assert_eq!(mesh.width(), 32768);
    assert_eq!(mesh.height(), 32768);
    let mut v = Vertex::at(Vec3 { x: 3 * FX_ONE, y: 2 * FX_ONE, z: 0 });
    mesh.push_vert(v);
    v = Vertex::at(Vec3 { x: 0, y: -FX_ONE, z: 4 * FX_ONE });
    mesh.push_vert(v);
    assert_eq!(mesh.width(), 4 * FX_ONE);
    assert_eq!(mesh.height(), 2 * FX_ONE);
}

#[test]
fn solver_accumulates_and_normalizes() {
    // One right triangle in the xz plane: all three vertices get the
    // same unit normal along y (up to fixed-point rounding).
    let mut mesh = Mesh::new();
    mesh.push_vert(Vertex::at(Vec3 { x: 0, y: 0, z: 0 }));
    mesh.push_vert(Vertex::at(Vec3 { x: 0, y: 0, z: FX_ONE }));
    mesh.push_vert(Vertex::at(Vec3 { x: FX_ONE, y: 0, z: 0 }));
    mesh.push_tri(0, 1, 2);
    mesh.calculate_normals();
    for v in &mesh.vertices {
        let n = v.normal;
        assert_eq!((n.x, n.z), (0, 0));
        assert_eq!(n.y.abs(), FX_ONE);
    }
}

#[test]
fn solver_runs_twice_identically() {
    // The solver reads only positions and indices, so a second run
    // reproduces its own output exactly.
    let mut rng = StdRng::seed_from_u64(11);
    let dna = PlantDna::new(&mut rng, 6);
    let (start, dir, up) = frame();
    let mut mesh = Mesh::new();
    dna.generate_mesh(&mut mesh, start, dir, up);
    mesh.calculate_normals();
    let once_verts = mesh.vertices.clone();
    mesh.calculate_normals();
    assert_eq!(mesh.vertices, once_verts);
    assert_mesh_wf(&mesh);
}

#[test]
fn solver_skips_degenerate_star() {
    // A degenerate triangle (all corners at one point) accumulates a
    // zero normal, which normalizes to the zero vector.
    let mut mesh = Mesh::new();
    let p = Vec3 { x: 5, y: 6, z: 7 };
    mesh.push_vert(Vertex::at(p));
    mesh.push_vert(Vertex::at(p));
    mesh.push_vert(Vertex::at(p));
    mesh.push_tri(0, 1, 2);
    mesh.calculate_normals();
    for v in &mesh.vertices {
        assert_eq!((v.normal.x, v.normal.y, v.normal.z), (0, 0, 0));
    }
}

#[test]
fn vertex_accessors_round_trip() {
    let mut v = Vertex::at(Vec3 { x: 1, y: 2, z: 3 });
    assert_eq!(v.get_position(), Vec3 { x: 1, y: 2, z: 3 });
    v.set_position(Vec3 { x: 9, y: 8, z: 7 });
    assert_eq!(v.get_position(), Vec3 { x: 9, y: 8, z: 7 });
    v.set_normal(Vec3 { x: 0, y: FX_ONE, z: 0 });
    assert_eq!(v.get_normal(), Vec3 { x: 0, y: FX_ONE, z: 0 });
    let uv = v.get_uv();
    assert_eq!((uv.u, uv.v), (0, 0));
}

#[test]
fn shared_mesh_and_texture_wrap() {
    let mut mesh = Mesh::new();
    mesh.push_vert(Vertex::at(Vec3 { x: 0, y: 0, z: 0 }));
    let shared = SharedMesh::new(mesh);
    assert_eq!(shared.mesh.vertices.len(), 1);
    let texture = Texture::white();
    assert_eq!(texture.pixels.len(), 1);
    assert_eq!(texture.pixels[0], Pixel::rgb(255, 255, 255));
    assert_eq!((texture.width, texture.height), (1, 1));
    let shared_tex = SharedTexture::new(texture);
    assert_eq!(shared_tex.texture.pixels[0], Pixel::rgba(255, 255, 255, 255));
    let cloned = shared_tex.clone();
    assert_eq!(cloned.texture.width, 1);
}
