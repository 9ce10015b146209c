//! Append-only triangle mesh buffer with derived extent queries and a
//! vertex-normal solver.
//!
//! Coordinates are fixed-point integers, so the extent queries take
//! their maximum under a total order: no coordinate value can make
//! the comparison misbehave.

use vstd::prelude::*;

use crate::fixed::{fx_clamp, isqrt, lemma_sqrt_floor, sqrt_floor, fx_ok, FX_MAX};
use crate::vec3::{v3_add_s, v3_cross_s, v3_norm_s, v3_ok, v3_sub_s, Vec3};

verus! {

/// Vertex-count guard: generators stop emitting above this count so
/// that every index still fits in 32 bits.
pub const VERT_GUARD: usize = 4294901760;

/// A texture coordinate pair in fixed point.
#[derive(Clone, Copy, Debug, PartialEq, Eq, Structural)]
pub struct Uv {
    pub u: i64,
    pub v: i64,
}

/// One mesh vertex: position, normal and texture coordinate.
#[derive(Clone, Copy, Debug, PartialEq, Eq, Structural)]
pub struct Vertex {
    pub position: Vec3,
    pub normal: Vec3,
    pub uv: Uv,
}

/// All numeric fields of the vertex are in the admitted range.
pub open spec fn vert_ok(v: Vertex) -> bool {
    v3_ok(v.position) && v3_ok(v.normal) && fx_ok(v.uv.u) && fx_ok(v.uv.v)
}

impl Vertex {
    /// A vertex at the given position with zero normal and zero
    /// texture coordinate.
    pub fn at(position: Vec3) -> (r: Vertex)
        ensures
            r.position == position,
            r.normal == (Vec3 { x: 0, y: 0, z: 0 }),
            r.uv == (Uv { u: 0, v: 0 }),
    {
        Vertex { position, normal: Vec3 { x: 0, y: 0, z: 0 }, uv: Uv { u: 0, v: 0 } }
    }

    pub fn get_position(&self) -> (r: Vec3)
        ensures
            r == self.position,
    {
        self.position
    }

    pub fn set_position(&mut self, position: Vec3)
        ensures
            *final(self) == (Vertex { position, ..*old(self) }),
    {
        self.position = position;
    }

    pub fn get_normal(&self) -> (r: Vec3)
        ensures
            r == self.normal,
    {
        self.normal
    }

    pub fn set_normal(&mut self, normal: Vec3)
        ensures
            *final(self) == (Vertex { normal, ..*old(self) }),
    {
        self.normal = normal;
    }

    pub fn get_uv(&self) -> (r: Uv)
        ensures
            r == self.uv,
    {
        self.uv
    }

    pub fn set_uv(&mut self, uv: Uv)
        ensures
            *final(self) == (Vertex { uv, ..*old(self) }),
    {
        self.uv = uv;
    }
}

/// Mathematical model of a mesh: the vertex sequence and the flat
/// triangle index list.
pub struct MeshModel {
    pub verts: Seq<Vertex>,
    pub idxs: Seq<u32>,
}

/// Mesh well-formedness: every index references a pushed vertex, the
/// index list is a whole number of triangles, and every vertex is in
/// range.
pub open spec fn mesh_wf(m: MeshModel) -> bool {
    &&& forall|i: int| 0 <= i < m.idxs.len() ==> (m.idxs[i] as int) < m.verts.len()
    &&& m.idxs.len() % 3 == 0
    &&& forall|i: int| 0 <= i < m.verts.len() ==> vert_ok(#[trigger] m.verts[i])
}

/// Ordered vertices plus a flat list of triangle indices.
#[derive(Clone, Debug)]
pub struct Mesh {
    pub vertices: Vec<Vertex>,
    pub indices: Vec<u32>,
}

impl View for Mesh {
    type V = MeshModel;

    open spec fn view(&self) -> MeshModel {
        MeshModel { verts: self.vertices@, idxs: self.indices@ }
    }
}

/// Cylindrical extent of one vertex: `sqrt(x*x + z*z)`, saturated.
pub open spec fn vert_radial_s(v: Vertex) -> int {
    fx_clamp(sqrt_floor(v.position.x * v.position.x + v.position.z * v.position.z))
}

/// Greatest cylindrical vertex extent; 0.5 for an empty mesh.
pub open spec fn width_s(s: Seq<Vertex>) -> int
    decreases s.len(),
{
    if s.len() == 0 {
        32768
    } else if s.len() == 1 {
        vert_radial_s(s[0])
    } else {
        let m = width_s(s.drop_last());
        let w = vert_radial_s(s.last());
        if w > m {
            w
        } else {
            m
        }
    }
}

/// Greatest vertex height (`y`); 0.5 for an empty mesh.
pub open spec fn height_s(s: Seq<Vertex>) -> int
    decreases s.len(),
{
    if s.len() == 0 {
        32768
    } else if s.len() == 1 {
        s[0].position.y as int
    } else {
        let m = height_s(s.drop_last());
        let h = s.last().position.y as int;
        if h > m {
            h
        } else {
            m
        }
    }
}

fn vert_radial(v: &Vertex) -> (r: i64)
    requires
        vert_ok(*v),
    ensures
        r == vert_radial_s(*v),
        0 <= r <= FX_MAX,
{
    let x = v.position.x;
    let z = v.position.z;
    let ux: u64 = if x < 0 { (-x) as u64 } else { x as u64 };
    let uz: u64 = if z < 0 { (-z) as u64 } else { z as u64 };
    proof {
        assert((ux as int) * (ux as int) == (x as int) * (x as int) && (ux as int) * (ux as int)
            <= (FX_MAX as int) * (FX_MAX as int)) by (nonlinear_arith)
            requires
                ux == vstd::math::abs(x as int),
                -FX_MAX <= x <= FX_MAX,
        ;
        assert((uz as int) * (uz as int) == (z as int) * (z as int) && (uz as int) * (uz as int)
            <= (FX_MAX as int) * (FX_MAX as int)) by (nonlinear_arith)
            requires
                uz == vstd::math::abs(z as int),
                -FX_MAX <= z <= FX_MAX,
        ;
    }
    let s: u64 = ux * ux + uz * uz;
    let r: u64 = isqrt(s);
    proof {
        lemma_sqrt_floor(s as int);
    }
    if r > FX_MAX as u64 {
        FX_MAX
    } else {
        r as i64
    }
}

impl Mesh {
    /// An empty mesh.
    pub fn new() -> (r: Mesh)
        ensures
            r@.verts.len() == 0,
            r@.idxs.len() == 0,
    {
        Mesh { vertices: Vec::new(), indices: Vec::new() }
    }

    /// Append one vertex.
    pub fn push_vert(&mut self, v: Vertex)
        ensures
            final(self)@.verts == old(self)@.verts.push(v),
            final(self)@.idxs == old(self)@.idxs,
    {
        self.vertices.push(v);
    }

    /// Append one triangle; all three corners must already be pushed.
    pub fn push_tri(&mut self, a: u32, b: u32, c: u32)
        requires
            (a as int) < old(self)@.verts.len(),
            (b as int) < old(self)@.verts.len(),
            (c as int) < old(self)@.verts.len(),
        ensures
            final(self)@.verts == old(self)@.verts,
            final(self)@.idxs == old(self)@.idxs.push(a).push(b).push(c),
    {
        self.indices.push(a);
        self.indices.push(b);
        self.indices.push(c);
    }

    /// Greatest cylindrical extent around the vertical axis; 0.5 for an
    /// empty mesh.
    pub fn width(&self) -> (r: i64)
        requires
            mesh_wf(self@),
        ensures
            r == width_s(self@.verts),
            fx_ok(r),
    {
        if self.vertices.len() == 0 {
            return 32768;
        }
        proof {
            assert(vert_ok(self@.verts[0]));
        }
        let mut acc: i64 = vert_radial(&self.vertices[0]);
        let mut i: usize = 1;
        while i < self.vertices.len()
            invariant
                1 <= i <= self.vertices@.len(),
                mesh_wf(self@),
                acc == width_s(self@.verts.take(i as int)),
                0 <= acc <= FX_MAX,
            decreases self.vertices@.len() - i,
        {
            proof {
                assert(vert_ok(self@.verts[i as int]));
            }
            let w = vert_radial(&self.vertices[i]);
            proof {
                assert(self@.verts.take(i as int + 1).drop_last() =~= self@.verts.take(i as int));
                assert(self@.verts.take(i as int + 1).last() == self@.verts[i as int]);
            }
            if w > acc {
                acc = w;
            }
            i = i + 1;
        }
        proof {
            assert(self@.verts.take(self@.verts.len() as int) =~= self@.verts);
        }
        acc
    }

    /// Greatest vertex height; 0.5 for an empty mesh.
    pub fn height(&self) -> (r: i64)
        requires
            mesh_wf(self@),
        ensures
            r == height_s(self@.verts),
            fx_ok(r),
    {
        if self.vertices.len() == 0 {
            return 32768;
        }
        let mut acc: i64 = self.vertices[0].position.y;
        let mut i: usize = 1;
        while i < self.vertices.len()
            invariant
                1 <= i <= self.vertices@.len(),
                mesh_wf(self@),
                acc == height_s(self@.verts.take(i as int)),
                fx_ok(acc),
            decreases self.vertices@.len() - i,
        {
            let h = self.vertices[i].position.y;
            proof {
                assert(self@.verts.take(i as int + 1).drop_last() =~= self@.verts.take(i as int));
                assert(self@.verts.take(i as int + 1).last() == self@.verts[i as int]);
            }
            if h > acc {
                acc = h;
            }
            i = i + 1;
        }
        proof {
            assert(self@.verts.take(self@.verts.len() as int) =~= self@.verts);
        }
        acc
    }

    /// Solve vertex normals: zero them, accumulate every triangle's
    /// face normal onto its three corners, then normalize each (zero
    /// stays zero).
    pub fn calculate_normals(&mut self)
        requires
            mesh_wf(old(self)@),
        ensures
            final(self)@.verts == solved_verts(old(self)@),
            final(self)@.idxs == old(self)@.idxs,
            mesh_wf(final(self)@),
    {
        let ghost m0 = self@;
        let ghost zv = zero_normals(m0.verts);
        let n = self.vertices.len();
        let mut i: usize = 0;
        while i < n
            invariant
                0 <= i <= n,
                n == self.vertices@.len(),
                self@.idxs == m0.idxs,
                self@.verts.len() == m0.verts.len(),
                zv == zero_normals(m0.verts),
                zv.len() == n,
                forall|j: int| 0 <= j < i ==> #[trigger] self@.verts[j] == zv[j],
                forall|j: int| i <= j < n ==> #[trigger] self@.verts[j] == m0.verts[j],
                mesh_wf(m0),
            decreases n - i,
        {
            let mut v = self.vertices[i];
            v.normal = Vec3 { x: 0, y: 0, z: 0 };
            self.vertices[i] = v;
            i = i + 1;
        }
        proof {
            assert(self@.verts =~= zv);
        }
        let ilen = self.indices.len();
        let tcount = ilen / 3;
        let mut t: usize = 0;
        while t < tcount
            invariant
                0 <= t <= tcount,
                ilen == self@.idxs.len(),
                tcount == self@.idxs.len() / 3,
                self@.idxs == m0.idxs,
                self@.verts.len() == zv.len(),
                self@.verts == acc_normals(zv, m0.idxs, t as int),
                forall|j: int| 0 <= j < zv.len() ==> vert_ok(#[trigger] self@.verts[j]),
                mesh_wf(m0),
                zv.len() == m0.verts.len(),
            decreases tcount - t,
        {
            let ghost prev = self@.verts;
            proof {
                assert(3 * (tcount as int) <= m0.idxs.len()) by {
                    vstd::arithmetic::div_mod::lemma_fundamental_div_mod(
                        m0.idxs.len() as int,
                        3,
                    );
                };
                assert(3 * (t as int) + 2 < self@.idxs.len());
            }
            let i0 = self.indices[3 * t] as usize;
            let i1 = self.indices[3 * t + 1] as usize;
            let i2 = self.indices[3 * t + 2] as usize;
            let count = self.vertices.len();
            if i0 < count && i1 < count && i2 < count {
                proof {
                    assert(vert_ok(self@.verts[i0 as int]));
                    assert(vert_ok(self@.verts[i1 as int]));
                    assert(vert_ok(self@.verts[i2 as int]));
                }
                let p0 = self.vertices[i0].position;
                let p1 = self.vertices[i1].position;
                let p2 = self.vertices[i2].position;
                let fnorm = p1.minus(p0).cross(p2.minus(p0));
                let mut v0 = self.vertices[i0];
                v0.normal = v0.normal.plus(fnorm);
                self.vertices[i0] = v0;
                let mut v1 = self.vertices[i1];
                v1.normal = v1.normal.plus(fnorm);
                self.vertices[i1] = v1;
                let mut v2 = self.vertices[i2];
                v2.normal = v2.normal.plus(fnorm);
                self.vertices[i2] = v2;
                proof {
                    assert(self@.verts == bump_normal(
                        bump_normal(
                            bump_normal(prev, i0 as int, tri_normal_s(prev, i0 as int, i1 as int, i2 as int)),
                            i1 as int,
                            tri_normal_s(prev, i0 as int, i1 as int, i2 as int),
                        ),
                        i2 as int,
                        tri_normal_s(prev, i0 as int, i1 as int, i2 as int),
                    ));
                }
            }
            t = t + 1;
            proof {
                assert(self@.verts == acc_normals(zv, m0.idxs, t as int));
            }
        }
        let ghost av = acc_normals(zv, m0.idxs, m0.idxs.len() as int / 3);
        proof {
            assert(self@.verts == av);
        }
        let mut k: usize = 0;
        while k < n
            invariant
                0 <= k <= n,
                n == self.vertices@.len(),
                n == av.len(),
                self@.idxs == m0.idxs,
                forall|j: int| 0 <= j < k ==> #[trigger] self@.verts[j] == norm_normals(av)[j],
                forall|j: int| k <= j < n ==> #[trigger] self@.verts[j] == av[j],
                forall|j: int| 0 <= j < av.len() ==> vert_ok(#[trigger] av[j]),
                mesh_wf(m0),
            decreases n - k,
        {
            proof {
                assert(vert_ok(self@.verts[k as int]));
            }
            let mut v = self.vertices[k];
            v.normal = v.normal.normalized();
            self.vertices[k] = v;
            k = k + 1;
        }
        proof {
            assert(self@.verts =~= norm_normals(av));
            assert(forall|j: int|
                0 <= j < self@.verts.len() ==> vert_ok(#[trigger] self@.verts[j]));
        }
    }
}

/// Non-normalized face normal of a triangle: the cross product of its
/// two edge vectors out of the first corner.
pub open spec fn tri_normal_s(vs: Seq<Vertex>, i0: int, i1: int, i2: int) -> Vec3 {
    v3_cross_s(
        v3_sub_s(vs[i1].position, vs[i0].position),
        v3_sub_s(vs[i2].position, vs[i0].position),
    )
}

/// Add `n` onto the normal of the vertex at `i`.
pub open spec fn bump_normal(vs: Seq<Vertex>, i: int, n: Vec3) -> Seq<Vertex> {
    vs.update(i, Vertex { normal: v3_add_s(vs[i].normal, n), ..vs[i] })
}

/// Accumulate the face normals of the first `t` triangles onto their
/// corner vertices; triangles with an out-of-range corner are skipped.
pub open spec fn acc_normals(vs: Seq<Vertex>, idxs: Seq<u32>, t: int) -> Seq<Vertex>
    decreases t,
{
    if t <= 0 {
        vs
    } else {
        let prev = acc_normals(vs, idxs, t - 1);
        let i0 = idxs[3 * (t - 1)] as int;
        let i1 = idxs[3 * (t - 1) + 1] as int;
        let i2 = idxs[3 * (t - 1) + 2] as int;
        if i0 < prev.len() && i1 < prev.len() && i2 < prev.len() {
            let n = tri_normal_s(prev, i0, i1, i2);
            bump_normal(bump_normal(bump_normal(prev, i0, n), i1, n), i2, n)
        } else {
            prev
        }
    }
}

/// All normals set to zero.
pub open spec fn zero_normals(vs: Seq<Vertex>) -> Seq<Vertex> {
    Seq::new(vs.len(), |i: int| Vertex { normal: Vec3 { x: 0, y: 0, z: 0 }, ..vs[i] })
}

/// All normals normalized (zero when of zero length).
pub open spec fn norm_normals(vs: Seq<Vertex>) -> Seq<Vertex> {
    Seq::new(vs.len(), |i: int| Vertex { normal: v3_norm_s(vs[i].normal), ..vs[i] })
}

/// The vertex sequence after one run of the normal solver.
pub open spec fn solved_verts(m: MeshModel) -> Seq<Vertex> {
    norm_normals(acc_normals(zero_normals(m.verts), m.idxs, m.idxs.len() as int / 3))
}

/// The accumulation phase keeps length, positions and texture
/// coordinates.
pub proof fn lemma_acc_keeps_shape(vs: Seq<Vertex>, idxs: Seq<u32>, t: int)
    ensures
        acc_normals(vs, idxs, t).len() == vs.len(),
        forall|j: int|
            0 <= j < vs.len() ==> (#[trigger] acc_normals(vs, idxs, t)[j]).position == vs[j].position
                && acc_normals(vs, idxs, t)[j].uv == vs[j].uv,
    decreases t,
{
    if t > 0 {
        lemma_acc_keeps_shape(vs, idxs, t - 1);
    }
}

/// The solver keeps length, positions, texture coordinates and the
/// index list, so a second run reproduces its own output: the solved
/// normals are a function of positions and indices alone.
pub proof fn lemma_solver_idempotent(m: MeshModel)
    ensures
        solved_verts(MeshModel { verts: solved_verts(m), idxs: m.idxs }) == solved_verts(m),
{
    let zv = zero_normals(m.verts);
    lemma_acc_keeps_shape(zv, m.idxs, m.idxs.len() as int / 3);
    assert(zero_normals(solved_verts(m)) =~= zv);
}

impl Default for Mesh {
    /// An empty mesh.
    fn default() -> (r: Mesh)
        ensures
            r@.verts.len() == 0,
            r@.idxs.len() == 0,
    {
        Mesh::new()
    }
}

/// A mesh behind a shared reference-counted handle, immutable once
/// built.
#[derive(Clone)]
pub struct SharedMesh {
    pub mesh: std::sync::Arc<Mesh>,
}

impl SharedMesh {
    /// Wrap a finished mesh for read-only sharing.
    pub fn new(mesh: Mesh) -> (r: SharedMesh)
        ensures
            r.mesh == mesh,
    {
        SharedMesh { mesh: std::sync::Arc::new(mesh) }
    }
}

} // verus!
