//! The branch gene: a tapered, optionally curving tube that continues
//! into one owned child.

use vstd::prelude::*;

use crate::dna::{dna_ok, plant_emit_s, PlantDna};
use crate::fixed::{
    div_trunc, fx_add, fx_add_s, fx_cos, fx_cos_s, fx_divn, fx_mul, fx_mul_s, fx_ok, fx_sin,
    fx_sin_s, fx_sub, fx_sub_s, perturbed_by, FX_ONE, FX_PI, FX_TAU,
};
use crate::mesh::{mesh_wf, Mesh, MeshModel, Uv, Vertex, VERT_GUARD};
use crate::random::{next_word, word_to_range};
use crate::vec3::{
    v3_add_s, v3_cross_s, v3_dot_s, v3_norm_s, v3_ok, v3_scale_s, v3_sub_s, Vec3,
};

verus! {

/// Lower construction bound of branch length (0.1).
pub const BRANCH_LENGTH_LO: i64 = 6554;

/// Upper construction bound of branch length (2.0).
pub const BRANCH_LENGTH_HI: i64 = 131072;

/// Lower construction bound of branch radius (0.05).
pub const BRANCH_RADIUS_LO: i64 = 3277;

/// Upper construction bound of branch radius (0.5).
pub const BRANCH_RADIUS_HI: i64 = 32768;

/// Upper construction bound of branch curvature (0.75).
pub const BRANCH_BEND_HI: i64 = 49152;

/// Upper construction bound of branch taper (1.0).
pub const BRANCH_TAPER_HI: i64 = 65536;

/// A composite gene: a tube from the start frame, whose tip frame
/// seeds the owned `end` child.
#[derive(Debug, PartialEq)]
pub struct Branch {
    pub length: i64,
    pub radius: i64,
    pub bend: i64,
    pub taper: i64,
    pub end: Box<PlantDna>,
}

/// All numeric fields are in the admitted fixed-point range.
pub open spec fn branch_fields_ok(b: Branch) -> bool {
    fx_ok(b.length) && fx_ok(b.radius) && fx_ok(b.bend) && fx_ok(b.taper)
}

/// Each numeric field of `b1` is `b0`'s moved by one variance-scaled
/// offset, the offset ranges mirroring the construction ranges.
pub open spec fn branch_perturbed(b0: Branch, b1: Branch, v: int) -> bool {
    &&& perturbed_by(b0.length as int, b1.length as int, 32768, v)
    &&& perturbed_by(b0.radius as int, b1.radius as int, 16384, v)
    &&& perturbed_by(b0.bend as int, b1.bend as int, 16384, v)
    &&& perturbed_by(b0.taper as int, b1.taper as int, 32768, v)
}

/// All numeric fields are inside their construction ranges.
pub open spec fn branch_fields_in_ranges(b: Branch) -> bool {
    &&& BRANCH_LENGTH_LO <= b.length < BRANCH_LENGTH_HI
    &&& BRANCH_RADIUS_LO <= b.radius < BRANCH_RADIUS_HI
    &&& 0 <= b.bend < BRANCH_BEND_HI
    &&& 0 <= b.taper < BRANCH_TAPER_HI
}

impl Branch {
    /// Draw a fresh branch, every field uniform in its construction
    /// range, with a recursively constructed child of the given
    /// remaining depth.
    pub fn new(rng: &mut rand::rngs::StdRng, depth: u32) -> (r: Branch)
        ensures
            branch_fields_in_ranges(r),
            branch_fields_ok(r),
            crate::dna::dna_ok(*r.end),
            crate::dna::dna_in_ranges(*r.end),
        decreases depth, 1int,
    {
        let length = word_to_range(next_word(rng), BRANCH_LENGTH_LO, BRANCH_LENGTH_HI);
        let radius = word_to_range(next_word(rng), BRANCH_RADIUS_LO, BRANCH_RADIUS_HI);
        let bend = word_to_range(next_word(rng), 0, BRANCH_BEND_HI);
        let taper = word_to_range(next_word(rng), 0, BRANCH_TAPER_HI);
        let end = Box::new(PlantDna::new(rng, depth));
        Branch { length, radius, bend, taper, end }
    }

    /// Perturb every numeric field by an independent offset drawn from
    /// a range proportional to `variance`; variance zero changes no
    /// field.  The owned child is perturbed by the tree-level
    /// mutation.
    pub fn mutate(&mut self, rng: &mut rand::rngs::StdRng, variance: i64)
        requires
            branch_fields_ok(*old(self)),
            fx_ok(variance),
            variance >= 0,
        ensures
            branch_fields_ok(*final(self)),
            branch_perturbed(*old(self), *final(self), variance as int),
            final(self).end == old(self).end,
            variance == 0 ==> *final(self) == *old(self),
    {
        let w1 = word_to_range(next_word(rng), -32768, 32768);
        self.length = fx_add(self.length, fx_mul(w1, variance));
        let w2 = word_to_range(next_word(rng), -16384, 16384);
        self.radius = fx_add(self.radius, fx_mul(w2, variance));
        let w3 = word_to_range(next_word(rng), -16384, 16384);
        self.bend = fx_add(self.bend, fx_mul(w3, variance));
        let w4 = word_to_range(next_word(rng), -32768, 32768);
        self.taper = fx_add(self.taper, fx_mul(w4, variance));
        proof {
            let v = variance as int;
            assert(perturbed_by(old(self).length as int, self.length as int, 32768, v)) by {
                assert(self.length == fx_add_s(
                    old(self).length as int,
                    fx_mul_s(w1 as int, v),
                ));
            };
            assert(perturbed_by(old(self).radius as int, self.radius as int, 16384, v)) by {
                assert(self.radius == fx_add_s(
                    old(self).radius as int,
                    fx_mul_s(w2 as int, v),
                ));
            };
            assert(perturbed_by(old(self).bend as int, self.bend as int, 16384, v)) by {
                assert(self.bend == fx_add_s(old(self).bend as int, fx_mul_s(w3 as int, v)));
            };
            assert(perturbed_by(old(self).taper as int, self.taper as int, 32768, v)) by {
                assert(self.taper == fx_add_s(old(self).taper as int, fx_mul_s(w4 as int, v)));
            };
        }
    }
}

/// Parametric position of ring `i` along the branch.
pub open spec fn branch_x(i: int) -> int {
    (i * 65536) / 5
}

/// The tube's fixed sideways axis.
pub open spec fn branch_right_s(dir: Vec3, up: Vec3) -> Vec3 {
    v3_norm_s(v3_cross_s(dir, up))
}

/// The tube's initial up axis (rotated along with the advance
/// direction as the tube bends).
pub open spec fn branch_up_s(dir: Vec3, up: Vec3) -> Vec3 {
    v3_norm_s(v3_cross_s(branch_right_s(dir, up), dir))
}

/// Per-step bend rotation angle: `-bend / steps * pi`.
pub open spec fn branch_theta_s(b: Branch) -> int {
    fx_mul_s(div_trunc(-(b.bend as int), 5), FX_PI as int)
}

/// Radius of ring `i`, interpolating from `radius` at the base to
/// `radius * taper` at the tip.
pub open spec fn ring_radius_s(b: Branch, i: int) -> int {
    fx_add_s(
        fx_mul_s(b.radius as int, fx_sub_s(FX_ONE as int, branch_x(i))),
        fx_mul_s(fx_mul_s(b.radius as int, b.taper as int), branch_x(i)),
    )
}

/// Rotation of `v` about the unit axis by the angle whose cosine is
/// `c`, sine is `s`, and `1 - cosine` is `omc`.
pub open spec fn rot_s(v: Vec3, axis: Vec3, c: int, s: int, omc: int) -> Vec3 {
    v3_add_s(
        v3_add_s(v3_scale_s(v, c), v3_scale_s(v3_cross_s(axis, v), s)),
        v3_scale_s(axis, fx_mul_s(v3_dot_s(axis, v), omc)),
    )
}

/// The frame change applied after ring `i`: advance the start along
/// the current direction by `x_i * length`, then bend direction and up
/// about the fixed right axis.
pub open spec fn branch_step_s(b: Branch, right: Vec3, st: (Vec3, Vec3, Vec3), i: int) -> (
    Vec3,
    Vec3,
    Vec3,
) {
    let c = fx_cos_s(branch_theta_s(b));
    let s = fx_sin_s(branch_theta_s(b));
    let omc = fx_sub_s(FX_ONE as int, c);
    (
        v3_add_s(st.0, v3_scale_s(v3_scale_s(st.1, branch_x(i)), b.length as int)),
        rot_s(st.1, right, c, s, omc),
        rot_s(st.2, right, c, s, omc),
    )
}

/// The frame at ring `i`: the initial frame advanced `i` times.
pub open spec fn branch_state_s(
    b: Branch,
    start: Vec3,
    dir: Vec3,
    up2: Vec3,
    right: Vec3,
    i: int,
) -> (Vec3, Vec3, Vec3)
    decreases i,
{
    if i <= 0 {
        (start, dir, up2)
    } else {
        branch_step_s(b, right, branch_state_s(b, start, dir, up2, right, i - 1), i - 1)
    }
}

/// Vertex `j` of ring `i`: on the ring's circle, at angle
/// `j / radial * 2 * pi`.
pub open spec fn ring_vert_s(b: Branch, right: Vec3, st: (Vec3, Vec3, Vec3), i: int, j: int) -> Vertex {
    let tj = (j * FX_TAU as int) / 5;
    let rr = ring_radius_s(b, i);
    Vertex {
        position: v3_add_s(
            v3_add_s(st.0, v3_scale_s(v3_scale_s(right, fx_cos_s(tj)), rr)),
            v3_scale_s(v3_scale_s(st.2, fx_sin_s(tj)), rr),
        ),
        normal: Vec3 { x: 0, y: 0, z: 0 },
        uv: Uv { u: 0, v: 0 },
    }
}

/// The first `j` vertices of ring `i`, in push order.
pub open spec fn ring_verts_upto(
    b: Branch,
    right: Vec3,
    st: (Vec3, Vec3, Vec3),
    i: int,
    j: int,
) -> Seq<Vertex>
    decreases j,
{
    if j <= 0 {
        Seq::empty()
    } else {
        ring_verts_upto(b, right, st, i, j - 1) + seq![ring_vert_s(b, right, st, i, j - 1)]
    }
}

/// The triangle indices closing the first `j` radial quads between
/// rings `i - 1` and `i`, wrapping the last quad back to the ring
/// start.
pub open spec fn ring_idxs_upto(base: int, i: int, j: int) -> Seq<u32>
    decreases j,
{
    if j <= 0 {
        Seq::empty()
    } else {
        let i0 = base + 5 * i + (j - 1);
        let i1 = if j - 1 < 4 {
            i0 + 1
        } else {
            i0 - 4
        };
        let i2 = i0 - 5;
        let i3 = i1 - 5;
        ring_idxs_upto(base, i, j - 1) + seq![
            i0 as u32,
            i2 as u32,
            i1 as u32,
            i1 as u32,
            i2 as u32,
            i3 as u32,
        ]
    }
}

/// Vertices of the first `n` rings, in push order.
pub open spec fn branch_verts_upto(
    b: Branch,
    start: Vec3,
    dir: Vec3,
    up2: Vec3,
    right: Vec3,
    n: int,
) -> Seq<Vertex>
    decreases n,
{
    if n <= 0 {
        Seq::empty()
    } else {
        branch_verts_upto(b, start, dir, up2, right, n - 1) + ring_verts_upto(
            b,
            right,
            branch_state_s(b, start, dir, up2, right, n - 1),
            n - 1,
            5,
        )
    }
}

/// Triangle indices of the first `n` rings.
pub open spec fn branch_idxs_upto(base: int, n: int) -> Seq<u32>
    decreases n,
{
    if n <= 1 {
        Seq::empty()
    } else {
        branch_idxs_upto(base, n - 1) + ring_idxs_upto(base, n - 1, 5)
    }
}

/// Lengths of the emitted sequences: five vertices per ring and thirty
/// indices per ring pair.
pub proof fn lemma_branch_lens(
    b: Branch,
    start: Vec3,
    dir: Vec3,
    up2: Vec3,
    right: Vec3,
    base: int,
    n: int,
)
    ensures
        branch_verts_upto(b, start, dir, up2, right, n).len() == if n <= 0 {
            0int
        } else {
            5 * n
        },
        branch_idxs_upto(base, n).len() == if n <= 1 {
            0int
        } else {
            30 * (n - 1)
        },
    decreases n,
{
    if n > 0 {
        lemma_branch_lens(b, start, dir, up2, right, base, n - 1);
        lemma_ring_lens(b, right, branch_state_s(b, start, dir, up2, right, n - 1), base, n - 1, 5);
    }
}

proof fn lemma_ring_lens(b: Branch, right: Vec3, st: (Vec3, Vec3, Vec3), base: int, i: int, j: int)
    ensures
        ring_verts_upto(b, right, st, i, j).len() == if j <= 0 {
            0int
        } else {
            j
        },
        ring_idxs_upto(base, i, j).len() == if j <= 0 {
            0int
        } else {
            6 * j
        },
    decreases j,
{
    if j > 0 {
        lemma_ring_lens(b, right, st, base, i, j - 1);
    }
}

/// What one branch appends to a mesh: six rings of five vertices,
/// closed into radial quads (nothing once the vertex guard is
/// reached), followed by whatever its child appends from the tip
/// frame.
pub open spec fn branch_emit_s(b: Branch, m: MeshModel, start: Vec3, dir: Vec3, up: Vec3) -> MeshModel
    decreases b, 1int, 0int,
{
    let right = branch_right_s(dir, up);
    let up2 = branch_up_s(dir, up);
    let tip = branch_state_s(b, start, dir, up2, right, 5);
    let m2 = if m.verts.len() > VERT_GUARD as int {
        m
    } else {
        MeshModel {
            verts: m.verts + branch_verts_upto(b, start, dir, up2, right, 6),
            idxs: m.idxs + branch_idxs_upto(m.verts.len() as int, 6),
        }
    };
    plant_emit_s(*b.end, m2, tip.0, tip.1, up)
}

/// Rotate `v` about the unit `axis`; `c`, `s` and `omc` are the
/// angle's cosine, sine and one-minus-cosine.
fn rotate(v: Vec3, axis: Vec3, c: i64, s: i64, omc: i64) -> (r: Vec3)
    requires
        v3_ok(v),
        v3_ok(axis),
        fx_ok(c),
        fx_ok(s),
        fx_ok(omc),
    ensures
        r == rot_s(v, axis, c as int, s as int, omc as int),
        v3_ok(r),
{
    v.scale(c).plus(axis.cross(v).scale(s)).plus(axis.scale(fx_mul(axis.dot(v), omc)))
}

impl Branch {
    /// Push the five vertices of ring `i` around the current frame.
    fn emit_ring(
        &self,
        mesh: &mut Mesh,
        st0: Vec3,
        st1: Vec3,
        st2: Vec3,
        right: Vec3,
        ring_radius: i64,
        i: usize,
    )
        requires
            branch_fields_ok(*self),
            v3_ok(st0),
            v3_ok(st2),
            v3_ok(right),
            fx_ok(ring_radius),
            ring_radius == ring_radius_s(*self, i as int),
            i <= 5,
            mesh_wf(old(mesh)@),
        ensures
            final(mesh)@.verts == old(mesh)@.verts + ring_verts_upto(
                *self,
                right,
                (st0, st1, st2),
                i as int,
                5,
            ),
            final(mesh)@.idxs == old(mesh)@.idxs,
            final(mesh)@.verts.len() == old(mesh)@.verts.len() + 5,
            mesh_wf(final(mesh)@),
    {
        let ghost st = (st0, st1, st2);
        let ghost m0 = mesh@;
        proof {
            lemma_ring_lens(*self, right, st, 0, i as int, 5);
            assert(mesh@.verts =~= m0.verts + ring_verts_upto(*self, right, st, i as int, 0));
        }
        let mut j: usize = 0;
        while j < 5
            invariant
                0 <= j <= 5,
                branch_fields_ok(*self),
                v3_ok(st0),
                v3_ok(st2),
                v3_ok(right),
                fx_ok(ring_radius),
                ring_radius == ring_radius_s(*self, i as int),
                st == (st0, st1, st2),
                i <= 5,
                mesh_wf(m0),
                mesh@.verts == m0.verts + ring_verts_upto(*self, right, st, i as int, j as int),
                mesh@.verts.len() == m0.verts.len() + j,
                mesh@.idxs == m0.idxs,
                mesh_wf(mesh@),
            decreases 5 - j,
        {
            let tj = fx_divn((j as i64) * FX_TAU, 5);
            let rc = fx_cos(tj);
            let rs = fx_sin(tj);
            let p = st0.plus(right.scale(rc).scale(ring_radius)).plus(
                st2.scale(rs).scale(ring_radius),
            );
            proof {
                assert((j as int) * (FX_TAU as int) == (j as i64 * FX_TAU) as int);
                assert(p == ring_vert_s(*self, right, st, i as int, j as int).position);
            }
            mesh.push_vert(Vertex::at(p));
            proof {
                assert(mesh@.verts =~= m0.verts + ring_verts_upto(
                    *self,
                    right,
                    st,
                    i as int,
                    j as int + 1,
                ));
            }
            j = j + 1;
        }
    }

    /// Push the thirty indices closing the radial quads between rings
    /// `i - 1` and `i`, the last quad wrapping back to the ring start.
    fn emit_ring_tris(mesh: &mut Mesh, i: usize)
        requires
            1 <= i <= 5,
            mesh_wf(old(mesh)@),
            old(mesh)@.verts.len() >= 10,
            old(mesh)@.verts.len() >= 5 * (i as int) + 5,
            old(mesh)@.verts.len() <= VERT_GUARD as int + 30,
        ensures
            final(mesh)@.verts == old(mesh)@.verts,
            final(mesh)@.idxs == old(mesh)@.idxs + ring_idxs_upto(
                old(mesh)@.verts.len() - 5 * (i as int) - 5,
                i as int,
                5,
            ),
            mesh_wf(final(mesh)@),
    {
        let ghost m0 = mesh@;
        let ghost base = m0.verts.len() - 5 * (i as int) - 5;
        proof {
            assert(mesh@.idxs =~= m0.idxs + ring_idxs_upto(base, i as int, 0));
        }
        let mut j: usize = 0;
        while j < 5
            invariant
                0 <= j <= 5,
                1 <= i <= 5,
                mesh_wf(m0),
                base == m0.verts.len() - 5 * (i as int) - 5,
                base >= 0,
                m0.verts.len() <= VERT_GUARD as int + 30,
                mesh@.verts == m0.verts,
                mesh@.idxs == m0.idxs + ring_idxs_upto(base, i as int, j as int),
                mesh_wf(mesh@),
            decreases 5 - j,
        {
            let count = mesh.vertices.len();
            let i0 = count - 5 + j;
            let i1 = if j < 4 {
                i0 + 1
            } else {
                i0 - 4
            };
            let i2 = i0 - 5;
            let i3 = i1 - 5;
            mesh.push_tri(i0 as u32, i2 as u32, i1 as u32);
            mesh.push_tri(i1 as u32, i2 as u32, i3 as u32);
            proof {
                assert(mesh@.idxs =~= m0.idxs + ring_idxs_upto(base, i as int, j as int + 1));
            }
            j = j + 1;
        }
    }

    /// Append the tube's rings and return the tip frame
    /// `(start, direction, up)` left for the child.
    #[verifier::rlimit(100)]
    fn emit_rings(&self, mesh: &mut Mesh, start: Vec3, dir: Vec3, up2: Vec3, right: Vec3) -> (tip: (
        Vec3,
        Vec3,
        Vec3,
    ))
        requires
            branch_fields_ok(*self),
            v3_ok(start),
            v3_ok(dir),
            v3_ok(up2),
            v3_ok(right),
            mesh_wf(old(mesh)@),
        ensures
            tip == branch_state_s(*self, start, dir, up2, right, 5),
            v3_ok(tip.0),
            v3_ok(tip.1),
            v3_ok(tip.2),
            final(mesh)@ == if old(mesh)@.verts.len() > VERT_GUARD as int {
                old(mesh)@
            } else {
                MeshModel {
                    verts: old(mesh)@.verts + branch_verts_upto(*self, start, dir, up2, right, 6),
                    idxs: old(mesh)@.idxs + branch_idxs_upto(old(mesh)@.verts.len() as int, 6),
                }
            },
            mesh_wf(final(mesh)@),
    {
        let theta = fx_mul(fx_divn(-self.bend, 5), FX_PI);
        let c = fx_cos(theta);
        let s = fx_sin(theta);
        let omc = fx_sub(FX_ONE, c);
        let end_radius = fx_mul(self.radius, self.taper);
        let mut cur_start = start;
        let mut cur_dir = dir;
        let mut cur_up = up2;
        let guarded = mesh.vertices.len() > VERT_GUARD;
        let ghost m0 = mesh@;
        let ghost base = m0.verts.len() as int;
        let mut i: usize = 0;
        while i <= 5
            invariant
                0 <= i <= 6,
                branch_fields_ok(*self),
                v3_ok(start),
                v3_ok(dir),
                v3_ok(up2),
                v3_ok(right),
                v3_ok(cur_start),
                v3_ok(cur_dir),
                v3_ok(cur_up),
                c == fx_cos_s(branch_theta_s(*self)),
                s == fx_sin_s(branch_theta_s(*self)),
                omc == fx_sub_s(FX_ONE as int, c as int),
                fx_ok(c),
                fx_ok(s),
                fx_ok(omc),
                end_radius == fx_mul_s(self.radius as int, self.taper as int),
                fx_ok(end_radius),
                (cur_start, cur_dir, cur_up) == branch_state_s(
                    *self,
                    start,
                    dir,
                    up2,
                    right,
                    if i as int <= 5 {
                        i as int
                    } else {
                        5int
                    },
                ),
                mesh_wf(m0),
                base == m0.verts.len(),
                guarded == (base > VERT_GUARD as int),
                guarded ==> mesh@ == m0,
                !guarded ==> mesh@.verts == m0.verts + branch_verts_upto(
                    *self,
                    start,
                    dir,
                    up2,
                    right,
                    i as int,
                ),
                !guarded ==> mesh@.idxs == m0.idxs + branch_idxs_upto(base, i as int),
                !guarded ==> mesh@.verts.len() == base + 5 * i,
                mesh_wf(mesh@),
            decreases 6 - i,
        {
            let ghost st = (cur_start, cur_dir, cur_up);
            let x = fx_divn((i as i64) * 65536, 5);
            proof {
                assert((i as i64) * 65536 <= 327680);
                assert(0 <= div_trunc((i as int) * 65536, 5) <= 65536) by {
                    vstd::arithmetic::div_mod::lemma_div_is_ordered(
                        (i as int) * 65536,
                        327680,
                        5,
                    );
                    vstd::arithmetic::div_mod::lemma_div_pos_is_pos((i as int) * 65536, 5);
                };
            }
            let ring_radius = fx_add(fx_mul(self.radius, fx_sub(FX_ONE, x)), fx_mul(end_radius, x));
            if !guarded {
                proof {
                    lemma_branch_lens(*self, start, dir, up2, right, base, i as int);
                }
                self.emit_ring(mesh, cur_start, cur_dir, cur_up, right, ring_radius, i);
                proof {
                    assert(mesh@.verts =~= m0.verts + branch_verts_upto(
                        *self,
                        start,
                        dir,
                        up2,
                        right,
                        i as int + 1,
                    ));
                    lemma_branch_lens(*self, start, dir, up2, right, base, i as int + 1);
                }
                if i > 0 {
                    Self::emit_ring_tris(mesh, i);
                    proof {
                        assert(mesh@.idxs =~= m0.idxs + branch_idxs_upto(base, i as int + 1));
                    }
                } else {
                    proof {
                        assert(mesh@.idxs =~= m0.idxs + branch_idxs_upto(base, 1));
                    }
                }
            }
            if i < 5 {
                cur_start = cur_start.plus(cur_dir.scale(x).scale(self.length));
                cur_dir = rotate(cur_dir, right, c, s, omc);
                cur_up = rotate(cur_up, right, c, s, omc);
                proof {
                    assert((cur_start, cur_dir, cur_up) == branch_step_s(
                        *self,
                        right,
                        st,
                        i as int,
                    ));
                }
            }
            i = i + 1;
        }
        (cur_start, cur_dir, cur_up)
    }

    /// Append the tube: six rings of five vertices each, radius
    /// interpolating toward `radius * taper`, curving by `bend`; then
    /// the child continues from the tip.
    pub fn generate(&self, mesh: &mut Mesh, start: Vec3, direction: Vec3, real_up: Vec3)
        requires
            branch_fields_ok(*self),
            dna_ok(*self.end),
            v3_ok(start),
            v3_ok(direction),
            v3_ok(real_up),
            mesh_wf(old(mesh)@),
        ensures
            final(mesh)@ == branch_emit_s(*self, old(mesh)@, start, direction, real_up),
            mesh_wf(final(mesh)@),
        decreases *self, 1int,
    {
        let right = direction.cross(real_up).normalized();
        let up2 = right.cross(direction).normalized();
        let tip = self.emit_rings(mesh, start, direction, up2, right);
        self.end.generate_mesh(mesh, tip.0, tip.1, real_up);
    }
}

/// One targeted edit of a branch: set a field or forward to the child.
#[derive(Debug, PartialEq)]
pub enum BranchMessage {
    SetLength(i64),
    SetRadius(i64),
    SetBend(i64),
    SetTaper(i64),
    ChangeEnd(Box<crate::dna::PlantMessage>),
}

} // verus!
