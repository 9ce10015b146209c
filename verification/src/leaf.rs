//! The leaf gene: a flat drooping ribbon.

use vstd::prelude::*;

use crate::fixed::{
    div_trunc, fx_add, fx_add_s, fx_divn, fx_mul, fx_mul_s, fx_ok, fx_pow, fx_pow_s, fx_sin,
    fx_sin_s, perturbed_by, FX_ONE, FX_PI,
};
use crate::mesh::{mesh_wf, Mesh, MeshModel, Uv, Vertex, VERT_GUARD};
use crate::random::{next_word, word_range_s, word_to_range};
use crate::vec3::{v3_add_s, v3_cross_s, v3_norm_s, v3_ok, v3_scale_s, v3_sub_s, Vec3};

verus! {

/// Lower construction bound of leaf length and width (0.1).
pub const LEAF_DIM_LO: i64 = 6554;

/// Upper construction bound of leaf length and width (1.0).
pub const LEAF_DIM_HI: i64 = 65536;

/// Upper construction bound of leaf droop (0.5).
pub const LEAF_BEND_HI: i64 = 32768;

/// Lower construction bound of the droop curve exponent (0.5).
pub const LEAF_PROFILE_LO: i64 = 32768;

/// Upper construction bound of the droop curve exponent (5.0).
pub const LEAF_PROFILE_HI: i64 = 327680;

/// A terminal gene producing a ribbon of paired cross-section
/// vertices.
#[derive(Clone, Copy, Debug, PartialEq, Eq, Structural)]
pub struct Leaf {
    pub length: i64,
    pub width: i64,
    pub bend: i64,
    pub bend_profile: i64,
}

/// All numeric fields are in the admitted fixed-point range.
pub open spec fn leaf_ok(l: Leaf) -> bool {
    fx_ok(l.length) && fx_ok(l.width) && fx_ok(l.bend) && fx_ok(l.bend_profile)
}

/// Each field of `l1` is `l0`'s moved by one variance-scaled offset,
/// the offset ranges mirroring the construction ranges.
pub open spec fn leaf_perturbed(l0: Leaf, l1: Leaf, v: int) -> bool {
    &&& perturbed_by(l0.length as int, l1.length as int, 32768, v)
    &&& perturbed_by(l0.width as int, l1.width as int, 32768, v)
    &&& perturbed_by(l0.bend as int, l1.bend as int, 16384, v)
    &&& perturbed_by(l0.bend_profile as int, l1.bend_profile as int, 16384, v)
}

/// All numeric fields are inside their construction ranges.
pub open spec fn leaf_in_ranges(l: Leaf) -> bool {
    &&& LEAF_DIM_LO <= l.length < LEAF_DIM_HI
    &&& LEAF_DIM_LO <= l.width < LEAF_DIM_HI
    &&& 0 <= l.bend < LEAF_BEND_HI
    &&& LEAF_PROFILE_LO <= l.bend_profile < LEAF_PROFILE_HI
}

/// Parametric position of cross-section `i` along the leaf.
pub open spec fn leaf_x(i: int) -> int {
    (i * 65536) / 5
}

/// The ribbon's sideways axis.
pub open spec fn leaf_right_s(dir: Vec3, up: Vec3) -> Vec3 {
    v3_norm_s(v3_cross_s(up, dir))
}

/// The ribbon's droop axis.
pub open spec fn leaf_up_s(dir: Vec3, up: Vec3) -> Vec3 {
    v3_norm_s(v3_cross_s(dir, leaf_right_s(dir, up)))
}

/// Half-width of cross-section `i`: `sin(x*pi) * width / 4`.
pub open spec fn leaf_halfw_s(l: Leaf, i: int) -> int {
    div_trunc(fx_mul_s(fx_sin_s(fx_mul_s(leaf_x(i), FX_PI as int)), l.width as int), 4)
}

/// Droop of cross-section `i`: `x^bend_profile * bend`.
pub open spec fn leaf_droop_s(l: Leaf, i: int) -> int {
    fx_mul_s(fx_pow_s(leaf_x(i), l.bend_profile as int), l.bend as int)
}

/// Spine point of cross-section `i`: `start + dir * x * length`.
pub open spec fn leaf_spine_s(l: Leaf, start: Vec3, dir: Vec3, i: int) -> Vec3 {
    v3_add_s(start, v3_scale_s(v3_scale_s(dir, leaf_x(i)), l.length as int))
}

/// Left edge vertex of cross-section `i`.
pub open spec fn leaf_vert_a_s(l: Leaf, start: Vec3, dir: Vec3, up: Vec3, i: int) -> Vertex {
    Vertex {
        position: v3_sub_s(
            v3_add_s(
                leaf_spine_s(l, start, dir, i),
                v3_scale_s(leaf_right_s(dir, up), leaf_halfw_s(l, i)),
            ),
            v3_scale_s(leaf_up_s(dir, up), leaf_droop_s(l, i)),
        ),
        normal: Vec3 { x: 0, y: 0, z: 0 },
        uv: Uv { u: 0, v: 0 },
    }
}

/// Right edge vertex of cross-section `i`.
pub open spec fn leaf_vert_b_s(l: Leaf, start: Vec3, dir: Vec3, up: Vec3, i: int) -> Vertex {
    Vertex {
        position: v3_sub_s(
            v3_sub_s(
                leaf_spine_s(l, start, dir, i),
                v3_scale_s(leaf_right_s(dir, up), leaf_halfw_s(l, i)),
            ),
            v3_scale_s(leaf_up_s(dir, up), leaf_droop_s(l, i)),
        ),
        normal: Vec3 { x: 0, y: 0, z: 0 },
        uv: Uv { u: 0, v: 0 },
    }
}

/// Vertices of the first `n` cross-sections, in push order.
pub open spec fn leaf_verts_upto(l: Leaf, start: Vec3, dir: Vec3, up: Vec3, n: int) -> Seq<Vertex>
    decreases n,
{
    if n <= 0 {
        Seq::empty()
    } else {
        leaf_verts_upto(l, start, dir, up, n - 1) + seq![
            leaf_vert_a_s(l, start, dir, up, n - 1),
            leaf_vert_b_s(l, start, dir, up, n - 1),
        ]
    }
}

/// Triangle indices connecting the first `n` cross-sections, for a
/// ribbon whose first vertex sits at `base`.
pub open spec fn leaf_idxs_upto(base: int, n: int) -> Seq<u32>
    decreases n,
{
    if n <= 1 {
        Seq::empty()
    } else {
        let i = n - 1;
        leaf_idxs_upto(base, n - 1) + seq![
            (base + 2 * i + 1) as u32,
            (base + 2 * i) as u32,
            (base + 2 * i - 1) as u32,
            (base + 2 * i) as u32,
            (base + 2 * i - 2) as u32,
            (base + 2 * i - 1) as u32,
        ]
    }
}

/// What one leaf appends to a mesh (nothing once the vertex guard is
/// reached).
pub open spec fn leaf_emit_s(l: Leaf, m: MeshModel, start: Vec3, dir: Vec3, up: Vec3) -> MeshModel {
    if m.verts.len() > VERT_GUARD as int {
        m
    } else {
        MeshModel {
            verts: m.verts + leaf_verts_upto(l, start, dir, up, 6),
            idxs: m.idxs + leaf_idxs_upto(m.verts.len() as int, 6),
        }
    }
}

/// Lengths of the emitted sequences: two vertices per cross-section
/// and six indices per interior cross-section.
pub proof fn lemma_leaf_lens(l: Leaf, start: Vec3, dir: Vec3, up: Vec3, base: int, n: int)
    ensures
        leaf_verts_upto(l, start, dir, up, n).len() == if n <= 0 { 0int } else { 2 * n },
        leaf_idxs_upto(base, n).len() == if n <= 1 { 0int } else { 6 * (n - 1) },
    decreases n,
{
    if n > 0 {
        lemma_leaf_lens(l, start, dir, up, base, n - 1);
    }
}

impl Leaf {
    /// Draw a fresh leaf, every field uniform in its construction
    /// range.
    pub fn new(rng: &mut rand::rngs::StdRng) -> (r: Leaf)
        ensures
            leaf_in_ranges(r),
            leaf_ok(r),
    {
        let length = word_to_range(next_word(rng), LEAF_DIM_LO, LEAF_DIM_HI);
        let width = word_to_range(next_word(rng), LEAF_DIM_LO, LEAF_DIM_HI);
        let bend = word_to_range(next_word(rng), 0, LEAF_BEND_HI);
        let bend_profile = word_to_range(next_word(rng), LEAF_PROFILE_LO, LEAF_PROFILE_HI);
        Leaf { length, width, bend, bend_profile }
    }

    /// Perturb every field by an independent offset drawn from a range
    /// proportional to `variance`; variance zero changes nothing.
    pub fn mutate(&mut self, rng: &mut rand::rngs::StdRng, variance: i64)
        requires
            leaf_ok(*old(self)),
            fx_ok(variance),
            variance >= 0,
        ensures
            leaf_ok(*final(self)),
            leaf_perturbed(*old(self), *final(self), variance as int),
            variance == 0 ==> *final(self) == *old(self),
    {
        let w1 = word_to_range(next_word(rng), -32768, 32768);
        self.length = fx_add(self.length, fx_mul(w1, variance));
        let w2 = word_to_range(next_word(rng), -32768, 32768);
        self.width = fx_add(self.width, fx_mul(w2, variance));
        let w3 = word_to_range(next_word(rng), -16384, 16384);
        self.bend = fx_add(self.bend, fx_mul(w3, variance));
        let w4 = word_to_range(next_word(rng), -16384, 16384);
        self.bend_profile = fx_add(self.bend_profile, fx_mul(w4, variance));
        proof {
            let v = variance as int;
            assert(perturbed_by(old(self).length as int, self.length as int, 32768, v)) by {
                assert(self.length == fx_add_s(
                    old(self).length as int,
                    fx_mul_s(w1 as int, v),
                ));
            };
            assert(perturbed_by(old(self).width as int, self.width as int, 32768, v)) by {
                assert(self.width == fx_add_s(old(self).width as int, fx_mul_s(w2 as int, v)));
            };
            assert(perturbed_by(old(self).bend as int, self.bend as int, 16384, v)) by {
                assert(self.bend == fx_add_s(old(self).bend as int, fx_mul_s(w3 as int, v)));
            };
            assert(perturbed_by(old(self).bend_profile as int, self.bend_profile as int, 16384, v))
                by {
                assert(self.bend_profile == fx_add_s(
                    old(self).bend_profile as int,
                    fx_mul_s(w4 as int, v),
                ));
            };
        }
    }

    /// Append the ribbon: six cross-sections of two vertices each,
    /// joined by two triangles per segment.
    #[verifier::rlimit(60)]
    pub fn generate(&self, mesh: &mut Mesh, start: Vec3, direction: Vec3, up: Vec3)
        requires
            leaf_ok(*self),
            v3_ok(start),
            v3_ok(direction),
            v3_ok(up),
            mesh_wf(old(mesh)@),
        ensures
            final(mesh)@ == leaf_emit_s(*self, old(mesh)@, start, direction, up),
            mesh_wf(final(mesh)@),
            old(mesh)@.verts.len() <= VERT_GUARD as int ==> final(mesh)@.verts.len() == old(
                mesh,
            )@.verts.len() + 12 && final(mesh)@.idxs.len() == old(mesh)@.idxs.len() + 30,
    {
        proof {
            lemma_leaf_lens(*self, start, direction, up, old(mesh)@.verts.len() as int, 6);
        }
        if mesh.vertices.len() > VERT_GUARD {
            return ;
        }
        let ghost m0 = mesh@;
        let ghost base = m0.verts.len() as int;
        let right = up.cross(direction).normalized();
        let upv = direction.cross(right).normalized();
        let mut i: usize = 0;
        while i <= 5
            invariant
                0 <= i <= 6,
                leaf_ok(*self),
                v3_ok(start),
                v3_ok(direction),
                v3_ok(up),
                right == leaf_right_s(direction, up),
                upv == leaf_up_s(direction, up),
                v3_ok(right),
                v3_ok(upv),
                mesh_wf(m0),
                base == m0.verts.len(),
                base <= VERT_GUARD as int,
                mesh@.verts == m0.verts + leaf_verts_upto(*self, start, direction, up, i as int),
                mesh@.idxs == m0.idxs + leaf_idxs_upto(base, i as int),
                mesh@.verts.len() == base + 2 * i,
                mesh_wf(mesh@),
            decreases 6 - i,
        {
            let x = fx_divn((i as i64) * 65536, 5);
            proof {
                assert((i as i64) * 65536 <= 327680);
                assert(0 <= div_trunc((i as int) * 65536, 5) <= 65536) by {
                    vstd::arithmetic::div_mod::lemma_div_is_ordered(
                        (i as int) * 65536,
                        327680,
                        5,
                    );
                    vstd::arithmetic::div_mod::lemma_div_pos_is_pos((i as int) * 65536, 5);
                };
            }
            let sinv = fx_sin(fx_mul(x, FX_PI));
            let halfw = fx_divn(fx_mul(sinv, self.width), 4);
            let droop = fx_mul(fx_pow(x, self.bend_profile), self.bend);
            let spine = start.plus(direction.scale(x).scale(self.length));
            let pos_a = spine.plus(right.scale(halfw)).minus(upv.scale(droop));
            let pos_b = spine.minus(right.scale(halfw)).minus(upv.scale(droop));
            proof {
                assert(x == leaf_x(i as int));
                assert(spine == leaf_spine_s(*self, start, direction, i as int));
                assert(halfw == leaf_halfw_s(*self, i as int));
                assert(droop == leaf_droop_s(*self, i as int));
                assert(pos_a == leaf_vert_a_s(*self, start, direction, up, i as int).position);
                assert(pos_b == leaf_vert_b_s(*self, start, direction, up, i as int).position);
            }
            mesh.push_vert(Vertex::at(pos_a));
            mesh.push_vert(Vertex::at(pos_b));
            proof {
                assert(mesh@.verts =~= m0.verts + leaf_verts_upto(
                    *self,
                    start,
                    direction,
                    up,
                    i as int + 1,
                ));
            }
            if i > 0 {
                let c = mesh.vertices.len();
                mesh.push_tri((c - 1) as u32, (c - 2) as u32, (c - 3) as u32);
                mesh.push_tri((c - 2) as u32, (c - 4) as u32, (c - 3) as u32);
                proof {
                    assert(mesh@.idxs =~= m0.idxs + leaf_idxs_upto(base, i as int + 1));
                }
            }
            i = i + 1;
        }
    }
}

/// One targeted edit of a single leaf field.
#[derive(Clone, Copy, Debug, PartialEq, Eq, Structural)]
pub enum LeafMessage {
    SetLength(i64),
    SetWidth(i64),
    SetBend(i64),
    SetBendProfile(i64),
}

/// The carried value is in the admitted range.
pub open spec fn leaf_msg_ok(m: LeafMessage) -> bool {
    match m {
        LeafMessage::SetLength(x) => fx_ok(x),
        LeafMessage::SetWidth(x) => fx_ok(x),
        LeafMessage::SetBend(x) => fx_ok(x),
        LeafMessage::SetBendProfile(x) => fx_ok(x),
    }
}

/// The leaf after applying one edit message.
pub open spec fn leaf_handled(m: LeafMessage, l: Leaf) -> Leaf {
    match m {
        LeafMessage::SetLength(x) => Leaf { length: x, ..l },
        LeafMessage::SetWidth(x) => Leaf { width: x, ..l },
        LeafMessage::SetBend(x) => Leaf { bend: x, ..l },
        LeafMessage::SetBendProfile(x) => Leaf { bend_profile: x, ..l },
    }
}

impl LeafMessage {
    /// Set the addressed field to the carried value.
    pub fn handle(self, leaf: &mut Leaf)
        requires
            leaf_ok(*old(leaf)),
            leaf_msg_ok(self),
        ensures
            *final(leaf) == leaf_handled(self, *old(leaf)),
            leaf_ok(*final(leaf)),
    {
        match self {
            LeafMessage::SetLength(x) => leaf.length = x,
            LeafMessage::SetWidth(x) => leaf.width = x,
            LeafMessage::SetBend(x) => leaf.bend = x,
            LeafMessage::SetBendProfile(x) => leaf.bend_profile = x,
        }
    }
}

} // verus!
