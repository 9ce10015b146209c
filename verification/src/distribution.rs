//! The distribution gene: a reproducible scatter of one owned child
//! around a cone.

use vstd::prelude::*;

use crate::dna::{dna_ok, plant_emit_s, PlantDna};
use crate::fixed::{
    fx_add, fx_add_s, fx_cos, fx_cos_s, fx_mul, fx_mul_s, fx_ok, fx_sin, fx_sin_s, perturbed_by,
    FX_HALF_PI, FX_MAX, FX_TAU,
};
use crate::mesh::{mesh_wf, Mesh, MeshModel};
use crate::random::{next_word, seeded_words, word_range_s, word_stream, word_to_range};
use crate::vec3::{v3_add_s, v3_cross_s, v3_norm_s, v3_ok, v3_scale_s, Vec3};

verus! {

/// Lower construction bound of the scatter density (0.5).
pub const DIST_AMOUNT_LO: i64 = 32768;

/// Upper construction bound of the scatter density (5.0).
pub const DIST_AMOUNT_HI: i64 = 327680;

/// A composite gene: `round(amount^2)` copies of the owned child,
/// scattered around a cone by a random source seeded from the gene's
/// own fixed seed.
#[derive(Debug, PartialEq)]
pub struct Distribution {
    pub seed: u64,
    pub amount: i64,
    pub min_angle: i64,
    pub max_angle: i64,
    pub value: Box<PlantDna>,
}

/// All numeric fields are in the admitted fixed-point range and the
/// cone bounds are ordered.
pub open spec fn dist_fields_ok(d: Distribution) -> bool {
    fx_ok(d.amount) && fx_ok(d.min_angle) && fx_ok(d.max_angle) && d.min_angle <= d.max_angle
}

/// The cone bounds of `t1` are `t0`'s each moved by one
/// variance-scaled offset and then sorted back into `min <= max`.
pub open spec fn dist_angles_perturbed(t0: Distribution, t1: Distribution, v: int) -> bool {
    exists|a: int, b: int|
        #![trigger perturbed_by(t0.min_angle as int, a, 32768, v), perturbed_by(t0.max_angle as int, b, 32768, v)]
        perturbed_by(t0.min_angle as int, a, 32768, v) && perturbed_by(
            t0.max_angle as int,
            b,
            32768,
            v,
        ) && if a <= b {
            t1.min_angle == a && t1.max_angle == b
        } else {
            t1.min_angle == b && t1.max_angle == a
        }
}

/// The density and cone bounds of `t1` are `t0`'s each moved by one
/// variance-scaled offset (bounds re-sorted).
pub open spec fn dist_perturbed(t0: Distribution, t1: Distribution, v: int) -> bool {
    perturbed_by(t0.amount as int, t1.amount as int, 32768, v) && dist_angles_perturbed(t0, t1, v)
}

/// All numeric fields are inside their construction ranges.
pub open spec fn dist_fields_in_ranges(d: Distribution) -> bool {
    &&& DIST_AMOUNT_LO <= d.amount < DIST_AMOUNT_HI
    &&& -FX_HALF_PI <= d.min_angle <= d.max_angle < FX_HALF_PI
}

impl Distribution {
    /// Draw a fresh distribution: two angles sorted into
    /// `min <= max`, a density, its own fixed seed, and a recursively
    /// constructed child of the given remaining depth.
    pub fn new(rng: &mut rand::rngs::StdRng, depth: u32) -> (r: Distribution)
        ensures
            dist_fields_in_ranges(r),
            dist_fields_ok(r),
            crate::dna::dna_ok(*r.value),
            crate::dna::dna_in_ranges(*r.value),
        decreases depth, 1int,
    {
        let a1 = word_to_range(next_word(rng), -FX_HALF_PI, FX_HALF_PI);
        let a2 = word_to_range(next_word(rng), -FX_HALF_PI, FX_HALF_PI);
        let min_angle = if a1 <= a2 { a1 } else { a2 };
        let max_angle = if a1 <= a2 { a2 } else { a1 };
        let seed = next_word(rng);
        let amount = word_to_range(next_word(rng), DIST_AMOUNT_LO, DIST_AMOUNT_HI);
        let value = Box::new(PlantDna::new(rng, depth));
        Distribution { seed, amount, min_angle, max_angle, value }
    }

    /// Perturb density and cone bounds by independent offsets drawn
    /// from ranges proportional to `variance`, then restore
    /// `min <= max` by swapping if violated; variance zero changes no
    /// field.  The seed is never perturbed; the owned child is
    /// perturbed by the tree-level mutation.
    pub fn mutate(&mut self, rng: &mut rand::rngs::StdRng, variance: i64)
        requires
            dist_fields_ok(*old(self)),
            fx_ok(variance),
            variance >= 0,
        ensures
            dist_fields_ok(*final(self)),
            dist_perturbed(*old(self), *final(self), variance as int),
            final(self).value == old(self).value,
            final(self).seed == old(self).seed,
            variance == 0 ==> *final(self) == *old(self),
    {
        let w1 = word_to_range(next_word(rng), -32768, 32768);
        self.amount = fx_add(self.amount, fx_mul(w1, variance));
        let w2 = word_to_range(next_word(rng), -32768, 32768);
        self.min_angle = fx_add(self.min_angle, fx_mul(w2, variance));
        let w3 = word_to_range(next_word(rng), -32768, 32768);
        self.max_angle = fx_add(self.max_angle, fx_mul(w3, variance));
        let ghost pre_min = self.min_angle as int;
        let ghost pre_max = self.max_angle as int;
        if self.min_angle > self.max_angle {
            let t = self.min_angle;
            self.min_angle = self.max_angle;
            self.max_angle = t;
        }
        proof {
            let v = variance as int;
            assert(perturbed_by(old(self).amount as int, self.amount as int, 32768, v)) by {
                assert(self.amount == fx_add_s(
                    old(self).amount as int,
                    fx_mul_s(w1 as int, v),
                ));
            };
            assert(perturbed_by(old(self).min_angle as int, pre_min, 32768, v)) by {
                assert(pre_min == fx_add_s(old(self).min_angle as int, fx_mul_s(w2 as int, v)));
            };
            assert(perturbed_by(old(self).max_angle as int, pre_max, 32768, v)) by {
                assert(pre_max == fx_add_s(old(self).max_angle as int, fx_mul_s(w3 as int, v)));
            };
            assert(dist_angles_perturbed(*old(self), *self, v));
        }
    }
}

/// The scatter's sideways axis.
pub open spec fn dist_right_s(dir: Vec3, up: Vec3) -> Vec3 {
    v3_norm_s(v3_cross_s(up, dir))
}

/// The scatter's local up axis.
pub open spec fn dist_up_s(dir: Vec3, up: Vec3) -> Vec3 {
    v3_norm_s(v3_cross_s(dir, dist_right_s(dir, up)))
}

/// Number of scattered instances: `round(amount^2)`.
pub open spec fn dist_count_s(amount: int) -> int {
    (amount * amount + 2147483648) / 4294967296
}

/// Words drawn per instance: the azimuth word, plus an elevation word
/// unless the cone bounds coincide.
pub open spec fn dist_wpi_s(d: Distribution) -> int {
    if d.min_angle == d.max_angle {
        1int
    } else {
        2int
    }
}

/// The child direction of instance `k`, composed from the drawn
/// azimuth and elevation.
pub open spec fn dist_dir_s(d: Distribution, dir: Vec3, up2: Vec3, right: Vec3, k: int) -> Vec3 {
    let words = word_stream(d.seed, dist_count_s(d.amount as int) * dist_wpi_s(d));
    let az = word_range_s(words[k * dist_wpi_s(d)], 0, FX_TAU as int);
    let elev = if d.min_angle == d.max_angle {
        d.min_angle as int
    } else {
        word_range_s(words[k * dist_wpi_s(d) + 1], d.min_angle as int, d.max_angle as int)
    };
    let sinh = fx_sin_s(elev);
    let cosh = fx_cos_s(elev);
    let sa = fx_sin_s(az);
    let ca = fx_cos_s(az);
    v3_norm_s(
        v3_add_s(
            v3_add_s(
                v3_scale_s(dir, sinh),
                v3_scale_s(v3_scale_s(up2, ca), cosh),
            ),
            v3_scale_s(v3_scale_s(right, sa), cosh),
        ),
    )
}

/// The mesh after the first `k` instances of the scatter.
pub open spec fn dist_scatter_upto(
    d: Distribution,
    m: MeshModel,
    start: Vec3,
    dir: Vec3,
    up: Vec3,
    k: int,
) -> MeshModel
    decreases d, 1int, k,
{
    if k <= 0 {
        m
    } else {
        let prev = dist_scatter_upto(d, m, start, dir, up, k - 1);
        plant_emit_s(
            *d.value,
            prev,
            start,
            dist_dir_s(d, dir, dist_up_s(dir, up), dist_right_s(dir, up), k - 1),
            up,
        )
    }
}

/// What one distribution appends to a mesh: `round(amount^2)` copies
/// of its child, each from the same start along a direction drawn from
/// the gene's own seeded source; nothing when the density is zero.
pub open spec fn dist_emit_s(d: Distribution, m: MeshModel, start: Vec3, dir: Vec3, up: Vec3) -> MeshModel
    decreases d, 2int, 0int,
{
    if d.amount == 0 {
        m
    } else {
        dist_scatter_upto(d, m, start, dir, up, dist_count_s(d.amount as int))
    }
}

/// The scatter reads nothing but the gene's own fields, the frame and
/// the mesh so far: field-equal distributions append identical
/// geometry, whatever else has happened around them (seed isolation).
pub proof fn lemma_scatter_reproducible(
    d1: Distribution,
    d2: Distribution,
    m: MeshModel,
    start: Vec3,
    dir: Vec3,
    up: Vec3,
)
    requires
        d1.seed == d2.seed,
        d1.amount == d2.amount,
        d1.min_angle == d2.min_angle,
        d1.max_angle == d2.max_angle,
        *d1.value == *d2.value,
    ensures
        dist_emit_s(d1, m, start, dir, up) == dist_emit_s(d2, m, start, dir, up),
{
    if d1.amount != 0 {
        lemma_scatter_upto_reproducible(
            d1,
            d2,
            m,
            start,
            dir,
            up,
            dist_count_s(d1.amount as int),
        );
    }
}

proof fn lemma_scatter_upto_reproducible(
    d1: Distribution,
    d2: Distribution,
    m: MeshModel,
    start: Vec3,
    dir: Vec3,
    up: Vec3,
    k: int,
)
    requires
        d1.seed == d2.seed,
        d1.amount == d2.amount,
        d1.min_angle == d2.min_angle,
        d1.max_angle == d2.max_angle,
        *d1.value == *d2.value,
    ensures
        dist_scatter_upto(d1, m, start, dir, up, k) == dist_scatter_upto(d2, m, start, dir, up, k),
    decreases k,
{
    if k > 0 {
        lemma_scatter_upto_reproducible(d1, d2, m, start, dir, up, k - 1);
        assert(dist_dir_s(d1, dir, dist_up_s(dir, up), dist_right_s(dir, up), k - 1) == dist_dir_s(
            d2,
            dir,
            dist_up_s(dir, up),
            dist_right_s(dir, up),
            k - 1,
        ));
    }
}

impl Distribution {
    /// Append the scatter: `round(amount^2)` copies of the child, each
    /// generated from `start` along a direction drawn from a source
    /// seeded with the gene's own fixed seed, so re-rendering the same
    /// gene reproduces the same geometry.
    #[verifier::rlimit(100)]
    pub fn generate(&self, mesh: &mut Mesh, start: Vec3, direction: Vec3, real_up: Vec3)
        requires
            dist_fields_ok(*self),
            dna_ok(*self.value),
            v3_ok(start),
            v3_ok(direction),
            v3_ok(real_up),
            mesh_wf(old(mesh)@),
        ensures
            final(mesh)@ == dist_emit_s(*self, old(mesh)@, start, direction, real_up),
            mesh_wf(final(mesh)@),
        decreases *self, 1int,
    {
        if self.amount == 0 {
            return ;
        }
        let ghost m0 = mesh@;
        let right = real_up.cross(direction).normalized();
        let up2 = direction.cross(right).normalized();
        let ua: u64 = if self.amount < 0 {
            (-self.amount) as u64
        } else {
            self.amount as u64
        };
        proof {
            assert((ua as int) * (ua as int) == (self.amount as int) * (self.amount as int)
                && (ua as int) * (ua as int) <= (FX_MAX as int) * (FX_MAX as int))
                by (nonlinear_arith)
                requires
                    ua == vstd::math::abs(self.amount as int),
                    -FX_MAX <= self.amount <= FX_MAX,
            ;
        }
        let sq: u64 = ua * ua;
        let n64: u64 = (sq + 2147483648) / 4294967296;
        proof {
            vstd::arithmetic::div_mod::lemma_div_is_ordered(
                sq as int + 2147483648,
                0x4000000000000000,
                4294967296,
            );
        }
        let n: usize = n64 as usize;
        let count_words: usize = if self.min_angle == self.max_angle {
            n
        } else {
            2 * n
        };
        let words = seeded_words(self.seed, count_words);
        let ghost wpi = dist_wpi_s(*self);
        let mut k: usize = 0;
        while k < n
            invariant
                0 <= k <= n,
                n == dist_count_s(self.amount as int),
                self.amount != 0,
                dist_fields_ok(*self),
                dna_ok(*self.value),
                v3_ok(start),
                v3_ok(direction),
                v3_ok(real_up),
                v3_ok(right),
                v3_ok(up2),
                right == dist_right_s(direction, real_up),
                up2 == dist_up_s(direction, real_up),
                wpi == dist_wpi_s(*self),
                count_words == n * wpi,
                words@ == word_stream(self.seed, n as int * wpi),
                words@.len() == count_words,
                mesh_wf(m0),
                mesh@ == dist_scatter_upto(*self, m0, start, direction, real_up, k as int),
                mesh_wf(mesh@),
            decreases n - k,
        {
            let az_word = if self.min_angle == self.max_angle {
                words[k]
            } else {
                words[2 * k]
            };
            let az = word_to_range(az_word, 0, FX_TAU);
            let elev = if self.min_angle == self.max_angle {
                self.min_angle
            } else {
                word_to_range(words[2 * k + 1], self.min_angle, self.max_angle)
            };
            let sinh = fx_sin(elev);
            let cosh = fx_cos(elev);
            let sa = fx_sin(az);
            let ca = fx_cos(az);
            let d = direction.scale(sinh).plus(up2.scale(ca).scale(cosh)).plus(
                right.scale(sa).scale(cosh),
            );
            let nd = d.normalized();
            proof {
                assert(nd == dist_dir_s(*self, direction, up2, right, k as int));
            }
            self.value.generate_mesh(mesh, start, nd, real_up);
            k = k + 1;
            proof {
                assert(mesh@ == dist_scatter_upto(
                    *self,
                    m0,
                    start,
                    direction,
                    real_up,
                    k as int,
                ));
            }
        }
    }
}

/// One targeted edit of a distribution: set a field or forward to the
/// child.  Setting one cone bound drags the other along so that
/// `min <= max` keeps holding.
#[derive(Debug, PartialEq)]
pub enum DistributionMessage {
    ChangeValue(Box<crate::dna::PlantMessage>),
    SetAmount(i64),
    SetMinAngle(i64),
    SetMaxAngle(i64),
}

} // verus!
