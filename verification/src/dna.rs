//! The plant DNA tree: a closed recursive sum over the gene variants,
//! with construction, mutation and the edit-message protocol.

use vstd::prelude::*;

use crate::branch::{
    branch_emit_s, branch_fields_in_ranges, branch_fields_ok, branch_perturbed, Branch,
    BranchMessage,
};
use crate::distribution::{
    dist_emit_s, dist_fields_in_ranges, dist_fields_ok, dist_perturbed, Distribution,
    DistributionMessage,
};
use crate::fixed::{fx_mul, fx_ok, FX_ONE};
use crate::leaf::{
    leaf_emit_s, leaf_handled, leaf_in_ranges, leaf_msg_ok, leaf_ok, leaf_perturbed, Leaf,
    LeafMessage,
};
use crate::mesh::{mesh_wf, Mesh, MeshModel};
use crate::random::{next_word, word_to_range};
use crate::vec3::{v3_ok, Vec3};

verus! {

/// Recursion budget for freshly drawn subtrees: construction stops
/// with a terminal gene once this many composite levels are nested.
pub const NEW_DEPTH: u32 = 8;

/// One plant described as a tree of generator genes.
#[derive(Debug, PartialEq)]
pub enum PlantDna {
    Leaf(Leaf),
    Branch(Branch),
    Distribution(Distribution),
    Empty,
}

/// The four gene variants, by name.
#[derive(Clone, Copy, Debug, PartialEq, Eq, Structural)]
pub enum GeneKind {
    Leaf,
    Branch,
    Distribution,
    Empty,
}

/// The variant a DNA node currently holds.
pub open spec fn kind_of(d: PlantDna) -> GeneKind {
    match d {
        PlantDna::Leaf(_) => GeneKind::Leaf,
        PlantDna::Branch(_) => GeneKind::Branch,
        PlantDna::Distribution(_) => GeneKind::Distribution,
        PlantDna::Empty => GeneKind::Empty,
    }
}

/// Every numeric field in the whole tree is in the admitted range and
/// every distribution keeps its cone bounds ordered.
pub open spec fn dna_ok(d: PlantDna) -> bool
    decreases d,
{
    match d {
        PlantDna::Leaf(l) => leaf_ok(l),
        PlantDna::Branch(b) => branch_fields_ok(b) && dna_ok(*b.end),
        PlantDna::Distribution(t) => dist_fields_ok(t) && dna_ok(*t.value),
        PlantDna::Empty => true,
    }
}

/// Every numeric field in the whole tree is inside its construction
/// range.
pub open spec fn dna_in_ranges(d: PlantDna) -> bool
    decreases d,
{
    match d {
        PlantDna::Leaf(l) => leaf_in_ranges(l),
        PlantDna::Branch(b) => branch_fields_in_ranges(b) && dna_in_ranges(*b.end),
        PlantDna::Distribution(t) => dist_fields_in_ranges(t) && dna_in_ranges(*t.value),
        PlantDna::Empty => true,
    }
}

impl PlantDna {
    /// Draw a fresh gene: one of the four variants uniformly at
    /// random, composite children drawn recursively until the depth
    /// budget runs out.
    pub fn new(rng: &mut rand::rngs::StdRng, depth: u32) -> (r: PlantDna)
        ensures
            dna_ok(r),
            dna_in_ranges(r),
        decreases depth, 0int,
    {
        if depth == 0 {
            return PlantDna::Empty;
        }
        let w = next_word(rng);
        let sel = w % 4;
        if sel == 0 {
            PlantDna::Leaf(Leaf::new(rng))
        } else if sel == 1 {
            PlantDna::Branch(Branch::new(rng, depth - 1))
        } else if sel == 2 {
            PlantDna::Distribution(Distribution::new(rng, depth - 1))
        } else {
            PlantDna::Empty
        }
    }

    /// Construct a fresh gene of the named variant.
    pub fn from_kind(kind: GeneKind, rng: &mut rand::rngs::StdRng) -> (r: PlantDna)
        ensures
            kind_of(r) == kind,
            dna_ok(r),
            dna_in_ranges(r),
    {
        match kind {
            GeneKind::Leaf => PlantDna::Leaf(Leaf::new(rng)),
            GeneKind::Branch => PlantDna::Branch(Branch::new(rng, NEW_DEPTH)),
            GeneKind::Distribution => PlantDna::Distribution(Distribution::new(rng, NEW_DEPTH)),
            GeneKind::Empty => PlantDna::Empty,
        }
    }

    /// The variant this node currently holds.
    pub fn kind(&self) -> (r: GeneKind)
        ensures
            r == kind_of(*self),
    {
        match self {
            PlantDna::Leaf(_) => GeneKind::Leaf,
            PlantDna::Branch(_) => GeneKind::Branch,
            PlantDna::Distribution(_) => GeneKind::Distribution,
            PlantDna::Empty => GeneKind::Empty,
        }
    }

    /// The name of the variant this node currently holds, as the
    /// editing layer displays it.
    pub fn variant_name(&self) -> (r: &'static str)
        ensures
            kind_of(*self) == GeneKind::Leaf ==> r@ == "Leaf"@,
            kind_of(*self) == GeneKind::Branch ==> r@ == "Branch"@,
            kind_of(*self) == GeneKind::Distribution ==> r@ == "Distribution"@,
            kind_of(*self) == GeneKind::Empty ==> r@ == "None"@,
    {
        match self {
            PlantDna::Leaf(_) => "Leaf",
            PlantDna::Branch(_) => "Branch",
            PlantDna::Distribution(_) => "Distribution",
            PlantDna::Empty => "None",
        }
    }

    /// A structurally equal copy of the whole tree.
    pub fn duplicate(&self) -> (r: PlantDna)
        ensures
            r == *self,
        decreases *self,
    {
        match self {
            PlantDna::Leaf(l) => PlantDna::Leaf(*l),
            PlantDna::Branch(b) => PlantDna::Branch(
                Branch {
                    length: b.length,
                    radius: b.radius,
                    bend: b.bend,
                    taper: b.taper,
                    end: Box::new(b.end.duplicate()),
                },
            ),
            PlantDna::Distribution(t) => PlantDna::Distribution(
                Distribution {
                    seed: t.seed,
                    amount: t.amount,
                    min_angle: t.min_angle,
                    max_angle: t.max_angle,
                    value: Box::new(t.value.duplicate()),
                },
            ),
            PlantDna::Empty => PlantDna::Empty,
        }
    }

    /// Perturb every numeric field in the tree by offsets proportional
    /// to `variance`.  With `allow_reroll`, each visited node is first
    /// given a `0.5 * variance` chance of being replaced by an
    /// entirely fresh random subtree.  Variance zero changes nothing
    /// under either policy.
    pub fn mutate(&mut self, rng: &mut rand::rngs::StdRng, variance: i64, allow_reroll: bool)
        requires
            dna_ok(*old(self)),
            fx_ok(variance),
            variance >= 0,
        ensures
            dna_ok(*final(self)),
            mutation_rel(*old(self), *final(self), variance as int, allow_reroll),
            variance == 0 ==> *final(self) == *old(self),
    {
        let mut tmp = PlantDna::Empty;
        core::mem::swap(self, &mut tmp);
        let out = tmp.mutated(rng, variance, allow_reroll);
        *self = out;
    }

    fn mutated(self, rng: &mut rand::rngs::StdRng, variance: i64, allow_reroll: bool) -> (r:
        PlantDna)
        requires
            dna_ok(self),
            fx_ok(variance),
            variance >= 0,
        ensures
            dna_ok(r),
            mutation_rel(self, r, variance as int, allow_reroll),
            variance == 0 ==> r == self,
        decreases self,
    {
        if allow_reroll {
            let u = word_to_range(next_word(rng), 0, FX_ONE);
            let threshold = fx_mul(variance, 32768);
            if u < threshold {
                return PlantDna::new(rng, NEW_DEPTH);
            }
        }
        match self {
            PlantDna::Leaf(mut l) => {
                l.mutate(rng, variance);
                PlantDna::Leaf(l)
            },
            PlantDna::Branch(mut b) => {
                b.mutate(rng, variance);
                let mut child = PlantDna::Empty;
                core::mem::swap(&mut *b.end, &mut child);
                let child = child.mutated(rng, variance, allow_reroll);
                *b.end = child;
                PlantDna::Branch(b)
            },
            PlantDna::Distribution(mut t) => {
                t.mutate(rng, variance);
                let mut child = PlantDna::Empty;
                core::mem::swap(&mut *t.value, &mut child);
                let child = child.mutated(rng, variance, allow_reroll);
                *t.value = child;
                PlantDna::Distribution(t)
            },
            PlantDna::Empty => PlantDna::Empty,
        }
    }
}

/// How a mutated tree relates to its parent: with the reroll policy a
/// node may be any fresh well-formed tree; otherwise the variant, the
/// tree shape and every distribution seed are kept, and each numeric
/// field moves by one variance-scaled offset.
pub open spec fn mutation_rel(d0: PlantDna, d1: PlantDna, v: int, reroll: bool) -> bool
    decreases d0,
{
    ||| (reroll && dna_ok(d1) && dna_in_ranges(d1))
    ||| (match (d0, d1) {
        (PlantDna::Leaf(l0), PlantDna::Leaf(l1)) => leaf_perturbed(l0, l1, v),
        (PlantDna::Branch(b0), PlantDna::Branch(b1)) => branch_perturbed(b0, b1, v)
            && mutation_rel(*b0.end, *b1.end, v, reroll),
        (PlantDna::Distribution(t0), PlantDna::Distribution(t1)) => dist_perturbed(t0, t1, v)
            && t1.seed == t0.seed && mutation_rel(*t0.value, *t1.value, v, reroll),
        (PlantDna::Empty, PlantDna::Empty) => true,
        _ => false,
    })
}

/// What one DNA node appends to a mesh, by variant; the terminal
/// gene appends nothing.
pub open spec fn plant_emit_s(d: PlantDna, m: MeshModel, start: Vec3, dir: Vec3, up: Vec3) -> MeshModel
    decreases d, 0int, 0int,
{
    match d {
        PlantDna::Leaf(l) => leaf_emit_s(l, m, start, dir, up),
        PlantDna::Branch(b) => branch_emit_s(b, m, start, dir, up),
        PlantDna::Distribution(t) => dist_emit_s(t, m, start, dir, up),
        PlantDna::Empty => m,
    }
}

impl Clone for PlantDna {
    /// A structurally equal copy of the whole tree.
    fn clone(&self) -> (r: PlantDna)
        ensures
            r == *self,
    {
        self.duplicate()
    }
}

impl PlantDna {
    /// Append this node's surface contribution, and recursively its
    /// children's, to the mesh.  The appended geometry is a function
    /// of the tree, the frame and the mesh so far alone, so
    /// re-rendering the same tree reproduces the same mesh; every
    /// emitted index stays below the vertex count.
    pub fn generate_mesh(&self, mesh: &mut Mesh, start: Vec3, direction: Vec3, up: Vec3)
        requires
            dna_ok(*self),
            v3_ok(start),
            v3_ok(direction),
            v3_ok(up),
            mesh_wf(old(mesh)@),
        ensures
            final(mesh)@ == plant_emit_s(*self, old(mesh)@, start, direction, up),
            mesh_wf(final(mesh)@),
        decreases *self, 0int,
    {
        match self {
            PlantDna::Leaf(l) => l.generate(mesh, start, direction, up),
            PlantDna::Branch(b) => b.generate(mesh, start, direction, up),
            PlantDna::Distribution(t) => t.generate(mesh, start, direction, up),
            PlantDna::Empty => {},
        }
    }
}

/// Mutated copies of one parent, as presented for selection.
pub fn plant_mutations(
    dna: &PlantDna,
    rng: &mut rand::rngs::StdRng,
    count: usize,
    variance: i64,
    allow_reroll: bool,
) -> (r: Vec<PlantDna>)
    requires
        dna_ok(*dna),
        fx_ok(variance),
        variance >= 0,
    ensures
        r@.len() == count,
        forall|i: int| 0 <= i < count ==> dna_ok(#[trigger] r@[i]),
        forall|i: int|
            0 <= i < count ==> mutation_rel(*dna, #[trigger] r@[i], variance as int, allow_reroll),
        variance == 0 ==> forall|i: int| 0 <= i < count ==> #[trigger] r@[i] == *dna,
{
    let mut out: Vec<PlantDna> = Vec::new();
    let mut k: usize = 0;
    while k < count
        invariant
            0 <= k <= count,
            out@.len() == k,
            dna_ok(*dna),
            fx_ok(variance),
            variance >= 0,
            forall|i: int| 0 <= i < k ==> dna_ok(#[trigger] out@[i]),
            forall|i: int|
                0 <= i < k ==> mutation_rel(*dna, #[trigger] out@[i], variance as int, allow_reroll),
            variance == 0 ==> forall|i: int| 0 <= i < k ==> #[trigger] out@[i] == *dna,
        decreases count - k,
    {
        let mut child = dna.duplicate();
        child.mutate(rng, variance, allow_reroll);
        out.push(child);
        k = k + 1;
    }
    out
}

/// One user edit aimed at a node of the tree: replace the variant, set
/// one numeric field, or forward deeper.
#[derive(Debug, PartialEq)]
pub enum PlantMessage {
    Base(GeneKind),
    Leaf(LeafMessage),
    Branch(BranchMessage),
    Distribution(DistributionMessage),
}

/// Every numeric value carried anywhere in the message is in the
/// admitted range.
pub open spec fn msg_ok(m: PlantMessage) -> bool
    decreases m,
{
    match m {
        PlantMessage::Base(_) => true,
        PlantMessage::Leaf(lm) => leaf_msg_ok(lm),
        PlantMessage::Branch(bm) => match bm {
            BranchMessage::SetLength(x) => fx_ok(x),
            BranchMessage::SetRadius(x) => fx_ok(x),
            BranchMessage::SetBend(x) => fx_ok(x),
            BranchMessage::SetTaper(x) => fx_ok(x),
            BranchMessage::ChangeEnd(pm) => msg_ok(*pm),
        },
        PlantMessage::Distribution(dm) => match dm {
            DistributionMessage::ChangeValue(pm) => msg_ok(*pm),
            DistributionMessage::SetAmount(x) => fx_ok(x),
            DistributionMessage::SetMinAngle(x) => fx_ok(x),
            DistributionMessage::SetMaxAngle(x) => fx_ok(x),
        },
    }
}

/// The message's shape matches the tree's current variants all along
/// its forwarding path.  Applying a message that does not match is a
/// caller bug, excluded by precondition.
pub open spec fn msg_matches(m: PlantMessage, d: PlantDna) -> bool
    decreases m,
{
    match m {
        PlantMessage::Base(_) => true,
        PlantMessage::Leaf(_) => d is Leaf,
        PlantMessage::Branch(bm) => match d {
            PlantDna::Branch(b) => match bm {
                BranchMessage::ChangeEnd(pm) => msg_matches(*pm, *b.end),
                _ => true,
            },
            _ => false,
        },
        PlantMessage::Distribution(dm) => match d {
            PlantDna::Distribution(t) => match dm {
                DistributionMessage::ChangeValue(pm) => msg_matches(*pm, *t.value),
                _ => true,
            },
            _ => false,
        },
    }
}

/// How the tree after one edit relates to the tree before it: exact
/// field updates along the forwarding path, and a fresh well-formed
/// gene of the named variant where the message replaces one.
pub open spec fn handled_rel(m: PlantMessage, d0: PlantDna, d1: PlantDna) -> bool
    decreases m,
{
    match m {
        PlantMessage::Base(k) => kind_of(d1) == k && dna_ok(d1) && dna_in_ranges(d1),
        PlantMessage::Leaf(lm) => match (d0, d1) {
            (PlantDna::Leaf(l0), PlantDna::Leaf(l1)) => l1 == leaf_handled(lm, l0),
            _ => false,
        },
        PlantMessage::Branch(bm) => match (d0, d1) {
            (PlantDna::Branch(b0), PlantDna::Branch(b1)) => match bm {
                BranchMessage::SetLength(x) => b1 == Branch { length: x, ..b0 },
                BranchMessage::SetRadius(x) => b1 == Branch { radius: x, ..b0 },
                BranchMessage::SetBend(x) => b1 == Branch { bend: x, ..b0 },
                BranchMessage::SetTaper(x) => b1 == Branch { taper: x, ..b0 },
                BranchMessage::ChangeEnd(pm) => b1.length == b0.length && b1.radius == b0.radius
                    && b1.bend == b0.bend && b1.taper == b0.taper && handled_rel(
                    *pm,
                    *b0.end,
                    *b1.end,
                ),
            },
            _ => false,
        },
        PlantMessage::Distribution(dm) => match (d0, d1) {
            (PlantDna::Distribution(t0), PlantDna::Distribution(t1)) => match dm {
                DistributionMessage::SetAmount(x) => t1 == Distribution { amount: x, ..t0 },
                DistributionMessage::SetMinAngle(x) => t1 == Distribution {
                    min_angle: x,
                    max_angle: if t0.max_angle >= x {
                        t0.max_angle
                    } else {
                        x
                    },
                    ..t0
                },
                DistributionMessage::SetMaxAngle(x) => t1 == Distribution {
                    max_angle: x,
                    min_angle: if t0.min_angle <= x {
                        t0.min_angle
                    } else {
                        x
                    },
                    ..t0
                },
                DistributionMessage::ChangeValue(pm) => t1.seed == t0.seed && t1.amount
                    == t0.amount && t1.min_angle == t0.min_angle && t1.max_angle == t0.max_angle
                    && handled_rel(*pm, *t0.value, *t1.value),
            },
            _ => false,
        },
    }
}

impl PlantMessage {
    /// Apply one edit to the tree.  The message must match the tree's
    /// shape; the random source serves where a fresh variant has to be
    /// synthesized.
    pub fn handle(self, rng: &mut rand::rngs::StdRng, plant: &mut PlantDna)
        requires
            msg_ok(self),
            msg_matches(self, *old(plant)),
            dna_ok(*old(plant)),
        ensures
            dna_ok(*final(plant)),
            handled_rel(self, *old(plant), *final(plant)),
        decreases self, 0int,
    {
        match self {
            PlantMessage::Base(kind) => {
                *plant = PlantDna::from_kind(kind, rng);
            },
            PlantMessage::Leaf(lm) => match plant {
                PlantDna::Leaf(l) => lm.handle(l),
                _ => {
                    proof {
                        assert(false);
                    }
                },
            },
            PlantMessage::Branch(bm) => match plant {
                PlantDna::Branch(b) => bm.handle(rng, b),
                _ => {
                    proof {
                        assert(false);
                    }
                },
            },
            PlantMessage::Distribution(dm) => match plant {
                PlantDna::Distribution(t) => dm.handle(rng, t),
                _ => {
                    proof {
                        assert(false);
                    }
                },
            },
        }
    }
}

impl BranchMessage {
    /// Apply one branch edit: set the addressed field or forward to
    /// the owned child.
    pub fn handle(self, rng: &mut rand::rngs::StdRng, branch: &mut Branch)
        requires
            msg_ok(PlantMessage::Branch(self)),
            msg_matches(PlantMessage::Branch(self), PlantDna::Branch(*old(branch))),
            dna_ok(PlantDna::Branch(*old(branch))),
        ensures
            dna_ok(PlantDna::Branch(*final(branch))),
            handled_rel(
                PlantMessage::Branch(self),
                PlantDna::Branch(*old(branch)),
                PlantDna::Branch(*final(branch)),
            ),
        decreases self, 1int,
    {
        match self {
            BranchMessage::SetLength(x) => branch.length = x,
            BranchMessage::SetRadius(x) => branch.radius = x,
            BranchMessage::SetBend(x) => branch.bend = x,
            BranchMessage::SetTaper(x) => branch.taper = x,
            BranchMessage::ChangeEnd(pm) => {
                let inner = *pm;
                inner.handle(rng, &mut *branch.end);
            },
        }
    }
}

impl DistributionMessage {
    /// Apply one distribution edit: set the addressed field (dragging
    /// the other cone bound along so `min <= max` keeps holding) or
    /// forward to the owned child.
    pub fn handle(self, rng: &mut rand::rngs::StdRng, dist: &mut Distribution)
        requires
            msg_ok(PlantMessage::Distribution(self)),
            msg_matches(PlantMessage::Distribution(self), PlantDna::Distribution(*old(dist))),
            dna_ok(PlantDna::Distribution(*old(dist))),
        ensures
            dna_ok(PlantDna::Distribution(*final(dist))),
            handled_rel(
                PlantMessage::Distribution(self),
                PlantDna::Distribution(*old(dist)),
                PlantDna::Distribution(*final(dist)),
            ),
        decreases self, 1int,
    {
        match self {
            DistributionMessage::SetAmount(x) => dist.amount = x,
            DistributionMessage::SetMinAngle(x) => {
                dist.min_angle = x;
                if dist.max_angle < x {
                    dist.max_angle = x;
                }
            },
            DistributionMessage::SetMaxAngle(x) => {
                dist.max_angle = x;
                if dist.min_angle > x {
                    dist.min_angle = x;
                }
            },
            DistributionMessage::ChangeValue(pm) => {
                let inner = *pm;
                inner.handle(rng, &mut *dist.value);
            },
        }
    }
}

} // verus!
