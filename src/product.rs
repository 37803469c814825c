//! The matrix product that a resolved plan stands for.
//!
//! A plan is lowered to a list of factors, multiplied left to right, and
//! optionally applied to a point. The order of the factors is the whole of
//! the composition convention: `compose(A, B)` is `B · A`, `rotate(A, wrt: B)`
//! is `B · A · B⁻¹`, and `to_frame(p, from: A, to: B)` is `B⁻¹ · A · p`.
use vstd::prelude::*;
use crate::expr::{
    found, is_known_tag, lemma_spelling_is_unique, operands, parse_command, reports_first_missing,
    resolve, resolves_to, spells, Command, ExprError, Plan,
};

verus! {

/// One factor of a product of homogeneous transforms.
#[derive(Debug, PartialEq, Eq)]
pub enum Factor {
    /// The frame at this index of the table.
    Frame(usize),
    /// The inverse of the frame at this index; may fail if it is singular.
    InverseFrame(usize),
    /// A rotation about Z by an angle in degrees, given as written.
    RotationZ(String),
}

/// A product of factors, left to right, applied to a point of the table if
/// `point` holds one, else standing for a frame.
#[derive(Debug, PartialEq, Eq)]
pub struct Product {
    pub factors: Vec<Factor>,
    pub point: Option<usize>,
}

/// The factors that a plan multiplies, left to right.
pub open spec fn factors_of(p: Plan) -> Seq<Factor> {
    match p {
        Plan::ApplyTransform { frame, .. } => seq![Factor::Frame(frame)],
        Plan::Compose { first, second } => seq![Factor::Frame(second), Factor::Frame(first)],
        Plan::ToFrame { from, to, .. } => seq![Factor::InverseFrame(to), Factor::Frame(from)],
        Plan::RotateWrt { frame, reference } => seq![
            Factor::Frame(reference),
            Factor::Frame(frame),
            Factor::InverseFrame(reference),
        ],
        Plan::RotateByWrt { frame, degrees, reference } => seq![
            Factor::Frame(reference),
            Factor::RotationZ(degrees),
            Factor::Frame(frame),
            Factor::InverseFrame(reference),
        ],
    }
}

/// The point that a plan applies its product to, if any.
pub open spec fn point_of(p: Plan) -> Option<usize> {
    match p {
        Plan::ApplyTransform { point, .. } => Some(point),
        Plan::ToFrame { point, .. } => Some(point),
        _ => None,
    }
}

/// The product that `plan` stands for.
pub fn lower(plan: &Plan) -> (r: Product)
    ensures
        r.factors@ == factors_of(*plan),
        r.point == point_of(*plan),
{
    let mut factors: Vec<Factor> = Vec::new();
    let point = match plan {
        Plan::ApplyTransform { frame, point } => {
            factors.push(Factor::Frame(*frame));
            Some(*point)
        },
        Plan::Compose { first, second } => {
            factors.push(Factor::Frame(*second));
            factors.push(Factor::Frame(*first));
            None
        },
        Plan::ToFrame { point, from, to } => {
            factors.push(Factor::InverseFrame(*to));
            factors.push(Factor::Frame(*from));
            Some(*point)
        },
        Plan::RotateWrt { frame, reference } => {
            factors.push(Factor::Frame(*reference));
            factors.push(Factor::Frame(*frame));
            factors.push(Factor::InverseFrame(*reference));
            None
        },
        Plan::RotateByWrt { frame, degrees, reference } => {
            factors.push(Factor::Frame(*reference));
            factors.push(Factor::RotationZ(degrees.clone()));
            factors.push(Factor::Frame(*frame));
            factors.push(Factor::InverseFrame(*reference));
            None
        },
    };
    proof {
        assert(factors@ =~= factors_of(*plan));
    }
    Product { factors, point }
}

/// Reads, resolves and lowers an expression: the tokens name an operation
/// and its operands, which are looked up in the tables of frame and point
/// names.
pub fn compile(tokens: &Vec<String>, frames: &Vec<String>, points: &Vec<String>) -> (r: Result<
    Product,
    ExprError,
>)
    ensures
        r is Ok <==> exists|c: Command|
            #![trigger spells(tokens@, c)]
            spells(tokens@, c) && forall|k: int|
                0 <= k < operands(c).len() ==> found(#[trigger] operands(c)[k], frames@, points@),
        match r {
            Ok(prod) => exists|c: Command, p: Plan|
                #![trigger spells(tokens@, c), resolves_to(c, frames@, points@, p)]
                spells(tokens@, c) && resolves_to(c, frames@, points@, p) && prod.factors@
                    == factors_of(p) && prod.point == point_of(p),
            Err(ExprError::Empty) => tokens@.len() == 0,
            Err(ExprError::InvalidOperationTag(t)) => {
                &&& tokens@.len() > 0
                &&& !is_known_tag(tokens@[0])
                &&& t@ == tokens@[0]@
            },
            Err(ExprError::Malformed) => {
                &&& tokens@.len() > 0
                &&& is_known_tag(tokens@[0])
                &&& forall|c: Command| !spells(tokens@, c)
            },
            Err(e) => exists|c: Command|
                #![trigger spells(tokens@, c)]
                spells(tokens@, c) && reports_first_missing(operands(c), frames@, points@, e),
        },
{
    let c = parse_command(tokens)?;
    match resolve(&c, frames, points) {
        Ok(p) => Ok(lower(&p)),
        Err(e) => {
            proof {
                assert forall|c2: Command| spells(tokens@, c2) implies !(forall|k: int|
                    0 <= k < operands(c2).len() ==> found(
                        #[trigger] operands(c2)[k],
                        frames@,
                        points@,
                    )) by {
                    lemma_spelling_is_unique(tokens@, c, c2);
                    let k = choose|k: int|
                        0 <= k < operands(c).len() && !found(
                            #[trigger] operands(c)[k],
                            frames@,
                            points@,
                        );
                    assert(!found(operands(c2)[k], frames@, points@));
                }
            }
            Err(e)
        },
    }
}

/// Adjacent factors `x · y` that multiply to the identity.
pub open spec fn cancels(x: Factor, y: Factor) -> bool {
    match (x, y) {
        (Factor::Frame(i), Factor::InverseFrame(j)) => i == j,
        (Factor::InverseFrame(i), Factor::Frame(j)) => i == j,
        _ => false,
    }
}

/// A product with each adjacent frame-and-inverse pair taken out, read left
/// to right.
pub open spec fn reduced(w: Seq<Factor>) -> Seq<Factor>
    decreases w.len(),
{
    if w.len() == 0 {
        seq![]
    } else {
        let r = reduced(w.drop_last());
        if r.len() > 0 && cancels(r.last(), w.last()) {
            r.drop_last()
        } else {
            r.push(w.last())
        }
    }
}

/// Composing two frames and applying the result to a point multiplies the
/// point by the first frame, then by the second: `compose(A, B)` applied to
/// `p` is `B` applied to `A` applied to `p`.
pub proof fn lemma_compose_then_apply(a: usize, b: usize, p: usize)
    ensures
        factors_of(Plan::Compose { first: a, second: b }) == factors_of(
            Plan::ApplyTransform { frame: b, point: p },
        ) + factors_of(Plan::ApplyTransform { frame: a, point: p }),
{
    assert(factors_of(Plan::Compose { first: a, second: b }) =~= factors_of(
        Plan::ApplyTransform { frame: b, point: p },
    ) + factors_of(Plan::ApplyTransform { frame: a, point: p }));
}

/// Conjugating a frame by itself leaves that frame: `T · T · T⁻¹` cancels
/// to `T`.
pub proof fn lemma_rotate_wrt_self(t: usize)
    ensures
        reduced(factors_of(Plan::RotateWrt { frame: t, reference: t })) == seq![Factor::Frame(t)],
{
    let w = factors_of(Plan::RotateWrt { frame: t, reference: t });
    assert(w.drop_last().drop_last().drop_last() =~= Seq::<Factor>::empty());
    assert(reduced(Seq::<Factor>::empty()) =~= Seq::<Factor>::empty());
    assert(w.drop_last().drop_last() =~= seq![Factor::Frame(t)]);
    assert(reduced(w.drop_last().drop_last()) =~= seq![Factor::Frame(t)]);
    assert(reduced(w.drop_last()) =~= seq![Factor::Frame(t), Factor::Frame(t)]);
    assert(reduced(w) =~= seq![Factor::Frame(t)]);
}

/// Conjugating `T` by `B` is composing `T` with `B`, with `B⁻¹` applied
/// first: `B · T · B⁻¹`.
pub proof fn lemma_rotate_wrt_is_conjugation(t: usize, b: usize)
    ensures
        factors_of(Plan::RotateWrt { frame: t, reference: b }) == factors_of(
            Plan::Compose { first: t, second: b },
        ).push(Factor::InverseFrame(b)),
{
    assert(factors_of(Plan::RotateWrt { frame: t, reference: b }) =~= factors_of(
        Plan::Compose { first: t, second: b },
    ).push(Factor::InverseFrame(b)));
}

/// Carrying a point from frame `A` to frame `B` and back again multiplies it
/// by a product that cancels to nothing: `A⁻¹ · B · B⁻¹ · A`.
pub proof fn lemma_to_frame_round_trip(a: usize, b: usize, p: usize, q: usize)
    ensures
        reduced(
            factors_of(Plan::ToFrame { point: q, from: b, to: a }) + factors_of(
                Plan::ToFrame { point: p, from: a, to: b },
            ),
        ) == Seq::<Factor>::empty(),
{
    let w = factors_of(Plan::ToFrame { point: q, from: b, to: a }) + factors_of(
        Plan::ToFrame { point: p, from: a, to: b },
    );
    let w1 = seq![Factor::InverseFrame(a)];
    let w2 = seq![Factor::InverseFrame(a), Factor::Frame(b)];
    let w3 = seq![Factor::InverseFrame(a), Factor::Frame(b), Factor::InverseFrame(b)];
    assert(w.drop_last() =~= w3);
    assert(w3.drop_last() =~= w2);
    assert(w2.drop_last() =~= w1);
    assert(w1.drop_last() =~= Seq::<Factor>::empty());
    assert(reduced(Seq::<Factor>::empty()) =~= Seq::<Factor>::empty());
    assert(reduced(w1) =~= w1);
    if a == b {
        assert(reduced(w2) =~= Seq::<Factor>::empty());
        assert(reduced(w3) =~= seq![Factor::InverseFrame(b)]);
    } else {
        assert(reduced(w2) =~= w2);
        assert(reduced(w3) =~= w1);
    }
    assert(reduced(w) =~= Seq::<Factor>::empty());
}

} // verus!
