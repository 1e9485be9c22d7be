use vstd::prelude::*;
use crate::variants::{
    BodyTemplateId, Operand, OperatorFamily, VariantKey, family_of, variant_of,
};

verus! {

/// The one data-dependent failure of the generated operations: element-wise
/// addition and the dot product demand operands of equal length, and a
/// violation aborts the operation outright — no partial result, no retry.
#[derive(Clone, Copy, PartialEq, Eq, Structural, Debug)]
pub struct SizeMismatch;

/// Whether a mathematical integer fits the element type of the executable
/// reference semantics.
pub open spec fn in_i64(x: int) -> bool {
    i64::MIN <= x <= i64::MAX
}

/// Every element-wise sum of the two operands fits the element type.
pub open spec fn add_fits(l: Seq<i64>, r: Seq<i64>) -> bool {
    forall|i: int| 0 <= i < l.len() && i < r.len() ==> in_i64(l[i] + r[i])
}

/// The element-wise sum of two equally long sequences.
pub open spec fn seq_add(l: Seq<i64>, r: Seq<i64>) -> Seq<i64> {
    Seq::new(l.len(), |i: int| (l[i] + r[i]) as i64)
}

/// Every product of the scalar with an element fits the element type.
pub open spec fn scale_fits(k: i64, v: Seq<i64>) -> bool {
    forall|i: int| 0 <= i < v.len() ==> in_i64(k * v[i])
}

/// The sequence scaled by `k`, with the scalar on the left of each
/// element multiplication, matching the library's declared convention.
pub open spec fn seq_scale(k: i64, v: Seq<i64>) -> Seq<i64> {
    Seq::new(v.len(), |i: int| (k * v[i]) as i64)
}

/// The dot product of the first `k` index pairs, accumulated in ascending
/// index order from the additive identity.
pub open spec fn dot_prefix(l: Seq<i64>, r: Seq<i64>, k: int) -> int
    decreases k,
{
    if k <= 0 {
        0
    } else {
        dot_prefix(l, r, k - 1) + l[k - 1] * r[k - 1]
    }
}

/// The dot product of two equally long sequences.
pub open spec fn dot_full(l: Seq<i64>, r: Seq<i64>) -> int {
    dot_prefix(l, r, l.len() as int)
}

/// Every index-pair product and every ascending-order partial accumulator
/// value fits the element type.
pub open spec fn dot_fits(l: Seq<i64>, r: Seq<i64>) -> bool {
    &&& forall|i: int| 0 <= i < l.len() && i < r.len() ==> in_i64(l[i] * r[i])
    &&& forall|k: int| 0 <= k <= l.len() ==> in_i64(dot_prefix(l, r, k))
}

/// Body `AddNewOwned`: both operands are read-only; the result is a new
/// owned vector of the element-wise sums.  Fails with `SizeMismatch` exactly
/// when the operand lengths differ.
pub fn add_new_owned(left: &Vec<i64>, right: &Vec<i64>) -> (res: Result<Vec<i64>, SizeMismatch>)
    requires
        add_fits(left@, right@),
    ensures
        res is Ok <==> left@.len() == right@.len(),
        res matches Ok(v) ==> v@ == seq_add(left@, right@),
{
    if left.len() != right.len() {
        return Err(SizeMismatch);
    }
    let length = left.len();
    let mut params: Vec<i64> = Vec::with_capacity(length);
    for idx in 0..length
        invariant
            left@.len() == length,
            right@.len() == length,
            add_fits(left@, right@),
            params@.len() == idx,
            forall|j: int| 0 <= j < idx ==> params@[j] == left@[j] + right@[j],
    {
        params.push(left[idx] + right[idx]);
    }
    proof {
        assert(params@ =~= seq_add(left@, right@));
    }
    Ok(params)
}

/// Body `AddIntoLeft`: overwrites `left[i]` with `left[i] + right[i]` for
/// each index in ascending order; the right operand is never written, even
/// if the caller holds it mutably.  Fails with `SizeMismatch` exactly when
/// the operand lengths differ, in which case the left operand is untouched.
pub fn add_into_left(left: &mut Vec<i64>, right: &Vec<i64>) -> (res: Result<(), SizeMismatch>)
    requires
        add_fits(old(left)@, right@),
    ensures
        res is Ok <==> old(left)@.len() == right@.len(),
        res is Ok ==> final(left)@ == seq_add(old(left)@, right@),
        res is Err ==> final(left)@ == old(left)@,
{
    if left.len() != right.len() {
        return Err(SizeMismatch);
    }
    let length = left.len();
    for idx in 0..length
        invariant
            left@.len() == length,
            right@.len() == length,
            old(left)@.len() == length,
            add_fits(old(left)@, right@),
            forall|j: int| 0 <= j < idx ==> left@[j] == old(left)@[j] + right@[j],
            forall|j: int| idx <= j < length ==> left@[j] == old(left)@[j],
    {
        left[idx] = left[idx] + right[idx];
    }
    proof {
        assert(left@ =~= seq_add(old(left)@, right@));
    }
    Ok(())
}

/// Body `AddIntoRight`: overwrites `right[i]` with `left[i] + right[i]` for
/// each index, reading the left operand's original values throughout; the
/// left operand is never written.  Fails with `SizeMismatch` exactly when
/// the operand lengths differ, in which case the right operand is untouched.
pub fn add_into_right(left: &Vec<i64>, right: &mut Vec<i64>) -> (res: Result<(), SizeMismatch>)
    requires
        add_fits(left@, old(right)@),
    ensures
        res is Ok <==> left@.len() == old(right)@.len(),
        res is Ok ==> final(right)@ == seq_add(left@, old(right)@),
        res is Err ==> final(right)@ == old(right)@,
{
    if left.len() != right.len() {
        return Err(SizeMismatch);
    }
    let length = left.len();
    for idx in 0..length
        invariant
            left@.len() == length,
            right@.len() == length,
            old(right)@.len() == length,
            add_fits(left@, old(right)@),
            forall|j: int| 0 <= j < idx ==> right@[j] == left@[j] + old(right)@[j],
            forall|j: int| idx <= j < length ==> right@[j] == old(right)@[j],
    {
        right[idx] = left[idx] + right[idx];
    }
    proof {
        assert(right@ =~= seq_add(left@, old(right)@));
    }
    Ok(())
}

/// Body `DotAccumulate`: seeds an accumulator at the additive identity and
/// adds `left[i] * right[i]` for each index in ascending order.  Both
/// operands are read-only; the result is a plain scalar.  Fails with
/// `SizeMismatch` exactly when the operand lengths differ.
pub fn dot_product(left: &Vec<i64>, right: &Vec<i64>) -> (res: Result<i64, SizeMismatch>)
    requires
        dot_fits(left@, right@),
    ensures
        res is Ok <==> left@.len() == right@.len(),
        res matches Ok(p) ==> p == dot_full(left@, right@),
{
    if left.len() != right.len() {
        return Err(SizeMismatch);
    }
    let length = left.len();
    let mut product: i64 = 0;
    for idx in 0..length
        invariant
            left@.len() == length,
            right@.len() == length,
            dot_fits(left@, right@),
            product == dot_prefix(left@, right@, idx as int),
    {
        let term = left[idx] * right[idx];
        proof {
            assert(dot_prefix(left@, right@, idx + 1) == dot_prefix(left@, right@, idx as int)
                + left@[idx as int] * right@[idx as int]);
            assert(in_i64(dot_prefix(left@, right@, idx + 1)));
        }
        product = product + term;
    }
    Ok(product)
}

/// Body `ScalarMulNewOwned`: the vector operand is read-only; the result is
/// a new owned vector whose element `i` is `scalar * operand[i]`.  There is
/// no size precondition and no failure.
pub fn scalar_mul_new_owned(operand: &Vec<i64>, scalar: i64) -> (res: Vec<i64>)
    requires
        scale_fits(scalar, operand@),
    ensures
        res@ == seq_scale(scalar, operand@),
{
    let length = operand.len();
    let mut params: Vec<i64> = Vec::with_capacity(length);
    for idx in 0..length
        invariant
            operand@.len() == length,
            scale_fits(scalar, operand@),
            params@.len() == idx,
            forall|j: int| 0 <= j < idx ==> params@[j] == scalar * operand@[j],
    {
        params.push(scalar * operand[idx]);
    }
    proof {
        assert(params@ =~= seq_scale(scalar, operand@));
    }
    params
}

/// Body `ScalarMulInPlace`: overwrites each element with `scalar` times its
/// original value, reading each original value before the corresponding
/// write.  There is no size precondition and no failure.
pub fn scalar_mul_in_place(operand: &mut Vec<i64>, scalar: i64)
    requires
        scale_fits(scalar, old(operand)@),
    ensures
        final(operand)@ == seq_scale(scalar, old(operand)@),
{
    let length = operand.len();
    for idx in 0..length
        invariant
            operand@.len() == length,
            old(operand)@.len() == length,
            scale_fits(scalar, old(operand)@),
            forall|j: int| 0 <= j < idx ==> operand@[j] == scalar * old(operand)@[j],
            forall|j: int| idx <= j < length ==> operand@[j] == old(operand)@[j],
    {
        let original = operand[idx];
        operand[idx] = scalar * original;
    }
    proof {
        assert(operand@ =~= seq_scale(scalar, old(operand)@));
    }
}

/// The operand a body template actually writes, if any.
pub open spec fn body_mutation_target(t: BodyTemplateId) -> Option<Operand> {
    match t {
        BodyTemplateId::AddIntoLeft => Some(Operand::Left),
        BodyTemplateId::AddIntoRight => Some(Operand::Right),
        BodyTemplateId::ScalarMulInPlace => Some(Operand::Left),
        BodyTemplateId::AddNewOwned => None,
        BodyTemplateId::DotAccumulate => None,
        BodyTemplateId::ScalarMulNewOwned => None,
    }
}

/// Whether a body template demands operands of equal length.
pub open spec fn size_sensitive(t: BodyTemplateId) -> bool {
    match t {
        BodyTemplateId::AddNewOwned => true,
        BodyTemplateId::AddIntoLeft => true,
        BodyTemplateId::AddIntoRight => true,
        BodyTemplateId::DotAccumulate => true,
        BodyTemplateId::ScalarMulNewOwned => false,
        BodyTemplateId::ScalarMulInPlace => false,
    }
}

/// The arithmetic precondition a body template puts on its inputs: every
/// intermediate value it computes fits the element type.
pub open spec fn body_fits(t: BodyTemplateId, l: Seq<i64>, r: Seq<i64>, k: i64) -> bool {
    match t {
        BodyTemplateId::AddNewOwned => add_fits(l, r),
        BodyTemplateId::AddIntoLeft => add_fits(l, r),
        BodyTemplateId::AddIntoRight => add_fits(l, r),
        BodyTemplateId::DotAccumulate => dot_fits(l, r),
        BodyTemplateId::ScalarMulNewOwned => scale_fits(k, l),
        BodyTemplateId::ScalarMulInPlace => scale_fits(k, l),
    }
}

/// Law: for every table entry, the body template the entry selects writes
/// exactly the operand the entry declares as its mutation target.
pub proof fn lemma_body_matches_mutation_target(key: VariantKey)
    ensures
        body_mutation_target(variant_of(key).body_template) == variant_of(key).mutation_target,
{
}

/// What a body template's execution hands back.  Where an operand is
/// mutated in place, the mutated operand itself is the result, and the
/// output only records which one it was.
#[derive(Debug)]
pub enum OpOutput {
    NewVector(Vec<i64>),
    Scalar(i64),
    MutatedLeft,
    MutatedRight,
}

/// Executes one body template on concrete operands.  The vector operands
/// are taken mutably so that the contract can state, for every template,
/// which operand changes and which is left exactly as it was; the scalar is
/// ignored by the two-vector templates, and `right` by the scalar ones.
pub fn execute_body(t: BodyTemplateId, left: &mut Vec<i64>, right: &mut Vec<i64>, scalar: i64) -> (res:
    Result<OpOutput, SizeMismatch>)
    requires
        body_fits(t, old(left)@, old(right)@, scalar),
    ensures
        res is Ok <==> (!size_sensitive(t) || old(left)@.len() == old(right)@.len()),
        res is Err ==> final(left)@ == old(left)@ && final(right)@ == old(right)@,
        body_mutation_target(t) != Some(Operand::Left) ==> final(left)@ == old(left)@,
        body_mutation_target(t) != Some(Operand::Right) ==> final(right)@ == old(right)@,
        t == BodyTemplateId::AddNewOwned && res is Ok ==> (res->Ok_0 matches OpOutput::NewVector(v)
            && v@ == seq_add(old(left)@, old(right)@)),
        t == BodyTemplateId::AddIntoLeft && res is Ok ==> final(left)@ == seq_add(
            old(left)@,
            old(right)@,
        ) && res->Ok_0 is MutatedLeft,
        t == BodyTemplateId::AddIntoRight && res is Ok ==> final(right)@ == seq_add(
            old(left)@,
            old(right)@,
        ) && res->Ok_0 is MutatedRight,
        t == BodyTemplateId::DotAccumulate && res is Ok ==> (res->Ok_0 matches OpOutput::Scalar(p)
            && p == dot_full(old(left)@, old(right)@)),
        t == BodyTemplateId::ScalarMulNewOwned ==> (res->Ok_0 matches OpOutput::NewVector(v) && v@
            == seq_scale(scalar, old(left)@)),
        t == BodyTemplateId::ScalarMulInPlace ==> final(left)@ == seq_scale(scalar, old(left)@)
            && res->Ok_0 is MutatedLeft,
{
    match t {
        BodyTemplateId::AddNewOwned => match add_new_owned(left, right) {
            Ok(v) => Ok(OpOutput::NewVector(v)),
            Err(e) => Err(e),
        },
        BodyTemplateId::AddIntoLeft => match add_into_left(left, right) {
            Ok(()) => Ok(OpOutput::MutatedLeft),
            Err(e) => Err(e),
        },
        BodyTemplateId::AddIntoRight => match add_into_right(left, right) {
            Ok(()) => Ok(OpOutput::MutatedRight),
            Err(e) => Err(e),
        },
        BodyTemplateId::DotAccumulate => match dot_product(left, right) {
            Ok(p) => Ok(OpOutput::Scalar(p)),
            Err(e) => Err(e),
        },
        BodyTemplateId::ScalarMulNewOwned => Ok(OpOutput::NewVector(
            scalar_mul_new_owned(left, scalar),
        )),
        BodyTemplateId::ScalarMulInPlace => {
            scalar_mul_in_place(left, scalar);
            Ok(OpOutput::MutatedLeft)
        },
    }
}

/// Resolves a variant-table key and executes the selected body template on
/// concrete operands.  The contract carries, for every mode combination,
/// the exact values produced and the exact operands left untouched — in
/// particular, a dot product leaves both operands unchanged for every mode
/// pair, and a size-sensitive operation fails with `SizeMismatch` exactly
/// when the operand lengths differ.
pub fn execute_variant(key: VariantKey, left: &mut Vec<i64>, right: &mut Vec<i64>, scalar: i64) -> (res:
    Result<OpOutput, SizeMismatch>)
    requires
        body_fits(variant_of(key).body_template, old(left)@, old(right)@, scalar),
    ensures
        res is Ok <==> (!size_sensitive(variant_of(key).body_template) || old(left)@.len() == old(
            right,
        )@.len()),
        res is Err ==> final(left)@ == old(left)@ && final(right)@ == old(right)@,
        variant_of(key).mutation_target != Some(Operand::Left) ==> final(left)@ == old(left)@,
        variant_of(key).mutation_target != Some(Operand::Right) ==> final(right)@ == old(right)@,
        (key matches VariantKey::ElementwiseAdd(_, _)) && res is Ok ==> (match variant_of(
            key,
        ).mutation_target {
            Some(Operand::Left) => final(left)@ == seq_add(old(left)@, old(right)@)
                && res->Ok_0 is MutatedLeft,
            Some(Operand::Right) => final(right)@ == seq_add(old(left)@, old(right)@)
                && res->Ok_0 is MutatedRight,
            None => res->Ok_0 matches OpOutput::NewVector(v) && v@ == seq_add(
                old(left)@,
                old(right)@,
            ),
        }),
        (key matches VariantKey::DotProduct(_, _)) && res is Ok ==> (res->Ok_0 matches OpOutput::Scalar(p)
            && p == dot_full(old(left)@, old(right)@)),
        family_of(key) == OperatorFamily::DotProduct ==> final(left)@ == old(left)@
            && final(right)@ == old(right)@,
        (key matches VariantKey::ScalarMultiply(_)) ==> res is Ok,
        (key matches VariantKey::ScalarMultiply(_)) && variant_of(key).mutation_target is None ==> (
        res->Ok_0 matches OpOutput::NewVector(v) && v@ == seq_scale(scalar, old(left)@)),
        (key matches VariantKey::ScalarMultiply(_)) && variant_of(key).mutation_target == Some(
            Operand::Left,
        ) ==> final(left)@ == seq_scale(scalar, old(left)@) && res->Ok_0 is MutatedLeft,
{
    match crate::variants::select(key) {
        Ok(spec) => execute_body(spec.body_template, left, right, scalar),
        Err(_) => Err(SizeMismatch),
    }
}

} // verus!
