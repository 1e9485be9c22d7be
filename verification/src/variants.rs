use vstd::prelude::*;
use crate::modes::OperandMode;

verus! {

/// The three operator families the generator covers.
#[derive(Clone, Copy, PartialEq, Eq, Structural, Debug)]
pub enum OperatorFamily {
    ElementwiseAdd,
    DotProduct,
    ScalarMultiply,
}

/// One of the two vector operands of a binary operation.
#[derive(Clone, Copy, PartialEq, Eq, Structural, Debug)]
pub enum Operand {
    Left,
    Right,
}

/// Who owns the value a generated operation hands back.
#[derive(Clone, Copy, PartialEq, Eq, Structural, Debug)]
pub enum ResultOwnership {
    NewOwnedVector,
    MutatedLeftRef,
    MutatedRightRef,
    ScalarValue,
}

/// Which implementation body a variant uses.
#[derive(Clone, Copy, PartialEq, Eq, Structural, Debug)]
pub enum BodyTemplateId {
    AddNewOwned,
    AddIntoLeft,
    AddIntoRight,
    DotAccumulate,
    ScalarMulNewOwned,
    ScalarMulInPlace,
}

/// Which documentation fragment a variant uses.  Documentation varies with
/// the exact mode combination, so the id carries the modes themselves.
#[derive(Clone, Copy, PartialEq, Eq, Structural, Debug)]
pub enum DocTemplateId {
    AddDoc(OperandMode, OperandMode),
    DotDoc(OperandMode, OperandMode),
    ScalarMulDoc(OperandMode),
}

/// A key of the variant table: the operator family together with the operand
/// modes it is specialized for.  Scalar multiplication has a mode only for
/// its vector (left) operand; its scalar operand is always passed by value.
#[derive(Clone, Copy, PartialEq, Eq, Structural, Debug)]
pub enum VariantKey {
    ElementwiseAdd(OperandMode, OperandMode),
    DotProduct(OperandMode, OperandMode),
    ScalarMultiply(OperandMode),
}

/// One concrete implementation strategy: which operand (if any) is mutated
/// in place, who owns the result, and which body and documentation templates
/// to instantiate.
#[derive(Clone, Copy, PartialEq, Eq, Structural, Debug)]
pub struct VariantSpec {
    pub mutation_target: Option<Operand>,
    pub result_ownership: ResultOwnership,
    pub body_template: BodyTemplateId,
    pub doc_template: DocTemplateId,
}

/// The family a key belongs to.
pub open spec fn family_of(key: VariantKey) -> OperatorFamily {
    match key {
        VariantKey::ElementwiseAdd(_, _) => OperatorFamily::ElementwiseAdd,
        VariantKey::DotProduct(_, _) => OperatorFamily::DotProduct,
        VariantKey::ScalarMultiply(_) => OperatorFamily::ScalarMultiply,
    }
}

/// Mutation-target resolution for element-wise addition: a mutably borrowed
/// left operand always wins; otherwise a mutably borrowed right operand is
/// the target; otherwise nothing is mutated.  The precedence is asymmetric
/// by design: even when both operands are mutably borrowed, the left one is
/// the target and the right one is read-only.
pub open spec fn add_mutation_target(l: OperandMode, r: OperandMode) -> Option<Operand> {
    if l is MutBorrowed {
        Some(Operand::Left)
    } else if r is MutBorrowed {
        Some(Operand::Right)
    } else {
        None
    }
}

/// The table entry for an element-wise addition mode pair.
pub open spec fn add_variant(l: OperandMode, r: OperandMode) -> VariantSpec {
    VariantSpec {
        mutation_target: add_mutation_target(l, r),
        result_ownership: match add_mutation_target(l, r) {
            Some(Operand::Left) => ResultOwnership::MutatedLeftRef,
            Some(Operand::Right) => ResultOwnership::MutatedRightRef,
            None => ResultOwnership::NewOwnedVector,
        },
        body_template: match add_mutation_target(l, r) {
            Some(Operand::Left) => BodyTemplateId::AddIntoLeft,
            Some(Operand::Right) => BodyTemplateId::AddIntoRight,
            None => BodyTemplateId::AddNewOwned,
        },
        doc_template: DocTemplateId::AddDoc(l, r),
    }
}

/// The table entry for a dot-product mode pair.  The dot product never
/// mutates an operand, whatever the modes; the modes only select which
/// documentation fragment accompanies the one implementation body.
pub open spec fn dot_variant(l: OperandMode, r: OperandMode) -> VariantSpec {
    VariantSpec {
        mutation_target: None,
        result_ownership: ResultOwnership::ScalarValue,
        body_template: BodyTemplateId::DotAccumulate,
        doc_template: DocTemplateId::DotDoc(l, r),
    }
}

/// The table entry for a scalar-multiplication mode: the vector operand is
/// mutated in place exactly when it is mutably borrowed.
pub open spec fn scalar_mul_variant(l: OperandMode) -> VariantSpec {
    VariantSpec {
        mutation_target: if l is MutBorrowed {
            Some(Operand::Left)
        } else {
            None
        },
        result_ownership: if l is MutBorrowed {
            ResultOwnership::MutatedLeftRef
        } else {
            ResultOwnership::NewOwnedVector
        },
        body_template: if l is MutBorrowed {
            BodyTemplateId::ScalarMulInPlace
        } else {
            BodyTemplateId::ScalarMulNewOwned
        },
        doc_template: DocTemplateId::ScalarMulDoc(l),
    }
}

/// The variant table as a total mapping: every legal key has an entry.
pub open spec fn variant_of(key: VariantKey) -> VariantSpec {
    match key {
        VariantKey::ElementwiseAdd(l, r) => add_variant(l, r),
        VariantKey::DotProduct(l, r) => dot_variant(l, r),
        VariantKey::ScalarMultiply(l) => scalar_mul_variant(l),
    }
}

/// A request for a combination outside the variant table's domain.  The
/// table is total over the enumerated key space, so the selector never
/// actually produces this; it exists as an explicit defensive signal rather
/// than a silent fallback.
#[derive(Clone, Copy, PartialEq, Eq, Structural, Debug)]
pub enum GenError {
    UnsupportedCombination,
}

/// Looks a key up in the variant table.  The table is written as one
/// exhaustive match over the nine mode pairs of each two-operand family and
/// the three modes of scalar multiplication, so totality is checked
/// mechanically: the result is `Ok` for every key, never
/// `UnsupportedCombination`.
pub fn select(key: VariantKey) -> (r: Result<VariantSpec, GenError>)
    ensures
        r == Result::<VariantSpec, GenError>::Ok(variant_of(key)),
{
    match key {
        VariantKey::ElementwiseAdd(l, r) => Ok(match (l, r) {
            (OperandMode::MutBorrowed, OperandMode::MutBorrowed) => VariantSpec {
                mutation_target: Some(Operand::Left),
                result_ownership: ResultOwnership::MutatedLeftRef,
                body_template: BodyTemplateId::AddIntoLeft,
                doc_template: DocTemplateId::AddDoc(l, r),
            },
            (OperandMode::MutBorrowed, OperandMode::Borrowed) => VariantSpec {
                mutation_target: Some(Operand::Left),
                result_ownership: ResultOwnership::MutatedLeftRef,
                body_template: BodyTemplateId::AddIntoLeft,
                doc_template: DocTemplateId::AddDoc(l, r),
            },
            (OperandMode::MutBorrowed, OperandMode::Owned) => VariantSpec {
                mutation_target: Some(Operand::Left),
                result_ownership: ResultOwnership::MutatedLeftRef,
                body_template: BodyTemplateId::AddIntoLeft,
                doc_template: DocTemplateId::AddDoc(l, r),
            },
            (OperandMode::Borrowed, OperandMode::MutBorrowed) => VariantSpec {
                mutation_target: Some(Operand::Right),
                result_ownership: ResultOwnership::MutatedRightRef,
                body_template: BodyTemplateId::AddIntoRight,
                doc_template: DocTemplateId::AddDoc(l, r),
            },
            (OperandMode::Owned, OperandMode::MutBorrowed) => VariantSpec {
                mutation_target: Some(Operand::Right),
                result_ownership: ResultOwnership::MutatedRightRef,
                body_template: BodyTemplateId::AddIntoRight,
                doc_template: DocTemplateId::AddDoc(l, r),
            },
            (OperandMode::Borrowed, OperandMode::Borrowed) => VariantSpec {
                mutation_target: None,
                result_ownership: ResultOwnership::NewOwnedVector,
                body_template: BodyTemplateId::AddNewOwned,
                doc_template: DocTemplateId::AddDoc(l, r),
            },
            (OperandMode::Borrowed, OperandMode::Owned) => VariantSpec {
                mutation_target: None,
                result_ownership: ResultOwnership::NewOwnedVector,
                body_template: BodyTemplateId::AddNewOwned,
                doc_template: DocTemplateId::AddDoc(l, r),
            },
            (OperandMode::Owned, OperandMode::Borrowed) => VariantSpec {
                mutation_target: None,
                result_ownership: ResultOwnership::NewOwnedVector,
                body_template: BodyTemplateId::AddNewOwned,
                doc_template: DocTemplateId::AddDoc(l, r),
            },
            (OperandMode::Owned, OperandMode::Owned) => VariantSpec {
                mutation_target: None,
                result_ownership: ResultOwnership::NewOwnedVector,
                body_template: BodyTemplateId::AddNewOwned,
                doc_template: DocTemplateId::AddDoc(l, r),
            },
        }),
        VariantKey::DotProduct(l, r) => Ok(VariantSpec {
            mutation_target: None,
            result_ownership: ResultOwnership::ScalarValue,
            body_template: BodyTemplateId::DotAccumulate,
            doc_template: DocTemplateId::DotDoc(l, r),
        }),
        VariantKey::ScalarMultiply(l) => Ok(match l {
            OperandMode::MutBorrowed => VariantSpec {
                mutation_target: Some(Operand::Left),
                result_ownership: ResultOwnership::MutatedLeftRef,
                body_template: BodyTemplateId::ScalarMulInPlace,
                doc_template: DocTemplateId::ScalarMulDoc(l),
            },
            OperandMode::Borrowed => VariantSpec {
                mutation_target: None,
                result_ownership: ResultOwnership::NewOwnedVector,
                body_template: BodyTemplateId::ScalarMulNewOwned,
                doc_template: DocTemplateId::ScalarMulDoc(l),
            },
            OperandMode::Owned => VariantSpec {
                mutation_target: None,
                result_ownership: ResultOwnership::NewOwnedVector,
                body_template: BodyTemplateId::ScalarMulNewOwned,
                doc_template: DocTemplateId::ScalarMulDoc(l),
            },
        }),
    }
}

/// Law: the left operand wins the mutation target whenever it is mutably
/// borrowed, whatever the right operand's mode is — in particular when the
/// right operand is itself mutably borrowed.  The precedence is asymmetric
/// on purpose; the resolved target is never the right operand in this case.
pub proof fn lemma_add_mutation_precedence(r: OperandMode)
    ensures
        variant_of(VariantKey::ElementwiseAdd(OperandMode::MutBorrowed, r)).mutation_target
            == Some(Operand::Left),
{
}

/// Law: the dot product never mutates an operand — its table entry resolves
/// to no mutation target and a plain scalar result for every mode pair.
pub proof fn lemma_dot_variant_never_mutates(l: OperandMode, r: OperandMode)
    ensures
        variant_of(VariantKey::DotProduct(l, r)).mutation_target is None,
        variant_of(VariantKey::DotProduct(l, r)).result_ownership == ResultOwnership::ScalarValue,
{
}

/// Law: a variant produces a new owned vector exactly when it mutates
/// nothing, for the two vector-producing families; the dot product instead
/// returns a plain scalar and also mutates nothing.
pub proof fn lemma_ownership_matches_mutation(key: VariantKey)
    ensures
        variant_of(key).result_ownership == ResultOwnership::NewOwnedVector ==> variant_of(
            key,
        ).mutation_target is None,
        variant_of(key).mutation_target == Some(Operand::Left) <==> variant_of(key).result_ownership
            == ResultOwnership::MutatedLeftRef,
        variant_of(key).mutation_target == Some(Operand::Right) <==> variant_of(
            key,
        ).result_ownership == ResultOwnership::MutatedRightRef,
{
}

} // verus!
