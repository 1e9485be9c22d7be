//! Generator for operand-mode-specialized operator implementations of a small
//! vector-arithmetic library.
//!
//! For each way the two operands of a binary vector operation can be passed
//! (owned, borrowed, mutably borrowed), a different implementation strategy and
//! a different piece of usage documentation is called for.  This crate holds
//! the decision logic: it classifies operand modes, resolves each mode pair
//! against a total variant table, and emits the implementation source text
//! together with documentation that matches the chosen mutation semantics.

pub mod modes;
pub mod variants;
pub mod vector_ops;
pub mod body_emit;
pub mod doc_emit;

use vstd::prelude::*;
use vstd::string::StringExecFns;
use crate::body_emit::{body_text, emit_body};
use crate::doc_emit::{doc_text_of, emit_doc};
use crate::modes::{classify, classify_mode, TypeDescriptor};
use crate::variants::{select, variant_of, GenError, VariantKey};

verus! {

/// The full emitted source unit for a variant-table key: the documentation
/// fragment immediately followed by the implementation body.
pub open spec fn unit_text(key: VariantKey) -> Seq<char> {
    doc_text_of(variant_of(key).doc_template) + body_text(key)
}

/// Concatenates a documentation fragment immediately before an
/// implementation body, in that fixed order, with no further
/// transformation.
pub fn assemble(doc: &str, body: &str) -> (res: String)
    ensures
        res@ == doc@ + body@,
{
    let mut s = doc.to_owned();
    s.append(body);
    s
}

/// Resolves a key against the variant table and assembles the emitted unit:
/// documentation first, implementation body second.
pub fn generate_unit(key: VariantKey) -> (res: String)
    ensures
        res@ == unit_text(key),
{
    match select(key) {
        Ok(variant) => {
            let doc = emit_doc(variant.doc_template);
            let body = emit_body(key);
            assemble(doc.as_str(), body.as_str())
        },
        Err(_) => String::new(),
    }
}

/// Generates the element-wise-addition unit for two operand type
/// descriptors: each descriptor is classified to its mode, the mode pair is
/// resolved against the variant table, and the selected documentation and
/// body templates are emitted and assembled.  Fails with
/// `UnsupportedCombination` exactly when a descriptor is malformed (flagged
/// mutable without being a reference).
pub fn vector_add_impl(lhs: TypeDescriptor, rhs: TypeDescriptor) -> (res: Result<String, GenError>)
    ensures
        res is Ok <==> lhs.wf() && rhs.wf(),
        res matches Ok(unit) ==> unit@ == unit_text(
            VariantKey::ElementwiseAdd(classify_mode(lhs), classify_mode(rhs)),
        ),
        res matches Err(e) ==> e == GenError::UnsupportedCombination,
{
    if !lhs.is_wf() || !rhs.is_wf() {
        return Err(GenError::UnsupportedCombination);
    }
    let key = VariantKey::ElementwiseAdd(classify(lhs), classify(rhs));
    Ok(generate_unit(key))
}

/// Generates the dot-product unit for two operand type descriptors.  The
/// implementation body is the same for every mode pair — the dot product
/// never mutates an operand — and only the documentation varies.  Fails
/// with `UnsupportedCombination` exactly when a descriptor is malformed.
pub fn vector_dot_prod_impl(lhs: TypeDescriptor, rhs: TypeDescriptor) -> (res: Result<
    String,
    GenError,
>)
    ensures
        res is Ok <==> lhs.wf() && rhs.wf(),
        res matches Ok(unit) ==> unit@ == unit_text(
            VariantKey::DotProduct(classify_mode(lhs), classify_mode(rhs)),
        ),
        res matches Err(e) ==> e == GenError::UnsupportedCombination,
{
    if !lhs.is_wf() || !rhs.is_wf() {
        return Err(GenError::UnsupportedCombination);
    }
    let key = VariantKey::DotProduct(classify(lhs), classify(rhs));
    Ok(generate_unit(key))
}

/// Generates the scalar-multiplication unit for the vector operand's type
/// descriptor; the scalar operand is always passed by value and carries no
/// descriptor.  Fails with `UnsupportedCombination` exactly when the
/// descriptor is malformed.
pub fn vector_scalar_mul_impl(lhs: TypeDescriptor) -> (res: Result<String, GenError>)
    ensures
        res is Ok <==> lhs.wf(),
        res matches Ok(unit) ==> unit@ == unit_text(VariantKey::ScalarMultiply(classify_mode(lhs))),
        res matches Err(e) ==> e == GenError::UnsupportedCombination,
{
    if !lhs.is_wf() {
        return Err(GenError::UnsupportedCombination);
    }
    let key = VariantKey::ScalarMultiply(classify(lhs));
    Ok(generate_unit(key))
}

} // verus!
