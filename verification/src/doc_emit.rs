use vstd::prelude::*;
use vstd::string::StringExecFns;
use crate::modes::OperandMode;
use crate::variants::{DocTemplateId, Operand, VariantKey, variant_of};

verus! {

/// The mutation target a documentation template declares to its reader:
/// the operand its warning names and its example asserts on.  The left
/// operand is declared whenever it is mutably borrowed, otherwise the right
/// one if it is; dot-product documentation never declares a target, and
/// scalar-multiplication documentation declares its vector operand exactly
/// when that operand is mutably borrowed.
pub open spec fn doc_declared_target(id: DocTemplateId) -> Option<Operand> {
    match id {
        DocTemplateId::AddDoc(l, r) => if l is MutBorrowed {
            Some(Operand::Left)
        } else if r is MutBorrowed {
            Some(Operand::Right)
        } else {
            None
        },
        DocTemplateId::DotDoc(_, _) => None,
        DocTemplateId::ScalarMulDoc(l) => if l is MutBorrowed {
            Some(Operand::Left)
        } else {
            None
        },
    }
}

/// How a mode combination names an operand in the documentation's one-line
/// description.
pub open spec fn mode_phrase_text(m: OperandMode) -> Seq<char> {
    match m {
        OperandMode::Owned => "Vector"@,
        OperandMode::Borrowed => "&Vector"@,
        OperandMode::MutBorrowed => "&mut Vector"@,
    }
}

/// `mut ` before an example binding exactly when the operand is later
/// borrowed mutably in that example.
pub open spec fn lhs_binding_text(m: OperandMode) -> Seq<char> {
    if m is MutBorrowed {
        "mut "@
    } else {
        ""@
    }
}

/// Same as `lhs_binding_text`; the right operand's binding follows the same
/// rule.
pub open spec fn rhs_binding_text(m: OperandMode) -> Seq<char> {
    if m is MutBorrowed {
        "mut "@
    } else {
        ""@
    }
}

/// The left operand expression of an example, in the mode's surface syntax.
pub open spec fn lhs_expr_text(m: OperandMode) -> Seq<char> {
    match m {
        OperandMode::Owned => "vector1"@,
        OperandMode::Borrowed => "&vector1"@,
        OperandMode::MutBorrowed => "&mut vector1"@,
    }
}

/// The right operand expression of an example, in the mode's surface syntax.
pub open spec fn rhs_expr_text(m: OperandMode) -> Seq<char> {
    match m {
        OperandMode::Owned => "vector2"@,
        OperandMode::Borrowed => "&vector2"@,
        OperandMode::MutBorrowed => "&mut vector2"@,
    }
}

/// The trailing note stating the failure condition of the size-sensitive
/// operators.
pub open spec fn size_note_text() -> Seq<char> {
    "///\n/// # Panic!\n///\n/// This function will panic if the vectors are not the same size.\n"@
}

/// The one-line description of an element-wise addition variant, naming the
/// operator and the exact mode combination.
pub open spec fn add_doc_header_text(l: OperandMode, r: OperandMode) -> Seq<char> {
    "/// The [addition][std::ops::Add] implementation for '"@ + mode_phrase_text(l) + " + "@
        + mode_phrase_text(r) + "'.\n"@
}

/// The warning block of an element-wise addition variant: present exactly
/// when an operand is mutated, naming the mutated operand and the one left
/// untouched — in particular stating, when both operands are mutable, that
/// the right one is still not written.
pub open spec fn add_doc_warning_text(l: OperandMode, r: OperandMode) -> Seq<char> {
    match doc_declared_target(DocTemplateId::AddDoc(l, r)) {
        Some(Operand::Left) => if r is MutBorrowed {
            "///\n/// # Warning\n/// While the right hand side is mutable,\n/// nothing will be mutated on the right hand side.\n/// All changes will happen to the left hand side.\n"@
        } else {
            "///\n/// # Warning\n/// All changes will happen to the left hand side;\n/// the right hand side is left untouched.\n"@
        },
        Some(Operand::Right) => "///\n/// # Warning\n/// All changes will happen to the right hand side;\n/// the left hand side is left untouched.\n"@,
        None => ""@,
    }
}

/// The closing lines of an addition example: the operator application and
/// an equality assertion on the declared mutation target, or on the new
/// vector when nothing is mutated.
pub open spec fn add_doc_example_tail_text(l: OperandMode, r: OperandMode) -> Seq<char> {
    match doc_declared_target(DocTemplateId::AddDoc(l, r)) {
        Some(Operand::Left) => "/// "@ + lhs_expr_text(l) + " + "@ + rhs_expr_text(r)
            + ";\n///\n/// assert_eq!(vector1, vector![5, 7, 9])\n/// ```\n"@,
        Some(Operand::Right) => "/// "@ + lhs_expr_text(l) + " + "@ + rhs_expr_text(r)
            + ";\n///\n/// assert_eq!(vector2, vector![5, 7, 9])\n/// ```\n"@,
        None => "/// let vector3 = "@ + lhs_expr_text(l) + " + "@ + rhs_expr_text(r)
            + ";\n///\n/// assert_eq!(vector3, vector![5, 7, 9])\n/// ```\n"@,
    }
}

/// The runnable example of an addition variant: two vectors are built, the
/// operator is applied in the variant's own surface syntax, and the result
/// is asserted.
pub open spec fn add_doc_example_text(l: OperandMode, r: OperandMode) -> Seq<char> {
    "/// # Example\n/// ```\n/// use simp_linalg::vector_impl::prelude::*;\n///\n/// let "@
        + lhs_binding_text(l) + "vector1 = vector![1, 2, 3];\n/// let "@ + rhs_binding_text(r)
        + "vector2 = vector![4, 5, 6];\n///\n"@ + add_doc_example_tail_text(l, r)
}

/// The full documentation fragment of an element-wise addition variant.
pub open spec fn add_doc_text(l: OperandMode, r: OperandMode) -> Seq<char> {
    add_doc_header_text(l, r) + add_doc_warning_text(l, r) + add_doc_example_text(l, r)
        + size_note_text()
}

/// The documentation fragment of a dot-product variant.  Examples are
/// supplied only for the combinations where neither operand is mutably
/// borrowed; for the others the whole fragment is empty — the lookup still
/// succeeds, the content is simply vacuous.
pub open spec fn dot_doc_text(l: OperandMode, r: OperandMode) -> Seq<char> {
    if l is MutBorrowed || r is MutBorrowed {
        ""@
    } else {
        "/// The [multiplication][std::ops::Mul] implementation for '"@ + mode_phrase_text(l)
            + " * "@ + mode_phrase_text(r)
            + "'.\n///\n/// This calculates the dot product of the two vectors.\n"@
            + "/// # Example\n/// ```\n/// use simp_linalg::vector_impl::prelude::*;\n///\n/// let vector1 = vector![1, 2, 3];\n/// let vector2 = vector![4, 5, 6];\n///\n/// let value = "@
            + lhs_expr_text(l) + " * "@ + rhs_expr_text(r)
            + ";\n///\n/// assert_eq!(value, 32)\n/// ```\n"@ + size_note_text()
    }
}

/// The runnable example of a scalar-multiplication variant.
pub open spec fn scalar_mul_example_text(l: OperandMode) -> Seq<char> {
    match l {
        OperandMode::MutBorrowed => "/// # Example\n/// ```\n/// use simp_linalg::vector_impl::prelude::*;\n///\n/// let mut vector = vector![1, 2, 3];\n///\n/// &mut vector * 3;\n///\n/// assert_eq!(vector, vector![3, 6, 9])\n/// ```\n"@,
        OperandMode::Borrowed => "/// # Example\n/// ```\n/// use simp_linalg::vector_impl::prelude::*;\n///\n/// let vector = vector![1, 2, 3];\n///\n/// assert_eq!(&vector * 3, vector![3, 6, 9])\n/// ```\n"@,
        OperandMode::Owned => "/// # Example\n/// ```\n/// use simp_linalg::vector_impl::prelude::*;\n///\n/// let vector = vector![1, 2, 3];\n///\n/// assert_eq!(vector * 3, vector![3, 6, 9])\n/// ```\n"@,
    }
}

/// The warning block of a scalar multiplication: present exactly when the
/// vector operand is mutated in place.
pub open spec fn scalar_mul_warning_text(l: OperandMode) -> Seq<char> {
    if l is MutBorrowed {
        "///\n/// # Warning\n/// The vector operand is mutated in place;\n/// the scalar operand is only read.\n"@
    } else {
        ""@
    }
}

/// The full documentation fragment of a scalar-multiplication variant.
/// There is no trailing size note: the operation has no size precondition.
pub open spec fn scalar_mul_doc_text(l: OperandMode) -> Seq<char> {
    "/// The [multiplication][std::ops::Mul] implementation for '"@ + mode_phrase_text(l)
        + " * T'.\n///\n/// In contrast to common mathematical notation,\n/// the scalar must be on the right of the vector.\n"@
        + scalar_mul_warning_text(l) + scalar_mul_example_text(l)
}

/// The documentation text a template id stands for.
pub open spec fn doc_text_of(id: DocTemplateId) -> Seq<char> {
    match id {
        DocTemplateId::AddDoc(l, r) => add_doc_text(l, r),
        DocTemplateId::DotDoc(l, r) => dot_doc_text(l, r),
        DocTemplateId::ScalarMulDoc(l) => scalar_mul_doc_text(l),
    }
}

fn mode_phrase(m: OperandMode) -> (res: &'static str)
    ensures
        res@ == mode_phrase_text(m),
{
    match m {
        OperandMode::Owned => "Vector",
        OperandMode::Borrowed => "&Vector",
        OperandMode::MutBorrowed => "&mut Vector",
    }
}

fn binding(m: OperandMode) -> (res: &'static str)
    ensures
        res@ == lhs_binding_text(m),
        res@ == rhs_binding_text(m),
{
    match m {
        OperandMode::MutBorrowed => "mut ",
        _ => "",
    }
}

fn lhs_expr(m: OperandMode) -> (res: &'static str)
    ensures
        res@ == lhs_expr_text(m),
{
    match m {
        OperandMode::Owned => "vector1",
        OperandMode::Borrowed => "&vector1",
        OperandMode::MutBorrowed => "&mut vector1",
    }
}

fn rhs_expr(m: OperandMode) -> (res: &'static str)
    ensures
        res@ == rhs_expr_text(m),
{
    match m {
        OperandMode::Owned => "vector2",
        OperandMode::Borrowed => "&vector2",
        OperandMode::MutBorrowed => "&mut vector2",
    }
}

fn emit_scalar_mul_warning(l: OperandMode) -> (res: &'static str)
    ensures
        res@ == scalar_mul_warning_text(l),
{
    match l {
        OperandMode::MutBorrowed => "///\n/// # Warning\n/// The vector operand is mutated in place;\n/// the scalar operand is only read.\n",
        _ => "",
    }
}

fn emit_add_doc_warning(l: OperandMode, r: OperandMode) -> (res: &'static str)
    ensures
        res@ == add_doc_warning_text(l, r),
{
    match l {
        OperandMode::MutBorrowed => match r {
            OperandMode::MutBorrowed => "///\n/// # Warning\n/// While the right hand side is mutable,\n/// nothing will be mutated on the right hand side.\n/// All changes will happen to the left hand side.\n",
            _ => "///\n/// # Warning\n/// All changes will happen to the left hand side;\n/// the right hand side is left untouched.\n",
        },
        _ => match r {
            OperandMode::MutBorrowed => "///\n/// # Warning\n/// All changes will happen to the right hand side;\n/// the left hand side is left untouched.\n",
            _ => "",
        },
    }
}

fn emit_add_doc_example_tail(l: OperandMode, r: OperandMode) -> (res: String)
    ensures
        res@ == add_doc_example_tail_text(l, r),
{
    let left_is_mut = matches!(l, OperandMode::MutBorrowed);
    let right_is_mut = matches!(r, OperandMode::MutBorrowed);
    if left_is_mut {
        let mut s = "/// ".to_owned();
        s.append(lhs_expr(l));
        s.append(" + ");
        s.append(rhs_expr(r));
        s.append(";\n///\n/// assert_eq!(vector1, vector![5, 7, 9])\n/// ```\n");
        s
    } else if right_is_mut {
        let mut s = "/// ".to_owned();
        s.append(lhs_expr(l));
        s.append(" + ");
        s.append(rhs_expr(r));
        s.append(";\n///\n/// assert_eq!(vector2, vector![5, 7, 9])\n/// ```\n");
        s
    } else {
        let mut s = "/// let vector3 = ".to_owned();
        s.append(lhs_expr(l));
        s.append(" + ");
        s.append(rhs_expr(r));
        s.append(";\n///\n/// assert_eq!(vector3, vector![5, 7, 9])\n/// ```\n");
        s
    }
}

/// Emits the documentation fragment for an element-wise addition variant:
/// description, a warning when an operand is mutated, a runnable example,
/// and the size-mismatch note.
pub fn vector_add_impl_doc(l: OperandMode, r: OperandMode) -> (res: String)
    ensures
        res@ == add_doc_text(l, r),
{
    let mut s = "/// The [addition][std::ops::Add] implementation for '".to_owned();
    s.append(mode_phrase(l));
    s.append(" + ");
    s.append(mode_phrase(r));
    s.append("'.\n");
    s.append(emit_add_doc_warning(l, r));
    let mut example = "/// # Example\n/// ```\n/// use simp_linalg::vector_impl::prelude::*;\n///\n/// let ".to_owned();
    example.append(binding(l));
    example.append("vector1 = vector![1, 2, 3];\n/// let ");
    example.append(binding(r));
    example.append("vector2 = vector![4, 5, 6];\n///\n");
    let tail = emit_add_doc_example_tail(l, r);
    example.append(tail.as_str());
    s.append(example.as_str());
    s.append("///\n/// # Panic!\n///\n/// This function will panic if the vectors are not the same size.\n");
    s
}

/// Emits the documentation fragment for a dot-product variant; the fragment
/// is empty when either operand is mutably borrowed.
pub fn vector_dot_prod_impl_doc(l: OperandMode, r: OperandMode) -> (res: String)
    ensures
        res@ == dot_doc_text(l, r),
{
    let left_is_mut = matches!(l, OperandMode::MutBorrowed);
    let right_is_mut = matches!(r, OperandMode::MutBorrowed);
    if left_is_mut || right_is_mut {
        "".to_owned()
    } else {
        let mut s = "/// The [multiplication][std::ops::Mul] implementation for '".to_owned();
        s.append(mode_phrase(l));
        s.append(" * ");
        s.append(mode_phrase(r));
        s.append("'.\n///\n/// This calculates the dot product of the two vectors.\n");
        s.append(
            "/// # Example\n/// ```\n/// use simp_linalg::vector_impl::prelude::*;\n///\n/// let vector1 = vector![1, 2, 3];\n/// let vector2 = vector![4, 5, 6];\n///\n/// let value = ",
        );
        s.append(lhs_expr(l));
        s.append(" * ");
        s.append(rhs_expr(r));
        s.append(";\n///\n/// assert_eq!(value, 32)\n/// ```\n");
        s.append("///\n/// # Panic!\n///\n/// This function will panic if the vectors are not the same size.\n");
        s
    }
}

/// Emits the documentation fragment for a scalar-multiplication variant.
pub fn vector_scalar_mul_impl_doc(l: OperandMode) -> (res: String)
    ensures
        res@ == scalar_mul_doc_text(l),
{
    let mut s = "/// The [multiplication][std::ops::Mul] implementation for '".to_owned();
    s.append(mode_phrase(l));
    s.append(
        " * T'.\n///\n/// In contrast to common mathematical notation,\n/// the scalar must be on the right of the vector.\n",
    );
    s.append(emit_scalar_mul_warning(l));
    match l {
        OperandMode::MutBorrowed => {
            s.append(
                "/// # Example\n/// ```\n/// use simp_linalg::vector_impl::prelude::*;\n///\n/// let mut vector = vector![1, 2, 3];\n///\n/// &mut vector * 3;\n///\n/// assert_eq!(vector, vector![3, 6, 9])\n/// ```\n",
            );
        },
        OperandMode::Borrowed => {
            s.append(
                "/// # Example\n/// ```\n/// use simp_linalg::vector_impl::prelude::*;\n///\n/// let vector = vector![1, 2, 3];\n///\n/// assert_eq!(&vector * 3, vector![3, 6, 9])\n/// ```\n",
            );
        },
        OperandMode::Owned => {
            s.append(
                "/// # Example\n/// ```\n/// use simp_linalg::vector_impl::prelude::*;\n///\n/// let vector = vector![1, 2, 3];\n///\n/// assert_eq!(vector * 3, vector![3, 6, 9])\n/// ```\n",
            );
        },
    }
    s
}

/// Emits the documentation fragment a template id stands for.
pub fn emit_doc(id: DocTemplateId) -> (res: String)
    ensures
        res@ == doc_text_of(id),
{
    match id {
        DocTemplateId::AddDoc(l, r) => vector_add_impl_doc(l, r),
        DocTemplateId::DotDoc(l, r) => vector_dot_prod_impl_doc(l, r),
        DocTemplateId::ScalarMulDoc(l) => vector_scalar_mul_impl_doc(l),
    }
}

/// Law: for every table entry, the mutation target the documentation
/// declares — the operand its warning names and its example asserts on —
/// is exactly the mutation target the entry resolves to.
pub proof fn lemma_doc_matches_mutation_target(key: VariantKey)
    ensures
        doc_declared_target(variant_of(key).doc_template) == variant_of(key).mutation_target,
{
}

} // verus!
