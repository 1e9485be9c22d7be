use vector_impl_gen::modes::{classify, OperandMode, TypeDescriptor};
use vector_impl_gen::variants::{
    select, BodyTemplateId, GenError, Operand, ResultOwnership, VariantKey,
};
use vector_impl_gen::doc_emit::{
    emit_doc, vector_add_impl_doc, vector_dot_prod_impl_doc, vector_scalar_mul_impl_doc,
};
use vector_impl_gen::{
    assemble, generate_unit, vector_add_impl, vector_dot_prod_impl, vector_scalar_mul_impl,
};

fn all_modes() -> [OperandMode; 3] {
    [
        OperandMode::Owned,
        OperandMode::Borrowed,
        OperandMode::MutBorrowed,
    ]
}

#[test]
fn classify_maps_descriptor_flags_to_modes() {
    assert_eq!(
        classify(TypeDescriptor {
            is_reference: false,
            is_mutable: false,
        }),
        OperandMode::Owned
    );
    assert_eq!(
        classify(TypeDescriptor {
            is_reference: true,
            is_mutable: false,
        }),
        OperandMode::Borrowed
    );
    assert_eq!(
        classify(TypeDescriptor {
            is_reference: true,
            is_mutable: true,
        }),
        OperandMode::MutBorrowed
    );
}

#[test]
fn selection_is_total_over_every_legal_key() {
    for l in all_modes() {
        for r in all_modes() {
            assert!(select(VariantKey::ElementwiseAdd(l, r)).is_ok());
            assert!(select(VariantKey::DotProduct(l, r)).is_ok());
        }
        assert!(select(VariantKey::ScalarMultiply(l)).is_ok());
    }
}

#[test]
fn add_mutation_target_follows_left_wins_precedence() {
    for l in all_modes() {
        for r in all_modes() {
            let spec = select(VariantKey::ElementwiseAdd(l, r)).unwrap();
            let expected = if l == OperandMode::MutBorrowed {
                Some(Operand::Left)
            } else if r == OperandMode::MutBorrowed {
                Some(Operand::Right)
            } else {
                None
            };
            assert_eq!(spec.mutation_target, expected);
        }
    }
}

#[test]
fn both_operands_mutable_resolve_to_left_target() {
    let spec = select(VariantKey::ElementwiseAdd(
        OperandMode::MutBorrowed,
        OperandMode::MutBorrowed,
    ))
    .unwrap();
    assert_eq!(spec.mutation_target, Some(Operand::Left));
    assert_eq!(spec.result_ownership, ResultOwnership::MutatedLeftRef);
    assert_eq!(spec.body_template, BodyTemplateId::AddIntoLeft);
}

#[test]
fn dot_product_variants_never_mutate() {
    for l in all_modes() {
        for r in all_modes() {
            let spec = select(VariantKey::DotProduct(l, r)).unwrap();
            assert_eq!(spec.mutation_target, None);
            assert_eq!(spec.result_ownership, ResultOwnership::ScalarValue);
            assert_eq!(spec.body_template, BodyTemplateId::DotAccumulate);
        }
    }
}

#[test]
fn scalar_mul_mutates_exactly_when_mut_borrowed() {
    for l in all_modes() {
        let spec = select(VariantKey::ScalarMultiply(l)).unwrap();
        if l == OperandMode::MutBorrowed {
            assert_eq!(spec.mutation_target, Some(Operand::Left));
            assert_eq!(spec.body_template, BodyTemplateId::ScalarMulInPlace);
        } else {
            assert_eq!(spec.mutation_target, None);
            assert_eq!(spec.body_template, BodyTemplateId::ScalarMulNewOwned);
        }
    }
}

#[test]
fn malformed_descriptor_is_rejected_by_every_entry_point() {
    let good = TypeDescriptor {
        is_reference: true,
        is_mutable: false,
    };
    let bad = TypeDescriptor {
        is_reference: false,
        is_mutable: true,
    };
    assert_eq!(
        vector_add_impl(bad, good),
        Err(GenError::UnsupportedCombination)
    );
    assert_eq!(
        vector_add_impl(good, bad),
        Err(GenError::UnsupportedCombination)
    );
    assert_eq!(
        vector_dot_prod_impl(bad, bad),
        Err(GenError::UnsupportedCombination)
    );
    assert_eq!(
        vector_scalar_mul_impl(bad),
        Err(GenError::UnsupportedCombination)
    );
}

#[test]
fn well_formed_descriptors_always_generate() {
    let descriptors = [
        TypeDescriptor {
            is_reference: false,
            is_mutable: false,
        },
        TypeDescriptor {
            is_reference: true,
            is_mutable: false,
        },
        TypeDescriptor {
            is_reference: true,
            is_mutable: true,
        },
    ];
    for l in descriptors {
        for r in descriptors {
            assert!(vector_add_impl(l, r).is_ok());
            assert!(vector_dot_prod_impl(l, r).is_ok());
        }
        assert!(vector_scalar_mul_impl(l).is_ok());
    }
}

#[test]
fn add_doc_asserts_on_the_declared_mutation_target() {
    for l in all_modes() {
        for r in all_modes() {
            let doc = vector_add_impl_doc(l, r);
            let expected = if l == OperandMode::MutBorrowed {
                "assert_eq!(vector1, vector![5, 7, 9])"
            } else if r == OperandMode::MutBorrowed {
                "assert_eq!(vector2, vector![5, 7, 9])"
            } else {
                "assert_eq!(vector3, vector![5, 7, 9])"
            };
            assert!(doc.contains(expected), "doc for {:?} {:?}: {}", l, r, doc);
            assert!(doc.contains("# Panic!"));
        }
    }
}

#[test]
fn add_doc_warns_only_when_an_operand_is_mutated() {
    for l in all_modes() {
        for r in all_modes() {
            let doc = vector_add_impl_doc(l, r);
            let mutating =
                l == OperandMode::MutBorrowed || r == OperandMode::MutBorrowed;
            assert_eq!(doc.contains("# Warning"), mutating);
        }
    }
}

#[test]
fn both_mut_add_doc_states_right_side_untouched() {
    let doc = vector_add_impl_doc(OperandMode::MutBorrowed, OperandMode::MutBorrowed);
    assert!(doc.contains("While the right hand side is mutable,"));
    assert!(doc.contains("nothing will be mutated on the right hand side."));
    assert!(doc.contains("All changes will happen to the left hand side."));
}

#[test]
fn dot_doc_is_empty_exactly_when_an_operand_is_mut_borrowed() {
    for l in all_modes() {
        for r in all_modes() {
            let doc = vector_dot_prod_impl_doc(l, r);
            let has_mut =
                l == OperandMode::MutBorrowed || r == OperandMode::MutBorrowed;
            assert_eq!(doc.is_empty(), has_mut);
            if !has_mut {
                assert!(doc.contains("assert_eq!(value, 32)"));
            }
        }
    }
}

#[test]
fn scalar_mul_doc_shows_expected_example_values() {
    for l in all_modes() {
        let doc = vector_scalar_mul_impl_doc(l);
        assert!(doc.contains("vector![3, 6, 9]"));
        assert_eq!(
            doc.contains("# Warning"),
            l == OperandMode::MutBorrowed
        );
    }
}

#[test]
fn emit_doc_agrees_with_the_family_emitters() {
    let spec = select(VariantKey::ElementwiseAdd(
        OperandMode::Borrowed,
        OperandMode::MutBorrowed,
    ))
    .unwrap();
    assert_eq!(
        emit_doc(spec.doc_template),
        vector_add_impl_doc(OperandMode::Borrowed, OperandMode::MutBorrowed)
    );
}

#[test]
fn assemble_places_documentation_before_body() {
    assert_eq!(assemble("doc-part\n", "body-part\n"), "doc-part\nbody-part\n");
    assert_eq!(assemble("", "body only"), "body only");
}

#[test]
fn borrowed_borrowed_add_unit_matches_expected_text() {
    let borrowed = TypeDescriptor {
        is_reference: true,
        is_mutable: false,
    };
    let unit = vector_add_impl(borrowed, borrowed).unwrap();
    let expected_doc = "/// The [addition][std::ops::Add] implementation for '&Vector + &Vector'.\n/// # Example\n/// ```\n/// use simp_linalg::vector_impl::prelude::*;\n///\n/// let vector1 = vector![1, 2, 3];\n/// let vector2 = vector![4, 5, 6];\n///\n/// let vector3 = &vector1 + &vector2;\n///\n/// assert_eq!(vector3, vector![5, 7, 9])\n/// ```\n///\n/// # Panic!\n///\n/// This function will panic if the vectors are not the same size.\n";
    let expected_body = "impl<T> Add<&Vector<T>> for &Vector<T>\nwhere\n    T: Add<Output = T> + Copy\n{\n    type Output = Vector<T>;\n\n    fn add(self, rhs: &Vector<T>) -> Self::Output {\n        if self.len() != rhs.len() {\n            panic!(\"Vectors with different sizes cannot be added together.\")\n        }\n\n        let length = self.len();\n\n        let mut params = Vec::with_capacity(length);\n        for idx in 0..length {\n            params.push(self.list[idx] + rhs.list[idx])\n        }\n\n        Vector::from(params)\n    }\n}\n";
    assert_eq!(unit, format!("{}{}", expected_doc, expected_body));
}

#[test]
fn owned_scalar_mul_unit_matches_expected_text() {
    let owned = TypeDescriptor {
        is_reference: false,
        is_mutable: false,
    };
    let unit = vector_scalar_mul_impl(owned).unwrap();
    let expected_doc = "/// The [multiplication][std::ops::Mul] implementation for 'Vector * T'.\n///\n/// In contrast to common mathematical notation,\n/// the scalar must be on the right of the vector.\n/// # Example\n/// ```\n/// use simp_linalg::vector_impl::prelude::*;\n///\n/// let vector = vector![1, 2, 3];\n///\n/// assert_eq!(vector * 3, vector![3, 6, 9])\n/// ```\n";
    let expected_body = "impl<T> Mul<T> for Vector<T>\nwhere\n    T: Copy + Mul<Output = T>\n{\n    type Output = Vector<T>;\n\n    fn mul(self, rhs: T) -> Self::Output {\n        let mut params = Vec::with_capacity(self.len());\n        for item in self.list() {\n            params.push(rhs * *item)\n        }\n        Vector::from(params)\n    }\n}\n";
    assert_eq!(unit, format!("{}{}", expected_doc, expected_body));
}

#[test]
fn mut_borrowed_add_body_uses_lifetime_bearing_types() {
    let mutable = TypeDescriptor {
        is_reference: true,
        is_mutable: true,
    };
    let borrowed = TypeDescriptor {
        is_reference: true,
        is_mutable: false,
    };
    let unit = vector_add_impl(mutable, borrowed).unwrap();
    assert!(unit.contains("impl<'a, T> Add<&'a Vector<T>> for &'a mut Vector<T>"));
    assert!(unit.contains("type Output = &'a mut Vector<T>;"));
    assert!(unit.contains("self.list[idx] = self.list[idx] + rhs.list[idx]"));
}

#[test]
fn generate_unit_emits_bare_body_for_undocumented_dot_variants() {
    let unit = generate_unit(VariantKey::DotProduct(
        OperandMode::MutBorrowed,
        OperandMode::Owned,
    ));
    assert!(unit.starts_with("impl<T> Mul<Vector<T>> for &mut Vector<T>"));
    assert!(unit.contains("let mut product = T::default();"));
}
