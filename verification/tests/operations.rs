use vector_impl_gen::modes::OperandMode;
use vector_impl_gen::variants::VariantKey;
use vector_impl_gen::vector_ops::{
    add_into_left, add_into_right, add_new_owned, dot_product, execute_variant, scalar_mul_in_place,
    scalar_mul_new_owned, OpOutput, SizeMismatch,
};

fn all_modes() -> [OperandMode; 3] {
    [
        OperandMode::Owned,
        OperandMode::Borrowed,
        OperandMode::MutBorrowed,
    ]
}

#[test]
fn add_yields_five_seven_nine_under_every_mode_combination() {
    for l in all_modes() {
        for r in all_modes() {
            let mut left = vec![1i64, 2, 3];
            let mut right = vec![4i64, 5, 6];
            let out = execute_variant(
                VariantKey::ElementwiseAdd(l, r),
                &mut left,
                &mut right,
                0,
            )
            .unwrap();
            match out {
                OpOutput::NewVector(v) => {
                    assert_eq!(v, vec![5, 7, 9]);
                    assert_eq!(left, vec![1, 2, 3]);
                    assert_eq!(right, vec![4, 5, 6]);
                }
                OpOutput::MutatedLeft => {
                    assert_eq!(left, vec![5, 7, 9]);
                    assert_eq!(right, vec![4, 5, 6]);
                }
                OpOutput::MutatedRight => {
                    assert_eq!(right, vec![5, 7, 9]);
                    assert_eq!(left, vec![1, 2, 3]);
                }
                OpOutput::Scalar(_) => panic!("addition produced a scalar"),
            }
        }
    }
}

#[test]
fn add_with_both_operands_mut_borrowed_mutates_left_only() {
    let mut left = vec![1i64, 2, 3];
    let mut right = vec![4i64, 5, 6];
    let out = execute_variant(
        VariantKey::ElementwiseAdd(OperandMode::MutBorrowed, OperandMode::MutBorrowed),
        &mut left,
        &mut right,
        0,
    )
    .unwrap();
    assert!(matches!(out, OpOutput::MutatedLeft));
    assert_eq!(left, vec![5, 7, 9]);
    assert_eq!(right, vec![4, 5, 6]);
}

#[test]
fn dot_product_equals_thirty_two_and_mutates_nothing_for_every_mode_pair() {
    for l in all_modes() {
        for r in all_modes() {
            let mut left = vec![1i64, 2, 3];
            let mut right = vec![4i64, 5, 6];
            let out = execute_variant(
                VariantKey::DotProduct(l, r),
                &mut left,
                &mut right,
                0,
            )
            .unwrap();
            match out {
                OpOutput::Scalar(p) => assert_eq!(p, 32),
                other => panic!("dot product produced {:?}", other),
            }
            assert_eq!(left, vec![1, 2, 3]);
            assert_eq!(right, vec![4, 5, 6]);
        }
    }
}

#[test]
fn scalar_multiply_by_three_yields_three_six_nine_for_every_mode() {
    for l in all_modes() {
        let mut operand = vec![1i64, 2, 3];
        let mut unused = vec![0i64];
        let out = execute_variant(
            VariantKey::ScalarMultiply(l),
            &mut operand,
            &mut unused,
            3,
        )
        .unwrap();
        if l == OperandMode::MutBorrowed {
            assert!(matches!(out, OpOutput::MutatedLeft));
            assert_eq!(operand, vec![3, 6, 9]);
        } else {
            match out {
                OpOutput::NewVector(v) => assert_eq!(v, vec![3, 6, 9]),
                other => panic!("scalar multiply produced {:?}", other),
            }
            assert_eq!(operand, vec![1, 2, 3]);
        }
        assert_eq!(unused, vec![0]);
    }
}

#[test]
fn size_mismatch_is_fatal_for_add_and_dot_under_every_mode_combination() {
    for l in all_modes() {
        for r in all_modes() {
            let mut left = vec![1i64, 2];
            let mut right = vec![4i64, 5, 6];
            let res = execute_variant(
                VariantKey::ElementwiseAdd(l, r),
                &mut left,
                &mut right,
                0,
            );
            assert_eq!(res.unwrap_err(), SizeMismatch);
            assert_eq!(left, vec![1, 2]);
            assert_eq!(right, vec![4, 5, 6]);

            let res = execute_variant(
                VariantKey::DotProduct(l, r),
                &mut left,
                &mut right,
                0,
            );
            assert_eq!(res.unwrap_err(), SizeMismatch);
            assert_eq!(left, vec![1, 2]);
            assert_eq!(right, vec![4, 5, 6]);
        }
    }
}

#[test]
fn add_new_owned_builds_element_wise_sums() {
    let left = vec![1i64, -2, 3];
    let right = vec![10i64, 20, -30];
    assert_eq!(add_new_owned(&left, &right), Ok(vec![11, 18, -27]));
    assert_eq!(left, vec![1, -2, 3]);
    assert_eq!(right, vec![10, 20, -30]);
}

#[test]
fn add_new_owned_rejects_unequal_lengths() {
    assert_eq!(
        add_new_owned(&vec![1i64], &vec![1i64, 2]),
        Err(SizeMismatch)
    );
}

#[test]
fn add_into_left_overwrites_left_in_place() {
    let mut left = vec![1i64, 2, 3];
    let right = vec![4i64, 5, 6];
    assert_eq!(add_into_left(&mut left, &right), Ok(()));
    assert_eq!(left, vec![5, 7, 9]);
    assert_eq!(right, vec![4, 5, 6]);
}

#[test]
fn add_into_left_leaves_left_untouched_on_mismatch() {
    let mut left = vec![1i64, 2, 3];
    assert_eq!(add_into_left(&mut left, &vec![1i64]), Err(SizeMismatch));
    assert_eq!(left, vec![1, 2, 3]);
}

#[test]
fn add_into_right_reads_original_left_values() {
    let left = vec![1i64, 2, 3];
    let mut right = vec![4i64, 5, 6];
    assert_eq!(add_into_right(&left, &mut right), Ok(()));
    assert_eq!(right, vec![5, 7, 9]);
    assert_eq!(left, vec![1, 2, 3]);
}

#[test]
fn dot_product_accumulates_in_ascending_order() {
    assert_eq!(dot_product(&vec![1i64, 2, 3], &vec![4i64, 5, 6]), Ok(32));
    assert_eq!(dot_product(&vec![-1i64, 2], &vec![3i64, -4]), Ok(-11));
    assert_eq!(
        dot_product(&vec![1i64, 2], &vec![4i64, 5, 6]),
        Err(SizeMismatch)
    );
}

#[test]
fn empty_operands_are_legal_and_give_identity_results() {
    let empty: Vec<i64> = Vec::new();
    assert_eq!(add_new_owned(&empty, &Vec::new()), Ok(Vec::new()));
    assert_eq!(dot_product(&empty, &Vec::new()), Ok(0));
    assert_eq!(scalar_mul_new_owned(&empty, 7), Vec::<i64>::new());
}

#[test]
fn scalar_mul_places_scalar_on_the_left_of_each_product() {
    assert_eq!(scalar_mul_new_owned(&vec![1i64, 2, 3], 3), vec![3, 6, 9]);
    assert_eq!(scalar_mul_new_owned(&vec![-4i64, 0, 2], -2), vec![8, 0, -4]);
}

#[test]
fn scalar_mul_in_place_overwrites_each_element() {
    let mut operand = vec![1i64, 2, 3];
    scalar_mul_in_place(&mut operand, 3);
    assert_eq!(operand, vec![3, 6, 9]);
    scalar_mul_in_place(&mut operand, 0);
    assert_eq!(operand, vec![0, 0, 0]);
}
