use vstd::prelude::*;
use vstd::string::StringExecFns;
use crate::modes::OperandMode;
use crate::variants::{VariantKey, add_mutation_target, Operand};

verus! {

/// Source text of the left-hand operand type of an element-wise addition.
/// A borrowed operand carries the impl's lifetime parameter exactly when the
/// other operand is mutably borrowed, since only those impls declare one.
pub open spec fn add_lhs_type_text(l: OperandMode, r: OperandMode) -> Seq<char> {
    match l {
        OperandMode::MutBorrowed => "&'a mut Vector<T>"@,
        OperandMode::Borrowed => if r is MutBorrowed {
            "&'a Vector<T>"@
        } else {
            "&Vector<T>"@
        },
        OperandMode::Owned => "Vector<T>"@,
    }
}

/// Source text of the right-hand operand type of an element-wise addition.
pub open spec fn add_rhs_type_text(l: OperandMode, r: OperandMode) -> Seq<char> {
    match r {
        OperandMode::MutBorrowed => "&'a mut Vector<T>"@,
        OperandMode::Borrowed => if l is MutBorrowed {
            "&'a Vector<T>"@
        } else {
            "&Vector<T>"@
        },
        OperandMode::Owned => "Vector<T>"@,
    }
}

/// Source text of a dot-product operand type; the dot-product impls never
/// declare a lifetime parameter.
pub open spec fn dot_type_text(m: OperandMode) -> Seq<char> {
    match m {
        OperandMode::MutBorrowed => "&mut Vector<T>"@,
        OperandMode::Borrowed => "&Vector<T>"@,
        OperandMode::Owned => "Vector<T>"@,
    }
}

/// Source text of the vector operand type of a scalar multiplication.
pub open spec fn scalar_mul_type_text(m: OperandMode) -> Seq<char> {
    match m {
        OperandMode::MutBorrowed => "&'a mut Vector<T>"@,
        OperandMode::Borrowed => "&Vector<T>"@,
        OperandMode::Owned => "Vector<T>"@,
    }
}

fn add_lhs_type(l: OperandMode, r: OperandMode) -> (res: &'static str)
    ensures
        res@ == add_lhs_type_text(l, r),
{
    match l {
        OperandMode::MutBorrowed => "&'a mut Vector<T>",
        OperandMode::Borrowed => match r {
            OperandMode::MutBorrowed => "&'a Vector<T>",
            _ => "&Vector<T>",
        },
        OperandMode::Owned => "Vector<T>",
    }
}

fn add_rhs_type(l: OperandMode, r: OperandMode) -> (res: &'static str)
    ensures
        res@ == add_rhs_type_text(l, r),
{
    match r {
        OperandMode::MutBorrowed => "&'a mut Vector<T>",
        OperandMode::Borrowed => match l {
            OperandMode::MutBorrowed => "&'a Vector<T>",
            _ => "&Vector<T>",
        },
        OperandMode::Owned => "Vector<T>",
    }
}

fn dot_type(m: OperandMode) -> (res: &'static str)
    ensures
        res@ == dot_type_text(m),
{
    match m {
        OperandMode::MutBorrowed => "&mut Vector<T>",
        OperandMode::Borrowed => "&Vector<T>",
        OperandMode::Owned => "Vector<T>",
    }
}

fn scalar_mul_type(m: OperandMode) -> (res: &'static str)
    ensures
        res@ == scalar_mul_type_text(m),
{
    match m {
        OperandMode::MutBorrowed => "&'a mut Vector<T>",
        OperandMode::Borrowed => "&Vector<T>",
        OperandMode::Owned => "Vector<T>",
    }
}

/// Implementation text for element-wise addition that mutates nothing and
/// returns a new owned vector of the element-wise sums.
pub open spec fn add_new_owned_body_text(l: OperandMode, r: OperandMode) -> Seq<char> {
    "impl<T> Add<"@ + add_rhs_type_text(l, r) + "> for "@ + add_lhs_type_text(l, r)
        + "\nwhere\n    T: Add<Output = T> + Copy\n{\n    type Output = Vector<T>;\n\n    fn add(self, rhs: "@
        + add_rhs_type_text(l, r)
        + ") -> Self::Output {\n        if self.len() != rhs.len() {\n            panic!(\"Vectors with different sizes cannot be added together.\")\n        }\n\n        let length = self.len();\n\n        let mut params = Vec::with_capacity(length);\n        for idx in 0..length {\n            params.push(self.list[idx] + rhs.list[idx])\n        }\n\n        Vector::from(params)\n    }\n}\n"@
}

/// Implementation text for element-wise addition that overwrites the left
/// operand in ascending index order and returns the mutated handle.
pub open spec fn add_into_left_body_text(l: OperandMode, r: OperandMode) -> Seq<char> {
    "impl<'a, T> Add<"@ + add_rhs_type_text(l, r) + "> for "@ + add_lhs_type_text(l, r)
        + "\nwhere\n    T: Add<Output = T> + Copy\n{\n    type Output = &'a mut Vector<T>;\n\n    fn add(self, rhs: "@
        + add_rhs_type_text(l, r)
        + ") -> Self::Output {\n        if self.len() != rhs.len() {\n            panic!(\"Vectors with different sizes cannot be added together.\")\n        }\n\n        for idx in 0..self.len() {\n            self.list[idx] = self.list[idx] + rhs.list[idx]\n        }\n\n        self\n    }\n}\n"@
}

/// Implementation text for element-wise addition that overwrites the right
/// operand, reading the left operand's original values, and returns the
/// mutated handle.
pub open spec fn add_into_right_body_text(l: OperandMode, r: OperandMode) -> Seq<char> {
    "impl<'a, T> Add<"@ + add_rhs_type_text(l, r) + "> for "@ + add_lhs_type_text(l, r)
        + "\nwhere\n    T: Add<Output = T> + Copy\n{\n    type Output = &'a mut Vector<T>;\n\n    fn add(self, rhs: "@
        + add_rhs_type_text(l, r)
        + ") -> Self::Output {\n        if self.len() != rhs.len() {\n            panic!(\"Vectors with different sizes cannot be added together.\")\n        }\n\n        for idx in 0..self.len() {\n            rhs.list[idx] = self.list[idx] + rhs.list[idx]\n        }\n\n        rhs\n    }\n}\n"@
}

/// Implementation text for the dot product: one body for every mode pair,
/// accumulating from the additive identity and mutating neither operand.
pub open spec fn dot_body_text(l: OperandMode, r: OperandMode) -> Seq<char> {
    "impl<T> Mul<"@ + dot_type_text(r) + "> for "@ + dot_type_text(l)
        + "\nwhere\n    T: Copy + Mul<Output = T> + AddAssign + Default\n{\n    type Output = T;\n\n    fn mul(self, rhs: "@
        + dot_type_text(r)
        + ") -> Self::Output {\n        if self.len() != rhs.len() {\n            panic!(\"Cannot find dot product of two differently sized vectors.\")\n        }\n\n        let mut product = T::default();\n\n        for idx in 0..self.len() {\n            product += self.list[idx] * rhs.list[idx]\n        }\n\n        product\n    }\n}\n"@
}

/// Implementation text for scalar multiplication into a new owned vector,
/// with the scalar on the left of each element multiplication.
pub open spec fn scalar_mul_new_owned_body_text(l: OperandMode) -> Seq<char> {
    "impl<T> Mul<T> for "@ + scalar_mul_type_text(l)
        + "\nwhere\n    T: Copy + Mul<Output = T>\n{\n    type Output = Vector<T>;\n\n    fn mul(self, rhs: T) -> Self::Output {\n        let mut params = Vec::with_capacity(self.len());\n        for item in self.list() {\n            params.push(rhs * *item)\n        }\n        Vector::from(params)\n    }\n}\n"@
}

/// Implementation text for scalar multiplication in place: each original
/// element value is read before the write that replaces it.
pub open spec fn scalar_mul_in_place_body_text() -> Seq<char> {
    "impl<'a, T> Mul<T> for &'a mut Vector<T>\nwhere\n    T: Copy + Mul<Output = T>\n{\n    type Output = &'a mut Vector<T>;\n\n    fn mul(self, rhs: T) -> Self::Output {\n        for idx in 0..self.list.len() {\n            let original = self.list[idx];\n            self.list[idx] = rhs * original;\n        }\n        self\n    }\n}\n"@
}

/// The implementation text the variant table prescribes for a key: the body
/// template selected by the key's mutation-target resolution, instantiated
/// with the operand types the key's modes call for.
pub open spec fn body_text(key: VariantKey) -> Seq<char> {
    match key {
        VariantKey::ElementwiseAdd(l, r) => match add_mutation_target(l, r) {
            Some(Operand::Left) => add_into_left_body_text(l, r),
            Some(Operand::Right) => add_into_right_body_text(l, r),
            None => add_new_owned_body_text(l, r),
        },
        VariantKey::DotProduct(l, r) => dot_body_text(l, r),
        VariantKey::ScalarMultiply(l) => if l is MutBorrowed {
            scalar_mul_in_place_body_text()
        } else {
            scalar_mul_new_owned_body_text(l)
        },
    }
}

fn emit_add_new_owned_body(l: OperandMode, r: OperandMode) -> (res: String)
    ensures
        res@ == add_new_owned_body_text(l, r),
{
    let mut s = "impl<T> Add<".to_owned();
    s.append(add_rhs_type(l, r));
    s.append("> for ");
    s.append(add_lhs_type(l, r));
    s.append(
        "\nwhere\n    T: Add<Output = T> + Copy\n{\n    type Output = Vector<T>;\n\n    fn add(self, rhs: ",
    );
    s.append(add_rhs_type(l, r));
    s.append(
        ") -> Self::Output {\n        if self.len() != rhs.len() {\n            panic!(\"Vectors with different sizes cannot be added together.\")\n        }\n\n        let length = self.len();\n\n        let mut params = Vec::with_capacity(length);\n        for idx in 0..length {\n            params.push(self.list[idx] + rhs.list[idx])\n        }\n\n        Vector::from(params)\n    }\n}\n",
    );
    s
}

fn emit_add_into_left_body(l: OperandMode, r: OperandMode) -> (res: String)
    ensures
        res@ == add_into_left_body_text(l, r),
{
    let mut s = "impl<'a, T> Add<".to_owned();
    s.append(add_rhs_type(l, r));
    s.append("> for ");
    s.append(add_lhs_type(l, r));
    s.append(
        "\nwhere\n    T: Add<Output = T> + Copy\n{\n    type Output = &'a mut Vector<T>;\n\n    fn add(self, rhs: ",
    );
    s.append(add_rhs_type(l, r));
    s.append(
        ") -> Self::Output {\n        if self.len() != rhs.len() {\n            panic!(\"Vectors with different sizes cannot be added together.\")\n        }\n\n        for idx in 0..self.len() {\n            self.list[idx] = self.list[idx] + rhs.list[idx]\n        }\n\n        self\n    }\n}\n",
    );
    s
}

fn emit_add_into_right_body(l: OperandMode, r: OperandMode) -> (res: String)
    ensures
        res@ == add_into_right_body_text(l, r),
{
    let mut s = "impl<'a, T> Add<".to_owned();
    s.append(add_rhs_type(l, r));
    s.append("> for ");
    s.append(add_lhs_type(l, r));
    s.append(
        "\nwhere\n    T: Add<Output = T> + Copy\n{\n    type Output = &'a mut Vector<T>;\n\n    fn add(self, rhs: ",
    );
    s.append(add_rhs_type(l, r));
    s.append(
        ") -> Self::Output {\n        if self.len() != rhs.len() {\n            panic!(\"Vectors with different sizes cannot be added together.\")\n        }\n\n        for idx in 0..self.len() {\n            rhs.list[idx] = self.list[idx] + rhs.list[idx]\n        }\n\n        rhs\n    }\n}\n",
    );
    s
}

fn emit_dot_body(l: OperandMode, r: OperandMode) -> (res: String)
    ensures
        res@ == dot_body_text(l, r),
{
    let mut s = "impl<T> Mul<".to_owned();
    s.append(dot_type(r));
    s.append("> for ");
    s.append(dot_type(l));
    s.append(
        "\nwhere\n    T: Copy + Mul<Output = T> + AddAssign + Default\n{\n    type Output = T;\n\n    fn mul(self, rhs: ",
    );
    s.append(dot_type(r));
    s.append(
        ") -> Self::Output {\n        if self.len() != rhs.len() {\n            panic!(\"Cannot find dot product of two differently sized vectors.\")\n        }\n\n        let mut product = T::default();\n\n        for idx in 0..self.len() {\n            product += self.list[idx] * rhs.list[idx]\n        }\n\n        product\n    }\n}\n",
    );
    s
}

fn emit_scalar_mul_new_owned_body(l: OperandMode) -> (res: String)
    ensures
        res@ == scalar_mul_new_owned_body_text(l),
{
    let mut s = "impl<T> Mul<T> for ".to_owned();
    s.append(scalar_mul_type(l));
    s.append(
        "\nwhere\n    T: Copy + Mul<Output = T>\n{\n    type Output = Vector<T>;\n\n    fn mul(self, rhs: T) -> Self::Output {\n        let mut params = Vec::with_capacity(self.len());\n        for item in self.list() {\n            params.push(rhs * *item)\n        }\n        Vector::from(params)\n    }\n}\n",
    );
    s
}

fn emit_scalar_mul_in_place_body() -> (res: String)
    ensures
        res@ == scalar_mul_in_place_body_text(),
{
    "impl<'a, T> Mul<T> for &'a mut Vector<T>\nwhere\n    T: Copy + Mul<Output = T>\n{\n    type Output = &'a mut Vector<T>;\n\n    fn mul(self, rhs: T) -> Self::Output {\n        for idx in 0..self.list.len() {\n            let original = self.list[idx];\n            self.list[idx] = rhs * original;\n        }\n        self\n    }\n}\n".to_owned()
}

/// Emits the implementation source text for a variant-table key.
pub fn emit_body(key: VariantKey) -> (res: String)
    ensures
        res@ == body_text(key),
{
    match key {
        VariantKey::ElementwiseAdd(l, r) => match l {
            OperandMode::MutBorrowed => emit_add_into_left_body(l, r),
            _ => match r {
                OperandMode::MutBorrowed => emit_add_into_right_body(l, r),
                _ => emit_add_new_owned_body(l, r),
            },
        },
        VariantKey::DotProduct(l, r) => emit_dot_body(l, r),
        VariantKey::ScalarMultiply(l) => match l {
            OperandMode::MutBorrowed => emit_scalar_mul_in_place_body(),
            _ => emit_scalar_mul_new_owned_body(l),
        },
    }
}

} // verus!
