use symbolic::{
    constant, pow, Bindings, Constant, Derivative, Divide, Evaluate, Identity, Minus, Morph, Plus,
    Pow, Power, Times, TryEvaluate, TryReplace, TryReplaceError, VariableId, Zero,
};

#[test]
fn constant_evaluates_to_its_value() {
    assert_eq!(Constant::new(7).evaluate(), 7);
    assert_eq!(constant(-3).evaluate(), -3);
}

#[test]
fn morph_evaluates_to_the_identities() {
    let zero: i32 = Morph::Zero.evaluate();
    let one: i32 = Morph::Identity.evaluate();
    assert_eq!(zero, 0);
    assert_eq!(one, 1);
    assert_eq!(<i32 as Zero>::zero(), 0);
    assert_eq!(<i32 as Identity>::identity(), 1);
}

#[test]
fn arithmetic_nodes_evaluate() {
    let a = Constant::new(17);
    let b = Constant::new(5);
    assert_eq!(Plus::new(a, b).evaluate(), 22);
    assert_eq!(Minus::new(a, b).evaluate(), 12);
    assert_eq!(Times::new(a, b).evaluate(), 85);
    assert_eq!(Divide::new(a, b).evaluate(), 3);
    assert_eq!(Power::new(b, Constant::new(3)).evaluate(), 125);
}

#[test]
fn integer_quotient_truncates_toward_zero() {
    assert_eq!(Divide::new(Constant::new(-7), Constant::new(2)).evaluate(), -3);
    assert_eq!(Divide::new(Constant::new(7), Constant::new(-2)).evaluate(), -3);
    assert_eq!(Divide::new(Constant::new(-7), Constant::new(-2)).evaluate(), 3);
}

#[test]
fn integer_power() {
    assert_eq!(Pow::pow(2, 10), 1024);
    assert_eq!(Pow::pow(-2, 31), i32::MIN);
    assert_eq!(Pow::pow(2, 30), 1 << 30);
    assert_eq!(Pow::pow(-3, 3), -27);
    assert_eq!(Pow::pow(46340, 2), 2147395600);
    assert_eq!(Pow::pow(7, 0), 1);
    assert_eq!(Pow::pow(0, 0), 1);
    assert_eq!(Pow::pow(0, 5), 0);
    assert_eq!(Pow::pow(1, 1000), 1);
    assert_eq!(Pow::pow(-1, 1001), -1);
    assert_eq!(Pow::pow(-1, 1000), 1);
}

#[test]
fn negative_exponent_is_read_as_unsigned() {
    // -1 has the bits of 4294967295, which is odd; -2 those of 4294967294.
    assert_eq!(Pow::pow(-1, -1), -1);
    assert_eq!(Pow::pow(-1, -2), 1);
    assert_eq!(Pow::pow(1, -5), 1);
    assert_eq!(Pow::pow(0, -1), 0);
    assert_eq!(pow(Constant::new(-1), Constant::new(i32::MIN)).evaluate(), 1);
}

#[test]
fn nested_tree_evaluates() {
    // (2 + 3) * (10 - 4) / 3 ^ 1
    let tree = (Constant::new(2) + Constant::new(3)) * (Constant::new(10) - Constant::new(4))
        / pow(Constant::new(3), Constant::new(1));
    assert_eq!(tree.evaluate(), 10);
}

#[test]
fn closed_tree_is_unchanged_by_substitution() {
    let tree = Constant::new(4) * Constant::new(5) - Constant::new(6) / Constant::new(3);
    let empty = Bindings::new();
    let replaced = tree.try_replace(&empty).unwrap();
    assert_eq!(replaced, tree);
    assert_eq!(replaced.evaluate(), tree.evaluate());
    assert_eq!(tree.evaluate(), 18);
    let mut some = Bindings::new();
    some.insert(VariableId::new(9), 1);
    assert_eq!(tree.try_replace(&some).unwrap(), tree);
}

#[test]
fn closed_tree_with_morph_is_unchanged_by_substitution() {
    let tree = Plus::new(Morph::Identity, Constant::new(41));
    let empty: Bindings<i32> = Bindings::new();
    let replaced = tree.try_replace(&empty).unwrap();
    assert_eq!(replaced, tree);
    assert_eq!(replaced.evaluate(), 42);
}

#[test]
fn one_pass_evaluation_agrees_with_substitution() {
    let x = VariableId::new(0);
    let y = VariableId::new(1);
    let tree = (x + Constant::new(2)) * y - pow(x, Constant::new(2)) / y;
    let mut env = Bindings::new();
    env.insert(x, 6);
    env.insert(y, 4);
    let by_substitution = tree.try_replace(&env).unwrap().evaluate();
    assert_eq!(by_substitution, 23);
    assert_eq!(tree.try_evaluate(&env), Ok(23));
}

#[test]
fn one_pass_evaluation_names_the_first_missing_variable() {
    let x = VariableId::new(0);
    let y = VariableId::new(1);
    let z = VariableId::new(2);
    let tree = x * y + z;
    let mut env = Bindings::new();
    assert_eq!(tree.try_evaluate(&env), Err(TryReplaceError::MissingUnknown(x)));
    env.insert(y, 3);
    assert_eq!(tree.try_evaluate(&env), Err(TryReplaceError::MissingUnknown(x)));
    env.insert(x, 2);
    assert_eq!(tree.try_evaluate(&env), Err(TryReplaceError::MissingUnknown(z)));
    env.insert(z, 1);
    assert_eq!(tree.try_evaluate(&env), Ok(7));
}

#[test]
fn one_pass_evaluation_of_leaves() {
    let env: Bindings<i32> = Bindings::new();
    assert_eq!(Constant::new(5).try_evaluate(&env), Ok(5));
    assert_eq!(Morph::Zero.try_evaluate(&env), Ok(0));
    assert_eq!(Morph::Identity.try_evaluate(&env), Ok(1));
    let x = VariableId::new(3);
    assert_eq!(x.try_evaluate(&env), Err(TryReplaceError::MissingUnknown(x)));
}

#[test]
fn derivative_of_constant_evaluates_to_zero() {
    let c = Constant::new(12);
    let slope: i32 = c.derivative(VariableId::new(0)).evaluate();
    assert_eq!(slope, 0);
    let other: i32 = c.derivative(VariableId::new(77)).evaluate();
    assert_eq!(other, 0);
}

#[test]
fn derivative_without_the_variable_evaluates_to_zero() {
    let x = VariableId::new(0);
    let y = VariableId::new(1);
    let z = VariableId::new(2);
    let tree = (x * y + Constant::new(3)) / (y - Constant::new(1));
    let mut env = Bindings::new();
    env.insert(x, 2);
    env.insert(y, 5);
    let slope = tree.derivative(z).try_replace(&env).unwrap().evaluate();
    assert_eq!(slope, 0);
    env.insert(x, -40);
    env.insert(y, 9);
    assert_eq!(tree.derivative(z).try_evaluate(&env), Ok(0));
}

#[test]
fn quotient_of_a_quotient_divides_twice() {
    let tree = (Constant::new(1) / Constant::new(65536)) / Constant::new(65536);
    assert_eq!(tree, Divide::new(Divide::new(Constant::new(1), Constant::new(65536)), Constant::new(65536)));
    assert_eq!(tree.evaluate(), 0);
    assert_eq!(((Constant::new(100) / Constant::new(7)) / Constant::new(3)).evaluate(), 4);
}
