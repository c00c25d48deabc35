use symbolic::{
    exp, log, pow, Bindings, Constant, Derivative, Divide, Exp, Log, Minus, Morph, Plus, Power,
    Times, TryReplace, TryReplaceError, VariableGenerator, VariableId,
};

#[test]
fn variable_becomes_the_constant_bound_to_it() {
    let x = VariableId::new(4);
    let mut env = Bindings::new();
    env.insert(x, 11);
    assert_eq!(x.try_replace(&env), Ok(Constant::new(11)));
}

#[test]
fn unbound_variable_is_named_in_the_error() {
    let x = VariableId::new(4);
    let mut env = Bindings::new();
    env.insert(VariableId::new(5), 11);
    assert_eq!(x.try_replace(&env), Err(TryReplaceError::MissingUnknown(x)));
    assert_eq!(x.try_replace(&env), Err(TryReplaceError::MissingUnknown(VariableId::new(4))));
}

#[test]
fn constant_and_morph_are_unchanged() {
    let env: Bindings<i32> = Bindings::new();
    assert_eq!(Constant::new(8).try_replace(&env), Ok(Constant::new(8)));
    assert_eq!(Morph::Zero.try_replace(&env), Ok(Morph::Zero));
    assert_eq!(Morph::Identity.try_replace(&env), Ok(Morph::Identity));
}

#[test]
fn every_node_replaces_its_operands() {
    let x = VariableId::new(0);
    let y = VariableId::new(1);
    let mut env = Bindings::new();
    env.insert(x, 2);
    env.insert(y, 3);
    let a = Constant::new(2);
    let b = Constant::new(3);
    assert_eq!(Plus::new(x, y).try_replace(&env), Ok(Plus::new(a, b)));
    assert_eq!(Minus::new(x, y).try_replace(&env), Ok(Minus::new(a, b)));
    assert_eq!(Times::new(x, y).try_replace(&env), Ok(Times::new(a, b)));
    assert_eq!(Divide::new(x, y).try_replace(&env), Ok(Divide::new(a, b)));
    assert_eq!(Power::new(x, y).try_replace(&env), Ok(Power::new(a, b)));
    assert_eq!(pow(x, y).try_replace(&env), Ok(pow(a, b)));
    assert_eq!(Log::new(x).try_replace(&env), Ok(log(a)));
    assert_eq!(Exp::new(y).try_replace(&env), Ok(exp(b)));
}

#[test]
fn first_missing_variable_is_the_leftmost() {
    let x = VariableId::new(0);
    let y = VariableId::new(1);
    let z = VariableId::new(2);
    let tree = (x - y) * log(z) + pow(y, x);
    let mut env = Bindings::new();
    assert_eq!(tree.try_replace(&env).unwrap_err(), TryReplaceError::MissingUnknown(x));
    env.insert(z, 1);
    env.insert(y, 1);
    assert_eq!(tree.try_replace(&env).unwrap_err(), TryReplaceError::MissingUnknown(x));
    env.insert(x, 1);
    assert!(tree.try_replace(&env).is_ok());
}

#[test]
fn missing_variable_in_the_right_operand() {
    let x = VariableId::new(0);
    let y = VariableId::new(1);
    let z = VariableId::new(2);
    let mut env = Bindings::new();
    env.insert(x, 1);
    assert_eq!(
        Divide::new(x, Times::new(y, z)).try_replace(&env).unwrap_err(),
        TryReplaceError::MissingUnknown(y)
    );
    env.insert(y, 1);
    assert_eq!(
        Divide::new(x, Times::new(y, z)).try_replace(&env).unwrap_err(),
        TryReplaceError::MissingUnknown(z)
    );
    assert_eq!(exp(Minus::new(x, z)).try_replace(&env).unwrap_err(), TryReplaceError::MissingUnknown(z));
}

#[test]
fn later_binding_takes_the_place_of_an_earlier_one() {
    let x = VariableId::new(0);
    let mut env = Bindings::new();
    env.insert(x, 1);
    env.insert(x, 2);
    assert_eq!(env.get(x), Some(&2));
    assert_eq!(env.get(VariableId::new(1)), None);
    assert_eq!(x.try_replace(&env), Ok(Constant::new(2)));
}

#[test]
fn error_is_written_with_the_variable() {
    let error = TryReplaceError::MissingUnknown(VariableId::new(17));
    assert_eq!(error.to_string(), "MissingUnknown(VariableId(17))");
    assert_eq!(
        TryReplaceError::MissingUnknown(VariableId::new(0)).to_string(),
        "MissingUnknown(VariableId(0))"
    );
    assert_eq!(
        TryReplaceError::MissingUnknown(VariableId::new(u32::MAX)).to_string(),
        "MissingUnknown(VariableId(4294967295))"
    );
}

#[test]
fn generator_hands_out_each_variable_once() {
    let mut gen = VariableGenerator::new();
    let a = gen.var();
    let b = gen.var();
    let c = gen.var();
    assert_eq!(a, VariableId::new(0));
    assert_eq!(b, VariableId::new(1));
    assert_eq!(c, VariableId::new(2));
    assert_ne!(a, b);
    assert_ne!(b, c);
}

#[test]
fn bindings_that_cover_a_tree_cover_its_derivative() {
    let x = VariableId::new(0);
    let y = VariableId::new(1);
    let z = VariableId::new(2);
    let mut env = Bindings::new();
    env.insert(x, 2);
    env.insert(y, 3);
    assert!((x * y).try_replace(&env).is_ok());
    assert!((x * y).derivative(x).try_replace(&env).is_ok());
    assert!((x * y).derivative(z).try_replace(&env).is_ok());
    assert!((x / y - pow(y, x)).derivative(y).try_replace(&env).is_ok());
    assert!(exp(log(x) + y).derivative(x).derivative(y).try_replace(&env).is_ok());
    assert_eq!(
        (x * z).derivative(x).try_replace(&env).unwrap_err(),
        TryReplaceError::MissingUnknown(z)
    );
}
