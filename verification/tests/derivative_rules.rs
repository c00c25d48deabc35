use symbolic::{
    exp, log, pow, Constant, Derivative, Divide, Exp, Log, Minus, Morph, Plus, Power, Times,
    VariableId,
};

const ZERO: Morph = Morph::Zero;
const ONE: Morph = Morph::Identity;

#[test]
fn leaves() {
    let x = VariableId::new(0);
    let y = VariableId::new(1);
    assert_eq!(Constant::new(5).derivative(x), ZERO);
    assert_eq!(x.derivative(x), ONE);
    assert_eq!(x.derivative(y), ZERO);
    assert_eq!(ZERO.derivative(x), ZERO);
    assert_eq!(ONE.derivative(x), ZERO);
}

#[test]
fn sum_and_difference() {
    let x = VariableId::new(0);
    let y = VariableId::new(1);
    assert_eq!((x + y).derivative(x), Plus::new(ONE, ZERO));
    assert_eq!((x - y).derivative(y), Minus::new(ZERO, ONE));
}

#[test]
fn product_rule() {
    let x = VariableId::new(0);
    let y = VariableId::new(1);
    assert_eq!((x * y).derivative(x), Plus::new(Times::new(x, ZERO), Times::new(ONE, y)));
}

#[test]
fn quotient_rule() {
    let x = VariableId::new(0);
    let y = VariableId::new(1);
    assert_eq!(
        (x / y).derivative(y),
        Minus::new(Divide::new(ZERO, y), Divide::new(Times::new(x, ONE), Times::new(y, y)))
    );
}

#[test]
fn power_rule() {
    let x = VariableId::new(0);
    let y = VariableId::new(1);
    assert_eq!(
        pow(x, y).derivative(x),
        Times::new(
            Power::new(x, y),
            Plus::new(Divide::new(Times::new(y, ONE), x), Times::new(Log::new(x), ZERO))
        )
    );
}

#[test]
fn logarithm_divides_the_argument_by_its_derivative() {
    let x = VariableId::new(0);
    assert_eq!(log(x).derivative(x), Divide::new(x, ONE));
    let c = Constant::new(3);
    assert_eq!(
        log(x * c).derivative(x),
        Divide::new(x * c, Plus::new(x * ZERO, Times::new(ONE, c)))
    );
}

#[test]
fn exponential_rule() {
    let x = VariableId::new(0);
    assert_eq!(exp(x).derivative(x), Times::new(Exp::new(x), ONE));
}

#[test]
fn derivative_can_be_differentiated_again() {
    let x = VariableId::new(0);
    let first = (x * x).derivative(x);
    assert_eq!(first, Plus::new(x * ONE, Times::new(ONE, x)));
    let second = first.derivative(x);
    assert_eq!(
        second,
        Plus::new(
            Plus::new(x * ZERO, Times::new(ONE, ONE)),
            Plus::new(Times::new(ONE, ONE), Times::new(ZERO, x))
        )
    );
}

#[test]
fn dividing_a_quotient_builds_a_quotient_of_it() {
    let x = VariableId::new(0);
    let y = VariableId::new(1);
    let z = VariableId::new(2);
    assert_eq!((x / y) / z, Divide::new(Divide::new(x, y), z));
    assert_eq!(x / (y / z), Divide::new(x, Divide::new(y, z)));
    assert_eq!((x * y) / z, Divide::new(Times::new(x, y), z));
    assert_eq!((x / y) * z, Times::new(Divide::new(x, y), z));
    assert_eq!((x / y) + z, Plus::new(Divide::new(x, y), z));
    assert_eq!((x / y) - z, Minus::new(Divide::new(x, y), z));
}

#[test]
fn operators_build_the_node_of_their_sign() {
    let x = VariableId::new(0);
    let c = Constant::new(1);
    assert_eq!(c + x, Plus::new(c, x));
    assert_eq!(c - x, Minus::new(c, x));
    assert_eq!(c * x, Times::new(c, x));
    assert_eq!(c / x, Divide::new(c, x));
    assert_eq!(log(x) + c, Plus::new(Log::new(x), c));
    assert_eq!(exp(x) - c, Minus::new(Exp::new(x), c));
    assert_eq!(pow(x, c) * c, Times::new(Power::new(x, c), c));
    assert_eq!((x + c) / c, Divide::new(Plus::new(x, c), c));
    assert_eq!((x - c) + c, Plus::new(Minus::new(x, c), c));
    assert_eq!((x * c) - c, Minus::new(Times::new(x, c), c));
}
