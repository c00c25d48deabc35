use std::ops::{Add, Div, Mul, Sub};
use symbolic::{
    exp, log, pow, Bindings, Constant, Derivative, DisplayExpr, Evaluate, Expable, Identity, Logarithm,
    Pow, TryReplace, VariableGenerator, VariableId, Zero,
};

/// A single-precision number as a numeric type of the library.
#[derive(Clone, Copy, Debug, PartialEq)]
struct Real(f32);

impl Zero for Real {
    fn zero() -> Real {
        Real(0.0)
    }
}

impl Identity for Real {
    fn identity() -> Real {
        Real(1.0)
    }
}

impl Add for Real {
    type Output = Real;

    fn add(self, rhs: Real) -> Real {
        Real(self.0 + rhs.0)
    }
}

impl Sub for Real {
    type Output = Real;

    fn sub(self, rhs: Real) -> Real {
        Real(self.0 - rhs.0)
    }
}

impl Mul for Real {
    type Output = Real;

    fn mul(self, rhs: Real) -> Real {
        Real(self.0 * rhs.0)
    }
}

impl Div for Real {
    type Output = Real;

    fn div(self, rhs: Real) -> Real {
        Real(self.0 / rhs.0)
    }
}

impl Pow for Real {
    type Output = Real;

    fn pow(self, rhs: Real) -> Real {
        Real(self.0.powf(rhs.0))
    }
}

impl Logarithm for Real {
    type Output = Real;

    fn log(self) -> Real {
        Real(self.0.ln())
    }
}

impl Expable for Real {
    type Output = Real;

    fn exp(self) -> Real {
        Real(self.0.exp())
    }
}

#[test]
fn evaluate() {
    let x = VariableId::new(0);
    let one = Constant::new(Real(1.0));
    let two = Constant::new(Real(2.0));
    let sum = one + two;
    assert_eq!(sum.evaluate(), Real(3.0));
    let slope: Real = sum.derivative(x).evaluate();
    assert_eq!(slope, Real(0.0));
}

#[test]
fn try_evaluate() {
    let x = VariableId::new(0);
    let sum = Constant::new(2) + x;
    let mut env = Bindings::new();
    env.insert(x, 1);
    assert_eq!(sum.try_replace(&env).unwrap().evaluate(), 3);
    let slope: i32 = sum.derivative(x).evaluate();
    assert_eq!(slope, 1);
}

#[test]
fn derivative() {
    let mut gen = VariableGenerator::new();
    let x = gen.var();
    let y = gen.var();
    let expr = x + y * x + pow(x, y);
    let mut env = Bindings::new();
    env.insert(x, Real(3.0));
    env.insert(y, Real(5.0));
    assert_eq!(expr.try_replace(&env).unwrap().evaluate(), Real(261.0));
    assert_eq!(expr.derivative(x).try_replace(&env).unwrap().evaluate(), Real(411.0));
    assert_eq!(
        expr.derivative(y).derivative(x).try_replace(&env).unwrap().evaluate(),
        Real(1174.938)
    );
    assert_eq!(
        expr.derivative(x).derivative(x).derivative(x).try_replace(&env).unwrap().evaluate(),
        Real(540.0)
    );
}

#[test]
fn display() {
    let mut gen = VariableGenerator::new();
    let x = gen.var();
    let y = gen.var();
    let _1 = Constant::new("1");
    let _2 = Constant::new("2");
    let expr = x + y * (x + _1) + pow(pow(x, _2), y) + log(x);
    let mut env = Bindings::new();
    env.insert(x, "x");
    env.insert(y, "y");
    assert_eq!(expr.try_replace(&env).unwrap().to_string(), "x+y*(x+1)+(x^2)^y+log(x)");
}

#[test]
fn logarithm_and_exponential_evaluate() {
    assert_eq!(log(Constant::new(Real(1.0))).evaluate(), Real(0.0));
    assert_eq!(exp(Constant::new(Real(0.0))).evaluate(), Real(1.0));
    assert_eq!(pow(Constant::new(Real(2.0)), Constant::new(Real(0.5))).evaluate(), Real(2.0f32.sqrt()));
}

#[test]
fn derivative_of_exponential_and_logarithm() {
    let x = VariableId::new(0);
    let mut env = Bindings::new();
    env.insert(x, Real(0.0));
    // exp(x) becomes exp(x) * 1
    assert_eq!(exp(x).derivative(x).try_replace(&env).unwrap().evaluate(), Real(1.0));
    env.insert(x, Real(2.0));
    // log(x) becomes x / 1
    assert_eq!(log(x).derivative(x).try_replace(&env).unwrap().evaluate(), Real(2.0));
}

#[test]
fn derivative_without_the_variable_is_zero_in_reals() {
    let x = VariableId::new(0);
    let y = VariableId::new(1);
    let tree = pow(x, Constant::new(Real(3.0))) * exp(x) - x / Constant::new(Real(4.0));
    let mut env = Bindings::new();
    env.insert(x, Real(1.5));
    assert_eq!(tree.derivative(y).try_replace(&env).unwrap().evaluate(), Real(0.0));
}

#[test]
fn derivative_of_logarithm_of_a_constant_divides_by_zero() {
    let x = VariableId::new(0);
    let slope: Real = log(Constant::new(Real(5.0))).derivative(x).evaluate();
    assert_eq!(slope, Real(f32::INFINITY));
}
