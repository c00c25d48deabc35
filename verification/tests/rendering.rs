use symbolic::{
    exp, log, pow, Constant, Derivative, DisplayExpr, Literal, Morph, Operation, OperationOrder,
    VariableId,
};

fn c(value: i32) -> Constant<i32> {
    Constant::new(value)
}

#[test]
fn leaves_are_written() {
    assert_eq!(c(42).to_string(), "42");
    assert_eq!(c(0).to_string(), "0");
    assert_eq!(c(-12).to_string(), "-12");
    assert_eq!(Morph::Zero.to_string(), "0");
    assert_eq!(Morph::Identity.to_string(), "1");
    assert_eq!(VariableId::new(3).to_string(), "variable(#3)");
    assert_eq!(VariableId::new(120).to_string(), "variable(#120)");
}

#[test]
fn integers_are_written_in_decimal() {
    assert_eq!(7.literal(), "7");
    assert_eq!(10.literal(), "10");
    assert_eq!(1090.literal(), "1090");
    assert_eq!(i32::MAX.literal(), "2147483647");
    assert_eq!(i32::MIN.literal(), "-2147483648");
    assert_eq!((-1).literal(), "-1");
}

#[test]
fn text_is_written_as_it_is() {
    assert_eq!("x".literal(), "x");
    assert_eq!(String::from("alpha").literal(), "alpha");
    assert_eq!(Constant::new("y").to_string(), "y");
}

#[test]
fn operand_that_binds_less_tightly_gets_parentheses() {
    assert_eq!(((c(1) + c(2)) * c(3)).to_string(), "(1+2)*3");
    assert_eq!((c(1) * (c(2) - c(3))).to_string(), "1*(2-3)");
    assert_eq!(((c(1) + c(2)) / c(3)).to_string(), "(1+2)/3");
    assert_eq!(pow(c(1) * c(2), c(3) + c(4)).to_string(), "(1*2)^(3+4)");
    assert_eq!(pow(c(1) / c(2), c(3)).to_string(), "(1/2)^3");
}

#[test]
fn operand_that_binds_more_tightly_gets_none() {
    assert_eq!((c(1) * c(2) + c(3)).to_string(), "1*2+3");
    assert_eq!((c(1) - c(2) / c(3)).to_string(), "1-2/3");
    assert_eq!((pow(c(1), c(2)) * c(3)).to_string(), "1^2*3");
    assert_eq!((c(1) + pow(c(2), c(3))).to_string(), "1+2^3");
}

#[test]
fn operands_of_the_same_level_get_none() {
    assert_eq!((c(1) + c(2) + c(3)).to_string(), "1+2+3");
    assert_eq!((c(1) - (c(2) - c(3))).to_string(), "1-2-3");
    assert_eq!((c(1) - (c(2) + c(3))).to_string(), "1-2+3");
    assert_eq!((c(1) + (c(2) - c(3))).to_string(), "1+2-3");
    assert_eq!((c(1) * (c(2) / c(3))).to_string(), "1*2/3");
    assert_eq!((c(8) / (c(4) * c(2))).to_string(), "8/4*2");
    assert_eq!(((c(8) / c(4)) / c(2)).to_string(), "8/4/2");
    assert_eq!((c(8) / (c(4) / c(2))).to_string(), "8/4/2");
}

#[test]
fn power_under_power_gets_parentheses() {
    assert_eq!(pow(pow(c(1), c(2)), c(3)).to_string(), "(1^2)^3");
    assert_eq!(pow(c(1), pow(c(2), c(3))).to_string(), "1^(2^3)");
}

#[test]
fn function_calls_are_written_with_their_name() {
    assert_eq!(log(c(5)).to_string(), "log(5)");
    assert_eq!(exp(c(5)).to_string(), "exp(5)");
    assert_eq!(exp(c(1) + c(2)).to_string(), "exp(1+2)");
    assert_eq!(log(pow(c(1), c(2))).to_string(), "log(1^2)");
    assert_eq!((log(c(1)) * exp(log(c(2)))).to_string(), "log(1)*exp(log(2))");
    assert_eq!(pow(exp(c(1)), log(c(2))).to_string(), "exp(1)^log(2)");
}

#[test]
fn derivative_is_written_unsimplified() {
    let x = VariableId::new(0);
    assert_eq!((x * c(3)).derivative(x).to_string(), "variable(#0)*0+1*3");
    assert_eq!((x / c(3)).derivative(x).to_string(), "1/3-variable(#0)*0/3*3");
}

#[test]
fn operand_text_depends_on_the_parent() {
    let sum = c(1) + c(2);
    assert_eq!(sum.display_expr(&None), "1+2");
    assert_eq!(sum.display_expr(&Some(OperationOrder::Add)), "1+2");
    assert_eq!(sum.display_expr(&Some(OperationOrder::Sub)), "1+2");
    assert_eq!(sum.display_expr(&Some(OperationOrder::Mul)), "(1+2)");
    assert_eq!(sum.display_expr(&Some(OperationOrder::Div)), "(1+2)");
    assert_eq!(sum.display_expr(&Some(OperationOrder::Pow)), "(1+2)");
    let power = pow(c(1), c(2));
    assert_eq!(power.display_expr(&Some(OperationOrder::Pow)), "(1^2)");
    assert_eq!(power.display_expr(&Some(OperationOrder::Mul)), "1^2");
    assert_eq!(c(1).display_expr(&Some(OperationOrder::Pow)), "1");
    assert_eq!(log(c(1)).display_expr(&Some(OperationOrder::Pow)), "log(1)");
}

#[test]
fn each_node_names_its_operator() {
    assert_eq!((c(1) + c(2)).operation(), Some(OperationOrder::Add));
    assert_eq!((c(1) - c(2)).operation(), Some(OperationOrder::Sub));
    assert_eq!((c(1) * c(2)).operation(), Some(OperationOrder::Mul));
    assert_eq!((c(1) / c(2)).operation(), Some(OperationOrder::Div));
    assert_eq!(pow(c(1), c(2)).operation(), Some(OperationOrder::Pow));
    assert_eq!(log(c(1)).operation(), None);
    assert_eq!(exp(c(1)).operation(), None);
    assert_eq!(c(1).operation(), None);
    assert_eq!(Morph::Zero.operation(), None);
    assert_eq!(VariableId::new(0).operation(), None);
    assert_eq!(OperationOrder::Add.precedence(), OperationOrder::Sub.precedence());
    assert_eq!(OperationOrder::Mul.precedence(), OperationOrder::Div.precedence());
    assert!(OperationOrder::Sub.precedence() < OperationOrder::Mul.precedence());
    assert!(OperationOrder::Div.precedence() < OperationOrder::Pow.precedence());
}

#[test]
fn quotient_of_a_quotient_of_text() {
    let quotient = Constant::new("a") / Constant::new("b");
    assert_eq!((quotient / Constant::new("c")).to_string(), "a/b/c");
}

#[test]
fn every_integer_type_is_written_in_decimal() {
    assert_eq!(0u8.literal(), "0");
    assert_eq!(u8::MAX.literal(), "255");
    assert_eq!(u16::MAX.literal(), "65535");
    assert_eq!(u32::MAX.literal(), "4294967295");
    assert_eq!(u64::MAX.literal(), "18446744073709551615");
    assert_eq!(u128::MAX.literal(), "340282366920938463463374607431768211455");
    assert_eq!(1234usize.literal(), "1234");
    assert_eq!(i8::MIN.literal(), "-128");
    assert_eq!(i8::MAX.literal(), "127");
    assert_eq!(i16::MIN.literal(), "-32768");
    assert_eq!(i64::MIN.literal(), "-9223372036854775808");
    assert_eq!(i64::MAX.literal(), "9223372036854775807");
    assert_eq!(i128::MIN.literal(), "-170141183460469231731687303715884105728");
    assert_eq!(i128::MAX.literal(), "170141183460469231731687303715884105727");
    assert_eq!((-1isize).literal(), "-1");
    assert_eq!(0i64.literal(), "0");
}

#[test]
fn constants_of_other_integer_types_are_written() {
    assert_eq!((Constant::new(200u8) + Constant::new(55u8)).to_string(), "200+55");
    assert_eq!((Constant::new(-5i64) * Constant::new(7i64)).to_string(), "-5*7");
    assert_eq!(pow(Constant::new(10u64), Constant::new(19u64)).to_string(), "10^19");
}
