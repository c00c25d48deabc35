//! Trees as text: infix notation, with parentheses only where the operators'
//! precedence asks for them.
use vstd::prelude::*;
use vstd::string::*;

verus! {

/// The operator of a node that has one. Sums and differences bind least,
/// products and quotients more, powers most.
#[derive(Clone, Copy, Debug, PartialEq, Eq, Structural)]
pub enum OperationOrder {
    Add,
    Sub,
    Mul,
    Div,
    Pow,
}

impl OperationOrder {
    /// How tightly the operator binds: the higher, the tighter.
    pub open spec fn level(self) -> nat {
        match self {
            OperationOrder::Add | OperationOrder::Sub => 1,
            OperationOrder::Mul | OperationOrder::Div => 2,
            OperationOrder::Pow => 3,
        }
    }

    /// The operator's level, as a number that can be compared.
    pub fn precedence(&self) -> (level: u8)
        ensures
            level == self.level(),
    {
        match self {
            OperationOrder::Add | OperationOrder::Sub => 1,
            OperationOrder::Mul | OperationOrder::Div => 2,
            OperationOrder::Pow => 3,
        }
    }
}

/// Whether an operand stands in parentheses: where its operator binds less
/// tightly than the one above it, and where a power stands under a power.
/// A node without an operator never does, nor an operand of such a node.
pub open spec fn parenthesized(
    operation: Option<OperationOrder>,
    parent_operation: Option<OperationOrder>,
) -> bool {
    operation matches Some(op) && parent_operation matches Some(parent_op) && {
        ||| op.level() < parent_op.level()
        ||| (op == OperationOrder::Pow && parent_op == OperationOrder::Pow)
    }
}

/// `text`, in parentheses if `parentheses` says so.
pub open spec fn enclosed(text: Seq<char>, parentheses: bool) -> Seq<char> {
    if parentheses {
        seq!['('] + text + seq![')']
    } else {
        text
    }
}

/// The operator of a node.
pub trait Operation {
    /// The node's operator; `None` for a node that is written as a name, a
    /// number or a function call.
    spec fn class(&self) -> Option<OperationOrder>;

    fn operation(&self) -> (operation: Option<OperationOrder>)
        ensures
            operation == self.class(),
    ;
}

/// A tree that can be written as text.
pub trait DisplayExpr: Operation {
    /// The tree in infix notation, with no more parentheses than
    /// [`parenthesized`] asks for.
    spec fn text(&self) -> Seq<char>;

    fn to_string(&self) -> (text: String)
        ensures
            text@ == self.text(),
    ;

    /// The tree as an operand of a node whose operator is `parent_operation`.
    fn display_expr(&self, parent_operation: &Option<OperationOrder>) -> (text: String)
        ensures
            text@ == enclosed(self.text(), parenthesized(self.class(), *parent_operation)),
    {
        let add_parentheses = match (self.operation(), parent_operation) {
            (Some(OperationOrder::Pow), Some(OperationOrder::Pow)) => true,
            (Some(op), Some(parent_op)) => op.precedence() < parent_op.precedence(),
            _ => false,
        };
        if add_parentheses {
            let inner = self.to_string();
            let mut text = String::from_str("(");
            text.append(inner.as_str());
            text.append(")");
            proof {
                reveal_strlit("(");
                reveal_strlit(")");
                assert(text@ =~= enclosed(self.text(), true));
            }
            text
        } else {
            self.to_string()
        }
    }
}

/// The text of `operand` under a node whose operator is `parent_operation`.
pub open spec fn operand_text<A: DisplayExpr + ?Sized>(
    operand: &A,
    parent_operation: Option<OperationOrder>,
) -> Seq<char> {
    enclosed(operand.text(), parenthesized(operand.class(), parent_operation))
}

/// The text of a node with two operands and the operator sign between them.
pub open spec fn infix_text<A: DisplayExpr, B: DisplayExpr>(
    left: &A,
    sign: char,
    right: &B,
    operation: OperationOrder,
) -> Seq<char> {
    operand_text(left, Some(operation)) + seq![sign] + operand_text(right, Some(operation))
}

/// The text of a function call with one argument.
pub open spec fn call_text<A: DisplayExpr>(name: Seq<char>, argument: &A) -> Seq<char> {
    name + seq!['('] + operand_text(argument, None) + seq![')']
}

/// The character of a decimal digit.
pub open spec fn digit(d: nat) -> char {
    if d == 0 {
        '0'
    } else if d == 1 {
        '1'
    } else if d == 2 {
        '2'
    } else if d == 3 {
        '3'
    } else if d == 4 {
        '4'
    } else if d == 5 {
        '5'
    } else if d == 6 {
        '6'
    } else if d == 7 {
        '7'
    } else if d == 8 {
        '8'
    } else {
        '9'
    }
}

/// A natural number in decimal notation, without leading zeros.
pub open spec fn decimal(n: nat) -> Seq<char>
    decreases n,
{
    if n < 10 {
        seq![digit(n)]
    } else {
        decimal(n / 10).push(digit(n % 10))
    }
}

/// An integer in decimal notation, with a minus sign where it is negative.
pub open spec fn signed_decimal(n: int) -> Seq<char> {
    if n < 0 {
        seq!['-'] + decimal((-n) as nat)
    } else {
        decimal(n as nat)
    }
}

fn digit_text(d: u128) -> (text: &'static str)
    requires
        d < 10,
    ensures
        text@ == seq![digit(d as nat)],
{
    proof {
        reveal_strlit("0");
        reveal_strlit("1");
        reveal_strlit("2");
        reveal_strlit("3");
        reveal_strlit("4");
        reveal_strlit("5");
        reveal_strlit("6");
        reveal_strlit("7");
        reveal_strlit("8");
        reveal_strlit("9");
    }
    let text = if d == 0 {
        "0"
    } else if d == 1 {
        "1"
    } else if d == 2 {
        "2"
    } else if d == 3 {
        "3"
    } else if d == 4 {
        "4"
    } else if d == 5 {
        "5"
    } else if d == 6 {
        "6"
    } else if d == 7 {
        "7"
    } else if d == 8 {
        "8"
    } else {
        "9"
    };
    assert(text@ =~= seq![digit(d as nat)]);
    text
}

/// Writes a natural number in decimal notation.
pub fn display_decimal(n: u128) -> (text: String)
    ensures
        text@ == decimal(n as nat),
    decreases n,
{
    if n < 10 {
        String::from_str(digit_text(n))
    } else {
        let mut text = display_decimal(n / 10);
        text.append(digit_text(n % 10));
        assert(text@ =~= decimal(n as nat));
        text
    }
}

/// Writes an integer in decimal notation, with its sign where it is negative.
pub fn display_signed(n: i128) -> (text: String)
    ensures
        text@ == signed_decimal(n as int),
{
    if n < 0 {
        let magnitude: u128 = (-(n + 1)) as u128 + 1;
        let mut text = String::from_str("-");
        let digits = display_decimal(magnitude);
        text.append(digits.as_str());
        proof {
            reveal_strlit("-");
            assert(text@ =~= signed_decimal(n as int));
        }
        text
    } else {
        display_decimal(n as u128)
    }
}

/// A value that can stand in a tree as a constant and be written as text.
pub trait Literal {
    /// How the value is written. The body given here leaves the text open; an
    /// implementation says what its own type is written as.
    open spec fn literal_text(&self) -> Seq<char> {
        arbitrary()
    }

    fn literal(&self) -> (text: String)
        ensures
            text@ == self.literal_text(),
    ;
}

impl Literal for u8 {
    open spec fn literal_text(&self) -> Seq<char> {
        decimal(*self as nat)
    }

    fn literal(&self) -> (text: String) {
        display_decimal(*self as u128)
    }
}

impl Literal for u16 {
    open spec fn literal_text(&self) -> Seq<char> {
        decimal(*self as nat)
    }

    fn literal(&self) -> (text: String) {
        display_decimal(*self as u128)
    }
}

impl Literal for u32 {
    open spec fn literal_text(&self) -> Seq<char> {
        decimal(*self as nat)
    }

    fn literal(&self) -> (text: String) {
        display_decimal(*self as u128)
    }
}

impl Literal for u64 {
    open spec fn literal_text(&self) -> Seq<char> {
        decimal(*self as nat)
    }

    fn literal(&self) -> (text: String) {
        display_decimal(*self as u128)
    }
}

impl Literal for u128 {
    open spec fn literal_text(&self) -> Seq<char> {
        decimal(*self as nat)
    }

    fn literal(&self) -> (text: String) {
        display_decimal(*self as u128)
    }
}

impl Literal for usize {
    open spec fn literal_text(&self) -> Seq<char> {
        decimal(*self as nat)
    }

    fn literal(&self) -> (text: String) {
        display_decimal(*self as u128)
    }
}

impl Literal for i8 {
    open spec fn literal_text(&self) -> Seq<char> {
        signed_decimal(*self as int)
    }

    fn literal(&self) -> (text: String) {
        display_signed(*self as i128)
    }
}

impl Literal for i16 {
    open spec fn literal_text(&self) -> Seq<char> {
        signed_decimal(*self as int)
    }

    fn literal(&self) -> (text: String) {
        display_signed(*self as i128)
    }
}

impl Literal for i32 {
    open spec fn literal_text(&self) -> Seq<char> {
        signed_decimal(*self as int)
    }

    fn literal(&self) -> (text: String) {
        display_signed(*self as i128)
    }
}

impl Literal for i64 {
    open spec fn literal_text(&self) -> Seq<char> {
        signed_decimal(*self as int)
    }

    fn literal(&self) -> (text: String) {
        display_signed(*self as i128)
    }
}

impl Literal for i128 {
    open spec fn literal_text(&self) -> Seq<char> {
        signed_decimal(*self as int)
    }

    fn literal(&self) -> (text: String) {
        display_signed(*self as i128)
    }
}

impl Literal for isize {
    open spec fn literal_text(&self) -> Seq<char> {
        signed_decimal(*self as int)
    }

    fn literal(&self) -> (text: String) {
        display_signed(*self as i128)
    }
}

impl<'a> Literal for &'a str {
    open spec fn literal_text(&self) -> Seq<char> {
        (*self)@
    }

    fn literal(&self) -> (text: String) {
        String::from_str(*self)
    }
}

impl Literal for String {
    open spec fn literal_text(&self) -> Seq<char> {
        self@
    }

    fn literal(&self) -> (text: String) {
        self.clone()
    }
}

} // verus!
