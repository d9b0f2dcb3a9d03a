use vstd::prelude::*;

verus! {

/// The operations on two numbers that the library leaves to its host.
///
/// Numbers are IEEE-754 binary64 values, which the library carries as bit
/// patterns. Their arithmetic is the host's: the library says which operation
/// it needs on which operands, and takes the result back as an [`Answer`].
#[derive(Clone, Copy, Debug, PartialEq, Eq, Structural)]
pub enum Operator {
    /// The sum of the two numbers.
    Add,
    /// The left number minus the right one.
    Subtract,
    /// The product of the two numbers.
    Multiply,
    /// The left number divided by the right one, by the rules of IEEE-754:
    /// a division by zero gives an infinity or a NaN.
    Divide,
    /// Whether the absolute difference of the two numbers is below the
    /// machine epsilon of binary64.
    Equal,
    /// Whether the left number is greater than the right one.
    Greater,
    /// Whether the left number is less than the right one.
    Less,
}

impl Operator {
    /// Whether the operation results in a number; the others result in a boolean.
    pub open spec fn is_arithmetic(self) -> bool {
        self == Operator::Add || self == Operator::Subtract || self == Operator::Multiply || self
            == Operator::Divide
    }

    /// Whether the operation results in a number; the others result in a boolean.
    #[verifier::when_used_as_spec(is_arithmetic)]
    pub fn yields_number(self) -> (arithmetic: bool)
        ensures
            arithmetic == self.is_arithmetic(),
    {
        match self {
            Operator::Add | Operator::Subtract | Operator::Multiply | Operator::Divide => true,
            Operator::Equal | Operator::Greater | Operator::Less => false,
        }
    }
}

/// One operation for the host to carry out: an operator and its two operands,
/// each the bit pattern of a number.
#[derive(Clone, Copy, Debug, PartialEq, Eq, Structural)]
pub struct Operation {
    pub operator: Operator,
    pub left: u64,
    pub right: u64,
}

/// The host's result of an [`Operation`].
#[derive(Clone, Copy, Debug, PartialEq, Eq, Structural)]
pub enum Answer {
    /// The bit pattern of the number that an arithmetic operation results in.
    Number(u64),
    /// The truth of a comparison.
    Boolean(bool),
}

impl Answer {
    /// Whether the answer is of the kind that `operator` results in.
    pub open spec fn fits(self, operator: Operator) -> bool {
        match self {
            Answer::Number(_) => operator.is_arithmetic(),
            Answer::Boolean(_) => !operator.is_arithmetic(),
        }
    }

    /// Whether the answer is of the kind that `operator` results in.
    #[verifier::when_used_as_spec(fits)]
    pub fn answers(self, operator: Operator) -> (fit: bool)
        ensures
            fit == self.fits(operator),
    {
        match self {
            Answer::Number(_) => operator.yields_number(),
            Answer::Boolean(_) => !operator.yields_number(),
        }
    }
}

/// What the host is to print, followed by a line break.
#[derive(Clone, Debug)]
pub enum Output {
    /// A number, by its bit pattern: the host prints the shortest decimal
    /// that reads back as the same number.
    Number(u64),
    /// A text, to be printed as it is.
    Text(String),
}

/// An [`Output`] as a mathematical value.
pub enum OutputView {
    Number(u64),
    Text(Seq<char>),
}

impl View for Output {
    type V = OutputView;

    open spec fn view(&self) -> OutputView {
        match self {
            Output::Number(bits) => OutputView::Number(*bits),
            Output::Text(text) => OutputView::Text(text@),
        }
    }
}

} // verus!
