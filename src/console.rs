//! The operations the library asks of the host's console.
use vstd::prelude::*;

verus! {

/// One call on the host's console object.
#[derive(Debug, PartialEq, Eq)]
pub enum ConsoleOp {
    /// `clear()`
    Clear,
    /// `rule(text)`
    Rule(String),
    /// `print(text)`
    Print(String),
    /// `print(text, justify="center")`
    PrintCentered(String),
    /// `print(text, style="warning")`
    PrintWarning(String),
}

/// What a console operation is, with its text as a sequence of characters.
pub enum ConsoleCall {
    Clear,
    Rule(Seq<char>),
    Print(Seq<char>),
    PrintCentered(Seq<char>),
    PrintWarning(Seq<char>),
}

impl View for ConsoleOp {
    type V = ConsoleCall;

    open spec fn view(&self) -> ConsoleCall {
        match self {
            ConsoleOp::Clear => ConsoleCall::Clear,
            ConsoleOp::Rule(t) => ConsoleCall::Rule(t@),
            ConsoleOp::Print(t) => ConsoleCall::Print(t@),
            ConsoleOp::PrintCentered(t) => ConsoleCall::PrintCentered(t@),
            ConsoleOp::PrintWarning(t) => ConsoleCall::PrintWarning(t@),
        }
    }
}

/// The calls a list of operations stands for, in order.
pub open spec fn calls_of(ops: Seq<ConsoleOp>) -> Seq<ConsoleCall> {
    ops.map_values(|o: ConsoleOp| o@)
}

} // verus!
