use vstd::prelude::*;

verus! {

/// A position in a script.
#[derive(PartialEq, Eq, Structural, Clone, Copy, Debug)]
pub struct Interval {
    pub column: u32,
    pub line: u32,
}

/// An error of the interpreter, with where it happened.
#[derive(Clone, Debug, PartialEq, Eq)]
pub struct ErrorInfo {
    pub interval: Interval,
    pub message: String,
}

pub const ERROR_OPS: &'static str = "[!] Ops: Illegal operation";

pub const ERROR_OPS_DIV_INT: &'static str = "[!] Int: Division by zero";

pub const ERROR_OPS_DIV_FLOAT: &'static str = "[!] Float: Division by zero";

/// An error at a position.
pub fn gen_error_info(interval: Interval, message: String) -> (r: ErrorInfo)
    ensures
        r.interval == interval,
        r.message == message,
{
    ErrorInfo { interval, message }
}

} // verus!
