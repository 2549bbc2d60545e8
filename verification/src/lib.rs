//! Small verified utility library: a byte-size formatter with decimal and
//! binary unit scaling, ANSI color helpers, a logging configuration type,
//! a few vector helpers, and a tiny calculator.
//!
//! The crate root holds the calculator: two checked arithmetic helpers and a
//! `Calculator` that dispatches on an `Operation`.

use vstd::prelude::*;

pub mod colors;
pub mod config;
pub mod person;
pub mod sizes;
pub mod vectors;

verus! {

/// Sum of the two operands.
pub fn add(left: u64, right: u64) -> (r: u64)
    requires
        left + right <= u64::MAX,
    ensures
        r == left + right,
{
    left + right
}

/// Product of the two operands.
pub fn multiply(left: u64, right: u64) -> (r: u64)
    requires
        left * right <= u64::MAX,
    ensures
        r == left * right,
{
    left * right
}

/// The operation a `Calculator` is asked to apply.
#[derive(Debug, PartialEq, Eq, Structural)]
pub enum Operation {
    Add,
    Multiply,
}

/// A stateless calculator over `u64` operands.
pub struct Calculator;

impl Calculator {
    /// Creates a calculator; it carries no state.
    pub fn new() -> Calculator {
        Calculator
    }

    /// Sum of the two operands.
    pub fn add(&self, a: u64, b: u64) -> (r: u64)
        requires
            a + b <= u64::MAX,
        ensures
            r == a + b,
    {
        crate::add(a, b)
    }

    /// Product of the two operands.
    pub fn multiply(&self, a: u64, b: u64) -> (r: u64)
        requires
            a * b <= u64::MAX,
        ensures
            r == a * b,
    {
        crate::multiply(a, b)
    }

    /// Applies `op` to the operands: the sum for `Add`, the product for
    /// `Multiply`.
    pub fn apply(&self, op: Operation, a: u64, b: u64) -> (r: u64)
        requires
            op == Operation::Add ==> a + b <= u64::MAX,
            op == Operation::Multiply ==> a * b <= u64::MAX,
        ensures
            op == Operation::Add ==> r == a + b,
            op == Operation::Multiply ==> r == a * b,
    {
        match op {
            Operation::Add => self.add(a, b),
            Operation::Multiply => self.multiply(a, b),
        }
    }
}

} // verus!
