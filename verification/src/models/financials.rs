//! Kinds of financial statements and their frequencies.

use vstd::prelude::*;

verus! {

/// Kind of financial statement.
#[derive(Debug, Clone, Copy, PartialEq, Eq, Structural)]
pub enum StatementType {
    IncomeStatement,
    BalanceSheet,
    CashFlow,
}

impl StatementType {
    /// The name of the statement kind.
    pub open spec fn spec_name(self) -> Seq<char> {
        match self {
            StatementType::IncomeStatement => "income"@,
            StatementType::BalanceSheet => "balance"@,
            StatementType::CashFlow => "cashflow"@,
        }
    }

    /// The name of the statement kind.
    pub fn as_str(&self) -> (s: &'static str)
        ensures
            s@ == self.spec_name(),
    {
        match self {
            StatementType::IncomeStatement => "income",
            StatementType::BalanceSheet => "balance",
            StatementType::CashFlow => "cashflow",
        }
    }
}

/// Frequency of statements.
#[derive(Debug, Clone, Copy, PartialEq, Eq, Structural)]
pub enum Frequency {
    Annual,
    Quarterly,
}

impl Frequency {
    /// The name of the frequency.
    pub open spec fn spec_name(self) -> Seq<char> {
        match self {
            Frequency::Annual => "annual"@,
            Frequency::Quarterly => "quarterly"@,
        }
    }

    /// The name of the frequency.
    pub fn as_str(&self) -> (s: &'static str)
        ensures
            s@ == self.spec_name(),
    {
        match self {
            Frequency::Annual => "annual",
            Frequency::Quarterly => "quarterly",
        }
    }
}

} // verus!
