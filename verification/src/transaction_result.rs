//! The outcome of a write against a store, judged from the number of rows or
//! documents it touched against the number that was expected.

use vstd::prelude::*;
use vstd::string::*;
use crate::text::{decimal, push_decimal};

verus! {

/// How a write went, from the number of rows it affected.
#[derive(Clone, Debug, PartialEq, Eq, Structural)]
pub enum TransactionResult {
    /// The expected number of rows was affected.
    Success,
    /// No row was affected.
    NoRowsAffected,
    /// More rows than expected were affected; holds how many.
    TooManyRowsAffected(u64),
    /// Fewer rows than expected (but some) were affected; holds how many.
    NotEnoughRowsAffected(u64),
    /// A result that no count leads to.
    UnknownResult,
}

/// The classification of `result` affected rows when `expected` were awaited.
pub open spec fn classify(result: u64, expected: u64) -> TransactionResult {
    if result == expected {
        TransactionResult::Success
    } else if result == 0 {
        TransactionResult::NoRowsAffected
    } else if result < expected {
        TransactionResult::NotEnoughRowsAffected(result)
    } else {
        TransactionResult::TooManyRowsAffected(result)
    }
}

impl TransactionResult {
    /// Classifies a write that affected `result` rows where
    /// `expected_affected_rows` were expected. Equality is checked first, so
    /// that a write expected to touch nothing succeeds when it touches nothing.
    pub fn from_expected_affected_rows(result: u64, expected_affected_rows: u64) -> (r: Self)
        ensures
            r == classify(result, expected_affected_rows),
    {
        if result == expected_affected_rows {
            TransactionResult::Success
        } else if result == 0 {
            TransactionResult::NoRowsAffected
        } else if result < expected_affected_rows {
            TransactionResult::NotEnoughRowsAffected(result)
        } else {
            TransactionResult::TooManyRowsAffected(result)
        }
    }

    /// Classifies a write that was expected to touch exactly one row.
    pub fn expect_single_result(result: u64) -> (r: Self)
        ensures
            r == classify(result, 1),
    {
        Self::from_expected_affected_rows(result, 1)
    }

    /// Whether the write went as expected.
    pub fn is_success(&self) -> (b: bool)
        ensures
            b == (*self is Success),
    {
        match self {
            TransactionResult::Success => true,
            _ => false,
        }
    }

    /// The human readable description of the outcome.
    pub fn describe(&self) -> (s: String)
        ensures
            s@ == self.description(),
    {
        proof {
            reveal_strlit("The transaction executed with success");
            reveal_strlit("No rows have been affected by the transaction");
            reveal_strlit("Too many rows affected : ");
            reveal_strlit("Not enough rows affected : ");
            reveal_strlit("An unexpected result happened");
        }
        match self {
            TransactionResult::Success => String::from_str("The transaction executed with success"),
            TransactionResult::NoRowsAffected => String::from_str("No rows have been affected by the transaction"),
            TransactionResult::TooManyRowsAffected(v) => {
                let mut s = String::from_str("Too many rows affected : ");
                push_decimal(&mut s, *v);
                s
            },
            TransactionResult::NotEnoughRowsAffected(v) => {
                let mut s = String::from_str("Not enough rows affected : ");
                push_decimal(&mut s, *v);
                s
            },
            TransactionResult::UnknownResult => String::from_str("An unexpected result happened"),
        }
    }

    /// The text of [`TransactionResult::describe`].
    pub open spec fn description(self) -> Seq<char> {
        match self {
            TransactionResult::Success => "The transaction executed with success"@,
            TransactionResult::NoRowsAffected => "No rows have been affected by the transaction"@,
            TransactionResult::TooManyRowsAffected(v) => "Too many rows affected : "@ + decimal(v as nat),
            TransactionResult::NotEnoughRowsAffected(v) => "Not enough rows affected : "@ + decimal(v as nat),
            TransactionResult::UnknownResult => "An unexpected result happened"@,
        }
    }
}

impl From<TransactionResult> for bool {
    fn from(t: TransactionResult) -> (b: bool) {
        t.is_success()
    }
}

impl vstd::std_specs::convert::FromSpecImpl<TransactionResult> for bool {
    open spec fn obeys_from_spec() -> bool {
        true
    }

    open spec fn from_spec(t: TransactionResult) -> bool {
        t is Success
    }
}

/// A classification never yields [`TransactionResult::UnknownResult`], and it
/// is a success exactly when the count met the expectation.
pub proof fn lemma_classify_total(result: u64, expected: u64)
    ensures
        !(classify(result, expected) is UnknownResult),
        (classify(result, expected) is Success) <==> result == expected,
        (classify(result, expected) is NoRowsAffected) <==> (result == 0 && expected != 0),
        (classify(result, expected) is NotEnoughRowsAffected) <==> (0 < result < expected),
        (classify(result, expected) is TooManyRowsAffected) <==> (result > expected),
{
}

/// A write expected to touch a single row succeeds exactly when it touched
/// one row, and converting its outcome to a boolean says the same.
pub proof fn lemma_single_result(result: u64)
    ensures
        (classify(result, 1) is Success) <==> result == 1,
        <bool as vstd::std_specs::convert::FromSpec<TransactionResult>>::from_spec(classify(result, 1)) <==> result == 1,
        result == 0 ==> classify(result, 1) == TransactionResult::NoRowsAffected,
        result > 1 ==> classify(result, 1) == TransactionResult::TooManyRowsAffected(result),
{
}

} // verus!
