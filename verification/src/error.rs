//! What a rejected call reports.

use vstd::prelude::*;

verus! {

/// Why the coins sent with a call were refused.
#[derive(Debug, Clone, PartialEq, Eq)]
pub enum PaymentError {
    /// The one coin sent is of another denomination than the accepted one; it holds that denomination.
    MissingDenom(String),
    /// A coin of a denomination that the call does not take.
    ExtraDenom(String),
    /// More than one coin was sent.
    MultipleDenoms {  },
    /// No coin was sent, or a coin of amount zero.
    NoFunds {  },
    /// The call takes no coins.
    NonPayable {  },
}

/// A [`PaymentError`] with its text as a sequence of characters.
pub ghost enum PaymentErrorView {
    MissingDenom(Seq<char>),
    ExtraDenom(Seq<char>),
    MultipleDenoms,
    NoFunds,
    NonPayable,
}

impl DeepView for PaymentError {
    type V = PaymentErrorView;

    open spec fn deep_view(&self) -> PaymentErrorView {
        match self {
            PaymentError::MissingDenom(d) => PaymentErrorView::MissingDenom(d@),
            PaymentError::ExtraDenom(d) => PaymentErrorView::ExtraDenom(d@),
            PaymentError::MultipleDenoms {  } => PaymentErrorView::MultipleDenoms,
            PaymentError::NoFunds {  } => PaymentErrorView::NoFunds,
            PaymentError::NonPayable {  } => PaymentErrorView::NonPayable,
        }
    }
}

/// A failure of the store.
#[derive(Debug, Clone, PartialEq, Eq)]
pub enum StdError {
    /// Nothing is stored under the key that was read; `kind` names what was looked for.
    NotFound { kind: String },
}

/// A [`StdError`] with its text as a sequence of characters.
pub ghost enum StdErrorView {
    NotFound { kind: Seq<char> },
}

impl DeepView for StdError {
    type V = StdErrorView;

    open spec fn deep_view(&self) -> StdErrorView {
        match self {
            StdError::NotFound { kind } => StdErrorView::NotFound { kind: kind@ },
        }
    }
}

/// Why a call was rejected. Every rejection aborts the whole transaction.
#[derive(Debug, Clone, PartialEq, Eq)]
pub enum ContractError {
    /// The store failed.
    Std(StdError),
    /// The caller may not make this call, a reply carries an unknown tag, the
    /// call that a reply answers failed, or what it reported cannot be used.
    Unauthorized {  },
    /// The donation percentage of a deposit is not between 5 and 100.
    WrongPercentageInput {  },
    /// The deposit is below the smallest amount worth a saga.
    MakeNewPoolError {  },
    /// The caller has no pool to withdraw from.
    NoDeposit {  },
    /// The coins sent were refused.
    Payment(PaymentError),
}

/// A [`ContractError`] with its text as sequences of characters.
pub ghost enum ContractErrorView {
    Std(StdErrorView),
    Unauthorized,
    WrongPercentageInput,
    MakeNewPoolError,
    NoDeposit,
    Payment(PaymentErrorView),
}

impl DeepView for ContractError {
    type V = ContractErrorView;

    open spec fn deep_view(&self) -> ContractErrorView {
        match self {
            ContractError::Std(e) => ContractErrorView::Std(e.deep_view()),
            ContractError::Unauthorized {  } => ContractErrorView::Unauthorized,
            ContractError::WrongPercentageInput {  } => ContractErrorView::WrongPercentageInput,
            ContractError::MakeNewPoolError {  } => ContractErrorView::MakeNewPoolError,
            ContractError::NoDeposit {  } => ContractErrorView::NoDeposit,
            ContractError::Payment(e) => ContractErrorView::Payment(e.deep_view()),
        }
    }
}

/// A result with what it holds seen as mathematical values.
pub open spec fn result_view<T: DeepView, E: DeepView>(r: Result<T, E>) -> Result<T::V, E::V> {
    match r {
        Ok(t) => Ok(t.deep_view()),
        Err(e) => Err(e.deep_view()),
    }
}

} // verus!
