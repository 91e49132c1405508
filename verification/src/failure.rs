//! The ways in which an operation of the core can fail.

use crate::data::{User, UserView};
use vstd::prelude::*;

verus! {

/// Why an operation did not succeed. Each case is a value of its own, so that
/// a caller can tell them apart.
#[derive(Debug)]
pub enum Failure {
    /// The request carries no session.
    Unauthenticated,
    /// A user, list or gift that was looked up does not exist.
    NotFound,
    /// The acting user is not a member of the list.
    Unauthorized,
    /// The acting user does not own the gift.
    Forbidden,
    /// The acting user owns the gift they tried to claim or release.
    SelfClaimForbidden,
    /// The gift is claimed already; by whom, as far as it is known.
    AlreadyClaimed(Option<User>),
    /// The gift is not claimed.
    NotClaimed,
    /// Somebody else claimed the gift; who, as far as it is known.
    ClaimedByOther(Option<User>),
    /// A gift refers to a placeholder that no submitted gift carries.
    UnknownPlaceholder,
    /// The store refused a row: its identifier is taken.
    StoreFailure,
}

pub enum FailureView {
    Unauthenticated,
    NotFound,
    Unauthorized,
    Forbidden,
    SelfClaimForbidden,
    AlreadyClaimed(Option<UserView>),
    NotClaimed,
    ClaimedByOther(Option<UserView>),
    UnknownPlaceholder,
    StoreFailure,
}

impl DeepView for Failure {
    type V = FailureView;

    open spec fn deep_view(&self) -> FailureView {
        match self {
            Failure::Unauthenticated => FailureView::Unauthenticated,
            Failure::NotFound => FailureView::NotFound,
            Failure::Unauthorized => FailureView::Unauthorized,
            Failure::Forbidden => FailureView::Forbidden,
            Failure::SelfClaimForbidden => FailureView::SelfClaimForbidden,
            Failure::AlreadyClaimed(u) => FailureView::AlreadyClaimed(u.deep_view()),
            Failure::NotClaimed => FailureView::NotClaimed,
            Failure::ClaimedByOther(u) => FailureView::ClaimedByOther(u.deep_view()),
            Failure::UnknownPlaceholder => FailureView::UnknownPlaceholder,
            Failure::StoreFailure => FailureView::StoreFailure,
        }
    }
}

impl View for Failure {
    type V = FailureView;

    open spec fn view(&self) -> FailureView {
        self.deep_view()
    }
}

/// The view of a result that carries no value.
pub open spec fn outcome(r: Result<(), Failure>) -> Result<(), FailureView> {
    match r {
        Ok(()) => Ok(()),
        Err(e) => Err(e@),
    }
}

/// The view of a result that carries a text.
pub open spec fn text_outcome(r: Result<String, Failure>) -> Result<Seq<char>, FailureView> {
    match r {
        Ok(s) => Ok(s@),
        Err(e) => Err(e@),
    }
}

} // verus!
