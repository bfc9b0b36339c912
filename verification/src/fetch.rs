//! What a request for a page came back with.

use vstd::prelude::*;

use crate::error::{Error, ErrorView, ProviderError, ProviderErrorView};

verus! {

/// The answer to a request, as the transport hands it over.
#[derive(Debug, Clone, PartialEq, Eq)]
pub enum Fetched {
    /// The server answered.
    Response { status: u16, body: String },
    /// The request did not complete.
    Failed { message: String },
}

/// A [`Fetched`] as the contracts see it.
pub enum FetchedView {
    Response { status: u16, body: Seq<char> },
    Failed { message: Seq<char> },
}

impl View for Fetched {
    type V = FetchedView;

    open spec fn view(&self) -> FetchedView {
        match self {
            Fetched::Response { status, body } => FetchedView::Response {
                status: *status,
                body: body@,
            },
            Fetched::Failed { message } => FetchedView::Failed { message: message@ },
        }
    }
}

/// A status that carries the page asked for.
pub open spec fn is_success(status: u16) -> bool {
    200 <= status <= 299
}

/// The page of an answer, or why there is none.
pub open spec fn fetched_page(f: FetchedView) -> Result<Seq<char>, ErrorView> {
    match f {
        FetchedView::Response { status, body } => if is_success(status) {
            Ok(body)
        } else {
            Err(ErrorView::HttpStatus(status))
        },
        FetchedView::Failed { message } => Err(ErrorView::Network(message)),
    }
}

/// The page of an answer to a provider's request, or why there is none.
pub open spec fn provider_page(f: FetchedView) -> Result<Seq<char>, ProviderErrorView> {
    match f {
        FetchedView::Response { status, body } => if is_success(status) {
            Ok(body)
        } else {
            Err(ProviderErrorView::HttpStatus(status))
        },
        FetchedView::Failed { message } => Err(ProviderErrorView::Network(message)),
    }
}

impl Fetched {
    /// A copy of this answer.
    pub fn duplicate(&self) -> (r: Fetched)
        ensures
            r@ == self@,
    {
        match self {
            Fetched::Response { status, body } => Fetched::Response {
                status: *status,
                body: body.clone(),
            },
            Fetched::Failed { message } => Fetched::Failed { message: message.clone() },
        }
    }

    /// The page, where the request completed with a status in 200..=299.
    pub fn page(&self) -> (r: Result<&String, Error>)
        ensures
            match r {
                Ok(body) => fetched_page(self@) == Ok::<Seq<char>, ErrorView>(body@),
                Err(e) => fetched_page(self@) == Err::<Seq<char>, ErrorView>(e@),
            },
    {
        match self {
            Fetched::Response { status, body } => {
                if 200 <= *status && *status <= 299 {
                    Ok(body)
                } else {
                    Err(Error::HttpStatus(*status))
                }
            },
            Fetched::Failed { message } => Err(Error::Network(message.clone())),
        }
    }

    /// The page, for a provider: the same, with a provider's failure.
    pub fn provider_page(&self) -> (r: Result<&String, ProviderError>)
        ensures
            match r {
                Ok(body) => provider_page(self@) == Ok::<Seq<char>, ProviderErrorView>(body@),
                Err(e) => provider_page(self@) == Err::<Seq<char>, ProviderErrorView>(e@),
            },
    {
        match self {
            Fetched::Response { status, body } => {
                if 200 <= *status && *status <= 299 {
                    Ok(body)
                } else {
                    Err(ProviderError::HttpStatus(*status))
                }
            },
            Fetched::Failed { message } => Err(ProviderError::Network(message.clone())),
        }
    }
}

} // verus!
