//! What can go wrong, stage by stage.

use vstd::prelude::*;

use crate::number::{decimal, push_decimal};
use crate::text::{chars_of, extend, string_of};

verus! {

/// Why a page did not yield what was looked for in it.
#[derive(Debug, Clone, Copy, PartialEq, Eq, Structural)]
pub enum ExtractionError {
    /// The text that locates the data is not in the page.
    MissingMarker,
    /// The place was found, but a field that must be there is not.
    MissingField,
    /// The list has no end.
    MalformedList,
}

/// Why one provider did not yield a link.
#[derive(Debug, Clone, PartialEq, Eq)]
pub enum ProviderError {
    /// The request did not complete; the transport's own words.
    Network(String),
    /// The server answered with a status outside 200..=299.
    HttpStatus(u16),
    Extraction(ExtractionError),
    /// The browser could not be started.
    LaunchFailed,
    /// The browser could not load the candidate page.
    NavigationFailed,
    /// No matching response arrived within the time allowed.
    TimedOut,
}

/// A failure of the pipeline, as its caller sees it.
#[derive(Debug, Clone, PartialEq, Eq)]
pub enum Error {
    /// The request did not complete; the transport's own words.
    Network(String),
    /// The server answered with a status outside 200..=299.
    HttpStatus(u16),
    Extraction(ExtractionError),
    /// The selected index is not one of the last search's results.
    IndexOutOfRange,
    /// A link was asked for while no series is selected.
    NoActiveSeries,
    /// Every provider failed; holds the failure of the last one, if there was one.
    NoProviderSucceeded(Option<ProviderError>),
}

/// A [`ProviderError`] with its text as a sequence of characters.
pub enum ProviderErrorView {
    Network(Seq<char>),
    HttpStatus(u16),
    Extraction(ExtractionError),
    LaunchFailed,
    NavigationFailed,
    TimedOut,
}

/// An [`Error`] with its text as a sequence of characters.
pub enum ErrorView {
    Network(Seq<char>),
    HttpStatus(u16),
    Extraction(ExtractionError),
    IndexOutOfRange,
    NoActiveSeries,
    NoProviderSucceeded(Option<ProviderErrorView>),
}

impl View for ProviderError {
    type V = ProviderErrorView;

    open spec fn view(&self) -> ProviderErrorView {
        match self {
            ProviderError::Network(m) => ProviderErrorView::Network(m@),
            ProviderError::HttpStatus(s) => ProviderErrorView::HttpStatus(*s),
            ProviderError::Extraction(e) => ProviderErrorView::Extraction(*e),
            ProviderError::LaunchFailed => ProviderErrorView::LaunchFailed,
            ProviderError::NavigationFailed => ProviderErrorView::NavigationFailed,
            ProviderError::TimedOut => ProviderErrorView::TimedOut,
        }
    }
}

impl View for Error {
    type V = ErrorView;

    open spec fn view(&self) -> ErrorView {
        match self {
            Error::Network(m) => ErrorView::Network(m@),
            Error::HttpStatus(s) => ErrorView::HttpStatus(*s),
            Error::Extraction(e) => ErrorView::Extraction(*e),
            Error::IndexOutOfRange => ErrorView::IndexOutOfRange,
            Error::NoActiveSeries => ErrorView::NoActiveSeries,
            Error::NoProviderSucceeded(None) => ErrorView::NoProviderSucceeded(None),
            Error::NoProviderSucceeded(Some(last)) => ErrorView::NoProviderSucceeded(Some(last@)),
        }
    }
}

/// The message shown for a page that did not yield what was looked for.
pub open spec fn extraction_text(e: ExtractionError) -> Seq<char> {
    match e {
        ExtractionError::MissingMarker => "marker not found"@,
        ExtractionError::MissingField => "field not found"@,
        ExtractionError::MalformedList => "end of list not found"@,
    }
}

/// The message shown for one provider's failure.
pub open spec fn provider_text(e: ProviderErrorView) -> Seq<char> {
    match e {
        ProviderErrorView::Network(m) => "network error: "@ + m,
        ProviderErrorView::HttpStatus(s) => "unexpected HTTP status "@ + decimal(s as int),
        ProviderErrorView::Extraction(x) => extraction_text(x),
        ProviderErrorView::LaunchFailed => "browser launch failed"@,
        ProviderErrorView::NavigationFailed => "navigation failed"@,
        ProviderErrorView::TimedOut => "timed out"@,
    }
}

/// The message shown to the user for an error.
pub open spec fn message_text(e: ErrorView) -> Seq<char> {
    match e {
        ErrorView::Network(m) => "network error: "@ + m,
        ErrorView::HttpStatus(s) => "unexpected HTTP status "@ + decimal(s as int),
        ErrorView::Extraction(x) => extraction_text(x),
        ErrorView::IndexOutOfRange => "invalid index"@,
        ErrorView::NoActiveSeries => "no series selected"@,
        ErrorView::NoProviderSucceeded(None) => "no provider succeeded"@,
        ErrorView::NoProviderSucceeded(Some(last)) => "no provider succeeded: "@ + provider_text(
            last,
        ),
    }
}

fn extraction_message(e: ExtractionError) -> (r: &'static str)
    ensures
        r@ == extraction_text(e),
{
    match e {
        ExtractionError::MissingMarker => "marker not found",
        ExtractionError::MissingField => "field not found",
        ExtractionError::MalformedList => "end of list not found",
    }
}

fn write_network(out: &mut Vec<char>, detail: &String)
    ensures
        final(out)@ == old(out)@ + ("network error: "@ + detail@),
{
    extend(out, chars_of("network error: ").as_slice());
    extend(out, chars_of(detail.as_str()).as_slice());
    assert(out@ =~= old(out)@ + ("network error: "@ + detail@));
}

fn write_status(out: &mut Vec<char>, status: u16)
    ensures
        final(out)@ == old(out)@ + ("unexpected HTTP status "@ + decimal(status as int)),
{
    extend(out, chars_of("unexpected HTTP status ").as_slice());
    push_decimal(out, status as i32);
    assert(out@ =~= old(out)@ + ("unexpected HTTP status "@ + decimal(status as int)));
}

impl ProviderError {
    fn write_message(&self, out: &mut Vec<char>)
        ensures
            final(out)@ == old(out)@ + provider_text(self@),
    {
        match self {
            ProviderError::Network(m) => write_network(out, m),
            ProviderError::HttpStatus(s) => write_status(out, *s),
            ProviderError::Extraction(e) => extend(
                out,
                chars_of(extraction_message(*e)).as_slice(),
            ),
            ProviderError::LaunchFailed => extend(
                out,
                chars_of("browser launch failed").as_slice(),
            ),
            ProviderError::NavigationFailed => extend(
                out,
                chars_of("navigation failed").as_slice(),
            ),
            ProviderError::TimedOut => extend(out, chars_of("timed out").as_slice()),
        }
    }

    /// The message to show for this failure.
    pub fn message(&self) -> (r: String)
        ensures
            r@ == provider_text(self@),
    {
        let mut out: Vec<char> = Vec::new();
        self.write_message(&mut out);
        assert(out@ =~= provider_text(self@));
        string_of(out.as_slice())
    }

    /// A copy of this failure.
    pub fn duplicate(&self) -> (r: ProviderError)
        ensures
            r@ == self@,
    {
        match self {
            ProviderError::Network(m) => ProviderError::Network(m.clone()),
            ProviderError::HttpStatus(s) => ProviderError::HttpStatus(*s),
            ProviderError::Extraction(e) => ProviderError::Extraction(*e),
            ProviderError::LaunchFailed => ProviderError::LaunchFailed,
            ProviderError::NavigationFailed => ProviderError::NavigationFailed,
            ProviderError::TimedOut => ProviderError::TimedOut,
        }
    }
}

impl Error {
    /// A copy of this error.
    pub fn duplicate(&self) -> (r: Error)
        ensures
            r@ == self@,
    {
        match self {
            Error::Network(m) => Error::Network(m.clone()),
            Error::HttpStatus(s) => Error::HttpStatus(*s),
            Error::Extraction(e) => Error::Extraction(*e),
            Error::IndexOutOfRange => Error::IndexOutOfRange,
            Error::NoActiveSeries => Error::NoActiveSeries,
            Error::NoProviderSucceeded(None) => Error::NoProviderSucceeded(None),
            Error::NoProviderSucceeded(Some(last)) => Error::NoProviderSucceeded(
                Some(last.duplicate()),
            ),
        }
    }

    /// Whether this is the failure to find the text that locates the data.
    pub fn is_not_found(&self) -> (r: bool)
        ensures
            r == (self@ == ErrorView::Extraction(ExtractionError::MissingMarker)),
    {
        match self {
            Error::Extraction(ExtractionError::MissingMarker) => true,
            _ => false,
        }
    }

    /// The message to show for this error.
    pub fn message(&self) -> (r: String)
        ensures
            r@ == message_text(self@),
    {
        let mut out: Vec<char> = Vec::new();
        match self {
            Error::Network(m) => write_network(&mut out, m),
            Error::HttpStatus(s) => write_status(&mut out, *s),
            Error::Extraction(e) => extend(&mut out, chars_of(extraction_message(*e)).as_slice()),
            Error::IndexOutOfRange => extend(&mut out, chars_of("invalid index").as_slice()),
            Error::NoActiveSeries => extend(&mut out, chars_of("no series selected").as_slice()),
            Error::NoProviderSucceeded(None) => extend(
                &mut out,
                chars_of("no provider succeeded").as_slice(),
            ),
            Error::NoProviderSucceeded(Some(last)) => {
                extend(&mut out, chars_of("no provider succeeded: ").as_slice());
                last.write_message(&mut out);
            },
        }
        assert(out@ =~= message_text(self@));
        string_of(out.as_slice())
    }
}

} // verus!
