use lalrpop_util::ParseError;
use vstd::prelude::*;

verus! {

/// What can go wrong between a contract's source text and its description.
#[derive(Debug)]
pub enum Error {
    /// The source text is not a well-formed contract; holds the grammar's description.
    ParseError(String),
    /// A conversion hook met a syntax tree shape that the lowering rules do not cover.
    AstVisitError(String),
    /// The operand stack held an object of another kind than a lowering rule expected.
    Internal(String),
    /// The contract file could not be read.
    IoError(std::io::Error),
    /// The contract file does not hold UTF-8 text.
    FromUtf8Error(std::string::FromUtf8Error),
}

/// The mathematical value of an [`Error`]: its kind and, where it has one, its message.
pub enum ErrorView {
    ParseError(Seq<char>),
    AstVisitError(Seq<char>),
    Internal(Seq<char>),
    IoError(std::io::Error),
    FromUtf8Error(std::string::FromUtf8Error),
}

impl View for Error {
    type V = ErrorView;

    open spec fn view(&self) -> ErrorView {
        match self {
            Error::ParseError(text) => ErrorView::ParseError(text@),
            Error::AstVisitError(text) => ErrorView::AstVisitError(text@),
            Error::Internal(text) => ErrorView::Internal(text@),
            Error::IoError(e) => ErrorView::IoError(*e),
            Error::FromUtf8Error(e) => ErrorView::FromUtf8Error(*e),
        }
    }
}

/// The value of a result whose failures are [`Error`]s.
pub open spec fn result_view<T: View>(result: Result<T, Error>) -> Result<T::V, ErrorView> {
    match result {
        Ok(value) => Ok(value@),
        Err(error) => Err(error@),
    }
}

/// `std::io::Error`, carried through as it is: nothing is known of what it holds.
#[verifier::external_type_specification]
#[verifier::external_body]
pub struct ExIoError(std::io::Error);

/// `std::string::FromUtf8Error`, carried through as it is: nothing is known of what it
/// holds.
#[verifier::external_type_specification]
#[verifier::external_body]
pub struct ExFromUtf8Error(std::string::FromUtf8Error);

/// `lalrpop_util::ParseError`, the failure of a parser that LALRPOP built, carried through
/// as it is: nothing is known of what it holds.
#[verifier::external_type_specification]
#[verifier::external_body]
#[verifier::reject_recursive_types(L)]
#[verifier::reject_recursive_types(T)]
#[verifier::reject_recursive_types(E)]
pub struct ExParseError<L, T, E>(ParseError<L, T, E>);

/// The text that the `Debug` implementation of `lalrpop_util::ParseError` writes for
/// `value`, as `format!` collects it. Nothing is claimed of the text.
#[verifier::external_body]
fn parse_error_text<L: core::fmt::Debug, T: core::fmt::Debug, E: core::fmt::Debug>(
    value: &ParseError<L, T, E>,
) -> (text: String) {
    format!("{:?}", value)
}

impl Error {
    /// The failure of the grammar that `text` describes.
    pub fn from_parse_error_text(text: String) -> (error: Error)
        ensures
            error@ == ErrorView::ParseError(text@),
    {
        Error::ParseError(text)
    }

    /// A grammar failure becomes a `ParseError` that carries the failure's description:
    /// the text that the failure's `Debug` implementation writes.
    pub fn from_parse_error<L: core::fmt::Debug, T: core::fmt::Debug, E: core::fmt::Debug>(
        value: ParseError<L, T, E>,
    ) -> (error: Error)
        ensures
            error is ParseError,
    {
        Error::from_parse_error_text(parse_error_text(&value))
    }
}

} // verus!
