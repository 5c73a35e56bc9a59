//! What the resolution reports when the flags or the environment cannot
//! be resolved.

use vstd::prelude::*;

verus! {

/// Why a piece of text is not a decimal number that fits.
#[derive(Debug, PartialEq, Eq, Clone, Copy)]
pub enum NumberError {
    /// The text is empty.
    Empty,
    /// The text holds something else than digits after an optional `+`, or
    /// nothing after the `+`.
    InvalidDigit,
    /// The number is too large.
    PosOverflow,
}

/// Where a number that failed to parse came from.
#[derive(Debug, PartialEq, Eq, Clone, Copy)]
pub enum NumberSource {
    /// A command-line option, by name.
    Arg(&'static str),
    /// An environment variable, by name.
    Env(&'static str),
}

/// The model of a `NumberSource`: the name as a sequence of characters.
pub ghost enum NumberSourceView {
    Arg(Seq<char>),
    Env(Seq<char>),
}

impl View for NumberSource {
    type V = NumberSourceView;

    open spec fn view(&self) -> NumberSourceView {
        match *self {
            NumberSource::Arg(name) => NumberSourceView::Arg(name@),
            NumberSource::Env(name) => NumberSourceView::Env(name@),
        }
    }
}

/// An error of the resolution.
#[derive(Debug, PartialEq, Eq, Clone)]
pub enum OptionsError {
    /// A flag was given that has no effect: the flag, whether it needs the
    /// other flag's presence (`true`) or is useless for its absence
    /// (`false`), and the other flag.
    Useless(&'static str, bool, &'static str),
    /// A flag was given that needs one of two other flags.
    Useless2(&'static str, &'static str, &'static str),
    /// An option was given a value that it does not know: the option and
    /// the value.
    BadArgument(&'static str, String),
    /// A number could not be parsed: the text, where it came from, and why.
    FailedParse(String, NumberSource, NumberError),
}

/// The model of an `OptionsError`: every piece of text as a sequence of
/// characters.
pub ghost enum OptionsErrorView {
    Useless(Seq<char>, bool, Seq<char>),
    Useless2(Seq<char>, Seq<char>, Seq<char>),
    BadArgument(Seq<char>, Seq<char>),
    FailedParse(Seq<char>, NumberSourceView, NumberError),
}

impl View for OptionsError {
    type V = OptionsErrorView;

    open spec fn view(&self) -> OptionsErrorView {
        match *self {
            OptionsError::Useless(flag, needs, other) => OptionsErrorView::Useless(
                flag@,
                needs,
                other@,
            ),
            OptionsError::Useless2(flag, first, second) => OptionsErrorView::Useless2(
                flag@,
                first@,
                second@,
            ),
            OptionsError::BadArgument(option, value) => OptionsErrorView::BadArgument(
                option@,
                value@,
            ),
            OptionsError::FailedParse(text, source, why) => OptionsErrorView::FailedParse(
                text@,
                source@,
                why,
            ),
        }
    }
}

/// The model of a result whose value holds no text.
pub open spec fn plain<T>(result: Result<T, OptionsError>) -> Result<T, OptionsErrorView> {
    match result {
        Ok(value) => Ok(value),
        Err(error) => Err(error@),
    }
}

/// The model of a result whose value has a model of its own.
pub open spec fn modelled<T: View>(result: Result<T, OptionsError>) -> Result<
    T::V,
    OptionsErrorView,
> {
    match result {
        Ok(value) => Ok(value@),
        Err(error) => Err(error@),
    }
}

} // verus!
