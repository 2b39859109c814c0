//! What can go wrong while an invocation is decoded.

use crate::model::{OptionKind, OptionValueType};
use vstd::prelude::*;

verus! {

/// The reason given when an ordinary option stands beside a subcommand.
pub const OPTION_AFTER_SUBCOMMAND: &'static str = "normal option after subcommand";

/// The reason given when a subcommand stands among ordinary options.
pub const SUBCOMMAND_AFTER_OPTION: &'static str = "subcommand after normal option(s)";

/// A failed validation of an invocation against what a handler asked for.
#[derive(Debug, PartialEq, Eq)]
pub enum Error {
    /// Options were asked of an invocation that is no slash command.
    NotChatInput,
    /// A target user was asked of an invocation that is no user context menu.
    NotUser,
    /// A target message was asked of an invocation that is no message context menu.
    NotMessage,
    /// Subcommands and ordinary options are mixed; the reason says how.
    Malformed(&'static str),
    /// The named option is required and absent.
    MissingOption(String),
    /// A subcommand was asked for and none was invoked.
    MissingSubcommand,
    /// An option was asked for while the subcommand path was still pending.
    UnhandledSubcommand(Vec<String>),
    /// The named option was declared with another kind than the expected one.
    BadOptionType(String, &'static str, OptionKind),
    /// The named option holds a value of another type than the expected one.
    BadOptionValueType(String, &'static str, OptionValueType),
    /// The named options were supplied and never consumed.
    Trailing(Vec<String>),
}

/// An [`Error`] with its texts as sequences of characters.
pub enum ErrorView {
    NotChatInput,
    NotUser,
    NotMessage,
    Malformed(Seq<char>),
    MissingOption(Seq<char>),
    MissingSubcommand,
    UnhandledSubcommand(Seq<Seq<char>>),
    BadOptionType(Seq<char>, Seq<char>, OptionKind),
    BadOptionValueType(Seq<char>, Seq<char>, OptionValueType),
    Trailing(Seq<Seq<char>>),
}

/// The texts of a list of owned strings.
pub open spec fn texts(names: Seq<String>) -> Seq<Seq<char>> {
    names.map_values(|s: String| s@)
}

/// The texts of a list of borrowed strings.
pub open spec fn slice_texts(names: Seq<&str>) -> Seq<Seq<char>> {
    names.map_values(|s: &str| s@)
}

impl View for Error {
    type V = ErrorView;

    open spec fn view(&self) -> ErrorView {
        match *self {
            Error::NotChatInput => ErrorView::NotChatInput,
            Error::NotUser => ErrorView::NotUser,
            Error::NotMessage => ErrorView::NotMessage,
            Error::Malformed(reason) => ErrorView::Malformed(reason@),
            Error::MissingOption(name) => ErrorView::MissingOption(name@),
            Error::MissingSubcommand => ErrorView::MissingSubcommand,
            Error::UnhandledSubcommand(path) => ErrorView::UnhandledSubcommand(texts(path@)),
            Error::BadOptionType(name, expected, actual) => ErrorView::BadOptionType(
                name@,
                expected@,
                actual,
            ),
            Error::BadOptionValueType(name, expected, actual) => ErrorView::BadOptionValueType(
                name@,
                expected@,
                actual,
            ),
            Error::Trailing(names) => ErrorView::Trailing(texts(names@)),
        }
    }
}

} // verus!
