//! Why a variable could not be loaded, and how that is reported.

use vstd::prelude::*;

verus! {

/// The width of an unsigned integer variable.
#[derive(Debug, Clone, Copy, PartialEq, Eq)]
pub enum IntWidth {
    /// Sixteen bits: zero to 65535.
    U16,
    /// Thirty-two bits: zero to 4294967295.
    U32,
}

/// A failure to set up or load the environment.
#[derive(Debug, PartialEq, Eq)]
pub enum EnvarError {
    /// The variable `name` is not set.
    MissingVariable { name: String },
    /// The variable `name` holds `raw`, which is neither `true` nor `false`.
    InvalidBoolValue { name: String, raw: String },
    /// The variable `name` holds `raw`, which is no unsigned decimal numeral
    /// that fits `width`.
    InvalidIntegerValue { name: String, raw: String, width: IntWidth },
    /// The dotfile could not be loaded; `message` is the loader's own report.
    DotfileError { message: String },
}

/// What an [`EnvarError`] says, with texts as sequences of characters.
pub enum ErrorView {
    /// The variable `name` is not set.
    MissingVariable { name: Seq<char> },
    /// The variable `name` holds `raw`, which is no boolean literal.
    InvalidBoolValue { name: Seq<char>, raw: Seq<char> },
    /// The variable `name` holds `raw`, which is no numeral that fits `width`.
    InvalidIntegerValue { name: Seq<char>, raw: Seq<char>, width: IntWidth },
    /// The dotfile could not be loaded, for the reason in `message`.
    DotfileError { message: Seq<char> },
}

impl View for EnvarError {
    type V = ErrorView;

    open spec fn view(&self) -> ErrorView {
        match self {
            EnvarError::MissingVariable { name } => ErrorView::MissingVariable { name: name@ },
            EnvarError::InvalidBoolValue { name, raw } => ErrorView::InvalidBoolValue {
                name: name@,
                raw: raw@,
            },
            EnvarError::InvalidIntegerValue { name, raw, width } => ErrorView::InvalidIntegerValue {
                name: name@,
                raw: raw@,
                width: *width,
            },
            EnvarError::DotfileError { message } => ErrorView::DotfileError { message: message@ },
        }
    }
}

/// The name of the integer type of the given width.
pub open spec fn width_text(width: IntWidth) -> Seq<char> {
    match width {
        IntWidth::U16 => "u16"@,
        IntWidth::U32 => "u32"@,
    }
}

/// The report of an error, as one line of text. A failure to load a variable
/// is reported with the variable's name; a dotfile failure in the loader's words.
pub open spec fn message_text(e: ErrorView) -> Seq<char> {
    match e {
        ErrorView::MissingVariable { name } => "environment variable `"@ + name + "` is not set"@,
        ErrorView::InvalidBoolValue { name, raw } => "environment variable `"@ + name
            + "` must be `true` or `false`, found `"@ + raw + "`"@,
        ErrorView::InvalidIntegerValue { name, raw, width } => "environment variable `"@ + name
            + "` must be a decimal "@ + width_text(width) + ", found `"@ + raw + "`"@,
        ErrorView::DotfileError { message } => message,
    }
}

impl IntWidth {
    /// The name of the integer type of this width.
    pub fn name(&self) -> (r: &'static str)
        ensures
            r@ == width_text(*self),
    {
        match self {
            IntWidth::U16 => "u16",
            IntWidth::U32 => "u32",
        }
    }
}

impl EnvarError {
    /// The report of this error, as one line of text.
    pub fn message(&self) -> (r: String)
        ensures
            r@ == message_text(self@),
    {
        match self {
            EnvarError::MissingVariable { name } => {
                let mut out = String::from_str("environment variable `");
                out.append(name.as_str());
                out.append("` is not set");
                out
            },
            EnvarError::InvalidBoolValue { name, raw } => {
                let mut out = String::from_str("environment variable `");
                out.append(name.as_str());
                out.append("` must be `true` or `false`, found `");
                out.append(raw.as_str());
                out.append("`");
                out
            },
            EnvarError::InvalidIntegerValue { name, raw, width } => {
                let mut out = String::from_str("environment variable `");
                out.append(name.as_str());
                out.append("` must be a decimal ");
                out.append(width.name());
                out.append(", found `");
                out.append(raw.as_str());
                out.append("`");
                out
            },
            EnvarError::DotfileError { message } => message.clone(),
        }
    }
}

} // verus!
