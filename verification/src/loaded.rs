//! A variable whose value has been read, and the build directive that exports it.

use crate::boolean::bool_text;
use crate::decimal::{decimal_digits, push_decimal};
use vstd::prelude::*;

verus! {

/// An environment variable together with its typed value.
#[derive(Debug, PartialEq, Eq)]
pub enum LoadedEnvar<'a> {
    /// A text variable: its name and the text it holds.
    String(&'a str, String),
    /// A boolean variable: its name and its value.
    Bool(&'a str, bool),
    /// A 16-bit unsigned variable: its name and its value.
    U16(&'a str, u16),
    /// A 32-bit unsigned variable: its name and its value.
    U32(&'a str, u32),
}

/// A typed value, with text as a sequence of characters.
pub enum Value {
    /// The value of a text variable.
    Text(Seq<char>),
    /// The value of a boolean variable.
    Bool(bool),
    /// The value of a 16-bit unsigned variable.
    U16(u16),
    /// The value of a 32-bit unsigned variable.
    U32(u32),
}

/// What a [`LoadedEnvar`] holds: the variable's name and its value.
pub struct LoadedView {
    /// The variable's name.
    pub name: Seq<char>,
    /// The value that was read.
    pub value: Value,
}

impl<'a> View for LoadedEnvar<'a> {
    type V = LoadedView;

    open spec fn view(&self) -> LoadedView {
        match self {
            LoadedEnvar::String(name, text) => LoadedView {
                name: name@,
                value: Value::Text(text@),
            },
            LoadedEnvar::Bool(name, b) => LoadedView { name: name@, value: Value::Bool(*b) },
            LoadedEnvar::U16(name, n) => LoadedView { name: name@, value: Value::U16(*n) },
            LoadedEnvar::U32(name, n) => LoadedView { name: name@, value: Value::U32(*n) },
        }
    }
}

/// The canonical text of a value: a text as it is, a boolean as `true` or
/// `false`, a number as its shortest decimal numeral.
pub open spec fn value_text(v: Value) -> Seq<char> {
    match v {
        Value::Text(s) => s,
        Value::Bool(b) => bool_text(b),
        Value::U16(n) => decimal_digits(n as nat),
        Value::U32(n) => decimal_digits(n as nat),
    }
}

/// The directive that tells Cargo to set the variable for the compiler:
/// `cargo:rustc-env=`, the name, `=`, and the value's canonical text.
pub open spec fn directive_text(l: LoadedView) -> Seq<char> {
    "cargo:rustc-env="@ + l.name + "="@ + value_text(l.value)
}

impl<'a> LoadedEnvar<'a> {
    /// The variable's name.
    pub fn name(&self) -> (r: &'a str)
        ensures
            r@ == self@.name,
    {
        match self {
            LoadedEnvar::String(name, _) => *name,
            LoadedEnvar::Bool(name, _) => *name,
            LoadedEnvar::U16(name, _) => *name,
            LoadedEnvar::U32(name, _) => *name,
        }
    }

    /// The build directive that exports this variable, as one line without
    /// its line break.
    pub fn export(&self) -> (r: String)
        ensures
            r@ == directive_text(self@),
    {
        let mut line = String::from_str("cargo:rustc-env=");
        line.append(self.name());
        line.append("=");
        match self {
            LoadedEnvar::String(_, text) => {
                line.append(text.as_str());
            },
            LoadedEnvar::Bool(_, b) => {
                if *b {
                    line.append("true");
                } else {
                    line.append("false");
                }
            },
            LoadedEnvar::U16(_, n) => {
                push_decimal(&mut line, *n as u32);
            },
            LoadedEnvar::U32(_, n) => {
                push_decimal(&mut line, *n);
            },
        }
        line
    }
}

} // verus!
