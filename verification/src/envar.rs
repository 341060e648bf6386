//! Declarations of environment variables, and how a declaration is loaded.

use crate::boolean::{parse_bool, parse_bool_spec};
use crate::decimal::{parse_unsigned, parse_unsigned_spec};
use crate::error::{EnvarError, ErrorView, IntWidth};
use crate::loaded::{LoadedEnvar, LoadedView, Value};
use vstd::prelude::*;

verus! {

/// An environment variable that a build expects: its name and the type of
/// its value.
#[derive(Debug, Clone, Copy, PartialEq, Eq)]
pub enum Envar<'a> {
    /// A variable that holds `true` or `false`.
    Bool(&'a str),
    /// A variable that holds any text.
    String(&'a str),
    /// A variable that holds an unsigned decimal numeral up to 65535.
    U16(&'a str),
    /// A variable that holds an unsigned decimal numeral up to 4294967295.
    U32(&'a str),
}

/// The type of a variable's value.
pub enum Kind {
    /// `true` or `false`.
    Bool,
    /// Any text.
    String,
    /// A number from zero to 65535.
    U16,
    /// A number from zero to 4294967295.
    U32,
}

/// What an [`Envar`] declares: a name and a kind.
pub struct EnvarView {
    /// The variable's name, as it is looked up.
    pub name: Seq<char>,
    /// The type of the variable's value.
    pub kind: Kind,
}

impl<'a> View for Envar<'a> {
    type V = EnvarView;

    open spec fn view(&self) -> EnvarView {
        match self {
            Envar::Bool(name) => EnvarView { name: name@, kind: Kind::Bool },
            Envar::String(name) => EnvarView { name: name@, kind: Kind::String },
            Envar::U16(name) => EnvarView { name: name@, kind: Kind::U16 },
            Envar::U32(name) => EnvarView { name: name@, kind: Kind::U32 },
        }
    }
}

/// The kind of variable that a value belongs to.
pub open spec fn kind_of(v: Value) -> Kind {
    match v {
        Value::Text(_) => Kind::String,
        Value::Bool(_) => Kind::Bool,
        Value::U16(_) => Kind::U16,
        Value::U32(_) => Kind::U32,
    }
}

/// The outcome of loading `decl` when looking its name up in the environment
/// gave `found`. A variable that is not set is an error whatever the kind. A
/// text that is present is read by the declared kind: a text variable takes
/// it as it is, a boolean takes `true` or `false`, a number takes an unsigned
/// decimal numeral within its range. The value keeps the declared name.
pub open spec fn load_spec(decl: EnvarView, found: Option<Seq<char>>) -> Result<
    LoadedView,
    ErrorView,
> {
    let name = decl.name;
    match found {
        None => Err(ErrorView::MissingVariable { name }),
        Some(raw) => match decl.kind {
            Kind::String => Ok(LoadedView { name, value: Value::Text(raw) }),
            Kind::Bool => match parse_bool_spec(raw) {
                Some(b) => Ok(LoadedView { name, value: Value::Bool(b) }),
                None => Err(ErrorView::InvalidBoolValue { name, raw }),
            },
            Kind::U16 => match parse_unsigned_spec(raw, 0xffff) {
                Some(n) => Ok(LoadedView { name, value: Value::U16(n as u16) }),
                None => Err(ErrorView::InvalidIntegerValue { name, raw, width: IntWidth::U16 }),
            },
            Kind::U32 => match parse_unsigned_spec(raw, 0xffff_ffff) {
                Some(n) => Ok(LoadedView { name, value: Value::U32(n as u32) }),
                None => Err(ErrorView::InvalidIntegerValue { name, raw, width: IntWidth::U32 }),
            },
        },
    }
}

impl<'a> Envar<'a> {
    /// The variable's name.
    pub fn name(&self) -> (r: &'a str)
        ensures
            r@ == self@.name,
    {
        match self {
            Envar::Bool(name) => *name,
            Envar::String(name) => *name,
            Envar::U16(name) => *name,
            Envar::U32(name) => *name,
        }
    }

    /// Loads the variable from `found`, the result of looking its name up in
    /// the environment: `None` where the variable is not set, else its text.
    /// The text is read by the declared type; nothing is trimmed or defaulted.
    pub fn load(&self, found: Option<String>) -> (r: Result<LoadedEnvar<'a>, EnvarError>)
        ensures
            match r {
                Ok(loaded) => load_spec(self@, found.deep_view()) == Ok::<LoadedView, ErrorView>(
                    loaded@,
                ),
                Err(e) => load_spec(self@, found.deep_view()) == Err::<LoadedView, ErrorView>(e@),
            },
    {
        let key = self.name();
        let raw = match found {
            Some(raw) => raw,
            None => {
                return Err(EnvarError::MissingVariable { name: key.to_owned() });
            },
        };
        match self {
            Envar::String(_) => Ok(LoadedEnvar::String(key, raw)),
            Envar::Bool(_) => match parse_bool(raw.as_str()) {
                Some(b) => Ok(LoadedEnvar::Bool(key, b)),
                None => Err(EnvarError::InvalidBoolValue { name: key.to_owned(), raw }),
            },
            Envar::U16(_) => match parse_unsigned(raw.as_str(), 0xffff) {
                Some(n) => Ok(LoadedEnvar::U16(key, n as u16)),
                None => Err(
                    EnvarError::InvalidIntegerValue {
                        name: key.to_owned(),
                        raw,
                        width: IntWidth::U16,
                    },
                ),
            },
            Envar::U32(_) => match parse_unsigned(raw.as_str(), 0xffff_ffff) {
                Some(n) => Ok(LoadedEnvar::U32(key, n)),
                None => Err(
                    EnvarError::InvalidIntegerValue {
                        name: key.to_owned(),
                        raw,
                        width: IntWidth::U32,
                    },
                ),
            },
        }
    }
}

} // verus!
