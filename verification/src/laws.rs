//! What holds of loading and exporting, whatever the variable and its text.

use crate::decimal::{
    decimal_digits, lemma_decimal_digits_canonical, lemma_decimal_digits_value,
    lemma_parse_decimal_digits, numeral_digits, strip_leading_zeros,
};
use crate::envar::{kind_of, load_spec, EnvarView, Kind};
use crate::error::{message_text, ErrorView, IntWidth};
use crate::loaded::{directive_text, value_text, LoadedView, Value};
use vstd::prelude::*;

verus! {

/// A variable that is not set fails to load as missing, whatever its kind.
pub proof fn law_missing_variable(decl: EnvarView)
    ensures
        load_spec(decl, None) == Err::<LoadedView, ErrorView>(
            ErrorView::MissingVariable { name: decl.name },
        ),
{
}

/// A text variable loads any text, and loads it unchanged.
pub proof fn law_text_unchanged(name: Seq<char>, raw: Seq<char>)
    ensures
        load_spec(EnvarView { name, kind: Kind::String }, Some(raw)) == Ok::<LoadedView, ErrorView>(
            LoadedView { name, value: Value::Text(raw) },
        ),
{
}

/// A boolean variable loads `true` from the text `true`, `false` from the
/// text `false`, and fails on every other text.
pub proof fn law_bool_strict(name: Seq<char>, raw: Seq<char>)
    ensures
        load_spec(EnvarView { name, kind: Kind::Bool }, Some(raw)) == if raw == "true"@ {
            Ok::<LoadedView, ErrorView>(LoadedView { name, value: Value::Bool(true) })
        } else if raw == "false"@ {
            Ok::<LoadedView, ErrorView>(LoadedView { name, value: Value::Bool(false) })
        } else {
            Err::<LoadedView, ErrorView>(ErrorView::InvalidBoolValue { name, raw })
        },
{
}

/// A 16-bit variable loads the shortest numeral of a number exactly where
/// the number is at most 65535, and then as that number.
pub proof fn law_u16_range(name: Seq<char>, n: nat)
    ensures
        load_spec(EnvarView { name, kind: Kind::U16 }, Some(decimal_digits(n))) == if n <= 65535 {
            Ok::<LoadedView, ErrorView>(LoadedView { name, value: Value::U16(n as u16) })
        } else {
            Err::<LoadedView, ErrorView>(
                ErrorView::InvalidIntegerValue {
                    name,
                    raw: decimal_digits(n),
                    width: IntWidth::U16,
                },
            )
        },
{
    lemma_decimal_digits_value(n);
}

/// A 32-bit variable loads the shortest numeral of a number exactly where
/// the number is at most 4294967295, and then as that number.
pub proof fn law_u32_range(name: Seq<char>, n: nat)
    ensures
        load_spec(EnvarView { name, kind: Kind::U32 }, Some(decimal_digits(n))) == if n
            <= 4294967295 {
            Ok::<LoadedView, ErrorView>(LoadedView { name, value: Value::U32(n as u32) })
        } else {
            Err::<LoadedView, ErrorView>(
                ErrorView::InvalidIntegerValue {
                    name,
                    raw: decimal_digits(n),
                    width: IntWidth::U32,
                },
            )
        },
{
    lemma_decimal_digits_value(n);
}

/// A number variable loads no text that holds anything but ASCII digits
/// after an optional plus sign: no minus sign, no space, no letter.
pub proof fn law_number_needs_digits(decl: EnvarView, raw: Seq<char>, i: int)
    requires
        decl.kind == Kind::U16 || decl.kind == Kind::U32,
        0 <= i < raw.len(),
        !(raw[i] == '+' && i == 0),
        !('0' <= raw[i] && raw[i] <= '9'),
    ensures
        load_spec(decl, Some(raw)) is Err,
{
    let digits = numeral_digits(raw);
    if raw[0] == '+' {
        assert(digits[i - 1] == raw[i]);
    } else {
        assert(digits[i] == raw[i]);
    }
}

/// What loads has the declared name and the declared kind.
pub proof fn law_load_keeps_declaration(decl: EnvarView, found: Option<Seq<char>>)
    ensures
        load_spec(decl, found) matches Ok(loaded) ==> loaded.name == decl.name && kind_of(
            loaded.value,
        ) == decl.kind,
{
}

/// The canonical form of a text that is well formed for the given kind: a
/// text or a boolean literal as it stands, a numeral without its plus sign
/// and leading zeros.
pub open spec fn canonical_text(kind: Kind, raw: Seq<char>) -> Seq<char> {
    match kind {
        Kind::String => raw,
        Kind::Bool => raw,
        Kind::U16 => strip_leading_zeros(numeral_digits(raw)),
        Kind::U32 => strip_leading_zeros(numeral_digits(raw)),
    }
}

/// Loading a well-formed text and exporting the result gives the text back in
/// its canonical form: nothing of a number is lost, and a text keeps every
/// character.
pub proof fn law_load_then_export(decl: EnvarView, raw: Seq<char>)
    requires
        load_spec(decl, Some(raw)) is Ok,
    ensures
        value_text(load_spec(decl, Some(raw))->Ok_0.value) == canonical_text(decl.kind, raw),
        directive_text(load_spec(decl, Some(raw))->Ok_0) == "cargo:rustc-env="@ + decl.name + "="@
            + canonical_text(decl.kind, raw),
{
    match decl.kind {
        Kind::U16 => {
            lemma_decimal_digits_canonical(numeral_digits(raw));
        },
        Kind::U32 => {
            lemma_decimal_digits_canonical(numeral_digits(raw));
        },
        _ => {},
    }
}

/// Loading the canonical text of a value, for a variable of the value's kind,
/// gives the value back.
pub proof fn law_export_then_load(loaded: LoadedView)
    ensures
        load_spec(
            EnvarView { name: loaded.name, kind: kind_of(loaded.value) },
            Some(value_text(loaded.value)),
        ) == Ok::<LoadedView, ErrorView>(loaded),
{
    match loaded.value {
        Value::Text(_) => {},
        Value::Bool(b) => {
            reveal_strlit("true");
            reveal_strlit("false");
        },
        Value::U16(n) => {
            lemma_parse_decimal_digits(n as nat, 0xffff);
        },
        Value::U32(n) => {
            lemma_parse_decimal_digits(n as nat, 0xffff_ffff);
        },
    }
}

/// Whether `part` stands somewhere in `whole`, unbroken.
pub open spec fn occurs_in(part: Seq<char>, whole: Seq<char>) -> bool {
    exists|i: int|
        0 <= i && i + part.len() <= whole.len() && #[trigger] whole.subrange(i, i + part.len())
            == part
}

/// The variable that an error is about; a dotfile failure is about none.
pub open spec fn failed_variable(e: ErrorView) -> Option<Seq<char>> {
    match e {
        ErrorView::MissingVariable { name } => Some(name),
        ErrorView::InvalidBoolValue { name, .. } => Some(name),
        ErrorView::InvalidIntegerValue { name, .. } => Some(name),
        ErrorView::DotfileError { .. } => None,
    }
}

/// A failure to load always carries the name of the declared variable.
pub proof fn law_failure_names_declaration(decl: EnvarView, found: Option<Seq<char>>)
    ensures
        load_spec(decl, found) matches Err(e) ==> failed_variable(e) == Some(decl.name),
{
}

/// The report of a failure to load a variable holds the variable's name.
pub proof fn law_message_names_variable(e: ErrorView)
    ensures
        failed_variable(e) matches Some(name) ==> occurs_in(name, message_text(e)),
{
    if let Some(name) = failed_variable(e) {
        let whole = message_text(e);
        let at = "environment variable `"@.len() as int;
        assert(whole.subrange(at, at + name.len()) =~= name);
    }
}

/// The report of a dotfile failure is the loader's own, word for word.
pub proof fn law_dotfile_message_verbatim(message: Seq<char>)
    ensures
        message_text(ErrorView::DotfileError { message }) == message,
{
}

} // verus!
