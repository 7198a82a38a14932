//! The little of `std::fmt` that printing for debugging needs.
//!
//! What a value prints as is for its own `Debug` impl to decide, and nothing
//! here says what that is. The functions only say where a text comes from:
//! `prints(value, text, outcome)` holds of a text that printing `value` gave
//! and of the outcome that it ended with.

use vstd::prelude::*;
use core::fmt::Debug;
use core::fmt::Write;

verus! {

/// `core::fmt::Formatter`, of which values are only handed on.
#[verifier::external_type_specification]
#[verifier::external_body]
pub struct ExFormatter<'a>(core::fmt::Formatter<'a>);

/// `core::fmt::Error`, of which values are only handed on.
#[verifier::external_type_specification]
#[verifier::external_body]
pub struct ExError(core::fmt::Error);

/// `write!` with `{:?}` into a fresh `String`: the value as its `Debug` impl
/// prints it, and what that impl reported at the end. Nothing is claimed of
/// either, which is for that impl to decide. Where it reports a failure, the
/// text is what it had written until then.
#[verifier::external_body]
fn debug_text<T: Debug>(value: &T) -> (printed: (
    String,
    core::result::Result<(), core::fmt::Error>,
)) {
    let mut text = String::new();
    let outcome = write!(text, "{:?}", value);
    (text, outcome)
}

/// `Formatter::write_str`. Nothing is claimed of the outcome, which is for
/// whatever the formatter writes into to decide.
#[verifier::external_body]
pub(crate) fn write_text(f: &mut core::fmt::Formatter<'_>, text: &str) -> (written:
    core::result::Result<(), core::fmt::Error>) {
    f.write_str(text)
}

/// `Debug::fmt` of `value`, with the formatter as it was handed in, flags
/// and all. Nothing is claimed of the outcome.
#[verifier::external_body]
pub(crate) fn write_debug<T: Debug>(value: &T, f: &mut core::fmt::Formatter<'_>) -> (written:
    core::result::Result<(), core::fmt::Error>) {
    Debug::fmt(value, f)
}

/// Printing `value` for debugging gave `text` and ended with `outcome`.
pub closed spec fn prints<T: Debug>(
    value: &T,
    text: String,
    outcome: core::result::Result<(), core::fmt::Error>,
) -> bool {
    call_ensures(debug_text::<T>, (value,), (text, outcome))
}

/// `text` is what printing `value` for debugging gave, however it ended.
pub open spec fn shows<T: Debug>(value: &T, text: String) -> bool {
    exists|outcome: core::result::Result<(), core::fmt::Error>|
        #[trigger] prints(value, text, outcome)
}

/// Prints `value` for debugging, and hands back the text with what the
/// `Debug` impl of the value reported: `Ok`, or the failure that it gave up
/// with.
pub fn try_show<T: Debug>(value: &T) -> (printed: (
    String,
    core::result::Result<(), core::fmt::Error>,
))
    ensures
        prints(value, printed.0, printed.1),
{
    debug_text(value)
}

/// Prints `value` for debugging. Where its `Debug` impl gives up with a
/// failure, the text is what was written until then.
pub fn show<T: Debug>(value: &T) -> (text: String)
    ensures
        shows(value, text),
{
    let printed = try_show(value);
    printed.0
}

} // verus!
