//! An encoder that rewrites program text into expressions over a handful of
//! punctuation symbols, each of which evaluates back to the text it stands for.

use vstd::prelude::*;
use vstd::string::*;

pub mod alphabet;
pub mod closure;
pub mod derivation;
pub mod encoder;
pub mod encoding;
pub mod keyword;
pub mod minifier;
pub mod numeral;
pub mod seed;
pub mod trim;

pub use encoder::Encoder;
pub use minifier::minify;
pub use trim::strip_terminators;

use encoding::{encoding, execution};
use minifier::{minified_text, outcome_view, parse_failure, source_parses};
use trim::stripped;

verus! {

/// What compilation makes of an outcome of minification: the minified text,
/// stripped of the white space round it and of its last statement
/// terminators, encoded and wrapped for execution; or the failure under a
/// heading.
pub open spec fn compiled(minified: Result<Seq<char>, Seq<char>>) -> Result<Seq<char>, Seq<char>> {
    match minified {
        Ok(code) => Ok(execution(encoding(stripped(code)))),
        Err(message) => Err("Minification failed: "@ + message),
    }
}

/// Compiles an outcome of minification: strips the text, encodes it and
/// wraps it for execution, or passes the failure on under a heading.
pub fn compile_minified(minified: Result<String, String>) -> (res: Result<String, String>)
    ensures
        outcome_view(res) == compiled(outcome_view(minified)),
{
    match minified {
        Ok(code) => {
            let encoded_string = Encoder::encode_string(strip_terminators(code.as_str()));
            Ok(Encoder::wrap_execution(encoded_string.as_str()))
        },
        Err(message) => {
            let mut report = "Minification failed: ".to_owned();
            report.append(message.as_str());
            Err(report)
        },
    }
}

/// Compiles `input` into an expression that runs it. Without minification
/// the result is the wrapped encoding of `input` as it stands. With it, a
/// text that parses is minified, stripped, encoded and wrapped, and a text
/// that does not parse is reported.
pub fn compile_to_jsfuck(input: &str, enable_minify: bool) -> (res: Result<String, String>)
    requires
        enable_minify ==> input.spec_bytes().len() < u32::MAX,
    ensures
        !enable_minify ==> (res matches Ok(text) && text@ == execution(encoding(input@))),
        enable_minify ==> (res is Ok <==> source_parses(input@)),
        enable_minify ==> ((res matches Err(message) && message@ == "Minification failed: "@
            + parse_failure()) <==> !source_parses(input@)),
        enable_minify ==> (res matches Ok(text) ==> text@ == execution(
            encoding(stripped(minified_text(input@))),
        )),
{
    if enable_minify {
        compile_minified(minify(input))
    } else {
        let encoded_string = Encoder::encode_string(input);
        Ok(Encoder::wrap_execution(encoded_string.as_str()))
    }
}

} // verus!
