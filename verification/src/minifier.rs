//! Minification: the program text is parsed as a module and printed again in
//! minified form. Parsing and printing are swc's; this module turns what they
//! hand back into the minified text or the failure.

use vstd::prelude::*;
use vstd::string::*;
use vstd::utf8::{decode_utf8, valid_utf8};
use std::string::FromUtf8Error;
use swc_core::common::sync::Lrc;
use swc_core::common::{FileName, SourceMap};
use swc_core::ecma::codegen::text_writer::JsWriter;
use swc_core::ecma::codegen::{Config, Emitter};
use swc_core::ecma::parser::error::Error;
use swc_core::ecma::parser::lexer::Lexer;
use swc_core::ecma::parser::{Parser, StringInput, Syntax};

verus! {

/// swc's syntax error.
#[verifier::external_type_specification]
#[verifier::external_body]
pub struct ExError(Error);

/// The error of `std::io`.
#[verifier::external_type_specification]
#[verifier::external_body]
pub struct ExIoError(std::io::Error);

/// The error of `String::from_utf8`.
#[verifier::external_type_specification]
#[verifier::external_body]
pub struct ExFromUtf8Error(FromUtf8Error);

/// Whether swc parses `code` as a module: what `Parser::parse_module` decides
/// for a parser over the text as the only file of a fresh source map. The
/// parser reads nothing but the text.
pub uninterp spec fn source_parses(code: Seq<char>) -> bool;

/// The bytes that swc prints for the module that it parsed from `code`: what
/// `Emitter::emit_module` writes when it is set to minify. The printer reads
/// nothing but the syntax tree and the source map, which the parser made from
/// the text.
pub uninterp spec fn printed_bytes(code: Seq<char>) -> Seq<u8>;

/// `Parser::parse_module` of swc and, on the module it returns,
/// `Emitter::emit_module`.
///
/// The parser runs over a lexer for `code`, which is first entered as an
/// anonymous file in a source map of its own. Whether the text parses is a
/// matter of the text alone. The source map numbers the bytes of the file
/// from one in 32 bits, and swc asserts that the file's last position is not
/// below its first, so the text has to be short enough for its positions not
/// to wrap round.
///
/// The emitter is set to minify and writes into a fresh buffer, with `\n`
/// for a line break, without comments and without a source-map record, over
/// the source map that the module was parsed with. It fails only where its
/// writer does, and a buffer in memory takes every write; all that it writes
/// are the bytes of string slices, so the buffer holds valid UTF-8; and what
/// it writes is a matter of the module and its source map alone, so of the
/// text.
#[verifier::external_body]
fn parse_and_print(code: &str) -> (printed: Result<Result<Vec<u8>, std::io::Error>, Error>)
    requires
        code.spec_bytes().len() < u32::MAX,
    ensures
        printed is Ok <==> source_parses(code@),
        printed matches Ok(emitted) ==> (emitted matches Ok(bytes) && bytes@ == printed_bytes(code@)
            && valid_utf8(bytes@)),
{
    let cm: Lrc<SourceMap> = Default::default();
    let fm = cm.new_source_file(FileName::Anon.into(), code.to_string());
    let input = StringInput::from(&*fm);
    let lexer = Lexer::new(Syntax::Es(Default::default()), Default::default(), input, None);
    let module = Parser::new_from(lexer).parse_module()?;
    let mut buf = vec![];
    let wr = JsWriter::new(cm.clone(), "\n", &mut buf, None);
    let cfg = Config::default().with_minify(true);
    match (Emitter { cfg, cm, comments: None, wr }).emit_module(&module) {
        Ok(()) => Ok(Ok(buf)),
        Err(e) => Ok(Err(e)),
    }
}

/// `String::from_utf8` of std: the bytes as a string if they are valid UTF-8,
/// and an error if they are not.
#[verifier::external_body]
fn string_from_utf8(bytes: Vec<u8>) -> (res: Result<String, FromUtf8Error>)
    ensures
        res is Ok <==> valid_utf8(bytes@),
        res matches Ok(text) ==> text@ == decode_utf8(bytes@),
{
    String::from_utf8(bytes)
}

/// What is reported when the program text does not parse.
pub open spec fn parse_failure() -> Seq<char> {
    "Parse error"@
}

/// What is reported when the syntax tree cannot be printed.
pub open spec fn emit_failure() -> Seq<char> {
    "Emit error"@
}

/// What is reported when the printed bytes are not valid UTF-8.
pub open spec fn encoding_failure() -> Seq<char> {
    "UTF-8 error"@
}

/// What minification returns once the printer has returned `emitted`: the
/// printed bytes as text, or the failure that stopped it.
pub open spec fn emitted_text(emitted: Result<Vec<u8>, std::io::Error>) -> Result<
    Seq<char>,
    Seq<char>,
> {
    match emitted {
        Ok(bytes) => if valid_utf8(bytes@) {
            Ok(decode_utf8(bytes@))
        } else {
            Err(encoding_failure())
        },
        Err(_) => Err(emit_failure()),
    }
}

/// The view of a result of minification: the text, or the message.
pub open spec fn outcome_view(res: Result<String, String>) -> Result<Seq<char>, Seq<char>> {
    match res {
        Ok(text) => Ok(text@),
        Err(message) => Err(message@),
    }
}

/// Turns what the printer returned into the result of minification.
pub fn text_of_emitted(emitted: Result<Vec<u8>, std::io::Error>) -> (res: Result<String, String>)
    ensures
        outcome_view(res) == emitted_text(emitted),
{
    match emitted {
        Ok(bytes) => match string_from_utf8(bytes) {
            Ok(text) => Ok(text),
            Err(_) => Err("UTF-8 error".to_owned()),
        },
        Err(_) => Err("Emit error".to_owned()),
    }
}

/// The text that minification gives for a text that parses: what swc prints
/// for it, read as UTF-8.
pub open spec fn minified_text(code: Seq<char>) -> Seq<char> {
    decode_utf8(printed_bytes(code))
}

/// Minifies `code`: parses it as a module and prints the module without
/// insignificant whitespace and comments. A text that swc parses gives the
/// printed text, and a text that it does not parse gives the parse failure.
pub fn minify(code: &str) -> (res: Result<String, String>)
    requires
        code.spec_bytes().len() < u32::MAX,
    ensures
        res is Ok <==> source_parses(code@),
        res matches Ok(text) ==> text@ == minified_text(code@),
        res matches Err(message) ==> message@ == parse_failure(),
{
    match parse_and_print(code) {
        Ok(emitted) => text_of_emitted(emitted),
        Err(_) => Err("Parse error".to_owned()),
    }
}

} // verus!
