//! Seed expressions: expressions whose coercion to text is a known constant,
//! and the characters that can be read out of that text by index.

use vstd::prelude::*;
use crate::numeral::index_text;

verus! {

/// An expression of the target language whose text form is fixed.
pub enum SeedSource {
    /// The boolean false, which reads `false`.
    False,
    /// The boolean true, which reads `true`.
    True,
    /// A missing array element, which reads `undefined`.
    Undefined,
    /// A failed conversion to a number, which reads `NaN`.
    NaN,
    /// An empty object literal, which reads `[object Object]`.
    Object,
}

/// The text that the seed coerces to when the target runtime evaluates it.
pub open spec fn seed_text(seed: SeedSource) -> Seq<char> {
    match seed {
        SeedSource::False => "false"@,
        SeedSource::True => "true"@,
        SeedSource::Undefined => "undefined"@,
        SeedSource::NaN => "NaN"@,
        SeedSource::Object => "[object Object]"@,
    }
}

/// The expression that evaluates to the seed's text.
pub open spec fn seed_expr(seed: SeedSource) -> Seq<char> {
    match seed {
        SeedSource::False => "(![]+[])"@,
        SeedSource::True => "(!![]+[])"@,
        SeedSource::Undefined => "([][[]]+[])"@,
        SeedSource::NaN => "(+[![]]+[])"@,
        SeedSource::Object => "([]+{})"@,
    }
}

/// The expression `source[index]`, with the index written as a numeral.
pub open spec fn at_index(source: Seq<char>, index: nat) -> Seq<char> {
    source + "["@ + index_text(index) + "]"@
}

/// The expression for the character at `index` of the seed's text.
pub open spec fn from_seed(seed: SeedSource, index: nat) -> Seq<char> {
    at_index(seed_expr(seed), index)
}

} // verus!
