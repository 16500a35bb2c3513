//! Short-code generation: random alphanumeric strings of a fixed length.

use rand::Rng;
use vstd::prelude::*;
use vstd::string::*;

use crate::error::AppError;

verus! {

/// The length of the short codes that the create operation hands out.
pub const DEFAULT_CODE_LENGTH: usize = 7;

/// Whether `b` is one of the 62 ASCII letters and digits.
pub open spec fn is_alphanumeric_byte(b: u8) -> bool {
    ||| 0x30 <= b <= 0x39
    ||| 0x41 <= b <= 0x5a
    ||| 0x61 <= b <= 0x7a
}

/// Whether `c` is one of the 62 ASCII letters and digits.
pub open spec fn is_alphanumeric_char(c: char) -> bool {
    ||| '0' <= c <= '9'
    ||| 'A' <= c <= 'Z'
    ||| 'a' <= c <= 'z'
}

/// Whether `code` is a well-formed short code of `len` characters:
/// exactly that long, letters and digits only.
pub open spec fn is_short_code(code: Seq<char>, len: nat) -> bool {
    &&& code.len() == len
    &&& forall|i: int| 0 <= i < code.len() ==> is_alphanumeric_char(#[trigger] code[i])
}

/// The text that a sequence of ASCII symbols spells.
pub open spec fn spelled(symbols: Seq<u8>) -> Seq<char> {
    Seq::new(symbols.len(), |i: int| symbols[i] as char)
}

/// Whether every symbol of the sequence is a letter or a digit.
pub open spec fn all_alphanumeric(symbols: Seq<u8>) -> bool {
    forall|i: int| 0 <= i < symbols.len() ==> is_alphanumeric_byte(#[trigger] symbols[i])
}

/// Not proved, taken from the standard library's documentation:
/// `String::push` appends the character to the end of the string and
/// leaves what was there untouched.
pub assume_specification[ String::push ](s: &mut String, ch: char)
    ensures
        final(s)@ == old(s)@.push(ch),
;

/// Draws one symbol from rand's thread-local generator (`thread_rng`) with
/// the `Alphanumeric` distribution (`Rng::sample`).
///
/// Not proved, taken from rand: the distribution picks from a table of the
/// 62 ASCII letters and digits, so the symbol is one of them. Which one is
/// left open, and two draws need not agree. The generator is seeded from
/// the operating system on first use in a thread and reseeded from it
/// from time to time; rand panics if the system delivers no entropy at
/// either point.
#[verifier::external_body]
fn random_symbol() -> (symbol: u8)
    ensures
        is_alphanumeric_byte(symbol),
{
    rand::thread_rng().sample(rand::distributions::Alphanumeric)
}

/// Whether `symbol` is an ASCII letter or digit.
pub fn is_alphanumeric(symbol: u8) -> (yes: bool)
    ensures
        yes == is_alphanumeric_byte(symbol),
{
    (0x30 <= symbol && symbol <= 0x39) || (0x41 <= symbol && symbol <= 0x5a) || (0x61 <= symbol
        && symbol <= 0x7a)
}

/// The message of the error for a request of a code without characters.
pub open spec fn zero_length_message() -> Seq<char> {
    "Short code length must be at least 1"@
}

/// The message of the error for a symbol that is no letter or digit.
pub open spec fn bad_symbol_message() -> Seq<char> {
    "Short code symbols must be alphanumeric"@
}

/// What spelling a code from `symbols` yields: the code, or the message of
/// the input error.
pub open spec fn spelling_outcome(symbols: Seq<u8>) -> Result<Seq<char>, Seq<char>> {
    if symbols.len() == 0 {
        Err(zero_length_message())
    } else if !all_alphanumeric(symbols) {
        Err(bad_symbol_message())
    } else {
        Ok(spelled(symbols))
    }
}

/// Whether `result` is what `outcome` describes: the same text on success,
/// an `InvalidInput` with the same message on failure.
pub open spec fn matches_outcome(
    result: Result<String, AppError>,
    outcome: Result<Seq<char>, Seq<char>>,
) -> bool {
    match (result, outcome) {
        (Ok(code), Ok(text)) => code@ == text,
        (Err(AppError::InvalidInput(msg)), Err(text)) => msg@ == text,
        _ => false,
    }
}

/// Spells a short code from the symbols drawn for it.
///
/// Succeeds exactly when there is at least one symbol and all of them are
/// letters or digits; the code then has one character per symbol, in order.
pub fn code_from_symbols(symbols: &Vec<u8>) -> (result: Result<String, AppError>)
    ensures
        matches_outcome(result, spelling_outcome(symbols@)),
        result matches Ok(code) ==> is_short_code(code@, symbols@.len()),
{
    if symbols.len() == 0 {
        return Err(
            AppError::InvalidInput(String::from_str("Short code length must be at least 1")),
        );
    }
    let mut code = String::new();
    let mut i: usize = 0;
    while i < symbols.len()
        invariant
            i <= symbols@.len(),
            code@ == spelled(symbols@.take(i as int)),
            all_alphanumeric(symbols@.take(i as int)),
        decreases symbols@.len() - i,
    {
        let symbol: u8 = symbols[i];
        if !is_alphanumeric(symbol) {
            return Err(
                AppError::InvalidInput(
                    String::from_str("Short code symbols must be alphanumeric"),
                ),
            );
        }
        code.push(symbol as char);
        i += 1;
    }
    proof {
        assert(symbols@.take(i as int) == symbols@);
        lemma_spelled_is_short_code(symbols@);
    }
    Ok(code)
}

/// Letters and digits spell a well-formed code of as many characters.
pub proof fn lemma_spelled_is_short_code(symbols: Seq<u8>)
    requires
        all_alphanumeric(symbols),
    ensures
        is_short_code(spelled(symbols), symbols.len()),
{
    assert forall|i: int| 0 <= i < spelled(symbols).len() implies is_alphanumeric_char(
        #[trigger] spelled(symbols)[i],
    ) by {
        assert(is_alphanumeric_byte(symbols[i]));
    }
}

/// Generates a random short code of `len` characters, each drawn from the
/// 62 ASCII letters and digits.
///
/// A request for zero characters is an input error; any other request
/// succeeds with a code of exactly `len` letters and digits.
pub fn generate_short_code(len: usize) -> (result: Result<String, AppError>)
    ensures
        len == 0 ==> matches_outcome(result, Err(zero_length_message())),
        len >= 1 ==> (result matches Ok(code) && is_short_code(code@, len as nat)),
{
    let mut symbols: Vec<u8> = Vec::new();
    let mut i: usize = 0;
    while i < len
        invariant
            i <= len,
            symbols@.len() == i,
            all_alphanumeric(symbols@),
        decreases len - i,
    {
        let symbol: u8 = random_symbol();
        symbols.push(symbol);
        i += 1;
    }
    code_from_symbols(&symbols)
}

} // verus!
