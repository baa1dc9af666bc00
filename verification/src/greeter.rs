//! An actor that greets.
use vstd::prelude::*;
use vstd::string::*;

use crate::exit;
use crate::exit::ExitCode;
use crate::fvm_actor_utils::syscalls::MethodNum;

verus! {

/// The number of the method "Constructor".
pub const CONSTRUCTOR: MethodNum = 1;

/// The number of the method "Greet".
pub const GREET: MethodNum = 1389586554;

/// The string that bytes of CBOR hold, if they hold one.
pub uninterp spec fn text_of(bytes: Seq<u8>) -> Option<Seq<char>>;

/// A string as CBOR.
pub uninterp spec fn text_cbor(text: Seq<char>) -> Seq<u8>;

/// `from_slice` of `fvm_ipld_encoding` for a string. It claims that the outcome depends on the
/// bytes only.
#[verifier::external_body]
fn decode_text(bytes: &Vec<u8>) -> (r: Option<String>)
    ensures
        r is Some == text_of(bytes@) is Some,
        r is Some ==> text_of(bytes@) == Some(r->0@),
{
    fvm_ipld_encoding::from_slice::<String>(bytes).ok()
}

/// `to_vec` of `fvm_ipld_encoding` on a string. It claims that the encoding succeeds, depends on
/// the string only, and holds the string.
#[verifier::external_body]
fn encode_text(text: &String) -> (r: Vec<u8>)
    ensures
        r@ == text_cbor(text@),
        text_of(r@) == Some(text@),
{
    fvm_ipld_encoding::to_vec(text).unwrap()
}

/// Greets by name.
pub fn greet(name: &str) -> (r: String)
    ensures
        r@ == "Hello, "@ + name@,
{
    let greeting = "Hello, ".to_owned();
    greeting.concat(name)
}

/// How an invocation ends.
#[derive(Debug, PartialEq, Eq)]
pub enum Outcome {
    /// The method returns a block, or nothing.
    Returned(Option<Vec<u8>>),
    /// The actor aborts.
    Aborted(ExitCode),
    /// The name cannot be read.
    NoName,
}

/// What the actor does for a message
///
/// Greet takes a name as a utf8 string and returns "Hello, {name}". The constructor does nothing,
/// as the actor has no state. Other methods are not known.
pub fn invoke(method_num: MethodNum, params: Option<Vec<u8>>) -> (r: Outcome)
    ensures
        method_num == CONSTRUCTOR ==> r == Outcome::Returned(None),
        method_num == GREET ==> match params {
            Some(bytes) => match text_of(bytes@) {
                Some(name) => r is Returned && r->Returned_0 is Some && r->Returned_0->0@
                    == text_cbor("Hello, "@ + name),
                None => r is NoName,
            },
            None => r is NoName,
        },
        method_num != CONSTRUCTOR && method_num != GREET ==> r == Outcome::Aborted(
            ExitCode { value: exit::USR_ILLEGAL_ARGUMENT },
        ),
{
    if method_num == CONSTRUCTOR {
        return Outcome::Returned(None);
    }
    if method_num != GREET {
        return Outcome::Aborted(ExitCode::new(exit::USR_ILLEGAL_ARGUMENT));
    }
    let bytes = match params {
        Some(bytes) => bytes,
        None => return Outcome::NoName,
    };
    match decode_text(&bytes) {
        Some(name) => {
            let greeting = greet(name.as_str());
            Outcome::Returned(Some(encode_text(&greeting)))
        },
        None => Outcome::NoName,
    }
}

} // verus!
