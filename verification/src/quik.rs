//! Result-code taxonomy of the Trans2QUIK native terminal API.
//!
//! The native library reports every call and callback outcome as an integer
//! result code. This module maps the codes onto a closed enumeration (an
//! unrecognized code maps to `Unknown` rather than panicking), converts the
//! fixed-size NUL-terminated message buffers the native calls fill into text,
//! and decides whether a startup connection sequence established the session.

use vstd::prelude::*;

verus! {

/// Outcome of a native terminal call or callback, mapped from the integer
/// result codes of the Trans2QUIK library.
#[derive(Debug, PartialEq, Eq, Structural, Clone, Copy)]
pub enum Trans2QuikResult {
    Success,
    Failed,
    TerminalNotFound,
    DllVersionNotSupported,
    AlreadyConnectedToQuik,
    WrongSyntax,
    QuikNotConnected,
    DllNotConnected,
    QuikConnected,
    QuikDisconnected,
    DllConnected,
    DllDisconnected,
    MemoryAllocationError,
    WrongConnectionHandle,
    WrongInputParams,
    Unknown,
}

/// The outcome that the native result code `code` denotes.
pub open spec fn spec_from_code(code: int) -> Trans2QuikResult {
    if code == 0 {
        Trans2QuikResult::Success
    } else if code == 1 {
        Trans2QuikResult::Failed
    } else if code == 2 {
        Trans2QuikResult::TerminalNotFound
    } else if code == 3 {
        Trans2QuikResult::DllVersionNotSupported
    } else if code == 4 {
        Trans2QuikResult::AlreadyConnectedToQuik
    } else if code == 5 {
        Trans2QuikResult::WrongSyntax
    } else if code == 6 {
        Trans2QuikResult::QuikNotConnected
    } else if code == 7 {
        Trans2QuikResult::DllNotConnected
    } else if code == 8 {
        Trans2QuikResult::QuikConnected
    } else if code == 9 {
        Trans2QuikResult::QuikDisconnected
    } else if code == 10 {
        Trans2QuikResult::DllConnected
    } else if code == 11 {
        Trans2QuikResult::DllDisconnected
    } else if code == 12 {
        Trans2QuikResult::MemoryAllocationError
    } else if code == 13 {
        Trans2QuikResult::WrongConnectionHandle
    } else if code == 14 {
        Trans2QuikResult::WrongInputParams
    } else {
        Trans2QuikResult::Unknown
    }
}

impl From<i64> for Trans2QuikResult {
    /// Maps a native result code onto the closed outcome enumeration.
    fn from(code: i64) -> (r: Trans2QuikResult) {
        match code {
            0 => Trans2QuikResult::Success,
            1 => Trans2QuikResult::Failed,
            2 => Trans2QuikResult::TerminalNotFound,
            3 => Trans2QuikResult::DllVersionNotSupported,
            4 => Trans2QuikResult::AlreadyConnectedToQuik,
            5 => Trans2QuikResult::WrongSyntax,
            6 => Trans2QuikResult::QuikNotConnected,
            7 => Trans2QuikResult::DllNotConnected,
            8 => Trans2QuikResult::QuikConnected,
            9 => Trans2QuikResult::QuikDisconnected,
            10 => Trans2QuikResult::DllConnected,
            11 => Trans2QuikResult::DllDisconnected,
            12 => Trans2QuikResult::MemoryAllocationError,
            13 => Trans2QuikResult::WrongConnectionHandle,
            14 => Trans2QuikResult::WrongInputParams,
            _ => Trans2QuikResult::Unknown,
        }
    }
}

impl vstd::std_specs::convert::FromSpecImpl<i64> for Trans2QuikResult {
    open spec fn obeys_from_spec() -> bool {
        true
    }

    open spec fn from_spec(code: i64) -> Trans2QuikResult {
        spec_from_code(code as int)
    }
}

/// Whether a connect call established (or found already established) the
/// link: `Success` and `AlreadyConnectedToQuik` both mean a usable session.
pub open spec fn spec_connection_established(r: Trans2QuikResult) -> bool {
    r == Trans2QuikResult::Success || r == Trans2QuikResult::AlreadyConnectedToQuik
}

/// Decides whether a connect outcome leaves the session usable.
pub fn connection_established(r: &Trans2QuikResult) -> (b: bool)
    ensures
        b == spec_connection_established(*r),
{
    match r {
        Trans2QuikResult::Success => true,
        Trans2QuikResult::AlreadyConnectedToQuik => true,
        _ => false,
    }
}

/// Whether the startup sequence succeeded: the connect call established the
/// session and both link-stage probes report their link in place.
pub open spec fn spec_startup_ok(
    connect: Trans2QuikResult,
    dll: Trans2QuikResult,
    quik: Trans2QuikResult,
) -> bool {
    spec_connection_established(connect) && dll == Trans2QuikResult::DllConnected && quik
        == Trans2QuikResult::QuikConnected
}

/// Decides whether the startup connection sequence established a usable
/// session, from the outcomes of the connect call and the two link probes.
pub fn startup_ok(
    connect: &Trans2QuikResult,
    dll: &Trans2QuikResult,
    quik: &Trans2QuikResult,
) -> (b: bool)
    ensures
        b == spec_startup_ok(*connect, *dll, *quik),
{
    let dll_linked = match dll {
        Trans2QuikResult::DllConnected => true,
        _ => false,
    };
    let quik_linked = match quik {
        Trans2QuikResult::QuikConnected => true,
        _ => false,
    };
    connection_established(connect) && dll_linked && quik_linked
}

/// An `AlreadyConnectedToQuik` outcome during startup is not a failure: with
/// both link stages in place it leaves the session usable.
pub proof fn law_already_connected_is_established()
    ensures
        spec_connection_established(Trans2QuikResult::AlreadyConnectedToQuik),
        spec_startup_ok(
            Trans2QuikResult::AlreadyConnectedToQuik,
            Trans2QuikResult::DllConnected,
            Trans2QuikResult::QuikConnected,
        ),
{
}

/// The prefix of `bytes` before its first NUL byte (the whole sequence when
/// no byte is NUL): the payload of a fixed-size native message buffer.
pub open spec fn before_first_nul(bytes: Seq<u8>) -> Seq<u8>
    decreases bytes.len(),
{
    if bytes.len() == 0 {
        bytes
    } else if bytes[0] == 0 {
        Seq::empty()
    } else {
        seq![bytes[0]] + before_first_nul(bytes.skip(1))
    }
}

/// Relies on `String::from_utf8`: it returns the decoded string exactly when
/// the bytes are valid UTF-8, and an error otherwise.
#[verifier::external_body]
fn string_from_utf8(bytes: Vec<u8>) -> (r: Result<String, std::string::FromUtf8Error>)
    ensures
        r is Ok <==> vstd::utf8::valid_utf8(bytes@),
        r matches Ok(s) ==> s@ == vstd::utf8::decode_utf8(bytes@),
{
    String::from_utf8(bytes)
}

#[verifier::external_type_specification]
#[verifier::external_body]
pub struct ExFromUtf8Error(std::string::FromUtf8Error);

/// Extracts the text of a fixed-size native message buffer: the bytes before
/// the first NUL, decoded as UTF-8. Returns an error when those bytes are not
/// valid UTF-8 (callers degrade to a placeholder message).
pub fn extract_string_from_vec(vec_i8: Vec<i8>) -> (r: Result<
    String,
    std::string::FromUtf8Error,
>)
    ensures
        r is Ok <==> vstd::utf8::valid_utf8(before_first_nul(vec_i8@.map_values(|b: i8| b as u8))),
        r matches Ok(s) ==> s@ == vstd::utf8::decode_utf8(
            before_first_nul(vec_i8@.map_values(|b: i8| b as u8)),
        ),
{
    let ghost all_bytes = vec_i8@.map_values(|b: i8| b as u8);
    let mut trimmed: Vec<u8> = Vec::new();
    let mut i: usize = 0;
    let n = vec_i8.len();
    while i < n
        invariant
            0 <= i <= n,
            n == vec_i8@.len(),
            all_bytes == vec_i8@.map_values(|b: i8| b as u8),
            forall|j: int| 0 <= j < i ==> all_bytes[j] != 0,
            trimmed@ =~= all_bytes.take(i as int),
        ensures
            0 <= i <= n,
            forall|j: int| 0 <= j < i ==> all_bytes[j] != 0,
            trimmed@ =~= all_bytes.take(i as int),
            i == n || all_bytes[i as int] == 0,
        decreases n - i,
    {
        let b = #[verifier::truncate] (vec_i8[i] as u8);
        proof {
            assert(all_bytes[i as int] == b);
        }
        if b == 0 {
            break ;
        }
        trimmed.push(b);
        i = i + 1;
    }
    proof {
        lemma_before_first_nul_take(all_bytes, i as int);
    }
    string_from_utf8(trimmed)
}

/// When the first `i` bytes are nonzero and either `i` is the whole length or
/// byte `i` is NUL, the prefix before the first NUL is exactly `take(i)`.
proof fn lemma_before_first_nul_take(bytes: Seq<u8>, i: int)
    requires
        0 <= i <= bytes.len(),
        forall|j: int| 0 <= j < i ==> bytes[j] != 0,
        i == bytes.len() || bytes[i] == 0,
    ensures
        before_first_nul(bytes) =~= bytes.take(i),
    decreases bytes.len(),
{
    if bytes.len() == 0 {
    } else if bytes[0] == 0 {
        assert(i == 0);
    } else {
        assert(i >= 1);
        lemma_before_first_nul_take(bytes.skip(1), i - 1);
        assert(bytes.take(i) =~= seq![bytes[0]] + bytes.skip(1).take(i - 1));
    }
}

} // verus!
