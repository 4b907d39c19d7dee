//! The response envelope and the one check-then-unwrap codec that every
//! endpoint shares.

use vstd::prelude::*;

use crate::error::ProxerError;

verus! {

/// The uniform wire shape of an endpoint response: a numeric error code,
/// an optional secondary code, an optional human-readable message, and an
/// optional payload that is present exactly on success.
pub struct Envelope<T> {
    pub error: u64,
    pub code: Option<u64>,
    pub message: Option<String>,
    pub data: Option<T>,
}

/// A failure as the codec model states it, over mathematical values.
pub enum SpecFailure {
    /// The envelope's error code differed from the expected success code.
    Api { code: u64, message: Seq<char> },
    /// The error code signalled success but the payload was absent.
    MissingData,
}

/// The failure text the codec reports: the envelope's message when
/// present, the fixed default (the empty string) otherwise.
pub open spec fn spec_message(message: Option<Seq<char>>) -> Seq<char> {
    match message {
        Some(m) => m,
        None => Seq::empty(),
    }
}

/// The codec's full decision for an envelope with error code `error`,
/// optional message `message` and payload `data`, checked against the
/// expected success code `expected`.
pub open spec fn spec_unwrap<T>(
    error: u64,
    message: Option<Seq<char>>,
    data: Option<T>,
    expected: u64,
) -> Result<T, SpecFailure> {
    if error != expected {
        Err(SpecFailure::Api { code: error, message: spec_message(message) })
    } else {
        match data {
            Some(d) => Ok(d),
            None => Err(SpecFailure::MissingData),
        }
    }
}

/// The view of an optional message string.
pub open spec fn message_view(message: Option<String>) -> Option<Seq<char>> {
    match message {
        Some(m) => Some(m@),
        None => None,
    }
}

/// Checks an envelope against the expected success code and unwraps its
/// payload.  The result follows `spec_unwrap` exactly: a differing error
/// code becomes `ProxerError::Api` carrying the envelope's message (or
/// the empty string when it has none), a success code without a payload
/// becomes `ProxerError::MissingData`, and otherwise the payload is
/// returned unchanged.
pub fn unwrap_envelope<T>(env: Envelope<T>, expected: u64) -> (r: Result<T, ProxerError>)
    ensures
        ({
            let model = spec_unwrap(env.error, message_view(env.message), env.data, expected);
            match model {
                Ok(d) => r matches Ok(rd) && rd == d,
                Err(SpecFailure::Api { code, message }) => (r matches Err(ProxerError::Api {
                    code: c,
                    message: m,
                }) && c == code && m@ == message),
                Err(SpecFailure::MissingData) => r matches Err(ProxerError::MissingData),
            }
        }),
{
    match check_error(env.error, env.message, expected) {
        Err(e) => Err(e),
        Ok(()) => match env.data {
            Some(d) => Ok(d),
            None => Err(ProxerError::MissingData),
        },
    }
}

/// The bare error check, for responses that carry no payload: success
/// exactly when the envelope's error code equals the expected one, and
/// otherwise `ProxerError::Api` carrying the envelope's message (or the
/// empty string when it has none).
pub fn check_error(error: u64, message: Option<String>, expected: u64) -> (r: Result<
    (),
    ProxerError,
>)
    ensures
        error == expected ==> r == Ok::<(), ProxerError>(()),
        error != expected ==> (r matches Err(ProxerError::Api { code, message: m }) && code == error
            && m@ == spec_message(message_view(message))),
{
    if error != expected {
        let m = match message {
            Some(m) => m,
            None => String::new(),
        };
        Err(ProxerError::Api { code: error, message: m })
    } else {
        Ok(())
    }
}

/// Law: wrapping a payload in an envelope that carries the expected
/// success code and then running the codec yields exactly that payload.
pub proof fn lemma_success_round_trip<T>(
    error: u64,
    message: Option<Seq<char>>,
    payload: T,
    expected: u64,
)
    requires
        error == expected,
    ensures
        spec_unwrap(error, message, Some(payload), expected) == Ok::<T, SpecFailure>(payload),
{
}

/// Law: when the error code differs from the expected success code the
/// codec reports an api failure whose message is the envelope's message
/// when present, and the fixed default (the empty string) otherwise.
pub proof fn lemma_failure_carries_message<T>(
    error: u64,
    message: Option<Seq<char>>,
    data: Option<T>,
    expected: u64,
)
    requires
        error != expected,
    ensures
        spec_unwrap(error, message, data, expected) == Err::<T, SpecFailure>(
            SpecFailure::Api { code: error, message: spec_message(message) },
        ),
        message is Some ==> spec_message(message) == message.unwrap(),
        message is None ==> spec_message(message) == Seq::<char>::empty(),
{
}

/// Law: a success code without a payload is reported as a protocol
/// violation, never as a default payload.
pub proof fn lemma_missing_data<T>(error: u64, message: Option<Seq<char>>, expected: u64)
    requires
        error == expected,
    ensures
        spec_unwrap(error, message, None::<T>, expected) == Err::<T, SpecFailure>(
            SpecFailure::MissingData,
        ),
{
}

} // verus!
