//! Signing and verifying messages.

use vstd::prelude::*;
use vstd::string::*;
use vstd::utf8::encode_utf8;

use crate::chain::{public_key_of, secp256k1_public_key, secret_key_error, valid_secret_key};
use crate::form::{Concrete, KeyFacts, Model, maybe_secret};
use crate::hexadecimal::{decode_hex, encode_hex, hex_bytes, hex_error, hex_text, is_hex};
use crate::state::{
    SignStage, State, Step, VerifyStage, close, closing, fail_outside, failed_outside, misreplied,
    misreply,
};
use crate::text::join2;
use crate::wire::{Reply, Request};

verus! {

/// What binds a signed message to its purpose.
pub open spec fn message_aad() -> Seq<u8> {
    encode_utf8("NS:COSE/Sign.Mesage"@)
}

/// What binds a signed message to its purpose.
pub fn message_aad_bytes() -> (r: Vec<u8>)
    ensures
        r@ == message_aad(),
{
    "NS:COSE/Sign.Mesage".as_bytes_vec()
}

/// The first step of signing a message: it is printed.
pub open spec fn sign_begun(
    key: Seq<u8>,
    facts: KeyFacts<Model>,
    message: Seq<char>,
    hex: bool,
) -> Step<Model> {
    Step {
        state: State::Sign(SignStage::Message { key, facts, message, hex }),
        request: Request::Print { text: "message: "@ + message },
    }
}

/// The step that prints what was signed: in hexadecimal, or else in base64.
pub open spec fn sign_shown(heading: Seq<char>, data: Seq<u8>, hex: bool) -> Step<Model> {
    if hex {
        closing(heading + hex_text(data))
    } else {
        Step {
            state: State::Sign(SignStage::Encode { heading }),
            request: Request::EncodeBase64Url { data },
        }
    }
}

/// The next step of signing a message.
pub open spec fn sign_next(stage: SignStage<Model>, reply: Reply<Model>) -> Step<Model> {
    match (stage, reply) {
        (SignStage::Message { key, facts, message, hex }, Reply::Done) => if facts.secp256k1 {
            match facts.secret {
                Ok(secret) => if valid_secret_key(secret) {
                    Step {
                        state: State::Sign(SignStage::Secp256k1 { hex }),
                        request: Request::SignSecp256k1 { secret, message },
                    }
                } else {
                    failed_outside(secret_key_error())
                },
                Err(message) => failed_outside(message),
            }
        } else if facts.ed25519 {
            Step {
                state: State::Sign(SignStage::Ed25519 { hex }),
                request: Request::SignEd25519 {
                    key,
                    payload: encode_utf8(message),
                    aad: message_aad(),
                },
            }
        } else {
            closing("unsupported key type"@)
        },
        (SignStage::Secp256k1 { hex }, Reply::Bytes(data)) => sign_shown(
            "signature:\n"@,
            data,
            hex,
        ),
        (SignStage::Ed25519 { hex }, Reply::Bytes(data)) => sign_shown(
            "signed message:\n"@,
            data,
            hex,
        ),
        (SignStage::Encode { heading }, Reply::Text(text)) => closing(heading + text),
        _ => misreplied(),
    }
}

/// Begins to sign a message.
pub(crate) fn begin_sign(
    key: Vec<u8>,
    facts: KeyFacts<Concrete>,
    message: String,
    hex: bool,
) -> (r: Step<Concrete>)
    ensures
        r@ == sign_begun(key@, facts@, message@, hex),
{
    let text: String = join2("message: ", message.as_str());
    Step {
        state: State::Sign(SignStage::Message { key, facts, message, hex }),
        request: Request::Print { text },
    }
}

/// Prints what was signed.
fn show_signed(heading: &str, data: Vec<u8>, hex: bool) -> (r: Step<Concrete>)
    ensures
        r@ == sign_shown(heading@, data@, hex),
{
    if hex {
        close(join2(heading, encode_hex(data.as_slice()).as_str()))
    } else {
        Step {
            state: State::Sign(SignStage::Encode { heading: heading.to_owned() }),
            request: Request::EncodeBase64Url { data },
        }
    }
}

/// Goes on with signing a message.
pub(crate) fn sign_step(stage: SignStage<Concrete>, reply: Reply<Concrete>) -> (r: Step<Concrete>)
    ensures
        r@ == sign_next(stage@, reply@),
{
    match (stage, reply) {
        (SignStage::Message { key, facts, message, hex }, Reply::Done) => {
            if facts.secp256k1 {
                match facts.secret {
                    Ok(secret) => match public_key_of(secret.as_slice()) {
                        Ok(_) => Step {
                            state: State::Sign(SignStage::Secp256k1 { hex }),
                            request: Request::SignSecp256k1 { secret, message },
                        },
                        Err(message) => fail_outside(message),
                    },
                    Err(message) => fail_outside(message),
                }
            } else if facts.ed25519 {
                Step {
                    state: State::Sign(SignStage::Ed25519 { hex }),
                    request: Request::SignEd25519 {
                        key,
                        payload: message.as_str().as_bytes_vec(),
                        aad: message_aad_bytes(),
                    },
                }
            } else {
                close("unsupported key type".to_owned())
            }
        },
        (SignStage::Secp256k1 { hex }, Reply::Bytes(data)) => show_signed(
            "signature:\n",
            data,
            hex,
        ),
        (SignStage::Ed25519 { hex }, Reply::Bytes(data)) => show_signed(
            "signed message:\n",
            data,
            hex,
        ),
        (SignStage::Encode { heading }, Reply::Text(text)) => close(
            join2(heading.as_str(), text.as_str()),
        ),
        _ => misreply(),
    }
}

/// The step that checks a signature with a secp256k1 key.
pub open spec fn verify_secp256k1(
    secret: Result<Seq<u8>, Seq<Seq<char>>>,
    message: Seq<char>,
    signature: Seq<u8>,
) -> Step<Model> {
    match secret {
        Ok(secret) => if valid_secret_key(secret) {
            Step {
                state: State::Verify(VerifyStage::Check),
                request: Request::VerifySecp256k1 {
                    public_key: secp256k1_public_key(secret),
                    message,
                    signature,
                },
            }
        } else {
            failed_outside(secret_key_error())
        },
        Err(message) => failed_outside(message),
    }
}

/// The step that checks a signed message with an Ed25519 key.
pub open spec fn verify_ed25519(key: Seq<u8>, signed: Seq<u8>) -> Step<Model> {
    Step {
        state: State::Verify(VerifyStage::Check),
        request: Request::VerifyEd25519 { key, signed, aad: message_aad() },
    }
}

/// The first step of verifying a message: what was signed is decoded from hexadecimal, or else
/// from base64.
pub open spec fn verify_begun(
    key: Seq<u8>,
    facts: KeyFacts<Model>,
    message: Seq<char>,
    signature: Seq<char>,
    hex: bool,
) -> Step<Model> {
    if facts.secp256k1 {
        if !hex {
            Step {
                state: State::Verify(VerifyStage::Signature { secret: facts.secret, message }),
                request: Request::DecodeBase64 { text: signature },
            }
        } else if is_hex(signature) {
            verify_secp256k1(facts.secret, message, hex_bytes(signature))
        } else {
            failed_outside(hex_error(signature))
        }
    } else if facts.ed25519 {
        if !hex {
            Step {
                state: State::Verify(VerifyStage::Signed { key }),
                request: Request::DecodeBase64 { text: message },
            }
        } else if is_hex(message) {
            verify_ed25519(key, hex_bytes(message))
        } else {
            failed_outside(hex_error(message))
        }
    } else {
        closing("unsupported key type"@)
    }
}

/// The next step of verifying a message.
pub open spec fn verify_next(stage: VerifyStage<Model>, reply: Reply<Model>) -> Step<Model> {
    match (stage, reply) {
        (VerifyStage::Signature { secret, message }, Reply::Bytes(signature)) => verify_secp256k1(
            secret,
            message,
            signature,
        ),
        (VerifyStage::Signed { key }, Reply::Bytes(signed)) => verify_ed25519(key, signed),
        (VerifyStage::Check, Reply::Done) => closing("signature is valid"@),
        _ => misreplied(),
    }
}

/// Checks a signature with a secp256k1 key.
fn check_secp256k1(
    secret: Result<Vec<u8>, Vec<String>>,
    message: String,
    signature: Vec<u8>,
) -> (r: Step<Concrete>)
    ensures
        r@ == verify_secp256k1(maybe_secret(secret), message@, signature@),
{
    match secret {
        Ok(secret) => match public_key_of(secret.as_slice()) {
            Ok(public_key) => Step {
                state: State::Verify(VerifyStage::Check),
                request: Request::VerifySecp256k1 { public_key, message, signature },
            },
            Err(message) => fail_outside(message),
        },
        Err(message) => fail_outside(message),
    }
}

/// Checks a signed message with an Ed25519 key.
fn check_ed25519(key: Vec<u8>, signed: Vec<u8>) -> (r: Step<Concrete>)
    ensures
        r@ == verify_ed25519(key@, signed@),
{
    Step {
        state: State::Verify(VerifyStage::Check),
        request: Request::VerifyEd25519 { key, signed, aad: message_aad_bytes() },
    }
}

/// Begins to verify a message.
pub(crate) fn begin_verify(
    key: Vec<u8>,
    facts: KeyFacts<Concrete>,
    message: String,
    signature: String,
    hex: bool,
) -> (r: Step<Concrete>)
    ensures
        r@ == verify_begun(key@, facts@, message@, signature@, hex),
{
    if facts.secp256k1 {
        if !hex {
            Step {
                state: State::Verify(VerifyStage::Signature { secret: facts.secret, message }),
                request: Request::DecodeBase64 { text: signature },
            }
        } else {
            match decode_hex(signature.as_str()) {
                Ok(signature) => check_secp256k1(facts.secret, message, signature),
                Err(message) => fail_outside(message),
            }
        }
    } else if facts.ed25519 {
        if !hex {
            Step {
                state: State::Verify(VerifyStage::Signed { key }),
                request: Request::DecodeBase64 { text: message },
            }
        } else {
            match decode_hex(message.as_str()) {
                Ok(signed) => check_ed25519(key, signed),
                Err(message) => fail_outside(message),
            }
        }
    } else {
        close("unsupported key type".to_owned())
    }
}

/// Goes on with verifying a message.
pub(crate) fn verify_step(stage: VerifyStage<Concrete>, reply: Reply<Concrete>) -> (r: Step<
    Concrete,
>)
    ensures
        r@ == verify_next(stage@, reply@),
{
    match (stage, reply) {
        (VerifyStage::Signature { secret, message }, Reply::Bytes(signature)) => check_secp256k1(
            secret,
            message,
            signature,
        ),
        (VerifyStage::Signed { key }, Reply::Bytes(signed)) => check_ed25519(key, signed),
        (VerifyStage::Check, Reply::Done) => close("signature is valid".to_owned()),
        _ => misreply(),
    }
}

} // verus!
