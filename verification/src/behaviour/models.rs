//! Models: what the laws speak of is what the program is given and asks for, with nothing left out.

use vstd::prelude::*;

use crate::form::{
    Concrete, DirEntry, KeyFacts, KeyId, Model, Name, PublicKeyParams, TxOutput, UnspentTxOut,
};
use crate::state::Settings;
use crate::wire::{Failure, Outcome, Reply, Request, RpcOptions};

verus! {

/// Whether a model holds the same texts.
pub open spec fn same_texts(a: Seq<String>, b: Seq<Seq<char>>) -> bool {
    a.len() == b.len() && forall|i: int| 0 <= i < a.len() ==> #[trigger] b[i] == a[i]@
}

/// Whether a model holds the same byte strings.
pub open spec fn same_byte_strings(a: Seq<Vec<u8>>, b: Seq<Seq<u8>>) -> bool {
    a.len() == b.len() && forall|i: int| 0 <= i < a.len() ==> #[trigger] b[i] == a[i]@
}

/// Whether a model holds the same parameters.
pub open spec fn same_params(
    a: PublicKeyParams<Vec<Vec<u8>>>,
    b: PublicKeyParams<Seq<Seq<u8>>>,
) -> bool {
    &&& same_byte_strings(a.public_keys@, b.public_keys)
    &&& b.threshold == a.threshold
    &&& b.kind == a.kind
}

/// Whether a model holds the same name.
pub open spec fn same_name(
    a: Name<String, Vec<Vec<u8>>, Vec<String>>,
    b: Name<Seq<char>, Seq<Seq<u8>>, Seq<Seq<char>>>,
) -> bool {
    &&& b.name == a.name@
    &&& b.sequence == a.sequence
    &&& b.service.code == a.service.code
    &&& b.service.operation.subcode == a.service.operation.subcode
    &&& same_params(a.service.operation.params, b.service.operation.params)
    &&& match (a.service.attesters, b.service.attesters) {
        (Some(c), Some(d)) => same_texts(c@, d),
        (None, None) => true,
        _ => false,
    }
    &&& same_byte_strings(a.signatures@, b.signatures)
}

/// Whether a model holds the same names.
pub open spec fn same_names(
    a: Seq<Name<String, Vec<Vec<u8>>, Vec<String>>>,
    b: Seq<Name<Seq<char>, Seq<Seq<u8>>, Seq<Seq<char>>>>,
) -> bool {
    a.len() == b.len() && forall|i: int| 0 <= i < a.len() ==> same_name(a[i], #[trigger] b[i])
}

/// Whether a model holds the same entries.
pub open spec fn same_entries(a: Seq<DirEntry<String>>, b: Seq<DirEntry<Seq<char>>>) -> bool {
    a.len() == b.len() && forall|i: int|
        0 <= i < a.len() ==> match (a[i], #[trigger] b[i]) {
            (DirEntry::File { name }, DirEntry::File { name: model_name }) => model_name == name@,
            (DirEntry::Other, DirEntry::Other) => true,
            (DirEntry::Failed { message }, DirEntry::Failed { message: model_message }) =>
                model_message == message@,
            _ => false,
        }
}

/// Whether a model holds the same outputs.
pub open spec fn same_outputs(a: Seq<TxOutput<Vec<u8>>>, b: Seq<TxOutput<Seq<u8>>>) -> bool {
    a.len() == b.len() && forall|i: int|
        0 <= i < a.len() ==> (#[trigger] b[i]).value == a[i].value && b[i].script_pubkey
            == a[i].script_pubkey@
}

/// Whether a model holds the same identifier.
pub open spec fn same_kid(a: Option<KeyId<Concrete>>, b: Option<KeyId<Model>>) -> bool {
    match (a, b) {
        (Some(KeyId::Text(a)), Some(KeyId::Text(b))) => b == a@,
        (Some(KeyId::Bytes(a)), Some(KeyId::Bytes(b))) => b == a@,
        (Some(KeyId::Other(a)), Some(KeyId::Other(b))) => b == a@,
        (None, None) => true,
        _ => false,
    }
}

/// Whether a model says the same of a key.
pub open spec fn same_facts(a: KeyFacts<Concrete>, b: KeyFacts<Model>) -> bool {
    &&& b.secp256k1 == a.secp256k1
    &&& b.ed25519 == a.ed25519
    &&& match (a.secret, b.secret) {
        (Ok(a), Ok(b)) => b == a@,
        (Err(a), Err(b)) => same_texts(a@, b),
        _ => false,
    }
    &&& same_kid(a.kid, b.kid)
    &&& b.kid_debug == a.kid_debug@
    &&& b.kid_text == a.kid_text@
}

/// Whether a model holds the same output.
pub open spec fn same_unspent(a: UnspentTxOut<Concrete>, b: UnspentTxOut<Model>) -> bool {
    &&& b.txid == a.txid@
    &&& b.vout == a.vout
    &&& b.amount == a.amount
    &&& b.script_pubkey == a.script_pubkey@
}

/// Whether a model holds the same options.
pub open spec fn same_options(a: RpcOptions<Concrete>, b: RpcOptions<Model>) -> bool {
    &&& b.rpcurl == a.rpcurl@
    &&& b.rpcuser == a.rpcuser@
    &&& b.rpcpassword == a.rpcpassword@
    &&& b.rpctoken == a.rpctoken@
    &&& b.network == a.network
}

/// Whether a model holds the same outcome.
pub open spec fn same_outcome(a: Outcome<Concrete>, b: Outcome<Model>) -> bool {
    match (a, b) {
        (Outcome::Success, Outcome::Success) => true,
        (Outcome::Failure(a), Outcome::Failure(b)) => same_failure(a, b),
        (Outcome::Panic(a), Outcome::Panic(b)) => b == a,
        _ => false,
    }
}

/// Whether a model holds the same failure.
pub open spec fn same_failure(a: Failure<Concrete>, b: Failure<Model>) -> bool {
    match (a, b) {
        (Failure::KekMissing, Failure::KekMissing) => true,
        (
            Failure::NotSecp256k1 { name },
            Failure::NotSecp256k1 { name: model_name },
        ) => model_name == name@,
        (
            Failure::NotEd25519 { name },
            Failure::NotEd25519 { name: model_name },
        ) => model_name == name@,
        (
            Failure::InvalidName { name },
            Failure::InvalidName { name: model_name },
        ) => model_name == name@,
        (Failure::NoNames, Failure::NoNames) => true,
        (Failure::NoMatchedOutput, Failure::NoMatchedOutput) => true,
        (
            Failure::Outside { messages },
            Failure::Outside { messages: model_messages },
        ) => same_texts(messages@, model_messages),
        (Failure::Misreply, Failure::Misreply) => true,
        _ => false,
    }
}

/// Whether a model holds the same request.
pub open spec fn same_request(a: Request<Concrete>, b: Request<Model>) -> bool {
    match (a, b) {
        (Request::Exit(a), Request::Exit(b)) => same_outcome(a, b),
        (Request::Print { text }, Request::Print { text: model_text }) => model_text == text@,
        (Request::Clock, Request::Clock) => true,
        (Request::Prompt { text }, Request::Prompt { text: model_text }) => model_text == text@,
        (
            Request::PromptSecret { text },
            Request::PromptSecret { text: model_text },
        ) => model_text == text@,
        (
            Request::FindKeyFile { file },
            Request::FindKeyFile { file: model_file },
        ) => model_file == file@,
        (
            Request::ReadKeyFile { file },
            Request::ReadKeyFile { file: model_file },
        ) => model_file == file@,
        (
            Request::WriteKeyFile { file, data },
            Request::WriteKeyFile { file: model_file, data: model_data },
        ) => {
            &&& model_file == file@
            &&& model_data == data@
        },
        (Request::ListKeyFiles, Request::ListKeyFiles) => true,
        (
            Request::ReadListedFile { index },
            Request::ReadListedFile { index: model_index },
        ) => model_index == index,
        (Request::Hash256 { data }, Request::Hash256 { data: model_data }) => model_data == data@,
        (
            Request::EncodeBase64Url { data },
            Request::EncodeBase64Url { data: model_data },
        ) => model_data == data@,
        (
            Request::DecodeBase64Url { text },
            Request::DecodeBase64Url { text: model_text },
        ) => model_text == text@,
        (
            Request::DecodeBase64 { text },
            Request::DecodeBase64 { text: model_text },
        ) => model_text == text@,
        (Request::AddTag { data }, Request::AddTag { data: model_data }) => model_data == data@,
        (Request::SkipTag { data }, Request::SkipTag { data: model_data }) => model_data == data@,
        (
            Request::Encrypt { encryptor, plaintext, aad, cid },
            Request::Encrypt {
                encryptor: model_encryptor,
                plaintext: model_plaintext,
                aad: model_aad,
                cid: model_cid,
            },
        ) => {
            &&& model_encryptor.key == encryptor.key@
            &&& same_kid(encryptor.kid, model_encryptor.kid)
            &&& model_plaintext == plaintext@
            &&& model_aad == aad@
            &&& same_kid(cid, model_cid)
        },
        (
            Request::Decrypt { encryptor, ciphertext, aad },
            Request::Decrypt {
                encryptor: model_encryptor,
                ciphertext: model_ciphertext,
                aad: model_aad,
            },
        ) => {
            &&& model_encryptor.key == encryptor.key@
            &&& same_kid(encryptor.kid, model_encryptor.kid)
            &&& model_ciphertext == ciphertext@
            &&& model_aad == aad@
        },
        (
            Request::NewSymmetricKey { kid },
            Request::NewSymmetricKey { kid: model_kid },
        ) => same_kid(Some(kid), Some(model_kid)),
        (Request::NewSeedKey, Request::NewSeedKey) => true,
        (Request::SetKeyId { key, kid }, Request::SetKeyId { key: model_key, kid: model_kid }) => {
            &&& model_key == key@
            &&& same_kid(Some(kid), Some(model_kid))
        },
        (
            Request::ReadSeedKey { data },
            Request::ReadSeedKey { data: model_data },
        ) => model_data == data@,
        (
            Request::EncodeSeedKey { key },
            Request::EncodeSeedKey { key: model_key },
        ) => model_key == key@,
        (Request::InspectKey { key }, Request::InspectKey { key: model_key }) => model_key == key@,
        (Request::SeedSecret { key }, Request::SeedSecret { key: model_key }) => model_key == key@,
        (
            Request::DeriveSecp256k1 { secret, path, network },
            Request::DeriveSecp256k1 {
                secret: model_secret,
                path: model_path,
                network: model_network,
            },
        ) => {
            &&& model_secret == secret@
            &&& model_path == path@
            &&& model_network == network
        },
        (
            Request::DeriveEd25519 { secret, path },
            Request::DeriveEd25519 { secret: model_secret, path: model_path },
        ) => {
            &&& model_secret == secret@
            &&& model_path == path@
        },
        (
            Request::MakeSecp256k1Key { secret, kid },
            Request::MakeSecp256k1Key { secret: model_secret, kid: model_kid },
        ) => {
            &&& model_secret == secret@
            &&& same_kid(Some(kid), Some(model_kid))
        },
        (
            Request::MakeEd25519Key { secret, kid },
            Request::MakeEd25519Key { secret: model_secret, kid: model_kid },
        ) => {
            &&& model_secret == secret@
            &&& same_kid(Some(kid), Some(model_kid))
        },
        (
            Request::SignSecp256k1 { secret, message },
            Request::SignSecp256k1 { secret: model_secret, message: model_message },
        ) => {
            &&& model_secret == secret@
            &&& model_message == message@
        },
        (
            Request::SignEd25519 { key, payload, aad },
            Request::SignEd25519 { key: model_key, payload: model_payload, aad: model_aad },
        ) => {
            &&& model_key == key@
            &&& model_payload == payload@
            &&& model_aad == aad@
        },
        (
            Request::VerifySecp256k1 { public_key, message, signature },
            Request::VerifySecp256k1 {
                public_key: model_public_key,
                message: model_message,
                signature: model_signature,
            },
        ) => {
            &&& model_public_key == public_key@
            &&& model_message == message@
            &&& model_signature == signature@
        },
        (
            Request::VerifyEd25519 { key, signed, aad },
            Request::VerifyEd25519 { key: model_key, signed: model_signed, aad: model_aad },
        ) => {
            &&& model_key == key@
            &&& model_signed == signed@
            &&& model_aad == aad@
        },
        (
            Request::ScriptPubkeys { secret },
            Request::ScriptPubkeys { secret: model_secret },
        ) => model_secret == secret@,
        (
            Request::Connect { options },
            Request::Connect { options: model_options },
        ) => same_options(options, model_options),
        (Request::Ping, Request::Ping) => true,
        (
            Request::FetchTransaction { txid },
            Request::FetchTransaction { txid: model_txid },
        ) => model_txid == txid@,
        (
            Request::SendSats { fee_rate, secret, unspent, to, amount },
            Request::SendSats {
                fee_rate: model_fee_rate,
                secret: model_secret,
                unspent: model_unspent,
                to: model_to,
                amount: model_amount,
            },
        ) => {
            &&& model_fee_rate == fee_rate
            &&& model_secret == secret@
            &&& same_unspent(unspent, model_unspent)
            &&& model_to == to@
            &&& model_amount == amount
        },
        (
            Request::ReadTxOut { json },
            Request::ReadTxOut { json: model_json },
        ) => model_json == json@,
        (
            Request::CheckName { name },
            Request::CheckName { name: model_name },
        ) => model_name == name@,
        (
            Request::Ed25519PublicKey { secret },
            Request::Ed25519PublicKey { secret: model_secret },
        ) => model_secret == secret@,
        (
            Request::SignName { name, params, level, secret },
            Request::SignName {
                name: model_name,
                params: model_params,
                level: model_level,
                secret: model_secret,
            },
        ) => {
            &&& same_name(name, model_name)
            &&& same_params(params, model_params)
            &&& model_level == level
            &&& model_secret == secret@
        },
        (
            Request::ValidateName { name },
            Request::ValidateName { name: model_name },
        ) => same_name(name, model_name),
        (
            Request::Preview { names, fee_rate },
            Request::Preview { names: model_names, fee_rate: model_fee_rate },
        ) => {
            &&& same_names(names@, model_names)
            &&& model_fee_rate == fee_rate
        },
        (
            Request::Inscribe { names, fee_rate, secret, unspent },
            Request::Inscribe {
                names: model_names,
                fee_rate: model_fee_rate,
                secret: model_secret,
                unspent: model_unspent,
            },
        ) => {
            &&& same_names(names@, model_names)
            &&& model_fee_rate == fee_rate
            &&& model_secret == secret@
            &&& same_unspent(unspent, model_unspent)
        },
        _ => false,
    }
}

/// Whether a model holds the same answer.
pub open spec fn same_reply(a: Reply<Concrete>, b: Reply<Model>) -> bool {
    match (a, b) {
        (Reply::Done, Reply::Done) => true,
        (
            Reply::Failed { messages },
            Reply::Failed { messages: model_messages },
        ) => same_texts(messages@, model_messages),
        (Reply::Text(a), Reply::Text(b)) => b == a@,
        (Reply::Bytes(a), Reply::Bytes(b)) => b == a@,
        (Reply::Verdict(a), Reply::Verdict(b)) => b == a,
        (
            Reply::Found { exists, path },
            Reply::Found { exists: model_exists, path: model_path },
        ) => {
            &&& model_exists == exists
            &&& model_path == path@
        },
        (Reply::Entries(a), Reply::Entries(b)) => same_entries(a@, b),
        (
            Reply::KeyPair { key, public_key },
            Reply::KeyPair { key: model_key, public_key: model_public_key },
        ) => {
            &&& model_key == key@
            &&& model_public_key == public_key@
        },
        (Reply::Facts(a), Reply::Facts(b)) => same_facts(a, b),
        (
            Reply::Scripts { p2wpkh, p2tr },
            Reply::Scripts { p2wpkh: model_p2wpkh, p2tr: model_p2tr },
        ) => {
            &&& model_p2wpkh == p2wpkh@
            &&& model_p2tr == p2tr@
        },
        (Reply::Outputs(a), Reply::Outputs(b)) => same_outputs(a@, b),
        (Reply::Unspent(a), Reply::Unspent(b)) => same_unspent(a, b),
        (Reply::Signatures(a), Reply::Signatures(b)) => same_byte_strings(a@, b),
        (Reply::Sizes(a), Reply::Sizes(b)) => b == a,
        _ => false,
    }
}

/// The model of a request holds what is asked for.
pub proof fn a_request_is_what_it_asks_for(request: Request<Concrete>)
    ensures
        same_request(request, request@),
{
}

/// The model of an answer holds what is answered.
pub proof fn an_answer_is_what_it_says(reply: Reply<Concrete>)
    ensures
        same_reply(reply, reply@),
{
}

/// The model of settings holds what is set.
pub proof fn settings_are_what_is_set(settings: Settings<Concrete>)
    ensures
        settings@.network == settings.network,
        settings@.kek == settings.kek@,
        match (settings.rpc_url, settings@.rpc_url) {
            (Some(a), Some(b)) => b == a@,
            (None, None) => true,
            _ => false,
        },
        settings@.rpc_user == settings.rpc_user@,
        settings@.rpc_password == settings.rpc_password@,
        settings@.rpc_token == settings.rpc_token@,
{
}

} // verus!
