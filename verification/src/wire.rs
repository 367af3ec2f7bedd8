//! What the program asks of the world, what the world answers, and how the program ends.

use vstd::prelude::*;

use crate::chain::Network;
use crate::form::{
    Concrete, Encrypt0, Form, KeyFacts, KeyId, Model, Name, PublicKeyParams, ThresholdLevel,
    UnspentTxOut, byte_strings, entry_models, maybe_kid, name_model, name_models, output_models,
    params_model,
};
use crate::text::{join2, one_text, texts};

verus! {

/// Where the Bitcoin node is and how it is entered.
pub struct RpcOptions<F: Form> {
    /// The address of the node.
    pub rpcurl: F::Text,
    /// The user.
    pub rpcuser: F::Text,
    /// The password.
    pub rpcpassword: F::Text,
    /// The token.
    pub rpctoken: F::Text,
    /// The network that the node serves.
    pub network: Network,
}

impl View for RpcOptions<Concrete> {
    type V = RpcOptions<Model>;

    open spec fn view(&self) -> RpcOptions<Model> {
        RpcOptions {
            rpcurl: self.rpcurl@,
            rpcuser: self.rpcuser@,
            rpcpassword: self.rpcpassword@,
            rpctoken: self.rpctoken@,
            network: self.network,
        }
    }
}

/// Why a command gives up.
pub enum Failure<F: Form> {
    /// There is no key encryption key in the settings.
    KekMissing,
    /// The named key is not on the curve secp256k1.
    NotSecp256k1 {
        /// The name of the key.
        name: F::Text,
    },
    /// The named key is not on the curve Ed25519.
    NotEd25519 {
        /// The name of the key.
        name: F::Text,
    },
    /// A name cannot be inscribed.
    InvalidName {
        /// The name.
        name: F::Text,
    },
    /// There are no names to inscribe.
    NoNames,
    /// No output of the transaction can be spent.
    NoMatchedOutput,
    /// Something that the command relies on failed.
    Outside {
        /// Its message, and those of its causes down to the root.
        messages: F::Texts,
    },
    /// The answer does not fit the question.
    Misreply,
}

impl View for Failure<Concrete> {
    type V = Failure<Model>;

    open spec fn view(&self) -> Failure<Model> {
        match self {
            Failure::KekMissing => Failure::KekMissing,
            Failure::NotSecp256k1 { name } => Failure::NotSecp256k1 { name: name@ },
            Failure::NotEd25519 { name } => Failure::NotEd25519 { name: name@ },
            Failure::InvalidName { name } => Failure::InvalidName { name: name@ },
            Failure::NoNames => Failure::NoNames,
            Failure::NoMatchedOutput => Failure::NoMatchedOutput,
            Failure::Outside { messages } => Failure::Outside { messages: texts(messages@) },
            Failure::Misreply => Failure::Misreply,
        }
    }
}

/// The messages that tell the user why a command gave up: the first one is the failure itself, and
/// the others are its causes down to the root.
pub open spec fn failure_texts(failure: Failure<Model>) -> Seq<Seq<char>> {
    match failure {
        Failure::KekMissing => seq!["INSCRIBER_KEK not found"@],
        Failure::NotSecp256k1 { name } => seq![name + " is not a secp256k1 key"@],
        Failure::NotEd25519 { name } => seq![name + " is not a ed25519 key"@],
        Failure::InvalidName { name } => seq!["invalid name to inscribe: "@ + name],
        Failure::NoNames => seq!["no names to inscribe"@],
        Failure::NoMatchedOutput => seq!["no matched transaction out to spend"@],
        Failure::Outside { messages } => messages,
        Failure::Misreply => seq!["the answer does not fit the question"@],
    }
}

impl Failure<Concrete> {
    /// The messages that tell the user why a command gave up.
    pub fn messages(self) -> (r: Vec<String>)
        ensures
            texts(r@) == failure_texts(self@),
    {
        match self {
            Failure::KekMissing => one_text("INSCRIBER_KEK not found"),
            Failure::NotSecp256k1 { name } => one_text(
                join2(name.as_str(), " is not a secp256k1 key").as_str(),
            ),
            Failure::NotEd25519 { name } => one_text(
                join2(name.as_str(), " is not a ed25519 key").as_str(),
            ),
            Failure::InvalidName { name } => one_text(
                join2("invalid name to inscribe: ", name.as_str()).as_str(),
            ),
            Failure::NoNames => one_text("no names to inscribe"),
            Failure::NoMatchedOutput => one_text("no matched transaction out to spend"),
            Failure::Outside { messages } => messages,
            Failure::Misreply => one_text("the answer does not fit the question"),
        }
    }
}

/// Why the program cannot go on at all.
#[derive(Clone, Copy, Debug, PartialEq, Eq, Structural)]
pub enum Defect {
    /// The settings do not say where the node is.
    RpcUrlMissing,
    /// The transaction that reveals the names has no output.
    NoRevealOutput,
    /// An amount or a size leaves the range of its numbers.
    OutOfRange,
}

/// How a command ends.
pub enum Outcome<F: Form> {
    /// It did what it was asked for.
    Success,
    /// It gave up.
    Failure(Failure<F>),
    /// It panics.
    Panic(Defect),
}

impl View for Outcome<Concrete> {
    type V = Outcome<Model>;

    open spec fn view(&self) -> Outcome<Model> {
        match self {
            Outcome::Success => Outcome::Success,
            Outcome::Failure(failure) => Outcome::Failure(failure@),
            Outcome::Panic(defect) => Outcome::Panic(*defect),
        }
    }
}

/// What the program asks of the world.
pub enum Request<F: Form> {
    /// End the program.
    Exit(Outcome<F>),
    /// Print a line.
    Print { text: F::Text },
    /// The local time, in RFC 3339 to the second.
    Clock,
    /// Ask the user for a text.
    Prompt { text: F::Text },
    /// Ask the user for a text that is not shown.
    PromptSecret { text: F::Text },
    /// Whether the key directory holds a file that can be read.
    FindKeyFile { file: F::Text },
    /// What a file of the key directory holds.
    ReadKeyFile { file: F::Text },
    /// Write a file of the key directory.
    WriteKeyFile { file: F::Text, data: F::Bytes },
    /// What the key directory holds.
    ListKeyFiles,
    /// What a listed file holds.
    ReadListedFile { index: usize },
    /// The 256-bit hash of some bytes.
    Hash256 { data: F::Bytes },
    /// Bytes in the URL-safe base64 alphabet.
    EncodeBase64Url { data: F::Bytes },
    /// The bytes that a text in the URL-safe base64 alphabet stands for.
    DecodeBase64Url { text: F::Text },
    /// The bytes that a base64 text stands for.
    DecodeBase64 { text: F::Text },
    /// Some CBOR with the self-description tag in front.
    AddTag { data: F::Bytes },
    /// Some CBOR without the self-description tag.
    SkipTag { data: F::Bytes },
    /// Encrypt some bytes, bound to additional data, for a key identifier.
    Encrypt {
        encryptor: Encrypt0<F>,
        plaintext: F::Bytes,
        aad: F::Bytes,
        cid: Option<KeyId<F>>,
    },
    /// Decrypt some bytes that are bound to additional data.
    Decrypt { encryptor: Encrypt0<F>, ciphertext: F::Bytes, aad: F::Bytes },
    /// A fresh symmetric key for AES-256 in Galois/Counter mode.
    NewSymmetricKey { kid: KeyId<F> },
    /// A fresh Ed25519 key without an identifier.
    NewSeedKey,
    /// A key with another identifier.
    SetKeyId { key: F::Bytes, kid: KeyId<F> },
    /// The Ed25519 key that some bytes encode.
    ReadSeedKey { data: F::Bytes },
    /// The encoding in which an Ed25519 key is handed over.
    EncodeSeedKey { key: F::Bytes },
    /// What a key says of itself.
    InspectKey { key: F::Bytes },
    /// The secret of an Ed25519 key.
    SeedSecret { key: F::Bytes },
    /// The secp256k1 secret that a seed derives.
    DeriveSecp256k1 { secret: F::Bytes, path: F::Path, network: Network },
    /// The Ed25519 key that a seed derives.
    DeriveEd25519 { secret: F::Bytes, path: F::Path },
    /// A secp256k1 key with this secret.
    MakeSecp256k1Key { secret: F::Bytes, kid: KeyId<F> },
    /// An Ed25519 key with this secret.
    MakeEd25519Key { secret: F::Bytes, kid: KeyId<F> },
    /// A signature under a message with a secp256k1 secret.
    SignSecp256k1 { secret: F::Bytes, message: F::Text },
    /// A signed message with an Ed25519 key.
    SignEd25519 { key: F::Bytes, payload: F::Bytes, aad: F::Bytes },
    /// Check a signature with a secp256k1 public key.
    VerifySecp256k1 { public_key: F::Bytes, message: F::Text, signature: F::Bytes },
    /// Check a signed message with an Ed25519 key.
    VerifyEd25519 { key: F::Bytes, signed: F::Bytes, aad: F::Bytes },
    /// The scripts that pay to a secp256k1 secret.
    ScriptPubkeys { secret: F::Bytes },
    /// Make the client of the Bitcoin node.
    Connect { options: RpcOptions<F> },
    /// Ping the node through the client that was made last.
    Ping,
    /// The outputs of a transaction.
    FetchTransaction { txid: F::Bytes },
    /// Send satoshis.
    SendSats {
        fee_rate: u64,
        secret: F::Bytes,
        unspent: UnspentTxOut<F>,
        to: F::Text,
        amount: u64,
    },
    /// The output that a JSON text describes.
    ReadTxOut { json: F::Text },
    /// Whether a name may be inscribed.
    CheckName { name: F::Text },
    /// The Ed25519 public key of a secret.
    Ed25519PublicKey { secret: F::Bytes },
    /// The signatures under a name, by its parameters and a threshold, with a secret.
    SignName {
        name: Name<F::Text, F::Signatures, F::Texts>,
        params: PublicKeyParams<F::Signatures>,
        level: ThresholdLevel,
        secret: F::Bytes,
    },
    /// Check a signed name.
    ValidateName { name: Name<F::Text, F::Signatures, F::Texts> },
    /// What inscribing some names would take.
    Preview { names: F::Names, fee_rate: u64 },
    /// Inscribe names.
    Inscribe { names: F::Names, fee_rate: u64, secret: F::Bytes, unspent: UnspentTxOut<F> },
}

impl View for Request<Concrete> {
    type V = Request<Model>;

    open spec fn view(&self) -> Request<Model> {
        match self {
            Request::Exit(outcome) => Request::Exit(outcome@),
            Request::Print { text } => Request::Print { text: text@ },
            Request::Clock => Request::Clock,
            Request::Prompt { text } => Request::Prompt { text: text@ },
            Request::PromptSecret { text } => Request::PromptSecret { text: text@ },
            Request::FindKeyFile { file } => Request::FindKeyFile { file: file@ },
            Request::ReadKeyFile { file } => Request::ReadKeyFile { file: file@ },
            Request::WriteKeyFile { file, data } => Request::WriteKeyFile {
                file: file@,
                data: data@,
            },
            Request::ListKeyFiles => Request::ListKeyFiles,
            Request::ReadListedFile { index } => Request::ReadListedFile { index: *index },
            Request::Hash256 { data } => Request::Hash256 { data: data@ },
            Request::EncodeBase64Url { data } => Request::EncodeBase64Url { data: data@ },
            Request::DecodeBase64Url { text } => Request::DecodeBase64Url { text: text@ },
            Request::DecodeBase64 { text } => Request::DecodeBase64 { text: text@ },
            Request::AddTag { data } => Request::AddTag { data: data@ },
            Request::SkipTag { data } => Request::SkipTag { data: data@ },
            Request::Encrypt { encryptor, plaintext, aad, cid } => Request::Encrypt {
                encryptor: encryptor@,
                plaintext: plaintext@,
                aad: aad@,
                cid: maybe_kid(*cid),
            },
            Request::Decrypt { encryptor, ciphertext, aad } => Request::Decrypt {
                encryptor: encryptor@,
                ciphertext: ciphertext@,
                aad: aad@,
            },
            Request::NewSymmetricKey { kid } => Request::NewSymmetricKey { kid: kid@ },
            Request::NewSeedKey => Request::NewSeedKey,
            Request::SetKeyId { key, kid } => Request::SetKeyId { key: key@, kid: kid@ },
            Request::ReadSeedKey { data } => Request::ReadSeedKey { data: data@ },
            Request::EncodeSeedKey { key } => Request::EncodeSeedKey { key: key@ },
            Request::InspectKey { key } => Request::InspectKey { key: key@ },
            Request::SeedSecret { key } => Request::SeedSecret { key: key@ },
            Request::DeriveSecp256k1 { secret, path, network } => Request::DeriveSecp256k1 {
                secret: secret@,
                path: path@,
                network: *network,
            },
            Request::DeriveEd25519 { secret, path } => Request::DeriveEd25519 {
                secret: secret@,
                path: path@,
            },
            Request::MakeSecp256k1Key { secret, kid } => Request::MakeSecp256k1Key {
                secret: secret@,
                kid: kid@,
            },
            Request::MakeEd25519Key { secret, kid } => Request::MakeEd25519Key {
                secret: secret@,
                kid: kid@,
            },
            Request::SignSecp256k1 { secret, message } => Request::SignSecp256k1 {
                secret: secret@,
                message: message@,
            },
            Request::SignEd25519 { key, payload, aad } => Request::SignEd25519 {
                key: key@,
                payload: payload@,
                aad: aad@,
            },
            Request::VerifySecp256k1 { public_key, message, signature } =>
                Request::VerifySecp256k1 {
                public_key: public_key@,
                message: message@,
                signature: signature@,
            },
            Request::VerifyEd25519 { key, signed, aad } => Request::VerifyEd25519 {
                key: key@,
                signed: signed@,
                aad: aad@,
            },
            Request::ScriptPubkeys { secret } => Request::ScriptPubkeys { secret: secret@ },
            Request::Connect { options } => Request::Connect { options: options@ },
            Request::Ping => Request::Ping,
            Request::FetchTransaction { txid } => Request::FetchTransaction { txid: txid@ },
            Request::SendSats { fee_rate, secret, unspent, to, amount } => Request::SendSats {
                fee_rate: *fee_rate,
                secret: secret@,
                unspent: unspent@,
                to: to@,
                amount: *amount,
            },
            Request::ReadTxOut { json } => Request::ReadTxOut { json: json@ },
            Request::CheckName { name } => Request::CheckName { name: name@ },
            Request::Ed25519PublicKey { secret } => Request::Ed25519PublicKey { secret: secret@ },
            Request::SignName { name, params, level, secret } => Request::SignName {
                name: name_model(*name),
                params: params_model(*params),
                level: *level,
                secret: secret@,
            },
            Request::ValidateName { name } => Request::ValidateName { name: name_model(*name) },
            Request::Preview { names, fee_rate } => Request::Preview {
                names: name_models(names@),
                fee_rate: *fee_rate,
            },
            Request::Inscribe { names, fee_rate, secret, unspent } => Request::Inscribe {
                names: name_models(names@),
                fee_rate: *fee_rate,
                secret: secret@,
                unspent: unspent@,
            },
        }
    }
}

/// What inscribing would take.
#[derive(Clone, Copy, Debug)]
pub struct PreviewSizes {
    /// The bytes of the transaction that commits to the names.
    pub commit_size: usize,
    /// Its virtual bytes.
    pub commit_vsize: usize,
    /// The bytes of the transaction that reveals the names.
    pub reveal_size: usize,
    /// Its virtual bytes.
    pub reveal_vsize: usize,
    /// The least balance that suffices, in satoshis.
    pub min_balance: u64,
    /// The value of the first output of the transaction that reveals the names, if it has one.
    pub reveal_output: Option<u64>,
}

/// What the world answers.
pub enum Reply<F: Form> {
    /// It is done.
    Done,
    /// It failed: its message, and those of its causes down to the root.
    Failed { messages: F::Texts },
    /// A text.
    Text(F::Text),
    /// Bytes.
    Bytes(F::Bytes),
    /// A verdict.
    Verdict(bool),
    /// Whether a file can be read, and its path as it can be shown.
    Found { exists: bool, path: F::Text },
    /// What a directory holds.
    Entries(F::Entries),
    /// A key and the public half of it.
    KeyPair { key: F::Bytes, public_key: F::Bytes },
    /// What a key says of itself.
    Facts(KeyFacts<F>),
    /// The two scripts that pay to a secret.
    Scripts { p2wpkh: F::Bytes, p2tr: F::Bytes },
    /// The outputs of a transaction.
    Outputs(F::Outputs),
    /// An output that can be spent.
    Unspent(UnspentTxOut<F>),
    /// Signatures.
    Signatures(F::Signatures),
    /// What inscribing would take.
    Sizes(PreviewSizes),
}

impl View for Reply<Concrete> {
    type V = Reply<Model>;

    open spec fn view(&self) -> Reply<Model> {
        match self {
            Reply::Done => Reply::Done,
            Reply::Failed { messages } => Reply::Failed { messages: texts(messages@) },
            Reply::Text(text) => Reply::Text(text@),
            Reply::Bytes(data) => Reply::Bytes(data@),
            Reply::Verdict(verdict) => Reply::Verdict(*verdict),
            Reply::Found { exists, path } => Reply::Found { exists: *exists, path: path@ },
            Reply::Entries(entries) => Reply::Entries(entry_models(entries@)),
            Reply::KeyPair { key, public_key } => Reply::KeyPair {
                key: key@,
                public_key: public_key@,
            },
            Reply::Facts(facts) => Reply::Facts(facts@),
            Reply::Scripts { p2wpkh, p2tr } => Reply::Scripts { p2wpkh: p2wpkh@, p2tr: p2tr@ },
            Reply::Outputs(outputs) => Reply::Outputs(output_models(outputs@)),
            Reply::Unspent(unspent) => Reply::Unspent(unspent@),
            Reply::Signatures(signatures) => Reply::Signatures(byte_strings(signatures@)),
            Reply::Sizes(sizes) => Reply::Sizes(*sizes),
        }
    }
}

} // verus!
