//! Values in two forms: as they are stored at run time, and as the mathematical values that the
//! contracts speak of.

use vstd::prelude::*;

use crate::text::texts;

verus! {

/// How texts, bytes and lists are represented.
pub trait Form {
    /// Text.
    type Text;

    /// Bytes.
    type Bytes;

    /// The children of a derivation path.
    type Path;

    /// A list of texts.
    type Texts;

    /// The signatures under a name.
    type Signatures;

    /// A list of signed names.
    type Names;

    /// What a directory holds.
    type Entries;

    /// The outputs of a transaction.
    type Outputs;
}

/// The values that exist at run time.
pub struct Concrete;

/// The values that contracts speak of.
pub struct Model;

impl Form for Concrete {
    type Text = String;

    type Bytes = Vec<u8>;

    type Path = Vec<u32>;

    type Texts = Vec<String>;

    type Signatures = Vec<Vec<u8>>;

    type Names = Vec<Name<String, Vec<Vec<u8>>, Vec<String>>>;

    type Entries = Vec<DirEntry<String>>;

    type Outputs = Vec<TxOutput<Vec<u8>>>;
}

impl Form for Model {
    type Text = Seq<char>;

    type Bytes = Seq<u8>;

    type Path = Seq<u32>;

    type Texts = Seq<Seq<char>>;

    type Signatures = Seq<Seq<u8>>;

    type Names = Seq<Name<Seq<char>, Seq<Seq<u8>>, Seq<Seq<char>>>>;

    type Entries = Seq<DirEntry<Seq<char>>>;

    type Outputs = Seq<TxOutput<Seq<u8>>>;
}

/// A name to be inscribed, over texts `T`, lists of byte strings `S` and lists of texts `L`.
pub struct Name<T, S, L> {
    /// The name.
    pub name: T,
    /// How many updates came before this one.
    pub sequence: u64,
    /// What the name is used for.
    pub service: Service<S, L>,
    /// The signatures under it.
    pub signatures: S,
}

/// A service with a single operation.
pub struct Service<S, L> {
    /// Which service.
    pub code: u64,
    /// Its operation.
    pub operation: Operation<S>,
    /// Who must attest it, if anyone.
    pub attesters: Option<L>,
}

/// An operation of a service.
pub struct Operation<S> {
    /// Which operation.
    pub subcode: u16,
    /// Its parameters.
    pub params: PublicKeyParams<S>,
}

/// The keys that control a name.
pub struct PublicKeyParams<S> {
    /// The public keys.
    pub public_keys: S,
    /// How many of them must sign, where that is not left to the default.
    pub threshold: Option<u8>,
    /// What kind of keys they are, where that is not left to the default.
    pub kind: Option<u8>,
}

/// How many of the keys that control a name sign it.
#[derive(Clone, Copy, Debug, PartialEq, Eq, Structural)]
pub enum ThresholdLevel {
    /// All of them.
    All,
}

/// One thing that a directory holds.
pub enum DirEntry<T> {
    /// A file with this name.
    File {
        /// The name, as it can be shown.
        name: T,
    },
    /// Something else.
    Other,
    /// An entry that could not be read.
    Failed {
        /// Why not.
        message: T,
    },
}

/// An output of a transaction.
pub struct TxOutput<B> {
    /// Its value in satoshis.
    pub value: u64,
    /// The script that it pays to.
    pub script_pubkey: B,
}

/// A list of byte strings as a list of byte sequences.
pub open spec fn byte_strings(v: Seq<Vec<u8>>) -> Seq<Seq<u8>> {
    Seq::new(v.len(), |i: int| v[i]@)
}

/// Parameters as mathematical values.
pub open spec fn params_model(params: PublicKeyParams<Vec<Vec<u8>>>) -> PublicKeyParams<
    Seq<Seq<u8>>,
> {
    PublicKeyParams {
        public_keys: byte_strings(params.public_keys@),
        threshold: params.threshold,
        kind: params.kind,
    }
}

/// A name as a mathematical value.
pub open spec fn name_model(name: Name<String, Vec<Vec<u8>>, Vec<String>>) -> Name<
    Seq<char>,
    Seq<Seq<u8>>,
    Seq<Seq<char>>,
> {
    Name {
        name: name.name@,
        sequence: name.sequence,
        service: Service {
            code: name.service.code,
            operation: Operation {
                subcode: name.service.operation.subcode,
                params: params_model(name.service.operation.params),
            },
            attesters: match name.service.attesters {
                Some(attesters) => Some(texts(attesters@)),
                None => None,
            },
        },
        signatures: byte_strings(name.signatures@),
    }
}

/// Names as mathematical values.
pub open spec fn name_models(names: Seq<Name<String, Vec<Vec<u8>>, Vec<String>>>) -> Seq<
    Name<Seq<char>, Seq<Seq<u8>>, Seq<Seq<char>>>,
> {
    Seq::new(names.len(), |i: int| name_model(names[i]))
}

/// A directory entry as a mathematical value.
pub open spec fn entry_model(entry: DirEntry<String>) -> DirEntry<Seq<char>> {
    match entry {
        DirEntry::File { name } => DirEntry::File { name: name@ },
        DirEntry::Other => DirEntry::Other,
        DirEntry::Failed { message } => DirEntry::Failed { message: message@ },
    }
}

/// Directory entries as mathematical values.
pub open spec fn entry_models(entries: Seq<DirEntry<String>>) -> Seq<DirEntry<Seq<char>>> {
    Seq::new(entries.len(), |i: int| entry_model(entries[i]))
}

/// An output as a mathematical value.
pub open spec fn output_model(output: TxOutput<Vec<u8>>) -> TxOutput<Seq<u8>> {
    TxOutput { value: output.value, script_pubkey: output.script_pubkey@ }
}

/// Outputs as mathematical values.
pub open spec fn output_models(outputs: Seq<TxOutput<Vec<u8>>>) -> Seq<TxOutput<Seq<u8>>> {
    Seq::new(outputs.len(), |i: int| output_model(outputs[i]))
}

/// The identifier of a stored key.
pub enum KeyId<F: Form> {
    /// A text.
    Text(F::Text),
    /// Bytes.
    Bytes(F::Bytes),
    /// Any other CBOR value, in its encoding.
    Other(F::Bytes),
}

impl View for KeyId<Concrete> {
    type V = KeyId<Model>;

    open spec fn view(&self) -> KeyId<Model> {
        match self {
            KeyId::Text(t) => KeyId::Text(t@),
            KeyId::Bytes(b) => KeyId::Bytes(b@),
            KeyId::Other(b) => KeyId::Other(b@),
        }
    }
}

/// An identifier that may be absent, as a mathematical value.
pub open spec fn maybe_kid(kid: Option<KeyId<Concrete>>) -> Option<KeyId<Model>> {
    match kid {
        Some(kid) => Some(kid@),
        None => None,
    }
}

/// An encryptor: its key, and the identifier that it writes with what it encrypts.
pub struct Encrypt0<F: Form> {
    /// The key.
    pub key: F::Bytes,
    /// The identifier.
    pub kid: Option<KeyId<F>>,
}

impl View for Encrypt0<Concrete> {
    type V = Encrypt0<Model>;

    open spec fn view(&self) -> Encrypt0<Model> {
        Encrypt0 { key: self.key@, kid: maybe_kid(self.kid) }
    }
}

/// What a stored key says of itself.
pub struct KeyFacts<F: Form> {
    /// Whether it is a key on the curve secp256k1.
    pub secp256k1: bool,
    /// Whether it is a key on the curve Ed25519.
    pub ed25519: bool,
    /// The secret, or why it holds none: a message, and those of its causes.
    pub secret: Result<F::Bytes, F::Texts>,
    /// Its identifier.
    pub kid: Option<KeyId<F>>,
    /// The identifier in its debug form.
    pub kid_debug: F::Text,
    /// The identifier as a plain text.
    pub kid_text: F::Text,
}

/// A secret that may be absent, as a mathematical value.
pub open spec fn maybe_secret(secret: Result<Vec<u8>, Vec<String>>) -> Result<
    Seq<u8>,
    Seq<Seq<char>>,
> {
    match secret {
        Ok(secret) => Ok(secret@),
        Err(messages) => Err(texts(messages@)),
    }
}

impl View for KeyFacts<Concrete> {
    type V = KeyFacts<Model>;

    open spec fn view(&self) -> KeyFacts<Model> {
        KeyFacts {
            secp256k1: self.secp256k1,
            ed25519: self.ed25519,
            secret: maybe_secret(self.secret),
            kid: maybe_kid(self.kid),
            kid_debug: self.kid_debug@,
            kid_text: self.kid_text@,
        }
    }
}

/// An output that can be spent.
pub struct UnspentTxOut<F: Form> {
    /// The transaction that holds it.
    pub txid: F::Bytes,
    /// Which of its outputs.
    pub vout: u32,
    /// Its value in satoshis.
    pub amount: u64,
    /// The script that it pays to.
    pub script_pubkey: F::Bytes,
}

impl View for UnspentTxOut<Concrete> {
    type V = UnspentTxOut<Model>;

    open spec fn view(&self) -> UnspentTxOut<Model> {
        UnspentTxOut {
            txid: self.txid@,
            vout: self.vout,
            amount: self.amount,
            script_pubkey: self.script_pubkey@,
        }
    }
}

/// Copies bytes.
pub fn copy_bytes(b: &Vec<u8>) -> (r: Vec<u8>)
    ensures
        r@ == b@,
{
    let r: Vec<u8> = b.clone();
    assert(r@ =~= b@);
    r
}

impl KeyId<Concrete> {
    /// Another identifier with the same content.
    pub fn duplicate(&self) -> (r: KeyId<Concrete>)
        ensures
            r@ == self@,
    {
        match self {
            KeyId::Text(t) => KeyId::Text(t.clone()),
            KeyId::Bytes(b) => KeyId::Bytes(copy_bytes(b)),
            KeyId::Other(b) => KeyId::Other(copy_bytes(b)),
        }
    }
}

} // verus!
