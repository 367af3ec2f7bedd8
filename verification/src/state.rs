//! Where a command stands between a question and its answer.

use vstd::prelude::*;

use crate::chain::Network;
use crate::form::{
    Concrete, Encrypt0, Form, KeyFacts, KeyId, Model, Name, entry_models, maybe_kid, maybe_secret,
    name_model, name_models,
};
use crate::text::texts;
use crate::wire::{Failure, Outcome, PreviewSizes, Request};

verus! {

/// The settings of a run.
pub struct Settings<F: Form> {
    /// The network to work on.
    pub network: Network,
    /// The protected key encryption key; empty where there is none.
    pub kek: F::Text,
    /// Where the Bitcoin node is.
    pub rpc_url: Option<F::Text>,
    /// The user at the node.
    pub rpc_user: F::Text,
    /// The password at the node.
    pub rpc_password: F::Text,
    /// The token at the node.
    pub rpc_token: F::Text,
}

/// A text that may be absent, as a mathematical value.
pub open spec fn maybe_text(text: Option<String>) -> Option<Seq<char>> {
    match text {
        Some(text) => Some(text@),
        None => None,
    }
}

impl View for Settings<Concrete> {
    type V = Settings<Model>;

    open spec fn view(&self) -> Settings<Model> {
        Settings {
            network: self.network,
            kek: self.kek@,
            rpc_url: maybe_text(self.rpc_url),
            rpc_user: self.rpc_user@,
            rpc_password: self.rpc_password@,
            rpc_token: self.rpc_token@,
        }
    }
}

/// The key encryption key, opened: it protects the other keys.
pub struct KekEncryptor<F: Form> {
    /// What encrypts and decrypts them.
    pub encryptor: Encrypt0<F>,
}

impl View for KekEncryptor<Concrete> {
    type V = KekEncryptor<Model>;

    open spec fn view(&self) -> KekEncryptor<Model> {
        KekEncryptor { encryptor: self.encryptor@ }
    }
}

/// A key encryption key that may be absent, as a mathematical value.
pub open spec fn maybe_kek(kek: Option<KekEncryptor<Concrete>>) -> Option<KekEncryptor<Model>> {
    match kek {
        Some(kek) => Some(kek@),
        None => None,
    }
}

/// What to say once a key is written: a text before its path, and a text behind it.
pub struct Note<F: Form> {
    /// The text before the path.
    pub front: F::Text,
    /// The text behind the path.
    pub back: F::Text,
}

impl View for Note<Concrete> {
    type V = Note<Model>;

    open spec fn view(&self) -> Note<Model> {
        Note { front: self.front@, back: self.back@ }
    }
}

/// Satoshis to be sent.
pub struct Payment<F: Form> {
    /// The transaction to spend.
    pub txid: F::Bytes,
    /// Who receives them.
    pub to: F::Text,
    /// How many.
    pub amount: u64,
    /// The fee rate.
    pub fee: u64,
}

impl View for Payment<Concrete> {
    type V = Payment<Model>;

    open spec fn view(&self) -> Payment<Model> {
        Payment { txid: self.txid@, to: self.to@, amount: self.amount, fee: self.fee }
    }
}

/// Where the satoshis for an inscription come from.
pub struct Funding<F: Form> {
    /// The transaction to spend where no output is given.
    pub txid: F::Text,
    /// The output to spend, or nothing.
    pub txout_json: F::Text,
    /// The address whose key spends it.
    pub addr: F::Text,
}

impl View for Funding<Concrete> {
    type V = Funding<Model>;

    open spec fn view(&self) -> Funding<Model> {
        Funding { txid: self.txid@, txout_json: self.txout_json@, addr: self.addr@ }
    }
}

/// A funding that may be absent, as a mathematical value.
pub open spec fn maybe_funding(funding: Option<Funding<Concrete>>) -> Option<Funding<Model>> {
    match funding {
        Some(funding) => Some(funding@),
        None => None,
    }
}

/// Names to be inscribed, or to be previewed where there is no funding.
pub struct Job<F: Form> {
    /// The names.
    pub names: F::Texts,
    /// The fee rate.
    pub fee: u64,
    /// The key that signs them.
    pub key: F::Text,
    /// What pays for them.
    pub funding: Option<Funding<F>>,
}

impl View for Job<Concrete> {
    type V = Job<Model>;

    open spec fn view(&self) -> Job<Model> {
        Job {
            names: texts(self.names@),
            fee: self.fee,
            key: self.key@,
            funding: maybe_funding(self.funding),
        }
    }
}

/// What follows once the key encryption key is open.
pub enum AfterOpen<F: Form> {
    /// Make a seed key.
    Seed { file: F::Text },
    /// Save an imported seed key.
    Import { file: F::Text, key: F::Bytes },
    /// Read a key.
    Read { file: F::Text, after: AfterRead<F> },
    /// List the keys.
    List,
}

impl View for AfterOpen<Concrete> {
    type V = AfterOpen<Model>;

    open spec fn view(&self) -> AfterOpen<Model> {
        match self {
            AfterOpen::Seed { file } => AfterOpen::Seed { file: file@ },
            AfterOpen::Import { file, key } => AfterOpen::Import { file: file@, key: key@ },
            AfterOpen::Read { file, after } => AfterOpen::Read { file: file@, after: after@ },
            AfterOpen::List => AfterOpen::List,
        }
    }
}

/// What follows once a key is read.
pub enum AfterRead<F: Form> {
    /// Export it.
    Export,
    /// Derive a secp256k1 key from it.
    Secp256k1 { acc: u32, idx: u32 },
    /// Derive an Ed25519 key from it.
    Ed25519 { acc: u32, idx: u32 },
    /// Show its identifier, and go on with the next file.
    Listed { entries: F::Entries, index: usize },
    /// Show its addresses.
    Addresses { name: F::Text },
    /// Sign a message with it.
    Sign { message: F::Text, hex: bool },
    /// Verify a message with it.
    Verify { message: F::Text, signature: F::Text, hex: bool },
    /// Send satoshis with it.
    Send { name: F::Text, payment: Payment<F> },
    /// Sign names with it.
    Author { job: Job<F> },
    /// Pay for names with it.
    Payer { name: F::Text, fee: u64, funding: Funding<F>, names: F::Names },
}

impl View for AfterRead<Concrete> {
    type V = AfterRead<Model>;

    open spec fn view(&self) -> AfterRead<Model> {
        match self {
            AfterRead::Export => AfterRead::Export,
            AfterRead::Secp256k1 { acc, idx } => AfterRead::Secp256k1 { acc: *acc, idx: *idx },
            AfterRead::Ed25519 { acc, idx } => AfterRead::Ed25519 { acc: *acc, idx: *idx },
            AfterRead::Listed { entries, index } => AfterRead::Listed {
                entries: entry_models(entries@),
                index: *index,
            },
            AfterRead::Addresses { name } => AfterRead::Addresses { name: name@ },
            AfterRead::Sign { message, hex } => AfterRead::Sign { message: message@, hex: *hex },
            AfterRead::Verify { message, signature, hex } => AfterRead::Verify {
                message: message@,
                signature: signature@,
                hex: *hex,
            },
            AfterRead::Send { name, payment } => AfterRead::Send {
                name: name@,
                payment: payment@,
            },
            AfterRead::Author { job } => AfterRead::Author { job: job@ },
            AfterRead::Payer { name, fee, funding, names } => AfterRead::Payer {
                name: name@,
                fee: *fee,
                funding: funding@,
                names: name_models(names@),
            },
        }
    }
}

/// How far the key encryption key is opened.
pub enum OpenStage<F: Form> {
    /// The password is asked for.
    Password { sealed: F::Text },
    /// The password is hashed.
    Hash { sealed: F::Text },
    /// The protected key is decoded.
    Decode { mkek: F::Bytes },
    /// Its tag is skipped.
    Untag { mkek: F::Bytes },
    /// It is decrypted.
    Decrypt,
    /// It is inspected.
    Inspect,
}

impl View for OpenStage<Concrete> {
    type V = OpenStage<Model>;

    open spec fn view(&self) -> OpenStage<Model> {
        match self {
            OpenStage::Password { sealed } => OpenStage::Password { sealed: sealed@ },
            OpenStage::Hash { sealed } => OpenStage::Hash { sealed: sealed@ },
            OpenStage::Decode { mkek } => OpenStage::Decode { mkek: mkek@ },
            OpenStage::Untag { mkek } => OpenStage::Untag { mkek: mkek@ },
            OpenStage::Decrypt => OpenStage::Decrypt,
            OpenStage::Inspect => OpenStage::Inspect,
        }
    }
}

/// How far a key is read.
pub enum ReadStage<F: Form> {
    /// The file is read.
    Data,
    /// The tag is skipped.
    Untag,
    /// The key is decrypted.
    Decrypt,
    /// The key is inspected.
    Inspect { key: F::Bytes },
}

impl View for ReadStage<Concrete> {
    type V = ReadStage<Model>;

    open spec fn view(&self) -> ReadStage<Model> {
        match self {
            ReadStage::Data => ReadStage::Data,
            ReadStage::Untag => ReadStage::Untag,
            ReadStage::Decrypt => ReadStage::Decrypt,
            ReadStage::Inspect { key } => ReadStage::Inspect { key: key@ },
        }
    }
}

/// How far a key is saved.
pub enum SaveStage<F: Form> {
    /// The key is encrypted.
    Encrypt { file: F::Text },
    /// The tag is added.
    Tag { file: F::Text },
    /// The file is written.
    Write,
}

impl View for SaveStage<Concrete> {
    type V = SaveStage<Model>;

    open spec fn view(&self) -> SaveStage<Model> {
        match self {
            SaveStage::Encrypt { file } => SaveStage::Encrypt { file: file@ },
            SaveStage::Tag { file } => SaveStage::Tag { file: file@ },
            SaveStage::Write => SaveStage::Write,
        }
    }
}

/// How far a new key encryption key is made.
pub enum NewKekStage<F: Form> {
    /// The password is asked for.
    Password { alias: F::Text },
    /// The password is hashed.
    Hash { alias: F::Text },
    /// The time is asked for.
    Clock { mkek: F::Bytes },
    /// The key is made.
    Key { mkek: F::Bytes, kid: F::Text },
    /// It is encrypted.
    Encrypt,
    /// The tag is added.
    Tag,
    /// It is encoded.
    Encode,
}

impl View for NewKekStage<Concrete> {
    type V = NewKekStage<Model>;

    open spec fn view(&self) -> NewKekStage<Model> {
        match self {
            NewKekStage::Password { alias } => NewKekStage::Password { alias: alias@ },
            NewKekStage::Hash { alias } => NewKekStage::Hash { alias: alias@ },
            NewKekStage::Clock { mkek } => NewKekStage::Clock { mkek: mkek@ },
            NewKekStage::Key { mkek, kid } => NewKekStage::Key { mkek: mkek@, kid: kid@ },
            NewKekStage::Encrypt => NewKekStage::Encrypt,
            NewKekStage::Tag => NewKekStage::Tag,
            NewKekStage::Encode => NewKekStage::Encode,
        }
    }
}

/// How far a new seed is made.
pub enum SeedStage<F: Form> {
    /// The file is looked for.
    Find { file: F::Text },
    /// The key is made.
    Key { kek: KekEncryptor<F>, file: F::Text },
    /// It gets its identifier.
    KeyId { kek: KekEncryptor<F>, file: F::Text, public_key: F::Bytes },
}

impl View for SeedStage<Concrete> {
    type V = SeedStage<Model>;

    open spec fn view(&self) -> SeedStage<Model> {
        match self {
            SeedStage::Find { file } => SeedStage::Find { file: file@ },
            SeedStage::Key { kek, file } => SeedStage::Key { kek: kek@, file: file@ },
            SeedStage::KeyId { kek, file, public_key } => SeedStage::KeyId {
                kek: kek@,
                file: file@,
                public_key: public_key@,
            },
        }
    }
}

/// How far a seed is imported.
pub enum ImportStage<F: Form> {
    /// The time is asked for.
    Clock,
    /// The file is looked for.
    Find { file: F::Text },
    /// The protected seed is asked for.
    Sealed { file: F::Text },
    /// The password is asked for.
    Password { file: F::Text, sealed: F::Text },
    /// The password is hashed.
    Hash { file: F::Text, sealed: F::Text },
    /// The protected seed is decoded.
    Decode { file: F::Text, key: F::Bytes },
    /// Its tag is skipped.
    Untag { file: F::Text, key: F::Bytes },
    /// It is decrypted.
    Decrypt { file: F::Text },
    /// The seed key is read.
    Key { file: F::Text },
    /// The seed key is inspected.
    Inspect { kek: KekEncryptor<F>, file: F::Text, key: F::Bytes },
}

impl View for ImportStage<Concrete> {
    type V = ImportStage<Model>;

    open spec fn view(&self) -> ImportStage<Model> {
        match self {
            ImportStage::Clock => ImportStage::Clock,
            ImportStage::Find { file } => ImportStage::Find { file: file@ },
            ImportStage::Sealed { file } => ImportStage::Sealed { file: file@ },
            ImportStage::Password { file, sealed } => ImportStage::Password {
                file: file@,
                sealed: sealed@,
            },
            ImportStage::Hash { file, sealed } => ImportStage::Hash {
                file: file@,
                sealed: sealed@,
            },
            ImportStage::Decode { file, key } => ImportStage::Decode { file: file@, key: key@ },
            ImportStage::Untag { file, key } => ImportStage::Untag { file: file@, key: key@ },
            ImportStage::Decrypt { file } => ImportStage::Decrypt { file: file@ },
            ImportStage::Key { file } => ImportStage::Key { file: file@ },
            ImportStage::Inspect { kek, file, key } => ImportStage::Inspect {
                kek: kek@,
                file: file@,
                key: key@,
            },
        }
    }
}

/// How far a seed is exported.
pub enum ExportStage<F: Form> {
    /// The password is asked for.
    Password { key: F::Bytes, kid: Option<KeyId<F>> },
    /// The password is hashed.
    Hash { key: F::Bytes, kid: Option<KeyId<F>> },
    /// The seed key is encoded.
    Key { wrap: F::Bytes, kid: Option<KeyId<F>> },
    /// It is encrypted.
    Encrypt,
    /// The protected seed is encoded.
    Encode,
}

impl View for ExportStage<Concrete> {
    type V = ExportStage<Model>;

    open spec fn view(&self) -> ExportStage<Model> {
        match self {
            ExportStage::Password { key, kid } => ExportStage::Password {
                key: key@,
                kid: maybe_kid(*kid),
            },
            ExportStage::Hash { key, kid } => ExportStage::Hash { key: key@, kid: maybe_kid(*kid) },
            ExportStage::Key { wrap, kid } => ExportStage::Key {
                wrap: wrap@,
                kid: maybe_kid(*kid),
            },
            ExportStage::Encrypt => ExportStage::Encrypt,
            ExportStage::Encode => ExportStage::Encode,
        }
    }
}

/// How far a key is derived.
pub enum DeriveStage<F: Form> {
    /// The secret of the seed is asked for, for a secp256k1 key.
    Secp256k1Seed { kek: KekEncryptor<F>, kid: F::Text, path: F::Path },
    /// The secp256k1 secret is derived.
    Secp256k1Secret { kek: KekEncryptor<F>, kid: F::Text },
    /// The secp256k1 key is made.
    Secp256k1Key { kek: KekEncryptor<F>, kid: F::Text, address: F::Text },
    /// The secret of the seed is asked for, for an Ed25519 key.
    Ed25519Seed { kek: KekEncryptor<F>, kid: F::Text, path: F::Path },
    /// The Ed25519 secret is derived.
    Ed25519Secret { kek: KekEncryptor<F>, kid: F::Text },
    /// The Ed25519 key is made.
    Ed25519Key { kek: KekEncryptor<F>, kid: F::Text, address: F::Text },
}

impl View for DeriveStage<Concrete> {
    type V = DeriveStage<Model>;

    open spec fn view(&self) -> DeriveStage<Model> {
        match self {
            DeriveStage::Secp256k1Seed { kek, kid, path } => DeriveStage::Secp256k1Seed {
                kek: kek@,
                kid: kid@,
                path: path@,
            },
            DeriveStage::Secp256k1Secret { kek, kid } => DeriveStage::Secp256k1Secret {
                kek: kek@,
                kid: kid@,
            },
            DeriveStage::Secp256k1Key { kek, kid, address } => DeriveStage::Secp256k1Key {
                kek: kek@,
                kid: kid@,
                address: address@,
            },
            DeriveStage::Ed25519Seed { kek, kid, path } => DeriveStage::Ed25519Seed {
                kek: kek@,
                kid: kid@,
                path: path@,
            },
            DeriveStage::Ed25519Secret { kek, kid } => DeriveStage::Ed25519Secret {
                kek: kek@,
                kid: kid@,
            },
            DeriveStage::Ed25519Key { kek, kid, address } => DeriveStage::Ed25519Key {
                kek: kek@,
                kid: kid@,
                address: address@,
            },
        }
    }
}

/// How far the keys are listed.
pub enum ListStage<F: Form> {
    /// The directory is listed.
    Entries { kek: Option<KekEncryptor<F>> },
    /// The name of a file is printed.
    Header { kek: Option<KekEncryptor<F>>, entries: F::Entries, index: usize },
    /// A file is read.
    Data { entries: F::Entries, index: usize },
    /// Its tag is skipped.
    Untag { entries: F::Entries, index: usize },
    /// The identifier of its key is printed.
    Shown { kek: Option<KekEncryptor<F>>, entries: F::Entries, index: usize },
}

impl View for ListStage<Concrete> {
    type V = ListStage<Model>;

    open spec fn view(&self) -> ListStage<Model> {
        match self {
            ListStage::Entries { kek } => ListStage::Entries { kek: maybe_kek(*kek) },
            ListStage::Header { kek, entries, index } => ListStage::Header {
                kek: maybe_kek(*kek),
                entries: entry_models(entries@),
                index: *index,
            },
            ListStage::Data { entries, index } => ListStage::Data {
                entries: entry_models(entries@),
                index: *index,
            },
            ListStage::Untag { entries, index } => ListStage::Untag {
                entries: entry_models(entries@),
                index: *index,
            },
            ListStage::Shown { kek, entries, index } => ListStage::Shown {
                kek: maybe_kek(*kek),
                entries: entry_models(entries@),
                index: *index,
            },
        }
    }
}

/// How far a message is signed.
pub enum SignStage<F: Form> {
    /// The message is printed.
    Message { key: F::Bytes, facts: KeyFacts<F>, message: F::Text, hex: bool },
    /// The secp256k1 signature is made.
    Secp256k1 { hex: bool },
    /// The Ed25519 signature is made.
    Ed25519 { hex: bool },
    /// What was made is encoded, to be printed below a heading.
    Encode { heading: F::Text },
}

impl View for SignStage<Concrete> {
    type V = SignStage<Model>;

    open spec fn view(&self) -> SignStage<Model> {
        match self {
            SignStage::Message { key, facts, message, hex } => SignStage::Message {
                key: key@,
                facts: facts@,
                message: message@,
                hex: *hex,
            },
            SignStage::Secp256k1 { hex } => SignStage::Secp256k1 { hex: *hex },
            SignStage::Ed25519 { hex } => SignStage::Ed25519 { hex: *hex },
            SignStage::Encode { heading } => SignStage::Encode { heading: heading@ },
        }
    }
}

/// How far a message is verified.
pub enum VerifyStage<F: Form> {
    /// The signature is decoded.
    Signature { secret: Result<F::Bytes, F::Texts>, message: F::Text },
    /// The signed message is decoded.
    Signed { key: F::Bytes },
    /// It is checked.
    Check,
}

impl View for VerifyStage<Concrete> {
    type V = VerifyStage<Model>;

    open spec fn view(&self) -> VerifyStage<Model> {
        match self {
            VerifyStage::Signature { secret, message } => VerifyStage::Signature {
                secret: maybe_secret(*secret),
                message: message@,
            },
            VerifyStage::Signed { key } => VerifyStage::Signed { key: key@ },
            VerifyStage::Check => VerifyStage::Check,
        }
    }
}

/// How far the node is entered.
#[derive(Clone, Copy, Debug, PartialEq, Eq, Structural)]
pub enum NodeStage {
    /// Its client is made.
    Connect,
    /// It is pinged.
    Ping,
}

/// What follows once the node has answered.
pub enum AfterNode<F: Form> {
    /// Send satoshis.
    Send { secret: F::Bytes, payment: Payment<F>, p2wpkh: F::Bytes, p2tr: F::Bytes },
    /// Inscribe names.
    Inscribe {
        secret: F::Bytes,
        fee: u64,
        funding: Funding<F>,
        names: F::Names,
        p2wpkh: F::Bytes,
        p2tr: F::Bytes,
    },
}

impl View for AfterNode<Concrete> {
    type V = AfterNode<Model>;

    open spec fn view(&self) -> AfterNode<Model> {
        match self {
            AfterNode::Send { secret, payment, p2wpkh, p2tr } => AfterNode::Send {
                secret: secret@,
                payment: payment@,
                p2wpkh: p2wpkh@,
                p2tr: p2tr@,
            },
            AfterNode::Inscribe { secret, fee, funding, names, p2wpkh, p2tr } =>
                AfterNode::Inscribe {
                secret: secret@,
                fee: *fee,
                funding: funding@,
                names: name_models(names@),
                p2wpkh: p2wpkh@,
                p2tr: p2tr@,
            },
        }
    }
}

/// How far satoshis are sent.
pub enum SendStage<F: Form> {
    /// The network is printed.
    Network { txid: F::Text, addr: F::Text, to: F::Text, amount: u64, fee: u64 },
    /// The scripts of the key are asked for.
    Scripts { secret: F::Bytes, payment: Payment<F> },
    /// The transaction is fetched.
    Outputs { secret: F::Bytes, payment: Payment<F>, p2wpkh: F::Bytes, p2tr: F::Bytes },
    /// The satoshis are sent.
    Sent,
}

impl View for SendStage<Concrete> {
    type V = SendStage<Model>;

    open spec fn view(&self) -> SendStage<Model> {
        match self {
            SendStage::Network { txid, addr, to, amount, fee } => SendStage::Network {
                txid: txid@,
                addr: addr@,
                to: to@,
                amount: *amount,
                fee: *fee,
            },
            SendStage::Scripts { secret, payment } => SendStage::Scripts {
                secret: secret@,
                payment: payment@,
            },
            SendStage::Outputs { secret, payment, p2wpkh, p2tr } => SendStage::Outputs {
                secret: secret@,
                payment: payment@,
                p2wpkh: p2wpkh@,
                p2tr: p2tr@,
            },
            SendStage::Sent => SendStage::Sent,
        }
    }
}

/// How far names are previewed or inscribed.
pub enum RegisterStage<F: Form> {
    /// The network is printed.
    Network { job: Job<F> },
    /// A name is checked.
    Check { job: Job<F>, index: usize },
    /// The public key of the author is asked for.
    PublicKey { kek: KekEncryptor<F>, secret: F::Bytes, job: Job<F> },
    /// A name is signed.
    Sign {
        kek: KekEncryptor<F>,
        secret: F::Bytes,
        public_key: F::Bytes,
        job: Job<F>,
        names: F::Names,
    },
    /// A signed name is validated.
    Validate {
        kek: KekEncryptor<F>,
        secret: F::Bytes,
        public_key: F::Bytes,
        job: Job<F>,
        names: F::Names,
        name: Name<F::Text, F::Signatures, F::Texts>,
    },
    /// The preview is made.
    Sizes { count: usize },
    /// The sizes are printed.
    Totals { sizes: PreviewSizes },
    /// The sums of the sizes are printed.
    Fee { sizes: PreviewSizes },
    /// The scripts of the payer are asked for.
    Scripts { secret: F::Bytes, fee: u64, funding: Funding<F>, names: F::Names },
    /// The transaction is fetched.
    Outputs {
        secret: F::Bytes,
        fee: u64,
        txid: F::Bytes,
        names: F::Names,
        p2wpkh: F::Bytes,
        p2tr: F::Bytes,
    },
    /// The output is read.
    TxOut { secret: F::Bytes, fee: u64, names: F::Names },
    /// The names are inscribed.
    Sent,
}

impl View for RegisterStage<Concrete> {
    type V = RegisterStage<Model>;

    open spec fn view(&self) -> RegisterStage<Model> {
        match self {
            RegisterStage::Network { job } => RegisterStage::Network { job: job@ },
            RegisterStage::Check { job, index } => RegisterStage::Check {
                job: job@,
                index: *index,
            },
            RegisterStage::PublicKey { kek, secret, job } => RegisterStage::PublicKey {
                kek: kek@,
                secret: secret@,
                job: job@,
            },
            RegisterStage::Sign { kek, secret, public_key, job, names } => RegisterStage::Sign {
                kek: kek@,
                secret: secret@,
                public_key: public_key@,
                job: job@,
                names: name_models(names@),
            },
            RegisterStage::Validate { kek, secret, public_key, job, names, name } =>
                RegisterStage::Validate {
                kek: kek@,
                secret: secret@,
                public_key: public_key@,
                job: job@,
                names: name_models(names@),
                name: name_model(*name),
            },
            RegisterStage::Sizes { count } => RegisterStage::Sizes { count: *count },
            RegisterStage::Totals { sizes } => RegisterStage::Totals { sizes: *sizes },
            RegisterStage::Fee { sizes } => RegisterStage::Fee { sizes: *sizes },
            RegisterStage::Scripts { secret, fee, funding, names } => RegisterStage::Scripts {
                secret: secret@,
                fee: *fee,
                funding: funding@,
                names: name_models(names@),
            },
            RegisterStage::Outputs { secret, fee, txid, names, p2wpkh, p2tr } =>
                RegisterStage::Outputs {
                secret: secret@,
                fee: *fee,
                txid: txid@,
                names: name_models(names@),
                p2wpkh: p2wpkh@,
                p2tr: p2tr@,
            },
            RegisterStage::TxOut { secret, fee, names } => RegisterStage::TxOut {
                secret: secret@,
                fee: *fee,
                names: name_models(names@),
            },
            RegisterStage::Sent => RegisterStage::Sent,
        }
    }
}

/// Where a command stands.
pub enum State<F: Form> {
    /// It has ended.
    Done,
    /// Its last line is printed.
    Closing,
    /// The advice on a missing key encryption key is printed.
    Refused,
    /// The key encryption key is opened.
    Open { stage: OpenStage<F>, after: AfterOpen<F> },
    /// A key is read.
    Read { kek: KekEncryptor<F>, stage: ReadStage<F>, after: AfterRead<F> },
    /// A key is saved.
    Save { stage: SaveStage<F>, note: Note<F> },
    /// A key encryption key is made.
    NewKek(NewKekStage<F>),
    /// A seed is made.
    Seed(SeedStage<F>),
    /// A seed is imported.
    Import(ImportStage<F>),
    /// A seed is exported.
    Export(ExportStage<F>),
    /// A key is derived.
    Derive(DeriveStage<F>),
    /// The keys are listed.
    List(ListStage<F>),
    /// A message is signed.
    Sign(SignStage<F>),
    /// A message is verified.
    Verify(VerifyStage<F>),
    /// The node is entered.
    Node { stage: NodeStage, after: AfterNode<F> },
    /// Satoshis are sent.
    Send(SendStage<F>),
    /// Names are previewed or inscribed.
    Register(RegisterStage<F>),
}

impl View for State<Concrete> {
    type V = State<Model>;

    open spec fn view(&self) -> State<Model> {
        match self {
            State::Done => State::Done,
            State::Closing => State::Closing,
            State::Refused => State::Refused,
            State::Open { stage, after } => State::Open { stage: stage@, after: after@ },
            State::Read { kek, stage, after } => State::Read {
                kek: kek@,
                stage: stage@,
                after: after@,
            },
            State::Save { stage, note } => State::Save { stage: stage@, note: note@ },
            State::NewKek(stage) => State::NewKek(stage@),
            State::Seed(stage) => State::Seed(stage@),
            State::Import(stage) => State::Import(stage@),
            State::Export(stage) => State::Export(stage@),
            State::Derive(stage) => State::Derive(stage@),
            State::List(stage) => State::List(stage@),
            State::Sign(stage) => State::Sign(stage@),
            State::Verify(stage) => State::Verify(stage@),
            State::Node { stage, after } => State::Node { stage: *stage, after: after@ },
            State::Send(stage) => State::Send(stage@),
            State::Register(stage) => State::Register(stage@),
        }
    }
}

/// A step of a command: where it stands next, and what it asks for.
pub struct Step<F: Form> {
    /// Where the command stands.
    pub state: State<F>,
    /// What it asks for.
    pub request: Request<F>,
}

impl View for Step<Concrete> {
    type V = Step<Model>;

    open spec fn view(&self) -> Step<Model> {
        Step { state: self.state@, request: self.request@ }
    }
}

/// The step that ends a command.
pub open spec fn ended(outcome: Outcome<Model>) -> Step<Model> {
    Step { state: State::Done, request: Request::Exit(outcome) }
}

/// The step that ends a command with a failure.
pub open spec fn failed(failure: Failure<Model>) -> Step<Model> {
    ended(Outcome::Failure(failure))
}

/// The step that ends a command because something that it relies on failed.
pub open spec fn failed_outside(messages: Seq<Seq<char>>) -> Step<Model> {
    failed(Failure::Outside { messages })
}

/// The step that ends a command because an answer does not fit.
pub open spec fn misreplied() -> Step<Model> {
    failed(Failure::Misreply)
}

/// The step that prints the last line of a command.
pub open spec fn closing(text: Seq<char>) -> Step<Model> {
    Step { state: State::Closing, request: Request::Print { text } }
}

/// Ends a command.
pub(crate) fn end(outcome: Outcome<Concrete>) -> (r: Step<Concrete>)
    ensures
        r@ == ended(outcome@),
{
    Step { state: State::Done, request: Request::Exit(outcome) }
}

/// Ends a command with a failure.
pub(crate) fn fail(failure: Failure<Concrete>) -> (r: Step<Concrete>)
    ensures
        r@ == failed(failure@),
{
    end(Outcome::Failure(failure))
}

/// Ends a command because something that it relies on failed.
pub(crate) fn fail_outside(messages: Vec<String>) -> (r: Step<Concrete>)
    ensures
        r@ == failed_outside(texts(messages@)),
{
    fail(Failure::Outside { messages })
}

/// Ends a command because an answer does not fit.
pub(crate) fn misreply() -> (r: Step<Concrete>)
    ensures
        r@ == misreplied(),
{
    fail(Failure::Misreply)
}

/// Prints the last line of a command.
pub(crate) fn close(text: String) -> (r: Step<Concrete>)
    ensures
        r@ == closing(text@),
{
    Step { state: State::Closing, request: Request::Print { text } }
}

} // verus!
