//! The command line.

use vstd::prelude::*;

verus! {

/// The command line.
pub struct Cli {
    /// The file with the settings.
    pub config: Option<String>,
    /// What to do.
    pub command: Option<Commands>,
}

/// The commands.
pub enum Commands {
    /// Generate a new KEK used to protect other keys.
    NewKEK {
        /// Alias for the new KEK key.
        alias: String,
    },
    /// Generate a seed secret key that is protected by the KEK.
    NewSeed {},
    /// Import a seed secret key and protect it by the KEK.
    ImportSeed {
        /// Alias for the imported seed key.
        alias: String,
    },
    /// Export the seed key and protect it by a password.
    ExportSeed {
        /// The seed key file name, combined to "{key}.cose.key".
        seed: String,
    },
    /// Derive a Secp256k1 key from the seed, protected by the KEK, along
    /// "m/44'/0'/{acc}'/1/{idx}" (BIP-32/44).
    Secp256k1Derive {
        /// The seed key file name, combined to "{key}.cose.key".
        seed: String,
        /// The account.
        acc: u32,
        /// The index.
        idx: u32,
    },
    /// Derive an Ed25519 key from the seed, protected by the KEK, along
    /// "m/42'/0'/{acc}'/1/{idx}" (BIP-32/44).
    Ed25519Derive {
        /// The seed key file name, combined to "{key}.cose.key".
        seed: String,
        /// The account.
        acc: u32,
        /// The index.
        idx: u32,
    },
    /// List the keys in the key directory.
    ListKeys {
        /// Whether to open each key.
        detail: bool,
    },
    /// Display secp256k1 addresses.
    Secp256k1Address {
        /// The secp256k1 key file name, combined to "{key}.cose.key".
        key: String,
    },
    /// Sign a message.
    SignMessage {
        /// The Ed25519 or Secp256k1 key file name, combined to "{key}.cose.key".
        key: String,
        /// The message to sign.
        msg: String,
        /// The output encoding, base64 unless it is "hex".
        enc: String,
    },
    /// Verify a message.
    VerifyMessage {
        /// The Ed25519 or Secp256k1 key file name, combined to "{key}.cose.key".
        key: String,
        /// The message to verify.
        msg: String,
        /// The signature to verify.
        sig: String,
        /// The signature encoding, base64 unless it is "hex".
        enc: String,
    },
    /// Send satoshis from a transaction to a Bitcoin address.
    SendSats {
        /// The unspent transaction to spend.
        txid: String,
        /// The address on the transaction to spend, combined to "{addr}.cose.key" to read its key.
        addr: String,
        /// The address to receive the satoshis.
        to: String,
        /// The satoshis to send.
        amount: u64,
        /// The fee rate in satoshis per virtual byte.
        fee: u64,
    },
    /// Preview the inscription transactions and their least cost.
    Preview {
        /// The fee rate in satoshis per virtual byte.
        fee: u64,
        /// The Ed25519 key file name, combined to "{key}.cose.key".
        key: String,
        /// The names to inscribe, separated by commas.
        names: String,
    },
    /// Inscribe names to a transaction.
    Inscribe {
        /// The unspent transaction to spend.
        txid: String,
        /// The unspent output as JSON. If it is not provided, the first output on the transaction
        /// that pays to the address is used.
        txout_json: String,
        /// The address on the transaction to operate on, combined to "{addr}.cose.key" to read its
        /// key.
        addr: String,
        /// The fee rate in satoshis per virtual byte.
        fee: u64,
        /// The Ed25519 key file name, combined to "{key}.cose.key".
        key: String,
        /// The names to inscribe, separated by commas.
        names: String,
    },
}

impl Cli {
    /// The file with the settings.
    pub fn config_file(&self) -> (r: &str)
        requires
            self.config is Some,
        ensures
            r@ == self.config->0@,
    {
        match &self.config {
            Some(file) => file.as_str(),
            None => "",
        }
    }
}

} // verus!
