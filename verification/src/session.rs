//! A run of the program: it asks, is answered, and asks again, until it ends.

use vstd::prelude::*;

use crate::chain::{
    Network, address_lines, choose_network, chosen_network, networks_are_chosen_by_name,
    secp256k1_addresses, secret_key_error, valid_secret_key,
};
use crate::cli::Commands;
use crate::form::{Concrete, KeyFacts, Model};
use crate::keystore::{key_file, key_file_name, open_next, opening, read_next, save_next};
use crate::listing::{begin_list, list_begun, list_next, list_shown, list_step, show_listed};
use crate::messages::{
    begin_sign, begin_verify, sign_begun, sign_next, sign_step, verify_begun, verify_next,
    verify_step,
};
use crate::names::{
    author_with_key, authored, begin_register, paid, pay_with_key, register_begun, register_next,
    register_step,
};
use crate::node::{node_next, node_step};
use crate::seeds::{
    begin_ed25519, begin_export, begin_import, begin_new_kek, begin_secp256k1, begin_seed,
    derive_next, derive_step, ed25519_begun, export_begun, export_next, export_step, import_begun,
    import_next, import_step, new_kek_begun, new_kek_next, new_kek_step, secp256k1_begun,
    seed_begun, seed_next, seed_step,
};
use crate::spending::{begin_send, send_begun, send_keyed, send_next, send_step, send_with_key};
use crate::state::{
    AfterOpen, AfterRead, Funding, Job, KekEncryptor, Settings, State, Step, close, closing, end,
    ended, fail, fail_outside, failed, failed_outside, maybe_text, misreplied, misreply,
};
use crate::text::{names_in, parse_names, same_text};
use crate::wire::{Failure, Outcome, Reply, Request};

verus! {

/// A text, or nothing where it is absent.
pub open spec fn text_or_empty(text: Option<Seq<char>>) -> Seq<char> {
    match text {
        Some(text) => text,
        None => seq![],
    }
}

/// A text, or nothing where it is absent.
fn or_empty(text: Option<String>) -> (r: String)
    ensures
        r@ == text_or_empty(maybe_text(text)),
{
    match text {
        Some(text) => text,
        None => String::new(),
    }
}

/// The directory with the keys, by the setting `INSCRIBER_KEYS_DIR`.
pub fn keys_dir(setting: Option<String>) -> (r: String)
    ensures
        r@ == match setting {
            Some(dir) => dir@,
            None => "./keys"@,
        },
{
    match setting {
        Some(dir) => dir,
        None => "./keys".to_owned(),
    }
}

impl Settings<Concrete> {
    /// The settings of a run, by the variables `BITCOIN_NETWORK`, `INSCRIBER_KEK`,
    /// `BITCOIN_RPC_URL`, `BITCOIN_RPC_USER`, `BITCOIN_RPC_PASSWORD` and `BITCOIN_RPC_TOKEN`.
    pub fn new(
        network: Option<String>,
        kek: Option<String>,
        rpc_url: Option<String>,
        rpc_user: Option<String>,
        rpc_password: Option<String>,
        rpc_token: Option<String>,
    ) -> (r: Settings<Concrete>)
        ensures
            r@ == (Settings::<Model> {
                network: chosen_network(maybe_text(network)),
                kek: text_or_empty(maybe_text(kek)),
                rpc_url: maybe_text(rpc_url),
                rpc_user: text_or_empty(maybe_text(rpc_user)),
                rpc_password: text_or_empty(maybe_text(rpc_password)),
                rpc_token: text_or_empty(maybe_text(rpc_token)),
            }),
            match kek {
                Some(text) => r.kek@ == text@,
                None => r.kek@.len() == 0,
            },
            match (rpc_url, r.rpc_url) {
                (Some(text), Some(url)) => url@ == text@,
                (None, None) => true,
                _ => false,
            },
            match rpc_user {
                Some(text) => r.rpc_user@ == text@,
                None => r.rpc_user@.len() == 0,
            },
            match rpc_password {
                Some(text) => r.rpc_password@ == text@,
                None => r.rpc_password@.len() == 0,
            },
            match rpc_token {
                Some(text) => r.rpc_token@ == text@,
                None => r.rpc_token@.len() == 0,
            },
            match network {
                Some(text) => {
                    &&& text@ == "main"@ ==> r.network == Network::Bitcoin
                    &&& text@ == "test"@ ==> r.network == Network::Testnet
                    &&& text@ == "signet"@ ==> r.network == Network::Signet
                    &&& r.network != Network::Regtest ==> text@ == "main"@ || text@ == "test"@
                        || text@ == "signet"@
                },
                None => r.network == Network::Regtest,
            },
    {
        proof {
            networks_are_chosen_by_name(text_or_empty(maybe_text(network)));
        }
        let network: Network = match &network {
            Some(arg) => choose_network(Some(arg.as_str())),
            None => choose_network(None),
        };
        Settings {
            network,
            kek: or_empty(kek),
            rpc_url,
            rpc_user: or_empty(rpc_user),
            rpc_password: or_empty(rpc_password),
            rpc_token: or_empty(rpc_token),
        }
    }
}

/// The step that shows the addresses of a key.
pub open spec fn addresses_shown(
    settings: Settings<Model>,
    facts: KeyFacts<Model>,
    name: Seq<char>,
) -> Step<Model> {
    if !facts.secp256k1 {
        failed(Failure::NotSecp256k1 { name })
    } else {
        match facts.secret {
            Ok(secret) => if valid_secret_key(secret) {
                closing(address_lines(secret, settings.network))
            } else {
                failed_outside(secret_key_error())
            },
            Err(message) => failed_outside(message),
        }
    }
}

/// Shows the addresses of a key.
fn show_addresses(settings: &Settings<Concrete>, facts: KeyFacts<Concrete>, name: String) -> (r:
    Step<Concrete>)
    ensures
        r@ == addresses_shown(settings@, facts@, name@),
{
    if !facts.secp256k1 {
        fail(Failure::NotSecp256k1 { name })
    } else {
        match facts.secret {
            Ok(secret) => match secp256k1_addresses(secret.as_slice(), settings.network) {
                Ok(lines) => close(lines),
                Err(message) => fail_outside(message),
            },
            Err(message) => fail_outside(message),
        }
    }
}

/// The step that follows once a key is read.
pub open spec fn obtained(
    settings: Settings<Model>,
    kek: KekEncryptor<Model>,
    key: Seq<u8>,
    facts: KeyFacts<Model>,
    after: AfterRead<Model>,
) -> Step<Model> {
    match after {
        AfterRead::Export => export_begun(key, facts.kid),
        AfterRead::Secp256k1 { acc, idx } => secp256k1_begun(kek, key, acc, idx),
        AfterRead::Ed25519 { acc, idx } => ed25519_begun(kek, key, acc, idx),
        AfterRead::Listed { entries, index } => list_shown(
            Some(kek),
            entries,
            index,
            facts.kid_text,
        ),
        AfterRead::Addresses { name } => addresses_shown(settings, facts, name),
        AfterRead::Sign { message, hex } => sign_begun(key, facts, message, hex),
        AfterRead::Verify { message, signature, hex } => verify_begun(
            key,
            facts,
            message,
            signature,
            hex,
        ),
        AfterRead::Send { name, payment } => send_keyed(facts, name, payment),
        AfterRead::Author { job } => authored(kek, facts, job),
        AfterRead::Payer { name, fee, funding, names } => paid(facts, name, fee, funding, names),
    }
}

/// Goes on with what a key was read for.
pub(crate) fn obtain(
    settings: &Settings<Concrete>,
    kek: KekEncryptor<Concrete>,
    key: Vec<u8>,
    facts: KeyFacts<Concrete>,
    after: AfterRead<Concrete>,
) -> (r: Step<Concrete>)
    ensures
        r@ == obtained(settings@, kek@, key@, facts@, after@),
{
    match after {
        AfterRead::Export => begin_export(key, facts.kid),
        AfterRead::Secp256k1 { acc, idx } => begin_secp256k1(kek, key, acc, idx),
        AfterRead::Ed25519 { acc, idx } => begin_ed25519(kek, key, acc, idx),
        AfterRead::Listed { entries, index } => show_listed(
            Some(kek),
            entries,
            index,
            facts.kid_text.as_str(),
        ),
        AfterRead::Addresses { name } => show_addresses(settings, facts, name),
        AfterRead::Sign { message, hex } => begin_sign(key, facts, message, hex),
        AfterRead::Verify { message, signature, hex } => begin_verify(
            key,
            facts,
            message,
            signature,
            hex,
        ),
        AfterRead::Send { name, payment } => send_with_key(facts, name, payment),
        AfterRead::Author { job } => author_with_key(kek, facts, job),
        AfterRead::Payer { name, fee, funding, names } => pay_with_key(
            facts,
            name,
            fee,
            funding,
            names,
        ),
    }
}

/// The step that opens the key encryption key and reads the key with a name.
pub open spec fn key_wanted(
    settings: Settings<Model>,
    name: Seq<char>,
    after: AfterRead<Model>,
) -> Step<Model> {
    opening(settings, AfterOpen::Read { file: key_file(name), after })
}

/// Opens the key encryption key and reads the key with a name.
fn want_key(settings: &Settings<Concrete>, name: &str, after: AfterRead<Concrete>) -> (r: Step<
    Concrete,
>)
    ensures
        r@ == key_wanted(settings@, name@, after@),
{
    KekEncryptor::open(settings, AfterOpen::Read { file: key_file_name(name), after })
}

/// The first step of a command.
pub open spec fn started(settings: Settings<Model>, command: Option<Commands>) -> Step<Model> {
    match command {
        None => ended(Outcome::Success),
        Some(Commands::NewKEK { alias }) => new_kek_begun(alias@),
        Some(Commands::NewSeed {  }) => seed_begun(),
        Some(Commands::ImportSeed { alias }) => import_begun(alias@),
        Some(Commands::ExportSeed { seed }) => key_wanted(settings, seed@, AfterRead::Export),
        Some(Commands::Secp256k1Derive { seed, acc, idx }) => key_wanted(
            settings,
            seed@,
            AfterRead::Secp256k1 { acc, idx },
        ),
        Some(Commands::Ed25519Derive { seed, acc, idx }) => key_wanted(
            settings,
            seed@,
            AfterRead::Ed25519 { acc, idx },
        ),
        Some(Commands::ListKeys { detail }) => list_begun(settings, detail),
        Some(Commands::Secp256k1Address { key }) => key_wanted(
            settings,
            key@,
            AfterRead::Addresses { name: key@ },
        ),
        Some(Commands::SignMessage { key, msg, enc }) => key_wanted(
            settings,
            key@,
            AfterRead::Sign { message: msg@, hex: enc@ == "hex"@ },
        ),
        Some(Commands::VerifyMessage { key, msg, sig, enc }) => key_wanted(
            settings,
            key@,
            AfterRead::Verify { message: msg@, signature: sig@, hex: enc@ == "hex"@ },
        ),
        Some(Commands::SendSats { txid, addr, to, amount, fee }) => send_begun(
            settings,
            txid@,
            addr@,
            to@,
            amount,
            fee,
        ),
        Some(Commands::Preview { fee, key, names }) => register_begun(
            settings,
            Job { names: names_in(names@), fee, key: key@, funding: None },
        ),
        Some(Commands::Inscribe { txid, txout_json, addr, fee, key, names }) => register_begun(
            settings,
            Job {
                names: names_in(names@),
                fee,
                key: key@,
                funding: Some(
                    Funding { txid: txid@, txout_json: txout_json@, addr: addr@ },
                ),
            },
        ),
    }
}

/// The step that follows an answer. A failure ends the command.
pub open spec fn next(
    settings: Settings<Model>,
    state: State<Model>,
    reply: Reply<Model>,
) -> Step<Model> {
    if state is Done {
        misreplied()
    } else if let Reply::Failed { messages } = reply {
        failed_outside(messages)
    } else {
        match state {
            State::Done => misreplied(),
            State::Closing => match reply {
                Reply::Done => ended(Outcome::Success),
                _ => misreplied(),
            },
            State::Refused => match reply {
                Reply::Done => failed(Failure::KekMissing),
                _ => misreplied(),
            },
            State::Open { stage, after } => open_next(stage, after, reply),
            State::Read { kek, stage, after } => read_next(settings, kek, stage, after, reply),
            State::Save { stage, note } => save_next(stage, note, reply),
            State::NewKek(stage) => new_kek_next(stage, reply),
            State::Seed(stage) => seed_next(settings, stage, reply),
            State::Import(stage) => import_next(settings, stage, reply),
            State::Export(stage) => export_next(stage, reply),
            State::Derive(stage) => derive_next(settings, stage, reply),
            State::List(stage) => list_next(stage, reply),
            State::Sign(stage) => sign_next(stage, reply),
            State::Verify(stage) => verify_next(stage, reply),
            State::Node { stage, after } => node_next(stage, after, reply),
            State::Send(stage) => send_next(settings, stage, reply),
            State::Register(stage) => register_next(settings, stage, reply),
        }
    }
}

/// A run of the program.
pub struct Session {
    settings: Settings<Concrete>,
    state: State<Concrete>,
}

impl Session {
    /// The settings of the run.
    pub closed spec fn settings(&self) -> Settings<Model> {
        self.settings@
    }

    /// Where the run stands.
    pub closed spec fn state(&self) -> State<Model> {
        self.state@
    }

    /// Starts a command.
    pub fn start(settings: Settings<Concrete>, command: Option<Commands>) -> (r: (
        Session,
        Request<Concrete>,
    ))
        ensures
            r.0.settings() == settings@,
            r.0.state() == started(settings@, command).state,
            r.1@ == started(settings@, command).request,
    {
        let step: Step<Concrete> = Session::first(&settings, command);
        (Session { settings, state: step.state }, step.request)
    }

    /// The first step of a command.
    fn first(settings: &Settings<Concrete>, command: Option<Commands>) -> (r: Step<Concrete>)
        ensures
            r@ == started(settings@, command),
    {
        match command {
            None => end(Outcome::Success),
            Some(Commands::NewKEK { alias }) => begin_new_kek(alias),
            Some(Commands::NewSeed {  }) => begin_seed(),
            Some(Commands::ImportSeed { alias }) => begin_import(alias),
            Some(Commands::ExportSeed { seed }) => want_key(
                settings,
                seed.as_str(),
                AfterRead::Export,
            ),
            Some(Commands::Secp256k1Derive { seed, acc, idx }) => want_key(
                settings,
                seed.as_str(),
                AfterRead::Secp256k1 { acc, idx },
            ),
            Some(Commands::Ed25519Derive { seed, acc, idx }) => want_key(
                settings,
                seed.as_str(),
                AfterRead::Ed25519 { acc, idx },
            ),
            Some(Commands::ListKeys { detail }) => begin_list(settings, detail),
            Some(Commands::Secp256k1Address { key }) => want_key(
                settings,
                key.as_str(),
                AfterRead::Addresses { name: key.clone() },
            ),
            Some(Commands::SignMessage { key, msg, enc }) => want_key(
                settings,
                key.as_str(),
                AfterRead::Sign { message: msg, hex: same_text(enc.as_str(), "hex") },
            ),
            Some(Commands::VerifyMessage { key, msg, sig, enc }) => want_key(
                settings,
                key.as_str(),
                AfterRead::Verify {
                    message: msg,
                    signature: sig,
                    hex: same_text(enc.as_str(), "hex"),
                },
            ),
            Some(Commands::SendSats { txid, addr, to, amount, fee }) => begin_send(
                settings,
                txid,
                addr,
                to,
                amount,
                fee,
            ),
            Some(Commands::Preview { fee, key, names }) => {
                let job: Job<Concrete> = Job {
                    names: parse_names(names.as_str()),
                    fee,
                    key,
                    funding: None,
                };
                begin_register(settings, job)
            },
            Some(Commands::Inscribe { txid, txout_json, addr, fee, key, names }) => {
                let job: Job<Concrete> = Job {
                    names: parse_names(names.as_str()),
                    fee,
                    key,
                    funding: Some(Funding { txid, txout_json, addr }),
                };
                begin_register(settings, job)
            },
        }
    }

    /// Goes on with an answer.
    pub fn answer(self, reply: Reply<Concrete>) -> (r: (Session, Request<Concrete>))
        ensures
            r.0.settings() == self.settings(),
            r.0.state() == next(self.settings(), self.state(), reply@).state,
            r.1@ == next(self.settings(), self.state(), reply@).request,
    {
        let Session { settings, state } = self;
        let step: Step<Concrete> = Session::follow(&settings, state, reply);
        (Session { settings, state: step.state }, step.request)
    }

    /// The step that follows an answer.
    fn follow(
        settings: &Settings<Concrete>,
        state: State<Concrete>,
        reply: Reply<Concrete>,
    ) -> (r: Step<Concrete>)
        ensures
            r@ == next(settings@, state@, reply@),
    {
        if let State::Done = state {
            return misreply();
        }
        if let Reply::Failed { messages } = reply {
            return fail_outside(messages);
        }
        match state {
            State::Done => misreply(),
            State::Closing => match reply {
                Reply::Done => end(Outcome::Success),
                _ => misreply(),
            },
            State::Refused => match reply {
                Reply::Done => fail(Failure::KekMissing),
                _ => misreply(),
            },
            State::Open { stage, after } => KekEncryptor::open_step(stage, after, reply),
            State::Read { kek, stage, after } => kek.read_step(settings, stage, after, reply),
            State::Save { stage, note } => KekEncryptor::save_step(stage, note, reply),
            State::NewKek(stage) => new_kek_step(stage, reply),
            State::Seed(stage) => seed_step(settings, stage, reply),
            State::Import(stage) => import_step(settings, stage, reply),
            State::Export(stage) => export_step(stage, reply),
            State::Derive(stage) => derive_step(settings, stage, reply),
            State::List(stage) => list_step(stage, reply),
            State::Sign(stage) => sign_step(stage, reply),
            State::Verify(stage) => verify_step(stage, reply),
            State::Node { stage, after } => node_step(stage, after, reply),
            State::Send(stage) => send_step(settings, stage, reply),
            State::Register(stage) => register_step(settings, stage, reply),
        }
    }
}

} // verus!
