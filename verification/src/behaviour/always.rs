//! What holds of every run, however far it has come and however it was answered.

use vstd::prelude::*;

use crate::behaviour::inscribing::{Inscribing, inscribes};
use crate::behaviour::sending::{Sending, pays_first, sends};
use crate::chain::{
    Network, p2pkh_address, p2tr_address, p2wpkh_address, secp256k1_public_key, valid_secret_key,
};
use crate::cli::Commands;
use crate::derivation::{ed25519_path_leads, secp256k1_path_leads};
use crate::form::{Model, Name, TxOutput, UnspentTxOut};
use crate::hexadecimal::hex_bytes;
use crate::run::{Run, exchanges_are_kept, the_last_exchange};
use crate::session::next;
use crate::spending::{first_spendable, first_spendable_is_first};
use crate::state::{
    AfterNode, AfterOpen, AfterRead, DeriveStage, Funding, Payment, RegisterStage, SendStage, State,
    Step,
};
use crate::wire::{Reply, Request};

verus! {

/// What is known where a run stands that derives an Ed25519 key along a path.
spec fn ed25519_stands(acc: u32, idx: u32, path: Seq<u32>, step: Step<Model>) -> bool {
    let wanted = AfterRead::<Model>::Ed25519 { acc, idx };
    match step.state {
        State::Open { after, .. } => {
            &&& after matches AfterOpen::Read { after: reads, .. }
            &&& reads == wanted
            &&& !(step.request is DeriveEd25519)
        },
        State::Read { after, .. } => after == wanted && !(step.request is DeriveEd25519),
        State::Derive(stage) => match stage {
            DeriveStage::Ed25519Seed { path: p, .. } => p == path && step.request is SeedSecret,
            DeriveStage::Ed25519Secret { .. } => step.request matches Request::DeriveEd25519 {
                path: p,
                ..
            } && p == path,
            DeriveStage::Ed25519Key { .. } => !(step.request is DeriveEd25519),
            _ => false,
        },
        State::Save { .. } => !(step.request is DeriveEd25519),
        State::Closing => !(step.request is DeriveEd25519),
        State::Refused => !(step.request is DeriveEd25519),
        State::Done => !(step.request is DeriveEd25519),
        _ => false,
    }
}

/// A run that derives an Ed25519 key keeps to its path.
proof fn an_ed25519_run_stands(run: Run, seed: String, acc: u32, idx: u32, path: Seq<u32>)
    requires
        run.command == Some(Commands::Ed25519Derive { seed, acc, idx }),
        acc < 0x8000_0000,
        idx < 0x8000_0000,
        path == seq![0x8000_002au32, 0x8000_0000u32, (0x8000_0000 + acc) as u32, 1u32, idx],
    ensures
        ed25519_stands(acc, idx, path, run.step()),
    decreases run.replies.len(),
{
    ed25519_path_leads(acc, idx);
    if run.replies.len() > 0 {
        an_ed25519_run_stands(run.before(), seed, acc, idx, path);
    }
}

/// In every run, an Ed25519 key is derived from the secret of the seed that was just answered, at
/// 42', 0', the account hardened, 1 and the index.
pub proof fn every_ed25519_key_is_derived_along_its_path(
    run: Run,
    seed: String,
    acc: u32,
    idx: u32,
    secret: Seq<u8>,
    path: Seq<u32>,
)
    requires
        run.command == Some(Commands::Ed25519Derive { seed, acc, idx }),
        acc < 0x8000_0000,
        idx < 0x8000_0000,
        run.step().request == (Request::<Model>::DeriveEd25519 { secret, path }),
    ensures
        path == seq![0x8000_002au32, 0x8000_0000u32, (0x8000_0000 + acc) as u32, 1u32, idx],
        run.replies.len() > 0,
        run.replies.last() == Reply::<Model>::Bytes(secret),
        run.before().step().request is SeedSecret,
{
    let wanted = seq![0x8000_002au32, 0x8000_0000u32, (0x8000_0000 + acc) as u32, 1u32, idx];
    an_ed25519_run_stands(run, seed, acc, idx, wanted);
    if run.replies.len() > 0 {
        an_ed25519_run_stands(run.before(), seed, acc, idx, wanted);
    }
}

/// What is known where a run stands that derives a secp256k1 key along a path.
spec fn secp256k1_stands(
    network: Network,
    acc: u32,
    idx: u32,
    path: Seq<u32>,
    step: Step<Model>,
) -> bool {
    let wanted = AfterRead::<Model>::Secp256k1 { acc, idx };
    match step.state {
        State::Open { after, .. } => {
            &&& after matches AfterOpen::Read { after: reads, .. }
            &&& reads == wanted
            &&& !(step.request is DeriveSecp256k1)
        },
        State::Read { after, .. } => after == wanted && !(step.request is DeriveSecp256k1),
        State::Derive(stage) => match stage {
            DeriveStage::Secp256k1Seed { path: p, .. } => p == path && step.request is SeedSecret,
            DeriveStage::Secp256k1Secret { .. } => step.request matches Request::DeriveSecp256k1 {
                path: p,
                network: n,
                ..
            } && p == path && n == network,
            DeriveStage::Secp256k1Key { .. } => !(step.request is DeriveSecp256k1),
            _ => false,
        },
        State::Save { .. } => !(step.request is DeriveSecp256k1),
        State::Closing => !(step.request is DeriveSecp256k1),
        State::Refused => !(step.request is DeriveSecp256k1),
        State::Done => !(step.request is DeriveSecp256k1),
        _ => false,
    }
}

/// A run that derives a secp256k1 key keeps to its path.
proof fn a_secp256k1_run_stands(run: Run, seed: String, acc: u32, idx: u32, path: Seq<u32>)
    requires
        run.command == Some(Commands::Secp256k1Derive { seed, acc, idx }),
        acc < 0x8000_0000,
        idx < 0x8000_0000,
        path == seq![0x8000_002cu32, 0x8000_0000u32, (0x8000_0000 + acc) as u32, 1u32, idx],
    ensures
        secp256k1_stands(run.settings.network, acc, idx, path, run.step()),
    decreases run.replies.len(),
{
    secp256k1_path_leads(acc, idx);
    if run.replies.len() > 0 {
        a_secp256k1_run_stands(run.before(), seed, acc, idx, path);
    }
}

/// In every run, a secp256k1 key is derived from the secret of the seed that was just answered, at
/// 44', 0', the account hardened, 1 and the index, on the network of the settings.
pub proof fn every_secp256k1_key_is_derived_along_its_path(
    run: Run,
    seed: String,
    acc: u32,
    idx: u32,
    secret: Seq<u8>,
    path: Seq<u32>,
    network: Network,
)
    requires
        run.command == Some(Commands::Secp256k1Derive { seed, acc, idx }),
        acc < 0x8000_0000,
        idx < 0x8000_0000,
        run.step().request == (Request::<Model>::DeriveSecp256k1 { secret, path, network }),
    ensures
        path == seq![0x8000_002cu32, 0x8000_0000u32, (0x8000_0000 + acc) as u32, 1u32, idx],
        network == run.settings.network,
        run.replies.len() > 0,
        run.replies.last() == Reply::<Model>::Bytes(secret),
        run.before().step().request is SeedSecret,
{
    let wanted = seq![0x8000_002cu32, 0x8000_0000u32, (0x8000_0000 + acc) as u32, 1u32, idx];
    a_secp256k1_run_stands(run, seed, acc, idx, wanted);
    if run.replies.len() > 0 {
        a_secp256k1_run_stands(run.before(), seed, acc, idx, wanted);
    }
}

/// What is known where a run stands that shows the addresses of a key.
spec fn addresses_stand(key: Seq<char>, step: Step<Model>) -> bool {
    let wanted = AfterRead::<Model>::Addresses { name: key };
    match step.state {
        State::Open { after, .. } => {
            &&& after matches AfterOpen::Read { after: reads, .. }
            &&& reads == wanted
            &&& !(step.request is Print)
        },
        State::Read { after, stage, .. } => {
            &&& after == wanted
            &&& stage is Inspect ==> step.request is InspectKey
            &&& !(step.request is Print)
        },
        State::Closing => true,
        State::Done => !(step.request is Print),
        _ => false,
    }
}

/// A run that shows the addresses of a key reads that key.
proof fn an_address_run_stands(run: Run, key: String)
    requires
        run.command == Some(Commands::Secp256k1Address { key }),
        run.settings.kek.len() > 0,
    ensures
        addresses_stand(key@, run.step()),
    decreases run.replies.len(),
{
    if run.replies.len() > 0 {
        an_address_run_stands(run.before(), key);
    }
}

/// In every run that has a key encryption key, what is printed are the three addresses of the
/// secret that was just answered, on the network of the settings.
pub proof fn every_address_is_of_the_secret(run: Run, key: String, text: Seq<char>)
    requires
        run.command == Some(Commands::Secp256k1Address { key }),
        run.settings.kek.len() > 0,
        run.step().request == (Request::<Model>::Print { text }),
    ensures
        run.replies.len() > 0,
        run.before().step().request is InspectKey,
        match run.replies.last() {
            Reply::Facts(facts) => facts.secp256k1 && match facts.secret {
                Ok(secret) => {
                    &&& valid_secret_key(secret)
                    &&& text == "p2tr address: "@ + p2tr_address(secret, run.settings.network) + (
                    "\np2pkh address: "@ + p2pkh_address(
                        secp256k1_public_key(secret),
                        run.settings.network,
                    )) + ("\np2wpkh address: "@ + p2wpkh_address(
                        secp256k1_public_key(secret),
                        run.settings.network,
                    ))
                },
                Err(_) => false,
            },
            _ => false,
        },
{
    an_address_run_stands(run, key);
    if run.replies.len() > 0 {
        an_address_run_stands(run.before(), key);
    }
}

/// Whether two scripts are what was answered for a secret.
pub open spec fn scripts_of(run: Run, secret: Seq<u8>, p2wpkh: Seq<u8>, p2tr: Seq<u8>) -> bool {
    run.exchanged(Request::ScriptPubkeys { secret }, Reply::Scripts { p2wpkh, p2tr })
}

/// The first output that can be spent is the first one that pays.
proof fn the_first_that_can_be_spent_pays_first(
    outputs: Seq<TxOutput<Seq<u8>>>,
    more_than: Option<u64>,
    p2wpkh: Seq<u8>,
    p2tr: Seq<u8>,
)
    ensures
        first_spendable(outputs, more_than, p2wpkh, p2tr, 0) matches Some(i) ==> pays_first(
            outputs,
            i,
            p2wpkh,
            p2tr,
            more_than,
        ),
{
    first_spendable_is_first(outputs, more_than, p2wpkh, p2tr, 0);
}

/// Whether a payment is what a command asks for.
spec fn pays_as_asked(payment: Payment<Model>, txid: Seq<char>, amount: u64, fee: u64) -> bool {
    &&& payment.txid == hex_bytes(txid).reverse()
    &&& payment.amount == amount
    &&& payment.fee == fee
}

/// What is known where a run stands that sends satoshis.
spec fn sending_stands(
    run: Run,
    txid: Seq<char>,
    amount: u64,
    fee: u64,
    step: Step<Model>,
) -> bool {
    match step.state {
        State::Done => !(step.request is SendSats),
        State::Closing => !(step.request is SendSats),
        State::Refused => !(step.request is SendSats),
        State::Open { after, .. } => {
            &&& after matches AfterOpen::Read { after: AfterRead::Send { payment, .. }, .. }
            &&& pays_as_asked(payment, txid, amount, fee)
            &&& !(step.request is SendSats)
        },
        State::Read { after, .. } => {
            &&& after matches AfterRead::Send { payment, .. }
            &&& pays_as_asked(payment, txid, amount, fee)
            &&& !(step.request is SendSats)
        },
        State::Node { after, .. } => {
            &&& after matches AfterNode::Send { secret, payment, p2wpkh, p2tr }
            &&& pays_as_asked(payment, txid, amount, fee)
            &&& scripts_of(run, secret, p2wpkh, p2tr)
            &&& !(step.request is SendSats)
        },
        State::Send(stage) => match stage {
            SendStage::Network { txid: t, amount: a, fee: f, .. } => {
                &&& t == txid
                &&& a == amount
                &&& f == fee
                &&& !(step.request is SendSats)
            },
            SendStage::Scripts { secret, payment } => {
                &&& pays_as_asked(payment, txid, amount, fee)
                &&& step.request == (Request::<Model>::ScriptPubkeys { secret })
            },
            SendStage::Outputs { secret, payment, p2wpkh, p2tr } => {
                &&& pays_as_asked(payment, txid, amount, fee)
                &&& scripts_of(run, secret, p2wpkh, p2tr)
                &&& step.request == (Request::<Model>::FetchTransaction { txid: payment.txid })
            },
            SendStage::Sent => true,
        },
        _ => false,
    }
}

/// A run that sends satoshis keeps to what was asked for.
proof fn a_sending_run_stands(
    run: Run,
    txid: String,
    addr: String,
    to: String,
    amount: u64,
    fee: u64,
)
    requires
        run.command == Some(Commands::SendSats { txid, addr, to, amount, fee }),
    ensures
        sending_stands(run, txid@, amount, fee, run.step()),
    decreases run.replies.len(),
{
    if run.replies.len() > 0 {
        let before = run.before();
        a_sending_run_stands(before, txid, addr, to, amount, fee);
        exchanges_are_kept(run);
        the_last_exchange(run);
        let step = before.step();
        assert(next(run.settings, step.state, run.replies.last()) == run.step());
        assert(sending_stands(run, txid@, amount, fee, step));
    }
}

/// Satoshis are sent once the outputs of the transaction are answered.
proof fn satoshis_follow_outputs(
    run: Run,
    before: Run,
    txid: Seq<char>,
    amount: u64,
    fee: u64,
    step: Step<Model>,
    reply: Reply<Model>,
)
    requires
        sending_stands(before, txid, amount, fee, step),
        next(run.settings, step.state, reply).request is SendSats,
    ensures
        step.state matches State::Send(stage) && stage is Outputs,
        reply is Outputs,
{
}

/// In every run, satoshis are sent from the first output of the transaction that pays, to one of
/// the two scripts that were answered for the secret, more than is sent. The law gives the scripts,
/// and where the output stands.
pub proof fn every_payment_is_from_the_first_paying_output(
    run: Run,
    c: Sending,
    fee_rate: u64,
    secret: Seq<u8>,
    unspent: UnspentTxOut<Model>,
    to: Seq<char>,
    amount: u64,
) -> (w: (Seq<u8>, Seq<u8>, int))
    requires
        sends(run, c),
        run.step().request == (Request::<Model>::SendSats {
            fee_rate,
            secret,
            unspent,
            to,
            amount,
        }),
    ensures
        fee_rate == c.fee,
        amount == c.amount,
        run.replies.len() > 0,
        run.before().step().request == (Request::<Model>::FetchTransaction {
            txid: hex_bytes(c.txid@).reverse(),
        }),
        run.replies.last() is Outputs,
        scripts_of(run, secret, w.0, w.1),
        pays_first(run.replies.last()->Outputs_0, w.2, w.0, w.1, Some(c.amount)),
        unspent == (UnspentTxOut::<Model> {
            txid: hex_bytes(c.txid@).reverse(),
            vout: w.2 as u32,
            amount: run.replies.last()->Outputs_0[w.2].value,
            script_pubkey: run.replies.last()->Outputs_0[w.2].script_pubkey,
        }),
{
    let before = run.before();
    let step = before.step();
    let reply = run.replies.last();
    a_sending_run_stands(before, c.txid, c.addr, c.to, c.amount, c.fee);
    exchanges_are_kept(run);
    satoshis_follow_outputs(run, before, c.txid@, c.amount, c.fee, step, reply);
    match step.state {
        State::Send(SendStage::Outputs { secret: s, payment, p2wpkh, p2tr }) => {
            let outputs = reply->Outputs_0;
            the_first_that_can_be_spent_pays_first(outputs, Some(c.amount), p2wpkh, p2tr);
            assert(before.exchanged(
                Request::ScriptPubkeys { secret: s },
                Reply::Scripts { p2wpkh, p2tr },
            ));
            (p2wpkh, p2tr, first_spendable(outputs, Some(c.amount), p2wpkh, p2tr, 0)->0)
        },
        _ => (seq![], seq![], 0),
    }
}

/// What is known where a run stands that inscribes names.
spec fn inscribing_stands(
    run: Run,
    funding: Funding<Model>,
    fee: u64,
    step: Step<Model>,
) -> bool {
    let idle = !(step.request is Inscribe);
    match step.state {
        State::Done => idle,
        State::Closing => idle,
        State::Refused => idle,
        State::Open { after, .. } => {
            &&& after matches AfterOpen::Read { after: AfterRead::Author { job }, .. }
            &&& job.funding == Some(funding)
            &&& job.fee == fee
            &&& idle
        },
        State::Read { after, .. } => match after {
            AfterRead::Author { job } => job.funding == Some(funding) && job.fee == fee && idle,
            AfterRead::Payer { funding: f, fee: rate, .. } => f == funding && rate == fee && idle,
            _ => false,
        },
        State::Node { after, .. } => {
            &&& after matches AfterNode::Inscribe {
                secret,
                fee: rate,
                funding: f,
                p2wpkh,
                p2tr,
                ..
            }
            &&& f == funding
            &&& rate == fee
            &&& scripts_of(run, secret, p2wpkh, p2tr)
            &&& idle
        },
        State::Register(stage) => match stage {
            RegisterStage::Network { job } => job.funding == Some(funding) && job.fee == fee
                && idle,
            RegisterStage::Check { job, .. } => job.funding == Some(funding) && job.fee == fee
                && idle,
            RegisterStage::PublicKey { job, .. } => job.funding == Some(funding) && job.fee == fee
                && idle,
            RegisterStage::Sign { job, .. } => job.funding == Some(funding) && job.fee == fee
                && idle,
            RegisterStage::Validate { job, .. } => job.funding == Some(funding) && job.fee == fee
                && idle,
            RegisterStage::Scripts { secret, fee: rate, funding: f, .. } => {
                &&& f == funding
                &&& rate == fee
                &&& step.request == (Request::<Model>::ScriptPubkeys { secret })
            },
            RegisterStage::Outputs { secret, fee: rate, txid, p2wpkh, p2tr, .. } => {
                &&& rate == fee
                &&& funding.txout_json.len() == 0
                &&& funding.txid.len() > 0
                &&& txid == hex_bytes(funding.txid).reverse()
                &&& scripts_of(run, secret, p2wpkh, p2tr)
                &&& step.request == (Request::<Model>::FetchTransaction { txid })
            },
            RegisterStage::TxOut { fee: rate, .. } => {
                &&& rate == fee
                &&& funding.txout_json.len() > 0 || funding.txid.len() == 0
                &&& step.request == (Request::<Model>::ReadTxOut { json: funding.txout_json })
            },
            RegisterStage::Sent => true,
            _ => false,
        },
        _ => false,
    }
}

/// A run that inscribes names keeps to what pays for them.
proof fn an_inscribing_run_stands(
    run: Run,
    txid: String,
    txout_json: String,
    addr: String,
    fee: u64,
    key: String,
    names: String,
)
    requires
        run.command == Some(Commands::Inscribe { txid, txout_json, addr, fee, key, names }),
    ensures
        inscribing_stands(
            run,
            Funding { txid: txid@, txout_json: txout_json@, addr: addr@ },
            fee,
            run.step(),
        ),
    decreases run.replies.len(),
{
    if run.replies.len() > 0 {
        let before = run.before();
        let funding = Funding::<Model> { txid: txid@, txout_json: txout_json@, addr: addr@ };
        an_inscribing_run_stands(before, txid, txout_json, addr, fee, key, names);
        exchanges_are_kept(run);
        the_last_exchange(run);
        let step = before.step();
        assert(next(run.settings, step.state, run.replies.last()) == run.step());
        assert(inscribing_stands(run, funding, fee, step));
    }
}

/// Names are inscribed once an output, or the outputs of the transaction, are answered.
proof fn inscriptions_follow_outputs(
    run: Run,
    before: Run,
    funding: Funding<Model>,
    fee: u64,
    step: Step<Model>,
    reply: Reply<Model>,
)
    requires
        inscribing_stands(before, funding, fee, step),
        next(run.settings, step.state, reply).request is Inscribe,
    ensures
        step.state matches State::Register(stage) && (stage is Outputs && reply is Outputs || stage
            is TxOut && reply is Unspent),
{
}

/// In every run where an output is given, or no transaction, names are inscribed with the output
/// that was just read.
pub proof fn every_inscription_is_paid_with_the_output(
    run: Run,
    c: Inscribing,
    names: Seq<Name<Seq<char>, Seq<Seq<u8>>, Seq<Seq<char>>>>,
    fee_rate: u64,
    secret: Seq<u8>,
    unspent: UnspentTxOut<Model>,
)
    requires
        inscribes(run, c),
        c.txout_json@.len() > 0 || c.txid@.len() == 0,
        run.step().request == (Request::<Model>::Inscribe { names, fee_rate, secret, unspent }),
    ensures
        fee_rate == c.fee,
        run.replies.len() > 0,
        run.before().step().request == (Request::<Model>::ReadTxOut { json: c.txout_json@ }),
        run.replies.last() == Reply::<Model>::Unspent(unspent),
{
    let before = run.before();
    let step = before.step();
    let reply = run.replies.last();
    let funding = Funding::<Model> { txid: c.txid@, txout_json: c.txout_json@, addr: c.addr@ };
    an_inscribing_run_stands(before, c.txid, c.txout_json, c.addr, c.fee, c.key, c.names);
    inscriptions_follow_outputs(run, before, funding, c.fee, step, reply);
}

/// In every run where a transaction is given alone, names are inscribed with its first output that
/// pays to one of the two scripts that were answered for the secret. The law gives the scripts, and
/// where the output stands.
pub proof fn every_inscription_is_paid_from_the_first_paying_output(
    run: Run,
    c: Inscribing,
    names: Seq<Name<Seq<char>, Seq<Seq<u8>>, Seq<Seq<char>>>>,
    fee_rate: u64,
    secret: Seq<u8>,
    unspent: UnspentTxOut<Model>,
) -> (w: (Seq<u8>, Seq<u8>, int))
    requires
        inscribes(run, c),
        c.txout_json@.len() == 0,
        c.txid@.len() > 0,
        run.step().request == (Request::<Model>::Inscribe { names, fee_rate, secret, unspent }),
    ensures
        fee_rate == c.fee,
        run.replies.len() > 0,
        run.before().step().request == (Request::<Model>::FetchTransaction {
            txid: hex_bytes(c.txid@).reverse(),
        }),
        run.replies.last() is Outputs,
        scripts_of(run, secret, w.0, w.1),
        pays_first(run.replies.last()->Outputs_0, w.2, w.0, w.1, None),
        unspent == (UnspentTxOut::<Model> {
            txid: hex_bytes(c.txid@).reverse(),
            vout: w.2 as u32,
            amount: run.replies.last()->Outputs_0[w.2].value,
            script_pubkey: run.replies.last()->Outputs_0[w.2].script_pubkey,
        }),
{
    let before = run.before();
    let step = before.step();
    let reply = run.replies.last();
    let funding = Funding::<Model> { txid: c.txid@, txout_json: c.txout_json@, addr: c.addr@ };
    an_inscribing_run_stands(before, c.txid, c.txout_json, c.addr, c.fee, c.key, c.names);
    exchanges_are_kept(run);
    inscriptions_follow_outputs(run, before, funding, c.fee, step, reply);
    match step.state {
        State::Register(RegisterStage::Outputs { secret: s, p2wpkh, p2tr, .. }) => {
            let outputs = reply->Outputs_0;
            let least: Option<u64> = None;
            the_first_that_can_be_spent_pays_first(outputs, least, p2wpkh, p2tr);
            assert(before.exchanged(
                Request::ScriptPubkeys { secret: s },
                Reply::Scripts { p2wpkh, p2tr },
            ));
            (p2wpkh, p2tr, first_spendable(outputs, least, p2wpkh, p2tr, 0)->0)
        },
        _ => (seq![], seq![], 0),
    }
}

} // verus!
