//! Choosing an output to spend, and sending satoshis.

use vstd::prelude::*;

use crate::chain::{
    Network, check_address, checked_address, is_txid, network_name, network_text, parse_txid,
    public_key_of, secret_key_error, txid_error, valid_secret_key,
};
use crate::form::{
    Concrete, KeyFacts, Model, TxOutput, UnspentTxOut, copy_bytes, output_model, output_models,
};
use crate::hexadecimal::hex_bytes;
use crate::keystore::{key_file, key_file_name, opening};
use crate::node::{connecting, get_inscriber};
use crate::state::{
    AfterNode, AfterOpen, AfterRead, KekEncryptor, Payment, SendStage, Settings, State, Step, close,
    closing, fail, fail_outside, failed, failed_outside, misreplied, misreply,
};
use crate::text::join2;
use crate::wire::{Failure, Reply, Request};

verus! {

/// Whether an output can be spent: it pays to one of two scripts, and more than a least amount
/// where there is one.
pub open spec fn spendable(
    output: TxOutput<Seq<u8>>,
    least: Option<u64>,
    p2wpkh: Seq<u8>,
    p2tr: Seq<u8>,
) -> bool {
    &&& least matches Some(least) ==> output.value > least
    &&& output.script_pubkey == p2wpkh || output.script_pubkey == p2tr
}

/// Where the first output stands that can be spent, at or behind an index.
pub open spec fn first_spendable(
    outputs: Seq<TxOutput<Seq<u8>>>,
    least: Option<u64>,
    p2wpkh: Seq<u8>,
    p2tr: Seq<u8>,
    from: int,
) -> Option<int>
    decreases outputs.len() - from,
{
    if from >= outputs.len() {
        None
    } else if spendable(outputs[from], least, p2wpkh, p2tr) {
        Some(from)
    } else {
        first_spendable(outputs, least, p2wpkh, p2tr, from + 1)
    }
}

/// The first output of a transaction that can be spent.
pub open spec fn chosen_output(
    txid: Seq<u8>,
    outputs: Seq<TxOutput<Seq<u8>>>,
    least: Option<u64>,
    p2wpkh: Seq<u8>,
    p2tr: Seq<u8>,
) -> Option<UnspentTxOut<Model>> {
    match first_spendable(outputs, least, p2wpkh, p2tr, 0) {
        Some(i) => Some(
            UnspentTxOut {
                txid,
                vout: i as u32,
                amount: outputs[i].value,
                script_pubkey: outputs[i].script_pubkey,
            },
        ),
        None => None,
    }
}

/// The first output that can be spent can be spent, and none before it; where there is none, none
/// can be spent.
pub proof fn first_spendable_is_first(
    outputs: Seq<TxOutput<Seq<u8>>>,
    least: Option<u64>,
    p2wpkh: Seq<u8>,
    p2tr: Seq<u8>,
    from: int,
)
    requires
        0 <= from,
    ensures
        match first_spendable(outputs, least, p2wpkh, p2tr, from) {
            Some(i) => {
                &&& from <= i < outputs.len()
                &&& spendable(outputs[i], least, p2wpkh, p2tr)
                &&& forall|j: int|
                    from <= j < i ==> !spendable(#[trigger] outputs[j], least, p2wpkh, p2tr)
            },
            None => forall|j: int|
                from <= j < outputs.len() ==> !spendable(
                    #[trigger] outputs[j],
                    least,
                    p2wpkh,
                    p2tr,
                ),
        },
    decreases outputs.len() - from,
{
    if from < outputs.len() && !spendable(outputs[from], least, p2wpkh, p2tr) {
        first_spendable_is_first(outputs, least, p2wpkh, p2tr, from + 1);
    }
}

/// Whether two byte strings are the same.
fn same_bytes(a: &Vec<u8>, b: &Vec<u8>) -> (r: bool)
    ensures
        r == (a@ == b@),
{
    if a.len() != b.len() {
        return false;
    }
    let mut i: usize = 0;
    while i < a.len()
        invariant
            i <= a.len(),
            a.len() == b.len(),
            forall|j: int| 0 <= j < i ==> a@[j] == b@[j],
        decreases a.len() - i,
    {
        if a[i] != b[i] {
            return false;
        }
        i = i + 1;
    }
    assert(a@ =~= b@);
    true
}

/// Chooses the first output of a transaction that can be spent.
pub fn choose_output(
    txid: Vec<u8>,
    outputs: &Vec<TxOutput<Vec<u8>>>,
    least: Option<u64>,
    p2wpkh: &Vec<u8>,
    p2tr: &Vec<u8>,
) -> (r: Option<UnspentTxOut<Concrete>>)
    ensures
        match r {
            Some(unspent) => chosen_output(
                txid@,
                output_models(outputs@),
                least,
                p2wpkh@,
                p2tr@,
            ) == Some(unspent@),
            None => chosen_output(txid@, output_models(outputs@), least, p2wpkh@, p2tr@) is None,
        },
        match r {
            Some(unspent) => unspent.txid@ == txid@ && exists|i: int|
                {
                    &&& 0 <= i < outputs@.len()
                    &&& unspent.vout == i as u32
                    &&& unspent.amount == (#[trigger] outputs@[i]).value
                    &&& unspent.script_pubkey@ == outputs@[i].script_pubkey@
                    &&& unspent.script_pubkey@ == p2wpkh@ || unspent.script_pubkey@ == p2tr@
                    &&& least matches Some(least) ==> unspent.amount > least
                    &&& forall|j: int|
                        0 <= j < i ==> {
                            ||| least matches Some(least) && (#[trigger] outputs@[j]).value <= least
                            ||| outputs@[j].script_pubkey@ != p2wpkh@
                                && outputs@[j].script_pubkey@ != p2tr@
                        }
                },
            None => forall|j: int|
                0 <= j < outputs@.len() ==> {
                    ||| least matches Some(least) && (#[trigger] outputs@[j]).value <= least
                    ||| outputs@[j].script_pubkey@ != p2wpkh@ && outputs@[j].script_pubkey@
                        != p2tr@
                },
        },
{
    let ghost models = output_models(outputs@);
    let mut i: usize = 0;
    while i < outputs.len()
        invariant
            i <= outputs.len(),
            models == output_models(outputs@),
            first_spendable(models, least, p2wpkh@, p2tr@, 0) == first_spendable(
                models,
                least,
                p2wpkh@,
                p2tr@,
                i as int,
            ),
            forall|j: int|
                0 <= j < i ==> {
                    ||| least matches Some(least) && (#[trigger] outputs@[j]).value <= least
                    ||| outputs@[j].script_pubkey@ != p2wpkh@ && outputs@[j].script_pubkey@
                        != p2tr@
                },
        decreases outputs.len() - i,
    {
        let output: &TxOutput<Vec<u8>> = &outputs[i];
        assert(models[i as int] == output_model(*output));
        let enough: bool = match least {
            Some(least) => output.value > least,
            None => true,
        };
        if enough && (same_bytes(&output.script_pubkey, p2wpkh) || same_bytes(
            &output.script_pubkey,
            p2tr,
        )) {
            return Some(
                UnspentTxOut {
                    txid,
                    vout: #[verifier::truncate]
                    (i as u32),
                    amount: output.value,
                    script_pubkey: copy_bytes(&output.script_pubkey),
                },
            );
        }
        i = i + 1;
    }
    None
}

/// The line that shows the network.
pub open spec fn network_line(network: Network) -> Seq<char> {
    "Bitcoin network: "@ + network_name(network)
}

/// Writes the line that shows the network.
pub fn write_network_line(network: Network) -> (r: String)
    ensures
        r@ == network_line(network),
{
    join2("Bitcoin network: ", network_text(network).as_str())
}

/// The first step of sending satoshis: the network is printed.
pub open spec fn send_begun(
    settings: Settings<Model>,
    txid: Seq<char>,
    addr: Seq<char>,
    to: Seq<char>,
    amount: u64,
    fee: u64,
) -> Step<Model> {
    Step {
        state: State::Send(SendStage::Network { txid, addr, to, amount, fee }),
        request: Request::Print { text: network_line(settings.network) },
    }
}

/// The step that follows once the key is read that sends satoshis.
pub open spec fn send_keyed(
    facts: KeyFacts<Model>,
    name: Seq<char>,
    payment: Payment<Model>,
) -> Step<Model> {
    if !facts.secp256k1 {
        failed(Failure::NotSecp256k1 { name })
    } else {
        match facts.secret {
            Ok(secret) => if valid_secret_key(secret) {
                Step {
                    state: State::Send(SendStage::Scripts { secret, payment }),
                    request: Request::ScriptPubkeys { secret },
                }
            } else {
                failed_outside(secret_key_error())
            },
            Err(message) => failed_outside(message),
        }
    }
}

/// The step that follows once the node has answered: the transaction is fetched.
pub open spec fn send_connected(
    secret: Seq<u8>,
    payment: Payment<Model>,
    p2wpkh: Seq<u8>,
    p2tr: Seq<u8>,
) -> Step<Model> {
    Step {
        state: State::Send(SendStage::Outputs { secret, payment, p2wpkh, p2tr }),
        request: Request::FetchTransaction { txid: payment.txid },
    }
}

/// The next step of sending satoshis: the first output is spent that pays to the key, and more
/// than is sent.
pub open spec fn send_next(
    settings: Settings<Model>,
    stage: SendStage<Model>,
    reply: Reply<Model>,
) -> Step<Model> {
    match (stage, reply) {
        (SendStage::Network { txid, addr, to, amount, fee }, Reply::Done) => if !is_txid(txid) {
            failed_outside(txid_error(txid))
        } else {
            match checked_address(to, settings.network) {
                Ok(to) => opening(
                    settings,
                    AfterOpen::Read {
                        file: key_file(addr),
                        after: AfterRead::Send {
                            name: addr,
                            payment: Payment { txid: hex_bytes(txid).reverse(), to, amount, fee },
                        },
                    },
                ),
                Err(message) => failed_outside(message),
            }
        },
        (SendStage::Scripts { secret, payment }, Reply::Scripts { p2wpkh, p2tr }) => connecting(
            settings,
            AfterNode::Send { secret, payment, p2wpkh, p2tr },
        ),
        (SendStage::Outputs { secret, payment, p2wpkh, p2tr }, Reply::Outputs(outputs)) =>
            match chosen_output(payment.txid, outputs, Some(payment.amount), p2wpkh, p2tr) {
            Some(unspent) => Step {
                state: State::Send(SendStage::Sent),
                request: Request::SendSats {
                    fee_rate: payment.fee,
                    secret,
                    unspent,
                    to: payment.to,
                    amount: payment.amount,
                },
            },
            None => failed(Failure::NoMatchedOutput),
        },
        (SendStage::Sent, Reply::Text(txid)) => closing("txid: "@ + txid),
        _ => misreplied(),
    }
}

/// Satoshis are sent exactly where an output of the transaction pays to the key, and more than is
/// sent. They come from the first such output.
pub proof fn satoshis_come_from_the_first_match(
    settings: Settings<Model>,
    secret: Seq<u8>,
    payment: Payment<Model>,
    p2wpkh: Seq<u8>,
    p2tr: Seq<u8>,
    outputs: Seq<TxOutput<Seq<u8>>>,
)
    requires
        outputs.len() <= u32::MAX,
    ensures
        ({
            let step = send_next(
                settings,
                SendStage::Outputs { secret, payment, p2wpkh, p2tr },
                Reply::Outputs(outputs),
            );
            let least = Some(payment.amount);
            match step.request {
                Request::SendSats { fee_rate, secret: signer, unspent, to, amount } => {
                    let i = unspent.vout as int;
                    &&& i < outputs.len()
                    &&& spendable(outputs[i], least, p2wpkh, p2tr)
                    &&& forall|j: int|
                        0 <= j < i ==> !spendable(#[trigger] outputs[j], least, p2wpkh, p2tr)
                    &&& unspent.txid == payment.txid
                    &&& unspent.amount == outputs[i].value
                    &&& unspent.script_pubkey == outputs[i].script_pubkey
                    &&& signer == secret && to == payment.to && amount == payment.amount && fee_rate
                        == payment.fee
                    &&& amount < unspent.amount
                },
                _ => {
                    &&& step == failed(Failure::NoMatchedOutput)
                    &&& forall|j: int|
                        0 <= j < outputs.len() ==> !spendable(
                            #[trigger] outputs[j],
                            least,
                            p2wpkh,
                            p2tr,
                        )
                },
            }
        }),
{
    first_spendable_is_first(outputs, Some(payment.amount), p2wpkh, p2tr, 0);
}

/// Begins to send satoshis.
pub(crate) fn begin_send(
    settings: &Settings<Concrete>,
    txid: String,
    addr: String,
    to: String,
    amount: u64,
    fee: u64,
) -> (r: Step<Concrete>)
    ensures
        r@ == send_begun(settings@, txid@, addr@, to@, amount, fee),
{
    Step {
        state: State::Send(SendStage::Network { txid, addr, to, amount, fee }),
        request: Request::Print { text: write_network_line(settings.network) },
    }
}

/// Goes on once the key is read that sends satoshis.
pub(crate) fn send_with_key(
    facts: KeyFacts<Concrete>,
    name: String,
    payment: Payment<Concrete>,
) -> (r: Step<Concrete>)
    ensures
        r@ == send_keyed(facts@, name@, payment@),
{
    if !facts.secp256k1 {
        fail(Failure::NotSecp256k1 { name })
    } else {
        match facts.secret {
            Ok(secret) => match public_key_of(secret.as_slice()) {
                Ok(_) => {
                    let shown: Vec<u8> = copy_bytes(&secret);
                    Step {
                        state: State::Send(SendStage::Scripts { secret, payment }),
                        request: Request::ScriptPubkeys { secret: shown },
                    }
                },
                Err(message) => fail_outside(message),
            },
            Err(message) => fail_outside(message),
        }
    }
}

/// Goes on once the node has answered.
pub(crate) fn send_from_node(
    secret: Vec<u8>,
    payment: Payment<Concrete>,
    p2wpkh: Vec<u8>,
    p2tr: Vec<u8>,
) -> (r: Step<Concrete>)
    ensures
        r@ == send_connected(secret@, payment@, p2wpkh@, p2tr@),
{
    let txid: Vec<u8> = copy_bytes(&payment.txid);
    Step {
        state: State::Send(SendStage::Outputs { secret, payment, p2wpkh, p2tr }),
        request: Request::FetchTransaction { txid },
    }
}

/// Goes on with sending satoshis.
pub(crate) fn send_step(
    settings: &Settings<Concrete>,
    stage: SendStage<Concrete>,
    reply: Reply<Concrete>,
) -> (r: Step<Concrete>)
    ensures
        r@ == send_next(settings@, stage@, reply@),
{
    match (stage, reply) {
        (SendStage::Network { txid, addr, to, amount, fee }, Reply::Done) => {
            match parse_txid(txid.as_str()) {
                Ok(txid) => match check_address(to.as_str(), settings.network) {
                    Ok(to) => {
                        let file: String = key_file_name(addr.as_str());
                        let payment: Payment<Concrete> = Payment { txid, to, amount, fee };
                        KekEncryptor::open(
                            settings,
                            AfterOpen::Read {
                                file,
                                after: AfterRead::Send { name: addr, payment },
                            },
                        )
                    },
                    Err(message) => fail_outside(message),
                },
                Err(message) => fail_outside(message),
            }
        },
        (SendStage::Scripts { secret, payment }, Reply::Scripts { p2wpkh, p2tr }) => get_inscriber(
            settings,
            AfterNode::Send { secret, payment, p2wpkh, p2tr },
        ),
        (SendStage::Outputs { secret, payment, p2wpkh, p2tr }, Reply::Outputs(outputs)) => {
            match choose_output(payment.txid, &outputs, Some(payment.amount), &p2wpkh, &p2tr) {
                Some(unspent) => Step {
                    state: State::Send(SendStage::Sent),
                    request: Request::SendSats {
                        fee_rate: payment.fee,
                        secret,
                        unspent,
                        to: payment.to,
                        amount: payment.amount,
                    },
                },
                None => fail(Failure::NoMatchedOutput),
            }
        },
        (SendStage::Sent, Reply::Text(txid)) => close(join2("txid: ", txid.as_str())),
        _ => misreply(),
    }
}

} // verus!
