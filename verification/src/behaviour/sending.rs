//! Sending satoshis.

use vstd::prelude::*;

use crate::behaviour::addresses::secp256k1_refusal;
use crate::behaviour::keeping::{
    Opening, Reading, a_run_with_a_key_does, encryptor_of, opening_replies, opening_requests, opens,
    reading_replies, reading_requests, reads,
};
use crate::behaviour::steps::{does, goes, over, run_does};
use crate::chain::{
    Network, address_on_network, address_refusal, txid_error, valid_secret_key,
};
use crate::cli::Commands;
use crate::form::{Model, TxOutput, UnspentTxOut};
use crate::hexadecimal::{hex_bytes, is_hex};
use crate::keystore::opening;
use crate::run::Run;
use crate::session::{obtained, started};
use crate::spending::{chosen_output, first_spendable, first_spendable_is_first};
use crate::state::{AfterOpen, AfterRead, KekEncryptor, Payment, Settings};
use crate::wire::{Defect, Failure, Outcome, Reply, Request, RpcOptions};

verus! {

/// The line that shows the network.
pub open spec fn network_shown(network: Network) -> Request<Model> {
    Request::Print {
        text: "Bitcoin network: "@ + match network {
            Network::Bitcoin => "bitcoin"@,
            Network::Testnet => "testnet"@,
            Network::Signet => "signet"@,
            Network::Regtest => "regtest"@,
        },
    }
}

/// What is asked for to enter the node: its client is made with what the settings say, and it is
/// pinged.
pub open spec fn node_requests(settings: Settings<Model>, url: Seq<char>) -> Seq<Request<Model>> {
    seq![
        Request::Connect {
            options: RpcOptions {
                rpcurl: url,
                rpcuser: settings.rpc_user,
                rpcpassword: settings.rpc_password,
                rpctoken: settings.rpc_token,
                network: settings.network,
            },
        },
        Request::Ping,
    ]
}

/// Whether an output pays to one of two scripts, and more than an amount where there is one.
pub open spec fn pays(
    output: TxOutput<Seq<u8>>,
    p2wpkh: Seq<u8>,
    p2tr: Seq<u8>,
    more_than: Option<u64>,
) -> bool {
    (output.script_pubkey == p2wpkh || output.script_pubkey == p2tr) && match more_than {
        Some(amount) => output.value > amount,
        None => true,
    }
}

/// Whether the output at an index pays to one of two scripts, and more than an amount where there
/// is one, and no output before it does.
pub open spec fn pays_first(
    outputs: Seq<TxOutput<Seq<u8>>>,
    i: int,
    p2wpkh: Seq<u8>,
    p2tr: Seq<u8>,
    more_than: Option<u64>,
) -> bool {
    &&& 0 <= i < outputs.len()
    &&& pays(outputs[i], p2wpkh, p2tr, more_than)
    &&& forall|j: int| 0 <= j < i ==> !pays(#[trigger] outputs[j], p2wpkh, p2tr, more_than)
}

/// Whether no output pays to one of two scripts, and more than an amount where there is one.
pub open spec fn none_pays(
    outputs: Seq<TxOutput<Seq<u8>>>,
    p2wpkh: Seq<u8>,
    p2tr: Seq<u8>,
    more_than: Option<u64>,
) -> bool {
    forall|j: int|
        0 <= j < outputs.len() ==> !pays(#[trigger] outputs[j], p2wpkh, p2tr, more_than)
}

/// The output that is chosen is the first one that pays to one of the two scripts, and more than
/// the amount where there is one; where none does, none is chosen.
pub proof fn the_first_paying_output_is_chosen(
    txid: Seq<u8>,
    outputs: Seq<TxOutput<Seq<u8>>>,
    p2wpkh: Seq<u8>,
    p2tr: Seq<u8>,
    more_than: Option<u64>,
    i: int,
)
    ensures
        pays_first(outputs, i, p2wpkh, p2tr, more_than) ==> chosen_output(
            txid,
            outputs,
            more_than,
            p2wpkh,
            p2tr,
        ) == Some(
            UnspentTxOut::<Model> {
                txid,
                vout: i as u32,
                amount: outputs[i].value,
                script_pubkey: outputs[i].script_pubkey,
            },
        ),
        none_pays(outputs, p2wpkh, p2tr, more_than) ==> chosen_output(
            txid,
            outputs,
            more_than,
            p2wpkh,
            p2tr,
        ) is None,
{
    first_spendable_is_first(outputs, more_than, p2wpkh, p2tr, 0);
    let first = first_spendable(outputs, more_than, p2wpkh, p2tr, 0);
    if pays_first(outputs, i, p2wpkh, p2tr, more_than) {
        match first {
            Some(k) => {
                if k < i {
                    assert(!pays(outputs[k], p2wpkh, p2tr, more_than));
                }
                assert(k == i);
            },
            None => {
                assert(false);
            },
        }
    }
    if none_pays(outputs, p2wpkh, p2tr, more_than) {
        if let Some(k) = first {
            assert(!pays(outputs[k], p2wpkh, p2tr, more_than));
        }
    }
}

/// The command to send satoshis.
pub struct Sending {
    /// The transaction to spend.
    pub txid: String,
    /// The address whose key spends it.
    pub addr: String,
    /// Who receives them.
    pub to: String,
    /// How many.
    pub amount: u64,
    /// The fee rate.
    pub fee: u64,
}

/// Whether a run sends satoshis.
pub open spec fn sends(run: Run, c: Sending) -> bool {
    run.command == Some(
        Commands::SendSats { txid: c.txid, addr: c.addr, to: c.to, amount: c.amount, fee: c.fee },
    )
}

/// Whether the transaction and the address of a payment can be read: 64 hexadecimal digits, and an
/// address of the network.
pub open spec fn can_be_sent(settings: Settings<Model>, c: Sending, address: Seq<char>) -> bool {
    &&& c.txid@.len() == 64
    &&& is_hex(c.txid@)
    &&& address_refusal(c.to@) is None
    &&& address_on_network(c.to@, settings.network) == Ok::<Seq<char>, Seq<Seq<char>>>(address)
}

/// What follows the reading of the key.
spec fn after_sending(c: Sending, address: Seq<char>) -> AfterRead<Model> {
    AfterRead::Send {
        name: c.addr@,
        payment: Payment {
            txid: hex_bytes(c.txid@).reverse(),
            to: address,
            amount: c.amount,
            fee: c.fee,
        },
    }
}

/// A payment that can be sent goes on to the key.
proof fn a_payment_begins(run: Run, c: Sending, address: Seq<char>)
    requires
        sends(run, c),
        can_be_sent(run.settings, c, address),
    ensures
        goes(
            run.settings,
            started(run.settings, run.command),
            seq![Reply::<Model>::Done],
            seq![network_shown(run.settings.network)],
            opening(
                run.settings,
                AfterOpen::Read {
                    file: c.addr@ + ".cose.key"@,
                    after: after_sending(c, address),
                },
            ),
        ),
{
    reveal_with_fuel(goes, 2);
}

/// Satoshis are sent from the first output of the transaction that pays to the key, and more than
/// is sent, with the secret of that key, to the address that was asked for.
pub proof fn satoshis_are_sent(
    run: Run,
    c: Sending,
    address: Seq<char>,
    url: Seq<char>,
    o: Opening,
    r: Reading,
    secret: Seq<u8>,
    p2wpkh: Seq<u8>,
    p2tr: Seq<u8>,
    outputs: Seq<TxOutput<Seq<u8>>>,
    i: int,
    sent: Seq<char>,
)
    requires
        sends(run, c),
        can_be_sent(run.settings, c, address),
        opens(run.settings, o),
        reads(r),
        r.facts.secp256k1,
        r.facts.secret == Ok::<Seq<u8>, Seq<Seq<char>>>(secret),
        valid_secret_key(secret),
        run.settings.rpc_url == Some(url),
        pays_first(outputs, i, p2wpkh, p2tr, Some(c.amount)),
        run.replies == seq![Reply::<Model>::Done] + (opening_replies(o) + reading_replies(r))
            + seq![
            Reply::<Model>::Scripts { p2wpkh, p2tr },
            Reply::Done,
            Reply::Done,
            Reply::Outputs(outputs),
            Reply::Text(sent),
            Reply::Done,
        ],
    ensures
        does(
            run,
            seq![network_shown(run.settings.network)] + (opening_requests(run.settings, o)
                + reading_requests(encryptor_of(o), c.addr@, r)) + (seq![
                Request::<Model>::ScriptPubkeys { secret },
            ] + node_requests(run.settings, url) + seq![
                Request::<Model>::FetchTransaction { txid: hex_bytes(c.txid@).reverse() },
                Request::SendSats {
                    fee_rate: c.fee,
                    secret,
                    unspent: UnspentTxOut {
                        txid: hex_bytes(c.txid@).reverse(),
                        vout: i as u32,
                        amount: outputs[i].value,
                        script_pubkey: outputs[i].script_pubkey,
                    },
                    to: address,
                    amount: c.amount,
                },
                Request::Print { text: "txid: "@ + sent },
            ]),
            Outcome::Success,
        ),
{
    let settings = run.settings;
    let kek = KekEncryptor::<Model> { encryptor: encryptor_of(o) };
    let after = after_sending(c, address);
    let txid = hex_bytes(c.txid@).reverse();
    let unspent = UnspentTxOut::<Model> {
        txid,
        vout: i as u32,
        amount: outputs[i].value,
        script_pubkey: outputs[i].script_pubkey,
    };
    let replies = seq![
        Reply::<Model>::Scripts { p2wpkh, p2tr },
        Reply::Done,
        Reply::Done,
        Reply::Outputs(outputs),
        Reply::Text(sent),
        Reply::Done,
    ];
    let requests = seq![Request::<Model>::ScriptPubkeys { secret }] + node_requests(settings, url)
        + seq![
        Request::<Model>::FetchTransaction { txid },
        Request::SendSats {
            fee_rate: c.fee,
            secret,
            unspent,
            to: address,
            amount: c.amount,
        },
        Request::Print { text: "txid: "@ + sent },
    ];
    a_payment_begins(run, c, address);
    the_first_paying_output_is_chosen(txid, outputs, p2wpkh, p2tr, Some(c.amount), i);
    assert(goes(
        settings,
        obtained(settings, kek, r.key, r.facts, after),
        replies,
        requests,
        over(Outcome::Success),
    )) by {
        reveal_with_fuel(goes, 7);
    }
    a_run_with_a_key_does(
        run,
        seq![Reply::<Model>::Done],
        seq![network_shown(settings.network)],
        o,
        c.addr@,
        r,
        after,
        replies,
        requests,
        Outcome::Success,
    );
}

/// Where no output of the transaction pays to the key, and more than is to be sent, nothing is
/// sent.
pub proof fn satoshis_are_not_sent_without_an_output(
    run: Run,
    c: Sending,
    address: Seq<char>,
    url: Seq<char>,
    o: Opening,
    r: Reading,
    secret: Seq<u8>,
    p2wpkh: Seq<u8>,
    p2tr: Seq<u8>,
    outputs: Seq<TxOutput<Seq<u8>>>,
)
    requires
        sends(run, c),
        can_be_sent(run.settings, c, address),
        opens(run.settings, o),
        reads(r),
        r.facts.secp256k1,
        r.facts.secret == Ok::<Seq<u8>, Seq<Seq<char>>>(secret),
        valid_secret_key(secret),
        run.settings.rpc_url == Some(url),
        none_pays(outputs, p2wpkh, p2tr, Some(c.amount)),
        run.replies == seq![Reply::<Model>::Done] + (opening_replies(o) + reading_replies(r))
            + seq![
            Reply::<Model>::Scripts { p2wpkh, p2tr },
            Reply::Done,
            Reply::Done,
            Reply::Outputs(outputs),
        ],
    ensures
        does(
            run,
            seq![network_shown(run.settings.network)] + (opening_requests(run.settings, o)
                + reading_requests(encryptor_of(o), c.addr@, r)) + (seq![
                Request::<Model>::ScriptPubkeys { secret },
            ] + node_requests(run.settings, url) + seq![
                Request::<Model>::FetchTransaction { txid: hex_bytes(c.txid@).reverse() },
            ]),
            Outcome::Failure(Failure::NoMatchedOutput),
        ),
{
    let settings = run.settings;
    let kek = KekEncryptor::<Model> { encryptor: encryptor_of(o) };
    let after = after_sending(c, address);
    let txid = hex_bytes(c.txid@).reverse();
    let outcome: Outcome<Model> = Outcome::Failure(Failure::NoMatchedOutput);
    let replies = seq![
        Reply::<Model>::Scripts { p2wpkh, p2tr },
        Reply::Done,
        Reply::Done,
        Reply::Outputs(outputs),
    ];
    let requests = seq![Request::<Model>::ScriptPubkeys { secret }] + node_requests(settings, url)
        + seq![Request::<Model>::FetchTransaction { txid }];
    a_payment_begins(run, c, address);
    the_first_paying_output_is_chosen(txid, outputs, p2wpkh, p2tr, Some(c.amount), 0);
    assert(goes(
        settings,
        obtained(settings, kek, r.key, r.facts, after),
        replies,
        requests,
        over(outcome),
    )) by {
        reveal_with_fuel(goes, 5);
    }
    a_run_with_a_key_does(
        run,
        seq![Reply::<Model>::Done],
        seq![network_shown(settings.network)],
        o,
        c.addr@,
        r,
        after,
        replies,
        requests,
        outcome,
    );
}

/// Without a node in the settings the program panics once it wants it.
pub proof fn satoshis_are_not_sent_without_a_node(
    run: Run,
    c: Sending,
    address: Seq<char>,
    o: Opening,
    r: Reading,
    secret: Seq<u8>,
    p2wpkh: Seq<u8>,
    p2tr: Seq<u8>,
)
    requires
        sends(run, c),
        can_be_sent(run.settings, c, address),
        opens(run.settings, o),
        reads(r),
        r.facts.secp256k1,
        r.facts.secret == Ok::<Seq<u8>, Seq<Seq<char>>>(secret),
        valid_secret_key(secret),
        run.settings.rpc_url is None,
        run.replies == seq![Reply::<Model>::Done] + (opening_replies(o) + reading_replies(r))
            + seq![Reply::<Model>::Scripts { p2wpkh, p2tr }],
    ensures
        does(
            run,
            seq![network_shown(run.settings.network)] + (opening_requests(run.settings, o)
                + reading_requests(encryptor_of(o), c.addr@, r)) + seq![
                Request::<Model>::ScriptPubkeys { secret },
            ],
            Outcome::Panic(Defect::RpcUrlMissing),
        ),
{
    let settings = run.settings;
    let kek = KekEncryptor::<Model> { encryptor: encryptor_of(o) };
    let after = after_sending(c, address);
    let outcome: Outcome<Model> = Outcome::Panic(Defect::RpcUrlMissing);
    let replies = seq![Reply::<Model>::Scripts { p2wpkh, p2tr }];
    let requests = seq![Request::<Model>::ScriptPubkeys { secret }];
    a_payment_begins(run, c, address);
    assert(goes(
        settings,
        obtained(settings, kek, r.key, r.facts, after),
        replies,
        requests,
        over(outcome),
    )) by {
        reveal_with_fuel(goes, 2);
    }
    a_run_with_a_key_does(
        run,
        seq![Reply::<Model>::Done],
        seq![network_shown(settings.network)],
        o,
        c.addr@,
        r,
        after,
        replies,
        requests,
        outcome,
    );
}

/// A key without a usable secp256k1 secret sends nothing.
pub proof fn satoshis_are_not_sent_with_another_key(
    run: Run,
    c: Sending,
    address: Seq<char>,
    o: Opening,
    r: Reading,
    failure: Failure<Model>,
)
    requires
        sends(run, c),
        can_be_sent(run.settings, c, address),
        opens(run.settings, o),
        reads(r),
        secp256k1_refusal(r.facts, c.addr@) == Some(failure),
        run.replies == seq![Reply::<Model>::Done] + (opening_replies(o) + reading_replies(r)),
    ensures
        does(
            run,
            seq![network_shown(run.settings.network)] + (opening_requests(run.settings, o)
                + reading_requests(encryptor_of(o), c.addr@, r)),
            Outcome::Failure(failure),
        ),
{
    let settings = run.settings;
    let kek = KekEncryptor::<Model> { encryptor: encryptor_of(o) };
    let after = after_sending(c, address);
    let none = Seq::<Reply<Model>>::empty();
    let nothing = Seq::<Request<Model>>::empty();
    let front = seq![network_shown(settings.network)] + (opening_requests(settings, o)
        + reading_requests(encryptor_of(o), c.addr@, r));
    a_payment_begins(run, c, address);
    assert(run.replies =~= seq![Reply::<Model>::Done] + (opening_replies(o) + reading_replies(r))
        + none);
    assert(front + nothing =~= front);
    a_run_with_a_key_does(
        run,
        seq![Reply::<Model>::Done],
        seq![network_shown(settings.network)],
        o,
        c.addr@,
        r,
        after,
        none,
        nothing,
        Outcome::Failure(failure),
    );
}

/// Why a payment cannot be sent, if it cannot: its transaction or its address cannot be read, in
/// this order, or the address is of another network.
pub open spec fn payment_refusal(settings: Settings<Model>, c: Sending) -> Option<Seq<Seq<char>>> {
    if !(c.txid@.len() == 64 && is_hex(c.txid@)) {
        Some(txid_error(c.txid@))
    } else {
        match address_refusal(c.to@) {
            Some(messages) => Some(messages),
            None => match address_on_network(c.to@, settings.network) {
                Ok(_) => None,
                Err(messages) => Some(messages),
            },
        }
    }
}

/// A payment that cannot be sent is refused before any key is asked for.
pub proof fn a_payment_that_cannot_be_read_is_refused(
    run: Run,
    c: Sending,
    messages: Seq<Seq<char>>,
)
    requires
        sends(run, c),
        payment_refusal(run.settings, c) == Some(messages),
        run.replies == seq![Reply::<Model>::Done],
    ensures
        does(
            run,
            seq![network_shown(run.settings.network)],
            Outcome::Failure(Failure::Outside { messages }),
        ),
{
    let outcome: Outcome<Model> = Outcome::Failure(Failure::Outside { messages });
    assert(goes(
        run.settings,
        started(run.settings, run.command),
        run.replies,
        seq![network_shown(run.settings.network)],
        over(outcome),
    )) by {
        reveal_with_fuel(goes, 2);
    }
    run_does(run, seq![network_shown(run.settings.network)], outcome);
}

} // verus!
