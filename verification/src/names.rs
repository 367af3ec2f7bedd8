//! Previewing and inscribing names.

use vstd::prelude::*;

use crate::chain::{
    amount_text, is_txid, parse_txid, public_key_of, secret_key_error, show_amount, txid_error,
    valid_secret_key,
};
use crate::form::{
    Concrete, KeyFacts, Model, Name, Operation, PublicKeyParams, Service, ThresholdLevel, TxOutput,
    UnspentTxOut, byte_strings, copy_bytes, name_model, name_models, params_model,
};
use crate::hexadecimal::hex_bytes;
use crate::keystore::{key_file, key_file_name, opening, reading};
use crate::node::{connecting, get_inscriber};
use crate::spending::{
    choose_output, chosen_output, first_spendable_is_first, network_line, spendable,
    write_network_line,
};
use crate::state::{
    AfterNode, AfterOpen, AfterRead, Funding, Job, KekEncryptor, RegisterStage, Settings, State,
    Step, close, closing, end, ended, fail, fail_outside, failed, failed_outside, misreplied, misreply,
};
use crate::text::{decimal, decimal_text, join2, join3, names_are_between_commas, names_in};
use crate::wire::{Defect, Failure, Outcome, PreviewSizes, Reply, Request};

verus! {

/// The parameters under which a name is registered: a single key, with neither a threshold nor a
/// kind.
pub open spec fn single_key(public_key: Seq<u8>) -> PublicKeyParams<Seq<Seq<u8>>> {
    PublicKeyParams { public_keys: seq![public_key], threshold: None, kind: None }
}

/// The first registration of a name under a public key, with some signatures. Nobody attests it.
pub open spec fn registration(
    name: Seq<char>,
    public_key: Seq<u8>,
    signatures: Seq<Seq<u8>>,
) -> Name<Seq<char>, Seq<Seq<u8>>, Seq<Seq<char>>> {
    Name {
        name,
        sequence: 0,
        service: Service {
            code: 0,
            operation: Operation { subcode: 1, params: single_key(public_key) },
            attesters: None,
        },
        signatures,
    }
}

/// The request to sign the first registration of a name: with all of its keys, which is the one.
pub open spec fn signature_request(
    name: Seq<char>,
    public_key: Seq<u8>,
    secret: Seq<u8>,
) -> Request<Model> {
    Request::SignName {
        name: registration(name, public_key, seq![]),
        params: single_key(public_key),
        level: ThresholdLevel::All,
        secret,
    }
}

/// Writes the parameters under which a name is registered.
pub fn write_single_key(public_key: Vec<u8>) -> (r: PublicKeyParams<Vec<Vec<u8>>>)
    ensures
        params_model(r) == single_key(public_key@),
        r.public_keys@.len() == 1,
        r.public_keys@[0]@ == public_key@,
        r.threshold is None,
        r.kind is None,
{
    let mut public_keys: Vec<Vec<u8>> = Vec::new();
    public_keys.push(public_key);
    assert(byte_strings(public_keys@) =~= seq![public_key@]);
    PublicKeyParams { public_keys, threshold: None, kind: None }
}

/// Writes the first registration of a name under a public key, with some signatures.
pub fn register_name(name: String, public_key: Vec<u8>, signatures: Vec<Vec<u8>>) -> (r: Name<
    String,
    Vec<Vec<u8>>,
    Vec<String>,
>)
    ensures
        name_model(r) == registration(name@, public_key@, byte_strings(signatures@)),
        r.name@ == name@,
        r.sequence == 0,
        r.service.code == 0,
        r.service.operation.subcode == 1,
        r.service.operation.params.public_keys@.len() == 1,
        r.service.operation.params.public_keys@[0]@ == public_key@,
        r.service.operation.params.threshold is None,
        r.service.operation.params.kind is None,
        r.service.attesters is None,
        r.signatures@ == signatures@,
{
    Name {
        name,
        sequence: 0,
        service: Service {
            code: 0,
            operation: Operation { subcode: 1, params: write_single_key(public_key) },
            attesters: None,
        },
        signatures,
    }
}

/// The first step of previewing or inscribing names: the network is printed.
pub open spec fn register_begun(settings: Settings<Model>, job: Job<Model>) -> Step<Model> {
    Step {
        state: State::Register(RegisterStage::Network { job }),
        request: Request::Print { text: network_line(settings.network) },
    }
}

/// The step that checks the name at an index, or goes on with the key of the author once all are
/// checked.
pub open spec fn checking(settings: Settings<Model>, job: Job<Model>, index: int) -> Step<Model> {
    if index < job.names.len() {
        Step {
            state: State::Register(RegisterStage::Check { job, index: index as usize }),
            request: Request::CheckName { name: job.names[index] },
        }
    } else if job.names.len() == 0 {
        failed(Failure::NoNames)
    } else {
        opening(
            settings,
            AfterOpen::Read { file: key_file(job.key), after: AfterRead::Author { job } },
        )
    }
}

/// The step that follows once the key of the author is read.
pub open spec fn authored(
    kek: KekEncryptor<Model>,
    facts: KeyFacts<Model>,
    job: Job<Model>,
) -> Step<Model> {
    if !facts.ed25519 {
        failed(Failure::NotEd25519 { name: job.key })
    } else {
        match facts.secret {
            Ok(secret) => Step {
                state: State::Register(RegisterStage::PublicKey { kek, secret, job }),
                request: Request::Ed25519PublicKey { secret },
            },
            Err(message) => failed_outside(message),
        }
    }
}

/// The step that signs the next name; once all are signed they are previewed, or the key is read
/// that pays for them.
pub open spec fn signing(
    kek: KekEncryptor<Model>,
    secret: Seq<u8>,
    public_key: Seq<u8>,
    job: Job<Model>,
    names: Seq<Name<Seq<char>, Seq<Seq<u8>>, Seq<Seq<char>>>>,
) -> Step<Model> {
    if names.len() < job.names.len() {
        Step {
            state: State::Register(RegisterStage::Sign { kek, secret, public_key, job, names }),
            request: signature_request(job.names[names.len() as int], public_key, secret),
        }
    } else {
        match job.funding {
            None => Step {
                state: State::Register(RegisterStage::Sizes { count: names.len() as usize }),
                request: Request::Preview { names, fee_rate: job.fee },
            },
            Some(funding) => reading(
                kek,
                key_file(funding.addr),
                AfterRead::Payer { name: job.key, fee: job.fee, funding, names },
            ),
        }
    }
}

/// The step that follows once the key is read that pays for the names.
pub open spec fn paid(
    facts: KeyFacts<Model>,
    name: Seq<char>,
    fee: u64,
    funding: Funding<Model>,
    names: Seq<Name<Seq<char>, Seq<Seq<u8>>, Seq<Seq<char>>>>,
) -> Step<Model> {
    if !facts.secp256k1 {
        failed(Failure::NotSecp256k1 { name })
    } else {
        match facts.secret {
            Ok(secret) => if valid_secret_key(secret) {
                Step {
                    state: State::Register(RegisterStage::Scripts { secret, fee, funding, names }),
                    request: Request::ScriptPubkeys { secret },
                }
            } else {
                failed_outside(secret_key_error())
            },
            Err(message) => failed_outside(message),
        }
    }
}

/// The step that follows once the node has answered: the output is read that is given, or else the
/// transaction is fetched.
pub open spec fn inscribe_connected(
    secret: Seq<u8>,
    fee: u64,
    funding: Funding<Model>,
    names: Seq<Name<Seq<char>, Seq<Seq<u8>>, Seq<Seq<char>>>>,
    p2wpkh: Seq<u8>,
    p2tr: Seq<u8>,
) -> Step<Model> {
    if funding.txout_json.len() != 0 || funding.txid.len() == 0 {
        Step {
            state: State::Register(RegisterStage::TxOut { secret, fee, names }),
            request: Request::ReadTxOut { json: funding.txout_json },
        }
    } else if is_txid(funding.txid) {
        let txid = hex_bytes(funding.txid).reverse();
        Step {
            state: State::Register(
                RegisterStage::Outputs { secret, fee, txid, names, p2wpkh, p2tr },
            ),
            request: Request::FetchTransaction { txid },
        }
    } else {
        failed_outside(txid_error(funding.txid))
    }
}

/// The step that inscribes names.
pub open spec fn inscribing(
    names: Seq<Name<Seq<char>, Seq<Seq<u8>>, Seq<Seq<char>>>>,
    fee: u64,
    secret: Seq<u8>,
    unspent: UnspentTxOut<Model>,
) -> Step<Model> {
    Step {
        state: State::Register(RegisterStage::Sent),
        request: Request::Inscribe { names, fee_rate: fee, secret, unspent },
    }
}

/// A pair of sizes.
pub open spec fn size_pair(size: nat, vsize: nat) -> Seq<char> {
    decimal(size) + " bytes, "@ + (decimal(vsize) + " vBytes"@)
}

/// The lines that show how many names there are and how large each transaction is.
pub open spec fn size_lines(count: nat, sizes: PreviewSizes) -> Seq<char> {
    "inscriptions: "@ + decimal(count) + ("\ncommit_tx: "@ + size_pair(
        sizes.commit_size as nat,
        sizes.commit_vsize as nat,
    )) + ("\nreveal_tx: "@ + size_pair(sizes.reveal_size as nat, sizes.reveal_vsize as nat))
}

/// The line that shows how large the transactions are together.
pub open spec fn total_line(sizes: PreviewSizes) -> Seq<char> {
    "total bytes: "@ + decimal((sizes.commit_size + sizes.reveal_size) as nat) + (", "@ + decimal(
        (sizes.commit_vsize + sizes.reveal_vsize) as nat,
    ) + " vBytes"@)
}

/// The lines that show the fee and the least balance.
pub open spec fn fee_lines(min_balance: nat, output: nat) -> Seq<char> {
    "estimate fee: "@ + amount_text((min_balance - output) as nat) + (
    "\nmin balance (fee + min change): "@ + amount_text(min_balance))
}

/// The next step of previewing or inscribing names: all names are checked; each is signed and
/// validated; they are paid for with the output that is given, or else with the first output of the
/// transaction that pays to the payer.
pub open spec fn register_next(
    settings: Settings<Model>,
    stage: RegisterStage<Model>,
    reply: Reply<Model>,
) -> Step<Model> {
    match (stage, reply) {
        (RegisterStage::Network { job }, Reply::Done) => checking(settings, job, 0),
        (RegisterStage::Check { job, index }, Reply::Verdict(valid)) => if index
            >= job.names.len() {
            misreplied()
        } else if valid {
            checking(settings, job, index + 1)
        } else {
            failed(Failure::InvalidName { name: job.names[index as int] })
        },
        (RegisterStage::PublicKey { kek, secret, job }, Reply::Bytes(public_key)) => signing(
            kek,
            secret,
            public_key,
            job,
            seq![],
        ),
        (
            RegisterStage::Sign { kek, secret, public_key, job, names },
            Reply::Signatures(signatures),
        ) => if names.len() >= job.names.len() {
            misreplied()
        } else {
            let name = registration(job.names[names.len() as int], public_key, signatures);
            Step {
                state: State::Register(
                    RegisterStage::Validate { kek, secret, public_key, job, names, name },
                ),
                request: Request::ValidateName { name },
            }
        },
        (RegisterStage::Validate { kek, secret, public_key, job, names, name }, Reply::Done) =>
            signing(kek, secret, public_key, job, names.push(name)),
        (RegisterStage::Sizes { count }, Reply::Sizes(sizes)) => Step {
            state: State::Register(RegisterStage::Totals { sizes }),
            request: Request::Print { text: size_lines(count as nat, sizes) },
        },
        (RegisterStage::Totals { sizes }, Reply::Done) => if sizes.commit_size + sizes.reveal_size
            > usize::MAX || sizes.commit_vsize + sizes.reveal_vsize > usize::MAX {
            ended(Outcome::Panic(Defect::OutOfRange))
        } else {
            Step {
                state: State::Register(RegisterStage::Fee { sizes }),
                request: Request::Print { text: total_line(sizes) },
            }
        },
        (RegisterStage::Fee { sizes }, Reply::Done) => match sizes.reveal_output {
            None => ended(Outcome::Panic(Defect::NoRevealOutput)),
            Some(output) => if output > sizes.min_balance {
                ended(Outcome::Panic(Defect::OutOfRange))
            } else {
                closing(fee_lines(sizes.min_balance as nat, output as nat))
            },
        },
        (
            RegisterStage::Scripts { secret, fee, funding, names },
            Reply::Scripts { p2wpkh, p2tr },
        ) => connecting(
            settings,
            AfterNode::Inscribe { secret, fee, funding, names, p2wpkh, p2tr },
        ),
        (
            RegisterStage::Outputs { secret, fee, txid, names, p2wpkh, p2tr },
            Reply::Outputs(outputs),
        ) => match chosen_output(txid, outputs, None, p2wpkh, p2tr) {
            Some(unspent) => inscribing(names, fee, secret, unspent),
            None => failed(Failure::NoMatchedOutput),
        },
        (RegisterStage::TxOut { secret, fee, names }, Reply::Unspent(unspent)) => inscribing(
            names,
            fee,
            secret,
            unspent,
        ),
        (RegisterStage::Sent, Reply::Text(txid)) => closing("txid: "@ + txid),
        _ => misreplied(),
    }
}

/// A command line always lists a name to check, so that no run fails for want of one.
pub proof fn a_list_is_never_empty(
    settings: Settings<Model>,
    text: Seq<char>,
    fee: u64,
    key: Seq<char>,
    funding: Option<Funding<Model>>,
    index: int,
)
    ensures
        ({
            let job = Job { names: names_in(text), fee, key, funding };
            &&& checking(settings, job, index) != failed(Failure::NoNames)
            &&& checking(settings, job, 0).request == (Request::<Model>::CheckName {
                name: names_in(text)[0],
            })
        }),
{
    names_are_between_commas(text);
}

/// Where a transaction is to be spent, names are inscribed exactly where one of its outputs pays
/// to the payer. The first such output pays for them.
pub proof fn inscriptions_are_paid_by_the_first_match(
    settings: Settings<Model>,
    secret: Seq<u8>,
    fee: u64,
    txid: Seq<u8>,
    names: Seq<Name<Seq<char>, Seq<Seq<u8>>, Seq<Seq<char>>>>,
    p2wpkh: Seq<u8>,
    p2tr: Seq<u8>,
    outputs: Seq<TxOutput<Seq<u8>>>,
)
    requires
        outputs.len() <= u32::MAX,
    ensures
        ({
            let step = register_next(
                settings,
                RegisterStage::Outputs { secret, fee, txid, names, p2wpkh, p2tr },
                Reply::Outputs(outputs),
            );
            match step.request {
                Request::Inscribe { names: inscribed, fee_rate, secret: signer, unspent } => {
                    let i = unspent.vout as int;
                    &&& i < outputs.len()
                    &&& spendable(outputs[i], None, p2wpkh, p2tr)
                    &&& forall|j: int|
                        0 <= j < i ==> !spendable(#[trigger] outputs[j], None, p2wpkh, p2tr)
                    &&& unspent.txid == txid
                    &&& unspent.amount == outputs[i].value
                    &&& unspent.script_pubkey == outputs[i].script_pubkey
                    &&& inscribed == names && fee_rate == fee && signer == secret
                },
                _ => {
                    &&& step == failed(Failure::NoMatchedOutput)
                    &&& forall|j: int|
                        0 <= j < outputs.len() ==> !spendable(
                            #[trigger] outputs[j],
                            None,
                            p2wpkh,
                            p2tr,
                        )
                },
            }
        }),
{
    first_spendable_is_first(outputs, None, p2wpkh, p2tr, 0);
}

/// Begins to preview or inscribe names.
pub(crate) fn begin_register(settings: &Settings<Concrete>, job: Job<Concrete>) -> (r: Step<
    Concrete,
>)
    ensures
        r@ == register_begun(settings@, job@),
{
    Step {
        state: State::Register(RegisterStage::Network { job }),
        request: Request::Print { text: write_network_line(settings.network) },
    }
}

/// Checks the name at an index, or goes on with the key of the author.
fn check_from(settings: &Settings<Concrete>, job: Job<Concrete>, index: usize) -> (r: Step<
    Concrete,
>)
    ensures
        r@ == checking(settings@, job@, index as int),
{
    if index < job.names.len() {
        let name: String = job.names[index].clone();
        Step {
            state: State::Register(RegisterStage::Check { job, index }),
            request: Request::CheckName { name },
        }
    } else if job.names.len() == 0 {
        fail(Failure::NoNames)
    } else {
        let file: String = key_file_name(job.key.as_str());
        KekEncryptor::open(settings, AfterOpen::Read { file, after: AfterRead::Author { job } })
    }
}

/// Goes on once the key of the author is read.
pub(crate) fn author_with_key(
    kek: KekEncryptor<Concrete>,
    facts: KeyFacts<Concrete>,
    job: Job<Concrete>,
) -> (r: Step<Concrete>)
    ensures
        r@ == authored(kek@, facts@, job@),
{
    if !facts.ed25519 {
        fail(Failure::NotEd25519 { name: job.key })
    } else {
        match facts.secret {
            Ok(secret) => {
                let shown: Vec<u8> = copy_bytes(&secret);
                Step {
                    state: State::Register(RegisterStage::PublicKey { kek, secret, job }),
                    request: Request::Ed25519PublicKey { secret: shown },
                }
            },
            Err(message) => fail_outside(message),
        }
    }
}

/// Signs the next name, or goes on once all are signed.
fn sign_from(
    kek: KekEncryptor<Concrete>,
    secret: Vec<u8>,
    public_key: Vec<u8>,
    job: Job<Concrete>,
    names: Vec<Name<String, Vec<Vec<u8>>, Vec<String>>>,
) -> (r: Step<Concrete>)
    ensures
        r@ == signing(kek@, secret@, public_key@, job@, name_models(names@)),
{
    if names.len() < job.names.len() {
        let signatures: Vec<Vec<u8>> = Vec::new();
        assert(byte_strings(signatures@) =~= seq![]);
        let name: Name<String, Vec<Vec<u8>>, Vec<String>> = register_name(
            job.names[names.len()].clone(),
            copy_bytes(&public_key),
            signatures,
        );
        let params: PublicKeyParams<Vec<Vec<u8>>> = write_single_key(copy_bytes(&public_key));
        let shown: Vec<u8> = copy_bytes(&secret);
        Step {
            state: State::Register(RegisterStage::Sign { kek, secret, public_key, job, names }),
            request: Request::SignName {
                name,
                params,
                level: ThresholdLevel::All,
                secret: shown,
            },
        }
    } else {
        match job.funding {
            None => Step {
                state: State::Register(RegisterStage::Sizes { count: names.len() }),
                request: Request::Preview { names, fee_rate: job.fee },
            },
            Some(funding) => {
                let file: String = key_file_name(funding.addr.as_str());
                kek.read_key(
                    file,
                    AfterRead::Payer { name: job.key, fee: job.fee, funding, names },
                )
            },
        }
    }
}

/// Goes on once the key is read that pays for the names.
pub(crate) fn pay_with_key(
    facts: KeyFacts<Concrete>,
    name: String,
    fee: u64,
    funding: Funding<Concrete>,
    names: Vec<Name<String, Vec<Vec<u8>>, Vec<String>>>,
) -> (r: Step<Concrete>)
    ensures
        r@ == paid(facts@, name@, fee, funding@, name_models(names@)),
{
    if !facts.secp256k1 {
        fail(Failure::NotSecp256k1 { name })
    } else {
        match facts.secret {
            Ok(secret) => match public_key_of(secret.as_slice()) {
                Ok(_) => {
                    let shown: Vec<u8> = copy_bytes(&secret);
                    Step {
                        state: State::Register(
                            RegisterStage::Scripts { secret, fee, funding, names },
                        ),
                        request: Request::ScriptPubkeys { secret: shown },
                    }
                },
                Err(message) => fail_outside(message),
            },
            Err(message) => fail_outside(message),
        }
    }
}

/// Goes on once the node has answered.
pub(crate) fn inscribe_from_node(
    secret: Vec<u8>,
    fee: u64,
    funding: Funding<Concrete>,
    names: Vec<Name<String, Vec<Vec<u8>>, Vec<String>>>,
    p2wpkh: Vec<u8>,
    p2tr: Vec<u8>,
) -> (r: Step<Concrete>)
    ensures
        r@ == inscribe_connected(secret@, fee, funding@, name_models(names@), p2wpkh@, p2tr@),
{
    if !funding.txout_json.as_str().is_empty() || funding.txid.as_str().is_empty() {
        Step {
            state: State::Register(RegisterStage::TxOut { secret, fee, names }),
            request: Request::ReadTxOut { json: funding.txout_json },
        }
    } else {
        match parse_txid(funding.txid.as_str()) {
            Ok(txid) => {
                let shown: Vec<u8> = copy_bytes(&txid);
                Step {
                    state: State::Register(
                        RegisterStage::Outputs { secret, fee, txid, names, p2wpkh, p2tr },
                    ),
                    request: Request::FetchTransaction { txid: shown },
                }
            },
            Err(messages) => fail_outside(messages),
        }
    }
}

/// Inscribes names.
fn inscribe(
    names: Vec<Name<String, Vec<Vec<u8>>, Vec<String>>>,
    fee: u64,
    secret: Vec<u8>,
    unspent: UnspentTxOut<Concrete>,
) -> (r: Step<Concrete>)
    ensures
        r@ == inscribing(name_models(names@), fee, secret@, unspent@),
{
    Step {
        state: State::Register(RegisterStage::Sent),
        request: Request::Inscribe { names, fee_rate: fee, secret, unspent },
    }
}

/// Writes a pair of sizes.
fn write_size_pair(size: usize, vsize: usize) -> (r: String)
    ensures
        r@ == size_pair(size as nat, vsize as nat),
{
    let tail: String = join2(decimal_text(vsize as u64).as_str(), " vBytes");
    join3(decimal_text(size as u64).as_str(), " bytes, ", tail.as_str())
}

/// Writes the lines that show how many names there are and how large each transaction is.
pub fn write_size_lines(count: usize, sizes: &PreviewSizes) -> (r: String)
    ensures
        r@ == size_lines(count as nat, *sizes),
{
    let head: String = join2("inscriptions: ", decimal_text(count as u64).as_str());
    let commit: String = join2(
        "\ncommit_tx: ",
        write_size_pair(sizes.commit_size, sizes.commit_vsize).as_str(),
    );
    let reveal: String = join2(
        "\nreveal_tx: ",
        write_size_pair(sizes.reveal_size, sizes.reveal_vsize).as_str(),
    );
    join3(head.as_str(), commit.as_str(), reveal.as_str())
}

/// Writes the line that shows how large the transactions are together, where the sums can be
/// counted.
pub fn write_total_line(sizes: &PreviewSizes) -> (r: Option<String>)
    ensures
        match r {
            Some(line) => sizes.commit_size + sizes.reveal_size <= usize::MAX && sizes.commit_vsize
                + sizes.reveal_vsize <= usize::MAX && line@ == total_line(*sizes),
            None => sizes.commit_size + sizes.reveal_size > usize::MAX || sizes.commit_vsize
                + sizes.reveal_vsize > usize::MAX,
        },
{
    match sizes.commit_size.checked_add(sizes.reveal_size) {
        Some(size) => match sizes.commit_vsize.checked_add(sizes.reveal_vsize) {
            Some(vsize) => {
                let tail: String = join3(", ", decimal_text(vsize as u64).as_str(), " vBytes");
                Some(join3("total bytes: ", decimal_text(size as u64).as_str(), tail.as_str()))
            },
            None => None,
        },
        None => None,
    }
}

/// Writes the lines that show the fee and the least balance.
pub fn write_fee_lines(min_balance: u64, output: u64) -> (r: String)
    requires
        output <= min_balance,
    ensures
        r@ == fee_lines(min_balance as nat, output as nat),
{
    let tail: String = join2(
        "\nmin balance (fee + min change): ",
        show_amount(min_balance).as_str(),
    );
    join3("estimate fee: ", show_amount(min_balance - output).as_str(), tail.as_str())
}

/// Goes on with previewing or inscribing names.
#[verifier::rlimit(40)]
pub(crate) fn register_step(
    settings: &Settings<Concrete>,
    stage: RegisterStage<Concrete>,
    reply: Reply<Concrete>,
) -> (r: Step<Concrete>)
    ensures
        r@ == register_next(settings@, stage@, reply@),
{
    match (stage, reply) {
        (RegisterStage::Network { job }, Reply::Done) => check_from(settings, job, 0),
        (RegisterStage::Check { job, index }, Reply::Verdict(valid)) => {
            if index >= job.names.len() {
                misreply()
            } else if valid {
                check_from(settings, job, index + 1)
            } else {
                fail(Failure::InvalidName { name: job.names[index].clone() })
            }
        },
        (RegisterStage::PublicKey { kek, secret, job }, Reply::Bytes(public_key)) => {
            let names: Vec<Name<String, Vec<Vec<u8>>, Vec<String>>> = Vec::new();
            assert(name_models(names@) =~= seq![]);
            sign_from(kek, secret, public_key, job, names)
        },
        (
            RegisterStage::Sign { kek, secret, public_key, job, names },
            Reply::Signatures(signatures),
        ) => {
            if names.len() >= job.names.len() {
                misreply()
            } else {
                let text: String = job.names[names.len()].clone();
                let name: Name<String, Vec<Vec<u8>>, Vec<String>> = register_name(
                    text.clone(),
                    copy_bytes(&public_key),
                    copy_signatures(&signatures),
                );
                let shown: Name<String, Vec<Vec<u8>>, Vec<String>> = register_name(
                    text,
                    copy_bytes(&public_key),
                    signatures,
                );
                Step {
                    state: State::Register(
                        RegisterStage::Validate { kek, secret, public_key, job, names, name },
                    ),
                    request: Request::ValidateName { name: shown },
                }
            }
        },
        (RegisterStage::Validate { kek, secret, public_key, job, names, name }, Reply::Done) => {
            let mut names: Vec<Name<String, Vec<Vec<u8>>, Vec<String>>> = names;
            let ghost before = names@;
            names.push(name);
            assert(name_models(names@) =~= name_models(before).push(name_model(name)));
            sign_from(kek, secret, public_key, job, names)
        },
        (RegisterStage::Sizes { count }, Reply::Sizes(sizes)) => Step {
            state: State::Register(RegisterStage::Totals { sizes }),
            request: Request::Print { text: write_size_lines(count, &sizes) },
        },
        (RegisterStage::Totals { sizes }, Reply::Done) => match write_total_line(&sizes) {
            Some(text) => Step {
                state: State::Register(RegisterStage::Fee { sizes }),
                request: Request::Print { text },
            },
            None => end(Outcome::Panic(Defect::OutOfRange)),
        },
        (RegisterStage::Fee { sizes }, Reply::Done) => match sizes.reveal_output {
            None => end(Outcome::Panic(Defect::NoRevealOutput)),
            Some(output) => {
                if output > sizes.min_balance {
                    end(Outcome::Panic(Defect::OutOfRange))
                } else {
                    close(write_fee_lines(sizes.min_balance, output))
                }
            },
        },
        (
            RegisterStage::Scripts { secret, fee, funding, names },
            Reply::Scripts { p2wpkh, p2tr },
        ) => get_inscriber(
            settings,
            AfterNode::Inscribe { secret, fee, funding, names, p2wpkh, p2tr },
        ),
        (
            RegisterStage::Outputs { secret, fee, txid, names, p2wpkh, p2tr },
            Reply::Outputs(outputs),
        ) => match choose_output(txid, &outputs, None, &p2wpkh, &p2tr) {
            Some(unspent) => inscribe(names, fee, secret, unspent),
            None => fail(Failure::NoMatchedOutput),
        },
        (RegisterStage::TxOut { secret, fee, names }, Reply::Unspent(unspent)) => inscribe(
            names,
            fee,
            secret,
            unspent,
        ),
        (RegisterStage::Sent, Reply::Text(txid)) => close(join2("txid: ", txid.as_str())),
        _ => misreply(),
    }
}

/// Copies signatures.
fn copy_signatures(signatures: &Vec<Vec<u8>>) -> (r: Vec<Vec<u8>>)
    ensures
        byte_strings(r@) == byte_strings(signatures@),
{
    let mut r: Vec<Vec<u8>> = Vec::new();
    let mut i: usize = 0;
    while i < signatures.len()
        invariant
            i <= signatures.len(),
            r.len() == i,
            forall|j: int| 0 <= j < i ==> (#[trigger] r@[j])@ == signatures@[j]@,
        decreases signatures.len() - i,
    {
        r.push(copy_bytes(&signatures[i]));
        i = i + 1;
    }
    assert(byte_strings(r@) =~= byte_strings(signatures@));
    r
}

} // verus!
