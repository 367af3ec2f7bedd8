//! Answers that do not fit what was asked for.

use vstd::prelude::*;

use crate::behaviour::steps::over;
use crate::cli::Commands;
use crate::form::{DirEntry, Model};
use crate::listing::list_from;
use crate::run::{Run, requests_are_kept};
use crate::session::{next, started};
use crate::state::{
    DeriveStage, ExportStage, ImportStage, KekEncryptor, ListStage, NewKekStage, OpenStage,
    ReadStage, RegisterStage, SaveStage, SeedStage, SendStage, Settings, SignStage, State,
    VerifyStage,
};
use crate::wire::{Failure, Outcome, Reply, Request};

verus! {

/// The kinds of answers.
pub enum Kind {
    /// No answer.
    Nothing,
    /// That it is done.
    Done,
    /// That it failed.
    Failed,
    /// A text.
    Text,
    /// Bytes.
    Bytes,
    /// A verdict.
    Verdict,
    /// Whether there is a file.
    Found,
    /// A list of files.
    Entries,
    /// A key and its public half.
    KeyPair,
    /// What a key says of itself.
    Facts,
    /// Two scripts.
    Scripts,
    /// The outputs of a transaction.
    Outputs,
    /// One output.
    Unspent,
    /// Signatures.
    Signatures,
    /// What inscribing would take.
    Sizes,
}

/// The kind of an answer.
pub open spec fn kind(reply: Reply<Model>) -> Kind {
    match reply {
        Reply::Done => Kind::Done,
        Reply::Failed { .. } => Kind::Failed,
        Reply::Text(_) => Kind::Text,
        Reply::Bytes(_) => Kind::Bytes,
        Reply::Verdict(_) => Kind::Verdict,
        Reply::Found { .. } => Kind::Found,
        Reply::Entries(_) => Kind::Entries,
        Reply::KeyPair { .. } => Kind::KeyPair,
        Reply::Facts(_) => Kind::Facts,
        Reply::Scripts { .. } => Kind::Scripts,
        Reply::Outputs(_) => Kind::Outputs,
        Reply::Unspent(_) => Kind::Unspent,
        Reply::Signatures(_) => Kind::Signatures,
        Reply::Sizes(_) => Kind::Sizes,
    }
}

/// The kind of answer that fits what is asked for.
pub open spec fn wants(request: Request<Model>) -> Kind {
    match request {
        Request::Exit(_) => Kind::Nothing,
        Request::Print { .. } => Kind::Done,
        Request::Clock => Kind::Text,
        Request::Prompt { .. } => Kind::Text,
        Request::PromptSecret { .. } => Kind::Text,
        Request::FindKeyFile { .. } => Kind::Found,
        Request::ReadKeyFile { .. } => Kind::Bytes,
        Request::WriteKeyFile { .. } => Kind::Text,
        Request::ListKeyFiles => Kind::Entries,
        Request::ReadListedFile { .. } => Kind::Bytes,
        Request::Hash256 { .. } => Kind::Bytes,
        Request::EncodeBase64Url { .. } => Kind::Text,
        Request::DecodeBase64Url { .. } => Kind::Bytes,
        Request::DecodeBase64 { .. } => Kind::Bytes,
        Request::AddTag { .. } => Kind::Bytes,
        Request::SkipTag { .. } => Kind::Bytes,
        Request::Encrypt { .. } => Kind::Bytes,
        Request::Decrypt { .. } => Kind::Bytes,
        Request::NewSymmetricKey { .. } => Kind::Bytes,
        Request::NewSeedKey => Kind::KeyPair,
        Request::SetKeyId { .. } => Kind::Bytes,
        Request::ReadSeedKey { .. } => Kind::Bytes,
        Request::EncodeSeedKey { .. } => Kind::Bytes,
        Request::InspectKey { .. } => Kind::Facts,
        Request::SeedSecret { .. } => Kind::Bytes,
        Request::DeriveSecp256k1 { .. } => Kind::Bytes,
        Request::DeriveEd25519 { .. } => Kind::KeyPair,
        Request::MakeSecp256k1Key { .. } => Kind::Bytes,
        Request::MakeEd25519Key { .. } => Kind::Bytes,
        Request::SignSecp256k1 { .. } => Kind::Bytes,
        Request::SignEd25519 { .. } => Kind::Bytes,
        Request::VerifySecp256k1 { .. } => Kind::Done,
        Request::VerifyEd25519 { .. } => Kind::Done,
        Request::ScriptPubkeys { .. } => Kind::Scripts,
        Request::Connect { .. } => Kind::Done,
        Request::Ping => Kind::Done,
        Request::FetchTransaction { .. } => Kind::Outputs,
        Request::SendSats { .. } => Kind::Text,
        Request::ReadTxOut { .. } => Kind::Unspent,
        Request::CheckName { .. } => Kind::Verdict,
        Request::Ed25519PublicKey { .. } => Kind::Bytes,
        Request::SignName { .. } => Kind::Signatures,
        Request::ValidateName { .. } => Kind::Done,
        Request::Preview { .. } => Kind::Sizes,
        Request::Inscribe { .. } => Kind::Text,
    }
}

/// The kind of answer for which a command waits where it stands.
spec fn waits(state: State<Model>) -> Kind {
    match state {
        State::Done => Kind::Nothing,
        State::Closing => Kind::Done,
        State::Refused => Kind::Done,
        State::Open { stage, .. } => match stage {
            OpenStage::Password { .. } => Kind::Text,
            OpenStage::Inspect => Kind::Facts,
            _ => Kind::Bytes,
        },
        State::Read { stage, .. } => match stage {
            ReadStage::Inspect { .. } => Kind::Facts,
            _ => Kind::Bytes,
        },
        State::Save { stage, .. } => match stage {
            SaveStage::Write => Kind::Text,
            _ => Kind::Bytes,
        },
        State::NewKek(stage) => match stage {
            NewKekStage::Password { .. } => Kind::Text,
            NewKekStage::Clock { .. } => Kind::Text,
            NewKekStage::Encode => Kind::Text,
            _ => Kind::Bytes,
        },
        State::Seed(stage) => match stage {
            SeedStage::Find { .. } => Kind::Found,
            SeedStage::Key { .. } => Kind::KeyPair,
            SeedStage::KeyId { .. } => Kind::Bytes,
        },
        State::Import(stage) => match stage {
            ImportStage::Clock => Kind::Text,
            ImportStage::Find { .. } => Kind::Found,
            ImportStage::Sealed { .. } => Kind::Text,
            ImportStage::Password { .. } => Kind::Text,
            ImportStage::Inspect { .. } => Kind::Facts,
            _ => Kind::Bytes,
        },
        State::Export(stage) => match stage {
            ExportStage::Password { .. } => Kind::Text,
            ExportStage::Encode => Kind::Text,
            _ => Kind::Bytes,
        },
        State::Derive(stage) => match stage {
            DeriveStage::Ed25519Secret { .. } => Kind::KeyPair,
            _ => Kind::Bytes,
        },
        State::List(stage) => match stage {
            ListStage::Entries { .. } => Kind::Entries,
            ListStage::Header { .. } => Kind::Done,
            ListStage::Data { .. } => Kind::Bytes,
            ListStage::Untag { .. } => Kind::Bytes,
            ListStage::Shown { .. } => Kind::Done,
        },
        State::Sign(stage) => match stage {
            SignStage::Message { .. } => Kind::Done,
            SignStage::Secp256k1 { .. } => Kind::Bytes,
            SignStage::Ed25519 { .. } => Kind::Bytes,
            SignStage::Encode { .. } => Kind::Text,
        },
        State::Verify(stage) => match stage {
            VerifyStage::Check => Kind::Done,
            _ => Kind::Bytes,
        },
        State::Node { .. } => Kind::Done,
        State::Send(stage) => match stage {
            SendStage::Network { .. } => Kind::Done,
            SendStage::Scripts { .. } => Kind::Scripts,
            SendStage::Outputs { .. } => Kind::Outputs,
            SendStage::Sent => Kind::Text,
        },
        State::Register(stage) => match stage {
            RegisterStage::Network { .. } => Kind::Done,
            RegisterStage::Check { .. } => Kind::Verdict,
            RegisterStage::PublicKey { .. } => Kind::Bytes,
            RegisterStage::Sign { .. } => Kind::Signatures,
            RegisterStage::Validate { .. } => Kind::Done,
            RegisterStage::Sizes { .. } => Kind::Sizes,
            RegisterStage::Totals { .. } => Kind::Done,
            RegisterStage::Fee { .. } => Kind::Done,
            RegisterStage::Scripts { .. } => Kind::Scripts,
            RegisterStage::Outputs { .. } => Kind::Outputs,
            RegisterStage::TxOut { .. } => Kind::Unspent,
            RegisterStage::Sent => Kind::Text,
        },
    }
}

/// A list waits for what it asks for.
proof fn a_list_waits_for_what_it_asks(
    kek: Option<KekEncryptor<Model>>,
    entries: Seq<DirEntry<Seq<char>>>,
    from: int,
)
    ensures
        ({
            let step = list_from(kek, entries, from);
            waits(step.state) == wants(step.request)
        }),
    decreases entries.len() - from,
{
    if from < entries.len() && entries[from] is Other {
        a_list_waits_for_what_it_asks(kek, entries, from + 1);
    }
}

/// A command waits for what it asks for, be it at its start or after an answer.
#[verifier::rlimit(60)]
proof fn a_step_waits_for_what_it_asks(
    settings: Settings<Model>,
    command: Option<Commands>,
    state: State<Model>,
    reply: Reply<Model>,
)
    ensures
        waits(started(settings, command).state) == wants(started(settings, command).request),
        waits(next(settings, state, reply).state) == wants(next(settings, state, reply).request),
{
    if let State::List(stage) = state {
        match stage {
            ListStage::Entries { kek } => {
                if let Reply::Entries(entries) = reply {
                    a_list_waits_for_what_it_asks(kek, entries, 0);
                }
            },
            ListStage::Untag { entries, index } => {
                a_list_waits_for_what_it_asks(None, entries, index + 1);
            },
            ListStage::Shown { kek, entries, index } => {
                a_list_waits_for_what_it_asks(kek, entries, index + 1);
            },
            _ => {},
        }
    }
}

/// An answer for which a command does not wait ends it.
#[verifier::rlimit(60)]
proof fn what_is_not_waited_for_ends_a_command(
    settings: Settings<Model>,
    state: State<Model>,
    reply: Reply<Model>,
)
    requires
        kind(reply) != waits(state),
        kind(reply) != Kind::Failed,
    ensures
        next(settings, state, reply) == over(Outcome::Failure(Failure::Misreply)),
{
}

/// An answer of another kind than what was asked for ends a run: it does nothing with it.
pub proof fn an_unfitting_answer_ends_a_run(run: Run)
    requires
        run.replies.len() > 0,
        kind(run.replies.last()) != wants(run.asked(run.replies.len() - 1)),
        !(run.replies.last() is Failed),
    ensures
        run.asked(run.replies.len() as int) == Request::<Model>::Exit(
            Outcome::Failure(Failure::Misreply),
        ),
{
    let before = run.before();
    requests_are_kept(run);
    requests_are_kept(before);
    assert(run.asked(run.replies.len() - 1) == before.step().request);
    if before.replies.len() == 0 {
        a_step_waits_for_what_it_asks(run.settings, run.command, State::Done, Reply::Done);
    } else {
        a_step_waits_for_what_it_asks(
            run.settings,
            run.command,
            before.before().step().state,
            before.replies.last(),
        );
    }
    what_is_not_waited_for_ends_a_command(run.settings, before.step().state, run.replies.last());
}

} // verus!
