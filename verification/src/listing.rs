//! Listing the keys.

use vstd::prelude::*;

use crate::cose::{read_cid, stored_cid};
use crate::form::{Concrete, DirEntry, Model, entry_model, entry_models};
use crate::keystore::opening;
use crate::state::{
    AfterOpen, AfterRead, KekEncryptor, ListStage, ReadStage, Settings, State, Step, end, ended,
    fail_outside, failed_outside, maybe_kek, misreplied, misreply,
};
use crate::text::{join2, one_text};
use crate::wire::{Outcome, Reply, Request};

verus! {

/// The first step of listing the keys: with details, the key encryption key is opened.
pub open spec fn list_begun(settings: Settings<Model>, detail: bool) -> Step<Model> {
    if detail {
        opening(settings, AfterOpen::List)
    } else {
        Step {
            state: State::List(ListStage::Entries { kek: None }),
            request: Request::ListKeyFiles,
        }
    }
}

/// The step that shows the first file of a list at or behind an index.
pub open spec fn list_from(
    kek: Option<KekEncryptor<Model>>,
    entries: Seq<DirEntry<Seq<char>>>,
    index: int,
) -> Step<Model>
    decreases entries.len() - index,
{
    if index >= entries.len() {
        ended(Outcome::Success)
    } else {
        match entries[index] {
            DirEntry::File { name } => Step {
                state: State::List(ListStage::Header { kek, entries, index: index as usize }),
                request: Request::Print { text: "\nkey file: "@ + name },
            },
            DirEntry::Other => list_from(kek, entries, index + 1),
            DirEntry::Failed { message } => failed_outside(seq![message]),
        }
    }
}

/// The next step of listing the keys: each file is named, and the identifier of its key is shown,
/// from inside where the key encryption key is open, else from what the file says in the open.
pub open spec fn list_next(stage: ListStage<Model>, reply: Reply<Model>) -> Step<Model> {
    match (stage, reply) {
        (ListStage::Entries { kek }, Reply::Entries(entries)) => list_from(kek, entries, 0),
        (ListStage::Header { kek, entries, index }, Reply::Done) => match kek {
            Some(kek) => Step {
                state: State::Read {
                    kek,
                    stage: ReadStage::Data,
                    after: AfterRead::Listed { entries, index },
                },
                request: Request::ReadListedFile { index },
            },
            None => Step {
                state: State::List(ListStage::Data { entries, index }),
                request: Request::ReadListedFile { index },
            },
        },
        (ListStage::Data { entries, index }, Reply::Bytes(data)) => Step {
            state: State::List(ListStage::Untag { entries, index }),
            request: Request::SkipTag { data },
        },
        (ListStage::Untag { entries, index }, Reply::Bytes(data)) => match stored_cid(data) {
            Ok(Some(shown)) => list_shown(None, entries, index, shown),
            Ok(None) => list_from(None, entries, index + 1),
            Err(message) => failed_outside(seq![message]),
        },
        (ListStage::Shown { kek, entries, index }, Reply::Done) => list_from(
            kek,
            entries,
            index + 1,
        ),
        _ => misreplied(),
    }
}

/// The step that shows the identifier of a listed key.
pub open spec fn list_shown(
    kek: Option<KekEncryptor<Model>>,
    entries: Seq<DirEntry<Seq<char>>>,
    index: usize,
    shown: Seq<char>,
) -> Step<Model> {
    Step {
        state: State::List(ListStage::Shown { kek, entries, index }),
        request: Request::Print { text: "key id: "@ + shown },
    }
}

/// Begins to list the keys.
pub(crate) fn begin_list(settings: &Settings<Concrete>, detail: bool) -> (r: Step<Concrete>)
    ensures
        r@ == list_begun(settings@, detail),
{
    if detail {
        KekEncryptor::open(settings, AfterOpen::List)
    } else {
        Step {
            state: State::List(ListStage::Entries { kek: None }),
            request: Request::ListKeyFiles,
        }
    }
}

/// Shows the first file of a list at or behind an index.
fn show_from(
    kek: Option<KekEncryptor<Concrete>>,
    entries: Vec<DirEntry<String>>,
    from: usize,
) -> (r: Step<Concrete>)
    ensures
        r@ == list_from(maybe_kek(kek), entry_models(entries@), from as int),
{
    let mut index: usize = from;
    while index < entries.len()
        invariant
            list_from(maybe_kek(kek), entry_models(entries@), index as int) == list_from(
                maybe_kek(kek),
                entry_models(entries@),
                from as int,
            ),
        decreases entries.len() - index,
    {
        assert(entry_models(entries@)[index as int] == entry_model(entries@[index as int]));
        match &entries[index] {
            DirEntry::File { name } => {
                let text: String = join2("\nkey file: ", name.as_str());
                return Step {
                    state: State::List(ListStage::Header { kek, entries, index }),
                    request: Request::Print { text },
                };
            },
            DirEntry::Other => {},
            DirEntry::Failed { message } => {
                return fail_outside(one_text(message.as_str()));
            },
        }
        index = index + 1;
    }
    end(Outcome::Success)
}

/// Shows the first file of a list behind an index.
fn show_behind(
    kek: Option<KekEncryptor<Concrete>>,
    entries: Vec<DirEntry<String>>,
    index: usize,
) -> (r: Step<Concrete>)
    ensures
        r@ == list_from(maybe_kek(kek), entry_models(entries@), index + 1),
{
    if index < entries.len() {
        show_from(kek, entries, index + 1)
    } else {
        end(Outcome::Success)
    }
}

/// Shows the identifier of a listed key.
pub(crate) fn show_listed(
    kek: Option<KekEncryptor<Concrete>>,
    entries: Vec<DirEntry<String>>,
    index: usize,
    shown: &str,
) -> (r: Step<Concrete>)
    ensures
        r@ == list_shown(maybe_kek(kek), entry_models(entries@), index, shown@),
{
    Step {
        state: State::List(ListStage::Shown { kek, entries, index }),
        request: Request::Print { text: join2("key id: ", shown) },
    }
}

/// Goes on with listing the keys.
pub(crate) fn list_step(stage: ListStage<Concrete>, reply: Reply<Concrete>) -> (r: Step<Concrete>)
    ensures
        r@ == list_next(stage@, reply@),
{
    match (stage, reply) {
        (ListStage::Entries { kek }, Reply::Entries(entries)) => show_from(kek, entries, 0),
        (ListStage::Header { kek, entries, index }, Reply::Done) => match kek {
            Some(kek) => Step {
                state: State::Read {
                    kek,
                    stage: ReadStage::Data,
                    after: AfterRead::Listed { entries, index },
                },
                request: Request::ReadListedFile { index },
            },
            None => Step {
                state: State::List(ListStage::Data { entries, index }),
                request: Request::ReadListedFile { index },
            },
        },
        (ListStage::Data { entries, index }, Reply::Bytes(data)) => Step {
            state: State::List(ListStage::Untag { entries, index }),
            request: Request::SkipTag { data },
        },
        (ListStage::Untag { entries, index }, Reply::Bytes(data)) => match read_cid(
            data.as_slice(),
        ) {
            Ok(Some(shown)) => show_listed(None, entries, index, shown.as_str()),
            Ok(None) => show_behind(None, entries, index),
            Err(message) => fail_outside(one_text(message.as_str())),
        },
        (ListStage::Shown { kek, entries, index }, Reply::Done) => show_behind(kek, entries, index),
        _ => misreply(),
    }
}

} // verus!
