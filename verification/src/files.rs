//! Which files a run touches.

use vstd::prelude::*;

use crate::cli::Commands;
use crate::form::{DirEntry, Model};
use crate::keystore::key_file;
use crate::listing::list_from;
use crate::run::{Run, exchanges_are_kept, the_last_exchange};
use crate::session::{next, started};
use crate::state::{
    AfterOpen, ImportStage, KekEncryptor, ListStage, SaveStage, SeedStage, Settings, State, Step,
};
use crate::wire::{Reply, Request};

verus! {

/// Whether a text is the file name of a key.
pub open spec fn is_key_file(file: Seq<char>) -> bool {
    exists|name: Seq<char>| file == #[trigger] key_file(name)
}

/// Whether all files that a state still has to do with are key files.
spec fn files_named(state: State<Model>) -> bool {
    match state {
        State::Open { after, .. } => match after {
            AfterOpen::Seed { file } => is_key_file(file),
            AfterOpen::Import { file, .. } => is_key_file(file),
            AfterOpen::Read { file, .. } => is_key_file(file),
            AfterOpen::List => true,
        },
        State::Save { stage, .. } => match stage {
            SaveStage::Encrypt { file } => is_key_file(file),
            SaveStage::Tag { file } => is_key_file(file),
            SaveStage::Write => true,
        },
        State::Seed(stage) => match stage {
            SeedStage::Find { file } => is_key_file(file),
            SeedStage::Key { file, .. } => is_key_file(file),
            SeedStage::KeyId { file, .. } => is_key_file(file),
        },
        State::Import(stage) => match stage {
            ImportStage::Clock => true,
            ImportStage::Find { file } => is_key_file(file),
            ImportStage::Sealed { file } => is_key_file(file),
            ImportStage::Password { file, .. } => is_key_file(file),
            ImportStage::Hash { file, .. } => is_key_file(file),
            ImportStage::Decode { file, .. } => is_key_file(file),
            ImportStage::Untag { file, .. } => is_key_file(file),
            ImportStage::Decrypt { file } => is_key_file(file),
            ImportStage::Key { file } => is_key_file(file),
            ImportStage::Inspect { file, .. } => is_key_file(file),
        },
        _ => true,
    }
}

/// Whether a request that names a file names a key file.
pub open spec fn asks_for_key_files(request: Request<Model>) -> bool {
    match request {
        Request::FindKeyFile { file } => is_key_file(file),
        Request::ReadKeyFile { file } => is_key_file(file),
        Request::WriteKeyFile { file, .. } => is_key_file(file),
        _ => true,
    }
}

/// The seed is kept in the file of the key that is named `seed`.
pub proof fn the_seed_has_a_name()
    ensures
        "seed.cose.key"@ == key_file("seed"@),
{
    reveal_strlit("seed.cose.key");
    reveal_strlit("seed");
    reveal_strlit(".cose.key");
    assert("seed.cose.key"@ =~= key_file("seed"@));
}

/// A list asks for no file by its name.
proof fn list_names_no_file(
    kek: Option<KekEncryptor<Model>>,
    entries: Seq<DirEntry<Seq<char>>>,
    from: int,
)
    ensures
        files_named(list_from(kek, entries, from).state),
        asks_for_key_files(list_from(kek, entries, from).request),
    decreases entries.len() - from,
{
    if from < entries.len() && entries[from] is Other {
        list_names_no_file(kek, entries, from + 1);
    }
}

/// One answer keeps to key files.
#[verifier::rlimit(60)]
proof fn next_keeps_to_key_files(
    settings: Settings<Model>,
    state: State<Model>,
    reply: Reply<Model>,
)
    requires
        files_named(state),
    ensures
        files_named(next(settings, state, reply).state),
        asks_for_key_files(next(settings, state, reply).request),
{
    if let State::List(stage) = state {
        match stage {
            ListStage::Entries { kek } => {
                if let Reply::Entries(entries) = reply {
                    list_names_no_file(kek, entries, 0);
                }
            },
            ListStage::Untag { entries, index } => {
                list_names_no_file(None, entries, index + 1);
            },
            ListStage::Shown { kek, entries, index } => {
                list_names_no_file(kek, entries, index + 1);
            },
            _ => {},
        }
    }
}

/// A start keeps to key files.
proof fn started_keeps_to_key_files(settings: Settings<Model>, command: Option<Commands>)
    ensures
        files_named(started(settings, command).state),
        asks_for_key_files(started(settings, command).request),
{
    the_seed_has_a_name();
}

/// A run has to do with key files alone.
proof fn run_keeps_to_key_files(run: Run)
    ensures
        files_named(run.step().state),
        asks_for_key_files(run.step().request),
    decreases run.replies.len(),
{
    if run.replies.len() == 0 {
        started_keeps_to_key_files(run.settings, run.command);
    } else {
        run_keeps_to_key_files(run.before());
        next_keeps_to_key_files(run.settings, run.before().step().state, run.replies.last());
    }
}

/// Every file that a run looks for, reads or writes by its name is called `{name}.cose.key`.
pub proof fn every_file_is_a_key_file(run: Run)
    ensures
        asks_for_key_files(run.step().request),
{
    run_keeps_to_key_files(run);
}

/// Whether a file was looked for and not found.
pub open spec fn found_missing(run: Run, file: Seq<char>) -> bool {
    exists|path: Seq<char>| #[trigger]
        run.exchanged(
            Request::FindKeyFile { file },
            Reply::Found { exists: false, path },
        )
}

/// The file that a new or imported seed goes to, once it was looked for.
spec fn seed_file(state: State<Model>) -> Option<Seq<char>> {
    match state {
        State::Open { after, .. } => match after {
            AfterOpen::Seed { file } => Some(file),
            AfterOpen::Import { file, .. } => Some(file),
            _ => None,
        },
        State::Save { stage, .. } => match stage {
            SaveStage::Encrypt { file } => Some(file),
            SaveStage::Tag { file } => Some(file),
            SaveStage::Write => None,
        },
        State::Seed(stage) => match stage {
            SeedStage::Find { .. } => None,
            SeedStage::Key { file, .. } => Some(file),
            SeedStage::KeyId { file, .. } => Some(file),
        },
        State::Import(stage) => match stage {
            ImportStage::Clock => None,
            ImportStage::Find { .. } => None,
            ImportStage::Sealed { file } => Some(file),
            ImportStage::Password { file, .. } => Some(file),
            ImportStage::Hash { file, .. } => Some(file),
            ImportStage::Decode { file, .. } => Some(file),
            ImportStage::Untag { file, .. } => Some(file),
            ImportStage::Decrypt { file } => Some(file),
            ImportStage::Key { file } => Some(file),
            ImportStage::Inspect { file, .. } => Some(file),
        },
        _ => None,
    }
}

/// Whether a step is one that making or importing a seed can reach.
spec fn in_seed_flow(step: Step<Model>) -> bool {
    &&& match step.state {
        State::Done => true,
        State::Closing => true,
        State::Refused => true,
        State::Open { after, .. } => after is Seed || after is Import,
        State::Save { .. } => true,
        State::Seed(_) => true,
        State::Import(_) => true,
        _ => false,
    }
    &&& step.state matches State::Seed(SeedStage::Find { file }) ==> step.request == (Request::<
        Model,
    >::FindKeyFile { file })
    &&& step.state matches State::Import(ImportStage::Find { file }) ==> step.request == (Request::<
        Model,
    >::FindKeyFile { file })
}

/// One answer leads from a file that is looked for to the same file, or finds it missing.
#[verifier::rlimit(60)]
proof fn next_keeps_the_seed_file(
    settings: Settings<Model>,
    step: Step<Model>,
    reply: Reply<Model>,
)
    requires
        in_seed_flow(step),
    ensures
        ({
            let after = next(settings, step.state, reply);
            &&& in_seed_flow(after)
            &&& seed_file(after.state) matches Some(file) ==> seed_file(step.state) == Some(file)
                || (step.request == (Request::<Model>::FindKeyFile { file })
                && (reply matches Reply::Found { exists, .. } && !exists))
            &&& after.request matches Request::WriteKeyFile { file, .. } ==> seed_file(step.state)
                == Some(file)
        }),
{
}

/// In a run that makes or imports a seed, the file that it goes to was found missing.
proof fn run_keeps_the_seed_file(run: Run)
    requires
        run.command matches Some(c) && (c is NewSeed || c is ImportSeed),
    ensures
        ({
            let step = run.step();
            &&& in_seed_flow(step)
            &&& seed_file(step.state) matches Some(file) ==> found_missing(run, file)
            &&& step.request matches Request::WriteKeyFile { file, .. } ==> found_missing(run, file)
        }),
    decreases run.replies.len(),
{
    if run.replies.len() > 0 {
        run_keeps_the_seed_file(run.before());
        let step = run.before().step();
        next_keeps_the_seed_file(run.settings, step, run.replies.last());
        exchanges_are_kept(run);
        the_last_exchange(run);
        if let Some(file) = seed_file(step.state) {
            let path = choose|path: Seq<char>| #[trigger]
                run.before().exchanged(
                    Request::FindKeyFile { file },
                    Reply::Found { exists: false, path },
                );
            assert(run.exchanged(
                Request::FindKeyFile { file },
                Reply::Found { exists: false, path },
            ));
            assert(found_missing(run, file));
        }
        if let Reply::Found { exists, path } = run.replies.last() {
            if !exists {
                assert forall|file: Seq<char>|
                    step.request == (Request::<Model>::FindKeyFile { file }) implies found_missing(
                    run,
                    file,
                ) by {
                    assert(run.exchanged(
                        Request::FindKeyFile { file },
                        Reply::Found { exists: false, path },
                    ));
                }
            }
        }
    }
}

/// Making or importing a seed overwrites no key: a file is written only if the run looked for it
/// and found none.
pub proof fn no_seed_is_overwritten(run: Run, file: Seq<char>, data: Seq<u8>)
    requires
        run.command matches Some(c) && (c is NewSeed || c is ImportSeed),
        run.step().request == (Request::<Model>::WriteKeyFile { file, data }),
    ensures
        found_missing(run, file),
{
    run_keeps_the_seed_file(run);
}

} // verus!
