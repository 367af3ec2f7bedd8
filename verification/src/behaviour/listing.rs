//! Listing the keys.

use vstd::prelude::*;
use vstd::utf8::encode_utf8;

use crate::behaviour::keeping::{
    Opening, Reading, an_opening_goes, encryptor_of, opening_replies, opening_requests, opens,
    reads,
};
use crate::behaviour::steps::{does, goes, goes_on, over, run_does};
use crate::cli::Commands;
use crate::cose::{
    HeaderItem, HeaderLabel, cid_among, key_encoding, stored_cid, unprotected_headers,
};
use crate::form::{DirEntry, Encrypt0, Model};
use crate::keystore::opening;
use crate::listing::list_from;
use crate::run::Run;
use crate::session::started;
use crate::state::{AfterOpen, KekEncryptor, ListStage, Settings, State, Step};
use crate::wire::{Failure, Outcome, Reply, Request};

verus! {

/// Whether a header is called `cid`.
pub open spec fn called_cid(item: HeaderItem<Seq<char>>) -> bool {
    item.label == HeaderLabel::<Seq<char>>::Text("cid"@)
}

/// Whether what a file holds tells an identifier in the open: its first header that is called
/// `cid` shows it; or whether none is called so.
pub open spec fn tells(data: Seq<u8>, shown: Option<Seq<char>>) -> bool {
    match unprotected_headers(data) {
        Ok(items) => match shown {
            Some(text) => exists|k: int|
                {
                    &&& 0 <= k < items.len()
                    &&& called_cid(#[trigger] items[k])
                    &&& items[k].shown == text
                    &&& forall|j: int| 0 <= j < k ==> !called_cid(#[trigger] items[j])
                },
            None => forall|j: int| 0 <= j < items.len() ==> !called_cid(#[trigger] items[j]),
        },
        Err(_) => false,
    }
}

/// The identifier among headers is what the first one shows that is called `cid`.
pub proof fn the_first_cid_is_taken(items: Seq<HeaderItem<Seq<char>>>)
    ensures
        match cid_among(items) {
            Some(text) => exists|k: int|
                {
                    &&& 0 <= k < items.len()
                    &&& called_cid(#[trigger] items[k])
                    &&& items[k].shown == text
                    &&& forall|j: int| 0 <= j < k ==> !called_cid(#[trigger] items[j])
                },
            None => forall|j: int| 0 <= j < items.len() ==> !called_cid(#[trigger] items[j]),
        },
    decreases items.len(),
{
    if items.len() > 0 {
        if called_cid(items[0]) {
            assert(cid_among(items) == Some(items[0].shown));
        } else {
            let rest = items.drop_first();
            the_first_cid_is_taken(rest);
            assert forall|j: int| 1 <= j < items.len() implies #[trigger] items[j]
                == rest[j - 1] by {}
            match cid_among(rest) {
                Some(text) => {
                    let k: int = choose|k: int|
                        {
                            &&& 0 <= k < rest.len()
                            &&& called_cid(#[trigger] rest[k])
                            &&& rest[k].shown == text
                            &&& forall|j: int| 0 <= j < k ==> !called_cid(#[trigger] rest[j])
                        };
                    assert(items[k + 1] == rest[k]);
                    assert forall|j: int| 0 <= j < k + 1 implies !called_cid(
                        #[trigger] items[j],
                    ) by {
                        if j > 0 {
                            assert(items[j] == rest[j - 1]);
                        }
                    }
                },
                None => {
                    assert forall|j: int| 0 <= j < items.len() implies !called_cid(
                        #[trigger] items[j],
                    ) by {
                        if j > 0 {
                            assert(items[j] == rest[j - 1]);
                        }
                    }
                },
            }
        }
    }
}

/// What a file tells in the open is the identifier that is found in it.
proof fn what_is_told_is_found(data: Seq<u8>, shown: Option<Seq<char>>)
    requires
        tells(data, shown),
    ensures
        stored_cid(data) == Ok::<Option<Seq<char>>, Seq<char>>(shown),
{
    if let Ok(items) = unprotected_headers(data) {
        the_first_cid_is_taken(items);
        if let Some(found) = cid_among(items) {
            let i: int = choose|k: int|
                {
                    &&& 0 <= k < items.len()
                    &&& called_cid(#[trigger] items[k])
                    &&& items[k].shown == found
                    &&& forall|j: int| 0 <= j < k ==> !called_cid(#[trigger] items[j])
                };
            assert(called_cid(items[i]));
            if let Some(text) = shown {
                let k: int = choose|k: int|
                    {
                        &&& 0 <= k < items.len()
                        &&& called_cid(#[trigger] items[k])
                        &&& items[k].shown == text
                        &&& forall|j: int| 0 <= j < k ==> !called_cid(#[trigger] items[j])
                    };
                assert(called_cid(items[k]));
                assert(i == k);
            }
        }
    }
}

/// What is answered about the files of a list, at the places where they stand in it.
pub struct Listing {
    /// What each file holds.
    pub files: Seq<Reading>,
    /// The identifier that each file tells in the open, if it does.
    pub told: Seq<Option<Seq<char>>>,
}

/// Whether the answers about the file at an index let its identifier be shown: from inside where
/// the key encryption key is open, else from what the file tells in the open.
pub open spec fn shows(kek: Option<Encrypt0<Model>>, l: Listing, i: int) -> bool {
    match kek {
        Some(_) => reads(l.files[i]),
        None => tells(l.files[i].data, l.told[i]),
    }
}

/// Whether the answers about the files of a list, from one place up to another, let their
/// identifiers be shown, and none of the entries there failed.
pub open spec fn all_show(
    kek: Option<Encrypt0<Model>>,
    entries: Seq<DirEntry<Seq<char>>>,
    l: Listing,
    from: int,
    to: int,
) -> bool {
    &&& 0 <= from <= to <= entries.len() <= usize::MAX
    &&& forall|i: int|
        from <= i < to ==> match #[trigger] entries[i] {
            DirEntry::File { .. } => shows(kek, l, i),
            DirEntry::Other => true,
            DirEntry::Failed { .. } => false,
        }
}

/// The answers about one file.
pub open spec fn file_replies(kek: Option<Encrypt0<Model>>, l: Listing, i: int) -> Seq<
    Reply<Model>,
> {
    match (kek, l.told[i]) {
        (Some(_), _) => seq![
            Reply::Done,
            Reply::Bytes(l.files[i].tagged),
            Reply::Bytes(l.files[i].data),
            Reply::Bytes(l.files[i].plain),
            Reply::Facts(l.files[i].facts),
            Reply::Done,
        ],
        (None, Some(_)) => seq![
            Reply::Done,
            Reply::Bytes(l.files[i].tagged),
            Reply::Bytes(l.files[i].data),
            Reply::Done,
        ],
        (None, None) => seq![
            Reply::Done,
            Reply::Bytes(l.files[i].tagged),
            Reply::Bytes(l.files[i].data),
        ],
    }
}

/// What is asked for about one file: its name is printed, it is read by its place in the list, and
/// the identifier of its key is printed where there is one.
pub open spec fn file_requests(
    kek: Option<Encrypt0<Model>>,
    name: Seq<char>,
    l: Listing,
    i: int,
) -> Seq<Request<Model>> {
    match (kek, l.told[i]) {
        (Some(encryptor), _) => seq![
            Request::Print { text: "\nkey file: "@ + name },
            Request::ReadListedFile { index: i as usize },
            Request::SkipTag { data: l.files[i].tagged },
            Request::Decrypt {
                encryptor,
                ciphertext: l.files[i].data,
                aad: encode_utf8("ns-inscriber"@),
            },
            Request::InspectKey { key: l.files[i].key },
            Request::Print { text: "key id: "@ + l.files[i].facts.kid_text },
        ],
        (None, Some(shown)) => seq![
            Request::Print { text: "\nkey file: "@ + name },
            Request::ReadListedFile { index: i as usize },
            Request::SkipTag { data: l.files[i].tagged },
            Request::Print { text: "key id: "@ + shown },
        ],
        (None, None) => seq![
            Request::Print { text: "\nkey file: "@ + name },
            Request::ReadListedFile { index: i as usize },
            Request::SkipTag { data: l.files[i].tagged },
        ],
    }
}

/// The answers about the files of a list, from one place up to another.
pub open spec fn list_replies(
    kek: Option<Encrypt0<Model>>,
    entries: Seq<DirEntry<Seq<char>>>,
    l: Listing,
    from: int,
    to: int,
) -> Seq<Reply<Model>>
    decreases to - from,
{
    if from >= to {
        seq![]
    } else {
        match entries[from] {
            DirEntry::File { .. } => file_replies(kek, l, from) + list_replies(
                kek,
                entries,
                l,
                from + 1,
                to,
            ),
            _ => list_replies(kek, entries, l, from + 1, to),
        }
    }
}

/// What is asked for about the files of a list, from one place up to another: each file once, in
/// order, and nothing about the other entries.
pub open spec fn list_requests(
    kek: Option<Encrypt0<Model>>,
    entries: Seq<DirEntry<Seq<char>>>,
    l: Listing,
    from: int,
    to: int,
) -> Seq<Request<Model>>
    decreases to - from,
{
    if from >= to {
        seq![]
    } else {
        match entries[from] {
            DirEntry::File { name } => file_requests(kek, name, l, from) + list_requests(
                kek,
                entries,
                l,
                from + 1,
                to,
            ),
            _ => list_requests(kek, entries, l, from + 1, to),
        }
    }
}

/// The reader that an encryptor makes.
spec fn reader(kek: Option<Encrypt0<Model>>) -> Option<KekEncryptor<Model>> {
    match kek {
        Some(encryptor) => Some(KekEncryptor { encryptor }),
        None => None,
    }
}

/// One file is shown with the identifier inside it.
#[verifier::spinoff_prover]
#[verifier::rlimit(40)]
proof fn a_file_is_shown_with_details(
    settings: Settings<Model>,
    encryptor: Encrypt0<Model>,
    entries: Seq<DirEntry<Seq<char>>>,
    l: Listing,
    name: Seq<char>,
    i: int,
)
    requires
        0 <= i < entries.len() <= usize::MAX,
        entries[i] == (DirEntry::<Seq<char>>::File { name }),
        reads(l.files[i]),
    ensures
        goes(
            settings,
            list_from(reader(Some(encryptor)), entries, i),
            file_replies(Some(encryptor), l, i),
            file_requests(Some(encryptor), name, l, i),
            list_from(reader(Some(encryptor)), entries, i + 1),
        ),
{
    reveal_with_fuel(goes, 7);
}

/// One file is shown with the identifier that it tells.
#[verifier::spinoff_prover]
#[verifier::rlimit(40)]
proof fn a_file_that_tells_is_shown(
    settings: Settings<Model>,
    entries: Seq<DirEntry<Seq<char>>>,
    l: Listing,
    name: Seq<char>,
    i: int,
)
    requires
        0 <= i < entries.len() <= usize::MAX,
        entries[i] == (DirEntry::<Seq<char>>::File { name }),
        l.told[i] is Some,
        tells(l.files[i].data, l.told[i]),
    ensures
        goes(
            settings,
            list_from(reader(None), entries, i),
            file_replies(None, l, i),
            file_requests(None, name, l, i),
            list_from(reader(None), entries, i + 1),
        ),
{
    what_is_told_is_found(l.files[i].data, l.told[i]);
    reveal_with_fuel(goes, 5);
}

/// One file is shown without an identifier.
#[verifier::spinoff_prover]
#[verifier::rlimit(40)]
proof fn a_file_that_tells_nothing_is_shown(
    settings: Settings<Model>,
    entries: Seq<DirEntry<Seq<char>>>,
    l: Listing,
    name: Seq<char>,
    i: int,
)
    requires
        0 <= i < entries.len() <= usize::MAX,
        entries[i] == (DirEntry::<Seq<char>>::File { name }),
        l.told[i] is None,
        tells(l.files[i].data, l.told[i]),
    ensures
        goes(
            settings,
            list_from(reader(None), entries, i),
            file_replies(None, l, i),
            file_requests(None, name, l, i),
            list_from(reader(None), entries, i + 1),
        ),
{
    what_is_told_is_found(l.files[i].data, l.told[i]);
    reveal_with_fuel(goes, 4);
}

/// One file is shown.
#[verifier::spinoff_prover]
#[verifier::rlimit(40)]
proof fn a_file_is_shown(
    settings: Settings<Model>,
    kek: Option<Encrypt0<Model>>,
    entries: Seq<DirEntry<Seq<char>>>,
    l: Listing,
    name: Seq<char>,
    i: int,
)
    requires
        0 <= i < entries.len() <= usize::MAX,
        entries[i] == (DirEntry::<Seq<char>>::File { name }),
        shows(kek, l, i),
    ensures
        goes(
            settings,
            list_from(reader(kek), entries, i),
            file_replies(kek, l, i),
            file_requests(kek, name, l, i),
            list_from(reader(kek), entries, i + 1),
        ),
{
    match (kek, l.told[i]) {
        (Some(encryptor), _) => {
            a_file_is_shown_with_details(settings, encryptor, entries, l, name, i);
        },
        (None, Some(_)) => {
            a_file_that_tells_is_shown(settings, entries, l, name, i);
        },
        (None, None) => {
            a_file_that_tells_nothing_is_shown(settings, entries, l, name, i);
        },
    }
}

/// The files of a list are shown, from one place up to another.
proof fn files_are_shown(
    settings: Settings<Model>,
    kek: Option<Encrypt0<Model>>,
    entries: Seq<DirEntry<Seq<char>>>,
    l: Listing,
    from: int,
    to: int,
)
    requires
        all_show(kek, entries, l, from, to),
    ensures
        goes(
            settings,
            list_from(reader(kek), entries, from),
            list_replies(kek, entries, l, from, to),
            list_requests(kek, entries, l, from, to),
            list_from(reader(kek), entries, to),
        ),
    decreases to - from,
{
    if from < to {
        files_are_shown(settings, kek, entries, l, from + 1, to);
        if let DirEntry::File { name } = entries[from] {
            a_file_is_shown(settings, kek, entries, l, name, from);
            goes_on(
                settings,
                list_from(reader(kek), entries, from),
                file_replies(kek, l, from),
                file_requests(kek, name, l, from),
                list_from(reader(kek), entries, from + 1),
                list_replies(kek, entries, l, from + 1, to),
                list_requests(kek, entries, l, from + 1, to),
                list_from(reader(kek), entries, to),
            );
        }
    }
}

/// The answers before the first file: with details, those of the opening of the key encryption key;
/// and the list.
pub open spec fn listing_replies(
    o: Option<Opening>,
    entries: Seq<DirEntry<Seq<char>>>,
) -> Seq<Reply<Model>> {
    match o {
        Some(o) => opening_replies(o) + seq![Reply::<Model>::Entries(entries)],
        None => seq![Reply::<Model>::Entries(entries)],
    }
}

/// What is asked for before the first file: with details, the key encryption key is opened; and the
/// list.
pub open spec fn listing_requests(settings: Settings<Model>, o: Option<Opening>) -> Seq<
    Request<Model>,
> {
    match o {
        Some(o) => opening_requests(settings, o) + seq![Request::<Model>::ListKeyFiles],
        None => seq![Request::<Model>::ListKeyFiles],
    }
}

/// Whether a run lists the keys: with details, where the key encryption key is opened.
pub open spec fn lists(run: Run, o: Option<Opening>) -> bool {
    match o {
        Some(o) => run.command == Some(Commands::ListKeys { detail: true }) && opens(
            run.settings,
            o,
        ),
        None => run.command == Some(Commands::ListKeys { detail: false }),
    }
}

/// The encryptor with which files are read, where the key encryption key is opened.
pub open spec fn lister(o: Option<Opening>) -> Option<Encrypt0<Model>> {
    match o {
        Some(o) => Some(encryptor_of(o)),
        None => None,
    }
}

/// A run lists the keys up to a place, and then goes on to its end.
proof fn a_listing_does(
    run: Run,
    o: Option<Opening>,
    entries: Seq<DirEntry<Seq<char>>>,
    l: Listing,
    to: int,
    replies: Seq<Reply<Model>>,
    requests: Seq<Request<Model>>,
    outcome: Outcome<Model>,
)
    requires
        lists(run, o),
        all_show(lister(o), entries, l, 0, to),
        run.replies == listing_replies(o, entries) + list_replies(lister(o), entries, l, 0, to)
            + replies,
        goes(
            run.settings,
            list_from(reader(lister(o)), entries, to),
            replies,
            requests,
            over(outcome),
        ),
    ensures
        does(
            run,
            listing_requests(run.settings, o) + list_requests(lister(o), entries, l, 0, to)
                + requests,
            outcome,
        ),
{
    let settings = run.settings;
    let kek = lister(o);
    let first = list_from(reader(kek), entries, 0);
    let wanted = Step::<Model> {
        state: State::List(ListStage::Entries { kek: reader(kek) }),
        request: Request::ListKeyFiles,
    };
    let list = seq![Reply::<Model>::Entries(entries)];
    let ask = seq![Request::<Model>::ListKeyFiles];
    assert(goes(settings, wanted, list, ask, first)) by {
        reveal_with_fuel(goes, 2);
    }
    if let Some(o) = o {
        an_opening_goes(settings, o, AfterOpen::List);
        goes_on(
            settings,
            opening(settings, AfterOpen::List),
            opening_replies(o),
            opening_requests(settings, o),
            wanted,
            list,
            ask,
            first,
        );
    }
    assert(goes(
        settings,
        started(settings, run.command),
        listing_replies(o, entries),
        listing_requests(settings, o),
        first,
    ));
    files_are_shown(settings, kek, entries, l, 0, to);
    goes_on(
        settings,
        started(settings, run.command),
        listing_replies(o, entries),
        listing_requests(settings, o),
        first,
        list_replies(kek, entries, l, 0, to),
        list_requests(kek, entries, l, 0, to),
        list_from(reader(kek), entries, to),
    );
    goes_on(
        settings,
        started(settings, run.command),
        listing_replies(o, entries) + list_replies(kek, entries, l, 0, to),
        listing_requests(settings, o) + list_requests(kek, entries, l, 0, to),
        list_from(reader(kek), entries, to),
        replies,
        requests,
        over(outcome),
    );
    run_does(
        run,
        listing_requests(settings, o) + list_requests(kek, entries, l, 0, to) + requests,
        outcome,
    );
}

/// A list shows exactly its files, each once and in order: its name is printed, it is read by its
/// place in the list, and the identifier of its key is printed where there is one.
pub proof fn every_file_is_listed(
    run: Run,
    o: Option<Opening>,
    entries: Seq<DirEntry<Seq<char>>>,
    l: Listing,
)
    requires
        lists(run, o),
        all_show(lister(o), entries, l, 0, entries.len() as int),
        run.replies == listing_replies(o, entries) + list_replies(
            lister(o),
            entries,
            l,
            0,
            entries.len() as int,
        ),
    ensures
        does(
            run,
            listing_requests(run.settings, o) + list_requests(
                lister(o),
                entries,
                l,
                0,
                entries.len() as int,
            ),
            Outcome::Success,
        ),
{
    let to: int = entries.len() as int;
    let none = Seq::<Reply<Model>>::empty();
    let nothing = Seq::<Request<Model>>::empty();
    let front = listing_requests(run.settings, o) + list_requests(lister(o), entries, l, 0, to);
    assert(run.replies =~= listing_replies(o, entries) + list_replies(lister(o), entries, l, 0, to)
        + none);
    assert(front + nothing =~= front);
    a_listing_does(run, o, entries, l, to, none, nothing, Outcome::Success);
}

/// An entry that failed ends a list, once the files before it are shown.
pub proof fn a_failed_entry_ends_a_list(
    run: Run,
    o: Option<Opening>,
    entries: Seq<DirEntry<Seq<char>>>,
    l: Listing,
    k: int,
    message: Seq<char>,
)
    requires
        lists(run, o),
        0 <= k < entries.len(),
        all_show(lister(o), entries, l, 0, k),
        entries[k] == (DirEntry::<Seq<char>>::Failed { message }),
        run.replies == listing_replies(o, entries) + list_replies(lister(o), entries, l, 0, k),
    ensures
        does(
            run,
            listing_requests(run.settings, o) + list_requests(lister(o), entries, l, 0, k),
            Outcome::Failure(Failure::Outside { messages: seq![message] }),
        ),
{
    let none = Seq::<Reply<Model>>::empty();
    let nothing = Seq::<Request<Model>>::empty();
    let front = listing_requests(run.settings, o) + list_requests(lister(o), entries, l, 0, k);
    assert(run.replies =~= listing_replies(o, entries) + list_replies(lister(o), entries, l, 0, k)
        + none);
    assert(front + nothing =~= front);
    a_listing_does(
        run,
        o,
        entries,
        l,
        k,
        none,
        nothing,
        Outcome::Failure(Failure::Outside { messages: seq![message] }),
    );
}

/// A file whose headers cannot be read ends a list without details, once the files before it are
/// shown.
pub proof fn an_unreadable_file_ends_a_list(
    run: Run,
    entries: Seq<DirEntry<Seq<char>>>,
    l: Listing,
    k: int,
    name: Seq<char>,
    message: Seq<char>,
)
    requires
        lists(run, None),
        0 <= k < entries.len(),
        all_show(None, entries, l, 0, k),
        entries[k] == (DirEntry::<Seq<char>>::File { name }),
        unprotected_headers(l.files[k].data) == Err::<Seq<HeaderItem<Seq<char>>>, Seq<char>>(
            message,
        ),
        run.replies == listing_replies(None, entries) + list_replies(None, entries, l, 0, k)
            + seq![
            Reply::<Model>::Done,
            Reply::Bytes(l.files[k].tagged),
            Reply::Bytes(l.files[k].data),
        ],
    ensures
        does(
            run,
            listing_requests(run.settings, None) + list_requests(None, entries, l, 0, k) + seq![
                Request::<Model>::Print { text: "\nkey file: "@ + name },
                Request::ReadListedFile { index: k as usize },
                Request::SkipTag { data: l.files[k].tagged },
            ],
            Outcome::Failure(Failure::Outside { messages: seq![message] }),
        ),
{
    let outcome: Outcome<Model> = Outcome::Failure(Failure::Outside { messages: seq![message] });
    let replies = seq![
        Reply::<Model>::Done,
        Reply::Bytes(l.files[k].tagged),
        Reply::Bytes(l.files[k].data),
    ];
    let requests = seq![
        Request::<Model>::Print { text: "\nkey file: "@ + name },
        Request::ReadListedFile { index: k as usize },
        Request::SkipTag { data: l.files[k].tagged },
    ];
    assert(goes(
        run.settings,
        list_from(reader(None), entries, k),
        replies,
        requests,
        over(outcome),
    )) by {
        reveal_with_fuel(goes, 4);
    }
    a_listing_does(run, None, entries, l, k, replies, requests, outcome);
}

/// A file that holds no key ends a list with details, once the files before it are shown.
pub proof fn a_file_without_a_key_ends_a_list(
    run: Run,
    o: Opening,
    entries: Seq<DirEntry<Seq<char>>>,
    l: Listing,
    k: int,
    name: Seq<char>,
    message: Seq<char>,
)
    requires
        lists(run, Some(o)),
        0 <= k < entries.len(),
        all_show(Some(encryptor_of(o)), entries, l, 0, k),
        entries[k] == (DirEntry::<Seq<char>>::File { name }),
        key_encoding(l.files[k].plain) == Err::<Seq<u8>, Seq<char>>(message),
        run.replies == listing_replies(Some(o), entries) + list_replies(
            Some(encryptor_of(o)),
            entries,
            l,
            0,
            k,
        ) + seq![
            Reply::<Model>::Done,
            Reply::Bytes(l.files[k].tagged),
            Reply::Bytes(l.files[k].data),
            Reply::Bytes(l.files[k].plain),
        ],
    ensures
        does(
            run,
            listing_requests(run.settings, Some(o)) + list_requests(
                Some(encryptor_of(o)),
                entries,
                l,
                0,
                k,
            ) + seq![
                Request::<Model>::Print { text: "\nkey file: "@ + name },
                Request::ReadListedFile { index: k as usize },
                Request::SkipTag { data: l.files[k].tagged },
                Request::Decrypt {
                    encryptor: encryptor_of(o),
                    ciphertext: l.files[k].data,
                    aad: encode_utf8("ns-inscriber"@),
                },
            ],
            Outcome::Failure(Failure::Outside { messages: seq![message] }),
        ),
{
    let outcome: Outcome<Model> = Outcome::Failure(Failure::Outside { messages: seq![message] });
    let replies = seq![
        Reply::<Model>::Done,
        Reply::Bytes(l.files[k].tagged),
        Reply::Bytes(l.files[k].data),
        Reply::Bytes(l.files[k].plain),
    ];
    let requests = seq![
        Request::<Model>::Print { text: "\nkey file: "@ + name },
        Request::ReadListedFile { index: k as usize },
        Request::SkipTag { data: l.files[k].tagged },
        Request::Decrypt {
            encryptor: encryptor_of(o),
            ciphertext: l.files[k].data,
            aad: encode_utf8("ns-inscriber"@),
        },
    ];
    assert(goes(
        run.settings,
        list_from(reader(Some(encryptor_of(o))), entries, k),
        replies,
        requests,
        over(outcome),
    )) by {
        reveal_with_fuel(goes, 5);
    }
    a_listing_does(run, Some(o), entries, l, k, replies, requests, outcome);
}

} // verus!
