//! Signing and verifying messages.

use vstd::prelude::*;
use vstd::utf8::encode_utf8;

use crate::behaviour::addresses::secp256k1_refusal;
use crate::behaviour::keeping::{
    Opening, Reading, a_keyed_run_does, encryptor_of, opening_replies, opening_requests, opens,
    reading_replies, reading_requests, reads,
};
use crate::behaviour::steps::{does, goes, over};
use crate::chain::{secp256k1_public_key, valid_secret_key};
use crate::cli::Commands;
use crate::form::Model;
use crate::hexadecimal::{hex_bytes, hex_error, hex_text, is_hex};
use crate::run::Run;
use crate::session::obtained;
use crate::state::{AfterRead, KekEncryptor};
use crate::wire::{Failure, Outcome, Reply, Request};

verus! {

/// A message is signed with the secret of a secp256k1 key, and the signature is shown in hexadecimal.
pub proof fn a_message_is_signed_with_secp256k1_in_hex(
    run: Run,
    key: String,
    msg: String,
    enc: String,
    o: Opening,
    r: Reading,
    secret: Seq<u8>,
    made: Seq<u8>,
)
    requires
        run.command == Some(Commands::SignMessage { key, msg, enc }),
        opens(run.settings, o),
        reads(r),
        r.facts.secp256k1,
        r.facts.secret == Ok::<Seq<u8>, Seq<Seq<char>>>(secret),
        valid_secret_key(secret),
        enc@ == "hex"@,
        run.replies == opening_replies(o) + reading_replies(r) + seq![
            Reply::<Model>::Done,
            Reply::Bytes(made),
            Reply::Done,
        ],
    ensures
        does(
            run,
            opening_requests(run.settings, o) + reading_requests(encryptor_of(o), key@, r) + seq![
                Request::<Model>::Print { text: "message: "@ + msg@ },
                Request::SignSecp256k1 { secret, message: msg@ },
                Request::Print { text: "signature:\n"@ + hex_text(made) },
            ],
            Outcome::Success,
        ),
{
    let settings = run.settings;
    let kek = KekEncryptor::<Model> { encryptor: encryptor_of(o) };
    let after = AfterRead::<Model>::Sign { message: msg@, hex: enc@ == "hex"@ };
    let outcome: Outcome<Model> = Outcome::Success;
    let replies = seq![
        Reply::<Model>::Done,
        Reply::Bytes(made),
        Reply::Done,
    ];
    let requests = seq![
        Request::<Model>::Print { text: "message: "@ + msg@ },
        Request::SignSecp256k1 { secret, message: msg@ },
        Request::Print { text: "signature:\n"@ + hex_text(made) },
    ];
    assert(goes(
        settings,
        obtained(settings, kek, r.key, r.facts, after),
        replies,
        requests,
        over(outcome),
    )) by {
        reveal_with_fuel(goes, 4);
    }
    a_keyed_run_does(run, o, key@, r, after, replies, requests, outcome);
}

/// A message is signed with the secret of a secp256k1 key, and the signature is shown in base64
/// where hexadecimal is not asked for.
pub proof fn a_message_is_signed_with_secp256k1(
    run: Run,
    key: String,
    msg: String,
    enc: String,
    o: Opening,
    r: Reading,
    secret: Seq<u8>,
    made: Seq<u8>,
    text: Seq<char>,
)
    requires
        run.command == Some(Commands::SignMessage { key, msg, enc }),
        opens(run.settings, o),
        reads(r),
        r.facts.secp256k1,
        r.facts.secret == Ok::<Seq<u8>, Seq<Seq<char>>>(secret),
        valid_secret_key(secret),
        enc@ != "hex"@,
        run.replies == opening_replies(o) + reading_replies(r) + seq![
            Reply::<Model>::Done,
            Reply::Bytes(made),
            Reply::Text(text),
            Reply::Done,
        ],
    ensures
        does(
            run,
            opening_requests(run.settings, o) + reading_requests(encryptor_of(o), key@, r) + seq![
                Request::<Model>::Print { text: "message: "@ + msg@ },
                Request::SignSecp256k1 { secret, message: msg@ },
                Request::EncodeBase64Url { data: made },
                Request::Print { text: "signature:\n"@ + text },
            ],
            Outcome::Success,
        ),
{
    let settings = run.settings;
    let kek = KekEncryptor::<Model> { encryptor: encryptor_of(o) };
    let after = AfterRead::<Model>::Sign { message: msg@, hex: enc@ == "hex"@ };
    let outcome: Outcome<Model> = Outcome::Success;
    let replies = seq![
        Reply::<Model>::Done,
        Reply::Bytes(made),
        Reply::Text(text),
        Reply::Done,
    ];
    let requests = seq![
        Request::<Model>::Print { text: "message: "@ + msg@ },
        Request::SignSecp256k1 { secret, message: msg@ },
        Request::EncodeBase64Url { data: made },
        Request::Print { text: "signature:\n"@ + text },
    ];
    assert(goes(
        settings,
        obtained(settings, kek, r.key, r.facts, after),
        replies,
        requests,
        over(outcome),
    )) by {
        reveal_with_fuel(goes, 5);
    }
    a_keyed_run_does(run, o, key@, r, after, replies, requests, outcome);
}

/// A message is signed with an Ed25519 key for its purpose, and the signed message is shown in
/// hexadecimal.
pub proof fn a_message_is_signed_with_ed25519_in_hex(
    run: Run,
    key: String,
    msg: String,
    enc: String,
    o: Opening,
    r: Reading,
    made: Seq<u8>,
)
    requires
        run.command == Some(Commands::SignMessage { key, msg, enc }),
        opens(run.settings, o),
        reads(r),
        !r.facts.secp256k1,
        r.facts.ed25519,
        enc@ == "hex"@,
        run.replies == opening_replies(o) + reading_replies(r) + seq![
            Reply::<Model>::Done,
            Reply::Bytes(made),
            Reply::Done,
        ],
    ensures
        does(
            run,
            opening_requests(run.settings, o) + reading_requests(encryptor_of(o), key@, r) + seq![
                Request::<Model>::Print { text: "message: "@ + msg@ },
                Request::SignEd25519 {
                    key: r.key,
                    payload: encode_utf8(msg@),
                    aad: encode_utf8("NS:COSE/Sign.Mesage"@),
                },
                Request::Print { text: "signed message:\n"@ + hex_text(made) },
            ],
            Outcome::Success,
        ),
{
    let settings = run.settings;
    let kek = KekEncryptor::<Model> { encryptor: encryptor_of(o) };
    let after = AfterRead::<Model>::Sign { message: msg@, hex: enc@ == "hex"@ };
    let outcome: Outcome<Model> = Outcome::Success;
    let replies = seq![
        Reply::<Model>::Done,
        Reply::Bytes(made),
        Reply::Done,
    ];
    let requests = seq![
        Request::<Model>::Print { text: "message: "@ + msg@ },
        Request::SignEd25519 {
                    key: r.key,
                    payload: encode_utf8(msg@),
                    aad: encode_utf8("NS:COSE/Sign.Mesage"@),
                },
        Request::Print { text: "signed message:\n"@ + hex_text(made) },
    ];
    assert(goes(
        settings,
        obtained(settings, kek, r.key, r.facts, after),
        replies,
        requests,
        over(outcome),
    )) by {
        reveal_with_fuel(goes, 4);
    }
    a_keyed_run_does(run, o, key@, r, after, replies, requests, outcome);
}

/// A message is signed with an Ed25519 key for its purpose, and the signed message is shown in
/// base64 where hexadecimal is not asked for.
pub proof fn a_message_is_signed_with_ed25519(
    run: Run,
    key: String,
    msg: String,
    enc: String,
    o: Opening,
    r: Reading,
    made: Seq<u8>,
    text: Seq<char>,
)
    requires
        run.command == Some(Commands::SignMessage { key, msg, enc }),
        opens(run.settings, o),
        reads(r),
        !r.facts.secp256k1,
        r.facts.ed25519,
        enc@ != "hex"@,
        run.replies == opening_replies(o) + reading_replies(r) + seq![
            Reply::<Model>::Done,
            Reply::Bytes(made),
            Reply::Text(text),
            Reply::Done,
        ],
    ensures
        does(
            run,
            opening_requests(run.settings, o) + reading_requests(encryptor_of(o), key@, r) + seq![
                Request::<Model>::Print { text: "message: "@ + msg@ },
                Request::SignEd25519 {
                    key: r.key,
                    payload: encode_utf8(msg@),
                    aad: encode_utf8("NS:COSE/Sign.Mesage"@),
                },
                Request::EncodeBase64Url { data: made },
                Request::Print { text: "signed message:\n"@ + text },
            ],
            Outcome::Success,
        ),
{
    let settings = run.settings;
    let kek = KekEncryptor::<Model> { encryptor: encryptor_of(o) };
    let after = AfterRead::<Model>::Sign { message: msg@, hex: enc@ == "hex"@ };
    let outcome: Outcome<Model> = Outcome::Success;
    let replies = seq![
        Reply::<Model>::Done,
        Reply::Bytes(made),
        Reply::Text(text),
        Reply::Done,
    ];
    let requests = seq![
        Request::<Model>::Print { text: "message: "@ + msg@ },
        Request::SignEd25519 {
                    key: r.key,
                    payload: encode_utf8(msg@),
                    aad: encode_utf8("NS:COSE/Sign.Mesage"@),
                },
        Request::EncodeBase64Url { data: made },
        Request::Print { text: "signed message:\n"@ + text },
    ];
    assert(goes(
        settings,
        obtained(settings, kek, r.key, r.facts, after),
        replies,
        requests,
        over(outcome),
    )) by {
        reveal_with_fuel(goes, 5);
    }
    a_keyed_run_does(run, o, key@, r, after, replies, requests, outcome);
}

/// A key on neither curve signs nothing.
pub proof fn a_message_is_not_signed_with_another_key(
    run: Run,
    key: String,
    msg: String,
    enc: String,
    o: Opening,
    r: Reading,
)
    requires
        run.command == Some(Commands::SignMessage { key, msg, enc }),
        opens(run.settings, o),
        reads(r),
        !r.facts.secp256k1,
        !r.facts.ed25519,
        run.replies == opening_replies(o) + reading_replies(r) + seq![
            Reply::<Model>::Done,
            Reply::Done,
        ],
    ensures
        does(
            run,
            opening_requests(run.settings, o) + reading_requests(encryptor_of(o), key@, r) + seq![
                Request::<Model>::Print { text: "message: "@ + msg@ },
                Request::Print { text: "unsupported key type"@ },
            ],
            Outcome::Success,
        ),
{
    let settings = run.settings;
    let kek = KekEncryptor::<Model> { encryptor: encryptor_of(o) };
    let after = AfterRead::<Model>::Sign { message: msg@, hex: enc@ == "hex"@ };
    let outcome: Outcome<Model> = Outcome::Success;
    let replies = seq![
        Reply::<Model>::Done,
        Reply::Done,
    ];
    let requests = seq![
        Request::<Model>::Print { text: "message: "@ + msg@ },
        Request::Print { text: "unsupported key type"@ },
    ];
    assert(goes(
        settings,
        obtained(settings, kek, r.key, r.facts, after),
        replies,
        requests,
        over(outcome),
    )) by {
        reveal_with_fuel(goes, 3);
    }
    a_keyed_run_does(run, o, key@, r, after, replies, requests, outcome);
}

/// A secp256k1 key without a usable secret signs nothing.
pub proof fn a_message_is_not_signed_without_a_secret(
    run: Run,
    key: String,
    msg: String,
    enc: String,
    o: Opening,
    r: Reading,
    failure: Failure<Model>,
)
    requires
        run.command == Some(Commands::SignMessage { key, msg, enc }),
        opens(run.settings, o),
        reads(r),
        r.facts.secp256k1,
        secp256k1_refusal(r.facts, key@) == Some(failure),
        run.replies == opening_replies(o) + reading_replies(r) + seq![
            Reply::<Model>::Done,
        ],
    ensures
        does(
            run,
            opening_requests(run.settings, o) + reading_requests(encryptor_of(o), key@, r) + seq![
                Request::<Model>::Print { text: "message: "@ + msg@ },
            ],
            Outcome::Failure(failure),
        ),
{
    let settings = run.settings;
    let kek = KekEncryptor::<Model> { encryptor: encryptor_of(o) };
    let after = AfterRead::<Model>::Sign { message: msg@, hex: enc@ == "hex"@ };
    let outcome: Outcome<Model> = Outcome::Failure(failure);
    let replies = seq![
        Reply::<Model>::Done,
    ];
    let requests = seq![
        Request::<Model>::Print { text: "message: "@ + msg@ },
    ];
    assert(goes(
        settings,
        obtained(settings, kek, r.key, r.facts, after),
        replies,
        requests,
        over(outcome),
    )) by {
        reveal_with_fuel(goes, 2);
    }
    a_keyed_run_does(run, o, key@, r, after, replies, requests, outcome);
}

/// A signature in hexadecimal is checked under the message with the public half of a secp256k1 key.
pub proof fn a_signature_in_hex_is_verified(
    run: Run,
    key: String,
    msg: String,
    sig: String,
    enc: String,
    o: Opening,
    r: Reading,
    secret: Seq<u8>,
)
    requires
        run.command == Some(Commands::VerifyMessage { key, msg, sig, enc }),
        opens(run.settings, o),
        reads(r),
        r.facts.secp256k1,
        r.facts.secret == Ok::<Seq<u8>, Seq<Seq<char>>>(secret),
        valid_secret_key(secret),
        enc@ == "hex"@,
        is_hex(sig@),
        run.replies == opening_replies(o) + reading_replies(r) + seq![
            Reply::<Model>::Done,
            Reply::Done,
        ],
    ensures
        does(
            run,
            opening_requests(run.settings, o) + reading_requests(encryptor_of(o), key@, r) + seq![
                Request::<Model>::VerifySecp256k1 {
                    public_key: secp256k1_public_key(secret),
                    message: msg@,
                    signature: hex_bytes(sig@),
                },
                Request::Print { text: "signature is valid"@ },
            ],
            Outcome::Success,
        ),
{
    let settings = run.settings;
    let kek = KekEncryptor::<Model> { encryptor: encryptor_of(o) };
    let after = AfterRead::<Model>::Verify {
        message: msg@,
        signature: sig@,
        hex: enc@ == "hex"@,
    };
    let outcome: Outcome<Model> = Outcome::Success;
    let replies = seq![
        Reply::<Model>::Done,
        Reply::Done,
    ];
    let requests = seq![
        Request::<Model>::VerifySecp256k1 {
                    public_key: secp256k1_public_key(secret),
                    message: msg@,
                    signature: hex_bytes(sig@),
                },
        Request::Print { text: "signature is valid"@ },
    ];
    assert(goes(
        settings,
        obtained(settings, kek, r.key, r.facts, after),
        replies,
        requests,
        over(outcome),
    )) by {
        reveal_with_fuel(goes, 3);
    }
    a_keyed_run_does(run, o, key@, r, after, replies, requests, outcome);
}

/// A signature in base64 is decoded, and checked under the message with the public half of a
/// secp256k1 key.
pub proof fn a_signature_is_verified_from_base64(
    run: Run,
    key: String,
    msg: String,
    sig: String,
    enc: String,
    o: Opening,
    r: Reading,
    secret: Seq<u8>,
    signature: Seq<u8>,
)
    requires
        run.command == Some(Commands::VerifyMessage { key, msg, sig, enc }),
        opens(run.settings, o),
        reads(r),
        r.facts.secp256k1,
        r.facts.secret == Ok::<Seq<u8>, Seq<Seq<char>>>(secret),
        valid_secret_key(secret),
        enc@ != "hex"@,
        run.replies == opening_replies(o) + reading_replies(r) + seq![
            Reply::<Model>::Bytes(signature),
            Reply::Done,
            Reply::Done,
        ],
    ensures
        does(
            run,
            opening_requests(run.settings, o) + reading_requests(encryptor_of(o), key@, r) + seq![
                Request::<Model>::DecodeBase64 { text: sig@ },
                Request::VerifySecp256k1 {
                    public_key: secp256k1_public_key(secret),
                    message: msg@,
                    signature,
                },
                Request::Print { text: "signature is valid"@ },
            ],
            Outcome::Success,
        ),
{
    let settings = run.settings;
    let kek = KekEncryptor::<Model> { encryptor: encryptor_of(o) };
    let after = AfterRead::<Model>::Verify {
        message: msg@,
        signature: sig@,
        hex: enc@ == "hex"@,
    };
    let outcome: Outcome<Model> = Outcome::Success;
    let replies = seq![
        Reply::<Model>::Bytes(signature),
        Reply::Done,
        Reply::Done,
    ];
    let requests = seq![
        Request::<Model>::DecodeBase64 { text: sig@ },
        Request::VerifySecp256k1 {
                    public_key: secp256k1_public_key(secret),
                    message: msg@,
                    signature,
                },
        Request::Print { text: "signature is valid"@ },
    ];
    assert(goes(
        settings,
        obtained(settings, kek, r.key, r.facts, after),
        replies,
        requests,
        over(outcome),
    )) by {
        reveal_with_fuel(goes, 4);
    }
    a_keyed_run_does(run, o, key@, r, after, replies, requests, outcome);
}

/// A signed message in hexadecimal is checked with an Ed25519 key for its purpose.
pub proof fn a_signed_message_in_hex_is_verified(
    run: Run,
    key: String,
    msg: String,
    sig: String,
    enc: String,
    o: Opening,
    r: Reading,
)
    requires
        run.command == Some(Commands::VerifyMessage { key, msg, sig, enc }),
        opens(run.settings, o),
        reads(r),
        !r.facts.secp256k1,
        r.facts.ed25519,
        enc@ == "hex"@,
        is_hex(msg@),
        run.replies == opening_replies(o) + reading_replies(r) + seq![
            Reply::<Model>::Done,
            Reply::Done,
        ],
    ensures
        does(
            run,
            opening_requests(run.settings, o) + reading_requests(encryptor_of(o), key@, r) + seq![
                Request::<Model>::VerifyEd25519 {
                    key: r.key,
                    signed: hex_bytes(msg@),
                    aad: encode_utf8("NS:COSE/Sign.Mesage"@),
                },
                Request::Print { text: "signature is valid"@ },
            ],
            Outcome::Success,
        ),
{
    let settings = run.settings;
    let kek = KekEncryptor::<Model> { encryptor: encryptor_of(o) };
    let after = AfterRead::<Model>::Verify {
        message: msg@,
        signature: sig@,
        hex: enc@ == "hex"@,
    };
    let outcome: Outcome<Model> = Outcome::Success;
    let replies = seq![
        Reply::<Model>::Done,
        Reply::Done,
    ];
    let requests = seq![
        Request::<Model>::VerifyEd25519 {
                    key: r.key,
                    signed: hex_bytes(msg@),
                    aad: encode_utf8("NS:COSE/Sign.Mesage"@),
                },
        Request::Print { text: "signature is valid"@ },
    ];
    assert(goes(
        settings,
        obtained(settings, kek, r.key, r.facts, after),
        replies,
        requests,
        over(outcome),
    )) by {
        reveal_with_fuel(goes, 3);
    }
    a_keyed_run_does(run, o, key@, r, after, replies, requests, outcome);
}

/// A signed message in base64 is decoded, and checked with an Ed25519 key for its purpose.
pub proof fn a_signed_message_is_verified_from_base64(
    run: Run,
    key: String,
    msg: String,
    sig: String,
    enc: String,
    o: Opening,
    r: Reading,
    signed: Seq<u8>,
)
    requires
        run.command == Some(Commands::VerifyMessage { key, msg, sig, enc }),
        opens(run.settings, o),
        reads(r),
        !r.facts.secp256k1,
        r.facts.ed25519,
        enc@ != "hex"@,
        run.replies == opening_replies(o) + reading_replies(r) + seq![
            Reply::<Model>::Bytes(signed),
            Reply::Done,
            Reply::Done,
        ],
    ensures
        does(
            run,
            opening_requests(run.settings, o) + reading_requests(encryptor_of(o), key@, r) + seq![
                Request::<Model>::DecodeBase64 { text: msg@ },
                Request::VerifyEd25519 {
                    key: r.key,
                    signed,
                    aad: encode_utf8("NS:COSE/Sign.Mesage"@),
                },
                Request::Print { text: "signature is valid"@ },
            ],
            Outcome::Success,
        ),
{
    let settings = run.settings;
    let kek = KekEncryptor::<Model> { encryptor: encryptor_of(o) };
    let after = AfterRead::<Model>::Verify {
        message: msg@,
        signature: sig@,
        hex: enc@ == "hex"@,
    };
    let outcome: Outcome<Model> = Outcome::Success;
    let replies = seq![
        Reply::<Model>::Bytes(signed),
        Reply::Done,
        Reply::Done,
    ];
    let requests = seq![
        Request::<Model>::DecodeBase64 { text: msg@ },
        Request::VerifyEd25519 {
                    key: r.key,
                    signed,
                    aad: encode_utf8("NS:COSE/Sign.Mesage"@),
                },
        Request::Print { text: "signature is valid"@ },
    ];
    assert(goes(
        settings,
        obtained(settings, kek, r.key, r.facts, after),
        replies,
        requests,
        over(outcome),
    )) by {
        reveal_with_fuel(goes, 4);
    }
    a_keyed_run_does(run, o, key@, r, after, replies, requests, outcome);
}

/// With a secp256k1 key, a signature that is not hexadecimal is refused.
pub proof fn a_signature_that_is_not_hex_is_refused(
    run: Run,
    key: String,
    msg: String,
    sig: String,
    enc: String,
    o: Opening,
    r: Reading,
)
    requires
        run.command == Some(Commands::VerifyMessage { key, msg, sig, enc }),
        opens(run.settings, o),
        reads(r),
        r.facts.secp256k1,
        enc@ == "hex"@,
        !is_hex(sig@),
        run.replies == opening_replies(o) + reading_replies(r),
    ensures
        does(
            run,
            opening_requests(run.settings, o) + reading_requests(encryptor_of(o), key@, r),
            Outcome::Failure(Failure::Outside { messages: hex_error(sig@) }),
        ),
{
    let settings = run.settings;
    let kek = KekEncryptor::<Model> { encryptor: encryptor_of(o) };
    let after = AfterRead::<Model>::Verify {
        message: msg@,
        signature: sig@,
        hex: enc@ == "hex"@,
    };
    let outcome: Outcome<Model> = Outcome::Failure(Failure::Outside { messages: hex_error(sig@) });
    let replies = Seq::<Reply<Model>>::empty();
    let requests = Seq::<Request<Model>>::empty();
    let front = opening_requests(settings, o) + reading_requests(encryptor_of(o), key@, r);
    assert(run.replies =~= opening_replies(o) + reading_replies(r) + replies);
    assert(front + requests =~= front);
    assert(goes(
        settings,
        obtained(settings, kek, r.key, r.facts, after),
        replies,
        requests,
        over(outcome),
    )) by {
        reveal_with_fuel(goes, 1);
    }
    a_keyed_run_does(run, o, key@, r, after, replies, requests, outcome);
}

/// With an Ed25519 key, a signed message that is not hexadecimal is refused.
pub proof fn a_signed_message_that_is_not_hex_is_refused(
    run: Run,
    key: String,
    msg: String,
    sig: String,
    enc: String,
    o: Opening,
    r: Reading,
)
    requires
        run.command == Some(Commands::VerifyMessage { key, msg, sig, enc }),
        opens(run.settings, o),
        reads(r),
        !r.facts.secp256k1,
        r.facts.ed25519,
        enc@ == "hex"@,
        !is_hex(msg@),
        run.replies == opening_replies(o) + reading_replies(r),
    ensures
        does(
            run,
            opening_requests(run.settings, o) + reading_requests(encryptor_of(o), key@, r),
            Outcome::Failure(Failure::Outside { messages: hex_error(msg@) }),
        ),
{
    let settings = run.settings;
    let kek = KekEncryptor::<Model> { encryptor: encryptor_of(o) };
    let after = AfterRead::<Model>::Verify {
        message: msg@,
        signature: sig@,
        hex: enc@ == "hex"@,
    };
    let outcome: Outcome<Model> = Outcome::Failure(Failure::Outside { messages: hex_error(msg@) });
    let replies = Seq::<Reply<Model>>::empty();
    let requests = Seq::<Request<Model>>::empty();
    let front = opening_requests(settings, o) + reading_requests(encryptor_of(o), key@, r);
    assert(run.replies =~= opening_replies(o) + reading_replies(r) + replies);
    assert(front + requests =~= front);
    assert(goes(
        settings,
        obtained(settings, kek, r.key, r.facts, after),
        replies,
        requests,
        over(outcome),
    )) by {
        reveal_with_fuel(goes, 1);
    }
    a_keyed_run_does(run, o, key@, r, after, replies, requests, outcome);
}

/// A secp256k1 key without a usable secret verifies no signature in hexadecimal.
pub proof fn a_signature_in_hex_is_not_verified_without_a_secret(
    run: Run,
    key: String,
    msg: String,
    sig: String,
    enc: String,
    o: Opening,
    r: Reading,
    failure: Failure<Model>,
)
    requires
        run.command == Some(Commands::VerifyMessage { key, msg, sig, enc }),
        opens(run.settings, o),
        reads(r),
        r.facts.secp256k1,
        secp256k1_refusal(r.facts, key@) == Some(failure),
        enc@ == "hex"@,
        is_hex(sig@),
        run.replies == opening_replies(o) + reading_replies(r),
    ensures
        does(
            run,
            opening_requests(run.settings, o) + reading_requests(encryptor_of(o), key@, r),
            Outcome::Failure(failure),
        ),
{
    let settings = run.settings;
    let kek = KekEncryptor::<Model> { encryptor: encryptor_of(o) };
    let after = AfterRead::<Model>::Verify {
        message: msg@,
        signature: sig@,
        hex: enc@ == "hex"@,
    };
    let outcome: Outcome<Model> = Outcome::Failure(failure);
    let replies = Seq::<Reply<Model>>::empty();
    let requests = Seq::<Request<Model>>::empty();
    let front = opening_requests(settings, o) + reading_requests(encryptor_of(o), key@, r);
    assert(run.replies =~= opening_replies(o) + reading_replies(r) + replies);
    assert(front + requests =~= front);
    assert(goes(
        settings,
        obtained(settings, kek, r.key, r.facts, after),
        replies,
        requests,
        over(outcome),
    )) by {
        reveal_with_fuel(goes, 1);
    }
    a_keyed_run_does(run, o, key@, r, after, replies, requests, outcome);
}

/// A secp256k1 key without a usable secret verifies no signature in base64 either.
pub proof fn a_signature_is_not_verified_without_a_secret(
    run: Run,
    key: String,
    msg: String,
    sig: String,
    enc: String,
    o: Opening,
    r: Reading,
    failure: Failure<Model>,
    signature: Seq<u8>,
)
    requires
        run.command == Some(Commands::VerifyMessage { key, msg, sig, enc }),
        opens(run.settings, o),
        reads(r),
        r.facts.secp256k1,
        secp256k1_refusal(r.facts, key@) == Some(failure),
        enc@ != "hex"@,
        run.replies == opening_replies(o) + reading_replies(r) + seq![
            Reply::<Model>::Bytes(signature),
        ],
    ensures
        does(
            run,
            opening_requests(run.settings, o) + reading_requests(encryptor_of(o), key@, r) + seq![
                Request::<Model>::DecodeBase64 { text: sig@ },
            ],
            Outcome::Failure(failure),
        ),
{
    let settings = run.settings;
    let kek = KekEncryptor::<Model> { encryptor: encryptor_of(o) };
    let after = AfterRead::<Model>::Verify {
        message: msg@,
        signature: sig@,
        hex: enc@ == "hex"@,
    };
    let outcome: Outcome<Model> = Outcome::Failure(failure);
    let replies = seq![
        Reply::<Model>::Bytes(signature),
    ];
    let requests = seq![
        Request::<Model>::DecodeBase64 { text: sig@ },
    ];
    assert(goes(
        settings,
        obtained(settings, kek, r.key, r.facts, after),
        replies,
        requests,
        over(outcome),
    )) by {
        reveal_with_fuel(goes, 2);
    }
    a_keyed_run_does(run, o, key@, r, after, replies, requests, outcome);
}

/// A key on neither curve verifies nothing.
pub proof fn a_message_is_not_verified_with_another_key(
    run: Run,
    key: String,
    msg: String,
    sig: String,
    enc: String,
    o: Opening,
    r: Reading,
)
    requires
        run.command == Some(Commands::VerifyMessage { key, msg, sig, enc }),
        opens(run.settings, o),
        reads(r),
        !r.facts.secp256k1,
        !r.facts.ed25519,
        run.replies == opening_replies(o) + reading_replies(r) + seq![
            Reply::<Model>::Done,
        ],
    ensures
        does(
            run,
            opening_requests(run.settings, o) + reading_requests(encryptor_of(o), key@, r) + seq![
                Request::<Model>::Print { text: "unsupported key type"@ },
            ],
            Outcome::Success,
        ),
{
    let settings = run.settings;
    let kek = KekEncryptor::<Model> { encryptor: encryptor_of(o) };
    let after = AfterRead::<Model>::Verify {
        message: msg@,
        signature: sig@,
        hex: enc@ == "hex"@,
    };
    let outcome: Outcome<Model> = Outcome::Success;
    let replies = seq![
        Reply::<Model>::Done,
    ];
    let requests = seq![
        Request::<Model>::Print { text: "unsupported key type"@ },
    ];
    assert(goes(
        settings,
        obtained(settings, kek, r.key, r.facts, after),
        replies,
        requests,
        over(outcome),
    )) by {
        reveal_with_fuel(goes, 2);
    }
    a_keyed_run_does(run, o, key@, r, after, replies, requests, outcome);
}

} // verus!
