//! COSE structures: stored keys, and the headers of what protects them.

use vstd::prelude::*;

use crate::text::same_text;

verus! {

/// The label of a COSE header.
pub enum HeaderLabel<T> {
    /// A number.
    Int(i64),
    /// A text.
    Text(T),
}

/// A COSE header: its label, and its value as shown to the user.
pub struct HeaderItem<T> {
    /// What the header is called.
    pub label: HeaderLabel<T>,
    /// The value, as its debug form writes it.
    pub shown: T,
}

/// A header with its texts as character sequences.
pub open spec fn header_model(item: HeaderItem<String>) -> HeaderItem<Seq<char>> {
    HeaderItem {
        label: match item.label {
            HeaderLabel::Int(n) => HeaderLabel::Int(n),
            HeaderLabel::Text(t) => HeaderLabel::Text(t@),
        },
        shown: item.shown@,
    }
}

/// Headers with their texts as character sequences.
pub open spec fn header_models(items: Seq<HeaderItem<String>>) -> Seq<HeaderItem<Seq<char>>> {
    Seq::new(items.len(), |i: int| header_model(items[i]))
}

/// What `CoseKey::to_vec` writes of the key that `CoseKey::from_slice` reads in `data`, or the
/// message of the one that fails.
pub uninterp spec fn key_encoding(data: Seq<u8>) -> Result<Seq<u8>, Seq<char>>;

/// The further unprotected headers that `CoseEncrypt0::from_tagged_slice` reads in `data`, or the
/// message with which it fails.
pub uninterp spec fn unprotected_headers(data: Seq<u8>) -> Result<
    Seq<HeaderItem<Seq<char>>>,
    Seq<char>,
>;

/// `coset::CoseKey::from_slice` and `CoseKey::to_vec`: reads a COSE key and hands it out in the
/// encoding that the crate gives it. Which slices hold a key, how it is encoded and the wording of
/// a refusal are left to the crate.
#[verifier::external_body]
pub(crate) fn read_cose_key(data: &[u8]) -> (r: Result<Vec<u8>, String>)
    ensures
        match r {
            Ok(key) => key_encoding(data@) == Ok::<Seq<u8>, Seq<char>>(key@),
            Err(message) => key_encoding(data@) == Err::<Seq<u8>, Seq<char>>(message@),
        },
{
    match <coset::CoseKey as coset::CborSerializable>::from_slice(data) {
        Ok(key) => coset::CborSerializable::to_vec(key).map_err(|e| e.to_string()),
        Err(e) => Err(e.to_string()),
    }
}

/// `coset::CoseEncrypt0::from_tagged_slice`: the unprotected headers that have no field of their
/// own, in their order. Which slices hold such a structure, what a value looks like and the
/// wording of a refusal are left to the crate.
#[verifier::external_body]
fn read_headers(data: &[u8]) -> (r: Result<Vec<HeaderItem<String>>, String>)
    ensures
        match r {
            Ok(items) => unprotected_headers(data@) == Ok::<
                Seq<HeaderItem<Seq<char>>>,
                Seq<char>,
            >(header_models(items@)),
            Err(message) => unprotected_headers(data@) == Err::<
                Seq<HeaderItem<Seq<char>>>,
                Seq<char>,
            >(message@),
        },
{
    let headers = <coset::CoseEncrypt0 as coset::TaggedCborSerializable>::from_tagged_slice(data);
    let items = headers.map_err(|e| e.to_string())?.unprotected.rest.into_iter();
    Ok(items.map(|(label, value)| HeaderItem {
        label: match label {
            coset::Label::Int(n) => HeaderLabel::Int(n),
            coset::Label::Text(t) => HeaderLabel::Text(t),
        },
        shown: format!("{:?}", value),
    }).collect())
}

/// Whether a header is the one that names the stored key.
pub open spec fn is_cid(item: HeaderItem<Seq<char>>) -> bool {
    item.label matches HeaderLabel::Text(t) && t == "cid"@
}

/// The value of the first header that names the stored key, as shown to the user.
pub open spec fn cid_among(items: Seq<HeaderItem<Seq<char>>>) -> Option<Seq<char>>
    decreases items.len(),
{
    if items.len() == 0 {
        None
    } else if is_cid(items[0]) {
        Some(items[0].shown)
    } else {
        cid_among(items.drop_first())
    }
}

/// Finds the name of the stored key among the headers.
pub fn find_cid(items: &Vec<HeaderItem<String>>) -> (r: Option<String>)
    ensures
        match r {
            Some(shown) => cid_among(header_models(items@)) == Some(shown@),
            None => cid_among(header_models(items@)) is None,
        },
        match r {
            Some(shown) => exists|i: int|
                {
                    &&& 0 <= i < items@.len()
                    &&& (#[trigger] items@[i]).label matches HeaderLabel::Text(t) && t@ == "cid"@
                    &&& shown@ == items@[i].shown@
                    &&& forall|j: int|
                        0 <= j < i ==> !((#[trigger] items@[j]).label matches HeaderLabel::Text(t)
                            && t@ == "cid"@)
                },
            None => forall|j: int|
                0 <= j < items@.len() ==> !((#[trigger] items@[j]).label matches HeaderLabel::Text(
                    t,
                ) && t@ == "cid"@),
        },
{
    let mut i: usize = 0;
    let ghost models = header_models(items@);
    assert(models.skip(0) =~= models);
    while i < items.len()
        invariant
            i <= items.len(),
            models == header_models(items@),
            cid_among(models) == cid_among(models.skip(i as int)),
            forall|j: int|
                0 <= j < i ==> !((#[trigger] items@[j]).label matches HeaderLabel::Text(t) && t@
                    == "cid"@),
        decreases items.len() - i,
    {
        let found: bool = match &items[i].label {
            HeaderLabel::Int(_) => false,
            HeaderLabel::Text(t) => same_text(t.as_str(), "cid"),
        };
        assert(models.skip(i as int)[0] == header_model(items@[i as int]));
        assert(found == is_cid(models[i as int]));
        if found {
            return Some(items[i].shown.clone());
        }
        assert(models.skip(i as int).drop_first() =~= models.skip(i + 1));
        i = i + 1;
    }
    assert(models.skip(i as int).len() == 0);
    None
}

/// The name that a protected key file carries in the open, if it does.
pub open spec fn stored_cid(data: Seq<u8>) -> Result<Option<Seq<char>>, Seq<char>> {
    match unprotected_headers(data) {
        Ok(items) => Ok(cid_among(items)),
        Err(message) => Err(message),
    }
}

/// Reads the name that a protected key file carries in the open.
pub fn read_cid(data: &[u8]) -> (r: Result<Option<String>, String>)
    ensures
        match r {
            Ok(Some(shown)) => stored_cid(data@) == Ok::<Option<Seq<char>>, Seq<char>>(
                Some(shown@),
            ),
            Ok(None) => stored_cid(data@) == Ok::<Option<Seq<char>>, Seq<char>>(None),
            Err(message) => stored_cid(data@) == Err::<Option<Seq<char>>, Seq<char>>(message@),
        },
{
    match read_headers(data) {
        Ok(items) => Ok(find_cid(&items)),
        Err(message) => Err(message),
    }
}

} // verus!
