//! What comes from other crates.
use ciborium::Value::{Array, Bytes, Integer, Null, Text};
use ciborium::{from_reader, into_writer};
use crate::engine::{template_model, HeldExtension, Template, TemplateModel};
use der::{Decode, Encode};
use p256::ecdh::diffie_hellman;
use p256::elliptic_curve::sec1::ToSec1Point;
use subtle::ConstantTimeEq;
use vstd::prelude::*;
use vstd::utf8::*;

verus! {

/// Overwrites bytes with random ones of the operating system, by
/// `getrandom::fill`. Nothing is known of the random bytes but how many there
/// are. The call may fail, though not for an empty buffer.
#[verifier::external_body]
pub(crate) fn randomized(bytes: Vec<u8>) -> (random: Option<Vec<u8>>)
    ensures
        match random {
            Some(random) => random@.len() == bytes@.len(),
            None => bytes@.len() > 0,
        },
{
    let mut bytes = bytes;
    match getrandom::fill(&mut bytes) {
        Ok(()) => Some(bytes),
        Err(_) => None,
    }
}

/// Compares two byte strings in time that does not depend on their contents, by
/// `subtle`'s `ConstantTimeEq::ct_eq` on slices: equal lengths and equal bytes.
#[verifier::external_body]
pub(crate) fn same_secret(first: &[u8], second: &[u8]) -> (same: bool)
    ensures
        same == (first@ == second@),
{
    bool::from(first.ct_eq(second))
}

/// An item within a list: a number, bytes, or anything else.
#[derive(Clone, Debug, PartialEq, Eq)]
pub enum CborLeaf {
    Integer(u64),
    Bytes(Vec<u8>),
    Other,
}

/// An item of a CBOR array: a number, bytes, a text, a list, or anything else.
#[derive(Clone, Debug, PartialEq, Eq)]
pub enum CborItem {
    Integer(u64),
    Bytes(Vec<u8>),
    Text(String),
    List(Vec<CborLeaf>),
    Other,
}

/// What an item within a list says.
#[verifier::ext_equal]
pub enum LeafModel {
    Integer(u64),
    Bytes(Seq<u8>),
    Other,
}

/// What an item says.
#[verifier::ext_equal]
pub enum ItemModel {
    Integer(u64),
    Bytes(Seq<u8>),
    Text(Seq<char>),
    List(Seq<LeafModel>),
    Other,
}

impl View for CborLeaf {
    type V = LeafModel;

    open spec fn view(&self) -> LeafModel {
        match *self {
            CborLeaf::Integer(value) => LeafModel::Integer(value),
            CborLeaf::Bytes(value) => LeafModel::Bytes(value@),
            CborLeaf::Other => LeafModel::Other,
        }
    }
}

impl View for CborItem {
    type V = ItemModel;

    open spec fn view(&self) -> ItemModel {
        match *self {
            CborItem::Integer(value) => ItemModel::Integer(value),
            CborItem::Bytes(value) => ItemModel::Bytes(value@),
            CborItem::Text(value) => ItemModel::Text(value@),
            CborItem::List(value) => ItemModel::List(leaf_models(value@)),
            CborItem::Other => ItemModel::Other,
        }
    }
}

/// What items within a list say.
pub open spec fn leaf_models(leaves: Seq<CborLeaf>) -> Seq<LeafModel> {
    Seq::new(leaves.len(), |i: int| leaves[i]@)
}

/// What items say.
pub open spec fn item_models(items: Seq<CborItem>) -> Seq<ItemModel> {
    Seq::new(items.len(), |i: int| items[i]@)
}

/// Whether an item can be written: none of it is of another kind.
pub open spec fn is_writable(item: ItemModel) -> bool {
    match item {
        ItemModel::Other => false,
        ItemModel::List(leaves) => forall|i: int|
            0 <= i < leaves.len() ==> !(#[trigger] leaves[i] is Other),
        _ => true,
    }
}

/// What a read CBOR array says: its items, and how much input is left.
pub open spec fn array_model(
    read: Option<(Vec<CborItem>, usize)>,
) -> Option<(Seq<ItemModel>, nat)> {
    match read {
        Some((items, left)) => Some((item_models(items@), left as nat)),
        None => None,
    }
}

/// What written bytes that may be missing say.
pub open spec fn bytes_model(written: Option<Vec<u8>>) -> Option<Seq<u8>> {
    match written {
        Some(bytes) => Some(bytes@),
        None => None,
    }
}

/// The array that input starts with, by `ciborium::from_reader`, and how many
/// bytes follow it; nothing where the input starts with no valid item or with
/// one that is no array.
pub uninterp spec fn cbor_array(data: Seq<u8>) -> Option<(Seq<ItemModel>, nat)>;

/// The bytes of an array, by `ciborium::into_writer`.
pub uninterp spec fn cbor_encoded(items: Seq<ItemModel>) -> Option<Seq<u8>>;

/// Reads a CBOR array off the front of the input, by `ciborium::from_reader`.
/// The result depends on the input alone. Negative numbers, numbers beyond 64
/// bits, maps, tags and whatever else a wrapped object has no place for are
/// items of another kind.
#[verifier::external_body]
pub(crate) fn read_array(data: &[u8]) -> (read: Option<(Vec<CborItem>, usize)>)
    ensures
        array_model(read) == cbor_array(data@),
{
    let mut rest = data;
    let Ok(Array(values)) = from_reader(&mut rest) else { return None };
    let leaf = |value| match value {
        Integer(number) => number.try_into().map_or(CborLeaf::Other, CborLeaf::Integer),
        Bytes(bytes) => CborLeaf::Bytes(bytes),
        _ => CborLeaf::Other,
    };
    let item = |value| match value {
        Integer(number) => number.try_into().map_or(CborItem::Other, CborItem::Integer),
        Bytes(bytes) => CborItem::Bytes(bytes),
        Text(text) => CborItem::Text(text),
        Array(values) => CborItem::List(values.into_iter().map(leaf).collect()),
        _ => CborItem::Other,
    };
    Some((values.into_iter().map(item).collect(), rest.len()))
}

/// Writes items as a CBOR array, by `ciborium::into_writer`. The result depends
/// on the items alone. What was written is read back by `ciborium::from_reader`
/// to the last byte, and where more bytes follow it, they are left.
#[verifier::external_body]
pub(crate) fn write_array(items: Vec<CborItem>) -> (written: Option<Vec<u8>>)
    requires
        forall|i: int| 0 <= i < items@.len() ==> is_writable(#[trigger] items@[i]@),
    ensures
        bytes_model(written) == cbor_encoded(item_models(items@)),
        written matches Some(bytes) ==> cbor_array(bytes@) == Some((item_models(items@), 0nat)),
        written matches Some(bytes) ==> forall|rest: Seq<u8>| #[trigger]
            cbor_array(bytes@ + rest) == Some((item_models(items@), rest.len())),
{
    let leaf = |leaf| match leaf {
        CborLeaf::Integer(number) => Integer(number.into()),
        CborLeaf::Bytes(bytes) => Bytes(bytes),
        CborLeaf::Other => Null,
    };
    let item = |item| match item {
        CborItem::Integer(number) => Integer(number.into()),
        CborItem::Bytes(bytes) => Bytes(bytes),
        CborItem::Text(text) => Text(text),
        CborItem::List(leaves) => Array(leaves.into_iter().map(leaf).collect()),
        CborItem::Other => Null,
    };
    let (value, mut bytes) = (Array(items.into_iter().map(item).collect()), Vec::new());
    into_writer(&value, &mut bytes).ok().map(|_| bytes)
}

/// The parts of a certificate that an attestation takes over, by
/// `x509_cert::Certificate::from_der`; nothing where the bytes are no
/// certificate.
pub uninterp spec fn certificate_template(encoded: Seq<u8>) -> Option<TemplateModel>;

/// Takes the parts of a certificate that an attestation takes over, by
/// `x509_cert::Certificate::from_der`: the subject, the issuer and the validity,
/// each in its DER encoding, and the extensions, of which a certificate may have
/// none, each with its identifier as it is encoded. The result depends on the bytes
/// alone.
#[verifier::external_body]
pub(crate) fn read_template(encoded: &[u8]) -> (template: Option<Template>)
    ensures
        template_model(template) == certificate_template(encoded@),
{
    let certificate = x509_cert::Certificate::from_der(encoded).ok()?;
    let tbs = certificate.tbs_certificate();
    let held = |extension: &x509_cert::ext::Extension| HeldExtension {
        id: extension.extn_id.as_bytes().to_vec(),
        critical: extension.critical,
        value: extension.extn_value.as_bytes().to_vec(),
    };
    Some(Template {
        subject: tbs.subject().to_der().ok()?,
        issuer: tbs.issuer().to_der().ok()?,
        validity: tbs.validity().to_der().ok()?,
        extensions: tbs.extensions().into_iter().flatten().map(held).collect(),
    })
}

/// Reads bytes as UTF-8, by `std::str::from_utf8`: the text that they encode,
/// and nothing where they encode none.
#[verifier::external_body]
pub(crate) fn utf8_text(bytes: &[u8]) -> (text: Option<String>)
    ensures
        match text {
            Some(text) => valid_utf8(bytes@) && text@ == decode_utf8(bytes@),
            None => !valid_utf8(bytes@),
        },
{
    std::str::from_utf8(bytes).ok().map(str::to_owned)
}

/// What `String::from_utf8_lossy` makes of bytes.
pub uninterp spec fn lossy(bytes: Seq<u8>) -> Seq<char>;

/// Makes a text of any bytes, by `String::from_utf8_lossy`, which depends on the
/// bytes alone; bytes that are a text are that text.
#[verifier::external_body]
pub(crate) fn lossy_text(bytes: &[u8]) -> (text: String)
    ensures
        text@ == lossy(bytes@),
        valid_utf8(bytes@) ==> text@ == decode_utf8(bytes@),
{
    String::from_utf8_lossy(bytes).into_owned()
}

/// Makes a text of characters, by `String::from_iter`: the same characters in
/// the same order.
#[verifier::external_body]
pub(crate) fn text_of(characters: &[char]) -> (text: String)
    ensures
        text@ == characters@,
{
    String::from_iter(characters)
}

/// The bits of the public key in a certificate, by
/// `x509_cert::Certificate::from_der`; nothing where the bytes are no
/// certificate.
pub uninterp spec fn certificate_key(encoded: Seq<u8>) -> Option<Seq<u8>>;

/// Takes the bits of the public key out of a certificate, by
/// `x509_cert::Certificate::from_der`. The result depends on the bytes alone.
#[verifier::external_body]
pub(crate) fn read_certificate_key(encoded: &[u8]) -> (key: Option<Vec<u8>>)
    ensures
        match key {
            Some(key) => certificate_key(encoded@) == Some(key@),
            None => certificate_key(encoded@) is None,
        },
{
    let certificate = x509_cert::Certificate::from_der(encoded).ok()?;
    let information = certificate.tbs_certificate().subject_public_key_info();
    Some(information.subject_public_key.raw_bytes().to_vec())
}

/// The uncompressed public point of a P-256 private key, by
/// `p256::SecretKey::public_key`; nothing where the bytes are no key.
pub uninterp spec fn p256_public(private: Seq<u8>) -> Option<Seq<u8>>;

/// Computes the public point of a P-256 private key, by `p256::SecretKey` and its
/// `public_key`, as an uncompressed SEC1 point. The result depends on the bytes
/// alone.
#[verifier::external_body]
pub(crate) fn p256_public_key(private: &[u8]) -> (public: Option<Vec<u8>>)
    ensures
        match public {
            Some(public) => p256_public(private@) == Some(public@),
            None => p256_public(private@) is None,
        },
{
    let secret = p256::SecretKey::from_slice(private).ok()?;
    Some(secret.public_key().to_sec1_point(false).as_bytes().to_vec())
}

/// What a P-256 private key and a public point agree on, by
/// `p256::ecdh::diffie_hellman`; nothing where one of them is none.
pub uninterp spec fn p256_shared(private: Seq<u8>, public: Seq<u8>) -> Option<Seq<u8>>;

/// Computes what a P-256 private key and a SEC1 public point agree on, by
/// `p256::ecdh::diffie_hellman`. The result depends on the bytes alone.
#[verifier::external_body]
pub(crate) fn p256_agreement(private: &[u8], public: &[u8]) -> (secret: Option<Vec<u8>>)
    ensures
        match secret {
            Some(secret) => p256_shared(private@, public@) == Some(secret@),
            None => p256_shared(private@, public@) is None,
        },
{
    let private = p256::SecretKey::from_slice(private).ok()?;
    let public = p256::PublicKey::from_sec1_bytes(public).ok()?;
    let shared = diffie_hellman(private.to_nonzero_scalar(), public.as_affine());
    Some(shared.raw_secret_bytes().to_vec())
}

} // verus!
