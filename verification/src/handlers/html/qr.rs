//! The QR code page of a paste: the code for the paste's address and which of its
//! modules are dark.
use vstd::prelude::*;
use qrcodegen::{DataTooLong, QrCode, QrCodeEcc};
use url::{ParseError, Url};
use crate::errors::Error;
use crate::handlers::{check_visibility, visibility_outcome};

verus! {

/// `url::Url`, carried through as an opaque value.
#[verifier::external_type_specification]
#[verifier::external_body]
pub struct ExUrl(Url);

/// `url::ParseError`, the failure of `Url::join`.
#[verifier::external_type_specification]
#[verifier::external_body]
pub struct ExParseError(ParseError);

/// `qrcodegen::QrCode`, an encoded QR code.
#[verifier::external_type_specification]
#[verifier::external_body]
pub struct ExQrCode(QrCode);

/// `qrcodegen::DataTooLong`, the failure of `QrCode::encode_text`.
#[verifier::external_type_specification]
#[verifier::external_body]
pub struct ExDataTooLong(DataTooLong);

/// Error correction level of a QR code.
#[derive(Debug, Clone, Copy, PartialEq, Eq, Structural)]
pub enum Ecc {
    Low,
    Medium,
    Quartile,
    High,
}

/// What `url::Url::join` gives for `input` against `base`: the serialization of
/// the joined URL, or the parse error.
pub uninterp spec fn url_join(base: Url, input: Seq<char>) -> Result<Seq<char>, ParseError>;

/// What `qrcodegen::QrCode::encode_text` gives for `text` at error correction
/// level `ecl`: the QR code, or the error saying that the text does not fit.
pub uninterp spec fn qr_encode(text: Seq<char>, ecl: Ecc) -> Result<QrCode, DataTooLong>;

/// The width and height of a QR code in modules (`QrCode::size`).
pub uninterp spec fn qr_size(code: QrCode) -> i32;

/// The coordinates `(x, y)` of the dark modules of a QR code (those for which
/// `QrCode::get_module` is true).
pub uninterp spec fn qr_dark_modules(code: QrCode) -> Set<(i32, i32)>;

/// Calls `url::Url::join(base, input)` and hands back the serialization of the
/// joined URL. Claimed: the result, the joined URL by its characters, is
/// `url_join(base, input)`.
#[verifier::external_body]
fn join_url(base: &Url, input: &str) -> (r: Result<String, ParseError>)
    ensures
        match r {
            Ok(joined) => url_join(*base, input@) == Ok::<Seq<char>, ParseError>(joined@),
            Err(e) => url_join(*base, input@) == Err::<Seq<char>, ParseError>(e),
        },
{
    match base.join(input) {
        Ok(joined) => Ok(String::from(joined)),
        Err(e) => Err(e),
    }
}

/// Calls `qrcodegen::QrCode::encode_text(text, ecl)`. Claimed: the result is
/// `qr_encode(text, ecl)`.
#[verifier::external_body]
fn encode_text(text: &str, ecl: Ecc) -> (r: Result<QrCode, DataTooLong>)
    ensures
        r == qr_encode(text@, ecl),
{
    let level = match ecl {
        Ecc::Low => QrCodeEcc::Low,
        Ecc::Medium => QrCodeEcc::Medium,
        Ecc::Quartile => QrCodeEcc::Quartile,
        Ecc::High => QrCodeEcc::High,
    };
    QrCode::encode_text(text, level)
}

/// Calls `qrcodegen::QrCode::size`. Claimed: the result is `qr_size(code)`, which
/// the documentation puts between 21 and 177.
#[verifier::external_body]
fn code_size(code: &QrCode) -> (r: i32)
    ensures
        r == qr_size(*code),
        21 <= r <= 177,
{
    code.size()
}

/// Calls `qrcodegen::QrCode::get_module(x, y)`. Claimed: the result tells whether
/// `(x, y)` is among `qr_dark_modules(code)`, and it is false outside the code.
#[verifier::external_body]
fn code_module(code: &QrCode, x: i32, y: i32) -> (r: bool)
    ensures
        r == qr_dark_modules(*code).contains((x, y)),
        r ==> 0 <= x < qr_size(*code) && 0 <= y < qr_size(*code),
{
    code.get_module(x, y)
}

/// Why no QR code was made for a paste.
pub enum CodeError {
    /// The paste's address could not be formed from the base URL.
    Url(ParseError),
    /// The address does not fit in a QR code at the chosen level.
    TooLong(DataTooLong),
}

/// What making the QR code of paste `id` under `url` gives: the code of the
/// joined address at the high error correction level, or the error of the join
/// or of the encoding.
pub open spec fn code_outcome(url: Url, id: Seq<char>) -> Result<QrCode, CodeError> {
    match url_join(url, id) {
        Err(e) => Err(CodeError::Url(e)),
        Ok(address) => match qr_encode(address, Ecc::High) {
            Err(e) => Err(CodeError::TooLong(e)),
            Ok(code) => Ok(code),
        },
    }
}

/// The QR code, at the high error correction level, of the address of paste `id`
/// resolved against `url`.
pub fn code_from(url: &Url, id: &str) -> (r: Result<QrCode, CodeError>)
    ensures
        r == code_outcome(*url, id@),
{
    let address = match join_url(url, id) {
        Ok(a) => a,
        Err(e) => return Err(CodeError::Url(e)),
    };
    match encode_text(address.as_str(), Ecc::High) {
        Ok(code) => Ok(code),
        Err(e) => Err(CodeError::TooLong(e)),
    }
}

/// `a` comes before `b` with `x` first, then `y`.
pub open spec fn coord_before(a: (i32, i32), b: (i32, i32)) -> bool {
    a.0 < b.0 || (a.0 == b.0 && a.1 < b.1)
}

/// `p` is a dark module inside the code.
pub open spec fn is_dark_module(code: QrCode, p: (i32, i32)) -> bool {
    0 <= p.0 < qr_size(code) && 0 <= p.1 < qr_size(code) && qr_dark_modules(code).contains(p)
}

/// Return module coordinates that are dark: every dark module of the code once,
/// in order of `x`, then of `y`.
pub fn dark_modules(code: &QrCode) -> (r: Vec<(i32, i32)>)
    ensures
        forall|p: (i32, i32)| r@.contains(p) <==> is_dark_module(*code, p),
        forall|i: int, j: int| 0 <= i < j < r.len() ==> coord_before(r@[i], r@[j]),
{
    let size = code_size(code);
    let mut r: Vec<(i32, i32)> = Vec::new();
    let mut x: i32 = 0;
    while x < size
        invariant
            size == qr_size(*code),
            0 <= x <= size,
            forall|p: (i32, i32)| r@.contains(p) <==> (is_dark_module(*code, p) && p.0 < x),
            forall|i: int| 0 <= i < r.len() ==> r@[i].0 < x,
            forall|i: int, j: int| 0 <= i < j < r.len() ==> coord_before(r@[i], r@[j]),
        decreases size - x,
    {
        let mut y: i32 = 0;
        while y < size
            invariant
                size == qr_size(*code),
                0 <= x < size,
                0 <= y <= size,
                forall|p: (i32, i32)|
                    r@.contains(p) <==> (is_dark_module(*code, p) && coord_before(p, (x, y))),
                forall|i: int| 0 <= i < r.len() ==> coord_before(r@[i], (x, y)),
                forall|i: int, j: int| 0 <= i < j < r.len() ==> coord_before(r@[i], r@[j]),
            decreases size - y,
        {
            let ghost before = r@;
            if code_module(code, x, y) {
                r.push((x, y));
                assert forall|p: (i32, i32)| r@.contains(p) <==> (before.contains(p) || p == (x, y)) by {
                    if p == (x, y) {
                        assert(r@[r.len() - 1] == p);
                    }
                    if before.contains(p) {
                        let k = choose|k: int| 0 <= k < before.len() && before[k] == p;
                        assert(r@[k] == p);
                    }
                }
            }
            y = y + 1;
        }
        x = x + 1;
    }
    r
}

/// Whether the requesting user may delete the paste: both the user and the
/// paste's owner are known, and they are the same.
pub open spec fn may_delete(user_uid: Option<i64>, owner_uid: Option<i64>) -> bool {
    user_uid matches Some(u) && owner_uid matches Some(o) && u == o
}

/// Whether the requesting user may delete the paste.
pub fn can_delete(user_uid: Option<i64>, owner_uid: Option<i64>) -> (r: bool)
    ensures
        r == may_delete(user_uid, owner_uid),
{
    match (user_uid, owner_uid) {
        (Some(u), Some(o)) => u == o,
        _ => false,
    }
}

/// What the server knows of a paste besides its content, as far as the QR page
/// shows it; `E` is the server's expiration type, carried through.
pub struct Metadata<E> {
    pub is_private: bool,
    pub uid: Option<i64>,
    pub title: Option<String>,
    pub expiration: Option<E>,
}

/// The QR page of a paste: its code, the paste's key (`K`, the server's parsed id,
/// carried through), title, expiration and visibility, and whether the viewer may
/// delete it.
pub struct QrPage<K, E> {
    pub key: K,
    pub can_delete: bool,
    pub is_available: bool,
    pub is_markdown: bool,
    pub code: QrCode,
    pub title: Option<String>,
    pub expiration: Option<E>,
    pub is_private: bool,
}

/// What the QR page handler answers with when it does not fail.
pub enum QrOutcome<K, E> {
    /// A temporary redirect to this path.
    Redirect(String),
    /// The page itself.
    Page(QrPage<K, E>),
}

/// Why the QR page is not shown.
pub enum QrError {
    /// The visibility check refused the request.
    Access(Error),
    /// No QR code could be made.
    Code(CodeError),
}

/// Decide the QR page of paste `id` with key `key`, requested at `path` by the user
/// `user_uid`: check its visibility (redirecting where the path has no visibility
/// prefix), make the QR code of the paste's address under `base_url`, and fill
/// the page with the paste's key, metadata and markdown flag and with whether the
/// viewer may delete it.
pub fn get<K, E>(
    base_url: &Url,
    path: &str,
    id: &str,
    key: K,
    is_markdown: bool,
    metadata: Metadata<E>,
    user_uid: Option<i64>,
) -> (r: Result<QrOutcome<K, E>, QrError>)
    ensures
        match visibility_outcome(metadata.is_private, path@, id@) {
            Err(e) => r matches Err(QrError::Access(e2)) && e2 == e,
            Ok(Some(target)) => r matches Ok(QrOutcome::Redirect(t)) && t@ == target,
            Ok(None) => match code_outcome(*base_url, id@) {
                Err(e) => r matches Err(QrError::Code(e2)) && e2 == e,
                Ok(code) => r matches Ok(QrOutcome::Page(page)) && page == (QrPage {
                    key,
                    can_delete: may_delete(user_uid, metadata.uid),
                    is_available: true,
                    is_markdown,
                    code,
                    title: metadata.title,
                    expiration: metadata.expiration,
                    is_private: metadata.is_private,
                }),
            },
        },
{
    match check_visibility(metadata.is_private, path, id) {
        Err(e) => Err(QrError::Access(e)),
        Ok(Some(target)) => Ok(QrOutcome::Redirect(target)),
        Ok(None) => match code_from(base_url, id) {
            Ok(code) => {
                let can_delete = can_delete(user_uid, metadata.uid);
                let Metadata { is_private, uid: _, title, expiration } = metadata;
                Ok(
                    QrOutcome::Page(
                        QrPage {
                            key,
                            can_delete,
                            is_available: true,
                            is_markdown,
                            code,
                            title,
                            expiration,
                            is_private,
                        },
                    ),
                )
            },
            Err(e) => Err(QrError::Code(e)),
        },
    }
}

/// Only the paste's owner may delete it: the viewer may exactly when both are
/// known and are the same user (as full 64-bit ids).
pub proof fn lemma_only_owner_may_delete(user_uid: Option<i64>, owner_uid: Option<i64>)
    ensures
        may_delete(user_uid, owner_uid) <==> (user_uid is Some && user_uid == owner_uid),
{
}

} // verus!
