//! Objects in buckets: where they are stored, what is recorded of an upload,
//! and how conditional reads are answered.

use vstd::prelude::*;
use vstd::string::*;
use crate::error::{ApiError, STATUS_BAD_REQUEST, STATUS_INTERNAL_SERVER_ERROR, STATUS_NOT_FOUND};
use crate::headers::{
    check_match, check_since, match_condition, since_condition, HeaderError, Headers, HeaderView,
};
use crate::text::{
    join_with, last_index, last_index_of, lemma_join_split, lemma_last_index_of, lemma_split_nonempty,
    parse_bool, split_on, str_equal,
};

verus! {

/// The directory part of an object path: everything before its last `/`,
/// or nothing when it has none.
pub open spec fn object_dir(p: Seq<char>) -> Seq<char> {
    let k = last_index_of(p, '/');
    if k < 0 {
        Seq::empty()
    } else {
        p.subrange(0, k)
    }
}

/// The file name of an object path: everything after its last `/`.
pub open spec fn object_name(p: Seq<char>) -> Seq<char> {
    p.subrange(last_index_of(p, '/') + 1, p.len() as int)
}

/// Splits an object path into the directory it lives in and its file name.
pub fn split_object_path(path: &str) -> (r: (String, String))
    ensures
        r.0@ == object_dir(path@),
        r.1@ == object_name(path@),
{
    proof {
        lemma_last_index_of(path@, '/');
    }
    let n = path.unicode_len();
    match last_index(path, '/') {
        Some(k) => (
            String::from_str(path.substring_char(0, k)),
            String::from_str(path.substring_char(k + 1, n)),
        ),
        None => (String::new(), String::from_str(path.substring_char(0, n))),
    }
}

/// An object path is its directory, a `/` and its name when it has a
/// directory part, and is just its name otherwise; the name holds no `/`.
pub proof fn lemma_object_path_parts(p: Seq<char>)
    ensures
        forall|j: int| 0 <= j < object_name(p).len() ==> object_name(p)[j] != '/',
        last_index_of(p, '/') >= 0 ==> object_dir(p) + seq!['/'] + object_name(p) == p,
        last_index_of(p, '/') < 0 ==> object_name(p) == p && object_dir(p).len() == 0,
{
    lemma_last_index_of(p, '/');
    let k = last_index_of(p, '/');
    assert forall|j: int| 0 <= j < object_name(p).len() implies object_name(p)[j] != '/' by {
        assert(object_name(p)[j] == p[k + 1 + j]);
    }
    if k >= 0 {
        assert(object_dir(p) + seq!['/'] + object_name(p) =~= p);
    } else {
        assert(object_name(p) =~= p);
    }
}

/// The directory and file name of an object path are what splitting it at
/// every `/`, taking off the last piece as the name and joining the rest
/// with `/`, gives.
pub proof fn lemma_object_path_matches_split(p: Seq<char>)
    ensures
        object_name(p) == split_on(p, '/').last(),
        object_dir(p) == join_with(split_on(p, '/').drop_last(), '/'),
    decreases p.len(),
{
    if p.len() == 0 {
        assert(object_name(p) =~= Seq::<char>::empty());
        assert(split_on(p, '/').drop_last() =~= Seq::<Seq<char>>::empty());
    } else {
        let q = p.drop_last();
        let init = split_on(q, '/');
        lemma_split_nonempty(q, '/');
        lemma_last_index_of(q, '/');
        if p.last() == '/' {
            assert(split_on(p, '/').drop_last() =~= init);
            lemma_join_split(q, '/');
            assert(object_dir(p) =~= q);
            assert(object_name(p) =~= Seq::<char>::empty());
        } else {
            lemma_object_path_matches_split(q);
            assert(last_index_of(p, '/') == last_index_of(q, '/'));
            assert(object_name(p) =~= object_name(q).push(p.last()));
            assert(split_on(p, '/').drop_last() =~= init.drop_last());
            assert(object_dir(p) =~= object_dir(q));
        }
    }
}

/// The name under which an object is recorded: its bucket, a `/`, and its
/// path in the bucket.
pub fn object_key(bucket: &str, path: &str) -> (r: String)
    ensures
        r@ == bucket@ + "/"@ + path@,
{
    let mut r = String::from_str(bucket);
    r.append("/");
    r.append(path);
    r
}

/// The directory in which a bucket's objects are stored.
pub fn bucket_directory(bucket: &str) -> (r: String)
    ensures
        r@ == "/storage/"@ + bucket@,
{
    let mut r = String::from_str("/storage/");
    r.append(bucket);
    r
}

/// What the MD5 digest of `data` is. The digest is computed by the `md5`
/// crate.
pub uninterp spec fn md5_digest(data: Seq<u8>) -> Seq<u8>;

/// `md5::compute`: the MD5 digest of `data`, as its sixteen bytes.
/// Trusted: the digest is `md5_digest(data)`, and `md5::Digest` holds
/// exactly sixteen bytes.
#[verifier::external_body]
fn md5_compute(data: &[u8]) -> (d: Vec<u8>)
    ensures
        d@ == md5_digest(data@),
        d@.len() == 16,
{
    md5::compute(data).0.to_vec()
}

/// The lower-case hexadecimal digits.
pub open spec fn hex_digits() -> Seq<char> {
    "0123456789abcdef"@
}

/// Bytes written as two lower-case hexadecimal digits each, most
/// significant first.
pub open spec fn hex_lower(bytes: Seq<u8>) -> Seq<char>
    decreases bytes.len(),
{
    if bytes.len() == 0 {
        Seq::empty()
    } else {
        let b = bytes.last();
        hex_lower(bytes.drop_last()) + seq![hex_digits()[(b / 16) as int], hex_digits()[(b % 16) as int]]
    }
}

/// The lower-case hexadecimal digit of the value `d` (0 to 15): `0` to `9`,
/// then `a` to `f`.
pub open spec fn hex_char(d: int) -> char {
    if d < 10 {
        (48 + d) as char
    } else {
        (87 + d) as char
    }
}

/// The digit of a byte's high four bits.
pub open spec fn high_digit(b: u8) -> char {
    hex_char(b as int / 16)
}

/// The digit of a byte's low four bits.
pub open spec fn low_digit(b: u8) -> char {
    hex_char(b as int % 16)
}

/// The table of digits holds, at each value, that value's digit.
pub proof fn lemma_hex_digits()
    ensures
        hex_digits().len() == 16,
        forall|d: int| 0 <= d < 16 ==> #[trigger] hex_digits()[d] == hex_char(d),
{
    reveal_strlit("0123456789abcdef");
    assert forall|d: int| 0 <= d < 16 implies #[trigger] hex_digits()[d] == hex_char(d) by {
        if d == 0 { assert(hex_digits()[0] == '0'); }
        else if d == 1 { assert(hex_digits()[1] == '1'); }
        else if d == 2 { assert(hex_digits()[2] == '2'); }
        else if d == 3 { assert(hex_digits()[3] == '3'); }
        else if d == 4 { assert(hex_digits()[4] == '4'); }
        else if d == 5 { assert(hex_digits()[5] == '5'); }
        else if d == 6 { assert(hex_digits()[6] == '6'); }
        else if d == 7 { assert(hex_digits()[7] == '7'); }
        else if d == 8 { assert(hex_digits()[8] == '8'); }
        else if d == 9 { assert(hex_digits()[9] == '9'); }
        else if d == 10 { assert(hex_digits()[10] == 'a'); }
        else if d == 11 { assert(hex_digits()[11] == 'b'); }
        else if d == 12 { assert(hex_digits()[12] == 'c'); }
        else if d == 13 { assert(hex_digits()[13] == 'd'); }
        else if d == 14 { assert(hex_digits()[14] == 'e'); }
        else { assert(hex_digits()[15] == 'f'); }
    }
}

/// The hexadecimal text of `bytes` is two characters per byte: at `2 * i`
/// the digit of the high four bits of byte `i`, at `2 * i + 1` the digit of
/// its low four bits.
pub proof fn lemma_hex_lower_digits(bytes: Seq<u8>)
    ensures
        hex_lower(bytes).len() == 2 * bytes.len(),
        forall|i: int|
            0 <= i < bytes.len() ==> #[trigger] hex_lower(bytes)[2 * i] == high_digit(bytes[i])
                && hex_lower(bytes)[2 * i + 1] == low_digit(bytes[i]),
    decreases bytes.len(),
{
    lemma_hex_digits();
    if bytes.len() > 0 {
        let rest = bytes.drop_last();
        lemma_hex_lower_digits(rest);
        let b = bytes.last();
        assert(hex_digits()[(b / 16) as int] == high_digit(b));
        assert(hex_digits()[(b % 16) as int] == low_digit(b));
        assert forall|i: int| 0 <= i < bytes.len() implies #[trigger] hex_lower(bytes)[2 * i]
            == high_digit(bytes[i]) && hex_lower(bytes)[2 * i + 1] == low_digit(bytes[i]) by {
            if i < rest.len() {
                assert(rest[i] == bytes[i]);
                assert(hex_lower(rest)[2 * i] == high_digit(rest[i]));
            }
        }
    }
}

/// A digit tells its value back: different values have different digits.
pub proof fn lemma_hex_char_injective(d1: int, d2: int)
    requires
        0 <= d1 < 16,
        0 <= d2 < 16,
        hex_char(d1) == hex_char(d2),
    ensures
        d1 == d2,
{
}

/// The hexadecimal text can be read back: bytes with the same text are the
/// same bytes.
pub proof fn lemma_hex_lower_injective(a: Seq<u8>, b: Seq<u8>)
    requires
        hex_lower(a) == hex_lower(b),
    ensures
        a == b,
{
    lemma_hex_lower_digits(a);
    lemma_hex_lower_digits(b);
    assert forall|i: int| 0 <= i < a.len() implies a[i] == b[i] by {
        assert(hex_lower(a)[2 * i] == high_digit(a[i]));
        assert(hex_lower(b)[2 * i] == high_digit(b[i]));
        lemma_hex_char_injective(a[i] as int / 16, b[i] as int / 16);
        lemma_hex_char_injective(a[i] as int % 16, b[i] as int % 16);
        assert(a[i] == 16 * (a[i] / 16) + a[i] % 16);
        assert(b[i] == 16 * (b[i] / 16) + b[i] % 16);
    }
    assert(a =~= b);
}

/// Lower-case hexadecimal text of `bytes`, as `{:x}` writes an MD5 digest.
pub fn to_hex_lower(bytes: &[u8]) -> (r: String)
    ensures
        r@ == hex_lower(bytes@),
        r@.len() == 2 * bytes@.len(),
        forall|i: int|
            0 <= i < bytes@.len() ==> #[trigger] r@[2 * i] == high_digit(bytes@[i]) && r@[2 * i
                + 1] == low_digit(bytes@[i]),
{
    let digits = "0123456789abcdef";
    proof {
        reveal_strlit("0123456789abcdef");
    }
    assert(digits@.len() == 16);
    let mut r = String::new();
    let mut i: usize = 0;
    while i < bytes.len()
        invariant
            digits@ == hex_digits(),
            digits@.len() == 16,
            i <= bytes@.len(),
            r@ == hex_lower(bytes@.subrange(0, i as int)),
            r@.len() == 2 * i,
        decreases bytes@.len() - i,
    {
        let b = bytes[i];
        let hi = (b / 16) as usize;
        let lo = (b % 16) as usize;
        let h = digits.substring_char(hi, hi + 1);
        let l = digits.substring_char(lo, lo + 1);
        assert(h@ =~= seq![hex_digits()[(b / 16) as int]]);
        assert(l@ =~= seq![hex_digits()[(b % 16) as int]]);
        r.append(h);
        r.append(l);
        assert(bytes@.subrange(0, i + 1).drop_last() =~= bytes@.subrange(0, i as int));
        assert(r@ =~= hex_lower(bytes@.subrange(0, i + 1)));
        i += 1;
    }
    assert(bytes@.subrange(0, bytes@.len() as int) =~= bytes@);
    proof {
        lemma_hex_lower_digits(bytes@);
    }
    r
}

/// The entity tag of uploaded content: the hexadecimal MD5 digest of it.
pub open spec fn etag_of(data: Seq<u8>) -> Seq<char> {
    hex_lower(md5_digest(data))
}

/// The entity tag of `data`, 32 hexadecimal digits.
pub fn compute_etag(data: &[u8]) -> (r: String)
    ensures
        r@ == etag_of(data@),
        r@.len() == 32,
{
    let d = md5_compute(data);
    to_hex_lower(d.as_slice())
}

/// The parts of an object upload form that are recorded.
#[derive(Debug, Clone, Copy, PartialEq, Eq, Structural)]
pub enum UploadField {
    ContentDisposition,
    ContentType,
    Encrypted,
    File,
    Other,
}

/// The upload part a form field name stands for.
pub open spec fn upload_field_named(name: Seq<char>) -> UploadField {
    if name == "content-disposition"@ {
        UploadField::ContentDisposition
    } else if name == "content-type"@ {
        UploadField::ContentType
    } else if name == "encrypted"@ {
        UploadField::Encrypted
    } else if name == "file"@ {
        UploadField::File
    } else {
        UploadField::Other
    }
}

/// An upload is read from exactly four named fields: `content-disposition`,
/// `content-type`, `encrypted` and `file`; any other field name carries
/// nothing that is recorded.
pub proof fn lemma_upload_field_names(name: Seq<char>)
    ensures
        upload_field_named(name) == UploadField::ContentDisposition <==> name
            == "content-disposition"@,
        upload_field_named(name) == UploadField::ContentType <==> name == "content-type"@,
        upload_field_named(name) == UploadField::Encrypted <==> name == "encrypted"@,
        upload_field_named(name) == UploadField::File <==> name == "file"@,
{
    reveal_strlit("content-disposition");
    reveal_strlit("content-type");
    reveal_strlit("encrypted");
    reveal_strlit("file");
    assert("content-disposition"@ != "content-type"@) by {
        assert("content-disposition"@.len() != "content-type"@.len());
    }
    assert("content-disposition"@ != "encrypted"@) by {
        assert("content-disposition"@.len() != "encrypted"@.len());
    }
    assert("content-disposition"@ != "file"@) by {
        assert("content-disposition"@.len() != "file"@.len());
    }
    assert("content-type"@ != "encrypted"@) by {
        assert("content-type"@.len() != "encrypted"@.len());
    }
    assert("content-type"@ != "file"@) by {
        assert("content-type"@.len() != "file"@.len());
    }
    assert("encrypted"@ != "file"@) by {
        assert("encrypted"@.len() != "file"@.len());
    }
}

/// Which upload part the form field `name` carries.
pub fn upload_field(name: &str) -> (r: UploadField)
    ensures
        r == upload_field_named(name@),
{
    if str_equal(name, "content-disposition") {
        UploadField::ContentDisposition
    } else if str_equal(name, "content-type") {
        UploadField::ContentType
    } else if str_equal(name, "encrypted") {
        UploadField::Encrypted
    } else if str_equal(name, "file") {
        UploadField::File
    } else {
        UploadField::Other
    }
}

/// What is recorded of an uploaded object.
pub struct ObjectMetadata {
    pub content_disposition: String,
    pub content_length: u32,
    pub content_type: String,
    pub etag: String,
    pub encrypted: bool,
}

impl ObjectMetadata {
    /// The record of an upload before any form field is read: shown inline,
    /// empty, plain text, no entity tag, not encrypted.
    pub fn new() -> (m: ObjectMetadata)
        ensures
            m.content_disposition@ == "inline"@,
            m.content_length == 0,
            m.content_type@ == "text/plain"@,
            m.etag@ == Seq::<char>::empty(),
            !m.encrypted,
    {
        ObjectMetadata {
            content_disposition: String::from_str("inline"),
            content_length: 0,
            content_type: String::from_str("text/plain"),
            etag: String::new(),
            encrypted: false,
        }
    }

    /// Records a text field of the upload form: the disposition and type are
    /// taken as given, the encryption flag is `true` only for the text
    /// `true` once it has been read (`false` for anything that is not a
    /// boolean), and other fields change nothing.
    pub fn set_text(&mut self, field: UploadField, text: String)
        requires
            field != UploadField::File,
        ensures
            final(self).content_length == old(self).content_length,
            final(self).etag == old(self).etag,
            final(self).content_disposition == (if field == UploadField::ContentDisposition {
                text
            } else {
                old(self).content_disposition
            }),
            final(self).content_type == (if field == UploadField::ContentType {
                text
            } else {
                old(self).content_type
            }),
            final(self).encrypted == (if field == UploadField::Encrypted {
                text@ == "true"@
            } else {
                old(self).encrypted
            }),
    {
        match field {
            UploadField::ContentDisposition => {
                self.content_disposition = text;
            },
            UploadField::ContentType => {
                self.content_type = text;
            },
            UploadField::Encrypted => {
                self.encrypted = match parse_bool(text.as_str()) {
                    Some(value) => value,
                    None => false,
                };
            },
            _ => {},
        }
    }

    /// Records the uploaded content: its length, cut to 32 bits as the
    /// record stores it, and its entity tag.
    pub fn set_file(&mut self, data: &[u8])
        ensures
            final(self).content_length == data@.len() as u32,
            final(self).etag@ == etag_of(data@),
            final(self).etag@.len() == 32,
            final(self).content_disposition == old(self).content_disposition,
            final(self).content_type == old(self).content_type,
            final(self).encrypted == old(self).encrypted,
    {
        self.content_length = data.len() as u32;
        self.etag = compute_etag(data);
    }
}

/// How a conditional read of an object is answered.
#[derive(Debug, Clone, Copy, PartialEq, Eq, Structural)]
pub enum ReadOutcome {
    /// The object's content is sent.
    Content,
    /// An entity-tag condition failed.
    MatchFailed,
    /// A time condition failed.
    SinceFailed,
}

/// The answer to a read, given its headers and the object's entity tag and
/// modification time: a malformed time condition is an internal error;
/// otherwise a failed entity-tag condition, then a failed time condition,
/// holds the content back.
pub open spec fn read_outcome(hs: Seq<HeaderView>, etag: Seq<char>, last_modified: i64) -> Result<
    ReadOutcome,
    (),
> {
    match since_condition(hs, last_modified) {
        Err(_) => Err(()),
        Ok(since) => if match_condition(hs, etag) == Some(false) {
            Ok(ReadOutcome::MatchFailed)
        } else if since == Some(false) {
            Ok(ReadOutcome::SinceFailed)
        } else {
            Ok(ReadOutcome::Content)
        },
    }
}

impl ReadOutcome {
    /// The body sent in place of the content when a condition failed.
    pub fn message(&self) -> (r: Option<&'static str>)
        ensures
            match self {
                ReadOutcome::Content => r is None,
                ReadOutcome::MatchFailed => r matches Some(m) && m@
                    == "Content didn't match 'match' headers restrictions"@,
                ReadOutcome::SinceFailed => r matches Some(m) && m@
                    == "Content didn't match 'since' headers restrictions"@,
            },
    {
        match self {
            ReadOutcome::Content => None,
            ReadOutcome::MatchFailed => Some("Content didn't match 'match' headers restrictions"),
            ReadOutcome::SinceFailed => Some("Content didn't match 'since' headers restrictions"),
        }
    }
}

/// Decides how to answer a read of an object whose entity tag is `etag` and
/// which was last modified at `last_modified`.
pub fn conditional_read(headers: &Headers, etag: String, last_modified: i64) -> (r: Result<
    ReadOutcome,
    ApiError,
>)
    ensures
        match read_outcome(headers@, etag@, last_modified) {
            Ok(o) => r == Ok::<ReadOutcome, ApiError>(o),
            Err(_) => r matches Err(e) && e.status == 500 && e.message@
                == "Could'nt parse input timestamp"@,
        },
        r is Err <==> since_condition(headers@, last_modified) is Err,
        r == Ok::<ReadOutcome, ApiError>(ReadOutcome::MatchFailed) <==> (since_condition(
            headers@,
            last_modified,
        ) is Ok && match_condition(headers@, etag@) == Some(false)),
        r == Ok::<ReadOutcome, ApiError>(ReadOutcome::SinceFailed) <==> (since_condition(
            headers@,
            last_modified,
        ) == Ok::<Option<bool>, HeaderError>(Some(false)) && match_condition(headers@, etag@)
            != Some(false)),
        r == Ok::<ReadOutcome, ApiError>(ReadOutcome::Content) <==> (since_condition(
            headers@,
            last_modified,
        ) is Ok && since_condition(headers@, last_modified) != Ok::<Option<bool>, HeaderError>(
            Some(false),
        ) && match_condition(headers@, etag@) != Some(false)),
{
    let match_check = match check_match(headers, etag) {
        Ok(m) => m,
        Err(e) => {
            return Err(ApiError::internal(e.message()));
        },
    };
    let since_check = match check_since(headers, last_modified) {
        Ok(s) => s,
        Err(e) => {
            return Err(ApiError::internal(e.message()));
        },
    };
    if let Some(is_match) = match_check {
        if !is_match {
            return Ok(ReadOutcome::MatchFailed);
        }
    }
    if let Some(is_since) = since_check {
        if !is_since {
            return Ok(ReadOutcome::SinceFailed);
        }
    }
    Ok(ReadOutcome::Content)
}

/// The content of an object is sent exactly when no condition fails: a
/// malformed time condition is an error whatever else holds; a failed
/// entity-tag condition holds the content back; and when the entity-tag
/// condition does not fail (it holds or is absent), a failed time condition
/// holds the content back all the same. A satisfied condition never
/// overrides a failed one.
pub proof fn lemma_read_outcome_conditions(hs: Seq<HeaderView>, etag: Seq<char>, last_modified: i64)
    ensures
        since_condition(hs, last_modified) is Err ==> read_outcome(hs, etag, last_modified) is Err,
        since_condition(hs, last_modified) is Ok && match_condition(hs, etag) == Some(false)
            ==> read_outcome(hs, etag, last_modified) == Ok::<ReadOutcome, ()>(
            ReadOutcome::MatchFailed,
        ),
        match_condition(hs, etag) != Some(false) && since_condition(hs, last_modified) == Ok::<
            Option<bool>,
            HeaderError,
        >(Some(false)) ==> read_outcome(hs, etag, last_modified) == Ok::<ReadOutcome, ()>(
            ReadOutcome::SinceFailed,
        ),
        read_outcome(hs, etag, last_modified) == Ok::<ReadOutcome, ()>(ReadOutcome::Content) <==> (
        match_condition(hs, etag) != Some(false) && (since_condition(hs, last_modified) == Ok::<
            Option<bool>,
            HeaderError,
        >(None) || since_condition(hs, last_modified) == Ok::<Option<bool>, HeaderError>(
            Some(true),
        ))),
{
}

/// A step of storing or finding an object on disk that did not succeed.
#[derive(Debug, Clone, Copy, PartialEq, Eq, Structural)]
pub enum StorageFailure {
    /// The bucket's directory could not be entered for an upload.
    UploadBucketMissing,
    /// The bucket's directory could not be entered for a read.
    BucketMissing,
    /// The object's directory could not be created.
    PathNotCreated,
    /// The object's directory could not be entered for an upload.
    UploadPathNotEntered,
    /// The object's directory could not be entered for a read.
    PathNotEntered,
    /// The uploaded content could not be written.
    FileNotWritten,
    /// The object path has no file name.
    FileNameMissing,
    /// There is no object at the path.
    ObjectMissing,
}

/// The status each failure is answered with.
pub open spec fn failure_status(f: StorageFailure) -> u16 {
    match f {
        StorageFailure::UploadBucketMissing => STATUS_BAD_REQUEST,
        StorageFailure::ObjectMissing => STATUS_NOT_FOUND,
        _ => STATUS_INTERNAL_SERVER_ERROR,
    }
}

/// The message each failure is answered with.
pub open spec fn failure_message(f: StorageFailure) -> Seq<char> {
    match f {
        StorageFailure::UploadBucketMissing => "Couln't find bucket"@,
        StorageFailure::BucketMissing => "Could't find bucket"@,
        StorageFailure::PathNotCreated => "Could't find provided path"@,
        StorageFailure::UploadPathNotEntered => "Failed setting working dir to provided path"@,
        StorageFailure::PathNotEntered => "Could't set work dir as file path"@,
        StorageFailure::FileNotWritten => "Failed writing to provided file"@,
        StorageFailure::FileNameMissing => "Could't get file name"@,
        StorageFailure::ObjectMissing => "Object not found"@,
    }
}

/// How storage failures are answered: a missing object is not found
/// (404), a missing bucket for an upload is a bad request (400), and every
/// other failure is the service's own (500).
pub proof fn lemma_failure_statuses(f: StorageFailure)
    ensures
        failure_status(f) == 404 <==> f == StorageFailure::ObjectMissing,
        failure_status(f) == 400 <==> f == StorageFailure::UploadBucketMissing,
        failure_status(f) == 500 <==> f != StorageFailure::ObjectMissing && f
            != StorageFailure::UploadBucketMissing,
{
}

/// The answer to a request whose storage step `f` failed.
pub fn failure_error(f: StorageFailure) -> (e: ApiError)
    ensures
        e.status == failure_status(f),
        e.message@ == failure_message(f),
{
    match f {
        StorageFailure::UploadBucketMissing => ApiError::new(
            STATUS_BAD_REQUEST,
            "Couln't find bucket",
        ),
        StorageFailure::BucketMissing => ApiError::new(
            STATUS_INTERNAL_SERVER_ERROR,
            "Could't find bucket",
        ),
        StorageFailure::PathNotCreated => ApiError::new(
            STATUS_INTERNAL_SERVER_ERROR,
            "Could't find provided path",
        ),
        StorageFailure::UploadPathNotEntered => ApiError::new(
            STATUS_INTERNAL_SERVER_ERROR,
            "Failed setting working dir to provided path",
        ),
        StorageFailure::PathNotEntered => ApiError::new(
            STATUS_INTERNAL_SERVER_ERROR,
            "Could't set work dir as file path",
        ),
        StorageFailure::FileNotWritten => ApiError::new(
            STATUS_INTERNAL_SERVER_ERROR,
            "Failed writing to provided file",
        ),
        StorageFailure::FileNameMissing => ApiError::new(
            STATUS_INTERNAL_SERVER_ERROR,
            "Could't get file name",
        ),
        StorageFailure::ObjectMissing => ApiError::new(STATUS_NOT_FOUND, "Object not found"),
    }
}

} // verus!
