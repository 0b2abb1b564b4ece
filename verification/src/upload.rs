//! Upload composition: how the hash is declared, the declared content
//! length, and the file-name shaping the upload call needs.

use crate::trailer::TRAILER_LEN;
use vstd::prelude::*;

verus! {

/// How the upload verifies file integrity.
///
/// `Precomputed` carries a digest computed before the upload starts;
/// `HexAtEnd` expects the body to end with the 40-character hexadecimal
/// digest of everything before it; `DoNotVerify` uses no hash at all.
pub enum Sha1Variant<'a> {
    Precomputed(&'a str),
    HexAtEnd,
    DoNotVerify,
}

/// Information about a file being uploaded.
///
/// `file_size` must match the size of the bytes handed to the transport;
/// the extra length of a trailing digest is added by `upload_length`, not
/// by the caller.
pub struct FileParameters<'a> {
    pub file_path: &'a str,
    pub file_size: u64,
    pub content_type: Option<&'a str>,
    pub content_sha1: Sha1Variant<'a>,
    pub last_modified_millis: u64,
}

/// The content length to declare to the transport before streaming begins:
/// the file size, plus the trailer length when the digest is sent at the
/// end of the body.
pub fn upload_length(variant: &Sha1Variant<'_>, file_size: u64) -> (r: u64)
    requires
        *variant is HexAtEnd ==> file_size + TRAILER_LEN as int <= u64::MAX,
    ensures
        r as int == if *variant is HexAtEnd {
            file_size + TRAILER_LEN as int
        } else {
            file_size as int
        },
{
    match variant {
        Sha1Variant::HexAtEnd => file_size + TRAILER_LEN as u64,
        _ => file_size,
    }
}

/// The value of the integrity header for each hash mode: the precomputed
/// digest itself, or the marker telling the server where to find it.
pub fn content_sha1_header<'a>(variant: &Sha1Variant<'a>) -> (r: &'a str)
    ensures
        *variant matches Sha1Variant::Precomputed(h) ==> r@ == h@,
        *variant is HexAtEnd ==> r@ == "hex_digits_at_end"@,
        *variant is DoNotVerify ==> r@ == "do_not_verify"@,
{
    match variant {
        Sha1Variant::Precomputed(h) => h,
        Sha1Variant::HexAtEnd => "hex_digits_at_end",
        Sha1Variant::DoNotVerify => "do_not_verify",
    }
}

/// Every backslash turned into a forward slash.
pub open spec fn normalize_slashes(s: Seq<char>) -> Seq<char> {
    s.map_values(|c: char| if c == '\\' { '/' } else { c })
}

/// The stored name of an uploaded file: the prefix (if any), a slash, and
/// the file's own name, with backslashes normalized to forward slashes.
pub open spec fn spec_full_file_name(prefix: Seq<char>, name: Seq<char>) -> Seq<char> {
    if prefix.len() == 0 {
        normalize_slashes(name)
    } else {
        normalize_slashes(prefix + "/"@ + name)
    }
}

/// Relies on str::replace with a one-character pattern: every occurrence of
/// the backslash becomes a forward slash and all other characters stay.
#[verifier::external_body]
fn replace_backslashes(s: &str) -> (r: String)
    ensures
        r@ == normalize_slashes(s@),
{
    s.replace('\\', "/")
}

/// Join an optional prefix and a file name into the name stored on the
/// server.  An empty prefix adds nothing; otherwise the two are joined with
/// a slash; backslashes anywhere are normalized to forward slashes.
pub fn full_file_name(prefix: &str, name: &str) -> (r: String)
    ensures
        r@ == spec_full_file_name(prefix@, name@),
{
    if prefix.is_empty() {
        replace_backslashes(name)
    } else {
        let mut joined = prefix.to_owned();
        joined.append("/");
        joined.append(name);
        replace_backslashes(joined.as_str())
    }
}

/// The `application/x-www-form-urlencoded` serialization of the pair with
/// an empty name and value `s`: an equals sign, then the encoded value.
pub uninterp spec fn form_encoded_pair_of(s: Seq<char>) -> Seq<char>;

/// The percent-encoded form of a file name: the encoded pair without its
/// leading equals sign.
pub open spec fn percent_encoded_name_of(s: Seq<char>) -> Seq<char> {
    form_encoded_pair_of(s).skip(1)
}

/// Relies on url::form_urlencoded::Serializer::append_pair with an empty
/// name: the output is an equals sign followed by the encoded value.
#[verifier::external_body]
fn form_encode_empty_pair(s: &str) -> (r: String)
    ensures
        r@ == form_encoded_pair_of(s@),
        r@.len() >= 1,
        r@[0] == '=',
{
    let mut serializer = url::form_urlencoded::Serializer::new(String::new());
    serializer.append_pair("", s);
    serializer.finish()
}

/// Percent-encode a file name for the upload call's name header, as the
/// form-urlencoded serializer writes it (the leading equals sign that the
/// empty pair name produces is dropped).
pub fn encoded_file_name(name: &str) -> (r: String)
    ensures
        r@ == percent_encoded_name_of(name@),
{
    let encoded = form_encode_empty_pair(name);
    let len = encoded.as_str().unicode_len();
    let stripped = encoded.as_str().substring_char(1, len);
    proof {
        assert(stripped@ =~= form_encoded_pair_of(name@).skip(1));
    }
    stripped.to_owned()
}

} // verus!
