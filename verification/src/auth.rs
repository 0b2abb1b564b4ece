//! Authorization data and the URLs derived from it.

use vstd::prelude::*;

verus! {

/// The account authorization: API and download endpoints plus the token
/// every later call attaches.
pub struct B2Auth {
    pub account_id: String,
    pub api_url: String,
    pub authorization_token: String,
    pub download_url: String,
    pub absolute_minimum_part_size: usize,
    pub recommended_part_size: usize,
}

impl B2Auth {
    /// The full URL for a named API call: the authorized API endpoint, the
    /// versioned path, and the call's name.
    pub fn api_url_for(&self, call_name: &str) -> (r: String)
        ensures
            r@ == self.api_url@ + "/b2api/v2/"@ + call_name@,
    {
        let mut url = self.api_url.clone();
        url.append("/b2api/v2/");
        url.append(call_name);
        url
    }

    /// The URL for downloading a file by bucket and file name.
    pub fn download_url_by_name(&self, bucket_name: &str, file_name: &str) -> (r: String)
        ensures
            r@ == self.download_url@ + "/file/"@ + bucket_name@ + "/"@ + file_name@,
    {
        let mut url = self.download_url.clone();
        url.append("/file/");
        url.append(bucket_name);
        url.append("/");
        url.append(file_name);
        url
    }

    /// The URL for downloading a file by its assigned id.
    pub fn download_url_by_id(&self, file_id: &str) -> (r: String)
        ensures
            r@ == self.download_url@ + "/b2api/v2/b2_download_file_by_id?fileId="@ + file_id@,
    {
        let mut url = self.download_url.clone();
        url.append("/b2api/v2/b2_download_file_by_id?fileId=");
        url.append(file_id);
        url
    }
}

/// The base64 rendering of a key string's bytes.
pub uninterp spec fn base64_of(s: Seq<char>) -> Seq<char>;

/// Relies on base64::encode with the standard alphabet and padding.
#[verifier::external_body]
fn base64_encode(s: &str) -> (r: String)
    ensures
        r@ == base64_of(s@),
{
    base64::encode(s)
}

/// The value of the authorization header that the account-authorization
/// call sends: the word `Basic`, a space, and the base64-encoded
/// `applicationKeyId:applicationKey` string.
pub fn basic_auth_value(key_string: &str) -> (r: String)
    ensures
        r@ == "Basic "@ + base64_of(key_string@),
{
    let mut out = "Basic ".to_owned();
    let encoded = base64_encode(key_string);
    out.append(encoded.as_str());
    out
}

/// Authorization for uploading: bound to one bucket, carrying the upload
/// URL and its own token.  Each concurrent upload needs its own.
pub struct UploadAuth {
    pub bucket_id: String,
    pub upload_url: String,
    pub authorization_token: String,
}

/// Authorization for downloading from a bucket, limited to names with the
/// given prefix.
pub struct B2DownloadAuth {
    pub bucket_id: String,
    pub file_name_prefix: String,
    pub authorization_token: String,
}

/// Parameters for requesting a download authorization.  The duration must
/// lie between one second and one week.
pub struct B2GetDownloadAuthParams {
    pub bucket_id: String,
    pub file_name_prefix: String,
    pub valid_duration_in_seconds: u32,
}

} // verus!
