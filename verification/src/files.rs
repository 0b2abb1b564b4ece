//! File metadata: what the server reports about stored files, and the
//! small computations the file calls need.

use crate::auth::B2DownloadAuth;
use crate::text::all_digits;
use crate::text::dec_val;
use crate::text::parse_u64;
use vstd::prelude::*;

verus! {

/// Information about a file stored on the server, as the upload and file
/// listing calls report it.
pub struct StoredFile {
    pub file_id: String,
    pub file_name: String,
    pub account_id: Option<String>,
    pub bucket_id: Option<String>,
    pub content_length: u64,
    pub content_sha1: String,
    pub content_type: String,
    pub action: String,
    pub upload_timestamp: u64,
}

/// Compares by the file_name value.
impl PartialEq for StoredFile {
    fn eq(&self, other: &StoredFile) -> (r: bool) {
        self.file_name == other.file_name
    }
}

impl vstd::std_specs::cmp::PartialEqSpecImpl for StoredFile {
    open spec fn obeys_eq_spec() -> bool {
        true
    }

    open spec fn eq_spec(&self, other: &StoredFile) -> bool {
        self.file_name@ == other.file_name@
    }
}

/// Custom file info attached to an upload, as key/value pairs.  The server
/// reports each key at most once; the first binding of a key is the one a
/// lookup returns.
pub type FileInfoPairs = Vec<(String, String)>;

/// The first value bound to `key`, if any.
pub open spec fn lookup_pair(entries: Seq<(String, String)>, key: Seq<char>) -> Option<Seq<char>>
    decreases entries.len(),
{
    if entries.len() == 0 {
        None
    } else if entries.first().0@ == key {
        Some(entries.first().1@)
    } else {
        lookup_pair(entries.drop_first(), key)
    }
}

proof fn lemma_lookup_pair_skip(entries: Seq<(String, String)>, key: Seq<char>, i: int)
    requires
        0 <= i <= entries.len(),
        forall|j: int| 0 <= j < i ==> (#[trigger] entries[j]).0@ != key,
    ensures
        lookup_pair(entries, key) == lookup_pair(entries.skip(i), key),
    decreases i,
{
    if i > 0 {
        assert(entries[0].0@ != key);
        lemma_lookup_pair_skip(entries.drop_first(), key, i - 1);
        assert(entries.drop_first().skip(i - 1) =~= entries.skip(i));
    } else {
        assert(entries.skip(0) =~= entries);
    }
}

/// Information about a file on the server, as reported by the upload,
/// hide, file-info and file-listing calls.
pub struct B2FileInfo {
    pub account_id: String,
    pub action: String,
    pub bucket_id: String,
    pub content_length: u64,
    pub content_sha1: Option<String>,
    pub content_type: Option<String>,
    pub file_id: Option<String>,
    pub file_info: Option<FileInfoPairs>,
    pub file_name: String,
    pub upload_timestamp: u64,
}

/// Compares by the file_name value.
impl PartialEq for B2FileInfo {
    fn eq(&self, other: &B2FileInfo) -> (r: bool) {
        self.file_name == other.file_name
    }
}

impl vstd::std_specs::cmp::PartialEqSpecImpl for B2FileInfo {
    open spec fn obeys_eq_spec() -> bool {
        true
    }

    open spec fn eq_spec(&self, other: &B2FileInfo) -> bool {
        self.file_name@ == other.file_name@
    }
}

impl Default for B2FileInfo {
    /// A blank file info: every string empty, every optional field absent,
    /// every number zero.
    fn default() -> (r: B2FileInfo)
        ensures
            r.account_id@ == Seq::<char>::empty(),
            r.action@ == Seq::<char>::empty(),
            r.bucket_id@ == Seq::<char>::empty(),
            r.content_length == 0,
            r.content_sha1 is None,
            r.content_type is None,
            r.file_id is None,
            r.file_info is None,
            r.file_name@ == Seq::<char>::empty(),
            r.upload_timestamp == 0,
    {
        B2FileInfo {
            account_id: String::new(),
            action: String::new(),
            bucket_id: String::new(),
            content_length: 0,
            content_sha1: Option::None,
            content_type: Option::None,
            file_id: Option::None,
            file_info: Option::None,
            file_name: String::new(),
            upload_timestamp: 0,
        }
    }
}

/// The modified timestamp recorded in a file's custom info, or zero when
/// none was supplied or it does not read as a decimal u64.
pub open spec fn spec_modified(file_info: Option<FileInfoPairs>) -> int {
    match file_info {
        Option::None => 0,
        Option::Some(entries) => match lookup_pair(entries@, "src_last_modified_millis"@) {
            Option::None => 0,
            Option::Some(s) => if s.len() > 0 && all_digits(s) && dec_val(s) <= u64::MAX {
                dec_val(s)
            } else {
                0
            },
        },
    }
}

impl B2FileInfo {
    /// The modified timestamp of the file; zero if it was not supplied
    /// during upload or cannot be read as a number.
    pub fn modified(&self) -> (r: u64)
        ensures
            r as int == spec_modified(self.file_info),
    {
        let key: String = "src_last_modified_millis".to_owned();
        match self.file_info {
            Option::None => 0,
            Option::Some(ref entries) => {
                let n = entries.len();
                let mut i: usize = 0;
                while i < n
                    invariant
                        i <= n == entries@.len(),
                        self.file_info == Option::Some(*entries),
                        key@ == "src_last_modified_millis"@,
                        forall|j: int| 0 <= j < i ==> (#[trigger] entries@[j]).0@ != key@,
                    decreases n - i,
                {
                    if entries[i].0 == key {
                        let ghost s = entries@[i as int].1@;
                        proof {
                            lemma_lookup_pair_skip(entries@, key@, i as int);
                            assert(entries@.skip(i as int).first() == entries@[i as int]);
                            assert(lookup_pair(entries@, key@) == Option::Some(s));
                        }
                        return match parse_u64(entries[i].1.as_str()) {
                            Option::Some(v) => v,
                            Option::None => 0,
                        };
                    }
                    i = i + 1;
                }
                proof {
                    lemma_lookup_pair_skip(entries@, key@, n as int);
                    assert(entries@.skip(n as int) =~= Seq::<(String, String)>::empty());
                }
                0
            },
        }
    }
}

/// Request body and result of the delete-file-version call.
pub struct DeleteFile {
    file_name: String,
    file_id: String,
}

impl DeleteFile {
    pub closed spec fn spec_file_name(&self) -> Seq<char> {
        self.file_name@
    }

    pub closed spec fn spec_file_id(&self) -> Seq<char> {
        self.file_id@
    }

    pub fn new(file_name: String, file_id: String) -> (r: DeleteFile)
        ensures
            r.spec_file_name() == file_name@,
            r.spec_file_id() == file_id@,
    {
        DeleteFile { file_name, file_id }
    }

    pub fn file_name(&self) -> (r: &String)
        ensures
            r@ == self.spec_file_name(),
    {
        &self.file_name
    }

    pub fn file_id(&self) -> (r: &String)
        ensures
            r@ == self.spec_file_id(),
    {
        &self.file_id
    }
}

/// Result of the delete-file-version call.
pub struct DeleteFileVersionResult {
    pub file_name: String,
    pub file_id: String,
}

/// One page of stored files, with where to continue from, if anywhere.
pub struct FileList {
    pub files: Vec<StoredFile>,
    pub next_file_name: Option<String>,
}

/// One page of file infos, with where to continue from, if anywhere.
pub struct ListFilesResult {
    pub files: Vec<B2FileInfo>,
    pub next_file_name: Option<String>,
}

/// Parameters for downloading a file by bucket and file name; without a
/// download authorization the account authorization is used.
pub struct B2DownloadFileByNameParams {
    pub bucket_name: String,
    pub file_name: String,
    pub authorization: Option<B2DownloadAuth>,
}

/// Information on a downloaded file, decoded from response headers.
pub struct FileInfo {
    pub x_bz_file_name: Option<String>,
    pub x_bz_file_id: Option<String>,
    pub x_bz_content_sha1: Option<String>,
    pub x_bz_upload_timestamp: Option<u64>,
    pub x_bz_info_src_last_modified_millis: Option<u64>,
    pub content_type: Option<String>,
    pub content_length: Option<u64>,
}

/// Fold the next page of a listing into the accumulated one: its files are
/// appended and its continuation marker replaces the old one.  Listing is
/// complete exactly when the marker comes back empty.
pub fn merge_file_page(acc: &mut FileList, next: FileList) -> (more: bool)
    ensures
        final(acc).files@ == old(acc).files@ + next.files@,
        final(acc).next_file_name == next.next_file_name,
        more == (next.next_file_name is Some),
{
    let mut next = next;
    acc.files.append(&mut next.files);
    acc.next_file_name = next.next_file_name;
    match &acc.next_file_name {
        Option::Some(_) => true,
        Option::None => false,
    }
}

} // verus!
