//! Tests for the plain data types and the small computations around the
//! HTTP calls: URLs, headers, names, numbers.

use raze::auth::basic_auth_value;
use raze::auth::B2Auth;
use raze::buckets::bucket_type_name;
use raze::buckets::update_bucket;
use raze::buckets::BucketType;
use raze::error::B2ApiError;
use raze::files::merge_file_page;
use raze::files::B2FileInfo;
use raze::files::DeleteFile;
use raze::files::FileList;
use raze::files::StoredFile;
use raze::text::parse_u64;
use raze::text::u64_to_decimal;
use raze::upload::content_sha1_header;
use raze::upload::encoded_file_name;
use raze::upload::full_file_name;
use raze::upload::upload_length;
use raze::upload::Sha1Variant;

fn test_auth() -> B2Auth {
    B2Auth {
        account_id: "acct".to_string(),
        api_url: "https://api001.example.com".to_string(),
        authorization_token: "token".to_string(),
        download_url: "https://f001.example.com".to_string(),
        absolute_minimum_part_size: 5_000_000,
        recommended_part_size: 100_000_000,
    }
}

fn stored_file(name: &str) -> StoredFile {
    StoredFile {
        file_id: "id".to_string(),
        file_name: name.to_string(),
        account_id: None,
        bucket_id: None,
        content_length: 0,
        content_sha1: "none".to_string(),
        content_type: "b2/x-auto".to_string(),
        action: "upload".to_string(),
        upload_timestamp: 0,
    }
}

#[test]
fn test_api_url_for() {
    let auth = test_auth();
    assert_eq!(
        auth.api_url_for("b2_list_buckets"),
        "https://api001.example.com/b2api/v2/b2_list_buckets"
    );
}

#[test]
fn test_download_url_by_name() {
    let auth = test_auth();
    assert_eq!(
        auth.download_url_by_name("uploaded-files", "some_folder/testfile.txt"),
        "https://f001.example.com/file/uploaded-files/some_folder/testfile.txt"
    );
}

#[test]
fn test_download_url_by_id() {
    let auth = test_auth();
    assert_eq!(
        auth.download_url_by_id("4_z27c88f1d182b150646ff0b16"),
        "https://f001.example.com/b2api/v2/b2_download_file_by_id?fileId=4_z27c88f1d182b150646ff0b16"
    );
}

#[test]
fn test_basic_auth_value() {
    assert_eq!(basic_auth_value("key:secret"), "Basic a2V5OnNlY3JldA==");
}

#[test]
fn test_upload_length_modes() {
    assert_eq!(upload_length(&Sha1Variant::HexAtEnd, 1000), 1040);
    assert_eq!(upload_length(&Sha1Variant::DoNotVerify, 1000), 1000);
    assert_eq!(upload_length(&Sha1Variant::Precomputed("abc"), 1000), 1000);
    assert_eq!(upload_length(&Sha1Variant::HexAtEnd, 0), 40);
}

#[test]
fn test_content_sha1_header_values() {
    assert_eq!(content_sha1_header(&Sha1Variant::HexAtEnd), "hex_digits_at_end");
    assert_eq!(content_sha1_header(&Sha1Variant::DoNotVerify), "do_not_verify");
    assert_eq!(
        content_sha1_header(&Sha1Variant::Precomputed(
            "f291f60cafb2ef2e0013f5a5889b1da5af4b4657"
        )),
        "f291f60cafb2ef2e0013f5a5889b1da5af4b4657"
    );
}

#[test]
fn test_full_file_name() {
    assert_eq!(full_file_name("", "dog.jpg"), "dog.jpg");
    assert_eq!(full_file_name("pictures", "dog.jpg"), "pictures/dog.jpg");
    assert_eq!(full_file_name("a\\b", "c\\d.txt"), "a/b/c/d.txt");
}

#[test]
fn test_encoded_file_name() {
    assert_eq!(encoded_file_name("some folder/file.txt"), "some+folder%2Ffile.txt");
    assert_eq!(encoded_file_name("plain.txt"), "plain.txt");
}

#[test]
fn test_parse_u64_values() {
    assert_eq!(parse_u64("0"), Some(0));
    assert_eq!(parse_u64("123"), Some(123));
    assert_eq!(parse_u64("0042"), Some(42));
    assert_eq!(parse_u64("18446744073709551615"), Some(u64::MAX));
    assert_eq!(parse_u64(""), None);
    assert_eq!(parse_u64("12a"), None);
    assert_eq!(parse_u64("-5"), None);
    assert_eq!(parse_u64("18446744073709551616"), None);
}

#[test]
fn test_u64_to_decimal_values() {
    assert_eq!(u64_to_decimal(0), "0");
    assert_eq!(u64_to_decimal(10), "10");
    assert_eq!(u64_to_decimal(12345), "12345");
    assert_eq!(u64_to_decimal(u64::MAX), "18446744073709551615");
}

fn file_info_with(pairs: Vec<(&str, &str)>) -> B2FileInfo {
    B2FileInfo {
        account_id: "acct".to_string(),
        action: "upload".to_string(),
        bucket_id: "bucket".to_string(),
        content_length: 21,
        content_sha1: None,
        content_type: None,
        file_id: Some("id".to_string()),
        file_info: Some(
            pairs.into_iter().map(|(k, v)| (k.to_string(), v.to_string())).collect(),
        ),
        file_name: "f.txt".to_string(),
        upload_timestamp: 0,
    }
}

#[test]
fn test_modified_timestamp() {
    let with = file_info_with(vec![("src_last_modified_millis", "1616161616000")]);
    assert_eq!(with.modified(), 1616161616000);

    let other_keys = file_info_with(vec![("color", "blue")]);
    assert_eq!(other_keys.modified(), 0);

    let bad_number = file_info_with(vec![("src_last_modified_millis", "late")]);
    assert_eq!(bad_number.modified(), 0);

    let mut none = file_info_with(vec![]);
    none.file_info = None;
    assert_eq!(none.modified(), 0);
}

#[test]
fn test_default_file_info() {
    let blank = B2FileInfo::default();
    assert_eq!(blank.file_name, "");
    assert_eq!(blank.content_length, 0);
    assert!(blank.file_info.is_none());
    assert_eq!(blank.modified(), 0);
}

#[test]
fn test_file_name_equality() {
    let a = stored_file("same.txt");
    let mut b = stored_file("same.txt");
    b.content_length = 99;
    assert!(a == b);
    let c = stored_file("other.txt");
    assert!(a != c);
}

#[test]
fn test_describe_api_error() {
    let err = B2ApiError {
        status: 401,
        code: "unauthorized".to_string(),
        message: "The auth token is expired".to_string(),
    };
    assert_eq!(
        err.describe(),
        "B2ApiError: error code 401 - unauthorized. Message: The auth token is expired"
    );
}

#[test]
fn test_delete_file_accessors() {
    let d = DeleteFile::new("folder/f.txt".to_string(), "4_zid".to_string());
    assert_eq!(d.file_name().as_str(), "folder/f.txt");
    assert_eq!(d.file_id().as_str(), "4_zid");
}

#[test]
fn test_merge_file_page() {
    let mut acc = FileList { files: vec![stored_file("a")], next_file_name: Some("b".to_string()) };
    let more = merge_file_page(
        &mut acc,
        FileList {
            files: vec![stored_file("b"), stored_file("c")],
            next_file_name: Some("d".to_string()),
        },
    );
    assert!(more);
    assert_eq!(acc.files.len(), 3);
    assert_eq!(acc.next_file_name, Some("d".to_string()));

    let done = merge_file_page(
        &mut acc,
        FileList { files: vec![stored_file("d")], next_file_name: None },
    );
    assert!(!done);
    assert_eq!(acc.files.len(), 4);
    assert_eq!(acc.next_file_name, None);
}

#[test]
fn test_update_bucket_request() {
    let req = update_bucket("acct", "bucket", Some("allPrivate"), Some(7), Some(30));
    assert_eq!(req.account_id, "acct");
    assert_eq!(req.bucket_id, "bucket");
    assert_eq!(req.bucket_type, Some("allPrivate"));
    assert_eq!(req.lifecycle_rules.len(), 1);
    assert_eq!(req.lifecycle_rules[0].days_from_uploading_to_hiding, Some(7));
    assert_eq!(req.lifecycle_rules[0].days_from_hiding_to_deleting, Some(30));
    assert_eq!(req.lifecycle_rules[0].file_name_prefix, "");
}

#[test]
fn test_bucket_type_names() {
    assert_eq!(bucket_type_name(&BucketType::AllPublic), "allPublic");
    assert_eq!(bucket_type_name(&BucketType::AllPrivate), "allPrivate");
    assert_eq!(bucket_type_name(&BucketType::Snapshot), "snapshot");
}
