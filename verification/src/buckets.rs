//! Buckets: their types, the results the bucket calls return, and the
//! request body the update call sends.

use vstd::prelude::*;

verus! {

/// The type of a bucket.  `Snapshot` cannot be created or set by the
/// create and update calls.
pub enum BucketType {
    AllPublic,
    AllPrivate,
    Snapshot,
}

/// The type of a bucket, as the newer bucket calls name it.
pub enum B2BucketType {
    AllPublic,
    AllPrivate,
    Snapshot,
}

/// A bucket, as the older bucket calls report it.
pub struct Bucket {
    pub account_id: String,
    pub bucket_id: String,
    pub bucket_name: String,
    pub bucket_type: BucketType,
    pub revision: u32,
}

/// A bucket, as the newer bucket calls report it.
pub struct BucketResult {
    pub account_id: String,
    pub bucket_id: String,
    pub bucket_name: String,
    pub bucket_type: B2BucketType,
}

/// Optional filters for listing buckets.
pub struct ListBucketParams {
    pub bucket_id: Option<String>,
    pub bucket_name: Option<String>,
    pub bucket_types: Option<String>,
}

/// Lifecycle rules attached to a bucket by the update call.
pub struct LifecycleRules<'a> {
    pub days_from_uploading_to_hiding: Option<u32>,
    pub days_from_hiding_to_deleting: Option<u32>,
    pub file_name_prefix: &'a str,
}

/// Request body of the update-bucket call.
pub struct UpdateBucket<'a> {
    pub account_id: &'a str,
    pub bucket_id: &'a str,
    pub bucket_type: Option<&'a str>,
    pub lifecycle_rules: Vec<LifecycleRules<'a>>,
}

/// The wire name of a bucket type.
pub fn bucket_type_name(t: &BucketType) -> (r: &'static str)
    ensures
        *t is AllPublic ==> r@ == "allPublic"@,
        *t is AllPrivate ==> r@ == "allPrivate"@,
        *t is Snapshot ==> r@ == "snapshot"@,
{
    match t {
        BucketType::AllPublic => "allPublic",
        BucketType::AllPrivate => "allPrivate",
        BucketType::Snapshot => "snapshot",
    }
}

/// Build the update-bucket request: the new type, if any, and one
/// lifecycle rule that applies to every file name, carrying the days until
/// hiding and until deletion.
pub fn update_bucket<'a>(
    account_id: &'a str,
    bucket_id: &'a str,
    bucket_type: Option<&'a str>,
    days_from_upload_to_hide: Option<u32>,
    days_from_hide_to_delete: Option<u32>,
) -> (r: UpdateBucket<'a>)
    ensures
        r.account_id@ == account_id@,
        r.bucket_id@ == bucket_id@,
        r.bucket_type == bucket_type,
        r.lifecycle_rules@.len() == 1,
        r.lifecycle_rules@[0].days_from_uploading_to_hiding == days_from_upload_to_hide,
        r.lifecycle_rules@[0].days_from_hiding_to_deleting == days_from_hide_to_delete,
        r.lifecycle_rules@[0].file_name_prefix@ == ""@,
{
    let mut rules: Vec<LifecycleRules<'a>> = Vec::new();
    rules.push(
        LifecycleRules {
            days_from_uploading_to_hiding: days_from_upload_to_hide,
            days_from_hiding_to_deleting: days_from_hide_to_delete,
            file_name_prefix: "",
        },
    );
    UpdateBucket { account_id, bucket_id, bucket_type, lifecycle_rules: rules }
}

} // verus!
