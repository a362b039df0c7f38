//! Trusted boundary to the queue backend's client type.
//!
//! The connection handle stored per linked actor is an `aws_sdk_sqs::Client`.
//! The handle is opaque to the rest of the library: it is created here from
//! plain credential values, cloned, and carried through the routing state
//! machines; every network operation on it is performed by the embedding
//! process, outside this library.

use vstd::prelude::*;

verus! {

/// Declares `aws_sdk_sqs::Client` so that it can stand in signatures and
/// fields. The value is opaque: nothing inside it is read by the library.
#[verifier::external_type_specification]
#[verifier::external_body]
pub struct ExClient(aws_sdk_sqs::Client);

/// Relies on the derived `Clone` for `aws_sdk_sqs::Client`: the struct holds
/// one `Arc` around its handle, so a clone shares that handle and is the same
/// session value.
pub assume_specification[ <aws_sdk_sqs::Client as Clone>::clone ](
    c: &aws_sdk_sqs::Client,
) -> (r: aws_sdk_sqs::Client)
    ensures
        r == *c,
;

/// Relies on `aws_sdk_sqs::Client::from_conf`: builds an in-memory session
/// from a region and static credentials. No network call happens here; an
/// invalid region or credential surfaces later, on the first queue operation.
/// The default behavior version, retry policy and sleep implementation are
/// used, under which construction does not panic.
#[verifier::external_body]
pub(crate) fn make_client(
    region: String,
    access_key_id: String,
    secret_access_key: String,
) -> (c: aws_sdk_sqs::Client) {
    let credentials = aws_sdk_sqs::config::Credentials::new(
        access_key_id,
        secret_access_key,
        None,
        None,
        "link",
    );
    let conf = aws_sdk_sqs::Config::builder()
        .behavior_version_latest()
        .region(aws_sdk_sqs::config::Region::new(region))
        .credentials_provider(credentials)
        .build();
    aws_sdk_sqs::Client::from_conf(conf)
}

} // verus!
