//! Types of outside crates that the data model carries as opaque values.

use vstd::prelude::*;

verus! {

/// `ulid::Ulid`, the identifier of sessions, entries and connections.
#[verifier::external_type_specification]
#[verifier::external_body]
pub struct ExUlid(ulid::Ulid);

/// `Ulid`'s `clone`, which `derive(Clone, Copy)` writes: a copy of the value.
pub assume_specification[ <ulid::Ulid as Clone>::clone ](u: &ulid::Ulid) -> (r: ulid::Ulid)
    ensures
        r == *u,
;

/// `url::Url`, the URL of a captured request.
#[verifier::external_type_specification]
#[verifier::external_body]
pub struct ExUrl(url::Url);

/// `Url`'s `clone`, which `derive(Clone)` writes field by field: a value
/// equal to the one cloned.
pub assume_specification[ <url::Url as Clone>::clone ](u: &url::Url) -> (r: url::Url)
    ensures
        r == *u,
;

/// `base64::DecodeError`, why a message body is not base64.
#[verifier::external_type_specification]
#[verifier::external_body]
pub struct ExDecodeError(base64::DecodeError);

/// `std::slice::IterMut`, the iterator that hands out the entries of a
/// header list for modification.
#[verifier::external_type_specification]
#[verifier::external_body]
#[verifier::reject_recursive_types(T)]
pub struct ExIterMut<'a, T: 'a>(std::slice::IterMut<'a, T>);

} // verus!
