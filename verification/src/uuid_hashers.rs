use vstd::prelude::*;
use vstd::string::StringSliceAdditionalSpecFns;

verus! {

/// The hyphenated, lowercase version-5 (name-based, SHA-1) identifier built
/// from a 16-byte namespace identifier and a name's bytes.
pub uninterp spec fn uuid5_of(namespace: Seq<u8>, name: Seq<u8>) -> Seq<char>;

/// The 16 bytes of the standard DNS namespace identifier,
/// 6ba7b810-9dad-11d1-80b4-00c04fd430c8.
pub open spec fn namespace_dns() -> Seq<u8> {
    seq![0x6bu8, 0xa7, 0xb8, 0x10, 0x9d, 0xad, 0x11, 0xd1, 0x80, 0xb4, 0x00, 0xc0, 0x4f, 0xd4, 0x30, 0xc8]
}

/// The 16 bytes of the standard URL namespace identifier,
/// 6ba7b811-9dad-11d1-80b4-00c04fd430c8.
pub open spec fn namespace_url() -> Seq<u8> {
    seq![0x6bu8, 0xa7, 0xb8, 0x11, 0x9d, 0xad, 0x11, 0xd1, 0x80, 0xb4, 0x00, 0xc0, 0x4f, 0xd4, 0x30, 0xc8]
}

/// The 16 bytes of the standard OID namespace identifier,
/// 6ba7b812-9dad-11d1-80b4-00c04fd430c8.
pub open spec fn namespace_oid() -> Seq<u8> {
    seq![0x6bu8, 0xa7, 0xb8, 0x12, 0x9d, 0xad, 0x11, 0xd1, 0x80, 0xb4, 0x00, 0xc0, 0x4f, 0xd4, 0x30, 0xc8]
}

/// The 16 bytes of the standard X.500 namespace identifier,
/// 6ba7b814-9dad-11d1-80b4-00c04fd430c8.
pub open spec fn namespace_x500() -> Seq<u8> {
    seq![0x6bu8, 0xa7, 0xb8, 0x14, 0x9d, 0xad, 0x11, 0xd1, 0x80, 0xb4, 0x00, 0xc0, 0x4f, 0xd4, 0x30, 0xc8]
}

/// Relies on uuid::Uuid::new_v5 under Uuid::NAMESPACE_DNS (whose bytes are
/// `namespace_dns()`): appends the hyphenated identifier of the value's
/// UTF-8 bytes to `output`.
#[verifier::external_body]
pub fn uuid5_dns_hash(value: &str, output: &mut String)
    ensures
        final(output)@ == old(output)@ + uuid5_of(namespace_dns(), value.spec_bytes()),
        final(output)@.len() == old(output)@.len() + 36,
{
    output.push_str(
        &uuid::Uuid::new_v5(&uuid::Uuid::NAMESPACE_DNS, value.as_bytes()).hyphenated().to_string(),
    )
}

/// Relies on uuid::Uuid::new_v5 under Uuid::NAMESPACE_URL (whose bytes are
/// `namespace_url()`): appends the hyphenated identifier of the value's
/// UTF-8 bytes to `output`.
#[verifier::external_body]
pub fn uuid5_url_hash(value: &str, output: &mut String)
    ensures
        final(output)@ == old(output)@ + uuid5_of(namespace_url(), value.spec_bytes()),
        final(output)@.len() == old(output)@.len() + 36,
{
    output.push_str(
        &uuid::Uuid::new_v5(&uuid::Uuid::NAMESPACE_URL, value.as_bytes()).hyphenated().to_string(),
    )
}

/// Relies on uuid::Uuid::new_v5 under Uuid::NAMESPACE_OID (whose bytes are
/// `namespace_oid()`): appends the hyphenated identifier of the value's
/// UTF-8 bytes to `output`.
#[verifier::external_body]
pub fn uuid5_oid_hash(value: &str, output: &mut String)
    ensures
        final(output)@ == old(output)@ + uuid5_of(namespace_oid(), value.spec_bytes()),
        final(output)@.len() == old(output)@.len() + 36,
{
    output.push_str(
        &uuid::Uuid::new_v5(&uuid::Uuid::NAMESPACE_OID, value.as_bytes()).hyphenated().to_string(),
    )
}

/// Relies on uuid::Uuid::new_v5 under Uuid::NAMESPACE_X500 (whose bytes are
/// `namespace_x500()`): appends the hyphenated identifier of the value's
/// UTF-8 bytes to `output`.
#[verifier::external_body]
pub fn uuid5_x500_hash(value: &str, output: &mut String)
    ensures
        final(output)@ == old(output)@ + uuid5_of(namespace_x500(), value.spec_bytes()),
        final(output)@.len() == old(output)@.len() + 36,
{
    output.push_str(
        &uuid::Uuid::new_v5(&uuid::Uuid::NAMESPACE_X500, value.as_bytes()).hyphenated().to_string(),
    )
}

} // verus!
