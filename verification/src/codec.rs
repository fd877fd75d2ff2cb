//! The constants that the connection takes from the protocol codec.

use pg_srv::protocol::SSL_REQUEST_PROTOCOL;
use pg_srv::{PgType, PgTypeId};
use vstd::prelude::*;

verus! {

/// The major version number by which a client asks for SSL in place of a
/// startup.
pub const SSL_REQUEST_CODE: u16 = 1234;

/// The OID of the type `text`.
pub const TEXT_OID: u32 = 25;

/// Reads the constant `pg_srv::protocol::SSL_REQUEST_PROTOCOL`, which the
/// codec's source sets to 1234.
#[verifier::external_body]
pub(crate) fn ssl_request_protocol() -> (code: u16)
    ensures
        code == SSL_REQUEST_CODE,
{
    SSL_REQUEST_PROTOCOL
}

/// Looks `PgTypeId::TEXT` up with `pg_srv::PgType::get_by_tid` and gives
/// the OID of what it finds. The codec's source hands out its entry for
/// `text` there, whose OID is `PgTypeId::TEXT` as a number, and numbers
/// that 25.
#[verifier::external_body]
pub(crate) fn text_type_oid() -> (oid: u32)
    ensures
        oid == TEXT_OID,
{
    PgType::get_by_tid(PgTypeId::TEXT).oid
}

} // verus!
