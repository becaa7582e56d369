//! Types of std and of the crates that the decoders call, made known to the
//! verifier: the buffer that the decoders read from, and the errors that
//! they give.

use vstd::prelude::*;

verus! {

/// `std::io::Cursor`, the buffer that the decoders read from. Nothing is
/// known of its value.
#[verifier::external_type_specification]
#[verifier::external_body]
#[verifier::reject_recursive_types(T)]
pub struct ExCursor<T>(std::io::Cursor<T>);

/// `std::io::Error`. Nothing is known of its value.
#[verifier::external_type_specification]
#[verifier::external_body]
pub struct ExIoError(std::io::Error);

/// `serde_json::Error`. Nothing is known of its value.
#[verifier::external_type_specification]
#[verifier::external_body]
pub struct ExJsonError(serde_json::Error);

/// `minimp3::Error`. Nothing is known of its value.
#[verifier::external_type_specification]
#[verifier::external_body]
pub struct ExMp3Error(minimp3::Error);

/// `claxon::Error`. Nothing is known of its value.
#[verifier::external_type_specification]
#[verifier::external_body]
pub struct ExFlacError(claxon::Error);

/// `lewton::VorbisError`. Nothing is known of its value.
#[verifier::external_type_specification]
#[verifier::external_body]
pub struct ExVorbisError(lewton::VorbisError);

/// `hound::Error`. Nothing is known of its value.
#[verifier::external_type_specification]
#[verifier::external_body]
pub struct ExWavError(hound::Error);

} // verus!
