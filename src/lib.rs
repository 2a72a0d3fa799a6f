//! A verified codec for ADIF, the tag-length-value format in which amateur
//! radio stations exchange their contact logs.
//!
//! Conventions of this codec:
//! - the wire is ISO-8859-1, one byte per character: the parser reads each
//!   byte as one character (also when it reads a `&str`, through its bytes),
//!   and `to_bytes` writes each character as one byte, refusing characters
//!   beyond U+00FF; a declared length is thus the byte length of the value;
//! - a field's value is the first `LEN` characters after its tag; fewer is a
//!   `LengthMismatch`;
//! - field names match without regard to case in both domains, header and
//!   contact record, and are written in upper case;
//! - a declared length of zero is a field with an empty value, read as soon
//!   as its tag closes; `<EOR:0>` is the record terminator, like `<EOR>`;
//! - a document may start without a header: a contact-record field read while
//!   the header is expected starts the first record.

pub mod text;
pub mod error;
pub mod vocabulary;
pub mod enumerations;
pub mod dxcc;
pub mod enumeration;
pub mod composite;
pub mod value;
pub mod field;
pub mod wire;
pub mod record;
pub mod parser;
pub mod locator;
pub mod roundtrip;

pub use composite::{IotaRefNo, Location, LocationDirection, SponsoredAward};
pub use dxcc::DxccEntityCode;
pub use enumeration::{Enumeration, EnumerationType};
pub use enumerations::{
    AntPath, Award, Band, Continent, MorseKeyType, PropagationMode, QslMedium, QslRcvd, QslSent,
    QslVia, QsoComplete, QsoUploadStatus, Region, Sponsor,
};
pub use error::{AdifError, ErrorKind};
pub use field::{FieldName, HeaderFieldName, QSOFieldName};
pub use locator::{locator_to_coordinates, Point};
pub use parser::{parse, parse_adif_char, parse_str, AdifState, FieldState, State};
pub use record::{Adif, Header, Record, QSO};
pub use value::{join_vec, split_to_vec, DataType, DataValue, Date, Time};
pub use wire::{Field, HeaderField, QSOField};
