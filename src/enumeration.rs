//! An enumeration value tagged with its domain, for values whose domain is
//! known only at run time (from a field's data type).

use vstd::prelude::*;
use crate::dxcc::DxccEntityCode;
use crate::enumerations::{
    AntPath, Award, Band, Continent, MorseKeyType, PropagationMode, QslMedium, QslRcvd, QslSent,
    QslVia, QsoComplete, QsoUploadStatus, Region,
};
use crate::error::{AdifError, ErrorKind};
use crate::text::{chars_of, string_of};
use crate::vocabulary::{token_chars, Vocabulary};

verus! {

/// The enumeration domains.
#[derive(Clone, Copy, Debug, PartialEq, Eq, Structural)]
pub enum EnumerationType {
    AntPath,
    Award,
    Band,
    Continent,
    DxccEntityCode,
    MorseKeyType,
    PropagationMode,
    QslMedium,
    QslRcvd,
    QslSent,
    QslVia,
    QsoComplete,
    QsoUploadStatus,
    Region,
}

/// A value of one of the enumeration domains.
#[derive(Clone, Copy, Debug, PartialEq, Eq, Structural)]
pub enum Enumeration {
    AntPath(AntPath),
    Award(Award),
    Band(Band),
    Continent(Continent),
    DxccEntityCode(DxccEntityCode),
    MorseKeyType(MorseKeyType),
    PropagationMode(PropagationMode),
    QslMedium(QslMedium),
    QslRcvd(QslRcvd),
    QslSent(QslSent),
    QslVia(QslVia),
    QsoComplete(QsoComplete),
    QsoUploadStatus(QsoUploadStatus),
    Region(Region),
}

impl View for Enumeration {
    type V = Enumeration;

    open spec fn view(&self) -> Enumeration {
        *self
    }
}

impl Enumeration {
    pub open spec fn spec_type(self) -> EnumerationType {
        match self {
            Enumeration::AntPath(_) => EnumerationType::AntPath,
            Enumeration::Award(_) => EnumerationType::Award,
            Enumeration::Band(_) => EnumerationType::Band,
            Enumeration::Continent(_) => EnumerationType::Continent,
            Enumeration::DxccEntityCode(_) => EnumerationType::DxccEntityCode,
            Enumeration::MorseKeyType(_) => EnumerationType::MorseKeyType,
            Enumeration::PropagationMode(_) => EnumerationType::PropagationMode,
            Enumeration::QslMedium(_) => EnumerationType::QslMedium,
            Enumeration::QslRcvd(_) => EnumerationType::QslRcvd,
            Enumeration::QslSent(_) => EnumerationType::QslSent,
            Enumeration::QslVia(_) => EnumerationType::QslVia,
            Enumeration::QsoComplete(_) => EnumerationType::QsoComplete,
            Enumeration::QsoUploadStatus(_) => EnumerationType::QsoUploadStatus,
            Enumeration::Region(_) => EnumerationType::Region,
        }
    }

    pub open spec fn spec_token(self) -> Seq<char> {
        match self {
            Enumeration::AntPath(v) => v.spec_token(),
            Enumeration::Award(v) => v.spec_token(),
            Enumeration::Band(v) => v.spec_token(),
            Enumeration::Continent(v) => v.spec_token(),
            Enumeration::DxccEntityCode(v) => v.spec_token(),
            Enumeration::MorseKeyType(v) => v.spec_token(),
            Enumeration::PropagationMode(v) => v.spec_token(),
            Enumeration::QslMedium(v) => v.spec_token(),
            Enumeration::QslRcvd(v) => v.spec_token(),
            Enumeration::QslSent(v) => v.spec_token(),
            Enumeration::QslVia(v) => v.spec_token(),
            Enumeration::QsoComplete(v) => v.spec_token(),
            Enumeration::QsoUploadStatus(v) => v.spec_token(),
            Enumeration::Region(v) => v.spec_token(),
        }
    }

    /// The value of domain `t` whose token is `s`, if any.
    pub open spec fn spec_decode(t: EnumerationType, s: Seq<char>) -> Option<Enumeration> {
        match t {
            EnumerationType::AntPath => match AntPath::spec_from_token(s) {
                Some(v) => Some(Enumeration::AntPath(v)),
                None => None,
            },
            EnumerationType::Award => match Award::spec_from_token(s) {
                Some(v) => Some(Enumeration::Award(v)),
                None => None,
            },
            EnumerationType::Band => match Band::spec_from_token(s) {
                Some(v) => Some(Enumeration::Band(v)),
                None => None,
            },
            EnumerationType::Continent => match Continent::spec_from_token(s) {
                Some(v) => Some(Enumeration::Continent(v)),
                None => None,
            },
            EnumerationType::DxccEntityCode => match DxccEntityCode::spec_from_token(s) {
                Some(v) => Some(Enumeration::DxccEntityCode(v)),
                None => None,
            },
            EnumerationType::MorseKeyType => match MorseKeyType::spec_from_token(s) {
                Some(v) => Some(Enumeration::MorseKeyType(v)),
                None => None,
            },
            EnumerationType::PropagationMode => match PropagationMode::spec_from_token(s) {
                Some(v) => Some(Enumeration::PropagationMode(v)),
                None => None,
            },
            EnumerationType::QslMedium => match QslMedium::spec_from_token(s) {
                Some(v) => Some(Enumeration::QslMedium(v)),
                None => None,
            },
            EnumerationType::QslRcvd => match QslRcvd::spec_from_token(s) {
                Some(v) => Some(Enumeration::QslRcvd(v)),
                None => None,
            },
            EnumerationType::QslSent => match QslSent::spec_from_token(s) {
                Some(v) => Some(Enumeration::QslSent(v)),
                None => None,
            },
            EnumerationType::QslVia => match QslVia::spec_from_token(s) {
                Some(v) => Some(Enumeration::QslVia(v)),
                None => None,
            },
            EnumerationType::QsoComplete => match QsoComplete::spec_from_token(s) {
                Some(v) => Some(Enumeration::QsoComplete(v)),
                None => None,
            },
            EnumerationType::QsoUploadStatus => match QsoUploadStatus::spec_from_token(s) {
                Some(v) => Some(Enumeration::QsoUploadStatus(v)),
                None => None,
            },
            EnumerationType::Region => match Region::spec_from_token(s) {
                Some(v) => Some(Enumeration::Region(v)),
                None => None,
            },
        }
    }

    /// The domain of the value.
    pub fn enumeration_type(&self) -> (r: EnumerationType)
        ensures
            r == self.spec_type(),
    {
        match self {
            Enumeration::AntPath(_) => EnumerationType::AntPath,
            Enumeration::Award(_) => EnumerationType::Award,
            Enumeration::Band(_) => EnumerationType::Band,
            Enumeration::Continent(_) => EnumerationType::Continent,
            Enumeration::DxccEntityCode(_) => EnumerationType::DxccEntityCode,
            Enumeration::MorseKeyType(_) => EnumerationType::MorseKeyType,
            Enumeration::PropagationMode(_) => EnumerationType::PropagationMode,
            Enumeration::QslMedium(_) => EnumerationType::QslMedium,
            Enumeration::QslRcvd(_) => EnumerationType::QslRcvd,
            Enumeration::QslSent(_) => EnumerationType::QslSent,
            Enumeration::QslVia(_) => EnumerationType::QslVia,
            Enumeration::QsoComplete(_) => EnumerationType::QsoComplete,
            Enumeration::QsoUploadStatus(_) => EnumerationType::QsoUploadStatus,
            Enumeration::Region(_) => EnumerationType::Region,
        }
    }

    pub fn push_token(&self, out: &mut Vec<char>)
        ensures
            final(out)@ == old(out)@ + self.spec_token(),
    {
        match self {
            Enumeration::AntPath(v) => v.push_token(out),
            Enumeration::Award(v) => v.push_token(out),
            Enumeration::Band(v) => v.push_token(out),
            Enumeration::Continent(v) => v.push_token(out),
            Enumeration::DxccEntityCode(v) => v.push_token(out),
            Enumeration::MorseKeyType(v) => v.push_token(out),
            Enumeration::PropagationMode(v) => v.push_token(out),
            Enumeration::QslMedium(v) => v.push_token(out),
            Enumeration::QslRcvd(v) => v.push_token(out),
            Enumeration::QslSent(v) => v.push_token(out),
            Enumeration::QslVia(v) => v.push_token(out),
            Enumeration::QsoComplete(v) => v.push_token(out),
            Enumeration::QsoUploadStatus(v) => v.push_token(out),
            Enumeration::Region(v) => v.push_token(out),
        }
    }

    pub fn decode(t: EnumerationType, s: &[char]) -> (r: Option<Enumeration>)
        ensures
            r == Enumeration::spec_decode(t, s@),
    {
        match t {
            EnumerationType::AntPath => match AntPath::from_token(s) {
                Some(v) => Some(Enumeration::AntPath(v)),
                None => None,
            },
            EnumerationType::Award => match Award::from_token(s) {
                Some(v) => Some(Enumeration::Award(v)),
                None => None,
            },
            EnumerationType::Band => match Band::from_token(s) {
                Some(v) => Some(Enumeration::Band(v)),
                None => None,
            },
            EnumerationType::Continent => match Continent::from_token(s) {
                Some(v) => Some(Enumeration::Continent(v)),
                None => None,
            },
            EnumerationType::DxccEntityCode => match DxccEntityCode::from_token(s) {
                Some(v) => Some(Enumeration::DxccEntityCode(v)),
                None => None,
            },
            EnumerationType::MorseKeyType => match MorseKeyType::from_token(s) {
                Some(v) => Some(Enumeration::MorseKeyType(v)),
                None => None,
            },
            EnumerationType::PropagationMode => match PropagationMode::from_token(s) {
                Some(v) => Some(Enumeration::PropagationMode(v)),
                None => None,
            },
            EnumerationType::QslMedium => match QslMedium::from_token(s) {
                Some(v) => Some(Enumeration::QslMedium(v)),
                None => None,
            },
            EnumerationType::QslRcvd => match QslRcvd::from_token(s) {
                Some(v) => Some(Enumeration::QslRcvd(v)),
                None => None,
            },
            EnumerationType::QslSent => match QslSent::from_token(s) {
                Some(v) => Some(Enumeration::QslSent(v)),
                None => None,
            },
            EnumerationType::QslVia => match QslVia::from_token(s) {
                Some(v) => Some(Enumeration::QslVia(v)),
                None => None,
            },
            EnumerationType::QsoComplete => match QsoComplete::from_token(s) {
                Some(v) => Some(Enumeration::QsoComplete(v)),
                None => None,
            },
            EnumerationType::QsoUploadStatus => match QsoUploadStatus::from_token(s) {
                Some(v) => Some(Enumeration::QsoUploadStatus(v)),
                None => None,
            },
            EnumerationType::Region => match Region::from_token(s) {
                Some(v) => Some(Enumeration::Region(v)),
                None => None,
            },
        }
    }

    /// Decodes `value` as a token of domain `enum_type`.
    pub fn str_to_enum(enum_type: EnumerationType, value: &str) -> (r: Result<Enumeration, AdifError>)
        ensures
            match r {
                Ok(e) => Enumeration::spec_decode(enum_type, value@) == Some(e),
                Err(e) => Enumeration::spec_decode(enum_type, value@) is None && e.kind
                    == ErrorKind::UnknownEnumerationToken,
            },
    {
        let chars = chars_of(value);
        match Enumeration::decode(enum_type, &chars) {
            Some(e) => Ok(e),
            None => Err(AdifError::new(ErrorKind::UnknownEnumerationToken, &chars)),
        }
    }

    /// The token of the value.
    pub fn serialize(&self) -> (r: String)
        ensures
            r@ == self.spec_token(),
    {
        let mut out: Vec<char> = Vec::new();
        self.push_token(&mut out);
        assert(out@ =~= self.spec_token());
        string_of(&out)
    }

    pub proof fn lemma_round_trip(self)
        ensures
            Enumeration::spec_decode(self.spec_type(), self.spec_token()) == Some(self),
            self.spec_token().len() > 0,
            token_chars(self.spec_token()),
    {
        match self {
            Enumeration::AntPath(v) => v.lemma_token(),
            Enumeration::Award(v) => v.lemma_token(),
            Enumeration::Band(v) => v.lemma_token(),
            Enumeration::Continent(v) => v.lemma_token(),
            Enumeration::DxccEntityCode(v) => v.lemma_token(),
            Enumeration::MorseKeyType(v) => v.lemma_token(),
            Enumeration::PropagationMode(v) => v.lemma_token(),
            Enumeration::QslMedium(v) => v.lemma_token(),
            Enumeration::QslRcvd(v) => v.lemma_token(),
            Enumeration::QslSent(v) => v.lemma_token(),
            Enumeration::QslVia(v) => v.lemma_token(),
            Enumeration::QsoComplete(v) => v.lemma_token(),
            Enumeration::QsoUploadStatus(v) => v.lemma_token(),
            Enumeration::Region(v) => v.lemma_token(),
        }
    }

    pub proof fn lemma_decode(t: EnumerationType, s: Seq<char>)
        ensures
            Enumeration::spec_decode(t, s) matches Some(e) ==> e.spec_type() == t
                && e.spec_token() == s,
    {
        match t {
            EnumerationType::AntPath => AntPath::lemma_from_token(s),
            EnumerationType::Award => Award::lemma_from_token(s),
            EnumerationType::Band => Band::lemma_from_token(s),
            EnumerationType::Continent => Continent::lemma_from_token(s),
            EnumerationType::DxccEntityCode => DxccEntityCode::lemma_from_token(s),
            EnumerationType::MorseKeyType => MorseKeyType::lemma_from_token(s),
            EnumerationType::PropagationMode => PropagationMode::lemma_from_token(s),
            EnumerationType::QslMedium => QslMedium::lemma_from_token(s),
            EnumerationType::QslRcvd => QslRcvd::lemma_from_token(s),
            EnumerationType::QslSent => QslSent::lemma_from_token(s),
            EnumerationType::QslVia => QslVia::lemma_from_token(s),
            EnumerationType::QsoComplete => QsoComplete::lemma_from_token(s),
            EnumerationType::QsoUploadStatus => QsoUploadStatus::lemma_from_token(s),
            EnumerationType::Region => Region::lemma_from_token(s),
        }
    }
}

/// For every enumeration domain, decoding is exact: a value decodes from its
/// own token in its own domain, and a text decodes in domain `t` to `e`
/// exactly when `e` belongs to `t` and `s` is its token; a text that is no
/// token of the domain does not decode.
pub proof fn lemma_enumeration_round_trip(e: Enumeration, t: EnumerationType, s: Seq<char>)
    ensures
        Enumeration::spec_decode(e.spec_type(), e.spec_token()) == Some(e),
        (Enumeration::spec_decode(t, s) == Some(e)) <==> (e.spec_type() == t && e.spec_token()
            == s),
        (Enumeration::spec_decode(t, s) is None) <==> (forall|v: Enumeration|
            #[trigger] v.spec_type() == t ==> v.spec_token() != s),
{
    e.lemma_round_trip();
    Enumeration::lemma_decode(t, s);
    if Enumeration::spec_decode(t, s) is None {
        assert forall|v: Enumeration| #[trigger] v.spec_type() == t implies v.spec_token() != s by {
            v.lemma_round_trip();
        }
    }
}

} // verus!
