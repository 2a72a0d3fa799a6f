//! Fields on the wire: `<NAME>` for a terminator, `<NAME:LEN>VALUE`, or
//! `<NAME:T:LEN>VALUE` with a one-letter type indicator `T`; `LEN` is the
//! length of `VALUE`. Names are matched without regard to case and written in
//! upper case.

use vstd::prelude::*;
use crate::enumeration::EnumerationType;
use crate::error::{AdifError, ErrorKind};
use crate::text::{
    all_digits, append_str, chars_eq_str, chars_of, decimal, digits_value, is_digit, lemma_decimal,
    parse_decimal, push_decimal, string_of, sub_chars, to_upper, upper,
};
use crate::value::DataType;
use crate::vocabulary::{differ_at, token_chars};

verus! {

/// A controlled set of field names, bound each to a data type, with exactly
/// one terminator, whose type is `Null`.
pub trait FieldName: Sized + Copy {
    /// The canonical (upper-case) wire name.
    spec fn spec_name(self) -> Seq<char>;

    spec fn spec_data_type(self) -> DataType;

    /// The name whose canonical form is `s`, if any.
    spec fn spec_from_name(s: Seq<char>) -> Option<Self>;

    spec fn spec_terminator() -> Self;

    fn push_name(&self, out: &mut Vec<char>)
        ensures
            final(out)@ == old(out)@ + self.spec_name(),
    ;

    fn data_type(&self) -> (r: DataType)
        ensures
            r == self.spec_data_type(),
    ;

    fn from_name(s: &[char]) -> (r: Option<Self>)
        ensures
            r == Self::spec_from_name(s@),
    ;

    fn terminator() -> (r: Self)
        ensures
            r == Self::spec_terminator(),
    ;

    fn is_terminator(&self) -> (r: bool)
        ensures
            r == (*self == Self::spec_terminator()),
    ;

    proof fn lemma_name(self)
        ensures
            Self::spec_from_name(self.spec_name()) == Some(self),
            self.spec_name().len() > 0,
            token_chars(self.spec_name()),
    ;

    /// The terminator is the one name of type `Null`.
    proof fn lemma_terminator(self)
        ensures
            Self::spec_terminator().spec_data_type() == DataType::Null,
            self.spec_data_type() == DataType::Null ==> self == Self::spec_terminator(),
    ;
}

/// The fields of the header; `EOH` ends the header.
#[allow(non_camel_case_types)]
#[derive(Clone, Copy, Debug, PartialEq, Eq, Hash, Structural)]
pub enum HeaderFieldName {
    ADIF_VER,
    CREATED_TIMESTAMP,
    PROGRAMID,
    PROGRAMVERSION,
    APP,
    USERDEF(u32),
    EOH,
}

impl FieldName for HeaderFieldName {
    open spec fn spec_name(self) -> Seq<char> {
        match self {
            HeaderFieldName::ADIF_VER => "ADIF_VER"@,
            HeaderFieldName::CREATED_TIMESTAMP => "CREATED_TIMESTAMP"@,
            HeaderFieldName::PROGRAMID => "PROGRAMID"@,
            HeaderFieldName::PROGRAMVERSION => "PROGRAMVERSION"@,
            HeaderFieldName::APP => "APP"@,
            HeaderFieldName::USERDEF(n) => "USERDEF"@ + decimal(n as nat),
            HeaderFieldName::EOH => "EOH"@,
        }
    }

    open spec fn spec_data_type(self) -> DataType {
        match self {
            HeaderFieldName::EOH => DataType::Null,
            _ => DataType::String,
        }
    }

    closed spec fn spec_from_name(s: Seq<char>) -> Option<HeaderFieldName> {
        if s == "ADIF_VER"@ {
            Some(HeaderFieldName::ADIF_VER)
        } else if s == "CREATED_TIMESTAMP"@ {
            Some(HeaderFieldName::CREATED_TIMESTAMP)
        } else if s == "PROGRAMID"@ {
            Some(HeaderFieldName::PROGRAMID)
        } else if s == "PROGRAMVERSION"@ {
            Some(HeaderFieldName::PROGRAMVERSION)
        } else if s == "APP"@ {
            Some(HeaderFieldName::APP)
        } else if s == "EOH"@ {
            Some(HeaderFieldName::EOH)
        } else if s.len() > 7 && s.subrange(0, 7) == "USERDEF"@ && all_digits(
            s.subrange(7, s.len() as int),
        ) && digits_value(s.subrange(7, s.len() as int)) <= 4294967295 {
            Some(HeaderFieldName::USERDEF(digits_value(s.subrange(7, s.len() as int)) as u32))
        } else {
            None
        }
    }

    open spec fn spec_terminator() -> HeaderFieldName {
        HeaderFieldName::EOH
    }

    fn push_name(&self, out: &mut Vec<char>) {
        match self {
            HeaderFieldName::ADIF_VER => append_str(out, "ADIF_VER"),
            HeaderFieldName::CREATED_TIMESTAMP => append_str(out, "CREATED_TIMESTAMP"),
            HeaderFieldName::PROGRAMID => append_str(out, "PROGRAMID"),
            HeaderFieldName::PROGRAMVERSION => append_str(out, "PROGRAMVERSION"),
            HeaderFieldName::APP => append_str(out, "APP"),
            HeaderFieldName::USERDEF(n) => {
                append_str(out, "USERDEF");
                push_decimal(out, *n as u64);
                assert(final(out)@ =~= old(out)@ + self.spec_name());
            },
            HeaderFieldName::EOH => append_str(out, "EOH"),
        }
    }

    fn data_type(&self) -> (r: DataType) {
        match self {
            HeaderFieldName::EOH => DataType::Null,
            _ => DataType::String,
        }
    }

    fn from_name(s: &[char]) -> (r: Option<HeaderFieldName>) {
        if chars_eq_str(s, "ADIF_VER") {
            Some(HeaderFieldName::ADIF_VER)
        } else if chars_eq_str(s, "CREATED_TIMESTAMP") {
            Some(HeaderFieldName::CREATED_TIMESTAMP)
        } else if chars_eq_str(s, "PROGRAMID") {
            Some(HeaderFieldName::PROGRAMID)
        } else if chars_eq_str(s, "PROGRAMVERSION") {
            Some(HeaderFieldName::PROGRAMVERSION)
        } else if chars_eq_str(s, "APP") {
            Some(HeaderFieldName::APP)
        } else if chars_eq_str(s, "EOH") {
            Some(HeaderFieldName::EOH)
        } else if s.len() > 7 && chars_eq_str(sub_chars(s, 0, 7).as_slice(), "USERDEF") {
            match parse_decimal(s, 7, s.len(), 4294967295u64) {
                Some(n) => Some(HeaderFieldName::USERDEF(n as u32)),
                None => None,
            }
        } else {
            None
        }
    }

    fn terminator() -> (r: HeaderFieldName) {
        HeaderFieldName::EOH
    }

    fn is_terminator(&self) -> (r: bool) {
        match self {
            HeaderFieldName::EOH => true,
            _ => false,
        }
    }

    proof fn lemma_name(self) {
        reveal_strlit("ADIF_VER");
        reveal_strlit("CREATED_TIMESTAMP");
        reveal_strlit("PROGRAMID");
        reveal_strlit("PROGRAMVERSION");
        reveal_strlit("APP");
        reveal_strlit("EOH");
        reveal_strlit("USERDEF");
        match self {
            HeaderFieldName::ADIF_VER => {
                assert(token_chars("ADIF_VER"@));
            },
            HeaderFieldName::CREATED_TIMESTAMP => {
                assert(differ_at("CREATED_TIMESTAMP"@, "ADIF_VER"@, 0));
                assert(token_chars("CREATED_TIMESTAMP"@));
            },
            HeaderFieldName::PROGRAMID => {
                assert(differ_at("PROGRAMID"@, "ADIF_VER"@, 0));
                assert(differ_at("PROGRAMID"@, "CREATED_TIMESTAMP"@, 0));
                assert(token_chars("PROGRAMID"@));
            },
            HeaderFieldName::PROGRAMVERSION => {
                assert(differ_at("PROGRAMVERSION"@, "ADIF_VER"@, 0));
                assert(differ_at("PROGRAMVERSION"@, "CREATED_TIMESTAMP"@, 0));
                assert(differ_at("PROGRAMVERSION"@, "PROGRAMID"@, 0));
                assert(token_chars("PROGRAMVERSION"@));
            },
            HeaderFieldName::APP => {
                assert(differ_at("APP"@, "ADIF_VER"@, 0));
                assert(differ_at("APP"@, "CREATED_TIMESTAMP"@, 0));
                assert(differ_at("APP"@, "PROGRAMID"@, 0));
                assert(differ_at("APP"@, "PROGRAMVERSION"@, 0));
                assert(token_chars("APP"@));
            },
            HeaderFieldName::EOH => {
                assert(differ_at("EOH"@, "ADIF_VER"@, 0));
                assert(differ_at("EOH"@, "CREATED_TIMESTAMP"@, 0));
                assert(differ_at("EOH"@, "PROGRAMID"@, 0));
                assert(differ_at("EOH"@, "PROGRAMVERSION"@, 0));
                assert(differ_at("EOH"@, "APP"@, 0));
                assert(token_chars("EOH"@));
            },
            HeaderFieldName::USERDEF(n) => {
                let s = "USERDEF"@ + decimal(n as nat);
                lemma_decimal(n as nat);
                assert(s[0] == 'U');
                assert(s != "ADIF_VER"@ && s != "CREATED_TIMESTAMP"@ && s != "PROGRAMID"@);
                assert(s != "PROGRAMVERSION"@ && s != "APP"@ && s != "EOH"@);
                assert(s.subrange(0, 7) =~= "USERDEF"@);
                assert(s.subrange(7, s.len() as int) =~= decimal(n as nat));
                assert(token_chars(s)) by {
                    assert forall|i: int| 0 <= i < s.len() implies crate::vocabulary::token_char(
                        #[trigger] s[i],
                    ) by {
                        if i >= 7 {
                            assert(s[i] == decimal(n as nat)[i - 7]);
                            assert(is_digit(decimal(n as nat)[i - 7]));
                        }
                    }
                }
            },
        }
    }

    proof fn lemma_terminator(self) {
    }
}

/// The canonical wire name of `n`.
pub fn name_string<N: FieldName>(n: &N) -> (r: String)
    ensures
        r@ == n.spec_name(),
{
    let mut out: Vec<char> = Vec::new();
    n.push_name(&mut out);
    assert(out@ =~= n.spec_name());
    string_of(&out)
}

/// The name written `value`, in any case; `UnknownFieldName` if there is none.
pub fn parse_name<N: FieldName>(value: &str) -> (r: Result<N, AdifError>)
    ensures
        match r {
            Ok(n) => N::spec_from_name(upper(value@)) == Some(n),
            Err(e) => N::spec_from_name(upper(value@)) is None && e.kind
                == ErrorKind::UnknownFieldName,
        },
{
    let chars = chars_of(value);
    let key = to_upper(chars.as_slice());
    match N::from_name(key.as_slice()) {
        Some(n) => Ok(n),
        None => Err(AdifError::new(ErrorKind::UnknownFieldName, chars.as_slice())),
    }
}

impl HeaderFieldName {
    pub fn serialize(&self) -> (r: String)
        ensures
            r@ == self.spec_name(),
    {
        name_string(self)
    }

    pub fn deserialize(value: &str) -> (r: Result<HeaderFieldName, AdifError>)
        ensures
            match r {
                Ok(n) => HeaderFieldName::spec_from_name(upper(value@)) == Some(n),
                Err(e) => HeaderFieldName::spec_from_name(upper(value@)) is None && e.kind
                    == ErrorKind::UnknownFieldName,
            },
    {
        parse_name(value)
    }
}

impl QSOFieldName {
    pub fn serialize(&self) -> (r: String)
        ensures
            r@ == self.spec_name(),
    {
        name_string(self)
    }

    pub fn deserialize(value: &str) -> (r: Result<QSOFieldName, AdifError>)
        ensures
            match r {
                Ok(n) => QSOFieldName::spec_from_name(upper(value@)) == Some(n),
                Err(e) => QSOFieldName::spec_from_name(upper(value@)) is None && e.kind
                    == ErrorKind::UnknownFieldName,
            },
    {
        parse_name(value)
    }
}

/// The fields of a contact record; `EOR` ends a record.
#[allow(non_camel_case_types)]
#[derive(Clone, Copy, Debug, PartialEq, Eq, Hash, Structural)]
pub enum QSOFieldName {
    ADDRESS,
    ADDRESS_INTL,
    AGE,
    ANT_AZ,
    ANT_EL,
    ANT_PATH,
    A_INDEX,
    AWARD_GRANTED,
    AWARD_SUBMITTED,
    BAND,
    BAND_RX,
    CALL,
    CHECK,
    CLASS,
    CLUBLOG_QSO_UPLOAD_DATE,
    CLUBLOG_QSO_UPLOAD_STATUS,
    CNTY,
    COMMENT,
    COMMENT_INTL,
    CONT,
    CONTACTED_OP,
    CONTEST_ID,
    COUNTRY,
    CQZ,
    DXCC,
    EMAIL,
    EQSL_QSL_RCVD,
    EQSL_QSL_SENT,
    FORCE_INIT,
    FREQ,
    FREQ_RX,
    GRIDSQUARE,
    GRIDSQUARE_EXT,
    IOTA,
    ITUZ,
    K_INDEX,
    LAT,
    LON,
    LOTW_QSL_RCVD,
    LOTW_QSL_SENT,
    MODE,
    MORSE_KEY_TYPE,
    MY_DXCC,
    MY_GRIDSQUARE,
    MY_LAT,
    MY_LON,
    MY_POTA_REF,
    MY_SOTA_REF,
    MY_WWFF_REF,
    NAME,
    NAME_INTL,
    NOTES,
    POTA_REF,
    PROP_MODE,
    QSLMSG,
    QSL_RCVD,
    QSL_RCVD_VIA,
    QSL_SENT,
    QSL_SENT_VIA,
    QSL_VIA,
    QSO_COMPLETE,
    QSO_DATE,
    QSO_DATE_OFF,
    QSO_RANDOM,
    QTH,
    QTH_INTL,
    REGION,
    RST_RCVD,
    RST_SENT,
    RX_PWR,
    SOTA_REF,
    SRX,
    STX,
    SUBMODE,
    SWL,
    TIME_OFF,
    TIME_ON,
    TX_PWR,
    USACA_COUNTIES,
    VUCC_GRIDS,
    WWFF_REF,
    EOR,
}

impl FieldName for QSOFieldName {
    open spec fn spec_name(self) -> Seq<char> {
        match self {
            QSOFieldName::ADDRESS => "ADDRESS"@,
            QSOFieldName::ADDRESS_INTL => "ADDRESS_INTL"@,
            QSOFieldName::AGE => "AGE"@,
            QSOFieldName::ANT_AZ => "ANT_AZ"@,
            QSOFieldName::ANT_EL => "ANT_EL"@,
            QSOFieldName::ANT_PATH => "ANT_PATH"@,
            QSOFieldName::A_INDEX => "A_INDEX"@,
            QSOFieldName::AWARD_GRANTED => "AWARD_GRANTED"@,
            QSOFieldName::AWARD_SUBMITTED => "AWARD_SUBMITTED"@,
            QSOFieldName::BAND => "BAND"@,
            QSOFieldName::BAND_RX => "BAND_RX"@,
            QSOFieldName::CALL => "CALL"@,
            QSOFieldName::CHECK => "CHECK"@,
            QSOFieldName::CLASS => "CLASS"@,
            QSOFieldName::CLUBLOG_QSO_UPLOAD_DATE => "CLUBLOG_QSO_UPLOAD_DATE"@,
            QSOFieldName::CLUBLOG_QSO_UPLOAD_STATUS => "CLUBLOG_QSO_UPLOAD_STATUS"@,
            QSOFieldName::CNTY => "CNTY"@,
            QSOFieldName::COMMENT => "COMMENT"@,
            QSOFieldName::COMMENT_INTL => "COMMENT_INTL"@,
            QSOFieldName::CONT => "CONT"@,
            QSOFieldName::CONTACTED_OP => "CONTACTED_OP"@,
            QSOFieldName::CONTEST_ID => "CONTEST_ID"@,
            QSOFieldName::COUNTRY => "COUNTRY"@,
            QSOFieldName::CQZ => "CQZ"@,
            QSOFieldName::DXCC => "DXCC"@,
            QSOFieldName::EMAIL => "EMAIL"@,
            QSOFieldName::EQSL_QSL_RCVD => "EQSL_QSL_RCVD"@,
            QSOFieldName::EQSL_QSL_SENT => "EQSL_QSL_SENT"@,
            QSOFieldName::FORCE_INIT => "FORCE_INIT"@,
            QSOFieldName::FREQ => "FREQ"@,
            QSOFieldName::FREQ_RX => "FREQ_RX"@,
            QSOFieldName::GRIDSQUARE => "GRIDSQUARE"@,
            QSOFieldName::GRIDSQUARE_EXT => "GRIDSQUARE_EXT"@,
            QSOFieldName::IOTA => "IOTA"@,
            QSOFieldName::ITUZ => "ITUZ"@,
            QSOFieldName::K_INDEX => "K_INDEX"@,
            QSOFieldName::LAT => "LAT"@,
            QSOFieldName::LON => "LON"@,
            QSOFieldName::LOTW_QSL_RCVD => "LOTW_QSL_RCVD"@,
            QSOFieldName::LOTW_QSL_SENT => "LOTW_QSL_SENT"@,
            QSOFieldName::MODE => "MODE"@,
            QSOFieldName::MORSE_KEY_TYPE => "MORSE_KEY_TYPE"@,
            QSOFieldName::MY_DXCC => "MY_DXCC"@,
            QSOFieldName::MY_GRIDSQUARE => "MY_GRIDSQUARE"@,
            QSOFieldName::MY_LAT => "MY_LAT"@,
            QSOFieldName::MY_LON => "MY_LON"@,
            QSOFieldName::MY_POTA_REF => "MY_POTA_REF"@,
            QSOFieldName::MY_SOTA_REF => "MY_SOTA_REF"@,
            QSOFieldName::MY_WWFF_REF => "MY_WWFF_REF"@,
            QSOFieldName::NAME => "NAME"@,
            QSOFieldName::NAME_INTL => "NAME_INTL"@,
            QSOFieldName::NOTES => "NOTES"@,
            QSOFieldName::POTA_REF => "POTA_REF"@,
            QSOFieldName::PROP_MODE => "PROP_MODE"@,
            QSOFieldName::QSLMSG => "QSLMSG"@,
            QSOFieldName::QSL_RCVD => "QSL_RCVD"@,
            QSOFieldName::QSL_RCVD_VIA => "QSL_RCVD_VIA"@,
            QSOFieldName::QSL_SENT => "QSL_SENT"@,
            QSOFieldName::QSL_SENT_VIA => "QSL_SENT_VIA"@,
            QSOFieldName::QSL_VIA => "QSL_VIA"@,
            QSOFieldName::QSO_COMPLETE => "QSO_COMPLETE"@,
            QSOFieldName::QSO_DATE => "QSO_DATE"@,
            QSOFieldName::QSO_DATE_OFF => "QSO_DATE_OFF"@,
            QSOFieldName::QSO_RANDOM => "QSO_RANDOM"@,
            QSOFieldName::QTH => "QTH"@,
            QSOFieldName::QTH_INTL => "QTH_INTL"@,
            QSOFieldName::REGION => "REGION"@,
            QSOFieldName::RST_RCVD => "RST_RCVD"@,
            QSOFieldName::RST_SENT => "RST_SENT"@,
            QSOFieldName::RX_PWR => "RX_PWR"@,
            QSOFieldName::SOTA_REF => "SOTA_REF"@,
            QSOFieldName::SRX => "SRX"@,
            QSOFieldName::STX => "STX"@,
            QSOFieldName::SUBMODE => "SUBMODE"@,
            QSOFieldName::SWL => "SWL"@,
            QSOFieldName::TIME_OFF => "TIME_OFF"@,
            QSOFieldName::TIME_ON => "TIME_ON"@,
            QSOFieldName::TX_PWR => "TX_PWR"@,
            QSOFieldName::USACA_COUNTIES => "USACA_COUNTIES"@,
            QSOFieldName::VUCC_GRIDS => "VUCC_GRIDS"@,
            QSOFieldName::WWFF_REF => "WWFF_REF"@,
            QSOFieldName::EOR => "EOR"@,
        }
    }

    open spec fn spec_data_type(self) -> DataType {
        match self {
            QSOFieldName::ADDRESS => DataType::MultilineString,
            QSOFieldName::ADDRESS_INTL => DataType::IntlMultilineString,
            QSOFieldName::AGE => DataType::Number,
            QSOFieldName::ANT_AZ => DataType::Number,
            QSOFieldName::ANT_EL => DataType::Number,
            QSOFieldName::ANT_PATH => DataType::Enumeration(EnumerationType::AntPath),
            QSOFieldName::A_INDEX => DataType::Number,
            QSOFieldName::AWARD_GRANTED => DataType::SponsoredAwardList,
            QSOFieldName::AWARD_SUBMITTED => DataType::SponsoredAwardList,
            QSOFieldName::BAND => DataType::Enumeration(EnumerationType::Band),
            QSOFieldName::BAND_RX => DataType::Enumeration(EnumerationType::Band),
            QSOFieldName::CALL => DataType::String,
            QSOFieldName::CHECK => DataType::String,
            QSOFieldName::CLASS => DataType::String,
            QSOFieldName::CLUBLOG_QSO_UPLOAD_DATE => DataType::Date,
            QSOFieldName::CLUBLOG_QSO_UPLOAD_STATUS => DataType::Enumeration(EnumerationType::QsoUploadStatus),
            QSOFieldName::CNTY => DataType::String,
            QSOFieldName::COMMENT => DataType::String,
            QSOFieldName::COMMENT_INTL => DataType::IntlString,
            QSOFieldName::CONT => DataType::Enumeration(EnumerationType::Continent),
            QSOFieldName::CONTACTED_OP => DataType::String,
            QSOFieldName::CONTEST_ID => DataType::String,
            QSOFieldName::COUNTRY => DataType::String,
            QSOFieldName::CQZ => DataType::PositiveInteger,
            QSOFieldName::DXCC => DataType::Enumeration(EnumerationType::DxccEntityCode),
            QSOFieldName::EMAIL => DataType::String,
            QSOFieldName::EQSL_QSL_RCVD => DataType::Enumeration(EnumerationType::QslRcvd),
            QSOFieldName::EQSL_QSL_SENT => DataType::Enumeration(EnumerationType::QslSent),
            QSOFieldName::FORCE_INIT => DataType::Boolean,
            QSOFieldName::FREQ => DataType::Number,
            QSOFieldName::FREQ_RX => DataType::Number,
            QSOFieldName::GRIDSQUARE => DataType::GridSquare,
            QSOFieldName::GRIDSQUARE_EXT => DataType::GridSquareExt,
            QSOFieldName::IOTA => DataType::IotaRefNo,
            QSOFieldName::ITUZ => DataType::PositiveInteger,
            QSOFieldName::K_INDEX => DataType::Integer,
            QSOFieldName::LAT => DataType::Location,
            QSOFieldName::LON => DataType::Location,
            QSOFieldName::LOTW_QSL_RCVD => DataType::Enumeration(EnumerationType::QslRcvd),
            QSOFieldName::LOTW_QSL_SENT => DataType::Enumeration(EnumerationType::QslSent),
            QSOFieldName::MODE => DataType::String,
            QSOFieldName::MORSE_KEY_TYPE => DataType::Enumeration(EnumerationType::MorseKeyType),
            QSOFieldName::MY_DXCC => DataType::Enumeration(EnumerationType::DxccEntityCode),
            QSOFieldName::MY_GRIDSQUARE => DataType::GridSquare,
            QSOFieldName::MY_LAT => DataType::Location,
            QSOFieldName::MY_LON => DataType::Location,
            QSOFieldName::MY_POTA_REF => DataType::PotaRefList,
            QSOFieldName::MY_SOTA_REF => DataType::SotaRef,
            QSOFieldName::MY_WWFF_REF => DataType::WwffRef,
            QSOFieldName::NAME => DataType::String,
            QSOFieldName::NAME_INTL => DataType::IntlString,
            QSOFieldName::NOTES => DataType::MultilineString,
            QSOFieldName::POTA_REF => DataType::PotaRefList,
            QSOFieldName::PROP_MODE => DataType::Enumeration(EnumerationType::PropagationMode),
            QSOFieldName::QSLMSG => DataType::MultilineString,
            QSOFieldName::QSL_RCVD => DataType::Enumeration(EnumerationType::QslRcvd),
            QSOFieldName::QSL_RCVD_VIA => DataType::Enumeration(EnumerationType::QslVia),
            QSOFieldName::QSL_SENT => DataType::Enumeration(EnumerationType::QslSent),
            QSOFieldName::QSL_SENT_VIA => DataType::Enumeration(EnumerationType::QslVia),
            QSOFieldName::QSL_VIA => DataType::String,
            QSOFieldName::QSO_COMPLETE => DataType::Enumeration(EnumerationType::QsoComplete),
            QSOFieldName::QSO_DATE => DataType::Date,
            QSOFieldName::QSO_DATE_OFF => DataType::Date,
            QSOFieldName::QSO_RANDOM => DataType::Boolean,
            QSOFieldName::QTH => DataType::String,
            QSOFieldName::QTH_INTL => DataType::IntlString,
            QSOFieldName::REGION => DataType::Enumeration(EnumerationType::Region),
            QSOFieldName::RST_RCVD => DataType::String,
            QSOFieldName::RST_SENT => DataType::String,
            QSOFieldName::RX_PWR => DataType::Number,
            QSOFieldName::SOTA_REF => DataType::SotaRef,
            QSOFieldName::SRX => DataType::Integer,
            QSOFieldName::STX => DataType::Integer,
            QSOFieldName::SUBMODE => DataType::String,
            QSOFieldName::SWL => DataType::Boolean,
            QSOFieldName::TIME_OFF => DataType::Time,
            QSOFieldName::TIME_ON => DataType::Time,
            QSOFieldName::TX_PWR => DataType::Number,
            QSOFieldName::USACA_COUNTIES => DataType::SecondarySubdivisionList,
            QSOFieldName::VUCC_GRIDS => DataType::GridSquareList,
            QSOFieldName::WWFF_REF => DataType::WwffRef,
            QSOFieldName::EOR => DataType::Null,
        }
    }

    closed spec fn spec_from_name(s: Seq<char>) -> Option<QSOFieldName> {
        if s == "ADDRESS"@ {
            Some(QSOFieldName::ADDRESS)
        } else if s == "ADDRESS_INTL"@ {
            Some(QSOFieldName::ADDRESS_INTL)
        } else if s == "AGE"@ {
            Some(QSOFieldName::AGE)
        } else if s == "ANT_AZ"@ {
            Some(QSOFieldName::ANT_AZ)
        } else if s == "ANT_EL"@ {
            Some(QSOFieldName::ANT_EL)
        } else if s == "ANT_PATH"@ {
            Some(QSOFieldName::ANT_PATH)
        } else if s == "A_INDEX"@ {
            Some(QSOFieldName::A_INDEX)
        } else if s == "AWARD_GRANTED"@ {
            Some(QSOFieldName::AWARD_GRANTED)
        } else if s == "AWARD_SUBMITTED"@ {
            Some(QSOFieldName::AWARD_SUBMITTED)
        } else if s == "BAND"@ {
            Some(QSOFieldName::BAND)
        } else if s == "BAND_RX"@ {
            Some(QSOFieldName::BAND_RX)
        } else if s == "CALL"@ {
            Some(QSOFieldName::CALL)
        } else if s == "CHECK"@ {
            Some(QSOFieldName::CHECK)
        } else if s == "CLASS"@ {
            Some(QSOFieldName::CLASS)
        } else if s == "CLUBLOG_QSO_UPLOAD_DATE"@ {
            Some(QSOFieldName::CLUBLOG_QSO_UPLOAD_DATE)
        } else if s == "CLUBLOG_QSO_UPLOAD_STATUS"@ {
            Some(QSOFieldName::CLUBLOG_QSO_UPLOAD_STATUS)
        } else if s == "CNTY"@ {
            Some(QSOFieldName::CNTY)
        } else if s == "COMMENT"@ {
            Some(QSOFieldName::COMMENT)
        } else if s == "COMMENT_INTL"@ {
            Some(QSOFieldName::COMMENT_INTL)
        } else if s == "CONT"@ {
            Some(QSOFieldName::CONT)
        } else if s == "CONTACTED_OP"@ {
            Some(QSOFieldName::CONTACTED_OP)
        } else if s == "CONTEST_ID"@ {
            Some(QSOFieldName::CONTEST_ID)
        } else if s == "COUNTRY"@ {
            Some(QSOFieldName::COUNTRY)
        } else if s == "CQZ"@ {
            Some(QSOFieldName::CQZ)
        } else if s == "DXCC"@ {
            Some(QSOFieldName::DXCC)
        } else if s == "EMAIL"@ {
            Some(QSOFieldName::EMAIL)
        } else if s == "EQSL_QSL_RCVD"@ {
            Some(QSOFieldName::EQSL_QSL_RCVD)
        } else if s == "EQSL_QSL_SENT"@ {
            Some(QSOFieldName::EQSL_QSL_SENT)
        } else if s == "FORCE_INIT"@ {
            Some(QSOFieldName::FORCE_INIT)
        } else if s == "FREQ"@ {
            Some(QSOFieldName::FREQ)
        } else if s == "FREQ_RX"@ {
            Some(QSOFieldName::FREQ_RX)
        } else if s == "GRIDSQUARE"@ {
            Some(QSOFieldName::GRIDSQUARE)
        } else if s == "GRIDSQUARE_EXT"@ {
            Some(QSOFieldName::GRIDSQUARE_EXT)
        } else if s == "IOTA"@ {
            Some(QSOFieldName::IOTA)
        } else if s == "ITUZ"@ {
            Some(QSOFieldName::ITUZ)
        } else if s == "K_INDEX"@ {
            Some(QSOFieldName::K_INDEX)
        } else if s == "LAT"@ {
            Some(QSOFieldName::LAT)
        } else if s == "LON"@ {
            Some(QSOFieldName::LON)
        } else if s == "LOTW_QSL_RCVD"@ {
            Some(QSOFieldName::LOTW_QSL_RCVD)
        } else if s == "LOTW_QSL_SENT"@ {
            Some(QSOFieldName::LOTW_QSL_SENT)
        } else if s == "MODE"@ {
            Some(QSOFieldName::MODE)
        } else if s == "MORSE_KEY_TYPE"@ {
            Some(QSOFieldName::MORSE_KEY_TYPE)
        } else if s == "MY_DXCC"@ {
            Some(QSOFieldName::MY_DXCC)
        } else if s == "MY_GRIDSQUARE"@ {
            Some(QSOFieldName::MY_GRIDSQUARE)
        } else if s == "MY_LAT"@ {
            Some(QSOFieldName::MY_LAT)
        } else if s == "MY_LON"@ {
            Some(QSOFieldName::MY_LON)
        } else if s == "MY_POTA_REF"@ {
            Some(QSOFieldName::MY_POTA_REF)
        } else if s == "MY_SOTA_REF"@ {
            Some(QSOFieldName::MY_SOTA_REF)
        } else if s == "MY_WWFF_REF"@ {
            Some(QSOFieldName::MY_WWFF_REF)
        } else if s == "NAME"@ {
            Some(QSOFieldName::NAME)
        } else if s == "NAME_INTL"@ {
            Some(QSOFieldName::NAME_INTL)
        } else if s == "NOTES"@ {
            Some(QSOFieldName::NOTES)
        } else if s == "POTA_REF"@ {
            Some(QSOFieldName::POTA_REF)
        } else if s == "PROP_MODE"@ {
            Some(QSOFieldName::PROP_MODE)
        } else if s == "QSLMSG"@ {
            Some(QSOFieldName::QSLMSG)
        } else if s == "QSL_RCVD"@ {
            Some(QSOFieldName::QSL_RCVD)
        } else if s == "QSL_RCVD_VIA"@ {
            Some(QSOFieldName::QSL_RCVD_VIA)
        } else if s == "QSL_SENT"@ {
            Some(QSOFieldName::QSL_SENT)
        } else if s == "QSL_SENT_VIA"@ {
            Some(QSOFieldName::QSL_SENT_VIA)
        } else if s == "QSL_VIA"@ {
            Some(QSOFieldName::QSL_VIA)
        } else if s == "QSO_COMPLETE"@ {
            Some(QSOFieldName::QSO_COMPLETE)
        } else if s == "QSO_DATE"@ {
            Some(QSOFieldName::QSO_DATE)
        } else if s == "QSO_DATE_OFF"@ {
            Some(QSOFieldName::QSO_DATE_OFF)
        } else if s == "QSO_RANDOM"@ {
            Some(QSOFieldName::QSO_RANDOM)
        } else if s == "QTH"@ {
            Some(QSOFieldName::QTH)
        } else if s == "QTH_INTL"@ {
            Some(QSOFieldName::QTH_INTL)
        } else if s == "REGION"@ {
            Some(QSOFieldName::REGION)
        } else if s == "RST_RCVD"@ {
            Some(QSOFieldName::RST_RCVD)
        } else if s == "RST_SENT"@ {
            Some(QSOFieldName::RST_SENT)
        } else if s == "RX_PWR"@ {
            Some(QSOFieldName::RX_PWR)
        } else if s == "SOTA_REF"@ {
            Some(QSOFieldName::SOTA_REF)
        } else if s == "SRX"@ {
            Some(QSOFieldName::SRX)
        } else if s == "STX"@ {
            Some(QSOFieldName::STX)
        } else if s == "SUBMODE"@ {
            Some(QSOFieldName::SUBMODE)
        } else if s == "SWL"@ {
            Some(QSOFieldName::SWL)
        } else if s == "TIME_OFF"@ {
            Some(QSOFieldName::TIME_OFF)
        } else if s == "TIME_ON"@ {
            Some(QSOFieldName::TIME_ON)
        } else if s == "TX_PWR"@ {
            Some(QSOFieldName::TX_PWR)
        } else if s == "USACA_COUNTIES"@ {
            Some(QSOFieldName::USACA_COUNTIES)
        } else if s == "VUCC_GRIDS"@ {
            Some(QSOFieldName::VUCC_GRIDS)
        } else if s == "WWFF_REF"@ {
            Some(QSOFieldName::WWFF_REF)
        } else if s == "EOR"@ {
            Some(QSOFieldName::EOR)
        } else {
            None
        }
    }

    open spec fn spec_terminator() -> QSOFieldName {
        QSOFieldName::EOR
    }

    fn push_name(&self, out: &mut Vec<char>) {
        match self {
            QSOFieldName::ADDRESS => append_str(out, "ADDRESS"),
            QSOFieldName::ADDRESS_INTL => append_str(out, "ADDRESS_INTL"),
            QSOFieldName::AGE => append_str(out, "AGE"),
            QSOFieldName::ANT_AZ => append_str(out, "ANT_AZ"),
            QSOFieldName::ANT_EL => append_str(out, "ANT_EL"),
            QSOFieldName::ANT_PATH => append_str(out, "ANT_PATH"),
            QSOFieldName::A_INDEX => append_str(out, "A_INDEX"),
            QSOFieldName::AWARD_GRANTED => append_str(out, "AWARD_GRANTED"),
            QSOFieldName::AWARD_SUBMITTED => append_str(out, "AWARD_SUBMITTED"),
            QSOFieldName::BAND => append_str(out, "BAND"),
            QSOFieldName::BAND_RX => append_str(out, "BAND_RX"),
            QSOFieldName::CALL => append_str(out, "CALL"),
            QSOFieldName::CHECK => append_str(out, "CHECK"),
            QSOFieldName::CLASS => append_str(out, "CLASS"),
            QSOFieldName::CLUBLOG_QSO_UPLOAD_DATE => append_str(out, "CLUBLOG_QSO_UPLOAD_DATE"),
            QSOFieldName::CLUBLOG_QSO_UPLOAD_STATUS => append_str(out, "CLUBLOG_QSO_UPLOAD_STATUS"),
            QSOFieldName::CNTY => append_str(out, "CNTY"),
            QSOFieldName::COMMENT => append_str(out, "COMMENT"),
            QSOFieldName::COMMENT_INTL => append_str(out, "COMMENT_INTL"),
            QSOFieldName::CONT => append_str(out, "CONT"),
            QSOFieldName::CONTACTED_OP => append_str(out, "CONTACTED_OP"),
            QSOFieldName::CONTEST_ID => append_str(out, "CONTEST_ID"),
            QSOFieldName::COUNTRY => append_str(out, "COUNTRY"),
            QSOFieldName::CQZ => append_str(out, "CQZ"),
            QSOFieldName::DXCC => append_str(out, "DXCC"),
            QSOFieldName::EMAIL => append_str(out, "EMAIL"),
            QSOFieldName::EQSL_QSL_RCVD => append_str(out, "EQSL_QSL_RCVD"),
            QSOFieldName::EQSL_QSL_SENT => append_str(out, "EQSL_QSL_SENT"),
            QSOFieldName::FORCE_INIT => append_str(out, "FORCE_INIT"),
            QSOFieldName::FREQ => append_str(out, "FREQ"),
            QSOFieldName::FREQ_RX => append_str(out, "FREQ_RX"),
            QSOFieldName::GRIDSQUARE => append_str(out, "GRIDSQUARE"),
            QSOFieldName::GRIDSQUARE_EXT => append_str(out, "GRIDSQUARE_EXT"),
            QSOFieldName::IOTA => append_str(out, "IOTA"),
            QSOFieldName::ITUZ => append_str(out, "ITUZ"),
            QSOFieldName::K_INDEX => append_str(out, "K_INDEX"),
            QSOFieldName::LAT => append_str(out, "LAT"),
            QSOFieldName::LON => append_str(out, "LON"),
            QSOFieldName::LOTW_QSL_RCVD => append_str(out, "LOTW_QSL_RCVD"),
            QSOFieldName::LOTW_QSL_SENT => append_str(out, "LOTW_QSL_SENT"),
            QSOFieldName::MODE => append_str(out, "MODE"),
            QSOFieldName::MORSE_KEY_TYPE => append_str(out, "MORSE_KEY_TYPE"),
            QSOFieldName::MY_DXCC => append_str(out, "MY_DXCC"),
            QSOFieldName::MY_GRIDSQUARE => append_str(out, "MY_GRIDSQUARE"),
            QSOFieldName::MY_LAT => append_str(out, "MY_LAT"),
            QSOFieldName::MY_LON => append_str(out, "MY_LON"),
            QSOFieldName::MY_POTA_REF => append_str(out, "MY_POTA_REF"),
            QSOFieldName::MY_SOTA_REF => append_str(out, "MY_SOTA_REF"),
            QSOFieldName::MY_WWFF_REF => append_str(out, "MY_WWFF_REF"),
            QSOFieldName::NAME => append_str(out, "NAME"),
            QSOFieldName::NAME_INTL => append_str(out, "NAME_INTL"),
            QSOFieldName::NOTES => append_str(out, "NOTES"),
            QSOFieldName::POTA_REF => append_str(out, "POTA_REF"),
            QSOFieldName::PROP_MODE => append_str(out, "PROP_MODE"),
            QSOFieldName::QSLMSG => append_str(out, "QSLMSG"),
            QSOFieldName::QSL_RCVD => append_str(out, "QSL_RCVD"),
            QSOFieldName::QSL_RCVD_VIA => append_str(out, "QSL_RCVD_VIA"),
            QSOFieldName::QSL_SENT => append_str(out, "QSL_SENT"),
            QSOFieldName::QSL_SENT_VIA => append_str(out, "QSL_SENT_VIA"),
            QSOFieldName::QSL_VIA => append_str(out, "QSL_VIA"),
            QSOFieldName::QSO_COMPLETE => append_str(out, "QSO_COMPLETE"),
            QSOFieldName::QSO_DATE => append_str(out, "QSO_DATE"),
            QSOFieldName::QSO_DATE_OFF => append_str(out, "QSO_DATE_OFF"),
            QSOFieldName::QSO_RANDOM => append_str(out, "QSO_RANDOM"),
            QSOFieldName::QTH => append_str(out, "QTH"),
            QSOFieldName::QTH_INTL => append_str(out, "QTH_INTL"),
            QSOFieldName::REGION => append_str(out, "REGION"),
            QSOFieldName::RST_RCVD => append_str(out, "RST_RCVD"),
            QSOFieldName::RST_SENT => append_str(out, "RST_SENT"),
            QSOFieldName::RX_PWR => append_str(out, "RX_PWR"),
            QSOFieldName::SOTA_REF => append_str(out, "SOTA_REF"),
            QSOFieldName::SRX => append_str(out, "SRX"),
            QSOFieldName::STX => append_str(out, "STX"),
            QSOFieldName::SUBMODE => append_str(out, "SUBMODE"),
            QSOFieldName::SWL => append_str(out, "SWL"),
            QSOFieldName::TIME_OFF => append_str(out, "TIME_OFF"),
            QSOFieldName::TIME_ON => append_str(out, "TIME_ON"),
            QSOFieldName::TX_PWR => append_str(out, "TX_PWR"),
            QSOFieldName::USACA_COUNTIES => append_str(out, "USACA_COUNTIES"),
            QSOFieldName::VUCC_GRIDS => append_str(out, "VUCC_GRIDS"),
            QSOFieldName::WWFF_REF => append_str(out, "WWFF_REF"),
            QSOFieldName::EOR => append_str(out, "EOR"),
        }
    }

    fn data_type(&self) -> (r: DataType) {
        match self {
            QSOFieldName::ADDRESS => DataType::MultilineString,
            QSOFieldName::ADDRESS_INTL => DataType::IntlMultilineString,
            QSOFieldName::AGE => DataType::Number,
            QSOFieldName::ANT_AZ => DataType::Number,
            QSOFieldName::ANT_EL => DataType::Number,
            QSOFieldName::ANT_PATH => DataType::Enumeration(EnumerationType::AntPath),
            QSOFieldName::A_INDEX => DataType::Number,
            QSOFieldName::AWARD_GRANTED => DataType::SponsoredAwardList,
            QSOFieldName::AWARD_SUBMITTED => DataType::SponsoredAwardList,
            QSOFieldName::BAND => DataType::Enumeration(EnumerationType::Band),
            QSOFieldName::BAND_RX => DataType::Enumeration(EnumerationType::Band),
            QSOFieldName::CALL => DataType::String,
            QSOFieldName::CHECK => DataType::String,
            QSOFieldName::CLASS => DataType::String,
            QSOFieldName::CLUBLOG_QSO_UPLOAD_DATE => DataType::Date,
            QSOFieldName::CLUBLOG_QSO_UPLOAD_STATUS => DataType::Enumeration(EnumerationType::QsoUploadStatus),
            QSOFieldName::CNTY => DataType::String,
            QSOFieldName::COMMENT => DataType::String,
            QSOFieldName::COMMENT_INTL => DataType::IntlString,
            QSOFieldName::CONT => DataType::Enumeration(EnumerationType::Continent),
            QSOFieldName::CONTACTED_OP => DataType::String,
            QSOFieldName::CONTEST_ID => DataType::String,
            QSOFieldName::COUNTRY => DataType::String,
            QSOFieldName::CQZ => DataType::PositiveInteger,
            QSOFieldName::DXCC => DataType::Enumeration(EnumerationType::DxccEntityCode),
            QSOFieldName::EMAIL => DataType::String,
            QSOFieldName::EQSL_QSL_RCVD => DataType::Enumeration(EnumerationType::QslRcvd),
            QSOFieldName::EQSL_QSL_SENT => DataType::Enumeration(EnumerationType::QslSent),
            QSOFieldName::FORCE_INIT => DataType::Boolean,
            QSOFieldName::FREQ => DataType::Number,
            QSOFieldName::FREQ_RX => DataType::Number,
            QSOFieldName::GRIDSQUARE => DataType::GridSquare,
            QSOFieldName::GRIDSQUARE_EXT => DataType::GridSquareExt,
            QSOFieldName::IOTA => DataType::IotaRefNo,
            QSOFieldName::ITUZ => DataType::PositiveInteger,
            QSOFieldName::K_INDEX => DataType::Integer,
            QSOFieldName::LAT => DataType::Location,
            QSOFieldName::LON => DataType::Location,
            QSOFieldName::LOTW_QSL_RCVD => DataType::Enumeration(EnumerationType::QslRcvd),
            QSOFieldName::LOTW_QSL_SENT => DataType::Enumeration(EnumerationType::QslSent),
            QSOFieldName::MODE => DataType::String,
            QSOFieldName::MORSE_KEY_TYPE => DataType::Enumeration(EnumerationType::MorseKeyType),
            QSOFieldName::MY_DXCC => DataType::Enumeration(EnumerationType::DxccEntityCode),
            QSOFieldName::MY_GRIDSQUARE => DataType::GridSquare,
            QSOFieldName::MY_LAT => DataType::Location,
            QSOFieldName::MY_LON => DataType::Location,
            QSOFieldName::MY_POTA_REF => DataType::PotaRefList,
            QSOFieldName::MY_SOTA_REF => DataType::SotaRef,
            QSOFieldName::MY_WWFF_REF => DataType::WwffRef,
            QSOFieldName::NAME => DataType::String,
            QSOFieldName::NAME_INTL => DataType::IntlString,
            QSOFieldName::NOTES => DataType::MultilineString,
            QSOFieldName::POTA_REF => DataType::PotaRefList,
            QSOFieldName::PROP_MODE => DataType::Enumeration(EnumerationType::PropagationMode),
            QSOFieldName::QSLMSG => DataType::MultilineString,
            QSOFieldName::QSL_RCVD => DataType::Enumeration(EnumerationType::QslRcvd),
            QSOFieldName::QSL_RCVD_VIA => DataType::Enumeration(EnumerationType::QslVia),
            QSOFieldName::QSL_SENT => DataType::Enumeration(EnumerationType::QslSent),
            QSOFieldName::QSL_SENT_VIA => DataType::Enumeration(EnumerationType::QslVia),
            QSOFieldName::QSL_VIA => DataType::String,
            QSOFieldName::QSO_COMPLETE => DataType::Enumeration(EnumerationType::QsoComplete),
            QSOFieldName::QSO_DATE => DataType::Date,
            QSOFieldName::QSO_DATE_OFF => DataType::Date,
            QSOFieldName::QSO_RANDOM => DataType::Boolean,
            QSOFieldName::QTH => DataType::String,
            QSOFieldName::QTH_INTL => DataType::IntlString,
            QSOFieldName::REGION => DataType::Enumeration(EnumerationType::Region),
            QSOFieldName::RST_RCVD => DataType::String,
            QSOFieldName::RST_SENT => DataType::String,
            QSOFieldName::RX_PWR => DataType::Number,
            QSOFieldName::SOTA_REF => DataType::SotaRef,
            QSOFieldName::SRX => DataType::Integer,
            QSOFieldName::STX => DataType::Integer,
            QSOFieldName::SUBMODE => DataType::String,
            QSOFieldName::SWL => DataType::Boolean,
            QSOFieldName::TIME_OFF => DataType::Time,
            QSOFieldName::TIME_ON => DataType::Time,
            QSOFieldName::TX_PWR => DataType::Number,
            QSOFieldName::USACA_COUNTIES => DataType::SecondarySubdivisionList,
            QSOFieldName::VUCC_GRIDS => DataType::GridSquareList,
            QSOFieldName::WWFF_REF => DataType::WwffRef,
            QSOFieldName::EOR => DataType::Null,
        }
    }

    fn from_name(s: &[char]) -> (r: Option<QSOFieldName>) {
        if chars_eq_str(s, "ADDRESS") {
            Some(QSOFieldName::ADDRESS)
        } else if chars_eq_str(s, "ADDRESS_INTL") {
            Some(QSOFieldName::ADDRESS_INTL)
        } else if chars_eq_str(s, "AGE") {
            Some(QSOFieldName::AGE)
        } else if chars_eq_str(s, "ANT_AZ") {
            Some(QSOFieldName::ANT_AZ)
        } else if chars_eq_str(s, "ANT_EL") {
            Some(QSOFieldName::ANT_EL)
        } else if chars_eq_str(s, "ANT_PATH") {
            Some(QSOFieldName::ANT_PATH)
        } else if chars_eq_str(s, "A_INDEX") {
            Some(QSOFieldName::A_INDEX)
        } else if chars_eq_str(s, "AWARD_GRANTED") {
            Some(QSOFieldName::AWARD_GRANTED)
        } else if chars_eq_str(s, "AWARD_SUBMITTED") {
            Some(QSOFieldName::AWARD_SUBMITTED)
        } else if chars_eq_str(s, "BAND") {
            Some(QSOFieldName::BAND)
        } else if chars_eq_str(s, "BAND_RX") {
            Some(QSOFieldName::BAND_RX)
        } else if chars_eq_str(s, "CALL") {
            Some(QSOFieldName::CALL)
        } else if chars_eq_str(s, "CHECK") {
            Some(QSOFieldName::CHECK)
        } else if chars_eq_str(s, "CLASS") {
            Some(QSOFieldName::CLASS)
        } else if chars_eq_str(s, "CLUBLOG_QSO_UPLOAD_DATE") {
            Some(QSOFieldName::CLUBLOG_QSO_UPLOAD_DATE)
        } else if chars_eq_str(s, "CLUBLOG_QSO_UPLOAD_STATUS") {
            Some(QSOFieldName::CLUBLOG_QSO_UPLOAD_STATUS)
        } else if chars_eq_str(s, "CNTY") {
            Some(QSOFieldName::CNTY)
        } else if chars_eq_str(s, "COMMENT") {
            Some(QSOFieldName::COMMENT)
        } else if chars_eq_str(s, "COMMENT_INTL") {
            Some(QSOFieldName::COMMENT_INTL)
        } else if chars_eq_str(s, "CONT") {
            Some(QSOFieldName::CONT)
        } else if chars_eq_str(s, "CONTACTED_OP") {
            Some(QSOFieldName::CONTACTED_OP)
        } else if chars_eq_str(s, "CONTEST_ID") {
            Some(QSOFieldName::CONTEST_ID)
        } else if chars_eq_str(s, "COUNTRY") {
            Some(QSOFieldName::COUNTRY)
        } else if chars_eq_str(s, "CQZ") {
            Some(QSOFieldName::CQZ)
        } else if chars_eq_str(s, "DXCC") {
            Some(QSOFieldName::DXCC)
        } else if chars_eq_str(s, "EMAIL") {
            Some(QSOFieldName::EMAIL)
        } else if chars_eq_str(s, "EQSL_QSL_RCVD") {
            Some(QSOFieldName::EQSL_QSL_RCVD)
        } else if chars_eq_str(s, "EQSL_QSL_SENT") {
            Some(QSOFieldName::EQSL_QSL_SENT)
        } else if chars_eq_str(s, "FORCE_INIT") {
            Some(QSOFieldName::FORCE_INIT)
        } else if chars_eq_str(s, "FREQ") {
            Some(QSOFieldName::FREQ)
        } else if chars_eq_str(s, "FREQ_RX") {
            Some(QSOFieldName::FREQ_RX)
        } else if chars_eq_str(s, "GRIDSQUARE") {
            Some(QSOFieldName::GRIDSQUARE)
        } else if chars_eq_str(s, "GRIDSQUARE_EXT") {
            Some(QSOFieldName::GRIDSQUARE_EXT)
        } else if chars_eq_str(s, "IOTA") {
            Some(QSOFieldName::IOTA)
        } else if chars_eq_str(s, "ITUZ") {
            Some(QSOFieldName::ITUZ)
        } else if chars_eq_str(s, "K_INDEX") {
            Some(QSOFieldName::K_INDEX)
        } else if chars_eq_str(s, "LAT") {
            Some(QSOFieldName::LAT)
        } else if chars_eq_str(s, "LON") {
            Some(QSOFieldName::LON)
        } else if chars_eq_str(s, "LOTW_QSL_RCVD") {
            Some(QSOFieldName::LOTW_QSL_RCVD)
        } else if chars_eq_str(s, "LOTW_QSL_SENT") {
            Some(QSOFieldName::LOTW_QSL_SENT)
        } else if chars_eq_str(s, "MODE") {
            Some(QSOFieldName::MODE)
        } else if chars_eq_str(s, "MORSE_KEY_TYPE") {
            Some(QSOFieldName::MORSE_KEY_TYPE)
        } else if chars_eq_str(s, "MY_DXCC") {
            Some(QSOFieldName::MY_DXCC)
        } else if chars_eq_str(s, "MY_GRIDSQUARE") {
            Some(QSOFieldName::MY_GRIDSQUARE)
        } else if chars_eq_str(s, "MY_LAT") {
            Some(QSOFieldName::MY_LAT)
        } else if chars_eq_str(s, "MY_LON") {
            Some(QSOFieldName::MY_LON)
        } else if chars_eq_str(s, "MY_POTA_REF") {
            Some(QSOFieldName::MY_POTA_REF)
        } else if chars_eq_str(s, "MY_SOTA_REF") {
            Some(QSOFieldName::MY_SOTA_REF)
        } else if chars_eq_str(s, "MY_WWFF_REF") {
            Some(QSOFieldName::MY_WWFF_REF)
        } else if chars_eq_str(s, "NAME") {
            Some(QSOFieldName::NAME)
        } else if chars_eq_str(s, "NAME_INTL") {
            Some(QSOFieldName::NAME_INTL)
        } else if chars_eq_str(s, "NOTES") {
            Some(QSOFieldName::NOTES)
        } else if chars_eq_str(s, "POTA_REF") {
            Some(QSOFieldName::POTA_REF)
        } else if chars_eq_str(s, "PROP_MODE") {
            Some(QSOFieldName::PROP_MODE)
        } else if chars_eq_str(s, "QSLMSG") {
            Some(QSOFieldName::QSLMSG)
        } else if chars_eq_str(s, "QSL_RCVD") {
            Some(QSOFieldName::QSL_RCVD)
        } else if chars_eq_str(s, "QSL_RCVD_VIA") {
            Some(QSOFieldName::QSL_RCVD_VIA)
        } else if chars_eq_str(s, "QSL_SENT") {
            Some(QSOFieldName::QSL_SENT)
        } else if chars_eq_str(s, "QSL_SENT_VIA") {
            Some(QSOFieldName::QSL_SENT_VIA)
        } else if chars_eq_str(s, "QSL_VIA") {
            Some(QSOFieldName::QSL_VIA)
        } else if chars_eq_str(s, "QSO_COMPLETE") {
            Some(QSOFieldName::QSO_COMPLETE)
        } else if chars_eq_str(s, "QSO_DATE") {
            Some(QSOFieldName::QSO_DATE)
        } else if chars_eq_str(s, "QSO_DATE_OFF") {
            Some(QSOFieldName::QSO_DATE_OFF)
        } else if chars_eq_str(s, "QSO_RANDOM") {
            Some(QSOFieldName::QSO_RANDOM)
        } else if chars_eq_str(s, "QTH") {
            Some(QSOFieldName::QTH)
        } else if chars_eq_str(s, "QTH_INTL") {
            Some(QSOFieldName::QTH_INTL)
        } else if chars_eq_str(s, "REGION") {
            Some(QSOFieldName::REGION)
        } else if chars_eq_str(s, "RST_RCVD") {
            Some(QSOFieldName::RST_RCVD)
        } else if chars_eq_str(s, "RST_SENT") {
            Some(QSOFieldName::RST_SENT)
        } else if chars_eq_str(s, "RX_PWR") {
            Some(QSOFieldName::RX_PWR)
        } else if chars_eq_str(s, "SOTA_REF") {
            Some(QSOFieldName::SOTA_REF)
        } else if chars_eq_str(s, "SRX") {
            Some(QSOFieldName::SRX)
        } else if chars_eq_str(s, "STX") {
            Some(QSOFieldName::STX)
        } else if chars_eq_str(s, "SUBMODE") {
            Some(QSOFieldName::SUBMODE)
        } else if chars_eq_str(s, "SWL") {
            Some(QSOFieldName::SWL)
        } else if chars_eq_str(s, "TIME_OFF") {
            Some(QSOFieldName::TIME_OFF)
        } else if chars_eq_str(s, "TIME_ON") {
            Some(QSOFieldName::TIME_ON)
        } else if chars_eq_str(s, "TX_PWR") {
            Some(QSOFieldName::TX_PWR)
        } else if chars_eq_str(s, "USACA_COUNTIES") {
            Some(QSOFieldName::USACA_COUNTIES)
        } else if chars_eq_str(s, "VUCC_GRIDS") {
            Some(QSOFieldName::VUCC_GRIDS)
        } else if chars_eq_str(s, "WWFF_REF") {
            Some(QSOFieldName::WWFF_REF)
        } else if chars_eq_str(s, "EOR") {
            Some(QSOFieldName::EOR)
        } else {
            None
        }
    }

    fn terminator() -> (r: QSOFieldName) {
        QSOFieldName::EOR
    }

    fn is_terminator(&self) -> (r: bool) {
        match self {
            QSOFieldName::EOR => true,
            _ => false,
        }
    }

    proof fn lemma_name(self) {
        match self {
            QSOFieldName::ADDRESS => {
                reveal_strlit("ADDRESS");
                assert(token_chars("ADDRESS"@));
            },
            QSOFieldName::ADDRESS_INTL => {
                reveal_strlit("ADDRESS_INTL");
                reveal_strlit("ADDRESS");
                assert(differ_at("ADDRESS_INTL"@, "ADDRESS"@, 0));
                assert(token_chars("ADDRESS_INTL"@));
            },
            QSOFieldName::AGE => {
                reveal_strlit("AGE");
                reveal_strlit("ADDRESS");
                assert(differ_at("AGE"@, "ADDRESS"@, 0));
                reveal_strlit("ADDRESS_INTL");
                assert(differ_at("AGE"@, "ADDRESS_INTL"@, 0));
                assert(token_chars("AGE"@));
            },
            QSOFieldName::ANT_AZ => {
                reveal_strlit("ANT_AZ");
                reveal_strlit("ADDRESS");
                assert(differ_at("ANT_AZ"@, "ADDRESS"@, 0));
                reveal_strlit("ADDRESS_INTL");
                assert(differ_at("ANT_AZ"@, "ADDRESS_INTL"@, 0));
                reveal_strlit("AGE");
                assert(differ_at("ANT_AZ"@, "AGE"@, 0));
                assert(token_chars("ANT_AZ"@));
            },
            QSOFieldName::ANT_EL => {
                reveal_strlit("ANT_EL");
                reveal_strlit("ADDRESS");
                assert(differ_at("ANT_EL"@, "ADDRESS"@, 0));
                reveal_strlit("ADDRESS_INTL");
                assert(differ_at("ANT_EL"@, "ADDRESS_INTL"@, 0));
                reveal_strlit("AGE");
                assert(differ_at("ANT_EL"@, "AGE"@, 0));
                reveal_strlit("ANT_AZ");
                assert(differ_at("ANT_EL"@, "ANT_AZ"@, 4));
                assert(token_chars("ANT_EL"@));
            },
            QSOFieldName::ANT_PATH => {
                reveal_strlit("ANT_PATH");
                reveal_strlit("ADDRESS");
                assert(differ_at("ANT_PATH"@, "ADDRESS"@, 0));
                reveal_strlit("ADDRESS_INTL");
                assert(differ_at("ANT_PATH"@, "ADDRESS_INTL"@, 0));
                reveal_strlit("AGE");
                assert(differ_at("ANT_PATH"@, "AGE"@, 0));
                reveal_strlit("ANT_AZ");
                assert(differ_at("ANT_PATH"@, "ANT_AZ"@, 0));
                reveal_strlit("ANT_EL");
                assert(differ_at("ANT_PATH"@, "ANT_EL"@, 0));
                assert(token_chars("ANT_PATH"@));
            },
            QSOFieldName::A_INDEX => {
                reveal_strlit("A_INDEX");
                reveal_strlit("ADDRESS");
                assert(differ_at("A_INDEX"@, "ADDRESS"@, 1));
                reveal_strlit("ADDRESS_INTL");
                assert(differ_at("A_INDEX"@, "ADDRESS_INTL"@, 0));
                reveal_strlit("AGE");
                assert(differ_at("A_INDEX"@, "AGE"@, 0));
                reveal_strlit("ANT_AZ");
                assert(differ_at("A_INDEX"@, "ANT_AZ"@, 0));
                reveal_strlit("ANT_EL");
                assert(differ_at("A_INDEX"@, "ANT_EL"@, 0));
                reveal_strlit("ANT_PATH");
                assert(differ_at("A_INDEX"@, "ANT_PATH"@, 0));
                assert(token_chars("A_INDEX"@));
            },
            QSOFieldName::AWARD_GRANTED => {
                reveal_strlit("AWARD_GRANTED");
                reveal_strlit("ADDRESS");
                assert(differ_at("AWARD_GRANTED"@, "ADDRESS"@, 0));
                reveal_strlit("ADDRESS_INTL");
                assert(differ_at("AWARD_GRANTED"@, "ADDRESS_INTL"@, 0));
                reveal_strlit("AGE");
                assert(differ_at("AWARD_GRANTED"@, "AGE"@, 0));
                reveal_strlit("ANT_AZ");
                assert(differ_at("AWARD_GRANTED"@, "ANT_AZ"@, 0));
                reveal_strlit("ANT_EL");
                assert(differ_at("AWARD_GRANTED"@, "ANT_EL"@, 0));
                reveal_strlit("ANT_PATH");
                assert(differ_at("AWARD_GRANTED"@, "ANT_PATH"@, 0));
                reveal_strlit("A_INDEX");
                assert(differ_at("AWARD_GRANTED"@, "A_INDEX"@, 0));
                assert(token_chars("AWARD_GRANTED"@));
            },
            QSOFieldName::AWARD_SUBMITTED => {
                reveal_strlit("AWARD_SUBMITTED");
                reveal_strlit("ADDRESS");
                assert(differ_at("AWARD_SUBMITTED"@, "ADDRESS"@, 0));
                reveal_strlit("ADDRESS_INTL");
                assert(differ_at("AWARD_SUBMITTED"@, "ADDRESS_INTL"@, 0));
                reveal_strlit("AGE");
                assert(differ_at("AWARD_SUBMITTED"@, "AGE"@, 0));
                reveal_strlit("ANT_AZ");
                assert(differ_at("AWARD_SUBMITTED"@, "ANT_AZ"@, 0));
                reveal_strlit("ANT_EL");
                assert(differ_at("AWARD_SUBMITTED"@, "ANT_EL"@, 0));
                reveal_strlit("ANT_PATH");
                assert(differ_at("AWARD_SUBMITTED"@, "ANT_PATH"@, 0));
                reveal_strlit("A_INDEX");
                assert(differ_at("AWARD_SUBMITTED"@, "A_INDEX"@, 0));
                reveal_strlit("AWARD_GRANTED");
                assert(differ_at("AWARD_SUBMITTED"@, "AWARD_GRANTED"@, 0));
                assert(token_chars("AWARD_SUBMITTED"@));
            },
            QSOFieldName::BAND => {
                reveal_strlit("BAND");
                reveal_strlit("ADDRESS");
                assert(differ_at("BAND"@, "ADDRESS"@, 0));
                reveal_strlit("ADDRESS_INTL");
                assert(differ_at("BAND"@, "ADDRESS_INTL"@, 0));
                reveal_strlit("AGE");
                assert(differ_at("BAND"@, "AGE"@, 0));
                reveal_strlit("ANT_AZ");
                assert(differ_at("BAND"@, "ANT_AZ"@, 0));
                reveal_strlit("ANT_EL");
                assert(differ_at("BAND"@, "ANT_EL"@, 0));
                reveal_strlit("ANT_PATH");
                assert(differ_at("BAND"@, "ANT_PATH"@, 0));
                reveal_strlit("A_INDEX");
                assert(differ_at("BAND"@, "A_INDEX"@, 0));
                reveal_strlit("AWARD_GRANTED");
                assert(differ_at("BAND"@, "AWARD_GRANTED"@, 0));
                reveal_strlit("AWARD_SUBMITTED");
                assert(differ_at("BAND"@, "AWARD_SUBMITTED"@, 0));
                assert(token_chars("BAND"@));
            },
            QSOFieldName::BAND_RX => {
                reveal_strlit("BAND_RX");
                reveal_strlit("ADDRESS");
                assert(differ_at("BAND_RX"@, "ADDRESS"@, 0));
                reveal_strlit("ADDRESS_INTL");
                assert(differ_at("BAND_RX"@, "ADDRESS_INTL"@, 0));
                reveal_strlit("AGE");
                assert(differ_at("BAND_RX"@, "AGE"@, 0));
                reveal_strlit("ANT_AZ");
                assert(differ_at("BAND_RX"@, "ANT_AZ"@, 0));
                reveal_strlit("ANT_EL");
                assert(differ_at("BAND_RX"@, "ANT_EL"@, 0));
                reveal_strlit("ANT_PATH");
                assert(differ_at("BAND_RX"@, "ANT_PATH"@, 0));
                reveal_strlit("A_INDEX");
                assert(differ_at("BAND_RX"@, "A_INDEX"@, 0));
                reveal_strlit("AWARD_GRANTED");
                assert(differ_at("BAND_RX"@, "AWARD_GRANTED"@, 0));
                reveal_strlit("AWARD_SUBMITTED");
                assert(differ_at("BAND_RX"@, "AWARD_SUBMITTED"@, 0));
                reveal_strlit("BAND");
                assert(differ_at("BAND_RX"@, "BAND"@, 0));
                assert(token_chars("BAND_RX"@));
            },
            QSOFieldName::CALL => {
                reveal_strlit("CALL");
                reveal_strlit("ADDRESS");
                assert(differ_at("CALL"@, "ADDRESS"@, 0));
                reveal_strlit("ADDRESS_INTL");
                assert(differ_at("CALL"@, "ADDRESS_INTL"@, 0));
                reveal_strlit("AGE");
                assert(differ_at("CALL"@, "AGE"@, 0));
                reveal_strlit("ANT_AZ");
                assert(differ_at("CALL"@, "ANT_AZ"@, 0));
                reveal_strlit("ANT_EL");
                assert(differ_at("CALL"@, "ANT_EL"@, 0));
                reveal_strlit("ANT_PATH");
                assert(differ_at("CALL"@, "ANT_PATH"@, 0));
                reveal_strlit("A_INDEX");
                assert(differ_at("CALL"@, "A_INDEX"@, 0));
                reveal_strlit("AWARD_GRANTED");
                assert(differ_at("CALL"@, "AWARD_GRANTED"@, 0));
                reveal_strlit("AWARD_SUBMITTED");
                assert(differ_at("CALL"@, "AWARD_SUBMITTED"@, 0));
                reveal_strlit("BAND");
                assert(differ_at("CALL"@, "BAND"@, 0));
                reveal_strlit("BAND_RX");
                assert(differ_at("CALL"@, "BAND_RX"@, 0));
                assert(token_chars("CALL"@));
            },
            QSOFieldName::CHECK => {
                reveal_strlit("CHECK");
                reveal_strlit("ADDRESS");
                assert(differ_at("CHECK"@, "ADDRESS"@, 0));
                reveal_strlit("ADDRESS_INTL");
                assert(differ_at("CHECK"@, "ADDRESS_INTL"@, 0));
                reveal_strlit("AGE");
                assert(differ_at("CHECK"@, "AGE"@, 0));
                reveal_strlit("ANT_AZ");
                assert(differ_at("CHECK"@, "ANT_AZ"@, 0));
                reveal_strlit("ANT_EL");
                assert(differ_at("CHECK"@, "ANT_EL"@, 0));
                reveal_strlit("ANT_PATH");
                assert(differ_at("CHECK"@, "ANT_PATH"@, 0));
                reveal_strlit("A_INDEX");
                assert(differ_at("CHECK"@, "A_INDEX"@, 0));
                reveal_strlit("AWARD_GRANTED");
                assert(differ_at("CHECK"@, "AWARD_GRANTED"@, 0));
                reveal_strlit("AWARD_SUBMITTED");
                assert(differ_at("CHECK"@, "AWARD_SUBMITTED"@, 0));
                reveal_strlit("BAND");
                assert(differ_at("CHECK"@, "BAND"@, 0));
                reveal_strlit("BAND_RX");
                assert(differ_at("CHECK"@, "BAND_RX"@, 0));
                reveal_strlit("CALL");
                assert(differ_at("CHECK"@, "CALL"@, 0));
                assert(token_chars("CHECK"@));
            },
            QSOFieldName::CLASS => {
                reveal_strlit("CLASS");
                reveal_strlit("ADDRESS");
                assert(differ_at("CLASS"@, "ADDRESS"@, 0));
                reveal_strlit("ADDRESS_INTL");
                assert(differ_at("CLASS"@, "ADDRESS_INTL"@, 0));
                reveal_strlit("AGE");
                assert(differ_at("CLASS"@, "AGE"@, 0));
                reveal_strlit("ANT_AZ");
                assert(differ_at("CLASS"@, "ANT_AZ"@, 0));
                reveal_strlit("ANT_EL");
                assert(differ_at("CLASS"@, "ANT_EL"@, 0));
                reveal_strlit("ANT_PATH");
                assert(differ_at("CLASS"@, "ANT_PATH"@, 0));
                reveal_strlit("A_INDEX");
                assert(differ_at("CLASS"@, "A_INDEX"@, 0));
                reveal_strlit("AWARD_GRANTED");
                assert(differ_at("CLASS"@, "AWARD_GRANTED"@, 0));
                reveal_strlit("AWARD_SUBMITTED");
                assert(differ_at("CLASS"@, "AWARD_SUBMITTED"@, 0));
                reveal_strlit("BAND");
                assert(differ_at("CLASS"@, "BAND"@, 0));
                reveal_strlit("BAND_RX");
                assert(differ_at("CLASS"@, "BAND_RX"@, 0));
                reveal_strlit("CALL");
                assert(differ_at("CLASS"@, "CALL"@, 0));
                reveal_strlit("CHECK");
                assert(differ_at("CLASS"@, "CHECK"@, 1));
                assert(token_chars("CLASS"@));
            },
            QSOFieldName::CLUBLOG_QSO_UPLOAD_DATE => {
                reveal_strlit("CLUBLOG_QSO_UPLOAD_DATE");
                reveal_strlit("ADDRESS");
                assert(differ_at("CLUBLOG_QSO_UPLOAD_DATE"@, "ADDRESS"@, 0));
                reveal_strlit("ADDRESS_INTL");
                assert(differ_at("CLUBLOG_QSO_UPLOAD_DATE"@, "ADDRESS_INTL"@, 0));
                reveal_strlit("AGE");
                assert(differ_at("CLUBLOG_QSO_UPLOAD_DATE"@, "AGE"@, 0));
                reveal_strlit("ANT_AZ");
                assert(differ_at("CLUBLOG_QSO_UPLOAD_DATE"@, "ANT_AZ"@, 0));
                reveal_strlit("ANT_EL");
                assert(differ_at("CLUBLOG_QSO_UPLOAD_DATE"@, "ANT_EL"@, 0));
                reveal_strlit("ANT_PATH");
                assert(differ_at("CLUBLOG_QSO_UPLOAD_DATE"@, "ANT_PATH"@, 0));
                reveal_strlit("A_INDEX");
                assert(differ_at("CLUBLOG_QSO_UPLOAD_DATE"@, "A_INDEX"@, 0));
                reveal_strlit("AWARD_GRANTED");
                assert(differ_at("CLUBLOG_QSO_UPLOAD_DATE"@, "AWARD_GRANTED"@, 0));
                reveal_strlit("AWARD_SUBMITTED");
                assert(differ_at("CLUBLOG_QSO_UPLOAD_DATE"@, "AWARD_SUBMITTED"@, 0));
                reveal_strlit("BAND");
                assert(differ_at("CLUBLOG_QSO_UPLOAD_DATE"@, "BAND"@, 0));
                reveal_strlit("BAND_RX");
                assert(differ_at("CLUBLOG_QSO_UPLOAD_DATE"@, "BAND_RX"@, 0));
                reveal_strlit("CALL");
                assert(differ_at("CLUBLOG_QSO_UPLOAD_DATE"@, "CALL"@, 0));
                reveal_strlit("CHECK");
                assert(differ_at("CLUBLOG_QSO_UPLOAD_DATE"@, "CHECK"@, 0));
                reveal_strlit("CLASS");
                assert(differ_at("CLUBLOG_QSO_UPLOAD_DATE"@, "CLASS"@, 0));
                assert(token_chars("CLUBLOG_QSO_UPLOAD_DATE"@));
            },
            QSOFieldName::CLUBLOG_QSO_UPLOAD_STATUS => {
                reveal_strlit("CLUBLOG_QSO_UPLOAD_STATUS");
                reveal_strlit("ADDRESS");
                assert(differ_at("CLUBLOG_QSO_UPLOAD_STATUS"@, "ADDRESS"@, 0));
                reveal_strlit("ADDRESS_INTL");
                assert(differ_at("CLUBLOG_QSO_UPLOAD_STATUS"@, "ADDRESS_INTL"@, 0));
                reveal_strlit("AGE");
                assert(differ_at("CLUBLOG_QSO_UPLOAD_STATUS"@, "AGE"@, 0));
                reveal_strlit("ANT_AZ");
                assert(differ_at("CLUBLOG_QSO_UPLOAD_STATUS"@, "ANT_AZ"@, 0));
                reveal_strlit("ANT_EL");
                assert(differ_at("CLUBLOG_QSO_UPLOAD_STATUS"@, "ANT_EL"@, 0));
                reveal_strlit("ANT_PATH");
                assert(differ_at("CLUBLOG_QSO_UPLOAD_STATUS"@, "ANT_PATH"@, 0));
                reveal_strlit("A_INDEX");
                assert(differ_at("CLUBLOG_QSO_UPLOAD_STATUS"@, "A_INDEX"@, 0));
                reveal_strlit("AWARD_GRANTED");
                assert(differ_at("CLUBLOG_QSO_UPLOAD_STATUS"@, "AWARD_GRANTED"@, 0));
                reveal_strlit("AWARD_SUBMITTED");
                assert(differ_at("CLUBLOG_QSO_UPLOAD_STATUS"@, "AWARD_SUBMITTED"@, 0));
                reveal_strlit("BAND");
                assert(differ_at("CLUBLOG_QSO_UPLOAD_STATUS"@, "BAND"@, 0));
                reveal_strlit("BAND_RX");
                assert(differ_at("CLUBLOG_QSO_UPLOAD_STATUS"@, "BAND_RX"@, 0));
                reveal_strlit("CALL");
                assert(differ_at("CLUBLOG_QSO_UPLOAD_STATUS"@, "CALL"@, 0));
                reveal_strlit("CHECK");
                assert(differ_at("CLUBLOG_QSO_UPLOAD_STATUS"@, "CHECK"@, 0));
                reveal_strlit("CLASS");
                assert(differ_at("CLUBLOG_QSO_UPLOAD_STATUS"@, "CLASS"@, 0));
                reveal_strlit("CLUBLOG_QSO_UPLOAD_DATE");
                assert(differ_at("CLUBLOG_QSO_UPLOAD_STATUS"@, "CLUBLOG_QSO_UPLOAD_DATE"@, 0));
                assert(token_chars("CLUBLOG_QSO_UPLOAD_STATUS"@));
            },
            QSOFieldName::CNTY => {
                reveal_strlit("CNTY");
                reveal_strlit("ADDRESS");
                assert(differ_at("CNTY"@, "ADDRESS"@, 0));
                reveal_strlit("ADDRESS_INTL");
                assert(differ_at("CNTY"@, "ADDRESS_INTL"@, 0));
                reveal_strlit("AGE");
                assert(differ_at("CNTY"@, "AGE"@, 0));
                reveal_strlit("ANT_AZ");
                assert(differ_at("CNTY"@, "ANT_AZ"@, 0));
                reveal_strlit("ANT_EL");
                assert(differ_at("CNTY"@, "ANT_EL"@, 0));
                reveal_strlit("ANT_PATH");
                assert(differ_at("CNTY"@, "ANT_PATH"@, 0));
                reveal_strlit("A_INDEX");
                assert(differ_at("CNTY"@, "A_INDEX"@, 0));
                reveal_strlit("AWARD_GRANTED");
                assert(differ_at("CNTY"@, "AWARD_GRANTED"@, 0));
                reveal_strlit("AWARD_SUBMITTED");
                assert(differ_at("CNTY"@, "AWARD_SUBMITTED"@, 0));
                reveal_strlit("BAND");
                assert(differ_at("CNTY"@, "BAND"@, 0));
                reveal_strlit("BAND_RX");
                assert(differ_at("CNTY"@, "BAND_RX"@, 0));
                reveal_strlit("CALL");
                assert(differ_at("CNTY"@, "CALL"@, 1));
                reveal_strlit("CHECK");
                assert(differ_at("CNTY"@, "CHECK"@, 0));
                reveal_strlit("CLASS");
                assert(differ_at("CNTY"@, "CLASS"@, 0));
                reveal_strlit("CLUBLOG_QSO_UPLOAD_DATE");
                assert(differ_at("CNTY"@, "CLUBLOG_QSO_UPLOAD_DATE"@, 0));
                reveal_strlit("CLUBLOG_QSO_UPLOAD_STATUS");
                assert(differ_at("CNTY"@, "CLUBLOG_QSO_UPLOAD_STATUS"@, 0));
                assert(token_chars("CNTY"@));
            },
            QSOFieldName::COMMENT => {
                reveal_strlit("COMMENT");
                reveal_strlit("ADDRESS");
                assert(differ_at("COMMENT"@, "ADDRESS"@, 0));
                reveal_strlit("ADDRESS_INTL");
                assert(differ_at("COMMENT"@, "ADDRESS_INTL"@, 0));
                reveal_strlit("AGE");
                assert(differ_at("COMMENT"@, "AGE"@, 0));
                reveal_strlit("ANT_AZ");
                assert(differ_at("COMMENT"@, "ANT_AZ"@, 0));
                reveal_strlit("ANT_EL");
                assert(differ_at("COMMENT"@, "ANT_EL"@, 0));
                reveal_strlit("ANT_PATH");
                assert(differ_at("COMMENT"@, "ANT_PATH"@, 0));
                reveal_strlit("A_INDEX");
                assert(differ_at("COMMENT"@, "A_INDEX"@, 0));
                reveal_strlit("AWARD_GRANTED");
                assert(differ_at("COMMENT"@, "AWARD_GRANTED"@, 0));
                reveal_strlit("AWARD_SUBMITTED");
                assert(differ_at("COMMENT"@, "AWARD_SUBMITTED"@, 0));
                reveal_strlit("BAND");
                assert(differ_at("COMMENT"@, "BAND"@, 0));
                reveal_strlit("BAND_RX");
                assert(differ_at("COMMENT"@, "BAND_RX"@, 0));
                reveal_strlit("CALL");
                assert(differ_at("COMMENT"@, "CALL"@, 0));
                reveal_strlit("CHECK");
                assert(differ_at("COMMENT"@, "CHECK"@, 0));
                reveal_strlit("CLASS");
                assert(differ_at("COMMENT"@, "CLASS"@, 0));
                reveal_strlit("CLUBLOG_QSO_UPLOAD_DATE");
                assert(differ_at("COMMENT"@, "CLUBLOG_QSO_UPLOAD_DATE"@, 0));
                reveal_strlit("CLUBLOG_QSO_UPLOAD_STATUS");
                assert(differ_at("COMMENT"@, "CLUBLOG_QSO_UPLOAD_STATUS"@, 0));
                reveal_strlit("CNTY");
                assert(differ_at("COMMENT"@, "CNTY"@, 0));
                assert(token_chars("COMMENT"@));
            },
            QSOFieldName::COMMENT_INTL => {
                reveal_strlit("COMMENT_INTL");
                reveal_strlit("ADDRESS");
                assert(differ_at("COMMENT_INTL"@, "ADDRESS"@, 0));
                reveal_strlit("ADDRESS_INTL");
                assert(differ_at("COMMENT_INTL"@, "ADDRESS_INTL"@, 0));
                reveal_strlit("AGE");
                assert(differ_at("COMMENT_INTL"@, "AGE"@, 0));
                reveal_strlit("ANT_AZ");
                assert(differ_at("COMMENT_INTL"@, "ANT_AZ"@, 0));
                reveal_strlit("ANT_EL");
                assert(differ_at("COMMENT_INTL"@, "ANT_EL"@, 0));
                reveal_strlit("ANT_PATH");
                assert(differ_at("COMMENT_INTL"@, "ANT_PATH"@, 0));
                reveal_strlit("A_INDEX");
                assert(differ_at("COMMENT_INTL"@, "A_INDEX"@, 0));
                reveal_strlit("AWARD_GRANTED");
                assert(differ_at("COMMENT_INTL"@, "AWARD_GRANTED"@, 0));
                reveal_strlit("AWARD_SUBMITTED");
                assert(differ_at("COMMENT_INTL"@, "AWARD_SUBMITTED"@, 0));
                reveal_strlit("BAND");
                assert(differ_at("COMMENT_INTL"@, "BAND"@, 0));
                reveal_strlit("BAND_RX");
                assert(differ_at("COMMENT_INTL"@, "BAND_RX"@, 0));
                reveal_strlit("CALL");
                assert(differ_at("COMMENT_INTL"@, "CALL"@, 0));
                reveal_strlit("CHECK");
                assert(differ_at("COMMENT_INTL"@, "CHECK"@, 0));
                reveal_strlit("CLASS");
                assert(differ_at("COMMENT_INTL"@, "CLASS"@, 0));
                reveal_strlit("CLUBLOG_QSO_UPLOAD_DATE");
                assert(differ_at("COMMENT_INTL"@, "CLUBLOG_QSO_UPLOAD_DATE"@, 0));
                reveal_strlit("CLUBLOG_QSO_UPLOAD_STATUS");
                assert(differ_at("COMMENT_INTL"@, "CLUBLOG_QSO_UPLOAD_STATUS"@, 0));
                reveal_strlit("CNTY");
                assert(differ_at("COMMENT_INTL"@, "CNTY"@, 0));
                reveal_strlit("COMMENT");
                assert(differ_at("COMMENT_INTL"@, "COMMENT"@, 0));
                assert(token_chars("COMMENT_INTL"@));
            },
            QSOFieldName::CONT => {
                reveal_strlit("CONT");
                reveal_strlit("ADDRESS");
                assert(differ_at("CONT"@, "ADDRESS"@, 0));
                reveal_strlit("ADDRESS_INTL");
                assert(differ_at("CONT"@, "ADDRESS_INTL"@, 0));
                reveal_strlit("AGE");
                assert(differ_at("CONT"@, "AGE"@, 0));
                reveal_strlit("ANT_AZ");
                assert(differ_at("CONT"@, "ANT_AZ"@, 0));
                reveal_strlit("ANT_EL");
                assert(differ_at("CONT"@, "ANT_EL"@, 0));
                reveal_strlit("ANT_PATH");
                assert(differ_at("CONT"@, "ANT_PATH"@, 0));
                reveal_strlit("A_INDEX");
                assert(differ_at("CONT"@, "A_INDEX"@, 0));
                reveal_strlit("AWARD_GRANTED");
                assert(differ_at("CONT"@, "AWARD_GRANTED"@, 0));
                reveal_strlit("AWARD_SUBMITTED");
                assert(differ_at("CONT"@, "AWARD_SUBMITTED"@, 0));
                reveal_strlit("BAND");
                assert(differ_at("CONT"@, "BAND"@, 0));
                reveal_strlit("BAND_RX");
                assert(differ_at("CONT"@, "BAND_RX"@, 0));
                reveal_strlit("CALL");
                assert(differ_at("CONT"@, "CALL"@, 1));
                reveal_strlit("CHECK");
                assert(differ_at("CONT"@, "CHECK"@, 0));
                reveal_strlit("CLASS");
                assert(differ_at("CONT"@, "CLASS"@, 0));
                reveal_strlit("CLUBLOG_QSO_UPLOAD_DATE");
                assert(differ_at("CONT"@, "CLUBLOG_QSO_UPLOAD_DATE"@, 0));
                reveal_strlit("CLUBLOG_QSO_UPLOAD_STATUS");
                assert(differ_at("CONT"@, "CLUBLOG_QSO_UPLOAD_STATUS"@, 0));
                reveal_strlit("CNTY");
                assert(differ_at("CONT"@, "CNTY"@, 1));
                reveal_strlit("COMMENT");
                assert(differ_at("CONT"@, "COMMENT"@, 0));
                reveal_strlit("COMMENT_INTL");
                assert(differ_at("CONT"@, "COMMENT_INTL"@, 0));
                assert(token_chars("CONT"@));
            },
            QSOFieldName::CONTACTED_OP => {
                reveal_strlit("CONTACTED_OP");
                reveal_strlit("ADDRESS");
                assert(differ_at("CONTACTED_OP"@, "ADDRESS"@, 0));
                reveal_strlit("ADDRESS_INTL");
                assert(differ_at("CONTACTED_OP"@, "ADDRESS_INTL"@, 0));
                reveal_strlit("AGE");
                assert(differ_at("CONTACTED_OP"@, "AGE"@, 0));
                reveal_strlit("ANT_AZ");
                assert(differ_at("CONTACTED_OP"@, "ANT_AZ"@, 0));
                reveal_strlit("ANT_EL");
                assert(differ_at("CONTACTED_OP"@, "ANT_EL"@, 0));
                reveal_strlit("ANT_PATH");
                assert(differ_at("CONTACTED_OP"@, "ANT_PATH"@, 0));
                reveal_strlit("A_INDEX");
                assert(differ_at("CONTACTED_OP"@, "A_INDEX"@, 0));
                reveal_strlit("AWARD_GRANTED");
                assert(differ_at("CONTACTED_OP"@, "AWARD_GRANTED"@, 0));
                reveal_strlit("AWARD_SUBMITTED");
                assert(differ_at("CONTACTED_OP"@, "AWARD_SUBMITTED"@, 0));
                reveal_strlit("BAND");
                assert(differ_at("CONTACTED_OP"@, "BAND"@, 0));
                reveal_strlit("BAND_RX");
                assert(differ_at("CONTACTED_OP"@, "BAND_RX"@, 0));
                reveal_strlit("CALL");
                assert(differ_at("CONTACTED_OP"@, "CALL"@, 0));
                reveal_strlit("CHECK");
                assert(differ_at("CONTACTED_OP"@, "CHECK"@, 0));
                reveal_strlit("CLASS");
                assert(differ_at("CONTACTED_OP"@, "CLASS"@, 0));
                reveal_strlit("CLUBLOG_QSO_UPLOAD_DATE");
                assert(differ_at("CONTACTED_OP"@, "CLUBLOG_QSO_UPLOAD_DATE"@, 0));
                reveal_strlit("CLUBLOG_QSO_UPLOAD_STATUS");
                assert(differ_at("CONTACTED_OP"@, "CLUBLOG_QSO_UPLOAD_STATUS"@, 0));
                reveal_strlit("CNTY");
                assert(differ_at("CONTACTED_OP"@, "CNTY"@, 0));
                reveal_strlit("COMMENT");
                assert(differ_at("CONTACTED_OP"@, "COMMENT"@, 0));
                reveal_strlit("COMMENT_INTL");
                assert(differ_at("CONTACTED_OP"@, "COMMENT_INTL"@, 2));
                reveal_strlit("CONT");
                assert(differ_at("CONTACTED_OP"@, "CONT"@, 0));
                assert(token_chars("CONTACTED_OP"@));
            },
            QSOFieldName::CONTEST_ID => {
                reveal_strlit("CONTEST_ID");
                reveal_strlit("ADDRESS");
                assert(differ_at("CONTEST_ID"@, "ADDRESS"@, 0));
                reveal_strlit("ADDRESS_INTL");
                assert(differ_at("CONTEST_ID"@, "ADDRESS_INTL"@, 0));
                reveal_strlit("AGE");
                assert(differ_at("CONTEST_ID"@, "AGE"@, 0));
                reveal_strlit("ANT_AZ");
                assert(differ_at("CONTEST_ID"@, "ANT_AZ"@, 0));
                reveal_strlit("ANT_EL");
                assert(differ_at("CONTEST_ID"@, "ANT_EL"@, 0));
                reveal_strlit("ANT_PATH");
                assert(differ_at("CONTEST_ID"@, "ANT_PATH"@, 0));
                reveal_strlit("A_INDEX");
                assert(differ_at("CONTEST_ID"@, "A_INDEX"@, 0));
                reveal_strlit("AWARD_GRANTED");
                assert(differ_at("CONTEST_ID"@, "AWARD_GRANTED"@, 0));
                reveal_strlit("AWARD_SUBMITTED");
                assert(differ_at("CONTEST_ID"@, "AWARD_SUBMITTED"@, 0));
                reveal_strlit("BAND");
                assert(differ_at("CONTEST_ID"@, "BAND"@, 0));
                reveal_strlit("BAND_RX");
                assert(differ_at("CONTEST_ID"@, "BAND_RX"@, 0));
                reveal_strlit("CALL");
                assert(differ_at("CONTEST_ID"@, "CALL"@, 0));
                reveal_strlit("CHECK");
                assert(differ_at("CONTEST_ID"@, "CHECK"@, 0));
                reveal_strlit("CLASS");
                assert(differ_at("CONTEST_ID"@, "CLASS"@, 0));
                reveal_strlit("CLUBLOG_QSO_UPLOAD_DATE");
                assert(differ_at("CONTEST_ID"@, "CLUBLOG_QSO_UPLOAD_DATE"@, 0));
                reveal_strlit("CLUBLOG_QSO_UPLOAD_STATUS");
                assert(differ_at("CONTEST_ID"@, "CLUBLOG_QSO_UPLOAD_STATUS"@, 0));
                reveal_strlit("CNTY");
                assert(differ_at("CONTEST_ID"@, "CNTY"@, 0));
                reveal_strlit("COMMENT");
                assert(differ_at("CONTEST_ID"@, "COMMENT"@, 0));
                reveal_strlit("COMMENT_INTL");
                assert(differ_at("CONTEST_ID"@, "COMMENT_INTL"@, 0));
                reveal_strlit("CONT");
                assert(differ_at("CONTEST_ID"@, "CONT"@, 0));
                reveal_strlit("CONTACTED_OP");
                assert(differ_at("CONTEST_ID"@, "CONTACTED_OP"@, 0));
                assert(token_chars("CONTEST_ID"@));
            },
            QSOFieldName::COUNTRY => {
                reveal_strlit("COUNTRY");
                reveal_strlit("ADDRESS");
                assert(differ_at("COUNTRY"@, "ADDRESS"@, 0));
                reveal_strlit("ADDRESS_INTL");
                assert(differ_at("COUNTRY"@, "ADDRESS_INTL"@, 0));
                reveal_strlit("AGE");
                assert(differ_at("COUNTRY"@, "AGE"@, 0));
                reveal_strlit("ANT_AZ");
                assert(differ_at("COUNTRY"@, "ANT_AZ"@, 0));
                reveal_strlit("ANT_EL");
                assert(differ_at("COUNTRY"@, "ANT_EL"@, 0));
                reveal_strlit("ANT_PATH");
                assert(differ_at("COUNTRY"@, "ANT_PATH"@, 0));
                reveal_strlit("A_INDEX");
                assert(differ_at("COUNTRY"@, "A_INDEX"@, 0));
                reveal_strlit("AWARD_GRANTED");
                assert(differ_at("COUNTRY"@, "AWARD_GRANTED"@, 0));
                reveal_strlit("AWARD_SUBMITTED");
                assert(differ_at("COUNTRY"@, "AWARD_SUBMITTED"@, 0));
                reveal_strlit("BAND");
                assert(differ_at("COUNTRY"@, "BAND"@, 0));
                reveal_strlit("BAND_RX");
                assert(differ_at("COUNTRY"@, "BAND_RX"@, 0));
                reveal_strlit("CALL");
                assert(differ_at("COUNTRY"@, "CALL"@, 0));
                reveal_strlit("CHECK");
                assert(differ_at("COUNTRY"@, "CHECK"@, 0));
                reveal_strlit("CLASS");
                assert(differ_at("COUNTRY"@, "CLASS"@, 0));
                reveal_strlit("CLUBLOG_QSO_UPLOAD_DATE");
                assert(differ_at("COUNTRY"@, "CLUBLOG_QSO_UPLOAD_DATE"@, 0));
                reveal_strlit("CLUBLOG_QSO_UPLOAD_STATUS");
                assert(differ_at("COUNTRY"@, "CLUBLOG_QSO_UPLOAD_STATUS"@, 0));
                reveal_strlit("CNTY");
                assert(differ_at("COUNTRY"@, "CNTY"@, 0));
                reveal_strlit("COMMENT");
                assert(differ_at("COUNTRY"@, "COMMENT"@, 2));
                reveal_strlit("COMMENT_INTL");
                assert(differ_at("COUNTRY"@, "COMMENT_INTL"@, 0));
                reveal_strlit("CONT");
                assert(differ_at("COUNTRY"@, "CONT"@, 0));
                reveal_strlit("CONTACTED_OP");
                assert(differ_at("COUNTRY"@, "CONTACTED_OP"@, 0));
                reveal_strlit("CONTEST_ID");
                assert(differ_at("COUNTRY"@, "CONTEST_ID"@, 0));
                assert(token_chars("COUNTRY"@));
            },
            QSOFieldName::CQZ => {
                reveal_strlit("CQZ");
                reveal_strlit("ADDRESS");
                assert(differ_at("CQZ"@, "ADDRESS"@, 0));
                reveal_strlit("ADDRESS_INTL");
                assert(differ_at("CQZ"@, "ADDRESS_INTL"@, 0));
                reveal_strlit("AGE");
                assert(differ_at("CQZ"@, "AGE"@, 0));
                reveal_strlit("ANT_AZ");
                assert(differ_at("CQZ"@, "ANT_AZ"@, 0));
                reveal_strlit("ANT_EL");
                assert(differ_at("CQZ"@, "ANT_EL"@, 0));
                reveal_strlit("ANT_PATH");
                assert(differ_at("CQZ"@, "ANT_PATH"@, 0));
                reveal_strlit("A_INDEX");
                assert(differ_at("CQZ"@, "A_INDEX"@, 0));
                reveal_strlit("AWARD_GRANTED");
                assert(differ_at("CQZ"@, "AWARD_GRANTED"@, 0));
                reveal_strlit("AWARD_SUBMITTED");
                assert(differ_at("CQZ"@, "AWARD_SUBMITTED"@, 0));
                reveal_strlit("BAND");
                assert(differ_at("CQZ"@, "BAND"@, 0));
                reveal_strlit("BAND_RX");
                assert(differ_at("CQZ"@, "BAND_RX"@, 0));
                reveal_strlit("CALL");
                assert(differ_at("CQZ"@, "CALL"@, 0));
                reveal_strlit("CHECK");
                assert(differ_at("CQZ"@, "CHECK"@, 0));
                reveal_strlit("CLASS");
                assert(differ_at("CQZ"@, "CLASS"@, 0));
                reveal_strlit("CLUBLOG_QSO_UPLOAD_DATE");
                assert(differ_at("CQZ"@, "CLUBLOG_QSO_UPLOAD_DATE"@, 0));
                reveal_strlit("CLUBLOG_QSO_UPLOAD_STATUS");
                assert(differ_at("CQZ"@, "CLUBLOG_QSO_UPLOAD_STATUS"@, 0));
                reveal_strlit("CNTY");
                assert(differ_at("CQZ"@, "CNTY"@, 0));
                reveal_strlit("COMMENT");
                assert(differ_at("CQZ"@, "COMMENT"@, 0));
                reveal_strlit("COMMENT_INTL");
                assert(differ_at("CQZ"@, "COMMENT_INTL"@, 0));
                reveal_strlit("CONT");
                assert(differ_at("CQZ"@, "CONT"@, 0));
                reveal_strlit("CONTACTED_OP");
                assert(differ_at("CQZ"@, "CONTACTED_OP"@, 0));
                reveal_strlit("CONTEST_ID");
                assert(differ_at("CQZ"@, "CONTEST_ID"@, 0));
                reveal_strlit("COUNTRY");
                assert(differ_at("CQZ"@, "COUNTRY"@, 0));
                assert(token_chars("CQZ"@));
            },
            QSOFieldName::DXCC => {
                reveal_strlit("DXCC");
                reveal_strlit("ADDRESS");
                assert(differ_at("DXCC"@, "ADDRESS"@, 0));
                reveal_strlit("ADDRESS_INTL");
                assert(differ_at("DXCC"@, "ADDRESS_INTL"@, 0));
                reveal_strlit("AGE");
                assert(differ_at("DXCC"@, "AGE"@, 0));
                reveal_strlit("ANT_AZ");
                assert(differ_at("DXCC"@, "ANT_AZ"@, 0));
                reveal_strlit("ANT_EL");
                assert(differ_at("DXCC"@, "ANT_EL"@, 0));
                reveal_strlit("ANT_PATH");
                assert(differ_at("DXCC"@, "ANT_PATH"@, 0));
                reveal_strlit("A_INDEX");
                assert(differ_at("DXCC"@, "A_INDEX"@, 0));
                reveal_strlit("AWARD_GRANTED");
                assert(differ_at("DXCC"@, "AWARD_GRANTED"@, 0));
                reveal_strlit("AWARD_SUBMITTED");
                assert(differ_at("DXCC"@, "AWARD_SUBMITTED"@, 0));
                reveal_strlit("BAND");
                assert(differ_at("DXCC"@, "BAND"@, 0));
                reveal_strlit("BAND_RX");
                assert(differ_at("DXCC"@, "BAND_RX"@, 0));
                reveal_strlit("CALL");
                assert(differ_at("DXCC"@, "CALL"@, 0));
                reveal_strlit("CHECK");
                assert(differ_at("DXCC"@, "CHECK"@, 0));
                reveal_strlit("CLASS");
                assert(differ_at("DXCC"@, "CLASS"@, 0));
                reveal_strlit("CLUBLOG_QSO_UPLOAD_DATE");
                assert(differ_at("DXCC"@, "CLUBLOG_QSO_UPLOAD_DATE"@, 0));
                reveal_strlit("CLUBLOG_QSO_UPLOAD_STATUS");
                assert(differ_at("DXCC"@, "CLUBLOG_QSO_UPLOAD_STATUS"@, 0));
                reveal_strlit("CNTY");
                assert(differ_at("DXCC"@, "CNTY"@, 0));
                reveal_strlit("COMMENT");
                assert(differ_at("DXCC"@, "COMMENT"@, 0));
                reveal_strlit("COMMENT_INTL");
                assert(differ_at("DXCC"@, "COMMENT_INTL"@, 0));
                reveal_strlit("CONT");
                assert(differ_at("DXCC"@, "CONT"@, 0));
                reveal_strlit("CONTACTED_OP");
                assert(differ_at("DXCC"@, "CONTACTED_OP"@, 0));
                reveal_strlit("CONTEST_ID");
                assert(differ_at("DXCC"@, "CONTEST_ID"@, 0));
                reveal_strlit("COUNTRY");
                assert(differ_at("DXCC"@, "COUNTRY"@, 0));
                reveal_strlit("CQZ");
                assert(differ_at("DXCC"@, "CQZ"@, 0));
                assert(token_chars("DXCC"@));
            },
            QSOFieldName::EMAIL => {
                reveal_strlit("EMAIL");
                reveal_strlit("ADDRESS");
                assert(differ_at("EMAIL"@, "ADDRESS"@, 0));
                reveal_strlit("ADDRESS_INTL");
                assert(differ_at("EMAIL"@, "ADDRESS_INTL"@, 0));
                reveal_strlit("AGE");
                assert(differ_at("EMAIL"@, "AGE"@, 0));
                reveal_strlit("ANT_AZ");
                assert(differ_at("EMAIL"@, "ANT_AZ"@, 0));
                reveal_strlit("ANT_EL");
                assert(differ_at("EMAIL"@, "ANT_EL"@, 0));
                reveal_strlit("ANT_PATH");
                assert(differ_at("EMAIL"@, "ANT_PATH"@, 0));
                reveal_strlit("A_INDEX");
                assert(differ_at("EMAIL"@, "A_INDEX"@, 0));
                reveal_strlit("AWARD_GRANTED");
                assert(differ_at("EMAIL"@, "AWARD_GRANTED"@, 0));
                reveal_strlit("AWARD_SUBMITTED");
                assert(differ_at("EMAIL"@, "AWARD_SUBMITTED"@, 0));
                reveal_strlit("BAND");
                assert(differ_at("EMAIL"@, "BAND"@, 0));
                reveal_strlit("BAND_RX");
                assert(differ_at("EMAIL"@, "BAND_RX"@, 0));
                reveal_strlit("CALL");
                assert(differ_at("EMAIL"@, "CALL"@, 0));
                reveal_strlit("CHECK");
                assert(differ_at("EMAIL"@, "CHECK"@, 0));
                reveal_strlit("CLASS");
                assert(differ_at("EMAIL"@, "CLASS"@, 0));
                reveal_strlit("CLUBLOG_QSO_UPLOAD_DATE");
                assert(differ_at("EMAIL"@, "CLUBLOG_QSO_UPLOAD_DATE"@, 0));
                reveal_strlit("CLUBLOG_QSO_UPLOAD_STATUS");
                assert(differ_at("EMAIL"@, "CLUBLOG_QSO_UPLOAD_STATUS"@, 0));
                reveal_strlit("CNTY");
                assert(differ_at("EMAIL"@, "CNTY"@, 0));
                reveal_strlit("COMMENT");
                assert(differ_at("EMAIL"@, "COMMENT"@, 0));
                reveal_strlit("COMMENT_INTL");
                assert(differ_at("EMAIL"@, "COMMENT_INTL"@, 0));
                reveal_strlit("CONT");
                assert(differ_at("EMAIL"@, "CONT"@, 0));
                reveal_strlit("CONTACTED_OP");
                assert(differ_at("EMAIL"@, "CONTACTED_OP"@, 0));
                reveal_strlit("CONTEST_ID");
                assert(differ_at("EMAIL"@, "CONTEST_ID"@, 0));
                reveal_strlit("COUNTRY");
                assert(differ_at("EMAIL"@, "COUNTRY"@, 0));
                reveal_strlit("CQZ");
                assert(differ_at("EMAIL"@, "CQZ"@, 0));
                reveal_strlit("DXCC");
                assert(differ_at("EMAIL"@, "DXCC"@, 0));
                assert(token_chars("EMAIL"@));
            },
            QSOFieldName::EQSL_QSL_RCVD => {
                reveal_strlit("EQSL_QSL_RCVD");
                reveal_strlit("ADDRESS");
                assert(differ_at("EQSL_QSL_RCVD"@, "ADDRESS"@, 0));
                reveal_strlit("ADDRESS_INTL");
                assert(differ_at("EQSL_QSL_RCVD"@, "ADDRESS_INTL"@, 0));
                reveal_strlit("AGE");
                assert(differ_at("EQSL_QSL_RCVD"@, "AGE"@, 0));
                reveal_strlit("ANT_AZ");
                assert(differ_at("EQSL_QSL_RCVD"@, "ANT_AZ"@, 0));
                reveal_strlit("ANT_EL");
                assert(differ_at("EQSL_QSL_RCVD"@, "ANT_EL"@, 0));
                reveal_strlit("ANT_PATH");
                assert(differ_at("EQSL_QSL_RCVD"@, "ANT_PATH"@, 0));
                reveal_strlit("A_INDEX");
                assert(differ_at("EQSL_QSL_RCVD"@, "A_INDEX"@, 0));
                reveal_strlit("AWARD_GRANTED");
                assert(differ_at("EQSL_QSL_RCVD"@, "AWARD_GRANTED"@, 0));
                reveal_strlit("AWARD_SUBMITTED");
                assert(differ_at("EQSL_QSL_RCVD"@, "AWARD_SUBMITTED"@, 0));
                reveal_strlit("BAND");
                assert(differ_at("EQSL_QSL_RCVD"@, "BAND"@, 0));
                reveal_strlit("BAND_RX");
                assert(differ_at("EQSL_QSL_RCVD"@, "BAND_RX"@, 0));
                reveal_strlit("CALL");
                assert(differ_at("EQSL_QSL_RCVD"@, "CALL"@, 0));
                reveal_strlit("CHECK");
                assert(differ_at("EQSL_QSL_RCVD"@, "CHECK"@, 0));
                reveal_strlit("CLASS");
                assert(differ_at("EQSL_QSL_RCVD"@, "CLASS"@, 0));
                reveal_strlit("CLUBLOG_QSO_UPLOAD_DATE");
                assert(differ_at("EQSL_QSL_RCVD"@, "CLUBLOG_QSO_UPLOAD_DATE"@, 0));
                reveal_strlit("CLUBLOG_QSO_UPLOAD_STATUS");
                assert(differ_at("EQSL_QSL_RCVD"@, "CLUBLOG_QSO_UPLOAD_STATUS"@, 0));
                reveal_strlit("CNTY");
                assert(differ_at("EQSL_QSL_RCVD"@, "CNTY"@, 0));
                reveal_strlit("COMMENT");
                assert(differ_at("EQSL_QSL_RCVD"@, "COMMENT"@, 0));
                reveal_strlit("COMMENT_INTL");
                assert(differ_at("EQSL_QSL_RCVD"@, "COMMENT_INTL"@, 0));
                reveal_strlit("CONT");
                assert(differ_at("EQSL_QSL_RCVD"@, "CONT"@, 0));
                reveal_strlit("CONTACTED_OP");
                assert(differ_at("EQSL_QSL_RCVD"@, "CONTACTED_OP"@, 0));
                reveal_strlit("CONTEST_ID");
                assert(differ_at("EQSL_QSL_RCVD"@, "CONTEST_ID"@, 0));
                reveal_strlit("COUNTRY");
                assert(differ_at("EQSL_QSL_RCVD"@, "COUNTRY"@, 0));
                reveal_strlit("CQZ");
                assert(differ_at("EQSL_QSL_RCVD"@, "CQZ"@, 0));
                reveal_strlit("DXCC");
                assert(differ_at("EQSL_QSL_RCVD"@, "DXCC"@, 0));
                reveal_strlit("EMAIL");
                assert(differ_at("EQSL_QSL_RCVD"@, "EMAIL"@, 0));
                assert(token_chars("EQSL_QSL_RCVD"@));
            },
            QSOFieldName::EQSL_QSL_SENT => {
                reveal_strlit("EQSL_QSL_SENT");
                reveal_strlit("ADDRESS");
                assert(differ_at("EQSL_QSL_SENT"@, "ADDRESS"@, 0));
                reveal_strlit("ADDRESS_INTL");
                assert(differ_at("EQSL_QSL_SENT"@, "ADDRESS_INTL"@, 0));
                reveal_strlit("AGE");
                assert(differ_at("EQSL_QSL_SENT"@, "AGE"@, 0));
                reveal_strlit("ANT_AZ");
                assert(differ_at("EQSL_QSL_SENT"@, "ANT_AZ"@, 0));
                reveal_strlit("ANT_EL");
                assert(differ_at("EQSL_QSL_SENT"@, "ANT_EL"@, 0));
                reveal_strlit("ANT_PATH");
                assert(differ_at("EQSL_QSL_SENT"@, "ANT_PATH"@, 0));
                reveal_strlit("A_INDEX");
                assert(differ_at("EQSL_QSL_SENT"@, "A_INDEX"@, 0));
                reveal_strlit("AWARD_GRANTED");
                assert(differ_at("EQSL_QSL_SENT"@, "AWARD_GRANTED"@, 0));
                reveal_strlit("AWARD_SUBMITTED");
                assert(differ_at("EQSL_QSL_SENT"@, "AWARD_SUBMITTED"@, 0));
                reveal_strlit("BAND");
                assert(differ_at("EQSL_QSL_SENT"@, "BAND"@, 0));
                reveal_strlit("BAND_RX");
                assert(differ_at("EQSL_QSL_SENT"@, "BAND_RX"@, 0));
                reveal_strlit("CALL");
                assert(differ_at("EQSL_QSL_SENT"@, "CALL"@, 0));
                reveal_strlit("CHECK");
                assert(differ_at("EQSL_QSL_SENT"@, "CHECK"@, 0));
                reveal_strlit("CLASS");
                assert(differ_at("EQSL_QSL_SENT"@, "CLASS"@, 0));
                reveal_strlit("CLUBLOG_QSO_UPLOAD_DATE");
                assert(differ_at("EQSL_QSL_SENT"@, "CLUBLOG_QSO_UPLOAD_DATE"@, 0));
                reveal_strlit("CLUBLOG_QSO_UPLOAD_STATUS");
                assert(differ_at("EQSL_QSL_SENT"@, "CLUBLOG_QSO_UPLOAD_STATUS"@, 0));
                reveal_strlit("CNTY");
                assert(differ_at("EQSL_QSL_SENT"@, "CNTY"@, 0));
                reveal_strlit("COMMENT");
                assert(differ_at("EQSL_QSL_SENT"@, "COMMENT"@, 0));
                reveal_strlit("COMMENT_INTL");
                assert(differ_at("EQSL_QSL_SENT"@, "COMMENT_INTL"@, 0));
                reveal_strlit("CONT");
                assert(differ_at("EQSL_QSL_SENT"@, "CONT"@, 0));
                reveal_strlit("CONTACTED_OP");
                assert(differ_at("EQSL_QSL_SENT"@, "CONTACTED_OP"@, 0));
                reveal_strlit("CONTEST_ID");
                assert(differ_at("EQSL_QSL_SENT"@, "CONTEST_ID"@, 0));
                reveal_strlit("COUNTRY");
                assert(differ_at("EQSL_QSL_SENT"@, "COUNTRY"@, 0));
                reveal_strlit("CQZ");
                assert(differ_at("EQSL_QSL_SENT"@, "CQZ"@, 0));
                reveal_strlit("DXCC");
                assert(differ_at("EQSL_QSL_SENT"@, "DXCC"@, 0));
                reveal_strlit("EMAIL");
                assert(differ_at("EQSL_QSL_SENT"@, "EMAIL"@, 0));
                reveal_strlit("EQSL_QSL_RCVD");
                assert(differ_at("EQSL_QSL_SENT"@, "EQSL_QSL_RCVD"@, 9));
                assert(token_chars("EQSL_QSL_SENT"@));
            },
            QSOFieldName::FORCE_INIT => {
                reveal_strlit("FORCE_INIT");
                reveal_strlit("ADDRESS");
                assert(differ_at("FORCE_INIT"@, "ADDRESS"@, 0));
                reveal_strlit("ADDRESS_INTL");
                assert(differ_at("FORCE_INIT"@, "ADDRESS_INTL"@, 0));
                reveal_strlit("AGE");
                assert(differ_at("FORCE_INIT"@, "AGE"@, 0));
                reveal_strlit("ANT_AZ");
                assert(differ_at("FORCE_INIT"@, "ANT_AZ"@, 0));
                reveal_strlit("ANT_EL");
                assert(differ_at("FORCE_INIT"@, "ANT_EL"@, 0));
                reveal_strlit("ANT_PATH");
                assert(differ_at("FORCE_INIT"@, "ANT_PATH"@, 0));
                reveal_strlit("A_INDEX");
                assert(differ_at("FORCE_INIT"@, "A_INDEX"@, 0));
                reveal_strlit("AWARD_GRANTED");
                assert(differ_at("FORCE_INIT"@, "AWARD_GRANTED"@, 0));
                reveal_strlit("AWARD_SUBMITTED");
                assert(differ_at("FORCE_INIT"@, "AWARD_SUBMITTED"@, 0));
                reveal_strlit("BAND");
                assert(differ_at("FORCE_INIT"@, "BAND"@, 0));
                reveal_strlit("BAND_RX");
                assert(differ_at("FORCE_INIT"@, "BAND_RX"@, 0));
                reveal_strlit("CALL");
                assert(differ_at("FORCE_INIT"@, "CALL"@, 0));
                reveal_strlit("CHECK");
                assert(differ_at("FORCE_INIT"@, "CHECK"@, 0));
                reveal_strlit("CLASS");
                assert(differ_at("FORCE_INIT"@, "CLASS"@, 0));
                reveal_strlit("CLUBLOG_QSO_UPLOAD_DATE");
                assert(differ_at("FORCE_INIT"@, "CLUBLOG_QSO_UPLOAD_DATE"@, 0));
                reveal_strlit("CLUBLOG_QSO_UPLOAD_STATUS");
                assert(differ_at("FORCE_INIT"@, "CLUBLOG_QSO_UPLOAD_STATUS"@, 0));
                reveal_strlit("CNTY");
                assert(differ_at("FORCE_INIT"@, "CNTY"@, 0));
                reveal_strlit("COMMENT");
                assert(differ_at("FORCE_INIT"@, "COMMENT"@, 0));
                reveal_strlit("COMMENT_INTL");
                assert(differ_at("FORCE_INIT"@, "COMMENT_INTL"@, 0));
                reveal_strlit("CONT");
                assert(differ_at("FORCE_INIT"@, "CONT"@, 0));
                reveal_strlit("CONTACTED_OP");
                assert(differ_at("FORCE_INIT"@, "CONTACTED_OP"@, 0));
                reveal_strlit("CONTEST_ID");
                assert(differ_at("FORCE_INIT"@, "CONTEST_ID"@, 0));
                reveal_strlit("COUNTRY");
                assert(differ_at("FORCE_INIT"@, "COUNTRY"@, 0));
                reveal_strlit("CQZ");
                assert(differ_at("FORCE_INIT"@, "CQZ"@, 0));
                reveal_strlit("DXCC");
                assert(differ_at("FORCE_INIT"@, "DXCC"@, 0));
                reveal_strlit("EMAIL");
                assert(differ_at("FORCE_INIT"@, "EMAIL"@, 0));
                reveal_strlit("EQSL_QSL_RCVD");
                assert(differ_at("FORCE_INIT"@, "EQSL_QSL_RCVD"@, 0));
                reveal_strlit("EQSL_QSL_SENT");
                assert(differ_at("FORCE_INIT"@, "EQSL_QSL_SENT"@, 0));
                assert(token_chars("FORCE_INIT"@));
            },
            QSOFieldName::FREQ => {
                reveal_strlit("FREQ");
                reveal_strlit("ADDRESS");
                assert(differ_at("FREQ"@, "ADDRESS"@, 0));
                reveal_strlit("ADDRESS_INTL");
                assert(differ_at("FREQ"@, "ADDRESS_INTL"@, 0));
                reveal_strlit("AGE");
                assert(differ_at("FREQ"@, "AGE"@, 0));
                reveal_strlit("ANT_AZ");
                assert(differ_at("FREQ"@, "ANT_AZ"@, 0));
                reveal_strlit("ANT_EL");
                assert(differ_at("FREQ"@, "ANT_EL"@, 0));
                reveal_strlit("ANT_PATH");
                assert(differ_at("FREQ"@, "ANT_PATH"@, 0));
                reveal_strlit("A_INDEX");
                assert(differ_at("FREQ"@, "A_INDEX"@, 0));
                reveal_strlit("AWARD_GRANTED");
                assert(differ_at("FREQ"@, "AWARD_GRANTED"@, 0));
                reveal_strlit("AWARD_SUBMITTED");
                assert(differ_at("FREQ"@, "AWARD_SUBMITTED"@, 0));
                reveal_strlit("BAND");
                assert(differ_at("FREQ"@, "BAND"@, 0));
                reveal_strlit("BAND_RX");
                assert(differ_at("FREQ"@, "BAND_RX"@, 0));
                reveal_strlit("CALL");
                assert(differ_at("FREQ"@, "CALL"@, 0));
                reveal_strlit("CHECK");
                assert(differ_at("FREQ"@, "CHECK"@, 0));
                reveal_strlit("CLASS");
                assert(differ_at("FREQ"@, "CLASS"@, 0));
                reveal_strlit("CLUBLOG_QSO_UPLOAD_DATE");
                assert(differ_at("FREQ"@, "CLUBLOG_QSO_UPLOAD_DATE"@, 0));
                reveal_strlit("CLUBLOG_QSO_UPLOAD_STATUS");
                assert(differ_at("FREQ"@, "CLUBLOG_QSO_UPLOAD_STATUS"@, 0));
                reveal_strlit("CNTY");
                assert(differ_at("FREQ"@, "CNTY"@, 0));
                reveal_strlit("COMMENT");
                assert(differ_at("FREQ"@, "COMMENT"@, 0));
                reveal_strlit("COMMENT_INTL");
                assert(differ_at("FREQ"@, "COMMENT_INTL"@, 0));
                reveal_strlit("CONT");
                assert(differ_at("FREQ"@, "CONT"@, 0));
                reveal_strlit("CONTACTED_OP");
                assert(differ_at("FREQ"@, "CONTACTED_OP"@, 0));
                reveal_strlit("CONTEST_ID");
                assert(differ_at("FREQ"@, "CONTEST_ID"@, 0));
                reveal_strlit("COUNTRY");
                assert(differ_at("FREQ"@, "COUNTRY"@, 0));
                reveal_strlit("CQZ");
                assert(differ_at("FREQ"@, "CQZ"@, 0));
                reveal_strlit("DXCC");
                assert(differ_at("FREQ"@, "DXCC"@, 0));
                reveal_strlit("EMAIL");
                assert(differ_at("FREQ"@, "EMAIL"@, 0));
                reveal_strlit("EQSL_QSL_RCVD");
                assert(differ_at("FREQ"@, "EQSL_QSL_RCVD"@, 0));
                reveal_strlit("EQSL_QSL_SENT");
                assert(differ_at("FREQ"@, "EQSL_QSL_SENT"@, 0));
                reveal_strlit("FORCE_INIT");
                assert(differ_at("FREQ"@, "FORCE_INIT"@, 0));
                assert(token_chars("FREQ"@));
            },
            QSOFieldName::FREQ_RX => {
                reveal_strlit("FREQ_RX");
                reveal_strlit("ADDRESS");
                assert(differ_at("FREQ_RX"@, "ADDRESS"@, 0));
                reveal_strlit("ADDRESS_INTL");
                assert(differ_at("FREQ_RX"@, "ADDRESS_INTL"@, 0));
                reveal_strlit("AGE");
                assert(differ_at("FREQ_RX"@, "AGE"@, 0));
                reveal_strlit("ANT_AZ");
                assert(differ_at("FREQ_RX"@, "ANT_AZ"@, 0));
                reveal_strlit("ANT_EL");
                assert(differ_at("FREQ_RX"@, "ANT_EL"@, 0));
                reveal_strlit("ANT_PATH");
                assert(differ_at("FREQ_RX"@, "ANT_PATH"@, 0));
                reveal_strlit("A_INDEX");
                assert(differ_at("FREQ_RX"@, "A_INDEX"@, 0));
                reveal_strlit("AWARD_GRANTED");
                assert(differ_at("FREQ_RX"@, "AWARD_GRANTED"@, 0));
                reveal_strlit("AWARD_SUBMITTED");
                assert(differ_at("FREQ_RX"@, "AWARD_SUBMITTED"@, 0));
                reveal_strlit("BAND");
                assert(differ_at("FREQ_RX"@, "BAND"@, 0));
                reveal_strlit("BAND_RX");
                assert(differ_at("FREQ_RX"@, "BAND_RX"@, 0));
                reveal_strlit("CALL");
                assert(differ_at("FREQ_RX"@, "CALL"@, 0));
                reveal_strlit("CHECK");
                assert(differ_at("FREQ_RX"@, "CHECK"@, 0));
                reveal_strlit("CLASS");
                assert(differ_at("FREQ_RX"@, "CLASS"@, 0));
                reveal_strlit("CLUBLOG_QSO_UPLOAD_DATE");
                assert(differ_at("FREQ_RX"@, "CLUBLOG_QSO_UPLOAD_DATE"@, 0));
                reveal_strlit("CLUBLOG_QSO_UPLOAD_STATUS");
                assert(differ_at("FREQ_RX"@, "CLUBLOG_QSO_UPLOAD_STATUS"@, 0));
                reveal_strlit("CNTY");
                assert(differ_at("FREQ_RX"@, "CNTY"@, 0));
                reveal_strlit("COMMENT");
                assert(differ_at("FREQ_RX"@, "COMMENT"@, 0));
                reveal_strlit("COMMENT_INTL");
                assert(differ_at("FREQ_RX"@, "COMMENT_INTL"@, 0));
                reveal_strlit("CONT");
                assert(differ_at("FREQ_RX"@, "CONT"@, 0));
                reveal_strlit("CONTACTED_OP");
                assert(differ_at("FREQ_RX"@, "CONTACTED_OP"@, 0));
                reveal_strlit("CONTEST_ID");
                assert(differ_at("FREQ_RX"@, "CONTEST_ID"@, 0));
                reveal_strlit("COUNTRY");
                assert(differ_at("FREQ_RX"@, "COUNTRY"@, 0));
                reveal_strlit("CQZ");
                assert(differ_at("FREQ_RX"@, "CQZ"@, 0));
                reveal_strlit("DXCC");
                assert(differ_at("FREQ_RX"@, "DXCC"@, 0));
                reveal_strlit("EMAIL");
                assert(differ_at("FREQ_RX"@, "EMAIL"@, 0));
                reveal_strlit("EQSL_QSL_RCVD");
                assert(differ_at("FREQ_RX"@, "EQSL_QSL_RCVD"@, 0));
                reveal_strlit("EQSL_QSL_SENT");
                assert(differ_at("FREQ_RX"@, "EQSL_QSL_SENT"@, 0));
                reveal_strlit("FORCE_INIT");
                assert(differ_at("FREQ_RX"@, "FORCE_INIT"@, 0));
                reveal_strlit("FREQ");
                assert(differ_at("FREQ_RX"@, "FREQ"@, 0));
                assert(token_chars("FREQ_RX"@));
            },
            QSOFieldName::GRIDSQUARE => {
                reveal_strlit("GRIDSQUARE");
                reveal_strlit("ADDRESS");
                assert(differ_at("GRIDSQUARE"@, "ADDRESS"@, 0));
                reveal_strlit("ADDRESS_INTL");
                assert(differ_at("GRIDSQUARE"@, "ADDRESS_INTL"@, 0));
                reveal_strlit("AGE");
                assert(differ_at("GRIDSQUARE"@, "AGE"@, 0));
                reveal_strlit("ANT_AZ");
                assert(differ_at("GRIDSQUARE"@, "ANT_AZ"@, 0));
                reveal_strlit("ANT_EL");
                assert(differ_at("GRIDSQUARE"@, "ANT_EL"@, 0));
                reveal_strlit("ANT_PATH");
                assert(differ_at("GRIDSQUARE"@, "ANT_PATH"@, 0));
                reveal_strlit("A_INDEX");
                assert(differ_at("GRIDSQUARE"@, "A_INDEX"@, 0));
                reveal_strlit("AWARD_GRANTED");
                assert(differ_at("GRIDSQUARE"@, "AWARD_GRANTED"@, 0));
                reveal_strlit("AWARD_SUBMITTED");
                assert(differ_at("GRIDSQUARE"@, "AWARD_SUBMITTED"@, 0));
                reveal_strlit("BAND");
                assert(differ_at("GRIDSQUARE"@, "BAND"@, 0));
                reveal_strlit("BAND_RX");
                assert(differ_at("GRIDSQUARE"@, "BAND_RX"@, 0));
                reveal_strlit("CALL");
                assert(differ_at("GRIDSQUARE"@, "CALL"@, 0));
                reveal_strlit("CHECK");
                assert(differ_at("GRIDSQUARE"@, "CHECK"@, 0));
                reveal_strlit("CLASS");
                assert(differ_at("GRIDSQUARE"@, "CLASS"@, 0));
                reveal_strlit("CLUBLOG_QSO_UPLOAD_DATE");
                assert(differ_at("GRIDSQUARE"@, "CLUBLOG_QSO_UPLOAD_DATE"@, 0));
                reveal_strlit("CLUBLOG_QSO_UPLOAD_STATUS");
                assert(differ_at("GRIDSQUARE"@, "CLUBLOG_QSO_UPLOAD_STATUS"@, 0));
                reveal_strlit("CNTY");
                assert(differ_at("GRIDSQUARE"@, "CNTY"@, 0));
                reveal_strlit("COMMENT");
                assert(differ_at("GRIDSQUARE"@, "COMMENT"@, 0));
                reveal_strlit("COMMENT_INTL");
                assert(differ_at("GRIDSQUARE"@, "COMMENT_INTL"@, 0));
                reveal_strlit("CONT");
                assert(differ_at("GRIDSQUARE"@, "CONT"@, 0));
                reveal_strlit("CONTACTED_OP");
                assert(differ_at("GRIDSQUARE"@, "CONTACTED_OP"@, 0));
                reveal_strlit("CONTEST_ID");
                assert(differ_at("GRIDSQUARE"@, "CONTEST_ID"@, 0));
                reveal_strlit("COUNTRY");
                assert(differ_at("GRIDSQUARE"@, "COUNTRY"@, 0));
                reveal_strlit("CQZ");
                assert(differ_at("GRIDSQUARE"@, "CQZ"@, 0));
                reveal_strlit("DXCC");
                assert(differ_at("GRIDSQUARE"@, "DXCC"@, 0));
                reveal_strlit("EMAIL");
                assert(differ_at("GRIDSQUARE"@, "EMAIL"@, 0));
                reveal_strlit("EQSL_QSL_RCVD");
                assert(differ_at("GRIDSQUARE"@, "EQSL_QSL_RCVD"@, 0));
                reveal_strlit("EQSL_QSL_SENT");
                assert(differ_at("GRIDSQUARE"@, "EQSL_QSL_SENT"@, 0));
                reveal_strlit("FORCE_INIT");
                assert(differ_at("GRIDSQUARE"@, "FORCE_INIT"@, 0));
                reveal_strlit("FREQ");
                assert(differ_at("GRIDSQUARE"@, "FREQ"@, 0));
                reveal_strlit("FREQ_RX");
                assert(differ_at("GRIDSQUARE"@, "FREQ_RX"@, 0));
                assert(token_chars("GRIDSQUARE"@));
            },
            QSOFieldName::GRIDSQUARE_EXT => {
                reveal_strlit("GRIDSQUARE_EXT");
                reveal_strlit("ADDRESS");
                assert(differ_at("GRIDSQUARE_EXT"@, "ADDRESS"@, 0));
                reveal_strlit("ADDRESS_INTL");
                assert(differ_at("GRIDSQUARE_EXT"@, "ADDRESS_INTL"@, 0));
                reveal_strlit("AGE");
                assert(differ_at("GRIDSQUARE_EXT"@, "AGE"@, 0));
                reveal_strlit("ANT_AZ");
                assert(differ_at("GRIDSQUARE_EXT"@, "ANT_AZ"@, 0));
                reveal_strlit("ANT_EL");
                assert(differ_at("GRIDSQUARE_EXT"@, "ANT_EL"@, 0));
                reveal_strlit("ANT_PATH");
                assert(differ_at("GRIDSQUARE_EXT"@, "ANT_PATH"@, 0));
                reveal_strlit("A_INDEX");
                assert(differ_at("GRIDSQUARE_EXT"@, "A_INDEX"@, 0));
                reveal_strlit("AWARD_GRANTED");
                assert(differ_at("GRIDSQUARE_EXT"@, "AWARD_GRANTED"@, 0));
                reveal_strlit("AWARD_SUBMITTED");
                assert(differ_at("GRIDSQUARE_EXT"@, "AWARD_SUBMITTED"@, 0));
                reveal_strlit("BAND");
                assert(differ_at("GRIDSQUARE_EXT"@, "BAND"@, 0));
                reveal_strlit("BAND_RX");
                assert(differ_at("GRIDSQUARE_EXT"@, "BAND_RX"@, 0));
                reveal_strlit("CALL");
                assert(differ_at("GRIDSQUARE_EXT"@, "CALL"@, 0));
                reveal_strlit("CHECK");
                assert(differ_at("GRIDSQUARE_EXT"@, "CHECK"@, 0));
                reveal_strlit("CLASS");
                assert(differ_at("GRIDSQUARE_EXT"@, "CLASS"@, 0));
                reveal_strlit("CLUBLOG_QSO_UPLOAD_DATE");
                assert(differ_at("GRIDSQUARE_EXT"@, "CLUBLOG_QSO_UPLOAD_DATE"@, 0));
                reveal_strlit("CLUBLOG_QSO_UPLOAD_STATUS");
                assert(differ_at("GRIDSQUARE_EXT"@, "CLUBLOG_QSO_UPLOAD_STATUS"@, 0));
                reveal_strlit("CNTY");
                assert(differ_at("GRIDSQUARE_EXT"@, "CNTY"@, 0));
                reveal_strlit("COMMENT");
                assert(differ_at("GRIDSQUARE_EXT"@, "COMMENT"@, 0));
                reveal_strlit("COMMENT_INTL");
                assert(differ_at("GRIDSQUARE_EXT"@, "COMMENT_INTL"@, 0));
                reveal_strlit("CONT");
                assert(differ_at("GRIDSQUARE_EXT"@, "CONT"@, 0));
                reveal_strlit("CONTACTED_OP");
                assert(differ_at("GRIDSQUARE_EXT"@, "CONTACTED_OP"@, 0));
                reveal_strlit("CONTEST_ID");
                assert(differ_at("GRIDSQUARE_EXT"@, "CONTEST_ID"@, 0));
                reveal_strlit("COUNTRY");
                assert(differ_at("GRIDSQUARE_EXT"@, "COUNTRY"@, 0));
                reveal_strlit("CQZ");
                assert(differ_at("GRIDSQUARE_EXT"@, "CQZ"@, 0));
                reveal_strlit("DXCC");
                assert(differ_at("GRIDSQUARE_EXT"@, "DXCC"@, 0));
                reveal_strlit("EMAIL");
                assert(differ_at("GRIDSQUARE_EXT"@, "EMAIL"@, 0));
                reveal_strlit("EQSL_QSL_RCVD");
                assert(differ_at("GRIDSQUARE_EXT"@, "EQSL_QSL_RCVD"@, 0));
                reveal_strlit("EQSL_QSL_SENT");
                assert(differ_at("GRIDSQUARE_EXT"@, "EQSL_QSL_SENT"@, 0));
                reveal_strlit("FORCE_INIT");
                assert(differ_at("GRIDSQUARE_EXT"@, "FORCE_INIT"@, 0));
                reveal_strlit("FREQ");
                assert(differ_at("GRIDSQUARE_EXT"@, "FREQ"@, 0));
                reveal_strlit("FREQ_RX");
                assert(differ_at("GRIDSQUARE_EXT"@, "FREQ_RX"@, 0));
                reveal_strlit("GRIDSQUARE");
                assert(differ_at("GRIDSQUARE_EXT"@, "GRIDSQUARE"@, 0));
                assert(token_chars("GRIDSQUARE_EXT"@));
            },
            QSOFieldName::IOTA => {
                reveal_strlit("IOTA");
                reveal_strlit("ADDRESS");
                assert(differ_at("IOTA"@, "ADDRESS"@, 0));
                reveal_strlit("ADDRESS_INTL");
                assert(differ_at("IOTA"@, "ADDRESS_INTL"@, 0));
                reveal_strlit("AGE");
                assert(differ_at("IOTA"@, "AGE"@, 0));
                reveal_strlit("ANT_AZ");
                assert(differ_at("IOTA"@, "ANT_AZ"@, 0));
                reveal_strlit("ANT_EL");
                assert(differ_at("IOTA"@, "ANT_EL"@, 0));
                reveal_strlit("ANT_PATH");
                assert(differ_at("IOTA"@, "ANT_PATH"@, 0));
                reveal_strlit("A_INDEX");
                assert(differ_at("IOTA"@, "A_INDEX"@, 0));
                reveal_strlit("AWARD_GRANTED");
                assert(differ_at("IOTA"@, "AWARD_GRANTED"@, 0));
                reveal_strlit("AWARD_SUBMITTED");
                assert(differ_at("IOTA"@, "AWARD_SUBMITTED"@, 0));
                reveal_strlit("BAND");
                assert(differ_at("IOTA"@, "BAND"@, 0));
                reveal_strlit("BAND_RX");
                assert(differ_at("IOTA"@, "BAND_RX"@, 0));
                reveal_strlit("CALL");
                assert(differ_at("IOTA"@, "CALL"@, 0));
                reveal_strlit("CHECK");
                assert(differ_at("IOTA"@, "CHECK"@, 0));
                reveal_strlit("CLASS");
                assert(differ_at("IOTA"@, "CLASS"@, 0));
                reveal_strlit("CLUBLOG_QSO_UPLOAD_DATE");
                assert(differ_at("IOTA"@, "CLUBLOG_QSO_UPLOAD_DATE"@, 0));
                reveal_strlit("CLUBLOG_QSO_UPLOAD_STATUS");
                assert(differ_at("IOTA"@, "CLUBLOG_QSO_UPLOAD_STATUS"@, 0));
                reveal_strlit("CNTY");
                assert(differ_at("IOTA"@, "CNTY"@, 0));
                reveal_strlit("COMMENT");
                assert(differ_at("IOTA"@, "COMMENT"@, 0));
                reveal_strlit("COMMENT_INTL");
                assert(differ_at("IOTA"@, "COMMENT_INTL"@, 0));
                reveal_strlit("CONT");
                assert(differ_at("IOTA"@, "CONT"@, 0));
                reveal_strlit("CONTACTED_OP");
                assert(differ_at("IOTA"@, "CONTACTED_OP"@, 0));
                reveal_strlit("CONTEST_ID");
                assert(differ_at("IOTA"@, "CONTEST_ID"@, 0));
                reveal_strlit("COUNTRY");
                assert(differ_at("IOTA"@, "COUNTRY"@, 0));
                reveal_strlit("CQZ");
                assert(differ_at("IOTA"@, "CQZ"@, 0));
                reveal_strlit("DXCC");
                assert(differ_at("IOTA"@, "DXCC"@, 0));
                reveal_strlit("EMAIL");
                assert(differ_at("IOTA"@, "EMAIL"@, 0));
                reveal_strlit("EQSL_QSL_RCVD");
                assert(differ_at("IOTA"@, "EQSL_QSL_RCVD"@, 0));
                reveal_strlit("EQSL_QSL_SENT");
                assert(differ_at("IOTA"@, "EQSL_QSL_SENT"@, 0));
                reveal_strlit("FORCE_INIT");
                assert(differ_at("IOTA"@, "FORCE_INIT"@, 0));
                reveal_strlit("FREQ");
                assert(differ_at("IOTA"@, "FREQ"@, 0));
                reveal_strlit("FREQ_RX");
                assert(differ_at("IOTA"@, "FREQ_RX"@, 0));
                reveal_strlit("GRIDSQUARE");
                assert(differ_at("IOTA"@, "GRIDSQUARE"@, 0));
                reveal_strlit("GRIDSQUARE_EXT");
                assert(differ_at("IOTA"@, "GRIDSQUARE_EXT"@, 0));
                assert(token_chars("IOTA"@));
            },
            QSOFieldName::ITUZ => {
                reveal_strlit("ITUZ");
                reveal_strlit("ADDRESS");
                assert(differ_at("ITUZ"@, "ADDRESS"@, 0));
                reveal_strlit("ADDRESS_INTL");
                assert(differ_at("ITUZ"@, "ADDRESS_INTL"@, 0));
                reveal_strlit("AGE");
                assert(differ_at("ITUZ"@, "AGE"@, 0));
                reveal_strlit("ANT_AZ");
                assert(differ_at("ITUZ"@, "ANT_AZ"@, 0));
                reveal_strlit("ANT_EL");
                assert(differ_at("ITUZ"@, "ANT_EL"@, 0));
                reveal_strlit("ANT_PATH");
                assert(differ_at("ITUZ"@, "ANT_PATH"@, 0));
                reveal_strlit("A_INDEX");
                assert(differ_at("ITUZ"@, "A_INDEX"@, 0));
                reveal_strlit("AWARD_GRANTED");
                assert(differ_at("ITUZ"@, "AWARD_GRANTED"@, 0));
                reveal_strlit("AWARD_SUBMITTED");
                assert(differ_at("ITUZ"@, "AWARD_SUBMITTED"@, 0));
                reveal_strlit("BAND");
                assert(differ_at("ITUZ"@, "BAND"@, 0));
                reveal_strlit("BAND_RX");
                assert(differ_at("ITUZ"@, "BAND_RX"@, 0));
                reveal_strlit("CALL");
                assert(differ_at("ITUZ"@, "CALL"@, 0));
                reveal_strlit("CHECK");
                assert(differ_at("ITUZ"@, "CHECK"@, 0));
                reveal_strlit("CLASS");
                assert(differ_at("ITUZ"@, "CLASS"@, 0));
                reveal_strlit("CLUBLOG_QSO_UPLOAD_DATE");
                assert(differ_at("ITUZ"@, "CLUBLOG_QSO_UPLOAD_DATE"@, 0));
                reveal_strlit("CLUBLOG_QSO_UPLOAD_STATUS");
                assert(differ_at("ITUZ"@, "CLUBLOG_QSO_UPLOAD_STATUS"@, 0));
                reveal_strlit("CNTY");
                assert(differ_at("ITUZ"@, "CNTY"@, 0));
                reveal_strlit("COMMENT");
                assert(differ_at("ITUZ"@, "COMMENT"@, 0));
                reveal_strlit("COMMENT_INTL");
                assert(differ_at("ITUZ"@, "COMMENT_INTL"@, 0));
                reveal_strlit("CONT");
                assert(differ_at("ITUZ"@, "CONT"@, 0));
                reveal_strlit("CONTACTED_OP");
                assert(differ_at("ITUZ"@, "CONTACTED_OP"@, 0));
                reveal_strlit("CONTEST_ID");
                assert(differ_at("ITUZ"@, "CONTEST_ID"@, 0));
                reveal_strlit("COUNTRY");
                assert(differ_at("ITUZ"@, "COUNTRY"@, 0));
                reveal_strlit("CQZ");
                assert(differ_at("ITUZ"@, "CQZ"@, 0));
                reveal_strlit("DXCC");
                assert(differ_at("ITUZ"@, "DXCC"@, 0));
                reveal_strlit("EMAIL");
                assert(differ_at("ITUZ"@, "EMAIL"@, 0));
                reveal_strlit("EQSL_QSL_RCVD");
                assert(differ_at("ITUZ"@, "EQSL_QSL_RCVD"@, 0));
                reveal_strlit("EQSL_QSL_SENT");
                assert(differ_at("ITUZ"@, "EQSL_QSL_SENT"@, 0));
                reveal_strlit("FORCE_INIT");
                assert(differ_at("ITUZ"@, "FORCE_INIT"@, 0));
                reveal_strlit("FREQ");
                assert(differ_at("ITUZ"@, "FREQ"@, 0));
                reveal_strlit("FREQ_RX");
                assert(differ_at("ITUZ"@, "FREQ_RX"@, 0));
                reveal_strlit("GRIDSQUARE");
                assert(differ_at("ITUZ"@, "GRIDSQUARE"@, 0));
                reveal_strlit("GRIDSQUARE_EXT");
                assert(differ_at("ITUZ"@, "GRIDSQUARE_EXT"@, 0));
                reveal_strlit("IOTA");
                assert(differ_at("ITUZ"@, "IOTA"@, 1));
                assert(token_chars("ITUZ"@));
            },
            QSOFieldName::K_INDEX => {
                reveal_strlit("K_INDEX");
                reveal_strlit("ADDRESS");
                assert(differ_at("K_INDEX"@, "ADDRESS"@, 0));
                reveal_strlit("ADDRESS_INTL");
                assert(differ_at("K_INDEX"@, "ADDRESS_INTL"@, 0));
                reveal_strlit("AGE");
                assert(differ_at("K_INDEX"@, "AGE"@, 0));
                reveal_strlit("ANT_AZ");
                assert(differ_at("K_INDEX"@, "ANT_AZ"@, 0));
                reveal_strlit("ANT_EL");
                assert(differ_at("K_INDEX"@, "ANT_EL"@, 0));
                reveal_strlit("ANT_PATH");
                assert(differ_at("K_INDEX"@, "ANT_PATH"@, 0));
                reveal_strlit("A_INDEX");
                assert(differ_at("K_INDEX"@, "A_INDEX"@, 0));
                reveal_strlit("AWARD_GRANTED");
                assert(differ_at("K_INDEX"@, "AWARD_GRANTED"@, 0));
                reveal_strlit("AWARD_SUBMITTED");
                assert(differ_at("K_INDEX"@, "AWARD_SUBMITTED"@, 0));
                reveal_strlit("BAND");
                assert(differ_at("K_INDEX"@, "BAND"@, 0));
                reveal_strlit("BAND_RX");
                assert(differ_at("K_INDEX"@, "BAND_RX"@, 0));
                reveal_strlit("CALL");
                assert(differ_at("K_INDEX"@, "CALL"@, 0));
                reveal_strlit("CHECK");
                assert(differ_at("K_INDEX"@, "CHECK"@, 0));
                reveal_strlit("CLASS");
                assert(differ_at("K_INDEX"@, "CLASS"@, 0));
                reveal_strlit("CLUBLOG_QSO_UPLOAD_DATE");
                assert(differ_at("K_INDEX"@, "CLUBLOG_QSO_UPLOAD_DATE"@, 0));
                reveal_strlit("CLUBLOG_QSO_UPLOAD_STATUS");
                assert(differ_at("K_INDEX"@, "CLUBLOG_QSO_UPLOAD_STATUS"@, 0));
                reveal_strlit("CNTY");
                assert(differ_at("K_INDEX"@, "CNTY"@, 0));
                reveal_strlit("COMMENT");
                assert(differ_at("K_INDEX"@, "COMMENT"@, 0));
                reveal_strlit("COMMENT_INTL");
                assert(differ_at("K_INDEX"@, "COMMENT_INTL"@, 0));
                reveal_strlit("CONT");
                assert(differ_at("K_INDEX"@, "CONT"@, 0));
                reveal_strlit("CONTACTED_OP");
                assert(differ_at("K_INDEX"@, "CONTACTED_OP"@, 0));
                reveal_strlit("CONTEST_ID");
                assert(differ_at("K_INDEX"@, "CONTEST_ID"@, 0));
                reveal_strlit("COUNTRY");
                assert(differ_at("K_INDEX"@, "COUNTRY"@, 0));
                reveal_strlit("CQZ");
                assert(differ_at("K_INDEX"@, "CQZ"@, 0));
                reveal_strlit("DXCC");
                assert(differ_at("K_INDEX"@, "DXCC"@, 0));
                reveal_strlit("EMAIL");
                assert(differ_at("K_INDEX"@, "EMAIL"@, 0));
                reveal_strlit("EQSL_QSL_RCVD");
                assert(differ_at("K_INDEX"@, "EQSL_QSL_RCVD"@, 0));
                reveal_strlit("EQSL_QSL_SENT");
                assert(differ_at("K_INDEX"@, "EQSL_QSL_SENT"@, 0));
                reveal_strlit("FORCE_INIT");
                assert(differ_at("K_INDEX"@, "FORCE_INIT"@, 0));
                reveal_strlit("FREQ");
                assert(differ_at("K_INDEX"@, "FREQ"@, 0));
                reveal_strlit("FREQ_RX");
                assert(differ_at("K_INDEX"@, "FREQ_RX"@, 0));
                reveal_strlit("GRIDSQUARE");
                assert(differ_at("K_INDEX"@, "GRIDSQUARE"@, 0));
                reveal_strlit("GRIDSQUARE_EXT");
                assert(differ_at("K_INDEX"@, "GRIDSQUARE_EXT"@, 0));
                reveal_strlit("IOTA");
                assert(differ_at("K_INDEX"@, "IOTA"@, 0));
                reveal_strlit("ITUZ");
                assert(differ_at("K_INDEX"@, "ITUZ"@, 0));
                assert(token_chars("K_INDEX"@));
            },
            QSOFieldName::LAT => {
                reveal_strlit("LAT");
                reveal_strlit("ADDRESS");
                assert(differ_at("LAT"@, "ADDRESS"@, 0));
                reveal_strlit("ADDRESS_INTL");
                assert(differ_at("LAT"@, "ADDRESS_INTL"@, 0));
                reveal_strlit("AGE");
                assert(differ_at("LAT"@, "AGE"@, 0));
                reveal_strlit("ANT_AZ");
                assert(differ_at("LAT"@, "ANT_AZ"@, 0));
                reveal_strlit("ANT_EL");
                assert(differ_at("LAT"@, "ANT_EL"@, 0));
                reveal_strlit("ANT_PATH");
                assert(differ_at("LAT"@, "ANT_PATH"@, 0));
                reveal_strlit("A_INDEX");
                assert(differ_at("LAT"@, "A_INDEX"@, 0));
                reveal_strlit("AWARD_GRANTED");
                assert(differ_at("LAT"@, "AWARD_GRANTED"@, 0));
                reveal_strlit("AWARD_SUBMITTED");
                assert(differ_at("LAT"@, "AWARD_SUBMITTED"@, 0));
                reveal_strlit("BAND");
                assert(differ_at("LAT"@, "BAND"@, 0));
                reveal_strlit("BAND_RX");
                assert(differ_at("LAT"@, "BAND_RX"@, 0));
                reveal_strlit("CALL");
                assert(differ_at("LAT"@, "CALL"@, 0));
                reveal_strlit("CHECK");
                assert(differ_at("LAT"@, "CHECK"@, 0));
                reveal_strlit("CLASS");
                assert(differ_at("LAT"@, "CLASS"@, 0));
                reveal_strlit("CLUBLOG_QSO_UPLOAD_DATE");
                assert(differ_at("LAT"@, "CLUBLOG_QSO_UPLOAD_DATE"@, 0));
                reveal_strlit("CLUBLOG_QSO_UPLOAD_STATUS");
                assert(differ_at("LAT"@, "CLUBLOG_QSO_UPLOAD_STATUS"@, 0));
                reveal_strlit("CNTY");
                assert(differ_at("LAT"@, "CNTY"@, 0));
                reveal_strlit("COMMENT");
                assert(differ_at("LAT"@, "COMMENT"@, 0));
                reveal_strlit("COMMENT_INTL");
                assert(differ_at("LAT"@, "COMMENT_INTL"@, 0));
                reveal_strlit("CONT");
                assert(differ_at("LAT"@, "CONT"@, 0));
                reveal_strlit("CONTACTED_OP");
                assert(differ_at("LAT"@, "CONTACTED_OP"@, 0));
                reveal_strlit("CONTEST_ID");
                assert(differ_at("LAT"@, "CONTEST_ID"@, 0));
                reveal_strlit("COUNTRY");
                assert(differ_at("LAT"@, "COUNTRY"@, 0));
                reveal_strlit("CQZ");
                assert(differ_at("LAT"@, "CQZ"@, 0));
                reveal_strlit("DXCC");
                assert(differ_at("LAT"@, "DXCC"@, 0));
                reveal_strlit("EMAIL");
                assert(differ_at("LAT"@, "EMAIL"@, 0));
                reveal_strlit("EQSL_QSL_RCVD");
                assert(differ_at("LAT"@, "EQSL_QSL_RCVD"@, 0));
                reveal_strlit("EQSL_QSL_SENT");
                assert(differ_at("LAT"@, "EQSL_QSL_SENT"@, 0));
                reveal_strlit("FORCE_INIT");
                assert(differ_at("LAT"@, "FORCE_INIT"@, 0));
                reveal_strlit("FREQ");
                assert(differ_at("LAT"@, "FREQ"@, 0));
                reveal_strlit("FREQ_RX");
                assert(differ_at("LAT"@, "FREQ_RX"@, 0));
                reveal_strlit("GRIDSQUARE");
                assert(differ_at("LAT"@, "GRIDSQUARE"@, 0));
                reveal_strlit("GRIDSQUARE_EXT");
                assert(differ_at("LAT"@, "GRIDSQUARE_EXT"@, 0));
                reveal_strlit("IOTA");
                assert(differ_at("LAT"@, "IOTA"@, 0));
                reveal_strlit("ITUZ");
                assert(differ_at("LAT"@, "ITUZ"@, 0));
                reveal_strlit("K_INDEX");
                assert(differ_at("LAT"@, "K_INDEX"@, 0));
                assert(token_chars("LAT"@));
            },
            QSOFieldName::LON => {
                reveal_strlit("LON");
                reveal_strlit("ADDRESS");
                assert(differ_at("LON"@, "ADDRESS"@, 0));
                reveal_strlit("ADDRESS_INTL");
                assert(differ_at("LON"@, "ADDRESS_INTL"@, 0));
                reveal_strlit("AGE");
                assert(differ_at("LON"@, "AGE"@, 0));
                reveal_strlit("ANT_AZ");
                assert(differ_at("LON"@, "ANT_AZ"@, 0));
                reveal_strlit("ANT_EL");
                assert(differ_at("LON"@, "ANT_EL"@, 0));
                reveal_strlit("ANT_PATH");
                assert(differ_at("LON"@, "ANT_PATH"@, 0));
                reveal_strlit("A_INDEX");
                assert(differ_at("LON"@, "A_INDEX"@, 0));
                reveal_strlit("AWARD_GRANTED");
                assert(differ_at("LON"@, "AWARD_GRANTED"@, 0));
                reveal_strlit("AWARD_SUBMITTED");
                assert(differ_at("LON"@, "AWARD_SUBMITTED"@, 0));
                reveal_strlit("BAND");
                assert(differ_at("LON"@, "BAND"@, 0));
                reveal_strlit("BAND_RX");
                assert(differ_at("LON"@, "BAND_RX"@, 0));
                reveal_strlit("CALL");
                assert(differ_at("LON"@, "CALL"@, 0));
                reveal_strlit("CHECK");
                assert(differ_at("LON"@, "CHECK"@, 0));
                reveal_strlit("CLASS");
                assert(differ_at("LON"@, "CLASS"@, 0));
                reveal_strlit("CLUBLOG_QSO_UPLOAD_DATE");
                assert(differ_at("LON"@, "CLUBLOG_QSO_UPLOAD_DATE"@, 0));
                reveal_strlit("CLUBLOG_QSO_UPLOAD_STATUS");
                assert(differ_at("LON"@, "CLUBLOG_QSO_UPLOAD_STATUS"@, 0));
                reveal_strlit("CNTY");
                assert(differ_at("LON"@, "CNTY"@, 0));
                reveal_strlit("COMMENT");
                assert(differ_at("LON"@, "COMMENT"@, 0));
                reveal_strlit("COMMENT_INTL");
                assert(differ_at("LON"@, "COMMENT_INTL"@, 0));
                reveal_strlit("CONT");
                assert(differ_at("LON"@, "CONT"@, 0));
                reveal_strlit("CONTACTED_OP");
                assert(differ_at("LON"@, "CONTACTED_OP"@, 0));
                reveal_strlit("CONTEST_ID");
                assert(differ_at("LON"@, "CONTEST_ID"@, 0));
                reveal_strlit("COUNTRY");
                assert(differ_at("LON"@, "COUNTRY"@, 0));
                reveal_strlit("CQZ");
                assert(differ_at("LON"@, "CQZ"@, 0));
                reveal_strlit("DXCC");
                assert(differ_at("LON"@, "DXCC"@, 0));
                reveal_strlit("EMAIL");
                assert(differ_at("LON"@, "EMAIL"@, 0));
                reveal_strlit("EQSL_QSL_RCVD");
                assert(differ_at("LON"@, "EQSL_QSL_RCVD"@, 0));
                reveal_strlit("EQSL_QSL_SENT");
                assert(differ_at("LON"@, "EQSL_QSL_SENT"@, 0));
                reveal_strlit("FORCE_INIT");
                assert(differ_at("LON"@, "FORCE_INIT"@, 0));
                reveal_strlit("FREQ");
                assert(differ_at("LON"@, "FREQ"@, 0));
                reveal_strlit("FREQ_RX");
                assert(differ_at("LON"@, "FREQ_RX"@, 0));
                reveal_strlit("GRIDSQUARE");
                assert(differ_at("LON"@, "GRIDSQUARE"@, 0));
                reveal_strlit("GRIDSQUARE_EXT");
                assert(differ_at("LON"@, "GRIDSQUARE_EXT"@, 0));
                reveal_strlit("IOTA");
                assert(differ_at("LON"@, "IOTA"@, 0));
                reveal_strlit("ITUZ");
                assert(differ_at("LON"@, "ITUZ"@, 0));
                reveal_strlit("K_INDEX");
                assert(differ_at("LON"@, "K_INDEX"@, 0));
                reveal_strlit("LAT");
                assert(differ_at("LON"@, "LAT"@, 1));
                assert(token_chars("LON"@));
            },
            QSOFieldName::LOTW_QSL_RCVD => {
                reveal_strlit("LOTW_QSL_RCVD");
                reveal_strlit("ADDRESS");
                assert(differ_at("LOTW_QSL_RCVD"@, "ADDRESS"@, 0));
                reveal_strlit("ADDRESS_INTL");
                assert(differ_at("LOTW_QSL_RCVD"@, "ADDRESS_INTL"@, 0));
                reveal_strlit("AGE");
                assert(differ_at("LOTW_QSL_RCVD"@, "AGE"@, 0));
                reveal_strlit("ANT_AZ");
                assert(differ_at("LOTW_QSL_RCVD"@, "ANT_AZ"@, 0));
                reveal_strlit("ANT_EL");
                assert(differ_at("LOTW_QSL_RCVD"@, "ANT_EL"@, 0));
                reveal_strlit("ANT_PATH");
                assert(differ_at("LOTW_QSL_RCVD"@, "ANT_PATH"@, 0));
                reveal_strlit("A_INDEX");
                assert(differ_at("LOTW_QSL_RCVD"@, "A_INDEX"@, 0));
                reveal_strlit("AWARD_GRANTED");
                assert(differ_at("LOTW_QSL_RCVD"@, "AWARD_GRANTED"@, 0));
                reveal_strlit("AWARD_SUBMITTED");
                assert(differ_at("LOTW_QSL_RCVD"@, "AWARD_SUBMITTED"@, 0));
                reveal_strlit("BAND");
                assert(differ_at("LOTW_QSL_RCVD"@, "BAND"@, 0));
                reveal_strlit("BAND_RX");
                assert(differ_at("LOTW_QSL_RCVD"@, "BAND_RX"@, 0));
                reveal_strlit("CALL");
                assert(differ_at("LOTW_QSL_RCVD"@, "CALL"@, 0));
                reveal_strlit("CHECK");
                assert(differ_at("LOTW_QSL_RCVD"@, "CHECK"@, 0));
                reveal_strlit("CLASS");
                assert(differ_at("LOTW_QSL_RCVD"@, "CLASS"@, 0));
                reveal_strlit("CLUBLOG_QSO_UPLOAD_DATE");
                assert(differ_at("LOTW_QSL_RCVD"@, "CLUBLOG_QSO_UPLOAD_DATE"@, 0));
                reveal_strlit("CLUBLOG_QSO_UPLOAD_STATUS");
                assert(differ_at("LOTW_QSL_RCVD"@, "CLUBLOG_QSO_UPLOAD_STATUS"@, 0));
                reveal_strlit("CNTY");
                assert(differ_at("LOTW_QSL_RCVD"@, "CNTY"@, 0));
                reveal_strlit("COMMENT");
                assert(differ_at("LOTW_QSL_RCVD"@, "COMMENT"@, 0));
                reveal_strlit("COMMENT_INTL");
                assert(differ_at("LOTW_QSL_RCVD"@, "COMMENT_INTL"@, 0));
                reveal_strlit("CONT");
                assert(differ_at("LOTW_QSL_RCVD"@, "CONT"@, 0));
                reveal_strlit("CONTACTED_OP");
                assert(differ_at("LOTW_QSL_RCVD"@, "CONTACTED_OP"@, 0));
                reveal_strlit("CONTEST_ID");
                assert(differ_at("LOTW_QSL_RCVD"@, "CONTEST_ID"@, 0));
                reveal_strlit("COUNTRY");
                assert(differ_at("LOTW_QSL_RCVD"@, "COUNTRY"@, 0));
                reveal_strlit("CQZ");
                assert(differ_at("LOTW_QSL_RCVD"@, "CQZ"@, 0));
                reveal_strlit("DXCC");
                assert(differ_at("LOTW_QSL_RCVD"@, "DXCC"@, 0));
                reveal_strlit("EMAIL");
                assert(differ_at("LOTW_QSL_RCVD"@, "EMAIL"@, 0));
                reveal_strlit("EQSL_QSL_RCVD");
                assert(differ_at("LOTW_QSL_RCVD"@, "EQSL_QSL_RCVD"@, 0));
                reveal_strlit("EQSL_QSL_SENT");
                assert(differ_at("LOTW_QSL_RCVD"@, "EQSL_QSL_SENT"@, 0));
                reveal_strlit("FORCE_INIT");
                assert(differ_at("LOTW_QSL_RCVD"@, "FORCE_INIT"@, 0));
                reveal_strlit("FREQ");
                assert(differ_at("LOTW_QSL_RCVD"@, "FREQ"@, 0));
                reveal_strlit("FREQ_RX");
                assert(differ_at("LOTW_QSL_RCVD"@, "FREQ_RX"@, 0));
                reveal_strlit("GRIDSQUARE");
                assert(differ_at("LOTW_QSL_RCVD"@, "GRIDSQUARE"@, 0));
                reveal_strlit("GRIDSQUARE_EXT");
                assert(differ_at("LOTW_QSL_RCVD"@, "GRIDSQUARE_EXT"@, 0));
                reveal_strlit("IOTA");
                assert(differ_at("LOTW_QSL_RCVD"@, "IOTA"@, 0));
                reveal_strlit("ITUZ");
                assert(differ_at("LOTW_QSL_RCVD"@, "ITUZ"@, 0));
                reveal_strlit("K_INDEX");
                assert(differ_at("LOTW_QSL_RCVD"@, "K_INDEX"@, 0));
                reveal_strlit("LAT");
                assert(differ_at("LOTW_QSL_RCVD"@, "LAT"@, 0));
                reveal_strlit("LON");
                assert(differ_at("LOTW_QSL_RCVD"@, "LON"@, 0));
                assert(token_chars("LOTW_QSL_RCVD"@));
            },
            QSOFieldName::LOTW_QSL_SENT => {
                reveal_strlit("LOTW_QSL_SENT");
                reveal_strlit("ADDRESS");
                assert(differ_at("LOTW_QSL_SENT"@, "ADDRESS"@, 0));
                reveal_strlit("ADDRESS_INTL");
                assert(differ_at("LOTW_QSL_SENT"@, "ADDRESS_INTL"@, 0));
                reveal_strlit("AGE");
                assert(differ_at("LOTW_QSL_SENT"@, "AGE"@, 0));
                reveal_strlit("ANT_AZ");
                assert(differ_at("LOTW_QSL_SENT"@, "ANT_AZ"@, 0));
                reveal_strlit("ANT_EL");
                assert(differ_at("LOTW_QSL_SENT"@, "ANT_EL"@, 0));
                reveal_strlit("ANT_PATH");
                assert(differ_at("LOTW_QSL_SENT"@, "ANT_PATH"@, 0));
                reveal_strlit("A_INDEX");
                assert(differ_at("LOTW_QSL_SENT"@, "A_INDEX"@, 0));
                reveal_strlit("AWARD_GRANTED");
                assert(differ_at("LOTW_QSL_SENT"@, "AWARD_GRANTED"@, 0));
                reveal_strlit("AWARD_SUBMITTED");
                assert(differ_at("LOTW_QSL_SENT"@, "AWARD_SUBMITTED"@, 0));
                reveal_strlit("BAND");
                assert(differ_at("LOTW_QSL_SENT"@, "BAND"@, 0));
                reveal_strlit("BAND_RX");
                assert(differ_at("LOTW_QSL_SENT"@, "BAND_RX"@, 0));
                reveal_strlit("CALL");
                assert(differ_at("LOTW_QSL_SENT"@, "CALL"@, 0));
                reveal_strlit("CHECK");
                assert(differ_at("LOTW_QSL_SENT"@, "CHECK"@, 0));
                reveal_strlit("CLASS");
                assert(differ_at("LOTW_QSL_SENT"@, "CLASS"@, 0));
                reveal_strlit("CLUBLOG_QSO_UPLOAD_DATE");
                assert(differ_at("LOTW_QSL_SENT"@, "CLUBLOG_QSO_UPLOAD_DATE"@, 0));
                reveal_strlit("CLUBLOG_QSO_UPLOAD_STATUS");
                assert(differ_at("LOTW_QSL_SENT"@, "CLUBLOG_QSO_UPLOAD_STATUS"@, 0));
                reveal_strlit("CNTY");
                assert(differ_at("LOTW_QSL_SENT"@, "CNTY"@, 0));
                reveal_strlit("COMMENT");
                assert(differ_at("LOTW_QSL_SENT"@, "COMMENT"@, 0));
                reveal_strlit("COMMENT_INTL");
                assert(differ_at("LOTW_QSL_SENT"@, "COMMENT_INTL"@, 0));
                reveal_strlit("CONT");
                assert(differ_at("LOTW_QSL_SENT"@, "CONT"@, 0));
                reveal_strlit("CONTACTED_OP");
                assert(differ_at("LOTW_QSL_SENT"@, "CONTACTED_OP"@, 0));
                reveal_strlit("CONTEST_ID");
                assert(differ_at("LOTW_QSL_SENT"@, "CONTEST_ID"@, 0));
                reveal_strlit("COUNTRY");
                assert(differ_at("LOTW_QSL_SENT"@, "COUNTRY"@, 0));
                reveal_strlit("CQZ");
                assert(differ_at("LOTW_QSL_SENT"@, "CQZ"@, 0));
                reveal_strlit("DXCC");
                assert(differ_at("LOTW_QSL_SENT"@, "DXCC"@, 0));
                reveal_strlit("EMAIL");
                assert(differ_at("LOTW_QSL_SENT"@, "EMAIL"@, 0));
                reveal_strlit("EQSL_QSL_RCVD");
                assert(differ_at("LOTW_QSL_SENT"@, "EQSL_QSL_RCVD"@, 0));
                reveal_strlit("EQSL_QSL_SENT");
                assert(differ_at("LOTW_QSL_SENT"@, "EQSL_QSL_SENT"@, 0));
                reveal_strlit("FORCE_INIT");
                assert(differ_at("LOTW_QSL_SENT"@, "FORCE_INIT"@, 0));
                reveal_strlit("FREQ");
                assert(differ_at("LOTW_QSL_SENT"@, "FREQ"@, 0));
                reveal_strlit("FREQ_RX");
                assert(differ_at("LOTW_QSL_SENT"@, "FREQ_RX"@, 0));
                reveal_strlit("GRIDSQUARE");
                assert(differ_at("LOTW_QSL_SENT"@, "GRIDSQUARE"@, 0));
                reveal_strlit("GRIDSQUARE_EXT");
                assert(differ_at("LOTW_QSL_SENT"@, "GRIDSQUARE_EXT"@, 0));
                reveal_strlit("IOTA");
                assert(differ_at("LOTW_QSL_SENT"@, "IOTA"@, 0));
                reveal_strlit("ITUZ");
                assert(differ_at("LOTW_QSL_SENT"@, "ITUZ"@, 0));
                reveal_strlit("K_INDEX");
                assert(differ_at("LOTW_QSL_SENT"@, "K_INDEX"@, 0));
                reveal_strlit("LAT");
                assert(differ_at("LOTW_QSL_SENT"@, "LAT"@, 0));
                reveal_strlit("LON");
                assert(differ_at("LOTW_QSL_SENT"@, "LON"@, 0));
                reveal_strlit("LOTW_QSL_RCVD");
                assert(differ_at("LOTW_QSL_SENT"@, "LOTW_QSL_RCVD"@, 9));
                assert(token_chars("LOTW_QSL_SENT"@));
            },
            QSOFieldName::MODE => {
                reveal_strlit("MODE");
                reveal_strlit("ADDRESS");
                assert(differ_at("MODE"@, "ADDRESS"@, 0));
                reveal_strlit("ADDRESS_INTL");
                assert(differ_at("MODE"@, "ADDRESS_INTL"@, 0));
                reveal_strlit("AGE");
                assert(differ_at("MODE"@, "AGE"@, 0));
                reveal_strlit("ANT_AZ");
                assert(differ_at("MODE"@, "ANT_AZ"@, 0));
                reveal_strlit("ANT_EL");
                assert(differ_at("MODE"@, "ANT_EL"@, 0));
                reveal_strlit("ANT_PATH");
                assert(differ_at("MODE"@, "ANT_PATH"@, 0));
                reveal_strlit("A_INDEX");
                assert(differ_at("MODE"@, "A_INDEX"@, 0));
                reveal_strlit("AWARD_GRANTED");
                assert(differ_at("MODE"@, "AWARD_GRANTED"@, 0));
                reveal_strlit("AWARD_SUBMITTED");
                assert(differ_at("MODE"@, "AWARD_SUBMITTED"@, 0));
                reveal_strlit("BAND");
                assert(differ_at("MODE"@, "BAND"@, 0));
                reveal_strlit("BAND_RX");
                assert(differ_at("MODE"@, "BAND_RX"@, 0));
                reveal_strlit("CALL");
                assert(differ_at("MODE"@, "CALL"@, 0));
                reveal_strlit("CHECK");
                assert(differ_at("MODE"@, "CHECK"@, 0));
                reveal_strlit("CLASS");
                assert(differ_at("MODE"@, "CLASS"@, 0));
                reveal_strlit("CLUBLOG_QSO_UPLOAD_DATE");
                assert(differ_at("MODE"@, "CLUBLOG_QSO_UPLOAD_DATE"@, 0));
                reveal_strlit("CLUBLOG_QSO_UPLOAD_STATUS");
                assert(differ_at("MODE"@, "CLUBLOG_QSO_UPLOAD_STATUS"@, 0));
                reveal_strlit("CNTY");
                assert(differ_at("MODE"@, "CNTY"@, 0));
                reveal_strlit("COMMENT");
                assert(differ_at("MODE"@, "COMMENT"@, 0));
                reveal_strlit("COMMENT_INTL");
                assert(differ_at("MODE"@, "COMMENT_INTL"@, 0));
                reveal_strlit("CONT");
                assert(differ_at("MODE"@, "CONT"@, 0));
                reveal_strlit("CONTACTED_OP");
                assert(differ_at("MODE"@, "CONTACTED_OP"@, 0));
                reveal_strlit("CONTEST_ID");
                assert(differ_at("MODE"@, "CONTEST_ID"@, 0));
                reveal_strlit("COUNTRY");
                assert(differ_at("MODE"@, "COUNTRY"@, 0));
                reveal_strlit("CQZ");
                assert(differ_at("MODE"@, "CQZ"@, 0));
                reveal_strlit("DXCC");
                assert(differ_at("MODE"@, "DXCC"@, 0));
                reveal_strlit("EMAIL");
                assert(differ_at("MODE"@, "EMAIL"@, 0));
                reveal_strlit("EQSL_QSL_RCVD");
                assert(differ_at("MODE"@, "EQSL_QSL_RCVD"@, 0));
                reveal_strlit("EQSL_QSL_SENT");
                assert(differ_at("MODE"@, "EQSL_QSL_SENT"@, 0));
                reveal_strlit("FORCE_INIT");
                assert(differ_at("MODE"@, "FORCE_INIT"@, 0));
                reveal_strlit("FREQ");
                assert(differ_at("MODE"@, "FREQ"@, 0));
                reveal_strlit("FREQ_RX");
                assert(differ_at("MODE"@, "FREQ_RX"@, 0));
                reveal_strlit("GRIDSQUARE");
                assert(differ_at("MODE"@, "GRIDSQUARE"@, 0));
                reveal_strlit("GRIDSQUARE_EXT");
                assert(differ_at("MODE"@, "GRIDSQUARE_EXT"@, 0));
                reveal_strlit("IOTA");
                assert(differ_at("MODE"@, "IOTA"@, 0));
                reveal_strlit("ITUZ");
                assert(differ_at("MODE"@, "ITUZ"@, 0));
                reveal_strlit("K_INDEX");
                assert(differ_at("MODE"@, "K_INDEX"@, 0));
                reveal_strlit("LAT");
                assert(differ_at("MODE"@, "LAT"@, 0));
                reveal_strlit("LON");
                assert(differ_at("MODE"@, "LON"@, 0));
                reveal_strlit("LOTW_QSL_RCVD");
                assert(differ_at("MODE"@, "LOTW_QSL_RCVD"@, 0));
                reveal_strlit("LOTW_QSL_SENT");
                assert(differ_at("MODE"@, "LOTW_QSL_SENT"@, 0));
                assert(token_chars("MODE"@));
            },
            QSOFieldName::MORSE_KEY_TYPE => {
                reveal_strlit("MORSE_KEY_TYPE");
                reveal_strlit("ADDRESS");
                assert(differ_at("MORSE_KEY_TYPE"@, "ADDRESS"@, 0));
                reveal_strlit("ADDRESS_INTL");
                assert(differ_at("MORSE_KEY_TYPE"@, "ADDRESS_INTL"@, 0));
                reveal_strlit("AGE");
                assert(differ_at("MORSE_KEY_TYPE"@, "AGE"@, 0));
                reveal_strlit("ANT_AZ");
                assert(differ_at("MORSE_KEY_TYPE"@, "ANT_AZ"@, 0));
                reveal_strlit("ANT_EL");
                assert(differ_at("MORSE_KEY_TYPE"@, "ANT_EL"@, 0));
                reveal_strlit("ANT_PATH");
                assert(differ_at("MORSE_KEY_TYPE"@, "ANT_PATH"@, 0));
                reveal_strlit("A_INDEX");
                assert(differ_at("MORSE_KEY_TYPE"@, "A_INDEX"@, 0));
                reveal_strlit("AWARD_GRANTED");
                assert(differ_at("MORSE_KEY_TYPE"@, "AWARD_GRANTED"@, 0));
                reveal_strlit("AWARD_SUBMITTED");
                assert(differ_at("MORSE_KEY_TYPE"@, "AWARD_SUBMITTED"@, 0));
                reveal_strlit("BAND");
                assert(differ_at("MORSE_KEY_TYPE"@, "BAND"@, 0));
                reveal_strlit("BAND_RX");
                assert(differ_at("MORSE_KEY_TYPE"@, "BAND_RX"@, 0));
                reveal_strlit("CALL");
                assert(differ_at("MORSE_KEY_TYPE"@, "CALL"@, 0));
                reveal_strlit("CHECK");
                assert(differ_at("MORSE_KEY_TYPE"@, "CHECK"@, 0));
                reveal_strlit("CLASS");
                assert(differ_at("MORSE_KEY_TYPE"@, "CLASS"@, 0));
                reveal_strlit("CLUBLOG_QSO_UPLOAD_DATE");
                assert(differ_at("MORSE_KEY_TYPE"@, "CLUBLOG_QSO_UPLOAD_DATE"@, 0));
                reveal_strlit("CLUBLOG_QSO_UPLOAD_STATUS");
                assert(differ_at("MORSE_KEY_TYPE"@, "CLUBLOG_QSO_UPLOAD_STATUS"@, 0));
                reveal_strlit("CNTY");
                assert(differ_at("MORSE_KEY_TYPE"@, "CNTY"@, 0));
                reveal_strlit("COMMENT");
                assert(differ_at("MORSE_KEY_TYPE"@, "COMMENT"@, 0));
                reveal_strlit("COMMENT_INTL");
                assert(differ_at("MORSE_KEY_TYPE"@, "COMMENT_INTL"@, 0));
                reveal_strlit("CONT");
                assert(differ_at("MORSE_KEY_TYPE"@, "CONT"@, 0));
                reveal_strlit("CONTACTED_OP");
                assert(differ_at("MORSE_KEY_TYPE"@, "CONTACTED_OP"@, 0));
                reveal_strlit("CONTEST_ID");
                assert(differ_at("MORSE_KEY_TYPE"@, "CONTEST_ID"@, 0));
                reveal_strlit("COUNTRY");
                assert(differ_at("MORSE_KEY_TYPE"@, "COUNTRY"@, 0));
                reveal_strlit("CQZ");
                assert(differ_at("MORSE_KEY_TYPE"@, "CQZ"@, 0));
                reveal_strlit("DXCC");
                assert(differ_at("MORSE_KEY_TYPE"@, "DXCC"@, 0));
                reveal_strlit("EMAIL");
                assert(differ_at("MORSE_KEY_TYPE"@, "EMAIL"@, 0));
                reveal_strlit("EQSL_QSL_RCVD");
                assert(differ_at("MORSE_KEY_TYPE"@, "EQSL_QSL_RCVD"@, 0));
                reveal_strlit("EQSL_QSL_SENT");
                assert(differ_at("MORSE_KEY_TYPE"@, "EQSL_QSL_SENT"@, 0));
                reveal_strlit("FORCE_INIT");
                assert(differ_at("MORSE_KEY_TYPE"@, "FORCE_INIT"@, 0));
                reveal_strlit("FREQ");
                assert(differ_at("MORSE_KEY_TYPE"@, "FREQ"@, 0));
                reveal_strlit("FREQ_RX");
                assert(differ_at("MORSE_KEY_TYPE"@, "FREQ_RX"@, 0));
                reveal_strlit("GRIDSQUARE");
                assert(differ_at("MORSE_KEY_TYPE"@, "GRIDSQUARE"@, 0));
                reveal_strlit("GRIDSQUARE_EXT");
                assert(differ_at("MORSE_KEY_TYPE"@, "GRIDSQUARE_EXT"@, 0));
                reveal_strlit("IOTA");
                assert(differ_at("MORSE_KEY_TYPE"@, "IOTA"@, 0));
                reveal_strlit("ITUZ");
                assert(differ_at("MORSE_KEY_TYPE"@, "ITUZ"@, 0));
                reveal_strlit("K_INDEX");
                assert(differ_at("MORSE_KEY_TYPE"@, "K_INDEX"@, 0));
                reveal_strlit("LAT");
                assert(differ_at("MORSE_KEY_TYPE"@, "LAT"@, 0));
                reveal_strlit("LON");
                assert(differ_at("MORSE_KEY_TYPE"@, "LON"@, 0));
                reveal_strlit("LOTW_QSL_RCVD");
                assert(differ_at("MORSE_KEY_TYPE"@, "LOTW_QSL_RCVD"@, 0));
                reveal_strlit("LOTW_QSL_SENT");
                assert(differ_at("MORSE_KEY_TYPE"@, "LOTW_QSL_SENT"@, 0));
                reveal_strlit("MODE");
                assert(differ_at("MORSE_KEY_TYPE"@, "MODE"@, 0));
                assert(token_chars("MORSE_KEY_TYPE"@));
            },
            QSOFieldName::MY_DXCC => {
                reveal_strlit("MY_DXCC");
                reveal_strlit("ADDRESS");
                assert(differ_at("MY_DXCC"@, "ADDRESS"@, 0));
                reveal_strlit("ADDRESS_INTL");
                assert(differ_at("MY_DXCC"@, "ADDRESS_INTL"@, 0));
                reveal_strlit("AGE");
                assert(differ_at("MY_DXCC"@, "AGE"@, 0));
                reveal_strlit("ANT_AZ");
                assert(differ_at("MY_DXCC"@, "ANT_AZ"@, 0));
                reveal_strlit("ANT_EL");
                assert(differ_at("MY_DXCC"@, "ANT_EL"@, 0));
                reveal_strlit("ANT_PATH");
                assert(differ_at("MY_DXCC"@, "ANT_PATH"@, 0));
                reveal_strlit("A_INDEX");
                assert(differ_at("MY_DXCC"@, "A_INDEX"@, 0));
                reveal_strlit("AWARD_GRANTED");
                assert(differ_at("MY_DXCC"@, "AWARD_GRANTED"@, 0));
                reveal_strlit("AWARD_SUBMITTED");
                assert(differ_at("MY_DXCC"@, "AWARD_SUBMITTED"@, 0));
                reveal_strlit("BAND");
                assert(differ_at("MY_DXCC"@, "BAND"@, 0));
                reveal_strlit("BAND_RX");
                assert(differ_at("MY_DXCC"@, "BAND_RX"@, 0));
                reveal_strlit("CALL");
                assert(differ_at("MY_DXCC"@, "CALL"@, 0));
                reveal_strlit("CHECK");
                assert(differ_at("MY_DXCC"@, "CHECK"@, 0));
                reveal_strlit("CLASS");
                assert(differ_at("MY_DXCC"@, "CLASS"@, 0));
                reveal_strlit("CLUBLOG_QSO_UPLOAD_DATE");
                assert(differ_at("MY_DXCC"@, "CLUBLOG_QSO_UPLOAD_DATE"@, 0));
                reveal_strlit("CLUBLOG_QSO_UPLOAD_STATUS");
                assert(differ_at("MY_DXCC"@, "CLUBLOG_QSO_UPLOAD_STATUS"@, 0));
                reveal_strlit("CNTY");
                assert(differ_at("MY_DXCC"@, "CNTY"@, 0));
                reveal_strlit("COMMENT");
                assert(differ_at("MY_DXCC"@, "COMMENT"@, 0));
                reveal_strlit("COMMENT_INTL");
                assert(differ_at("MY_DXCC"@, "COMMENT_INTL"@, 0));
                reveal_strlit("CONT");
                assert(differ_at("MY_DXCC"@, "CONT"@, 0));
                reveal_strlit("CONTACTED_OP");
                assert(differ_at("MY_DXCC"@, "CONTACTED_OP"@, 0));
                reveal_strlit("CONTEST_ID");
                assert(differ_at("MY_DXCC"@, "CONTEST_ID"@, 0));
                reveal_strlit("COUNTRY");
                assert(differ_at("MY_DXCC"@, "COUNTRY"@, 0));
                reveal_strlit("CQZ");
                assert(differ_at("MY_DXCC"@, "CQZ"@, 0));
                reveal_strlit("DXCC");
                assert(differ_at("MY_DXCC"@, "DXCC"@, 0));
                reveal_strlit("EMAIL");
                assert(differ_at("MY_DXCC"@, "EMAIL"@, 0));
                reveal_strlit("EQSL_QSL_RCVD");
                assert(differ_at("MY_DXCC"@, "EQSL_QSL_RCVD"@, 0));
                reveal_strlit("EQSL_QSL_SENT");
                assert(differ_at("MY_DXCC"@, "EQSL_QSL_SENT"@, 0));
                reveal_strlit("FORCE_INIT");
                assert(differ_at("MY_DXCC"@, "FORCE_INIT"@, 0));
                reveal_strlit("FREQ");
                assert(differ_at("MY_DXCC"@, "FREQ"@, 0));
                reveal_strlit("FREQ_RX");
                assert(differ_at("MY_DXCC"@, "FREQ_RX"@, 0));
                reveal_strlit("GRIDSQUARE");
                assert(differ_at("MY_DXCC"@, "GRIDSQUARE"@, 0));
                reveal_strlit("GRIDSQUARE_EXT");
                assert(differ_at("MY_DXCC"@, "GRIDSQUARE_EXT"@, 0));
                reveal_strlit("IOTA");
                assert(differ_at("MY_DXCC"@, "IOTA"@, 0));
                reveal_strlit("ITUZ");
                assert(differ_at("MY_DXCC"@, "ITUZ"@, 0));
                reveal_strlit("K_INDEX");
                assert(differ_at("MY_DXCC"@, "K_INDEX"@, 0));
                reveal_strlit("LAT");
                assert(differ_at("MY_DXCC"@, "LAT"@, 0));
                reveal_strlit("LON");
                assert(differ_at("MY_DXCC"@, "LON"@, 0));
                reveal_strlit("LOTW_QSL_RCVD");
                assert(differ_at("MY_DXCC"@, "LOTW_QSL_RCVD"@, 0));
                reveal_strlit("LOTW_QSL_SENT");
                assert(differ_at("MY_DXCC"@, "LOTW_QSL_SENT"@, 0));
                reveal_strlit("MODE");
                assert(differ_at("MY_DXCC"@, "MODE"@, 0));
                reveal_strlit("MORSE_KEY_TYPE");
                assert(differ_at("MY_DXCC"@, "MORSE_KEY_TYPE"@, 0));
                assert(token_chars("MY_DXCC"@));
            },
            QSOFieldName::MY_GRIDSQUARE => {
                reveal_strlit("MY_GRIDSQUARE");
                reveal_strlit("ADDRESS");
                assert(differ_at("MY_GRIDSQUARE"@, "ADDRESS"@, 0));
                reveal_strlit("ADDRESS_INTL");
                assert(differ_at("MY_GRIDSQUARE"@, "ADDRESS_INTL"@, 0));
                reveal_strlit("AGE");
                assert(differ_at("MY_GRIDSQUARE"@, "AGE"@, 0));
                reveal_strlit("ANT_AZ");
                assert(differ_at("MY_GRIDSQUARE"@, "ANT_AZ"@, 0));
                reveal_strlit("ANT_EL");
                assert(differ_at("MY_GRIDSQUARE"@, "ANT_EL"@, 0));
                reveal_strlit("ANT_PATH");
                assert(differ_at("MY_GRIDSQUARE"@, "ANT_PATH"@, 0));
                reveal_strlit("A_INDEX");
                assert(differ_at("MY_GRIDSQUARE"@, "A_INDEX"@, 0));
                reveal_strlit("AWARD_GRANTED");
                assert(differ_at("MY_GRIDSQUARE"@, "AWARD_GRANTED"@, 0));
                reveal_strlit("AWARD_SUBMITTED");
                assert(differ_at("MY_GRIDSQUARE"@, "AWARD_SUBMITTED"@, 0));
                reveal_strlit("BAND");
                assert(differ_at("MY_GRIDSQUARE"@, "BAND"@, 0));
                reveal_strlit("BAND_RX");
                assert(differ_at("MY_GRIDSQUARE"@, "BAND_RX"@, 0));
                reveal_strlit("CALL");
                assert(differ_at("MY_GRIDSQUARE"@, "CALL"@, 0));
                reveal_strlit("CHECK");
                assert(differ_at("MY_GRIDSQUARE"@, "CHECK"@, 0));
                reveal_strlit("CLASS");
                assert(differ_at("MY_GRIDSQUARE"@, "CLASS"@, 0));
                reveal_strlit("CLUBLOG_QSO_UPLOAD_DATE");
                assert(differ_at("MY_GRIDSQUARE"@, "CLUBLOG_QSO_UPLOAD_DATE"@, 0));
                reveal_strlit("CLUBLOG_QSO_UPLOAD_STATUS");
                assert(differ_at("MY_GRIDSQUARE"@, "CLUBLOG_QSO_UPLOAD_STATUS"@, 0));
                reveal_strlit("CNTY");
                assert(differ_at("MY_GRIDSQUARE"@, "CNTY"@, 0));
                reveal_strlit("COMMENT");
                assert(differ_at("MY_GRIDSQUARE"@, "COMMENT"@, 0));
                reveal_strlit("COMMENT_INTL");
                assert(differ_at("MY_GRIDSQUARE"@, "COMMENT_INTL"@, 0));
                reveal_strlit("CONT");
                assert(differ_at("MY_GRIDSQUARE"@, "CONT"@, 0));
                reveal_strlit("CONTACTED_OP");
                assert(differ_at("MY_GRIDSQUARE"@, "CONTACTED_OP"@, 0));
                reveal_strlit("CONTEST_ID");
                assert(differ_at("MY_GRIDSQUARE"@, "CONTEST_ID"@, 0));
                reveal_strlit("COUNTRY");
                assert(differ_at("MY_GRIDSQUARE"@, "COUNTRY"@, 0));
                reveal_strlit("CQZ");
                assert(differ_at("MY_GRIDSQUARE"@, "CQZ"@, 0));
                reveal_strlit("DXCC");
                assert(differ_at("MY_GRIDSQUARE"@, "DXCC"@, 0));
                reveal_strlit("EMAIL");
                assert(differ_at("MY_GRIDSQUARE"@, "EMAIL"@, 0));
                reveal_strlit("EQSL_QSL_RCVD");
                assert(differ_at("MY_GRIDSQUARE"@, "EQSL_QSL_RCVD"@, 0));
                reveal_strlit("EQSL_QSL_SENT");
                assert(differ_at("MY_GRIDSQUARE"@, "EQSL_QSL_SENT"@, 0));
                reveal_strlit("FORCE_INIT");
                assert(differ_at("MY_GRIDSQUARE"@, "FORCE_INIT"@, 0));
                reveal_strlit("FREQ");
                assert(differ_at("MY_GRIDSQUARE"@, "FREQ"@, 0));
                reveal_strlit("FREQ_RX");
                assert(differ_at("MY_GRIDSQUARE"@, "FREQ_RX"@, 0));
                reveal_strlit("GRIDSQUARE");
                assert(differ_at("MY_GRIDSQUARE"@, "GRIDSQUARE"@, 0));
                reveal_strlit("GRIDSQUARE_EXT");
                assert(differ_at("MY_GRIDSQUARE"@, "GRIDSQUARE_EXT"@, 0));
                reveal_strlit("IOTA");
                assert(differ_at("MY_GRIDSQUARE"@, "IOTA"@, 0));
                reveal_strlit("ITUZ");
                assert(differ_at("MY_GRIDSQUARE"@, "ITUZ"@, 0));
                reveal_strlit("K_INDEX");
                assert(differ_at("MY_GRIDSQUARE"@, "K_INDEX"@, 0));
                reveal_strlit("LAT");
                assert(differ_at("MY_GRIDSQUARE"@, "LAT"@, 0));
                reveal_strlit("LON");
                assert(differ_at("MY_GRIDSQUARE"@, "LON"@, 0));
                reveal_strlit("LOTW_QSL_RCVD");
                assert(differ_at("MY_GRIDSQUARE"@, "LOTW_QSL_RCVD"@, 0));
                reveal_strlit("LOTW_QSL_SENT");
                assert(differ_at("MY_GRIDSQUARE"@, "LOTW_QSL_SENT"@, 0));
                reveal_strlit("MODE");
                assert(differ_at("MY_GRIDSQUARE"@, "MODE"@, 0));
                reveal_strlit("MORSE_KEY_TYPE");
                assert(differ_at("MY_GRIDSQUARE"@, "MORSE_KEY_TYPE"@, 0));
                reveal_strlit("MY_DXCC");
                assert(differ_at("MY_GRIDSQUARE"@, "MY_DXCC"@, 0));
                assert(token_chars("MY_GRIDSQUARE"@));
            },
            QSOFieldName::MY_LAT => {
                reveal_strlit("MY_LAT");
                reveal_strlit("ADDRESS");
                assert(differ_at("MY_LAT"@, "ADDRESS"@, 0));
                reveal_strlit("ADDRESS_INTL");
                assert(differ_at("MY_LAT"@, "ADDRESS_INTL"@, 0));
                reveal_strlit("AGE");
                assert(differ_at("MY_LAT"@, "AGE"@, 0));
                reveal_strlit("ANT_AZ");
                assert(differ_at("MY_LAT"@, "ANT_AZ"@, 0));
                reveal_strlit("ANT_EL");
                assert(differ_at("MY_LAT"@, "ANT_EL"@, 0));
                reveal_strlit("ANT_PATH");
                assert(differ_at("MY_LAT"@, "ANT_PATH"@, 0));
                reveal_strlit("A_INDEX");
                assert(differ_at("MY_LAT"@, "A_INDEX"@, 0));
                reveal_strlit("AWARD_GRANTED");
                assert(differ_at("MY_LAT"@, "AWARD_GRANTED"@, 0));
                reveal_strlit("AWARD_SUBMITTED");
                assert(differ_at("MY_LAT"@, "AWARD_SUBMITTED"@, 0));
                reveal_strlit("BAND");
                assert(differ_at("MY_LAT"@, "BAND"@, 0));
                reveal_strlit("BAND_RX");
                assert(differ_at("MY_LAT"@, "BAND_RX"@, 0));
                reveal_strlit("CALL");
                assert(differ_at("MY_LAT"@, "CALL"@, 0));
                reveal_strlit("CHECK");
                assert(differ_at("MY_LAT"@, "CHECK"@, 0));
                reveal_strlit("CLASS");
                assert(differ_at("MY_LAT"@, "CLASS"@, 0));
                reveal_strlit("CLUBLOG_QSO_UPLOAD_DATE");
                assert(differ_at("MY_LAT"@, "CLUBLOG_QSO_UPLOAD_DATE"@, 0));
                reveal_strlit("CLUBLOG_QSO_UPLOAD_STATUS");
                assert(differ_at("MY_LAT"@, "CLUBLOG_QSO_UPLOAD_STATUS"@, 0));
                reveal_strlit("CNTY");
                assert(differ_at("MY_LAT"@, "CNTY"@, 0));
                reveal_strlit("COMMENT");
                assert(differ_at("MY_LAT"@, "COMMENT"@, 0));
                reveal_strlit("COMMENT_INTL");
                assert(differ_at("MY_LAT"@, "COMMENT_INTL"@, 0));
                reveal_strlit("CONT");
                assert(differ_at("MY_LAT"@, "CONT"@, 0));
                reveal_strlit("CONTACTED_OP");
                assert(differ_at("MY_LAT"@, "CONTACTED_OP"@, 0));
                reveal_strlit("CONTEST_ID");
                assert(differ_at("MY_LAT"@, "CONTEST_ID"@, 0));
                reveal_strlit("COUNTRY");
                assert(differ_at("MY_LAT"@, "COUNTRY"@, 0));
                reveal_strlit("CQZ");
                assert(differ_at("MY_LAT"@, "CQZ"@, 0));
                reveal_strlit("DXCC");
                assert(differ_at("MY_LAT"@, "DXCC"@, 0));
                reveal_strlit("EMAIL");
                assert(differ_at("MY_LAT"@, "EMAIL"@, 0));
                reveal_strlit("EQSL_QSL_RCVD");
                assert(differ_at("MY_LAT"@, "EQSL_QSL_RCVD"@, 0));
                reveal_strlit("EQSL_QSL_SENT");
                assert(differ_at("MY_LAT"@, "EQSL_QSL_SENT"@, 0));
                reveal_strlit("FORCE_INIT");
                assert(differ_at("MY_LAT"@, "FORCE_INIT"@, 0));
                reveal_strlit("FREQ");
                assert(differ_at("MY_LAT"@, "FREQ"@, 0));
                reveal_strlit("FREQ_RX");
                assert(differ_at("MY_LAT"@, "FREQ_RX"@, 0));
                reveal_strlit("GRIDSQUARE");
                assert(differ_at("MY_LAT"@, "GRIDSQUARE"@, 0));
                reveal_strlit("GRIDSQUARE_EXT");
                assert(differ_at("MY_LAT"@, "GRIDSQUARE_EXT"@, 0));
                reveal_strlit("IOTA");
                assert(differ_at("MY_LAT"@, "IOTA"@, 0));
                reveal_strlit("ITUZ");
                assert(differ_at("MY_LAT"@, "ITUZ"@, 0));
                reveal_strlit("K_INDEX");
                assert(differ_at("MY_LAT"@, "K_INDEX"@, 0));
                reveal_strlit("LAT");
                assert(differ_at("MY_LAT"@, "LAT"@, 0));
                reveal_strlit("LON");
                assert(differ_at("MY_LAT"@, "LON"@, 0));
                reveal_strlit("LOTW_QSL_RCVD");
                assert(differ_at("MY_LAT"@, "LOTW_QSL_RCVD"@, 0));
                reveal_strlit("LOTW_QSL_SENT");
                assert(differ_at("MY_LAT"@, "LOTW_QSL_SENT"@, 0));
                reveal_strlit("MODE");
                assert(differ_at("MY_LAT"@, "MODE"@, 0));
                reveal_strlit("MORSE_KEY_TYPE");
                assert(differ_at("MY_LAT"@, "MORSE_KEY_TYPE"@, 0));
                reveal_strlit("MY_DXCC");
                assert(differ_at("MY_LAT"@, "MY_DXCC"@, 0));
                reveal_strlit("MY_GRIDSQUARE");
                assert(differ_at("MY_LAT"@, "MY_GRIDSQUARE"@, 0));
                assert(token_chars("MY_LAT"@));
            },
            QSOFieldName::MY_LON => {
                reveal_strlit("MY_LON");
                reveal_strlit("ADDRESS");
                assert(differ_at("MY_LON"@, "ADDRESS"@, 0));
                reveal_strlit("ADDRESS_INTL");
                assert(differ_at("MY_LON"@, "ADDRESS_INTL"@, 0));
                reveal_strlit("AGE");
                assert(differ_at("MY_LON"@, "AGE"@, 0));
                reveal_strlit("ANT_AZ");
                assert(differ_at("MY_LON"@, "ANT_AZ"@, 0));
                reveal_strlit("ANT_EL");
                assert(differ_at("MY_LON"@, "ANT_EL"@, 0));
                reveal_strlit("ANT_PATH");
                assert(differ_at("MY_LON"@, "ANT_PATH"@, 0));
                reveal_strlit("A_INDEX");
                assert(differ_at("MY_LON"@, "A_INDEX"@, 0));
                reveal_strlit("AWARD_GRANTED");
                assert(differ_at("MY_LON"@, "AWARD_GRANTED"@, 0));
                reveal_strlit("AWARD_SUBMITTED");
                assert(differ_at("MY_LON"@, "AWARD_SUBMITTED"@, 0));
                reveal_strlit("BAND");
                assert(differ_at("MY_LON"@, "BAND"@, 0));
                reveal_strlit("BAND_RX");
                assert(differ_at("MY_LON"@, "BAND_RX"@, 0));
                reveal_strlit("CALL");
                assert(differ_at("MY_LON"@, "CALL"@, 0));
                reveal_strlit("CHECK");
                assert(differ_at("MY_LON"@, "CHECK"@, 0));
                reveal_strlit("CLASS");
                assert(differ_at("MY_LON"@, "CLASS"@, 0));
                reveal_strlit("CLUBLOG_QSO_UPLOAD_DATE");
                assert(differ_at("MY_LON"@, "CLUBLOG_QSO_UPLOAD_DATE"@, 0));
                reveal_strlit("CLUBLOG_QSO_UPLOAD_STATUS");
                assert(differ_at("MY_LON"@, "CLUBLOG_QSO_UPLOAD_STATUS"@, 0));
                reveal_strlit("CNTY");
                assert(differ_at("MY_LON"@, "CNTY"@, 0));
                reveal_strlit("COMMENT");
                assert(differ_at("MY_LON"@, "COMMENT"@, 0));
                reveal_strlit("COMMENT_INTL");
                assert(differ_at("MY_LON"@, "COMMENT_INTL"@, 0));
                reveal_strlit("CONT");
                assert(differ_at("MY_LON"@, "CONT"@, 0));
                reveal_strlit("CONTACTED_OP");
                assert(differ_at("MY_LON"@, "CONTACTED_OP"@, 0));
                reveal_strlit("CONTEST_ID");
                assert(differ_at("MY_LON"@, "CONTEST_ID"@, 0));
                reveal_strlit("COUNTRY");
                assert(differ_at("MY_LON"@, "COUNTRY"@, 0));
                reveal_strlit("CQZ");
                assert(differ_at("MY_LON"@, "CQZ"@, 0));
                reveal_strlit("DXCC");
                assert(differ_at("MY_LON"@, "DXCC"@, 0));
                reveal_strlit("EMAIL");
                assert(differ_at("MY_LON"@, "EMAIL"@, 0));
                reveal_strlit("EQSL_QSL_RCVD");
                assert(differ_at("MY_LON"@, "EQSL_QSL_RCVD"@, 0));
                reveal_strlit("EQSL_QSL_SENT");
                assert(differ_at("MY_LON"@, "EQSL_QSL_SENT"@, 0));
                reveal_strlit("FORCE_INIT");
                assert(differ_at("MY_LON"@, "FORCE_INIT"@, 0));
                reveal_strlit("FREQ");
                assert(differ_at("MY_LON"@, "FREQ"@, 0));
                reveal_strlit("FREQ_RX");
                assert(differ_at("MY_LON"@, "FREQ_RX"@, 0));
                reveal_strlit("GRIDSQUARE");
                assert(differ_at("MY_LON"@, "GRIDSQUARE"@, 0));
                reveal_strlit("GRIDSQUARE_EXT");
                assert(differ_at("MY_LON"@, "GRIDSQUARE_EXT"@, 0));
                reveal_strlit("IOTA");
                assert(differ_at("MY_LON"@, "IOTA"@, 0));
                reveal_strlit("ITUZ");
                assert(differ_at("MY_LON"@, "ITUZ"@, 0));
                reveal_strlit("K_INDEX");
                assert(differ_at("MY_LON"@, "K_INDEX"@, 0));
                reveal_strlit("LAT");
                assert(differ_at("MY_LON"@, "LAT"@, 0));
                reveal_strlit("LON");
                assert(differ_at("MY_LON"@, "LON"@, 0));
                reveal_strlit("LOTW_QSL_RCVD");
                assert(differ_at("MY_LON"@, "LOTW_QSL_RCVD"@, 0));
                reveal_strlit("LOTW_QSL_SENT");
                assert(differ_at("MY_LON"@, "LOTW_QSL_SENT"@, 0));
                reveal_strlit("MODE");
                assert(differ_at("MY_LON"@, "MODE"@, 0));
                reveal_strlit("MORSE_KEY_TYPE");
                assert(differ_at("MY_LON"@, "MORSE_KEY_TYPE"@, 0));
                reveal_strlit("MY_DXCC");
                assert(differ_at("MY_LON"@, "MY_DXCC"@, 0));
                reveal_strlit("MY_GRIDSQUARE");
                assert(differ_at("MY_LON"@, "MY_GRIDSQUARE"@, 0));
                reveal_strlit("MY_LAT");
                assert(differ_at("MY_LON"@, "MY_LAT"@, 4));
                assert(token_chars("MY_LON"@));
            },
            QSOFieldName::MY_POTA_REF => {
                reveal_strlit("MY_POTA_REF");
                reveal_strlit("ADDRESS");
                assert(differ_at("MY_POTA_REF"@, "ADDRESS"@, 0));
                reveal_strlit("ADDRESS_INTL");
                assert(differ_at("MY_POTA_REF"@, "ADDRESS_INTL"@, 0));
                reveal_strlit("AGE");
                assert(differ_at("MY_POTA_REF"@, "AGE"@, 0));
                reveal_strlit("ANT_AZ");
                assert(differ_at("MY_POTA_REF"@, "ANT_AZ"@, 0));
                reveal_strlit("ANT_EL");
                assert(differ_at("MY_POTA_REF"@, "ANT_EL"@, 0));
                reveal_strlit("ANT_PATH");
                assert(differ_at("MY_POTA_REF"@, "ANT_PATH"@, 0));
                reveal_strlit("A_INDEX");
                assert(differ_at("MY_POTA_REF"@, "A_INDEX"@, 0));
                reveal_strlit("AWARD_GRANTED");
                assert(differ_at("MY_POTA_REF"@, "AWARD_GRANTED"@, 0));
                reveal_strlit("AWARD_SUBMITTED");
                assert(differ_at("MY_POTA_REF"@, "AWARD_SUBMITTED"@, 0));
                reveal_strlit("BAND");
                assert(differ_at("MY_POTA_REF"@, "BAND"@, 0));
                reveal_strlit("BAND_RX");
                assert(differ_at("MY_POTA_REF"@, "BAND_RX"@, 0));
                reveal_strlit("CALL");
                assert(differ_at("MY_POTA_REF"@, "CALL"@, 0));
                reveal_strlit("CHECK");
                assert(differ_at("MY_POTA_REF"@, "CHECK"@, 0));
                reveal_strlit("CLASS");
                assert(differ_at("MY_POTA_REF"@, "CLASS"@, 0));
                reveal_strlit("CLUBLOG_QSO_UPLOAD_DATE");
                assert(differ_at("MY_POTA_REF"@, "CLUBLOG_QSO_UPLOAD_DATE"@, 0));
                reveal_strlit("CLUBLOG_QSO_UPLOAD_STATUS");
                assert(differ_at("MY_POTA_REF"@, "CLUBLOG_QSO_UPLOAD_STATUS"@, 0));
                reveal_strlit("CNTY");
                assert(differ_at("MY_POTA_REF"@, "CNTY"@, 0));
                reveal_strlit("COMMENT");
                assert(differ_at("MY_POTA_REF"@, "COMMENT"@, 0));
                reveal_strlit("COMMENT_INTL");
                assert(differ_at("MY_POTA_REF"@, "COMMENT_INTL"@, 0));
                reveal_strlit("CONT");
                assert(differ_at("MY_POTA_REF"@, "CONT"@, 0));
                reveal_strlit("CONTACTED_OP");
                assert(differ_at("MY_POTA_REF"@, "CONTACTED_OP"@, 0));
                reveal_strlit("CONTEST_ID");
                assert(differ_at("MY_POTA_REF"@, "CONTEST_ID"@, 0));
                reveal_strlit("COUNTRY");
                assert(differ_at("MY_POTA_REF"@, "COUNTRY"@, 0));
                reveal_strlit("CQZ");
                assert(differ_at("MY_POTA_REF"@, "CQZ"@, 0));
                reveal_strlit("DXCC");
                assert(differ_at("MY_POTA_REF"@, "DXCC"@, 0));
                reveal_strlit("EMAIL");
                assert(differ_at("MY_POTA_REF"@, "EMAIL"@, 0));
                reveal_strlit("EQSL_QSL_RCVD");
                assert(differ_at("MY_POTA_REF"@, "EQSL_QSL_RCVD"@, 0));
                reveal_strlit("EQSL_QSL_SENT");
                assert(differ_at("MY_POTA_REF"@, "EQSL_QSL_SENT"@, 0));
                reveal_strlit("FORCE_INIT");
                assert(differ_at("MY_POTA_REF"@, "FORCE_INIT"@, 0));
                reveal_strlit("FREQ");
                assert(differ_at("MY_POTA_REF"@, "FREQ"@, 0));
                reveal_strlit("FREQ_RX");
                assert(differ_at("MY_POTA_REF"@, "FREQ_RX"@, 0));
                reveal_strlit("GRIDSQUARE");
                assert(differ_at("MY_POTA_REF"@, "GRIDSQUARE"@, 0));
                reveal_strlit("GRIDSQUARE_EXT");
                assert(differ_at("MY_POTA_REF"@, "GRIDSQUARE_EXT"@, 0));
                reveal_strlit("IOTA");
                assert(differ_at("MY_POTA_REF"@, "IOTA"@, 0));
                reveal_strlit("ITUZ");
                assert(differ_at("MY_POTA_REF"@, "ITUZ"@, 0));
                reveal_strlit("K_INDEX");
                assert(differ_at("MY_POTA_REF"@, "K_INDEX"@, 0));
                reveal_strlit("LAT");
                assert(differ_at("MY_POTA_REF"@, "LAT"@, 0));
                reveal_strlit("LON");
                assert(differ_at("MY_POTA_REF"@, "LON"@, 0));
                reveal_strlit("LOTW_QSL_RCVD");
                assert(differ_at("MY_POTA_REF"@, "LOTW_QSL_RCVD"@, 0));
                reveal_strlit("LOTW_QSL_SENT");
                assert(differ_at("MY_POTA_REF"@, "LOTW_QSL_SENT"@, 0));
                reveal_strlit("MODE");
                assert(differ_at("MY_POTA_REF"@, "MODE"@, 0));
                reveal_strlit("MORSE_KEY_TYPE");
                assert(differ_at("MY_POTA_REF"@, "MORSE_KEY_TYPE"@, 0));
                reveal_strlit("MY_DXCC");
                assert(differ_at("MY_POTA_REF"@, "MY_DXCC"@, 0));
                reveal_strlit("MY_GRIDSQUARE");
                assert(differ_at("MY_POTA_REF"@, "MY_GRIDSQUARE"@, 0));
                reveal_strlit("MY_LAT");
                assert(differ_at("MY_POTA_REF"@, "MY_LAT"@, 0));
                reveal_strlit("MY_LON");
                assert(differ_at("MY_POTA_REF"@, "MY_LON"@, 0));
                assert(token_chars("MY_POTA_REF"@));
            },
            QSOFieldName::MY_SOTA_REF => {
                reveal_strlit("MY_SOTA_REF");
                reveal_strlit("ADDRESS");
                assert(differ_at("MY_SOTA_REF"@, "ADDRESS"@, 0));
                reveal_strlit("ADDRESS_INTL");
                assert(differ_at("MY_SOTA_REF"@, "ADDRESS_INTL"@, 0));
                reveal_strlit("AGE");
                assert(differ_at("MY_SOTA_REF"@, "AGE"@, 0));
                reveal_strlit("ANT_AZ");
                assert(differ_at("MY_SOTA_REF"@, "ANT_AZ"@, 0));
                reveal_strlit("ANT_EL");
                assert(differ_at("MY_SOTA_REF"@, "ANT_EL"@, 0));
                reveal_strlit("ANT_PATH");
                assert(differ_at("MY_SOTA_REF"@, "ANT_PATH"@, 0));
                reveal_strlit("A_INDEX");
                assert(differ_at("MY_SOTA_REF"@, "A_INDEX"@, 0));
                reveal_strlit("AWARD_GRANTED");
                assert(differ_at("MY_SOTA_REF"@, "AWARD_GRANTED"@, 0));
                reveal_strlit("AWARD_SUBMITTED");
                assert(differ_at("MY_SOTA_REF"@, "AWARD_SUBMITTED"@, 0));
                reveal_strlit("BAND");
                assert(differ_at("MY_SOTA_REF"@, "BAND"@, 0));
                reveal_strlit("BAND_RX");
                assert(differ_at("MY_SOTA_REF"@, "BAND_RX"@, 0));
                reveal_strlit("CALL");
                assert(differ_at("MY_SOTA_REF"@, "CALL"@, 0));
                reveal_strlit("CHECK");
                assert(differ_at("MY_SOTA_REF"@, "CHECK"@, 0));
                reveal_strlit("CLASS");
                assert(differ_at("MY_SOTA_REF"@, "CLASS"@, 0));
                reveal_strlit("CLUBLOG_QSO_UPLOAD_DATE");
                assert(differ_at("MY_SOTA_REF"@, "CLUBLOG_QSO_UPLOAD_DATE"@, 0));
                reveal_strlit("CLUBLOG_QSO_UPLOAD_STATUS");
                assert(differ_at("MY_SOTA_REF"@, "CLUBLOG_QSO_UPLOAD_STATUS"@, 0));
                reveal_strlit("CNTY");
                assert(differ_at("MY_SOTA_REF"@, "CNTY"@, 0));
                reveal_strlit("COMMENT");
                assert(differ_at("MY_SOTA_REF"@, "COMMENT"@, 0));
                reveal_strlit("COMMENT_INTL");
                assert(differ_at("MY_SOTA_REF"@, "COMMENT_INTL"@, 0));
                reveal_strlit("CONT");
                assert(differ_at("MY_SOTA_REF"@, "CONT"@, 0));
                reveal_strlit("CONTACTED_OP");
                assert(differ_at("MY_SOTA_REF"@, "CONTACTED_OP"@, 0));
                reveal_strlit("CONTEST_ID");
                assert(differ_at("MY_SOTA_REF"@, "CONTEST_ID"@, 0));
                reveal_strlit("COUNTRY");
                assert(differ_at("MY_SOTA_REF"@, "COUNTRY"@, 0));
                reveal_strlit("CQZ");
                assert(differ_at("MY_SOTA_REF"@, "CQZ"@, 0));
                reveal_strlit("DXCC");
                assert(differ_at("MY_SOTA_REF"@, "DXCC"@, 0));
                reveal_strlit("EMAIL");
                assert(differ_at("MY_SOTA_REF"@, "EMAIL"@, 0));
                reveal_strlit("EQSL_QSL_RCVD");
                assert(differ_at("MY_SOTA_REF"@, "EQSL_QSL_RCVD"@, 0));
                reveal_strlit("EQSL_QSL_SENT");
                assert(differ_at("MY_SOTA_REF"@, "EQSL_QSL_SENT"@, 0));
                reveal_strlit("FORCE_INIT");
                assert(differ_at("MY_SOTA_REF"@, "FORCE_INIT"@, 0));
                reveal_strlit("FREQ");
                assert(differ_at("MY_SOTA_REF"@, "FREQ"@, 0));
                reveal_strlit("FREQ_RX");
                assert(differ_at("MY_SOTA_REF"@, "FREQ_RX"@, 0));
                reveal_strlit("GRIDSQUARE");
                assert(differ_at("MY_SOTA_REF"@, "GRIDSQUARE"@, 0));
                reveal_strlit("GRIDSQUARE_EXT");
                assert(differ_at("MY_SOTA_REF"@, "GRIDSQUARE_EXT"@, 0));
                reveal_strlit("IOTA");
                assert(differ_at("MY_SOTA_REF"@, "IOTA"@, 0));
                reveal_strlit("ITUZ");
                assert(differ_at("MY_SOTA_REF"@, "ITUZ"@, 0));
                reveal_strlit("K_INDEX");
                assert(differ_at("MY_SOTA_REF"@, "K_INDEX"@, 0));
                reveal_strlit("LAT");
                assert(differ_at("MY_SOTA_REF"@, "LAT"@, 0));
                reveal_strlit("LON");
                assert(differ_at("MY_SOTA_REF"@, "LON"@, 0));
                reveal_strlit("LOTW_QSL_RCVD");
                assert(differ_at("MY_SOTA_REF"@, "LOTW_QSL_RCVD"@, 0));
                reveal_strlit("LOTW_QSL_SENT");
                assert(differ_at("MY_SOTA_REF"@, "LOTW_QSL_SENT"@, 0));
                reveal_strlit("MODE");
                assert(differ_at("MY_SOTA_REF"@, "MODE"@, 0));
                reveal_strlit("MORSE_KEY_TYPE");
                assert(differ_at("MY_SOTA_REF"@, "MORSE_KEY_TYPE"@, 0));
                reveal_strlit("MY_DXCC");
                assert(differ_at("MY_SOTA_REF"@, "MY_DXCC"@, 0));
                reveal_strlit("MY_GRIDSQUARE");
                assert(differ_at("MY_SOTA_REF"@, "MY_GRIDSQUARE"@, 0));
                reveal_strlit("MY_LAT");
                assert(differ_at("MY_SOTA_REF"@, "MY_LAT"@, 0));
                reveal_strlit("MY_LON");
                assert(differ_at("MY_SOTA_REF"@, "MY_LON"@, 0));
                reveal_strlit("MY_POTA_REF");
                assert(differ_at("MY_SOTA_REF"@, "MY_POTA_REF"@, 3));
                assert(token_chars("MY_SOTA_REF"@));
            },
            QSOFieldName::MY_WWFF_REF => {
                reveal_strlit("MY_WWFF_REF");
                reveal_strlit("ADDRESS");
                assert(differ_at("MY_WWFF_REF"@, "ADDRESS"@, 0));
                reveal_strlit("ADDRESS_INTL");
                assert(differ_at("MY_WWFF_REF"@, "ADDRESS_INTL"@, 0));
                reveal_strlit("AGE");
                assert(differ_at("MY_WWFF_REF"@, "AGE"@, 0));
                reveal_strlit("ANT_AZ");
                assert(differ_at("MY_WWFF_REF"@, "ANT_AZ"@, 0));
                reveal_strlit("ANT_EL");
                assert(differ_at("MY_WWFF_REF"@, "ANT_EL"@, 0));
                reveal_strlit("ANT_PATH");
                assert(differ_at("MY_WWFF_REF"@, "ANT_PATH"@, 0));
                reveal_strlit("A_INDEX");
                assert(differ_at("MY_WWFF_REF"@, "A_INDEX"@, 0));
                reveal_strlit("AWARD_GRANTED");
                assert(differ_at("MY_WWFF_REF"@, "AWARD_GRANTED"@, 0));
                reveal_strlit("AWARD_SUBMITTED");
                assert(differ_at("MY_WWFF_REF"@, "AWARD_SUBMITTED"@, 0));
                reveal_strlit("BAND");
                assert(differ_at("MY_WWFF_REF"@, "BAND"@, 0));
                reveal_strlit("BAND_RX");
                assert(differ_at("MY_WWFF_REF"@, "BAND_RX"@, 0));
                reveal_strlit("CALL");
                assert(differ_at("MY_WWFF_REF"@, "CALL"@, 0));
                reveal_strlit("CHECK");
                assert(differ_at("MY_WWFF_REF"@, "CHECK"@, 0));
                reveal_strlit("CLASS");
                assert(differ_at("MY_WWFF_REF"@, "CLASS"@, 0));
                reveal_strlit("CLUBLOG_QSO_UPLOAD_DATE");
                assert(differ_at("MY_WWFF_REF"@, "CLUBLOG_QSO_UPLOAD_DATE"@, 0));
                reveal_strlit("CLUBLOG_QSO_UPLOAD_STATUS");
                assert(differ_at("MY_WWFF_REF"@, "CLUBLOG_QSO_UPLOAD_STATUS"@, 0));
                reveal_strlit("CNTY");
                assert(differ_at("MY_WWFF_REF"@, "CNTY"@, 0));
                reveal_strlit("COMMENT");
                assert(differ_at("MY_WWFF_REF"@, "COMMENT"@, 0));
                reveal_strlit("COMMENT_INTL");
                assert(differ_at("MY_WWFF_REF"@, "COMMENT_INTL"@, 0));
                reveal_strlit("CONT");
                assert(differ_at("MY_WWFF_REF"@, "CONT"@, 0));
                reveal_strlit("CONTACTED_OP");
                assert(differ_at("MY_WWFF_REF"@, "CONTACTED_OP"@, 0));
                reveal_strlit("CONTEST_ID");
                assert(differ_at("MY_WWFF_REF"@, "CONTEST_ID"@, 0));
                reveal_strlit("COUNTRY");
                assert(differ_at("MY_WWFF_REF"@, "COUNTRY"@, 0));
                reveal_strlit("CQZ");
                assert(differ_at("MY_WWFF_REF"@, "CQZ"@, 0));
                reveal_strlit("DXCC");
                assert(differ_at("MY_WWFF_REF"@, "DXCC"@, 0));
                reveal_strlit("EMAIL");
                assert(differ_at("MY_WWFF_REF"@, "EMAIL"@, 0));
                reveal_strlit("EQSL_QSL_RCVD");
                assert(differ_at("MY_WWFF_REF"@, "EQSL_QSL_RCVD"@, 0));
                reveal_strlit("EQSL_QSL_SENT");
                assert(differ_at("MY_WWFF_REF"@, "EQSL_QSL_SENT"@, 0));
                reveal_strlit("FORCE_INIT");
                assert(differ_at("MY_WWFF_REF"@, "FORCE_INIT"@, 0));
                reveal_strlit("FREQ");
                assert(differ_at("MY_WWFF_REF"@, "FREQ"@, 0));
                reveal_strlit("FREQ_RX");
                assert(differ_at("MY_WWFF_REF"@, "FREQ_RX"@, 0));
                reveal_strlit("GRIDSQUARE");
                assert(differ_at("MY_WWFF_REF"@, "GRIDSQUARE"@, 0));
                reveal_strlit("GRIDSQUARE_EXT");
                assert(differ_at("MY_WWFF_REF"@, "GRIDSQUARE_EXT"@, 0));
                reveal_strlit("IOTA");
                assert(differ_at("MY_WWFF_REF"@, "IOTA"@, 0));
                reveal_strlit("ITUZ");
                assert(differ_at("MY_WWFF_REF"@, "ITUZ"@, 0));
                reveal_strlit("K_INDEX");
                assert(differ_at("MY_WWFF_REF"@, "K_INDEX"@, 0));
                reveal_strlit("LAT");
                assert(differ_at("MY_WWFF_REF"@, "LAT"@, 0));
                reveal_strlit("LON");
                assert(differ_at("MY_WWFF_REF"@, "LON"@, 0));
                reveal_strlit("LOTW_QSL_RCVD");
                assert(differ_at("MY_WWFF_REF"@, "LOTW_QSL_RCVD"@, 0));
                reveal_strlit("LOTW_QSL_SENT");
                assert(differ_at("MY_WWFF_REF"@, "LOTW_QSL_SENT"@, 0));
                reveal_strlit("MODE");
                assert(differ_at("MY_WWFF_REF"@, "MODE"@, 0));
                reveal_strlit("MORSE_KEY_TYPE");
                assert(differ_at("MY_WWFF_REF"@, "MORSE_KEY_TYPE"@, 0));
                reveal_strlit("MY_DXCC");
                assert(differ_at("MY_WWFF_REF"@, "MY_DXCC"@, 0));
                reveal_strlit("MY_GRIDSQUARE");
                assert(differ_at("MY_WWFF_REF"@, "MY_GRIDSQUARE"@, 0));
                reveal_strlit("MY_LAT");
                assert(differ_at("MY_WWFF_REF"@, "MY_LAT"@, 0));
                reveal_strlit("MY_LON");
                assert(differ_at("MY_WWFF_REF"@, "MY_LON"@, 0));
                reveal_strlit("MY_POTA_REF");
                assert(differ_at("MY_WWFF_REF"@, "MY_POTA_REF"@, 3));
                reveal_strlit("MY_SOTA_REF");
                assert(differ_at("MY_WWFF_REF"@, "MY_SOTA_REF"@, 3));
                assert(token_chars("MY_WWFF_REF"@));
            },
            QSOFieldName::NAME => {
                reveal_strlit("NAME");
                reveal_strlit("ADDRESS");
                assert(differ_at("NAME"@, "ADDRESS"@, 0));
                reveal_strlit("ADDRESS_INTL");
                assert(differ_at("NAME"@, "ADDRESS_INTL"@, 0));
                reveal_strlit("AGE");
                assert(differ_at("NAME"@, "AGE"@, 0));
                reveal_strlit("ANT_AZ");
                assert(differ_at("NAME"@, "ANT_AZ"@, 0));
                reveal_strlit("ANT_EL");
                assert(differ_at("NAME"@, "ANT_EL"@, 0));
                reveal_strlit("ANT_PATH");
                assert(differ_at("NAME"@, "ANT_PATH"@, 0));
                reveal_strlit("A_INDEX");
                assert(differ_at("NAME"@, "A_INDEX"@, 0));
                reveal_strlit("AWARD_GRANTED");
                assert(differ_at("NAME"@, "AWARD_GRANTED"@, 0));
                reveal_strlit("AWARD_SUBMITTED");
                assert(differ_at("NAME"@, "AWARD_SUBMITTED"@, 0));
                reveal_strlit("BAND");
                assert(differ_at("NAME"@, "BAND"@, 0));
                reveal_strlit("BAND_RX");
                assert(differ_at("NAME"@, "BAND_RX"@, 0));
                reveal_strlit("CALL");
                assert(differ_at("NAME"@, "CALL"@, 0));
                reveal_strlit("CHECK");
                assert(differ_at("NAME"@, "CHECK"@, 0));
                reveal_strlit("CLASS");
                assert(differ_at("NAME"@, "CLASS"@, 0));
                reveal_strlit("CLUBLOG_QSO_UPLOAD_DATE");
                assert(differ_at("NAME"@, "CLUBLOG_QSO_UPLOAD_DATE"@, 0));
                reveal_strlit("CLUBLOG_QSO_UPLOAD_STATUS");
                assert(differ_at("NAME"@, "CLUBLOG_QSO_UPLOAD_STATUS"@, 0));
                reveal_strlit("CNTY");
                assert(differ_at("NAME"@, "CNTY"@, 0));
                reveal_strlit("COMMENT");
                assert(differ_at("NAME"@, "COMMENT"@, 0));
                reveal_strlit("COMMENT_INTL");
                assert(differ_at("NAME"@, "COMMENT_INTL"@, 0));
                reveal_strlit("CONT");
                assert(differ_at("NAME"@, "CONT"@, 0));
                reveal_strlit("CONTACTED_OP");
                assert(differ_at("NAME"@, "CONTACTED_OP"@, 0));
                reveal_strlit("CONTEST_ID");
                assert(differ_at("NAME"@, "CONTEST_ID"@, 0));
                reveal_strlit("COUNTRY");
                assert(differ_at("NAME"@, "COUNTRY"@, 0));
                reveal_strlit("CQZ");
                assert(differ_at("NAME"@, "CQZ"@, 0));
                reveal_strlit("DXCC");
                assert(differ_at("NAME"@, "DXCC"@, 0));
                reveal_strlit("EMAIL");
                assert(differ_at("NAME"@, "EMAIL"@, 0));
                reveal_strlit("EQSL_QSL_RCVD");
                assert(differ_at("NAME"@, "EQSL_QSL_RCVD"@, 0));
                reveal_strlit("EQSL_QSL_SENT");
                assert(differ_at("NAME"@, "EQSL_QSL_SENT"@, 0));
                reveal_strlit("FORCE_INIT");
                assert(differ_at("NAME"@, "FORCE_INIT"@, 0));
                reveal_strlit("FREQ");
                assert(differ_at("NAME"@, "FREQ"@, 0));
                reveal_strlit("FREQ_RX");
                assert(differ_at("NAME"@, "FREQ_RX"@, 0));
                reveal_strlit("GRIDSQUARE");
                assert(differ_at("NAME"@, "GRIDSQUARE"@, 0));
                reveal_strlit("GRIDSQUARE_EXT");
                assert(differ_at("NAME"@, "GRIDSQUARE_EXT"@, 0));
                reveal_strlit("IOTA");
                assert(differ_at("NAME"@, "IOTA"@, 0));
                reveal_strlit("ITUZ");
                assert(differ_at("NAME"@, "ITUZ"@, 0));
                reveal_strlit("K_INDEX");
                assert(differ_at("NAME"@, "K_INDEX"@, 0));
                reveal_strlit("LAT");
                assert(differ_at("NAME"@, "LAT"@, 0));
                reveal_strlit("LON");
                assert(differ_at("NAME"@, "LON"@, 0));
                reveal_strlit("LOTW_QSL_RCVD");
                assert(differ_at("NAME"@, "LOTW_QSL_RCVD"@, 0));
                reveal_strlit("LOTW_QSL_SENT");
                assert(differ_at("NAME"@, "LOTW_QSL_SENT"@, 0));
                reveal_strlit("MODE");
                assert(differ_at("NAME"@, "MODE"@, 0));
                reveal_strlit("MORSE_KEY_TYPE");
                assert(differ_at("NAME"@, "MORSE_KEY_TYPE"@, 0));
                reveal_strlit("MY_DXCC");
                assert(differ_at("NAME"@, "MY_DXCC"@, 0));
                reveal_strlit("MY_GRIDSQUARE");
                assert(differ_at("NAME"@, "MY_GRIDSQUARE"@, 0));
                reveal_strlit("MY_LAT");
                assert(differ_at("NAME"@, "MY_LAT"@, 0));
                reveal_strlit("MY_LON");
                assert(differ_at("NAME"@, "MY_LON"@, 0));
                reveal_strlit("MY_POTA_REF");
                assert(differ_at("NAME"@, "MY_POTA_REF"@, 0));
                reveal_strlit("MY_SOTA_REF");
                assert(differ_at("NAME"@, "MY_SOTA_REF"@, 0));
                reveal_strlit("MY_WWFF_REF");
                assert(differ_at("NAME"@, "MY_WWFF_REF"@, 0));
                assert(token_chars("NAME"@));
            },
            QSOFieldName::NAME_INTL => {
                reveal_strlit("NAME_INTL");
                reveal_strlit("ADDRESS");
                assert(differ_at("NAME_INTL"@, "ADDRESS"@, 0));
                reveal_strlit("ADDRESS_INTL");
                assert(differ_at("NAME_INTL"@, "ADDRESS_INTL"@, 0));
                reveal_strlit("AGE");
                assert(differ_at("NAME_INTL"@, "AGE"@, 0));
                reveal_strlit("ANT_AZ");
                assert(differ_at("NAME_INTL"@, "ANT_AZ"@, 0));
                reveal_strlit("ANT_EL");
                assert(differ_at("NAME_INTL"@, "ANT_EL"@, 0));
                reveal_strlit("ANT_PATH");
                assert(differ_at("NAME_INTL"@, "ANT_PATH"@, 0));
                reveal_strlit("A_INDEX");
                assert(differ_at("NAME_INTL"@, "A_INDEX"@, 0));
                reveal_strlit("AWARD_GRANTED");
                assert(differ_at("NAME_INTL"@, "AWARD_GRANTED"@, 0));
                reveal_strlit("AWARD_SUBMITTED");
                assert(differ_at("NAME_INTL"@, "AWARD_SUBMITTED"@, 0));
                reveal_strlit("BAND");
                assert(differ_at("NAME_INTL"@, "BAND"@, 0));
                reveal_strlit("BAND_RX");
                assert(differ_at("NAME_INTL"@, "BAND_RX"@, 0));
                reveal_strlit("CALL");
                assert(differ_at("NAME_INTL"@, "CALL"@, 0));
                reveal_strlit("CHECK");
                assert(differ_at("NAME_INTL"@, "CHECK"@, 0));
                reveal_strlit("CLASS");
                assert(differ_at("NAME_INTL"@, "CLASS"@, 0));
                reveal_strlit("CLUBLOG_QSO_UPLOAD_DATE");
                assert(differ_at("NAME_INTL"@, "CLUBLOG_QSO_UPLOAD_DATE"@, 0));
                reveal_strlit("CLUBLOG_QSO_UPLOAD_STATUS");
                assert(differ_at("NAME_INTL"@, "CLUBLOG_QSO_UPLOAD_STATUS"@, 0));
                reveal_strlit("CNTY");
                assert(differ_at("NAME_INTL"@, "CNTY"@, 0));
                reveal_strlit("COMMENT");
                assert(differ_at("NAME_INTL"@, "COMMENT"@, 0));
                reveal_strlit("COMMENT_INTL");
                assert(differ_at("NAME_INTL"@, "COMMENT_INTL"@, 0));
                reveal_strlit("CONT");
                assert(differ_at("NAME_INTL"@, "CONT"@, 0));
                reveal_strlit("CONTACTED_OP");
                assert(differ_at("NAME_INTL"@, "CONTACTED_OP"@, 0));
                reveal_strlit("CONTEST_ID");
                assert(differ_at("NAME_INTL"@, "CONTEST_ID"@, 0));
                reveal_strlit("COUNTRY");
                assert(differ_at("NAME_INTL"@, "COUNTRY"@, 0));
                reveal_strlit("CQZ");
                assert(differ_at("NAME_INTL"@, "CQZ"@, 0));
                reveal_strlit("DXCC");
                assert(differ_at("NAME_INTL"@, "DXCC"@, 0));
                reveal_strlit("EMAIL");
                assert(differ_at("NAME_INTL"@, "EMAIL"@, 0));
                reveal_strlit("EQSL_QSL_RCVD");
                assert(differ_at("NAME_INTL"@, "EQSL_QSL_RCVD"@, 0));
                reveal_strlit("EQSL_QSL_SENT");
                assert(differ_at("NAME_INTL"@, "EQSL_QSL_SENT"@, 0));
                reveal_strlit("FORCE_INIT");
                assert(differ_at("NAME_INTL"@, "FORCE_INIT"@, 0));
                reveal_strlit("FREQ");
                assert(differ_at("NAME_INTL"@, "FREQ"@, 0));
                reveal_strlit("FREQ_RX");
                assert(differ_at("NAME_INTL"@, "FREQ_RX"@, 0));
                reveal_strlit("GRIDSQUARE");
                assert(differ_at("NAME_INTL"@, "GRIDSQUARE"@, 0));
                reveal_strlit("GRIDSQUARE_EXT");
                assert(differ_at("NAME_INTL"@, "GRIDSQUARE_EXT"@, 0));
                reveal_strlit("IOTA");
                assert(differ_at("NAME_INTL"@, "IOTA"@, 0));
                reveal_strlit("ITUZ");
                assert(differ_at("NAME_INTL"@, "ITUZ"@, 0));
                reveal_strlit("K_INDEX");
                assert(differ_at("NAME_INTL"@, "K_INDEX"@, 0));
                reveal_strlit("LAT");
                assert(differ_at("NAME_INTL"@, "LAT"@, 0));
                reveal_strlit("LON");
                assert(differ_at("NAME_INTL"@, "LON"@, 0));
                reveal_strlit("LOTW_QSL_RCVD");
                assert(differ_at("NAME_INTL"@, "LOTW_QSL_RCVD"@, 0));
                reveal_strlit("LOTW_QSL_SENT");
                assert(differ_at("NAME_INTL"@, "LOTW_QSL_SENT"@, 0));
                reveal_strlit("MODE");
                assert(differ_at("NAME_INTL"@, "MODE"@, 0));
                reveal_strlit("MORSE_KEY_TYPE");
                assert(differ_at("NAME_INTL"@, "MORSE_KEY_TYPE"@, 0));
                reveal_strlit("MY_DXCC");
                assert(differ_at("NAME_INTL"@, "MY_DXCC"@, 0));
                reveal_strlit("MY_GRIDSQUARE");
                assert(differ_at("NAME_INTL"@, "MY_GRIDSQUARE"@, 0));
                reveal_strlit("MY_LAT");
                assert(differ_at("NAME_INTL"@, "MY_LAT"@, 0));
                reveal_strlit("MY_LON");
                assert(differ_at("NAME_INTL"@, "MY_LON"@, 0));
                reveal_strlit("MY_POTA_REF");
                assert(differ_at("NAME_INTL"@, "MY_POTA_REF"@, 0));
                reveal_strlit("MY_SOTA_REF");
                assert(differ_at("NAME_INTL"@, "MY_SOTA_REF"@, 0));
                reveal_strlit("MY_WWFF_REF");
                assert(differ_at("NAME_INTL"@, "MY_WWFF_REF"@, 0));
                reveal_strlit("NAME");
                assert(differ_at("NAME_INTL"@, "NAME"@, 0));
                assert(token_chars("NAME_INTL"@));
            },
            QSOFieldName::NOTES => {
                reveal_strlit("NOTES");
                reveal_strlit("ADDRESS");
                assert(differ_at("NOTES"@, "ADDRESS"@, 0));
                reveal_strlit("ADDRESS_INTL");
                assert(differ_at("NOTES"@, "ADDRESS_INTL"@, 0));
                reveal_strlit("AGE");
                assert(differ_at("NOTES"@, "AGE"@, 0));
                reveal_strlit("ANT_AZ");
                assert(differ_at("NOTES"@, "ANT_AZ"@, 0));
                reveal_strlit("ANT_EL");
                assert(differ_at("NOTES"@, "ANT_EL"@, 0));
                reveal_strlit("ANT_PATH");
                assert(differ_at("NOTES"@, "ANT_PATH"@, 0));
                reveal_strlit("A_INDEX");
                assert(differ_at("NOTES"@, "A_INDEX"@, 0));
                reveal_strlit("AWARD_GRANTED");
                assert(differ_at("NOTES"@, "AWARD_GRANTED"@, 0));
                reveal_strlit("AWARD_SUBMITTED");
                assert(differ_at("NOTES"@, "AWARD_SUBMITTED"@, 0));
                reveal_strlit("BAND");
                assert(differ_at("NOTES"@, "BAND"@, 0));
                reveal_strlit("BAND_RX");
                assert(differ_at("NOTES"@, "BAND_RX"@, 0));
                reveal_strlit("CALL");
                assert(differ_at("NOTES"@, "CALL"@, 0));
                reveal_strlit("CHECK");
                assert(differ_at("NOTES"@, "CHECK"@, 0));
                reveal_strlit("CLASS");
                assert(differ_at("NOTES"@, "CLASS"@, 0));
                reveal_strlit("CLUBLOG_QSO_UPLOAD_DATE");
                assert(differ_at("NOTES"@, "CLUBLOG_QSO_UPLOAD_DATE"@, 0));
                reveal_strlit("CLUBLOG_QSO_UPLOAD_STATUS");
                assert(differ_at("NOTES"@, "CLUBLOG_QSO_UPLOAD_STATUS"@, 0));
                reveal_strlit("CNTY");
                assert(differ_at("NOTES"@, "CNTY"@, 0));
                reveal_strlit("COMMENT");
                assert(differ_at("NOTES"@, "COMMENT"@, 0));
                reveal_strlit("COMMENT_INTL");
                assert(differ_at("NOTES"@, "COMMENT_INTL"@, 0));
                reveal_strlit("CONT");
                assert(differ_at("NOTES"@, "CONT"@, 0));
                reveal_strlit("CONTACTED_OP");
                assert(differ_at("NOTES"@, "CONTACTED_OP"@, 0));
                reveal_strlit("CONTEST_ID");
                assert(differ_at("NOTES"@, "CONTEST_ID"@, 0));
                reveal_strlit("COUNTRY");
                assert(differ_at("NOTES"@, "COUNTRY"@, 0));
                reveal_strlit("CQZ");
                assert(differ_at("NOTES"@, "CQZ"@, 0));
                reveal_strlit("DXCC");
                assert(differ_at("NOTES"@, "DXCC"@, 0));
                reveal_strlit("EMAIL");
                assert(differ_at("NOTES"@, "EMAIL"@, 0));
                reveal_strlit("EQSL_QSL_RCVD");
                assert(differ_at("NOTES"@, "EQSL_QSL_RCVD"@, 0));
                reveal_strlit("EQSL_QSL_SENT");
                assert(differ_at("NOTES"@, "EQSL_QSL_SENT"@, 0));
                reveal_strlit("FORCE_INIT");
                assert(differ_at("NOTES"@, "FORCE_INIT"@, 0));
                reveal_strlit("FREQ");
                assert(differ_at("NOTES"@, "FREQ"@, 0));
                reveal_strlit("FREQ_RX");
                assert(differ_at("NOTES"@, "FREQ_RX"@, 0));
                reveal_strlit("GRIDSQUARE");
                assert(differ_at("NOTES"@, "GRIDSQUARE"@, 0));
                reveal_strlit("GRIDSQUARE_EXT");
                assert(differ_at("NOTES"@, "GRIDSQUARE_EXT"@, 0));
                reveal_strlit("IOTA");
                assert(differ_at("NOTES"@, "IOTA"@, 0));
                reveal_strlit("ITUZ");
                assert(differ_at("NOTES"@, "ITUZ"@, 0));
                reveal_strlit("K_INDEX");
                assert(differ_at("NOTES"@, "K_INDEX"@, 0));
                reveal_strlit("LAT");
                assert(differ_at("NOTES"@, "LAT"@, 0));
                reveal_strlit("LON");
                assert(differ_at("NOTES"@, "LON"@, 0));
                reveal_strlit("LOTW_QSL_RCVD");
                assert(differ_at("NOTES"@, "LOTW_QSL_RCVD"@, 0));
                reveal_strlit("LOTW_QSL_SENT");
                assert(differ_at("NOTES"@, "LOTW_QSL_SENT"@, 0));
                reveal_strlit("MODE");
                assert(differ_at("NOTES"@, "MODE"@, 0));
                reveal_strlit("MORSE_KEY_TYPE");
                assert(differ_at("NOTES"@, "MORSE_KEY_TYPE"@, 0));
                reveal_strlit("MY_DXCC");
                assert(differ_at("NOTES"@, "MY_DXCC"@, 0));
                reveal_strlit("MY_GRIDSQUARE");
                assert(differ_at("NOTES"@, "MY_GRIDSQUARE"@, 0));
                reveal_strlit("MY_LAT");
                assert(differ_at("NOTES"@, "MY_LAT"@, 0));
                reveal_strlit("MY_LON");
                assert(differ_at("NOTES"@, "MY_LON"@, 0));
                reveal_strlit("MY_POTA_REF");
                assert(differ_at("NOTES"@, "MY_POTA_REF"@, 0));
                reveal_strlit("MY_SOTA_REF");
                assert(differ_at("NOTES"@, "MY_SOTA_REF"@, 0));
                reveal_strlit("MY_WWFF_REF");
                assert(differ_at("NOTES"@, "MY_WWFF_REF"@, 0));
                reveal_strlit("NAME");
                assert(differ_at("NOTES"@, "NAME"@, 0));
                reveal_strlit("NAME_INTL");
                assert(differ_at("NOTES"@, "NAME_INTL"@, 0));
                assert(token_chars("NOTES"@));
            },
            QSOFieldName::POTA_REF => {
                reveal_strlit("POTA_REF");
                reveal_strlit("ADDRESS");
                assert(differ_at("POTA_REF"@, "ADDRESS"@, 0));
                reveal_strlit("ADDRESS_INTL");
                assert(differ_at("POTA_REF"@, "ADDRESS_INTL"@, 0));
                reveal_strlit("AGE");
                assert(differ_at("POTA_REF"@, "AGE"@, 0));
                reveal_strlit("ANT_AZ");
                assert(differ_at("POTA_REF"@, "ANT_AZ"@, 0));
                reveal_strlit("ANT_EL");
                assert(differ_at("POTA_REF"@, "ANT_EL"@, 0));
                reveal_strlit("ANT_PATH");
                assert(differ_at("POTA_REF"@, "ANT_PATH"@, 0));
                reveal_strlit("A_INDEX");
                assert(differ_at("POTA_REF"@, "A_INDEX"@, 0));
                reveal_strlit("AWARD_GRANTED");
                assert(differ_at("POTA_REF"@, "AWARD_GRANTED"@, 0));
                reveal_strlit("AWARD_SUBMITTED");
                assert(differ_at("POTA_REF"@, "AWARD_SUBMITTED"@, 0));
                reveal_strlit("BAND");
                assert(differ_at("POTA_REF"@, "BAND"@, 0));
                reveal_strlit("BAND_RX");
                assert(differ_at("POTA_REF"@, "BAND_RX"@, 0));
                reveal_strlit("CALL");
                assert(differ_at("POTA_REF"@, "CALL"@, 0));
                reveal_strlit("CHECK");
                assert(differ_at("POTA_REF"@, "CHECK"@, 0));
                reveal_strlit("CLASS");
                assert(differ_at("POTA_REF"@, "CLASS"@, 0));
                reveal_strlit("CLUBLOG_QSO_UPLOAD_DATE");
                assert(differ_at("POTA_REF"@, "CLUBLOG_QSO_UPLOAD_DATE"@, 0));
                reveal_strlit("CLUBLOG_QSO_UPLOAD_STATUS");
                assert(differ_at("POTA_REF"@, "CLUBLOG_QSO_UPLOAD_STATUS"@, 0));
                reveal_strlit("CNTY");
                assert(differ_at("POTA_REF"@, "CNTY"@, 0));
                reveal_strlit("COMMENT");
                assert(differ_at("POTA_REF"@, "COMMENT"@, 0));
                reveal_strlit("COMMENT_INTL");
                assert(differ_at("POTA_REF"@, "COMMENT_INTL"@, 0));
                reveal_strlit("CONT");
                assert(differ_at("POTA_REF"@, "CONT"@, 0));
                reveal_strlit("CONTACTED_OP");
                assert(differ_at("POTA_REF"@, "CONTACTED_OP"@, 0));
                reveal_strlit("CONTEST_ID");
                assert(differ_at("POTA_REF"@, "CONTEST_ID"@, 0));
                reveal_strlit("COUNTRY");
                assert(differ_at("POTA_REF"@, "COUNTRY"@, 0));
                reveal_strlit("CQZ");
                assert(differ_at("POTA_REF"@, "CQZ"@, 0));
                reveal_strlit("DXCC");
                assert(differ_at("POTA_REF"@, "DXCC"@, 0));
                reveal_strlit("EMAIL");
                assert(differ_at("POTA_REF"@, "EMAIL"@, 0));
                reveal_strlit("EQSL_QSL_RCVD");
                assert(differ_at("POTA_REF"@, "EQSL_QSL_RCVD"@, 0));
                reveal_strlit("EQSL_QSL_SENT");
                assert(differ_at("POTA_REF"@, "EQSL_QSL_SENT"@, 0));
                reveal_strlit("FORCE_INIT");
                assert(differ_at("POTA_REF"@, "FORCE_INIT"@, 0));
                reveal_strlit("FREQ");
                assert(differ_at("POTA_REF"@, "FREQ"@, 0));
                reveal_strlit("FREQ_RX");
                assert(differ_at("POTA_REF"@, "FREQ_RX"@, 0));
                reveal_strlit("GRIDSQUARE");
                assert(differ_at("POTA_REF"@, "GRIDSQUARE"@, 0));
                reveal_strlit("GRIDSQUARE_EXT");
                assert(differ_at("POTA_REF"@, "GRIDSQUARE_EXT"@, 0));
                reveal_strlit("IOTA");
                assert(differ_at("POTA_REF"@, "IOTA"@, 0));
                reveal_strlit("ITUZ");
                assert(differ_at("POTA_REF"@, "ITUZ"@, 0));
                reveal_strlit("K_INDEX");
                assert(differ_at("POTA_REF"@, "K_INDEX"@, 0));
                reveal_strlit("LAT");
                assert(differ_at("POTA_REF"@, "LAT"@, 0));
                reveal_strlit("LON");
                assert(differ_at("POTA_REF"@, "LON"@, 0));
                reveal_strlit("LOTW_QSL_RCVD");
                assert(differ_at("POTA_REF"@, "LOTW_QSL_RCVD"@, 0));
                reveal_strlit("LOTW_QSL_SENT");
                assert(differ_at("POTA_REF"@, "LOTW_QSL_SENT"@, 0));
                reveal_strlit("MODE");
                assert(differ_at("POTA_REF"@, "MODE"@, 0));
                reveal_strlit("MORSE_KEY_TYPE");
                assert(differ_at("POTA_REF"@, "MORSE_KEY_TYPE"@, 0));
                reveal_strlit("MY_DXCC");
                assert(differ_at("POTA_REF"@, "MY_DXCC"@, 0));
                reveal_strlit("MY_GRIDSQUARE");
                assert(differ_at("POTA_REF"@, "MY_GRIDSQUARE"@, 0));
                reveal_strlit("MY_LAT");
                assert(differ_at("POTA_REF"@, "MY_LAT"@, 0));
                reveal_strlit("MY_LON");
                assert(differ_at("POTA_REF"@, "MY_LON"@, 0));
                reveal_strlit("MY_POTA_REF");
                assert(differ_at("POTA_REF"@, "MY_POTA_REF"@, 0));
                reveal_strlit("MY_SOTA_REF");
                assert(differ_at("POTA_REF"@, "MY_SOTA_REF"@, 0));
                reveal_strlit("MY_WWFF_REF");
                assert(differ_at("POTA_REF"@, "MY_WWFF_REF"@, 0));
                reveal_strlit("NAME");
                assert(differ_at("POTA_REF"@, "NAME"@, 0));
                reveal_strlit("NAME_INTL");
                assert(differ_at("POTA_REF"@, "NAME_INTL"@, 0));
                reveal_strlit("NOTES");
                assert(differ_at("POTA_REF"@, "NOTES"@, 0));
                assert(token_chars("POTA_REF"@));
            },
            QSOFieldName::PROP_MODE => {
                reveal_strlit("PROP_MODE");
                reveal_strlit("ADDRESS");
                assert(differ_at("PROP_MODE"@, "ADDRESS"@, 0));
                reveal_strlit("ADDRESS_INTL");
                assert(differ_at("PROP_MODE"@, "ADDRESS_INTL"@, 0));
                reveal_strlit("AGE");
                assert(differ_at("PROP_MODE"@, "AGE"@, 0));
                reveal_strlit("ANT_AZ");
                assert(differ_at("PROP_MODE"@, "ANT_AZ"@, 0));
                reveal_strlit("ANT_EL");
                assert(differ_at("PROP_MODE"@, "ANT_EL"@, 0));
                reveal_strlit("ANT_PATH");
                assert(differ_at("PROP_MODE"@, "ANT_PATH"@, 0));
                reveal_strlit("A_INDEX");
                assert(differ_at("PROP_MODE"@, "A_INDEX"@, 0));
                reveal_strlit("AWARD_GRANTED");
                assert(differ_at("PROP_MODE"@, "AWARD_GRANTED"@, 0));
                reveal_strlit("AWARD_SUBMITTED");
                assert(differ_at("PROP_MODE"@, "AWARD_SUBMITTED"@, 0));
                reveal_strlit("BAND");
                assert(differ_at("PROP_MODE"@, "BAND"@, 0));
                reveal_strlit("BAND_RX");
                assert(differ_at("PROP_MODE"@, "BAND_RX"@, 0));
                reveal_strlit("CALL");
                assert(differ_at("PROP_MODE"@, "CALL"@, 0));
                reveal_strlit("CHECK");
                assert(differ_at("PROP_MODE"@, "CHECK"@, 0));
                reveal_strlit("CLASS");
                assert(differ_at("PROP_MODE"@, "CLASS"@, 0));
                reveal_strlit("CLUBLOG_QSO_UPLOAD_DATE");
                assert(differ_at("PROP_MODE"@, "CLUBLOG_QSO_UPLOAD_DATE"@, 0));
                reveal_strlit("CLUBLOG_QSO_UPLOAD_STATUS");
                assert(differ_at("PROP_MODE"@, "CLUBLOG_QSO_UPLOAD_STATUS"@, 0));
                reveal_strlit("CNTY");
                assert(differ_at("PROP_MODE"@, "CNTY"@, 0));
                reveal_strlit("COMMENT");
                assert(differ_at("PROP_MODE"@, "COMMENT"@, 0));
                reveal_strlit("COMMENT_INTL");
                assert(differ_at("PROP_MODE"@, "COMMENT_INTL"@, 0));
                reveal_strlit("CONT");
                assert(differ_at("PROP_MODE"@, "CONT"@, 0));
                reveal_strlit("CONTACTED_OP");
                assert(differ_at("PROP_MODE"@, "CONTACTED_OP"@, 0));
                reveal_strlit("CONTEST_ID");
                assert(differ_at("PROP_MODE"@, "CONTEST_ID"@, 0));
                reveal_strlit("COUNTRY");
                assert(differ_at("PROP_MODE"@, "COUNTRY"@, 0));
                reveal_strlit("CQZ");
                assert(differ_at("PROP_MODE"@, "CQZ"@, 0));
                reveal_strlit("DXCC");
                assert(differ_at("PROP_MODE"@, "DXCC"@, 0));
                reveal_strlit("EMAIL");
                assert(differ_at("PROP_MODE"@, "EMAIL"@, 0));
                reveal_strlit("EQSL_QSL_RCVD");
                assert(differ_at("PROP_MODE"@, "EQSL_QSL_RCVD"@, 0));
                reveal_strlit("EQSL_QSL_SENT");
                assert(differ_at("PROP_MODE"@, "EQSL_QSL_SENT"@, 0));
                reveal_strlit("FORCE_INIT");
                assert(differ_at("PROP_MODE"@, "FORCE_INIT"@, 0));
                reveal_strlit("FREQ");
                assert(differ_at("PROP_MODE"@, "FREQ"@, 0));
                reveal_strlit("FREQ_RX");
                assert(differ_at("PROP_MODE"@, "FREQ_RX"@, 0));
                reveal_strlit("GRIDSQUARE");
                assert(differ_at("PROP_MODE"@, "GRIDSQUARE"@, 0));
                reveal_strlit("GRIDSQUARE_EXT");
                assert(differ_at("PROP_MODE"@, "GRIDSQUARE_EXT"@, 0));
                reveal_strlit("IOTA");
                assert(differ_at("PROP_MODE"@, "IOTA"@, 0));
                reveal_strlit("ITUZ");
                assert(differ_at("PROP_MODE"@, "ITUZ"@, 0));
                reveal_strlit("K_INDEX");
                assert(differ_at("PROP_MODE"@, "K_INDEX"@, 0));
                reveal_strlit("LAT");
                assert(differ_at("PROP_MODE"@, "LAT"@, 0));
                reveal_strlit("LON");
                assert(differ_at("PROP_MODE"@, "LON"@, 0));
                reveal_strlit("LOTW_QSL_RCVD");
                assert(differ_at("PROP_MODE"@, "LOTW_QSL_RCVD"@, 0));
                reveal_strlit("LOTW_QSL_SENT");
                assert(differ_at("PROP_MODE"@, "LOTW_QSL_SENT"@, 0));
                reveal_strlit("MODE");
                assert(differ_at("PROP_MODE"@, "MODE"@, 0));
                reveal_strlit("MORSE_KEY_TYPE");
                assert(differ_at("PROP_MODE"@, "MORSE_KEY_TYPE"@, 0));
                reveal_strlit("MY_DXCC");
                assert(differ_at("PROP_MODE"@, "MY_DXCC"@, 0));
                reveal_strlit("MY_GRIDSQUARE");
                assert(differ_at("PROP_MODE"@, "MY_GRIDSQUARE"@, 0));
                reveal_strlit("MY_LAT");
                assert(differ_at("PROP_MODE"@, "MY_LAT"@, 0));
                reveal_strlit("MY_LON");
                assert(differ_at("PROP_MODE"@, "MY_LON"@, 0));
                reveal_strlit("MY_POTA_REF");
                assert(differ_at("PROP_MODE"@, "MY_POTA_REF"@, 0));
                reveal_strlit("MY_SOTA_REF");
                assert(differ_at("PROP_MODE"@, "MY_SOTA_REF"@, 0));
                reveal_strlit("MY_WWFF_REF");
                assert(differ_at("PROP_MODE"@, "MY_WWFF_REF"@, 0));
                reveal_strlit("NAME");
                assert(differ_at("PROP_MODE"@, "NAME"@, 0));
                reveal_strlit("NAME_INTL");
                assert(differ_at("PROP_MODE"@, "NAME_INTL"@, 0));
                reveal_strlit("NOTES");
                assert(differ_at("PROP_MODE"@, "NOTES"@, 0));
                reveal_strlit("POTA_REF");
                assert(differ_at("PROP_MODE"@, "POTA_REF"@, 0));
                assert(token_chars("PROP_MODE"@));
            },
            QSOFieldName::QSLMSG => {
                reveal_strlit("QSLMSG");
                reveal_strlit("ADDRESS");
                assert(differ_at("QSLMSG"@, "ADDRESS"@, 0));
                reveal_strlit("ADDRESS_INTL");
                assert(differ_at("QSLMSG"@, "ADDRESS_INTL"@, 0));
                reveal_strlit("AGE");
                assert(differ_at("QSLMSG"@, "AGE"@, 0));
                reveal_strlit("ANT_AZ");
                assert(differ_at("QSLMSG"@, "ANT_AZ"@, 0));
                reveal_strlit("ANT_EL");
                assert(differ_at("QSLMSG"@, "ANT_EL"@, 0));
                reveal_strlit("ANT_PATH");
                assert(differ_at("QSLMSG"@, "ANT_PATH"@, 0));
                reveal_strlit("A_INDEX");
                assert(differ_at("QSLMSG"@, "A_INDEX"@, 0));
                reveal_strlit("AWARD_GRANTED");
                assert(differ_at("QSLMSG"@, "AWARD_GRANTED"@, 0));
                reveal_strlit("AWARD_SUBMITTED");
                assert(differ_at("QSLMSG"@, "AWARD_SUBMITTED"@, 0));
                reveal_strlit("BAND");
                assert(differ_at("QSLMSG"@, "BAND"@, 0));
                reveal_strlit("BAND_RX");
                assert(differ_at("QSLMSG"@, "BAND_RX"@, 0));
                reveal_strlit("CALL");
                assert(differ_at("QSLMSG"@, "CALL"@, 0));
                reveal_strlit("CHECK");
                assert(differ_at("QSLMSG"@, "CHECK"@, 0));
                reveal_strlit("CLASS");
                assert(differ_at("QSLMSG"@, "CLASS"@, 0));
                reveal_strlit("CLUBLOG_QSO_UPLOAD_DATE");
                assert(differ_at("QSLMSG"@, "CLUBLOG_QSO_UPLOAD_DATE"@, 0));
                reveal_strlit("CLUBLOG_QSO_UPLOAD_STATUS");
                assert(differ_at("QSLMSG"@, "CLUBLOG_QSO_UPLOAD_STATUS"@, 0));
                reveal_strlit("CNTY");
                assert(differ_at("QSLMSG"@, "CNTY"@, 0));
                reveal_strlit("COMMENT");
                assert(differ_at("QSLMSG"@, "COMMENT"@, 0));
                reveal_strlit("COMMENT_INTL");
                assert(differ_at("QSLMSG"@, "COMMENT_INTL"@, 0));
                reveal_strlit("CONT");
                assert(differ_at("QSLMSG"@, "CONT"@, 0));
                reveal_strlit("CONTACTED_OP");
                assert(differ_at("QSLMSG"@, "CONTACTED_OP"@, 0));
                reveal_strlit("CONTEST_ID");
                assert(differ_at("QSLMSG"@, "CONTEST_ID"@, 0));
                reveal_strlit("COUNTRY");
                assert(differ_at("QSLMSG"@, "COUNTRY"@, 0));
                reveal_strlit("CQZ");
                assert(differ_at("QSLMSG"@, "CQZ"@, 0));
                reveal_strlit("DXCC");
                assert(differ_at("QSLMSG"@, "DXCC"@, 0));
                reveal_strlit("EMAIL");
                assert(differ_at("QSLMSG"@, "EMAIL"@, 0));
                reveal_strlit("EQSL_QSL_RCVD");
                assert(differ_at("QSLMSG"@, "EQSL_QSL_RCVD"@, 0));
                reveal_strlit("EQSL_QSL_SENT");
                assert(differ_at("QSLMSG"@, "EQSL_QSL_SENT"@, 0));
                reveal_strlit("FORCE_INIT");
                assert(differ_at("QSLMSG"@, "FORCE_INIT"@, 0));
                reveal_strlit("FREQ");
                assert(differ_at("QSLMSG"@, "FREQ"@, 0));
                reveal_strlit("FREQ_RX");
                assert(differ_at("QSLMSG"@, "FREQ_RX"@, 0));
                reveal_strlit("GRIDSQUARE");
                assert(differ_at("QSLMSG"@, "GRIDSQUARE"@, 0));
                reveal_strlit("GRIDSQUARE_EXT");
                assert(differ_at("QSLMSG"@, "GRIDSQUARE_EXT"@, 0));
                reveal_strlit("IOTA");
                assert(differ_at("QSLMSG"@, "IOTA"@, 0));
                reveal_strlit("ITUZ");
                assert(differ_at("QSLMSG"@, "ITUZ"@, 0));
                reveal_strlit("K_INDEX");
                assert(differ_at("QSLMSG"@, "K_INDEX"@, 0));
                reveal_strlit("LAT");
                assert(differ_at("QSLMSG"@, "LAT"@, 0));
                reveal_strlit("LON");
                assert(differ_at("QSLMSG"@, "LON"@, 0));
                reveal_strlit("LOTW_QSL_RCVD");
                assert(differ_at("QSLMSG"@, "LOTW_QSL_RCVD"@, 0));
                reveal_strlit("LOTW_QSL_SENT");
                assert(differ_at("QSLMSG"@, "LOTW_QSL_SENT"@, 0));
                reveal_strlit("MODE");
                assert(differ_at("QSLMSG"@, "MODE"@, 0));
                reveal_strlit("MORSE_KEY_TYPE");
                assert(differ_at("QSLMSG"@, "MORSE_KEY_TYPE"@, 0));
                reveal_strlit("MY_DXCC");
                assert(differ_at("QSLMSG"@, "MY_DXCC"@, 0));
                reveal_strlit("MY_GRIDSQUARE");
                assert(differ_at("QSLMSG"@, "MY_GRIDSQUARE"@, 0));
                reveal_strlit("MY_LAT");
                assert(differ_at("QSLMSG"@, "MY_LAT"@, 0));
                reveal_strlit("MY_LON");
                assert(differ_at("QSLMSG"@, "MY_LON"@, 0));
                reveal_strlit("MY_POTA_REF");
                assert(differ_at("QSLMSG"@, "MY_POTA_REF"@, 0));
                reveal_strlit("MY_SOTA_REF");
                assert(differ_at("QSLMSG"@, "MY_SOTA_REF"@, 0));
                reveal_strlit("MY_WWFF_REF");
                assert(differ_at("QSLMSG"@, "MY_WWFF_REF"@, 0));
                reveal_strlit("NAME");
                assert(differ_at("QSLMSG"@, "NAME"@, 0));
                reveal_strlit("NAME_INTL");
                assert(differ_at("QSLMSG"@, "NAME_INTL"@, 0));
                reveal_strlit("NOTES");
                assert(differ_at("QSLMSG"@, "NOTES"@, 0));
                reveal_strlit("POTA_REF");
                assert(differ_at("QSLMSG"@, "POTA_REF"@, 0));
                reveal_strlit("PROP_MODE");
                assert(differ_at("QSLMSG"@, "PROP_MODE"@, 0));
                assert(token_chars("QSLMSG"@));
            },
            QSOFieldName::QSL_RCVD => {
                reveal_strlit("QSL_RCVD");
                reveal_strlit("ADDRESS");
                assert(differ_at("QSL_RCVD"@, "ADDRESS"@, 0));
                reveal_strlit("ADDRESS_INTL");
                assert(differ_at("QSL_RCVD"@, "ADDRESS_INTL"@, 0));
                reveal_strlit("AGE");
                assert(differ_at("QSL_RCVD"@, "AGE"@, 0));
                reveal_strlit("ANT_AZ");
                assert(differ_at("QSL_RCVD"@, "ANT_AZ"@, 0));
                reveal_strlit("ANT_EL");
                assert(differ_at("QSL_RCVD"@, "ANT_EL"@, 0));
                reveal_strlit("ANT_PATH");
                assert(differ_at("QSL_RCVD"@, "ANT_PATH"@, 0));
                reveal_strlit("A_INDEX");
                assert(differ_at("QSL_RCVD"@, "A_INDEX"@, 0));
                reveal_strlit("AWARD_GRANTED");
                assert(differ_at("QSL_RCVD"@, "AWARD_GRANTED"@, 0));
                reveal_strlit("AWARD_SUBMITTED");
                assert(differ_at("QSL_RCVD"@, "AWARD_SUBMITTED"@, 0));
                reveal_strlit("BAND");
                assert(differ_at("QSL_RCVD"@, "BAND"@, 0));
                reveal_strlit("BAND_RX");
                assert(differ_at("QSL_RCVD"@, "BAND_RX"@, 0));
                reveal_strlit("CALL");
                assert(differ_at("QSL_RCVD"@, "CALL"@, 0));
                reveal_strlit("CHECK");
                assert(differ_at("QSL_RCVD"@, "CHECK"@, 0));
                reveal_strlit("CLASS");
                assert(differ_at("QSL_RCVD"@, "CLASS"@, 0));
                reveal_strlit("CLUBLOG_QSO_UPLOAD_DATE");
                assert(differ_at("QSL_RCVD"@, "CLUBLOG_QSO_UPLOAD_DATE"@, 0));
                reveal_strlit("CLUBLOG_QSO_UPLOAD_STATUS");
                assert(differ_at("QSL_RCVD"@, "CLUBLOG_QSO_UPLOAD_STATUS"@, 0));
                reveal_strlit("CNTY");
                assert(differ_at("QSL_RCVD"@, "CNTY"@, 0));
                reveal_strlit("COMMENT");
                assert(differ_at("QSL_RCVD"@, "COMMENT"@, 0));
                reveal_strlit("COMMENT_INTL");
                assert(differ_at("QSL_RCVD"@, "COMMENT_INTL"@, 0));
                reveal_strlit("CONT");
                assert(differ_at("QSL_RCVD"@, "CONT"@, 0));
                reveal_strlit("CONTACTED_OP");
                assert(differ_at("QSL_RCVD"@, "CONTACTED_OP"@, 0));
                reveal_strlit("CONTEST_ID");
                assert(differ_at("QSL_RCVD"@, "CONTEST_ID"@, 0));
                reveal_strlit("COUNTRY");
                assert(differ_at("QSL_RCVD"@, "COUNTRY"@, 0));
                reveal_strlit("CQZ");
                assert(differ_at("QSL_RCVD"@, "CQZ"@, 0));
                reveal_strlit("DXCC");
                assert(differ_at("QSL_RCVD"@, "DXCC"@, 0));
                reveal_strlit("EMAIL");
                assert(differ_at("QSL_RCVD"@, "EMAIL"@, 0));
                reveal_strlit("EQSL_QSL_RCVD");
                assert(differ_at("QSL_RCVD"@, "EQSL_QSL_RCVD"@, 0));
                reveal_strlit("EQSL_QSL_SENT");
                assert(differ_at("QSL_RCVD"@, "EQSL_QSL_SENT"@, 0));
                reveal_strlit("FORCE_INIT");
                assert(differ_at("QSL_RCVD"@, "FORCE_INIT"@, 0));
                reveal_strlit("FREQ");
                assert(differ_at("QSL_RCVD"@, "FREQ"@, 0));
                reveal_strlit("FREQ_RX");
                assert(differ_at("QSL_RCVD"@, "FREQ_RX"@, 0));
                reveal_strlit("GRIDSQUARE");
                assert(differ_at("QSL_RCVD"@, "GRIDSQUARE"@, 0));
                reveal_strlit("GRIDSQUARE_EXT");
                assert(differ_at("QSL_RCVD"@, "GRIDSQUARE_EXT"@, 0));
                reveal_strlit("IOTA");
                assert(differ_at("QSL_RCVD"@, "IOTA"@, 0));
                reveal_strlit("ITUZ");
                assert(differ_at("QSL_RCVD"@, "ITUZ"@, 0));
                reveal_strlit("K_INDEX");
                assert(differ_at("QSL_RCVD"@, "K_INDEX"@, 0));
                reveal_strlit("LAT");
                assert(differ_at("QSL_RCVD"@, "LAT"@, 0));
                reveal_strlit("LON");
                assert(differ_at("QSL_RCVD"@, "LON"@, 0));
                reveal_strlit("LOTW_QSL_RCVD");
                assert(differ_at("QSL_RCVD"@, "LOTW_QSL_RCVD"@, 0));
                reveal_strlit("LOTW_QSL_SENT");
                assert(differ_at("QSL_RCVD"@, "LOTW_QSL_SENT"@, 0));
                reveal_strlit("MODE");
                assert(differ_at("QSL_RCVD"@, "MODE"@, 0));
                reveal_strlit("MORSE_KEY_TYPE");
                assert(differ_at("QSL_RCVD"@, "MORSE_KEY_TYPE"@, 0));
                reveal_strlit("MY_DXCC");
                assert(differ_at("QSL_RCVD"@, "MY_DXCC"@, 0));
                reveal_strlit("MY_GRIDSQUARE");
                assert(differ_at("QSL_RCVD"@, "MY_GRIDSQUARE"@, 0));
                reveal_strlit("MY_LAT");
                assert(differ_at("QSL_RCVD"@, "MY_LAT"@, 0));
                reveal_strlit("MY_LON");
                assert(differ_at("QSL_RCVD"@, "MY_LON"@, 0));
                reveal_strlit("MY_POTA_REF");
                assert(differ_at("QSL_RCVD"@, "MY_POTA_REF"@, 0));
                reveal_strlit("MY_SOTA_REF");
                assert(differ_at("QSL_RCVD"@, "MY_SOTA_REF"@, 0));
                reveal_strlit("MY_WWFF_REF");
                assert(differ_at("QSL_RCVD"@, "MY_WWFF_REF"@, 0));
                reveal_strlit("NAME");
                assert(differ_at("QSL_RCVD"@, "NAME"@, 0));
                reveal_strlit("NAME_INTL");
                assert(differ_at("QSL_RCVD"@, "NAME_INTL"@, 0));
                reveal_strlit("NOTES");
                assert(differ_at("QSL_RCVD"@, "NOTES"@, 0));
                reveal_strlit("POTA_REF");
                assert(differ_at("QSL_RCVD"@, "POTA_REF"@, 0));
                reveal_strlit("PROP_MODE");
                assert(differ_at("QSL_RCVD"@, "PROP_MODE"@, 0));
                reveal_strlit("QSLMSG");
                assert(differ_at("QSL_RCVD"@, "QSLMSG"@, 0));
                assert(token_chars("QSL_RCVD"@));
            },
            QSOFieldName::QSL_RCVD_VIA => {
                reveal_strlit("QSL_RCVD_VIA");
                reveal_strlit("ADDRESS");
                assert(differ_at("QSL_RCVD_VIA"@, "ADDRESS"@, 0));
                reveal_strlit("ADDRESS_INTL");
                assert(differ_at("QSL_RCVD_VIA"@, "ADDRESS_INTL"@, 0));
                reveal_strlit("AGE");
                assert(differ_at("QSL_RCVD_VIA"@, "AGE"@, 0));
                reveal_strlit("ANT_AZ");
                assert(differ_at("QSL_RCVD_VIA"@, "ANT_AZ"@, 0));
                reveal_strlit("ANT_EL");
                assert(differ_at("QSL_RCVD_VIA"@, "ANT_EL"@, 0));
                reveal_strlit("ANT_PATH");
                assert(differ_at("QSL_RCVD_VIA"@, "ANT_PATH"@, 0));
                reveal_strlit("A_INDEX");
                assert(differ_at("QSL_RCVD_VIA"@, "A_INDEX"@, 0));
                reveal_strlit("AWARD_GRANTED");
                assert(differ_at("QSL_RCVD_VIA"@, "AWARD_GRANTED"@, 0));
                reveal_strlit("AWARD_SUBMITTED");
                assert(differ_at("QSL_RCVD_VIA"@, "AWARD_SUBMITTED"@, 0));
                reveal_strlit("BAND");
                assert(differ_at("QSL_RCVD_VIA"@, "BAND"@, 0));
                reveal_strlit("BAND_RX");
                assert(differ_at("QSL_RCVD_VIA"@, "BAND_RX"@, 0));
                reveal_strlit("CALL");
                assert(differ_at("QSL_RCVD_VIA"@, "CALL"@, 0));
                reveal_strlit("CHECK");
                assert(differ_at("QSL_RCVD_VIA"@, "CHECK"@, 0));
                reveal_strlit("CLASS");
                assert(differ_at("QSL_RCVD_VIA"@, "CLASS"@, 0));
                reveal_strlit("CLUBLOG_QSO_UPLOAD_DATE");
                assert(differ_at("QSL_RCVD_VIA"@, "CLUBLOG_QSO_UPLOAD_DATE"@, 0));
                reveal_strlit("CLUBLOG_QSO_UPLOAD_STATUS");
                assert(differ_at("QSL_RCVD_VIA"@, "CLUBLOG_QSO_UPLOAD_STATUS"@, 0));
                reveal_strlit("CNTY");
                assert(differ_at("QSL_RCVD_VIA"@, "CNTY"@, 0));
                reveal_strlit("COMMENT");
                assert(differ_at("QSL_RCVD_VIA"@, "COMMENT"@, 0));
                reveal_strlit("COMMENT_INTL");
                assert(differ_at("QSL_RCVD_VIA"@, "COMMENT_INTL"@, 0));
                reveal_strlit("CONT");
                assert(differ_at("QSL_RCVD_VIA"@, "CONT"@, 0));
                reveal_strlit("CONTACTED_OP");
                assert(differ_at("QSL_RCVD_VIA"@, "CONTACTED_OP"@, 0));
                reveal_strlit("CONTEST_ID");
                assert(differ_at("QSL_RCVD_VIA"@, "CONTEST_ID"@, 0));
                reveal_strlit("COUNTRY");
                assert(differ_at("QSL_RCVD_VIA"@, "COUNTRY"@, 0));
                reveal_strlit("CQZ");
                assert(differ_at("QSL_RCVD_VIA"@, "CQZ"@, 0));
                reveal_strlit("DXCC");
                assert(differ_at("QSL_RCVD_VIA"@, "DXCC"@, 0));
                reveal_strlit("EMAIL");
                assert(differ_at("QSL_RCVD_VIA"@, "EMAIL"@, 0));
                reveal_strlit("EQSL_QSL_RCVD");
                assert(differ_at("QSL_RCVD_VIA"@, "EQSL_QSL_RCVD"@, 0));
                reveal_strlit("EQSL_QSL_SENT");
                assert(differ_at("QSL_RCVD_VIA"@, "EQSL_QSL_SENT"@, 0));
                reveal_strlit("FORCE_INIT");
                assert(differ_at("QSL_RCVD_VIA"@, "FORCE_INIT"@, 0));
                reveal_strlit("FREQ");
                assert(differ_at("QSL_RCVD_VIA"@, "FREQ"@, 0));
                reveal_strlit("FREQ_RX");
                assert(differ_at("QSL_RCVD_VIA"@, "FREQ_RX"@, 0));
                reveal_strlit("GRIDSQUARE");
                assert(differ_at("QSL_RCVD_VIA"@, "GRIDSQUARE"@, 0));
                reveal_strlit("GRIDSQUARE_EXT");
                assert(differ_at("QSL_RCVD_VIA"@, "GRIDSQUARE_EXT"@, 0));
                reveal_strlit("IOTA");
                assert(differ_at("QSL_RCVD_VIA"@, "IOTA"@, 0));
                reveal_strlit("ITUZ");
                assert(differ_at("QSL_RCVD_VIA"@, "ITUZ"@, 0));
                reveal_strlit("K_INDEX");
                assert(differ_at("QSL_RCVD_VIA"@, "K_INDEX"@, 0));
                reveal_strlit("LAT");
                assert(differ_at("QSL_RCVD_VIA"@, "LAT"@, 0));
                reveal_strlit("LON");
                assert(differ_at("QSL_RCVD_VIA"@, "LON"@, 0));
                reveal_strlit("LOTW_QSL_RCVD");
                assert(differ_at("QSL_RCVD_VIA"@, "LOTW_QSL_RCVD"@, 0));
                reveal_strlit("LOTW_QSL_SENT");
                assert(differ_at("QSL_RCVD_VIA"@, "LOTW_QSL_SENT"@, 0));
                reveal_strlit("MODE");
                assert(differ_at("QSL_RCVD_VIA"@, "MODE"@, 0));
                reveal_strlit("MORSE_KEY_TYPE");
                assert(differ_at("QSL_RCVD_VIA"@, "MORSE_KEY_TYPE"@, 0));
                reveal_strlit("MY_DXCC");
                assert(differ_at("QSL_RCVD_VIA"@, "MY_DXCC"@, 0));
                reveal_strlit("MY_GRIDSQUARE");
                assert(differ_at("QSL_RCVD_VIA"@, "MY_GRIDSQUARE"@, 0));
                reveal_strlit("MY_LAT");
                assert(differ_at("QSL_RCVD_VIA"@, "MY_LAT"@, 0));
                reveal_strlit("MY_LON");
                assert(differ_at("QSL_RCVD_VIA"@, "MY_LON"@, 0));
                reveal_strlit("MY_POTA_REF");
                assert(differ_at("QSL_RCVD_VIA"@, "MY_POTA_REF"@, 0));
                reveal_strlit("MY_SOTA_REF");
                assert(differ_at("QSL_RCVD_VIA"@, "MY_SOTA_REF"@, 0));
                reveal_strlit("MY_WWFF_REF");
                assert(differ_at("QSL_RCVD_VIA"@, "MY_WWFF_REF"@, 0));
                reveal_strlit("NAME");
                assert(differ_at("QSL_RCVD_VIA"@, "NAME"@, 0));
                reveal_strlit("NAME_INTL");
                assert(differ_at("QSL_RCVD_VIA"@, "NAME_INTL"@, 0));
                reveal_strlit("NOTES");
                assert(differ_at("QSL_RCVD_VIA"@, "NOTES"@, 0));
                reveal_strlit("POTA_REF");
                assert(differ_at("QSL_RCVD_VIA"@, "POTA_REF"@, 0));
                reveal_strlit("PROP_MODE");
                assert(differ_at("QSL_RCVD_VIA"@, "PROP_MODE"@, 0));
                reveal_strlit("QSLMSG");
                assert(differ_at("QSL_RCVD_VIA"@, "QSLMSG"@, 0));
                reveal_strlit("QSL_RCVD");
                assert(differ_at("QSL_RCVD_VIA"@, "QSL_RCVD"@, 0));
                assert(token_chars("QSL_RCVD_VIA"@));
            },
            QSOFieldName::QSL_SENT => {
                reveal_strlit("QSL_SENT");
                reveal_strlit("ADDRESS");
                assert(differ_at("QSL_SENT"@, "ADDRESS"@, 0));
                reveal_strlit("ADDRESS_INTL");
                assert(differ_at("QSL_SENT"@, "ADDRESS_INTL"@, 0));
                reveal_strlit("AGE");
                assert(differ_at("QSL_SENT"@, "AGE"@, 0));
                reveal_strlit("ANT_AZ");
                assert(differ_at("QSL_SENT"@, "ANT_AZ"@, 0));
                reveal_strlit("ANT_EL");
                assert(differ_at("QSL_SENT"@, "ANT_EL"@, 0));
                reveal_strlit("ANT_PATH");
                assert(differ_at("QSL_SENT"@, "ANT_PATH"@, 0));
                reveal_strlit("A_INDEX");
                assert(differ_at("QSL_SENT"@, "A_INDEX"@, 0));
                reveal_strlit("AWARD_GRANTED");
                assert(differ_at("QSL_SENT"@, "AWARD_GRANTED"@, 0));
                reveal_strlit("AWARD_SUBMITTED");
                assert(differ_at("QSL_SENT"@, "AWARD_SUBMITTED"@, 0));
                reveal_strlit("BAND");
                assert(differ_at("QSL_SENT"@, "BAND"@, 0));
                reveal_strlit("BAND_RX");
                assert(differ_at("QSL_SENT"@, "BAND_RX"@, 0));
                reveal_strlit("CALL");
                assert(differ_at("QSL_SENT"@, "CALL"@, 0));
                reveal_strlit("CHECK");
                assert(differ_at("QSL_SENT"@, "CHECK"@, 0));
                reveal_strlit("CLASS");
                assert(differ_at("QSL_SENT"@, "CLASS"@, 0));
                reveal_strlit("CLUBLOG_QSO_UPLOAD_DATE");
                assert(differ_at("QSL_SENT"@, "CLUBLOG_QSO_UPLOAD_DATE"@, 0));
                reveal_strlit("CLUBLOG_QSO_UPLOAD_STATUS");
                assert(differ_at("QSL_SENT"@, "CLUBLOG_QSO_UPLOAD_STATUS"@, 0));
                reveal_strlit("CNTY");
                assert(differ_at("QSL_SENT"@, "CNTY"@, 0));
                reveal_strlit("COMMENT");
                assert(differ_at("QSL_SENT"@, "COMMENT"@, 0));
                reveal_strlit("COMMENT_INTL");
                assert(differ_at("QSL_SENT"@, "COMMENT_INTL"@, 0));
                reveal_strlit("CONT");
                assert(differ_at("QSL_SENT"@, "CONT"@, 0));
                reveal_strlit("CONTACTED_OP");
                assert(differ_at("QSL_SENT"@, "CONTACTED_OP"@, 0));
                reveal_strlit("CONTEST_ID");
                assert(differ_at("QSL_SENT"@, "CONTEST_ID"@, 0));
                reveal_strlit("COUNTRY");
                assert(differ_at("QSL_SENT"@, "COUNTRY"@, 0));
                reveal_strlit("CQZ");
                assert(differ_at("QSL_SENT"@, "CQZ"@, 0));
                reveal_strlit("DXCC");
                assert(differ_at("QSL_SENT"@, "DXCC"@, 0));
                reveal_strlit("EMAIL");
                assert(differ_at("QSL_SENT"@, "EMAIL"@, 0));
                reveal_strlit("EQSL_QSL_RCVD");
                assert(differ_at("QSL_SENT"@, "EQSL_QSL_RCVD"@, 0));
                reveal_strlit("EQSL_QSL_SENT");
                assert(differ_at("QSL_SENT"@, "EQSL_QSL_SENT"@, 0));
                reveal_strlit("FORCE_INIT");
                assert(differ_at("QSL_SENT"@, "FORCE_INIT"@, 0));
                reveal_strlit("FREQ");
                assert(differ_at("QSL_SENT"@, "FREQ"@, 0));
                reveal_strlit("FREQ_RX");
                assert(differ_at("QSL_SENT"@, "FREQ_RX"@, 0));
                reveal_strlit("GRIDSQUARE");
                assert(differ_at("QSL_SENT"@, "GRIDSQUARE"@, 0));
                reveal_strlit("GRIDSQUARE_EXT");
                assert(differ_at("QSL_SENT"@, "GRIDSQUARE_EXT"@, 0));
                reveal_strlit("IOTA");
                assert(differ_at("QSL_SENT"@, "IOTA"@, 0));
                reveal_strlit("ITUZ");
                assert(differ_at("QSL_SENT"@, "ITUZ"@, 0));
                reveal_strlit("K_INDEX");
                assert(differ_at("QSL_SENT"@, "K_INDEX"@, 0));
                reveal_strlit("LAT");
                assert(differ_at("QSL_SENT"@, "LAT"@, 0));
                reveal_strlit("LON");
                assert(differ_at("QSL_SENT"@, "LON"@, 0));
                reveal_strlit("LOTW_QSL_RCVD");
                assert(differ_at("QSL_SENT"@, "LOTW_QSL_RCVD"@, 0));
                reveal_strlit("LOTW_QSL_SENT");
                assert(differ_at("QSL_SENT"@, "LOTW_QSL_SENT"@, 0));
                reveal_strlit("MODE");
                assert(differ_at("QSL_SENT"@, "MODE"@, 0));
                reveal_strlit("MORSE_KEY_TYPE");
                assert(differ_at("QSL_SENT"@, "MORSE_KEY_TYPE"@, 0));
                reveal_strlit("MY_DXCC");
                assert(differ_at("QSL_SENT"@, "MY_DXCC"@, 0));
                reveal_strlit("MY_GRIDSQUARE");
                assert(differ_at("QSL_SENT"@, "MY_GRIDSQUARE"@, 0));
                reveal_strlit("MY_LAT");
                assert(differ_at("QSL_SENT"@, "MY_LAT"@, 0));
                reveal_strlit("MY_LON");
                assert(differ_at("QSL_SENT"@, "MY_LON"@, 0));
                reveal_strlit("MY_POTA_REF");
                assert(differ_at("QSL_SENT"@, "MY_POTA_REF"@, 0));
                reveal_strlit("MY_SOTA_REF");
                assert(differ_at("QSL_SENT"@, "MY_SOTA_REF"@, 0));
                reveal_strlit("MY_WWFF_REF");
                assert(differ_at("QSL_SENT"@, "MY_WWFF_REF"@, 0));
                reveal_strlit("NAME");
                assert(differ_at("QSL_SENT"@, "NAME"@, 0));
                reveal_strlit("NAME_INTL");
                assert(differ_at("QSL_SENT"@, "NAME_INTL"@, 0));
                reveal_strlit("NOTES");
                assert(differ_at("QSL_SENT"@, "NOTES"@, 0));
                reveal_strlit("POTA_REF");
                assert(differ_at("QSL_SENT"@, "POTA_REF"@, 0));
                reveal_strlit("PROP_MODE");
                assert(differ_at("QSL_SENT"@, "PROP_MODE"@, 0));
                reveal_strlit("QSLMSG");
                assert(differ_at("QSL_SENT"@, "QSLMSG"@, 0));
                reveal_strlit("QSL_RCVD");
                assert(differ_at("QSL_SENT"@, "QSL_RCVD"@, 4));
                reveal_strlit("QSL_RCVD_VIA");
                assert(differ_at("QSL_SENT"@, "QSL_RCVD_VIA"@, 0));
                assert(token_chars("QSL_SENT"@));
            },
            QSOFieldName::QSL_SENT_VIA => {
                reveal_strlit("QSL_SENT_VIA");
                reveal_strlit("ADDRESS");
                assert(differ_at("QSL_SENT_VIA"@, "ADDRESS"@, 0));
                reveal_strlit("ADDRESS_INTL");
                assert(differ_at("QSL_SENT_VIA"@, "ADDRESS_INTL"@, 0));
                reveal_strlit("AGE");
                assert(differ_at("QSL_SENT_VIA"@, "AGE"@, 0));
                reveal_strlit("ANT_AZ");
                assert(differ_at("QSL_SENT_VIA"@, "ANT_AZ"@, 0));
                reveal_strlit("ANT_EL");
                assert(differ_at("QSL_SENT_VIA"@, "ANT_EL"@, 0));
                reveal_strlit("ANT_PATH");
                assert(differ_at("QSL_SENT_VIA"@, "ANT_PATH"@, 0));
                reveal_strlit("A_INDEX");
                assert(differ_at("QSL_SENT_VIA"@, "A_INDEX"@, 0));
                reveal_strlit("AWARD_GRANTED");
                assert(differ_at("QSL_SENT_VIA"@, "AWARD_GRANTED"@, 0));
                reveal_strlit("AWARD_SUBMITTED");
                assert(differ_at("QSL_SENT_VIA"@, "AWARD_SUBMITTED"@, 0));
                reveal_strlit("BAND");
                assert(differ_at("QSL_SENT_VIA"@, "BAND"@, 0));
                reveal_strlit("BAND_RX");
                assert(differ_at("QSL_SENT_VIA"@, "BAND_RX"@, 0));
                reveal_strlit("CALL");
                assert(differ_at("QSL_SENT_VIA"@, "CALL"@, 0));
                reveal_strlit("CHECK");
                assert(differ_at("QSL_SENT_VIA"@, "CHECK"@, 0));
                reveal_strlit("CLASS");
                assert(differ_at("QSL_SENT_VIA"@, "CLASS"@, 0));
                reveal_strlit("CLUBLOG_QSO_UPLOAD_DATE");
                assert(differ_at("QSL_SENT_VIA"@, "CLUBLOG_QSO_UPLOAD_DATE"@, 0));
                reveal_strlit("CLUBLOG_QSO_UPLOAD_STATUS");
                assert(differ_at("QSL_SENT_VIA"@, "CLUBLOG_QSO_UPLOAD_STATUS"@, 0));
                reveal_strlit("CNTY");
                assert(differ_at("QSL_SENT_VIA"@, "CNTY"@, 0));
                reveal_strlit("COMMENT");
                assert(differ_at("QSL_SENT_VIA"@, "COMMENT"@, 0));
                reveal_strlit("COMMENT_INTL");
                assert(differ_at("QSL_SENT_VIA"@, "COMMENT_INTL"@, 0));
                reveal_strlit("CONT");
                assert(differ_at("QSL_SENT_VIA"@, "CONT"@, 0));
                reveal_strlit("CONTACTED_OP");
                assert(differ_at("QSL_SENT_VIA"@, "CONTACTED_OP"@, 0));
                reveal_strlit("CONTEST_ID");
                assert(differ_at("QSL_SENT_VIA"@, "CONTEST_ID"@, 0));
                reveal_strlit("COUNTRY");
                assert(differ_at("QSL_SENT_VIA"@, "COUNTRY"@, 0));
                reveal_strlit("CQZ");
                assert(differ_at("QSL_SENT_VIA"@, "CQZ"@, 0));
                reveal_strlit("DXCC");
                assert(differ_at("QSL_SENT_VIA"@, "DXCC"@, 0));
                reveal_strlit("EMAIL");
                assert(differ_at("QSL_SENT_VIA"@, "EMAIL"@, 0));
                reveal_strlit("EQSL_QSL_RCVD");
                assert(differ_at("QSL_SENT_VIA"@, "EQSL_QSL_RCVD"@, 0));
                reveal_strlit("EQSL_QSL_SENT");
                assert(differ_at("QSL_SENT_VIA"@, "EQSL_QSL_SENT"@, 0));
                reveal_strlit("FORCE_INIT");
                assert(differ_at("QSL_SENT_VIA"@, "FORCE_INIT"@, 0));
                reveal_strlit("FREQ");
                assert(differ_at("QSL_SENT_VIA"@, "FREQ"@, 0));
                reveal_strlit("FREQ_RX");
                assert(differ_at("QSL_SENT_VIA"@, "FREQ_RX"@, 0));
                reveal_strlit("GRIDSQUARE");
                assert(differ_at("QSL_SENT_VIA"@, "GRIDSQUARE"@, 0));
                reveal_strlit("GRIDSQUARE_EXT");
                assert(differ_at("QSL_SENT_VIA"@, "GRIDSQUARE_EXT"@, 0));
                reveal_strlit("IOTA");
                assert(differ_at("QSL_SENT_VIA"@, "IOTA"@, 0));
                reveal_strlit("ITUZ");
                assert(differ_at("QSL_SENT_VIA"@, "ITUZ"@, 0));
                reveal_strlit("K_INDEX");
                assert(differ_at("QSL_SENT_VIA"@, "K_INDEX"@, 0));
                reveal_strlit("LAT");
                assert(differ_at("QSL_SENT_VIA"@, "LAT"@, 0));
                reveal_strlit("LON");
                assert(differ_at("QSL_SENT_VIA"@, "LON"@, 0));
                reveal_strlit("LOTW_QSL_RCVD");
                assert(differ_at("QSL_SENT_VIA"@, "LOTW_QSL_RCVD"@, 0));
                reveal_strlit("LOTW_QSL_SENT");
                assert(differ_at("QSL_SENT_VIA"@, "LOTW_QSL_SENT"@, 0));
                reveal_strlit("MODE");
                assert(differ_at("QSL_SENT_VIA"@, "MODE"@, 0));
                reveal_strlit("MORSE_KEY_TYPE");
                assert(differ_at("QSL_SENT_VIA"@, "MORSE_KEY_TYPE"@, 0));
                reveal_strlit("MY_DXCC");
                assert(differ_at("QSL_SENT_VIA"@, "MY_DXCC"@, 0));
                reveal_strlit("MY_GRIDSQUARE");
                assert(differ_at("QSL_SENT_VIA"@, "MY_GRIDSQUARE"@, 0));
                reveal_strlit("MY_LAT");
                assert(differ_at("QSL_SENT_VIA"@, "MY_LAT"@, 0));
                reveal_strlit("MY_LON");
                assert(differ_at("QSL_SENT_VIA"@, "MY_LON"@, 0));
                reveal_strlit("MY_POTA_REF");
                assert(differ_at("QSL_SENT_VIA"@, "MY_POTA_REF"@, 0));
                reveal_strlit("MY_SOTA_REF");
                assert(differ_at("QSL_SENT_VIA"@, "MY_SOTA_REF"@, 0));
                reveal_strlit("MY_WWFF_REF");
                assert(differ_at("QSL_SENT_VIA"@, "MY_WWFF_REF"@, 0));
                reveal_strlit("NAME");
                assert(differ_at("QSL_SENT_VIA"@, "NAME"@, 0));
                reveal_strlit("NAME_INTL");
                assert(differ_at("QSL_SENT_VIA"@, "NAME_INTL"@, 0));
                reveal_strlit("NOTES");
                assert(differ_at("QSL_SENT_VIA"@, "NOTES"@, 0));
                reveal_strlit("POTA_REF");
                assert(differ_at("QSL_SENT_VIA"@, "POTA_REF"@, 0));
                reveal_strlit("PROP_MODE");
                assert(differ_at("QSL_SENT_VIA"@, "PROP_MODE"@, 0));
                reveal_strlit("QSLMSG");
                assert(differ_at("QSL_SENT_VIA"@, "QSLMSG"@, 0));
                reveal_strlit("QSL_RCVD");
                assert(differ_at("QSL_SENT_VIA"@, "QSL_RCVD"@, 0));
                reveal_strlit("QSL_RCVD_VIA");
                assert(differ_at("QSL_SENT_VIA"@, "QSL_RCVD_VIA"@, 4));
                reveal_strlit("QSL_SENT");
                assert(differ_at("QSL_SENT_VIA"@, "QSL_SENT"@, 0));
                assert(token_chars("QSL_SENT_VIA"@));
            },
            QSOFieldName::QSL_VIA => {
                reveal_strlit("QSL_VIA");
                reveal_strlit("ADDRESS");
                assert(differ_at("QSL_VIA"@, "ADDRESS"@, 0));
                reveal_strlit("ADDRESS_INTL");
                assert(differ_at("QSL_VIA"@, "ADDRESS_INTL"@, 0));
                reveal_strlit("AGE");
                assert(differ_at("QSL_VIA"@, "AGE"@, 0));
                reveal_strlit("ANT_AZ");
                assert(differ_at("QSL_VIA"@, "ANT_AZ"@, 0));
                reveal_strlit("ANT_EL");
                assert(differ_at("QSL_VIA"@, "ANT_EL"@, 0));
                reveal_strlit("ANT_PATH");
                assert(differ_at("QSL_VIA"@, "ANT_PATH"@, 0));
                reveal_strlit("A_INDEX");
                assert(differ_at("QSL_VIA"@, "A_INDEX"@, 0));
                reveal_strlit("AWARD_GRANTED");
                assert(differ_at("QSL_VIA"@, "AWARD_GRANTED"@, 0));
                reveal_strlit("AWARD_SUBMITTED");
                assert(differ_at("QSL_VIA"@, "AWARD_SUBMITTED"@, 0));
                reveal_strlit("BAND");
                assert(differ_at("QSL_VIA"@, "BAND"@, 0));
                reveal_strlit("BAND_RX");
                assert(differ_at("QSL_VIA"@, "BAND_RX"@, 0));
                reveal_strlit("CALL");
                assert(differ_at("QSL_VIA"@, "CALL"@, 0));
                reveal_strlit("CHECK");
                assert(differ_at("QSL_VIA"@, "CHECK"@, 0));
                reveal_strlit("CLASS");
                assert(differ_at("QSL_VIA"@, "CLASS"@, 0));
                reveal_strlit("CLUBLOG_QSO_UPLOAD_DATE");
                assert(differ_at("QSL_VIA"@, "CLUBLOG_QSO_UPLOAD_DATE"@, 0));
                reveal_strlit("CLUBLOG_QSO_UPLOAD_STATUS");
                assert(differ_at("QSL_VIA"@, "CLUBLOG_QSO_UPLOAD_STATUS"@, 0));
                reveal_strlit("CNTY");
                assert(differ_at("QSL_VIA"@, "CNTY"@, 0));
                reveal_strlit("COMMENT");
                assert(differ_at("QSL_VIA"@, "COMMENT"@, 0));
                reveal_strlit("COMMENT_INTL");
                assert(differ_at("QSL_VIA"@, "COMMENT_INTL"@, 0));
                reveal_strlit("CONT");
                assert(differ_at("QSL_VIA"@, "CONT"@, 0));
                reveal_strlit("CONTACTED_OP");
                assert(differ_at("QSL_VIA"@, "CONTACTED_OP"@, 0));
                reveal_strlit("CONTEST_ID");
                assert(differ_at("QSL_VIA"@, "CONTEST_ID"@, 0));
                reveal_strlit("COUNTRY");
                assert(differ_at("QSL_VIA"@, "COUNTRY"@, 0));
                reveal_strlit("CQZ");
                assert(differ_at("QSL_VIA"@, "CQZ"@, 0));
                reveal_strlit("DXCC");
                assert(differ_at("QSL_VIA"@, "DXCC"@, 0));
                reveal_strlit("EMAIL");
                assert(differ_at("QSL_VIA"@, "EMAIL"@, 0));
                reveal_strlit("EQSL_QSL_RCVD");
                assert(differ_at("QSL_VIA"@, "EQSL_QSL_RCVD"@, 0));
                reveal_strlit("EQSL_QSL_SENT");
                assert(differ_at("QSL_VIA"@, "EQSL_QSL_SENT"@, 0));
                reveal_strlit("FORCE_INIT");
                assert(differ_at("QSL_VIA"@, "FORCE_INIT"@, 0));
                reveal_strlit("FREQ");
                assert(differ_at("QSL_VIA"@, "FREQ"@, 0));
                reveal_strlit("FREQ_RX");
                assert(differ_at("QSL_VIA"@, "FREQ_RX"@, 0));
                reveal_strlit("GRIDSQUARE");
                assert(differ_at("QSL_VIA"@, "GRIDSQUARE"@, 0));
                reveal_strlit("GRIDSQUARE_EXT");
                assert(differ_at("QSL_VIA"@, "GRIDSQUARE_EXT"@, 0));
                reveal_strlit("IOTA");
                assert(differ_at("QSL_VIA"@, "IOTA"@, 0));
                reveal_strlit("ITUZ");
                assert(differ_at("QSL_VIA"@, "ITUZ"@, 0));
                reveal_strlit("K_INDEX");
                assert(differ_at("QSL_VIA"@, "K_INDEX"@, 0));
                reveal_strlit("LAT");
                assert(differ_at("QSL_VIA"@, "LAT"@, 0));
                reveal_strlit("LON");
                assert(differ_at("QSL_VIA"@, "LON"@, 0));
                reveal_strlit("LOTW_QSL_RCVD");
                assert(differ_at("QSL_VIA"@, "LOTW_QSL_RCVD"@, 0));
                reveal_strlit("LOTW_QSL_SENT");
                assert(differ_at("QSL_VIA"@, "LOTW_QSL_SENT"@, 0));
                reveal_strlit("MODE");
                assert(differ_at("QSL_VIA"@, "MODE"@, 0));
                reveal_strlit("MORSE_KEY_TYPE");
                assert(differ_at("QSL_VIA"@, "MORSE_KEY_TYPE"@, 0));
                reveal_strlit("MY_DXCC");
                assert(differ_at("QSL_VIA"@, "MY_DXCC"@, 0));
                reveal_strlit("MY_GRIDSQUARE");
                assert(differ_at("QSL_VIA"@, "MY_GRIDSQUARE"@, 0));
                reveal_strlit("MY_LAT");
                assert(differ_at("QSL_VIA"@, "MY_LAT"@, 0));
                reveal_strlit("MY_LON");
                assert(differ_at("QSL_VIA"@, "MY_LON"@, 0));
                reveal_strlit("MY_POTA_REF");
                assert(differ_at("QSL_VIA"@, "MY_POTA_REF"@, 0));
                reveal_strlit("MY_SOTA_REF");
                assert(differ_at("QSL_VIA"@, "MY_SOTA_REF"@, 0));
                reveal_strlit("MY_WWFF_REF");
                assert(differ_at("QSL_VIA"@, "MY_WWFF_REF"@, 0));
                reveal_strlit("NAME");
                assert(differ_at("QSL_VIA"@, "NAME"@, 0));
                reveal_strlit("NAME_INTL");
                assert(differ_at("QSL_VIA"@, "NAME_INTL"@, 0));
                reveal_strlit("NOTES");
                assert(differ_at("QSL_VIA"@, "NOTES"@, 0));
                reveal_strlit("POTA_REF");
                assert(differ_at("QSL_VIA"@, "POTA_REF"@, 0));
                reveal_strlit("PROP_MODE");
                assert(differ_at("QSL_VIA"@, "PROP_MODE"@, 0));
                reveal_strlit("QSLMSG");
                assert(differ_at("QSL_VIA"@, "QSLMSG"@, 0));
                reveal_strlit("QSL_RCVD");
                assert(differ_at("QSL_VIA"@, "QSL_RCVD"@, 0));
                reveal_strlit("QSL_RCVD_VIA");
                assert(differ_at("QSL_VIA"@, "QSL_RCVD_VIA"@, 0));
                reveal_strlit("QSL_SENT");
                assert(differ_at("QSL_VIA"@, "QSL_SENT"@, 0));
                reveal_strlit("QSL_SENT_VIA");
                assert(differ_at("QSL_VIA"@, "QSL_SENT_VIA"@, 0));
                assert(token_chars("QSL_VIA"@));
            },
            QSOFieldName::QSO_COMPLETE => {
                reveal_strlit("QSO_COMPLETE");
                reveal_strlit("ADDRESS");
                assert(differ_at("QSO_COMPLETE"@, "ADDRESS"@, 0));
                reveal_strlit("ADDRESS_INTL");
                assert(differ_at("QSO_COMPLETE"@, "ADDRESS_INTL"@, 0));
                reveal_strlit("AGE");
                assert(differ_at("QSO_COMPLETE"@, "AGE"@, 0));
                reveal_strlit("ANT_AZ");
                assert(differ_at("QSO_COMPLETE"@, "ANT_AZ"@, 0));
                reveal_strlit("ANT_EL");
                assert(differ_at("QSO_COMPLETE"@, "ANT_EL"@, 0));
                reveal_strlit("ANT_PATH");
                assert(differ_at("QSO_COMPLETE"@, "ANT_PATH"@, 0));
                reveal_strlit("A_INDEX");
                assert(differ_at("QSO_COMPLETE"@, "A_INDEX"@, 0));
                reveal_strlit("AWARD_GRANTED");
                assert(differ_at("QSO_COMPLETE"@, "AWARD_GRANTED"@, 0));
                reveal_strlit("AWARD_SUBMITTED");
                assert(differ_at("QSO_COMPLETE"@, "AWARD_SUBMITTED"@, 0));
                reveal_strlit("BAND");
                assert(differ_at("QSO_COMPLETE"@, "BAND"@, 0));
                reveal_strlit("BAND_RX");
                assert(differ_at("QSO_COMPLETE"@, "BAND_RX"@, 0));
                reveal_strlit("CALL");
                assert(differ_at("QSO_COMPLETE"@, "CALL"@, 0));
                reveal_strlit("CHECK");
                assert(differ_at("QSO_COMPLETE"@, "CHECK"@, 0));
                reveal_strlit("CLASS");
                assert(differ_at("QSO_COMPLETE"@, "CLASS"@, 0));
                reveal_strlit("CLUBLOG_QSO_UPLOAD_DATE");
                assert(differ_at("QSO_COMPLETE"@, "CLUBLOG_QSO_UPLOAD_DATE"@, 0));
                reveal_strlit("CLUBLOG_QSO_UPLOAD_STATUS");
                assert(differ_at("QSO_COMPLETE"@, "CLUBLOG_QSO_UPLOAD_STATUS"@, 0));
                reveal_strlit("CNTY");
                assert(differ_at("QSO_COMPLETE"@, "CNTY"@, 0));
                reveal_strlit("COMMENT");
                assert(differ_at("QSO_COMPLETE"@, "COMMENT"@, 0));
                reveal_strlit("COMMENT_INTL");
                assert(differ_at("QSO_COMPLETE"@, "COMMENT_INTL"@, 0));
                reveal_strlit("CONT");
                assert(differ_at("QSO_COMPLETE"@, "CONT"@, 0));
                reveal_strlit("CONTACTED_OP");
                assert(differ_at("QSO_COMPLETE"@, "CONTACTED_OP"@, 0));
                reveal_strlit("CONTEST_ID");
                assert(differ_at("QSO_COMPLETE"@, "CONTEST_ID"@, 0));
                reveal_strlit("COUNTRY");
                assert(differ_at("QSO_COMPLETE"@, "COUNTRY"@, 0));
                reveal_strlit("CQZ");
                assert(differ_at("QSO_COMPLETE"@, "CQZ"@, 0));
                reveal_strlit("DXCC");
                assert(differ_at("QSO_COMPLETE"@, "DXCC"@, 0));
                reveal_strlit("EMAIL");
                assert(differ_at("QSO_COMPLETE"@, "EMAIL"@, 0));
                reveal_strlit("EQSL_QSL_RCVD");
                assert(differ_at("QSO_COMPLETE"@, "EQSL_QSL_RCVD"@, 0));
                reveal_strlit("EQSL_QSL_SENT");
                assert(differ_at("QSO_COMPLETE"@, "EQSL_QSL_SENT"@, 0));
                reveal_strlit("FORCE_INIT");
                assert(differ_at("QSO_COMPLETE"@, "FORCE_INIT"@, 0));
                reveal_strlit("FREQ");
                assert(differ_at("QSO_COMPLETE"@, "FREQ"@, 0));
                reveal_strlit("FREQ_RX");
                assert(differ_at("QSO_COMPLETE"@, "FREQ_RX"@, 0));
                reveal_strlit("GRIDSQUARE");
                assert(differ_at("QSO_COMPLETE"@, "GRIDSQUARE"@, 0));
                reveal_strlit("GRIDSQUARE_EXT");
                assert(differ_at("QSO_COMPLETE"@, "GRIDSQUARE_EXT"@, 0));
                reveal_strlit("IOTA");
                assert(differ_at("QSO_COMPLETE"@, "IOTA"@, 0));
                reveal_strlit("ITUZ");
                assert(differ_at("QSO_COMPLETE"@, "ITUZ"@, 0));
                reveal_strlit("K_INDEX");
                assert(differ_at("QSO_COMPLETE"@, "K_INDEX"@, 0));
                reveal_strlit("LAT");
                assert(differ_at("QSO_COMPLETE"@, "LAT"@, 0));
                reveal_strlit("LON");
                assert(differ_at("QSO_COMPLETE"@, "LON"@, 0));
                reveal_strlit("LOTW_QSL_RCVD");
                assert(differ_at("QSO_COMPLETE"@, "LOTW_QSL_RCVD"@, 0));
                reveal_strlit("LOTW_QSL_SENT");
                assert(differ_at("QSO_COMPLETE"@, "LOTW_QSL_SENT"@, 0));
                reveal_strlit("MODE");
                assert(differ_at("QSO_COMPLETE"@, "MODE"@, 0));
                reveal_strlit("MORSE_KEY_TYPE");
                assert(differ_at("QSO_COMPLETE"@, "MORSE_KEY_TYPE"@, 0));
                reveal_strlit("MY_DXCC");
                assert(differ_at("QSO_COMPLETE"@, "MY_DXCC"@, 0));
                reveal_strlit("MY_GRIDSQUARE");
                assert(differ_at("QSO_COMPLETE"@, "MY_GRIDSQUARE"@, 0));
                reveal_strlit("MY_LAT");
                assert(differ_at("QSO_COMPLETE"@, "MY_LAT"@, 0));
                reveal_strlit("MY_LON");
                assert(differ_at("QSO_COMPLETE"@, "MY_LON"@, 0));
                reveal_strlit("MY_POTA_REF");
                assert(differ_at("QSO_COMPLETE"@, "MY_POTA_REF"@, 0));
                reveal_strlit("MY_SOTA_REF");
                assert(differ_at("QSO_COMPLETE"@, "MY_SOTA_REF"@, 0));
                reveal_strlit("MY_WWFF_REF");
                assert(differ_at("QSO_COMPLETE"@, "MY_WWFF_REF"@, 0));
                reveal_strlit("NAME");
                assert(differ_at("QSO_COMPLETE"@, "NAME"@, 0));
                reveal_strlit("NAME_INTL");
                assert(differ_at("QSO_COMPLETE"@, "NAME_INTL"@, 0));
                reveal_strlit("NOTES");
                assert(differ_at("QSO_COMPLETE"@, "NOTES"@, 0));
                reveal_strlit("POTA_REF");
                assert(differ_at("QSO_COMPLETE"@, "POTA_REF"@, 0));
                reveal_strlit("PROP_MODE");
                assert(differ_at("QSO_COMPLETE"@, "PROP_MODE"@, 0));
                reveal_strlit("QSLMSG");
                assert(differ_at("QSO_COMPLETE"@, "QSLMSG"@, 0));
                reveal_strlit("QSL_RCVD");
                assert(differ_at("QSO_COMPLETE"@, "QSL_RCVD"@, 0));
                reveal_strlit("QSL_RCVD_VIA");
                assert(differ_at("QSO_COMPLETE"@, "QSL_RCVD_VIA"@, 2));
                reveal_strlit("QSL_SENT");
                assert(differ_at("QSO_COMPLETE"@, "QSL_SENT"@, 0));
                reveal_strlit("QSL_SENT_VIA");
                assert(differ_at("QSO_COMPLETE"@, "QSL_SENT_VIA"@, 2));
                reveal_strlit("QSL_VIA");
                assert(differ_at("QSO_COMPLETE"@, "QSL_VIA"@, 0));
                assert(token_chars("QSO_COMPLETE"@));
            },
            QSOFieldName::QSO_DATE => {
                reveal_strlit("QSO_DATE");
                reveal_strlit("ADDRESS");
                assert(differ_at("QSO_DATE"@, "ADDRESS"@, 0));
                reveal_strlit("ADDRESS_INTL");
                assert(differ_at("QSO_DATE"@, "ADDRESS_INTL"@, 0));
                reveal_strlit("AGE");
                assert(differ_at("QSO_DATE"@, "AGE"@, 0));
                reveal_strlit("ANT_AZ");
                assert(differ_at("QSO_DATE"@, "ANT_AZ"@, 0));
                reveal_strlit("ANT_EL");
                assert(differ_at("QSO_DATE"@, "ANT_EL"@, 0));
                reveal_strlit("ANT_PATH");
                assert(differ_at("QSO_DATE"@, "ANT_PATH"@, 0));
                reveal_strlit("A_INDEX");
                assert(differ_at("QSO_DATE"@, "A_INDEX"@, 0));
                reveal_strlit("AWARD_GRANTED");
                assert(differ_at("QSO_DATE"@, "AWARD_GRANTED"@, 0));
                reveal_strlit("AWARD_SUBMITTED");
                assert(differ_at("QSO_DATE"@, "AWARD_SUBMITTED"@, 0));
                reveal_strlit("BAND");
                assert(differ_at("QSO_DATE"@, "BAND"@, 0));
                reveal_strlit("BAND_RX");
                assert(differ_at("QSO_DATE"@, "BAND_RX"@, 0));
                reveal_strlit("CALL");
                assert(differ_at("QSO_DATE"@, "CALL"@, 0));
                reveal_strlit("CHECK");
                assert(differ_at("QSO_DATE"@, "CHECK"@, 0));
                reveal_strlit("CLASS");
                assert(differ_at("QSO_DATE"@, "CLASS"@, 0));
                reveal_strlit("CLUBLOG_QSO_UPLOAD_DATE");
                assert(differ_at("QSO_DATE"@, "CLUBLOG_QSO_UPLOAD_DATE"@, 0));
                reveal_strlit("CLUBLOG_QSO_UPLOAD_STATUS");
                assert(differ_at("QSO_DATE"@, "CLUBLOG_QSO_UPLOAD_STATUS"@, 0));
                reveal_strlit("CNTY");
                assert(differ_at("QSO_DATE"@, "CNTY"@, 0));
                reveal_strlit("COMMENT");
                assert(differ_at("QSO_DATE"@, "COMMENT"@, 0));
                reveal_strlit("COMMENT_INTL");
                assert(differ_at("QSO_DATE"@, "COMMENT_INTL"@, 0));
                reveal_strlit("CONT");
                assert(differ_at("QSO_DATE"@, "CONT"@, 0));
                reveal_strlit("CONTACTED_OP");
                assert(differ_at("QSO_DATE"@, "CONTACTED_OP"@, 0));
                reveal_strlit("CONTEST_ID");
                assert(differ_at("QSO_DATE"@, "CONTEST_ID"@, 0));
                reveal_strlit("COUNTRY");
                assert(differ_at("QSO_DATE"@, "COUNTRY"@, 0));
                reveal_strlit("CQZ");
                assert(differ_at("QSO_DATE"@, "CQZ"@, 0));
                reveal_strlit("DXCC");
                assert(differ_at("QSO_DATE"@, "DXCC"@, 0));
                reveal_strlit("EMAIL");
                assert(differ_at("QSO_DATE"@, "EMAIL"@, 0));
                reveal_strlit("EQSL_QSL_RCVD");
                assert(differ_at("QSO_DATE"@, "EQSL_QSL_RCVD"@, 0));
                reveal_strlit("EQSL_QSL_SENT");
                assert(differ_at("QSO_DATE"@, "EQSL_QSL_SENT"@, 0));
                reveal_strlit("FORCE_INIT");
                assert(differ_at("QSO_DATE"@, "FORCE_INIT"@, 0));
                reveal_strlit("FREQ");
                assert(differ_at("QSO_DATE"@, "FREQ"@, 0));
                reveal_strlit("FREQ_RX");
                assert(differ_at("QSO_DATE"@, "FREQ_RX"@, 0));
                reveal_strlit("GRIDSQUARE");
                assert(differ_at("QSO_DATE"@, "GRIDSQUARE"@, 0));
                reveal_strlit("GRIDSQUARE_EXT");
                assert(differ_at("QSO_DATE"@, "GRIDSQUARE_EXT"@, 0));
                reveal_strlit("IOTA");
                assert(differ_at("QSO_DATE"@, "IOTA"@, 0));
                reveal_strlit("ITUZ");
                assert(differ_at("QSO_DATE"@, "ITUZ"@, 0));
                reveal_strlit("K_INDEX");
                assert(differ_at("QSO_DATE"@, "K_INDEX"@, 0));
                reveal_strlit("LAT");
                assert(differ_at("QSO_DATE"@, "LAT"@, 0));
                reveal_strlit("LON");
                assert(differ_at("QSO_DATE"@, "LON"@, 0));
                reveal_strlit("LOTW_QSL_RCVD");
                assert(differ_at("QSO_DATE"@, "LOTW_QSL_RCVD"@, 0));
                reveal_strlit("LOTW_QSL_SENT");
                assert(differ_at("QSO_DATE"@, "LOTW_QSL_SENT"@, 0));
                reveal_strlit("MODE");
                assert(differ_at("QSO_DATE"@, "MODE"@, 0));
                reveal_strlit("MORSE_KEY_TYPE");
                assert(differ_at("QSO_DATE"@, "MORSE_KEY_TYPE"@, 0));
                reveal_strlit("MY_DXCC");
                assert(differ_at("QSO_DATE"@, "MY_DXCC"@, 0));
                reveal_strlit("MY_GRIDSQUARE");
                assert(differ_at("QSO_DATE"@, "MY_GRIDSQUARE"@, 0));
                reveal_strlit("MY_LAT");
                assert(differ_at("QSO_DATE"@, "MY_LAT"@, 0));
                reveal_strlit("MY_LON");
                assert(differ_at("QSO_DATE"@, "MY_LON"@, 0));
                reveal_strlit("MY_POTA_REF");
                assert(differ_at("QSO_DATE"@, "MY_POTA_REF"@, 0));
                reveal_strlit("MY_SOTA_REF");
                assert(differ_at("QSO_DATE"@, "MY_SOTA_REF"@, 0));
                reveal_strlit("MY_WWFF_REF");
                assert(differ_at("QSO_DATE"@, "MY_WWFF_REF"@, 0));
                reveal_strlit("NAME");
                assert(differ_at("QSO_DATE"@, "NAME"@, 0));
                reveal_strlit("NAME_INTL");
                assert(differ_at("QSO_DATE"@, "NAME_INTL"@, 0));
                reveal_strlit("NOTES");
                assert(differ_at("QSO_DATE"@, "NOTES"@, 0));
                reveal_strlit("POTA_REF");
                assert(differ_at("QSO_DATE"@, "POTA_REF"@, 0));
                reveal_strlit("PROP_MODE");
                assert(differ_at("QSO_DATE"@, "PROP_MODE"@, 0));
                reveal_strlit("QSLMSG");
                assert(differ_at("QSO_DATE"@, "QSLMSG"@, 0));
                reveal_strlit("QSL_RCVD");
                assert(differ_at("QSO_DATE"@, "QSL_RCVD"@, 2));
                reveal_strlit("QSL_RCVD_VIA");
                assert(differ_at("QSO_DATE"@, "QSL_RCVD_VIA"@, 0));
                reveal_strlit("QSL_SENT");
                assert(differ_at("QSO_DATE"@, "QSL_SENT"@, 2));
                reveal_strlit("QSL_SENT_VIA");
                assert(differ_at("QSO_DATE"@, "QSL_SENT_VIA"@, 0));
                reveal_strlit("QSL_VIA");
                assert(differ_at("QSO_DATE"@, "QSL_VIA"@, 0));
                reveal_strlit("QSO_COMPLETE");
                assert(differ_at("QSO_DATE"@, "QSO_COMPLETE"@, 0));
                assert(token_chars("QSO_DATE"@));
            },
            QSOFieldName::QSO_DATE_OFF => {
                reveal_strlit("QSO_DATE_OFF");
                reveal_strlit("ADDRESS");
                assert(differ_at("QSO_DATE_OFF"@, "ADDRESS"@, 0));
                reveal_strlit("ADDRESS_INTL");
                assert(differ_at("QSO_DATE_OFF"@, "ADDRESS_INTL"@, 0));
                reveal_strlit("AGE");
                assert(differ_at("QSO_DATE_OFF"@, "AGE"@, 0));
                reveal_strlit("ANT_AZ");
                assert(differ_at("QSO_DATE_OFF"@, "ANT_AZ"@, 0));
                reveal_strlit("ANT_EL");
                assert(differ_at("QSO_DATE_OFF"@, "ANT_EL"@, 0));
                reveal_strlit("ANT_PATH");
                assert(differ_at("QSO_DATE_OFF"@, "ANT_PATH"@, 0));
                reveal_strlit("A_INDEX");
                assert(differ_at("QSO_DATE_OFF"@, "A_INDEX"@, 0));
                reveal_strlit("AWARD_GRANTED");
                assert(differ_at("QSO_DATE_OFF"@, "AWARD_GRANTED"@, 0));
                reveal_strlit("AWARD_SUBMITTED");
                assert(differ_at("QSO_DATE_OFF"@, "AWARD_SUBMITTED"@, 0));
                reveal_strlit("BAND");
                assert(differ_at("QSO_DATE_OFF"@, "BAND"@, 0));
                reveal_strlit("BAND_RX");
                assert(differ_at("QSO_DATE_OFF"@, "BAND_RX"@, 0));
                reveal_strlit("CALL");
                assert(differ_at("QSO_DATE_OFF"@, "CALL"@, 0));
                reveal_strlit("CHECK");
                assert(differ_at("QSO_DATE_OFF"@, "CHECK"@, 0));
                reveal_strlit("CLASS");
                assert(differ_at("QSO_DATE_OFF"@, "CLASS"@, 0));
                reveal_strlit("CLUBLOG_QSO_UPLOAD_DATE");
                assert(differ_at("QSO_DATE_OFF"@, "CLUBLOG_QSO_UPLOAD_DATE"@, 0));
                reveal_strlit("CLUBLOG_QSO_UPLOAD_STATUS");
                assert(differ_at("QSO_DATE_OFF"@, "CLUBLOG_QSO_UPLOAD_STATUS"@, 0));
                reveal_strlit("CNTY");
                assert(differ_at("QSO_DATE_OFF"@, "CNTY"@, 0));
                reveal_strlit("COMMENT");
                assert(differ_at("QSO_DATE_OFF"@, "COMMENT"@, 0));
                reveal_strlit("COMMENT_INTL");
                assert(differ_at("QSO_DATE_OFF"@, "COMMENT_INTL"@, 0));
                reveal_strlit("CONT");
                assert(differ_at("QSO_DATE_OFF"@, "CONT"@, 0));
                reveal_strlit("CONTACTED_OP");
                assert(differ_at("QSO_DATE_OFF"@, "CONTACTED_OP"@, 0));
                reveal_strlit("CONTEST_ID");
                assert(differ_at("QSO_DATE_OFF"@, "CONTEST_ID"@, 0));
                reveal_strlit("COUNTRY");
                assert(differ_at("QSO_DATE_OFF"@, "COUNTRY"@, 0));
                reveal_strlit("CQZ");
                assert(differ_at("QSO_DATE_OFF"@, "CQZ"@, 0));
                reveal_strlit("DXCC");
                assert(differ_at("QSO_DATE_OFF"@, "DXCC"@, 0));
                reveal_strlit("EMAIL");
                assert(differ_at("QSO_DATE_OFF"@, "EMAIL"@, 0));
                reveal_strlit("EQSL_QSL_RCVD");
                assert(differ_at("QSO_DATE_OFF"@, "EQSL_QSL_RCVD"@, 0));
                reveal_strlit("EQSL_QSL_SENT");
                assert(differ_at("QSO_DATE_OFF"@, "EQSL_QSL_SENT"@, 0));
                reveal_strlit("FORCE_INIT");
                assert(differ_at("QSO_DATE_OFF"@, "FORCE_INIT"@, 0));
                reveal_strlit("FREQ");
                assert(differ_at("QSO_DATE_OFF"@, "FREQ"@, 0));
                reveal_strlit("FREQ_RX");
                assert(differ_at("QSO_DATE_OFF"@, "FREQ_RX"@, 0));
                reveal_strlit("GRIDSQUARE");
                assert(differ_at("QSO_DATE_OFF"@, "GRIDSQUARE"@, 0));
                reveal_strlit("GRIDSQUARE_EXT");
                assert(differ_at("QSO_DATE_OFF"@, "GRIDSQUARE_EXT"@, 0));
                reveal_strlit("IOTA");
                assert(differ_at("QSO_DATE_OFF"@, "IOTA"@, 0));
                reveal_strlit("ITUZ");
                assert(differ_at("QSO_DATE_OFF"@, "ITUZ"@, 0));
                reveal_strlit("K_INDEX");
                assert(differ_at("QSO_DATE_OFF"@, "K_INDEX"@, 0));
                reveal_strlit("LAT");
                assert(differ_at("QSO_DATE_OFF"@, "LAT"@, 0));
                reveal_strlit("LON");
                assert(differ_at("QSO_DATE_OFF"@, "LON"@, 0));
                reveal_strlit("LOTW_QSL_RCVD");
                assert(differ_at("QSO_DATE_OFF"@, "LOTW_QSL_RCVD"@, 0));
                reveal_strlit("LOTW_QSL_SENT");
                assert(differ_at("QSO_DATE_OFF"@, "LOTW_QSL_SENT"@, 0));
                reveal_strlit("MODE");
                assert(differ_at("QSO_DATE_OFF"@, "MODE"@, 0));
                reveal_strlit("MORSE_KEY_TYPE");
                assert(differ_at("QSO_DATE_OFF"@, "MORSE_KEY_TYPE"@, 0));
                reveal_strlit("MY_DXCC");
                assert(differ_at("QSO_DATE_OFF"@, "MY_DXCC"@, 0));
                reveal_strlit("MY_GRIDSQUARE");
                assert(differ_at("QSO_DATE_OFF"@, "MY_GRIDSQUARE"@, 0));
                reveal_strlit("MY_LAT");
                assert(differ_at("QSO_DATE_OFF"@, "MY_LAT"@, 0));
                reveal_strlit("MY_LON");
                assert(differ_at("QSO_DATE_OFF"@, "MY_LON"@, 0));
                reveal_strlit("MY_POTA_REF");
                assert(differ_at("QSO_DATE_OFF"@, "MY_POTA_REF"@, 0));
                reveal_strlit("MY_SOTA_REF");
                assert(differ_at("QSO_DATE_OFF"@, "MY_SOTA_REF"@, 0));
                reveal_strlit("MY_WWFF_REF");
                assert(differ_at("QSO_DATE_OFF"@, "MY_WWFF_REF"@, 0));
                reveal_strlit("NAME");
                assert(differ_at("QSO_DATE_OFF"@, "NAME"@, 0));
                reveal_strlit("NAME_INTL");
                assert(differ_at("QSO_DATE_OFF"@, "NAME_INTL"@, 0));
                reveal_strlit("NOTES");
                assert(differ_at("QSO_DATE_OFF"@, "NOTES"@, 0));
                reveal_strlit("POTA_REF");
                assert(differ_at("QSO_DATE_OFF"@, "POTA_REF"@, 0));
                reveal_strlit("PROP_MODE");
                assert(differ_at("QSO_DATE_OFF"@, "PROP_MODE"@, 0));
                reveal_strlit("QSLMSG");
                assert(differ_at("QSO_DATE_OFF"@, "QSLMSG"@, 0));
                reveal_strlit("QSL_RCVD");
                assert(differ_at("QSO_DATE_OFF"@, "QSL_RCVD"@, 0));
                reveal_strlit("QSL_RCVD_VIA");
                assert(differ_at("QSO_DATE_OFF"@, "QSL_RCVD_VIA"@, 2));
                reveal_strlit("QSL_SENT");
                assert(differ_at("QSO_DATE_OFF"@, "QSL_SENT"@, 0));
                reveal_strlit("QSL_SENT_VIA");
                assert(differ_at("QSO_DATE_OFF"@, "QSL_SENT_VIA"@, 2));
                reveal_strlit("QSL_VIA");
                assert(differ_at("QSO_DATE_OFF"@, "QSL_VIA"@, 0));
                reveal_strlit("QSO_COMPLETE");
                assert(differ_at("QSO_DATE_OFF"@, "QSO_COMPLETE"@, 4));
                reveal_strlit("QSO_DATE");
                assert(differ_at("QSO_DATE_OFF"@, "QSO_DATE"@, 0));
                assert(token_chars("QSO_DATE_OFF"@));
            },
            QSOFieldName::QSO_RANDOM => {
                reveal_strlit("QSO_RANDOM");
                reveal_strlit("ADDRESS");
                assert(differ_at("QSO_RANDOM"@, "ADDRESS"@, 0));
                reveal_strlit("ADDRESS_INTL");
                assert(differ_at("QSO_RANDOM"@, "ADDRESS_INTL"@, 0));
                reveal_strlit("AGE");
                assert(differ_at("QSO_RANDOM"@, "AGE"@, 0));
                reveal_strlit("ANT_AZ");
                assert(differ_at("QSO_RANDOM"@, "ANT_AZ"@, 0));
                reveal_strlit("ANT_EL");
                assert(differ_at("QSO_RANDOM"@, "ANT_EL"@, 0));
                reveal_strlit("ANT_PATH");
                assert(differ_at("QSO_RANDOM"@, "ANT_PATH"@, 0));
                reveal_strlit("A_INDEX");
                assert(differ_at("QSO_RANDOM"@, "A_INDEX"@, 0));
                reveal_strlit("AWARD_GRANTED");
                assert(differ_at("QSO_RANDOM"@, "AWARD_GRANTED"@, 0));
                reveal_strlit("AWARD_SUBMITTED");
                assert(differ_at("QSO_RANDOM"@, "AWARD_SUBMITTED"@, 0));
                reveal_strlit("BAND");
                assert(differ_at("QSO_RANDOM"@, "BAND"@, 0));
                reveal_strlit("BAND_RX");
                assert(differ_at("QSO_RANDOM"@, "BAND_RX"@, 0));
                reveal_strlit("CALL");
                assert(differ_at("QSO_RANDOM"@, "CALL"@, 0));
                reveal_strlit("CHECK");
                assert(differ_at("QSO_RANDOM"@, "CHECK"@, 0));
                reveal_strlit("CLASS");
                assert(differ_at("QSO_RANDOM"@, "CLASS"@, 0));
                reveal_strlit("CLUBLOG_QSO_UPLOAD_DATE");
                assert(differ_at("QSO_RANDOM"@, "CLUBLOG_QSO_UPLOAD_DATE"@, 0));
                reveal_strlit("CLUBLOG_QSO_UPLOAD_STATUS");
                assert(differ_at("QSO_RANDOM"@, "CLUBLOG_QSO_UPLOAD_STATUS"@, 0));
                reveal_strlit("CNTY");
                assert(differ_at("QSO_RANDOM"@, "CNTY"@, 0));
                reveal_strlit("COMMENT");
                assert(differ_at("QSO_RANDOM"@, "COMMENT"@, 0));
                reveal_strlit("COMMENT_INTL");
                assert(differ_at("QSO_RANDOM"@, "COMMENT_INTL"@, 0));
                reveal_strlit("CONT");
                assert(differ_at("QSO_RANDOM"@, "CONT"@, 0));
                reveal_strlit("CONTACTED_OP");
                assert(differ_at("QSO_RANDOM"@, "CONTACTED_OP"@, 0));
                reveal_strlit("CONTEST_ID");
                assert(differ_at("QSO_RANDOM"@, "CONTEST_ID"@, 0));
                reveal_strlit("COUNTRY");
                assert(differ_at("QSO_RANDOM"@, "COUNTRY"@, 0));
                reveal_strlit("CQZ");
                assert(differ_at("QSO_RANDOM"@, "CQZ"@, 0));
                reveal_strlit("DXCC");
                assert(differ_at("QSO_RANDOM"@, "DXCC"@, 0));
                reveal_strlit("EMAIL");
                assert(differ_at("QSO_RANDOM"@, "EMAIL"@, 0));
                reveal_strlit("EQSL_QSL_RCVD");
                assert(differ_at("QSO_RANDOM"@, "EQSL_QSL_RCVD"@, 0));
                reveal_strlit("EQSL_QSL_SENT");
                assert(differ_at("QSO_RANDOM"@, "EQSL_QSL_SENT"@, 0));
                reveal_strlit("FORCE_INIT");
                assert(differ_at("QSO_RANDOM"@, "FORCE_INIT"@, 0));
                reveal_strlit("FREQ");
                assert(differ_at("QSO_RANDOM"@, "FREQ"@, 0));
                reveal_strlit("FREQ_RX");
                assert(differ_at("QSO_RANDOM"@, "FREQ_RX"@, 0));
                reveal_strlit("GRIDSQUARE");
                assert(differ_at("QSO_RANDOM"@, "GRIDSQUARE"@, 0));
                reveal_strlit("GRIDSQUARE_EXT");
                assert(differ_at("QSO_RANDOM"@, "GRIDSQUARE_EXT"@, 0));
                reveal_strlit("IOTA");
                assert(differ_at("QSO_RANDOM"@, "IOTA"@, 0));
                reveal_strlit("ITUZ");
                assert(differ_at("QSO_RANDOM"@, "ITUZ"@, 0));
                reveal_strlit("K_INDEX");
                assert(differ_at("QSO_RANDOM"@, "K_INDEX"@, 0));
                reveal_strlit("LAT");
                assert(differ_at("QSO_RANDOM"@, "LAT"@, 0));
                reveal_strlit("LON");
                assert(differ_at("QSO_RANDOM"@, "LON"@, 0));
                reveal_strlit("LOTW_QSL_RCVD");
                assert(differ_at("QSO_RANDOM"@, "LOTW_QSL_RCVD"@, 0));
                reveal_strlit("LOTW_QSL_SENT");
                assert(differ_at("QSO_RANDOM"@, "LOTW_QSL_SENT"@, 0));
                reveal_strlit("MODE");
                assert(differ_at("QSO_RANDOM"@, "MODE"@, 0));
                reveal_strlit("MORSE_KEY_TYPE");
                assert(differ_at("QSO_RANDOM"@, "MORSE_KEY_TYPE"@, 0));
                reveal_strlit("MY_DXCC");
                assert(differ_at("QSO_RANDOM"@, "MY_DXCC"@, 0));
                reveal_strlit("MY_GRIDSQUARE");
                assert(differ_at("QSO_RANDOM"@, "MY_GRIDSQUARE"@, 0));
                reveal_strlit("MY_LAT");
                assert(differ_at("QSO_RANDOM"@, "MY_LAT"@, 0));
                reveal_strlit("MY_LON");
                assert(differ_at("QSO_RANDOM"@, "MY_LON"@, 0));
                reveal_strlit("MY_POTA_REF");
                assert(differ_at("QSO_RANDOM"@, "MY_POTA_REF"@, 0));
                reveal_strlit("MY_SOTA_REF");
                assert(differ_at("QSO_RANDOM"@, "MY_SOTA_REF"@, 0));
                reveal_strlit("MY_WWFF_REF");
                assert(differ_at("QSO_RANDOM"@, "MY_WWFF_REF"@, 0));
                reveal_strlit("NAME");
                assert(differ_at("QSO_RANDOM"@, "NAME"@, 0));
                reveal_strlit("NAME_INTL");
                assert(differ_at("QSO_RANDOM"@, "NAME_INTL"@, 0));
                reveal_strlit("NOTES");
                assert(differ_at("QSO_RANDOM"@, "NOTES"@, 0));
                reveal_strlit("POTA_REF");
                assert(differ_at("QSO_RANDOM"@, "POTA_REF"@, 0));
                reveal_strlit("PROP_MODE");
                assert(differ_at("QSO_RANDOM"@, "PROP_MODE"@, 0));
                reveal_strlit("QSLMSG");
                assert(differ_at("QSO_RANDOM"@, "QSLMSG"@, 0));
                reveal_strlit("QSL_RCVD");
                assert(differ_at("QSO_RANDOM"@, "QSL_RCVD"@, 0));
                reveal_strlit("QSL_RCVD_VIA");
                assert(differ_at("QSO_RANDOM"@, "QSL_RCVD_VIA"@, 0));
                reveal_strlit("QSL_SENT");
                assert(differ_at("QSO_RANDOM"@, "QSL_SENT"@, 0));
                reveal_strlit("QSL_SENT_VIA");
                assert(differ_at("QSO_RANDOM"@, "QSL_SENT_VIA"@, 0));
                reveal_strlit("QSL_VIA");
                assert(differ_at("QSO_RANDOM"@, "QSL_VIA"@, 0));
                reveal_strlit("QSO_COMPLETE");
                assert(differ_at("QSO_RANDOM"@, "QSO_COMPLETE"@, 0));
                reveal_strlit("QSO_DATE");
                assert(differ_at("QSO_RANDOM"@, "QSO_DATE"@, 0));
                reveal_strlit("QSO_DATE_OFF");
                assert(differ_at("QSO_RANDOM"@, "QSO_DATE_OFF"@, 0));
                assert(token_chars("QSO_RANDOM"@));
            },
            QSOFieldName::QTH => {
                reveal_strlit("QTH");
                reveal_strlit("ADDRESS");
                assert(differ_at("QTH"@, "ADDRESS"@, 0));
                reveal_strlit("ADDRESS_INTL");
                assert(differ_at("QTH"@, "ADDRESS_INTL"@, 0));
                reveal_strlit("AGE");
                assert(differ_at("QTH"@, "AGE"@, 0));
                reveal_strlit("ANT_AZ");
                assert(differ_at("QTH"@, "ANT_AZ"@, 0));
                reveal_strlit("ANT_EL");
                assert(differ_at("QTH"@, "ANT_EL"@, 0));
                reveal_strlit("ANT_PATH");
                assert(differ_at("QTH"@, "ANT_PATH"@, 0));
                reveal_strlit("A_INDEX");
                assert(differ_at("QTH"@, "A_INDEX"@, 0));
                reveal_strlit("AWARD_GRANTED");
                assert(differ_at("QTH"@, "AWARD_GRANTED"@, 0));
                reveal_strlit("AWARD_SUBMITTED");
                assert(differ_at("QTH"@, "AWARD_SUBMITTED"@, 0));
                reveal_strlit("BAND");
                assert(differ_at("QTH"@, "BAND"@, 0));
                reveal_strlit("BAND_RX");
                assert(differ_at("QTH"@, "BAND_RX"@, 0));
                reveal_strlit("CALL");
                assert(differ_at("QTH"@, "CALL"@, 0));
                reveal_strlit("CHECK");
                assert(differ_at("QTH"@, "CHECK"@, 0));
                reveal_strlit("CLASS");
                assert(differ_at("QTH"@, "CLASS"@, 0));
                reveal_strlit("CLUBLOG_QSO_UPLOAD_DATE");
                assert(differ_at("QTH"@, "CLUBLOG_QSO_UPLOAD_DATE"@, 0));
                reveal_strlit("CLUBLOG_QSO_UPLOAD_STATUS");
                assert(differ_at("QTH"@, "CLUBLOG_QSO_UPLOAD_STATUS"@, 0));
                reveal_strlit("CNTY");
                assert(differ_at("QTH"@, "CNTY"@, 0));
                reveal_strlit("COMMENT");
                assert(differ_at("QTH"@, "COMMENT"@, 0));
                reveal_strlit("COMMENT_INTL");
                assert(differ_at("QTH"@, "COMMENT_INTL"@, 0));
                reveal_strlit("CONT");
                assert(differ_at("QTH"@, "CONT"@, 0));
                reveal_strlit("CONTACTED_OP");
                assert(differ_at("QTH"@, "CONTACTED_OP"@, 0));
                reveal_strlit("CONTEST_ID");
                assert(differ_at("QTH"@, "CONTEST_ID"@, 0));
                reveal_strlit("COUNTRY");
                assert(differ_at("QTH"@, "COUNTRY"@, 0));
                reveal_strlit("CQZ");
                assert(differ_at("QTH"@, "CQZ"@, 0));
                reveal_strlit("DXCC");
                assert(differ_at("QTH"@, "DXCC"@, 0));
                reveal_strlit("EMAIL");
                assert(differ_at("QTH"@, "EMAIL"@, 0));
                reveal_strlit("EQSL_QSL_RCVD");
                assert(differ_at("QTH"@, "EQSL_QSL_RCVD"@, 0));
                reveal_strlit("EQSL_QSL_SENT");
                assert(differ_at("QTH"@, "EQSL_QSL_SENT"@, 0));
                reveal_strlit("FORCE_INIT");
                assert(differ_at("QTH"@, "FORCE_INIT"@, 0));
                reveal_strlit("FREQ");
                assert(differ_at("QTH"@, "FREQ"@, 0));
                reveal_strlit("FREQ_RX");
                assert(differ_at("QTH"@, "FREQ_RX"@, 0));
                reveal_strlit("GRIDSQUARE");
                assert(differ_at("QTH"@, "GRIDSQUARE"@, 0));
                reveal_strlit("GRIDSQUARE_EXT");
                assert(differ_at("QTH"@, "GRIDSQUARE_EXT"@, 0));
                reveal_strlit("IOTA");
                assert(differ_at("QTH"@, "IOTA"@, 0));
                reveal_strlit("ITUZ");
                assert(differ_at("QTH"@, "ITUZ"@, 0));
                reveal_strlit("K_INDEX");
                assert(differ_at("QTH"@, "K_INDEX"@, 0));
                reveal_strlit("LAT");
                assert(differ_at("QTH"@, "LAT"@, 0));
                reveal_strlit("LON");
                assert(differ_at("QTH"@, "LON"@, 0));
                reveal_strlit("LOTW_QSL_RCVD");
                assert(differ_at("QTH"@, "LOTW_QSL_RCVD"@, 0));
                reveal_strlit("LOTW_QSL_SENT");
                assert(differ_at("QTH"@, "LOTW_QSL_SENT"@, 0));
                reveal_strlit("MODE");
                assert(differ_at("QTH"@, "MODE"@, 0));
                reveal_strlit("MORSE_KEY_TYPE");
                assert(differ_at("QTH"@, "MORSE_KEY_TYPE"@, 0));
                reveal_strlit("MY_DXCC");
                assert(differ_at("QTH"@, "MY_DXCC"@, 0));
                reveal_strlit("MY_GRIDSQUARE");
                assert(differ_at("QTH"@, "MY_GRIDSQUARE"@, 0));
                reveal_strlit("MY_LAT");
                assert(differ_at("QTH"@, "MY_LAT"@, 0));
                reveal_strlit("MY_LON");
                assert(differ_at("QTH"@, "MY_LON"@, 0));
                reveal_strlit("MY_POTA_REF");
                assert(differ_at("QTH"@, "MY_POTA_REF"@, 0));
                reveal_strlit("MY_SOTA_REF");
                assert(differ_at("QTH"@, "MY_SOTA_REF"@, 0));
                reveal_strlit("MY_WWFF_REF");
                assert(differ_at("QTH"@, "MY_WWFF_REF"@, 0));
                reveal_strlit("NAME");
                assert(differ_at("QTH"@, "NAME"@, 0));
                reveal_strlit("NAME_INTL");
                assert(differ_at("QTH"@, "NAME_INTL"@, 0));
                reveal_strlit("NOTES");
                assert(differ_at("QTH"@, "NOTES"@, 0));
                reveal_strlit("POTA_REF");
                assert(differ_at("QTH"@, "POTA_REF"@, 0));
                reveal_strlit("PROP_MODE");
                assert(differ_at("QTH"@, "PROP_MODE"@, 0));
                reveal_strlit("QSLMSG");
                assert(differ_at("QTH"@, "QSLMSG"@, 0));
                reveal_strlit("QSL_RCVD");
                assert(differ_at("QTH"@, "QSL_RCVD"@, 0));
                reveal_strlit("QSL_RCVD_VIA");
                assert(differ_at("QTH"@, "QSL_RCVD_VIA"@, 0));
                reveal_strlit("QSL_SENT");
                assert(differ_at("QTH"@, "QSL_SENT"@, 0));
                reveal_strlit("QSL_SENT_VIA");
                assert(differ_at("QTH"@, "QSL_SENT_VIA"@, 0));
                reveal_strlit("QSL_VIA");
                assert(differ_at("QTH"@, "QSL_VIA"@, 0));
                reveal_strlit("QSO_COMPLETE");
                assert(differ_at("QTH"@, "QSO_COMPLETE"@, 0));
                reveal_strlit("QSO_DATE");
                assert(differ_at("QTH"@, "QSO_DATE"@, 0));
                reveal_strlit("QSO_DATE_OFF");
                assert(differ_at("QTH"@, "QSO_DATE_OFF"@, 0));
                reveal_strlit("QSO_RANDOM");
                assert(differ_at("QTH"@, "QSO_RANDOM"@, 0));
                assert(token_chars("QTH"@));
            },
            QSOFieldName::QTH_INTL => {
                reveal_strlit("QTH_INTL");
                reveal_strlit("ADDRESS");
                assert(differ_at("QTH_INTL"@, "ADDRESS"@, 0));
                reveal_strlit("ADDRESS_INTL");
                assert(differ_at("QTH_INTL"@, "ADDRESS_INTL"@, 0));
                reveal_strlit("AGE");
                assert(differ_at("QTH_INTL"@, "AGE"@, 0));
                reveal_strlit("ANT_AZ");
                assert(differ_at("QTH_INTL"@, "ANT_AZ"@, 0));
                reveal_strlit("ANT_EL");
                assert(differ_at("QTH_INTL"@, "ANT_EL"@, 0));
                reveal_strlit("ANT_PATH");
                assert(differ_at("QTH_INTL"@, "ANT_PATH"@, 0));
                reveal_strlit("A_INDEX");
                assert(differ_at("QTH_INTL"@, "A_INDEX"@, 0));
                reveal_strlit("AWARD_GRANTED");
                assert(differ_at("QTH_INTL"@, "AWARD_GRANTED"@, 0));
                reveal_strlit("AWARD_SUBMITTED");
                assert(differ_at("QTH_INTL"@, "AWARD_SUBMITTED"@, 0));
                reveal_strlit("BAND");
                assert(differ_at("QTH_INTL"@, "BAND"@, 0));
                reveal_strlit("BAND_RX");
                assert(differ_at("QTH_INTL"@, "BAND_RX"@, 0));
                reveal_strlit("CALL");
                assert(differ_at("QTH_INTL"@, "CALL"@, 0));
                reveal_strlit("CHECK");
                assert(differ_at("QTH_INTL"@, "CHECK"@, 0));
                reveal_strlit("CLASS");
                assert(differ_at("QTH_INTL"@, "CLASS"@, 0));
                reveal_strlit("CLUBLOG_QSO_UPLOAD_DATE");
                assert(differ_at("QTH_INTL"@, "CLUBLOG_QSO_UPLOAD_DATE"@, 0));
                reveal_strlit("CLUBLOG_QSO_UPLOAD_STATUS");
                assert(differ_at("QTH_INTL"@, "CLUBLOG_QSO_UPLOAD_STATUS"@, 0));
                reveal_strlit("CNTY");
                assert(differ_at("QTH_INTL"@, "CNTY"@, 0));
                reveal_strlit("COMMENT");
                assert(differ_at("QTH_INTL"@, "COMMENT"@, 0));
                reveal_strlit("COMMENT_INTL");
                assert(differ_at("QTH_INTL"@, "COMMENT_INTL"@, 0));
                reveal_strlit("CONT");
                assert(differ_at("QTH_INTL"@, "CONT"@, 0));
                reveal_strlit("CONTACTED_OP");
                assert(differ_at("QTH_INTL"@, "CONTACTED_OP"@, 0));
                reveal_strlit("CONTEST_ID");
                assert(differ_at("QTH_INTL"@, "CONTEST_ID"@, 0));
                reveal_strlit("COUNTRY");
                assert(differ_at("QTH_INTL"@, "COUNTRY"@, 0));
                reveal_strlit("CQZ");
                assert(differ_at("QTH_INTL"@, "CQZ"@, 0));
                reveal_strlit("DXCC");
                assert(differ_at("QTH_INTL"@, "DXCC"@, 0));
                reveal_strlit("EMAIL");
                assert(differ_at("QTH_INTL"@, "EMAIL"@, 0));
                reveal_strlit("EQSL_QSL_RCVD");
                assert(differ_at("QTH_INTL"@, "EQSL_QSL_RCVD"@, 0));
                reveal_strlit("EQSL_QSL_SENT");
                assert(differ_at("QTH_INTL"@, "EQSL_QSL_SENT"@, 0));
                reveal_strlit("FORCE_INIT");
                assert(differ_at("QTH_INTL"@, "FORCE_INIT"@, 0));
                reveal_strlit("FREQ");
                assert(differ_at("QTH_INTL"@, "FREQ"@, 0));
                reveal_strlit("FREQ_RX");
                assert(differ_at("QTH_INTL"@, "FREQ_RX"@, 0));
                reveal_strlit("GRIDSQUARE");
                assert(differ_at("QTH_INTL"@, "GRIDSQUARE"@, 0));
                reveal_strlit("GRIDSQUARE_EXT");
                assert(differ_at("QTH_INTL"@, "GRIDSQUARE_EXT"@, 0));
                reveal_strlit("IOTA");
                assert(differ_at("QTH_INTL"@, "IOTA"@, 0));
                reveal_strlit("ITUZ");
                assert(differ_at("QTH_INTL"@, "ITUZ"@, 0));
                reveal_strlit("K_INDEX");
                assert(differ_at("QTH_INTL"@, "K_INDEX"@, 0));
                reveal_strlit("LAT");
                assert(differ_at("QTH_INTL"@, "LAT"@, 0));
                reveal_strlit("LON");
                assert(differ_at("QTH_INTL"@, "LON"@, 0));
                reveal_strlit("LOTW_QSL_RCVD");
                assert(differ_at("QTH_INTL"@, "LOTW_QSL_RCVD"@, 0));
                reveal_strlit("LOTW_QSL_SENT");
                assert(differ_at("QTH_INTL"@, "LOTW_QSL_SENT"@, 0));
                reveal_strlit("MODE");
                assert(differ_at("QTH_INTL"@, "MODE"@, 0));
                reveal_strlit("MORSE_KEY_TYPE");
                assert(differ_at("QTH_INTL"@, "MORSE_KEY_TYPE"@, 0));
                reveal_strlit("MY_DXCC");
                assert(differ_at("QTH_INTL"@, "MY_DXCC"@, 0));
                reveal_strlit("MY_GRIDSQUARE");
                assert(differ_at("QTH_INTL"@, "MY_GRIDSQUARE"@, 0));
                reveal_strlit("MY_LAT");
                assert(differ_at("QTH_INTL"@, "MY_LAT"@, 0));
                reveal_strlit("MY_LON");
                assert(differ_at("QTH_INTL"@, "MY_LON"@, 0));
                reveal_strlit("MY_POTA_REF");
                assert(differ_at("QTH_INTL"@, "MY_POTA_REF"@, 0));
                reveal_strlit("MY_SOTA_REF");
                assert(differ_at("QTH_INTL"@, "MY_SOTA_REF"@, 0));
                reveal_strlit("MY_WWFF_REF");
                assert(differ_at("QTH_INTL"@, "MY_WWFF_REF"@, 0));
                reveal_strlit("NAME");
                assert(differ_at("QTH_INTL"@, "NAME"@, 0));
                reveal_strlit("NAME_INTL");
                assert(differ_at("QTH_INTL"@, "NAME_INTL"@, 0));
                reveal_strlit("NOTES");
                assert(differ_at("QTH_INTL"@, "NOTES"@, 0));
                reveal_strlit("POTA_REF");
                assert(differ_at("QTH_INTL"@, "POTA_REF"@, 0));
                reveal_strlit("PROP_MODE");
                assert(differ_at("QTH_INTL"@, "PROP_MODE"@, 0));
                reveal_strlit("QSLMSG");
                assert(differ_at("QTH_INTL"@, "QSLMSG"@, 0));
                reveal_strlit("QSL_RCVD");
                assert(differ_at("QTH_INTL"@, "QSL_RCVD"@, 1));
                reveal_strlit("QSL_RCVD_VIA");
                assert(differ_at("QTH_INTL"@, "QSL_RCVD_VIA"@, 0));
                reveal_strlit("QSL_SENT");
                assert(differ_at("QTH_INTL"@, "QSL_SENT"@, 1));
                reveal_strlit("QSL_SENT_VIA");
                assert(differ_at("QTH_INTL"@, "QSL_SENT_VIA"@, 0));
                reveal_strlit("QSL_VIA");
                assert(differ_at("QTH_INTL"@, "QSL_VIA"@, 0));
                reveal_strlit("QSO_COMPLETE");
                assert(differ_at("QTH_INTL"@, "QSO_COMPLETE"@, 0));
                reveal_strlit("QSO_DATE");
                assert(differ_at("QTH_INTL"@, "QSO_DATE"@, 1));
                reveal_strlit("QSO_DATE_OFF");
                assert(differ_at("QTH_INTL"@, "QSO_DATE_OFF"@, 0));
                reveal_strlit("QSO_RANDOM");
                assert(differ_at("QTH_INTL"@, "QSO_RANDOM"@, 0));
                reveal_strlit("QTH");
                assert(differ_at("QTH_INTL"@, "QTH"@, 0));
                assert(token_chars("QTH_INTL"@));
            },
            QSOFieldName::REGION => {
                reveal_strlit("REGION");
                reveal_strlit("ADDRESS");
                assert(differ_at("REGION"@, "ADDRESS"@, 0));
                reveal_strlit("ADDRESS_INTL");
                assert(differ_at("REGION"@, "ADDRESS_INTL"@, 0));
                reveal_strlit("AGE");
                assert(differ_at("REGION"@, "AGE"@, 0));
                reveal_strlit("ANT_AZ");
                assert(differ_at("REGION"@, "ANT_AZ"@, 0));
                reveal_strlit("ANT_EL");
                assert(differ_at("REGION"@, "ANT_EL"@, 0));
                reveal_strlit("ANT_PATH");
                assert(differ_at("REGION"@, "ANT_PATH"@, 0));
                reveal_strlit("A_INDEX");
                assert(differ_at("REGION"@, "A_INDEX"@, 0));
                reveal_strlit("AWARD_GRANTED");
                assert(differ_at("REGION"@, "AWARD_GRANTED"@, 0));
                reveal_strlit("AWARD_SUBMITTED");
                assert(differ_at("REGION"@, "AWARD_SUBMITTED"@, 0));
                reveal_strlit("BAND");
                assert(differ_at("REGION"@, "BAND"@, 0));
                reveal_strlit("BAND_RX");
                assert(differ_at("REGION"@, "BAND_RX"@, 0));
                reveal_strlit("CALL");
                assert(differ_at("REGION"@, "CALL"@, 0));
                reveal_strlit("CHECK");
                assert(differ_at("REGION"@, "CHECK"@, 0));
                reveal_strlit("CLASS");
                assert(differ_at("REGION"@, "CLASS"@, 0));
                reveal_strlit("CLUBLOG_QSO_UPLOAD_DATE");
                assert(differ_at("REGION"@, "CLUBLOG_QSO_UPLOAD_DATE"@, 0));
                reveal_strlit("CLUBLOG_QSO_UPLOAD_STATUS");
                assert(differ_at("REGION"@, "CLUBLOG_QSO_UPLOAD_STATUS"@, 0));
                reveal_strlit("CNTY");
                assert(differ_at("REGION"@, "CNTY"@, 0));
                reveal_strlit("COMMENT");
                assert(differ_at("REGION"@, "COMMENT"@, 0));
                reveal_strlit("COMMENT_INTL");
                assert(differ_at("REGION"@, "COMMENT_INTL"@, 0));
                reveal_strlit("CONT");
                assert(differ_at("REGION"@, "CONT"@, 0));
                reveal_strlit("CONTACTED_OP");
                assert(differ_at("REGION"@, "CONTACTED_OP"@, 0));
                reveal_strlit("CONTEST_ID");
                assert(differ_at("REGION"@, "CONTEST_ID"@, 0));
                reveal_strlit("COUNTRY");
                assert(differ_at("REGION"@, "COUNTRY"@, 0));
                reveal_strlit("CQZ");
                assert(differ_at("REGION"@, "CQZ"@, 0));
                reveal_strlit("DXCC");
                assert(differ_at("REGION"@, "DXCC"@, 0));
                reveal_strlit("EMAIL");
                assert(differ_at("REGION"@, "EMAIL"@, 0));
                reveal_strlit("EQSL_QSL_RCVD");
                assert(differ_at("REGION"@, "EQSL_QSL_RCVD"@, 0));
                reveal_strlit("EQSL_QSL_SENT");
                assert(differ_at("REGION"@, "EQSL_QSL_SENT"@, 0));
                reveal_strlit("FORCE_INIT");
                assert(differ_at("REGION"@, "FORCE_INIT"@, 0));
                reveal_strlit("FREQ");
                assert(differ_at("REGION"@, "FREQ"@, 0));
                reveal_strlit("FREQ_RX");
                assert(differ_at("REGION"@, "FREQ_RX"@, 0));
                reveal_strlit("GRIDSQUARE");
                assert(differ_at("REGION"@, "GRIDSQUARE"@, 0));
                reveal_strlit("GRIDSQUARE_EXT");
                assert(differ_at("REGION"@, "GRIDSQUARE_EXT"@, 0));
                reveal_strlit("IOTA");
                assert(differ_at("REGION"@, "IOTA"@, 0));
                reveal_strlit("ITUZ");
                assert(differ_at("REGION"@, "ITUZ"@, 0));
                reveal_strlit("K_INDEX");
                assert(differ_at("REGION"@, "K_INDEX"@, 0));
                reveal_strlit("LAT");
                assert(differ_at("REGION"@, "LAT"@, 0));
                reveal_strlit("LON");
                assert(differ_at("REGION"@, "LON"@, 0));
                reveal_strlit("LOTW_QSL_RCVD");
                assert(differ_at("REGION"@, "LOTW_QSL_RCVD"@, 0));
                reveal_strlit("LOTW_QSL_SENT");
                assert(differ_at("REGION"@, "LOTW_QSL_SENT"@, 0));
                reveal_strlit("MODE");
                assert(differ_at("REGION"@, "MODE"@, 0));
                reveal_strlit("MORSE_KEY_TYPE");
                assert(differ_at("REGION"@, "MORSE_KEY_TYPE"@, 0));
                reveal_strlit("MY_DXCC");
                assert(differ_at("REGION"@, "MY_DXCC"@, 0));
                reveal_strlit("MY_GRIDSQUARE");
                assert(differ_at("REGION"@, "MY_GRIDSQUARE"@, 0));
                reveal_strlit("MY_LAT");
                assert(differ_at("REGION"@, "MY_LAT"@, 0));
                reveal_strlit("MY_LON");
                assert(differ_at("REGION"@, "MY_LON"@, 0));
                reveal_strlit("MY_POTA_REF");
                assert(differ_at("REGION"@, "MY_POTA_REF"@, 0));
                reveal_strlit("MY_SOTA_REF");
                assert(differ_at("REGION"@, "MY_SOTA_REF"@, 0));
                reveal_strlit("MY_WWFF_REF");
                assert(differ_at("REGION"@, "MY_WWFF_REF"@, 0));
                reveal_strlit("NAME");
                assert(differ_at("REGION"@, "NAME"@, 0));
                reveal_strlit("NAME_INTL");
                assert(differ_at("REGION"@, "NAME_INTL"@, 0));
                reveal_strlit("NOTES");
                assert(differ_at("REGION"@, "NOTES"@, 0));
                reveal_strlit("POTA_REF");
                assert(differ_at("REGION"@, "POTA_REF"@, 0));
                reveal_strlit("PROP_MODE");
                assert(differ_at("REGION"@, "PROP_MODE"@, 0));
                reveal_strlit("QSLMSG");
                assert(differ_at("REGION"@, "QSLMSG"@, 0));
                reveal_strlit("QSL_RCVD");
                assert(differ_at("REGION"@, "QSL_RCVD"@, 0));
                reveal_strlit("QSL_RCVD_VIA");
                assert(differ_at("REGION"@, "QSL_RCVD_VIA"@, 0));
                reveal_strlit("QSL_SENT");
                assert(differ_at("REGION"@, "QSL_SENT"@, 0));
                reveal_strlit("QSL_SENT_VIA");
                assert(differ_at("REGION"@, "QSL_SENT_VIA"@, 0));
                reveal_strlit("QSL_VIA");
                assert(differ_at("REGION"@, "QSL_VIA"@, 0));
                reveal_strlit("QSO_COMPLETE");
                assert(differ_at("REGION"@, "QSO_COMPLETE"@, 0));
                reveal_strlit("QSO_DATE");
                assert(differ_at("REGION"@, "QSO_DATE"@, 0));
                reveal_strlit("QSO_DATE_OFF");
                assert(differ_at("REGION"@, "QSO_DATE_OFF"@, 0));
                reveal_strlit("QSO_RANDOM");
                assert(differ_at("REGION"@, "QSO_RANDOM"@, 0));
                reveal_strlit("QTH");
                assert(differ_at("REGION"@, "QTH"@, 0));
                reveal_strlit("QTH_INTL");
                assert(differ_at("REGION"@, "QTH_INTL"@, 0));
                assert(token_chars("REGION"@));
            },
            QSOFieldName::RST_RCVD => {
                reveal_strlit("RST_RCVD");
                reveal_strlit("ADDRESS");
                assert(differ_at("RST_RCVD"@, "ADDRESS"@, 0));
                reveal_strlit("ADDRESS_INTL");
                assert(differ_at("RST_RCVD"@, "ADDRESS_INTL"@, 0));
                reveal_strlit("AGE");
                assert(differ_at("RST_RCVD"@, "AGE"@, 0));
                reveal_strlit("ANT_AZ");
                assert(differ_at("RST_RCVD"@, "ANT_AZ"@, 0));
                reveal_strlit("ANT_EL");
                assert(differ_at("RST_RCVD"@, "ANT_EL"@, 0));
                reveal_strlit("ANT_PATH");
                assert(differ_at("RST_RCVD"@, "ANT_PATH"@, 0));
                reveal_strlit("A_INDEX");
                assert(differ_at("RST_RCVD"@, "A_INDEX"@, 0));
                reveal_strlit("AWARD_GRANTED");
                assert(differ_at("RST_RCVD"@, "AWARD_GRANTED"@, 0));
                reveal_strlit("AWARD_SUBMITTED");
                assert(differ_at("RST_RCVD"@, "AWARD_SUBMITTED"@, 0));
                reveal_strlit("BAND");
                assert(differ_at("RST_RCVD"@, "BAND"@, 0));
                reveal_strlit("BAND_RX");
                assert(differ_at("RST_RCVD"@, "BAND_RX"@, 0));
                reveal_strlit("CALL");
                assert(differ_at("RST_RCVD"@, "CALL"@, 0));
                reveal_strlit("CHECK");
                assert(differ_at("RST_RCVD"@, "CHECK"@, 0));
                reveal_strlit("CLASS");
                assert(differ_at("RST_RCVD"@, "CLASS"@, 0));
                reveal_strlit("CLUBLOG_QSO_UPLOAD_DATE");
                assert(differ_at("RST_RCVD"@, "CLUBLOG_QSO_UPLOAD_DATE"@, 0));
                reveal_strlit("CLUBLOG_QSO_UPLOAD_STATUS");
                assert(differ_at("RST_RCVD"@, "CLUBLOG_QSO_UPLOAD_STATUS"@, 0));
                reveal_strlit("CNTY");
                assert(differ_at("RST_RCVD"@, "CNTY"@, 0));
                reveal_strlit("COMMENT");
                assert(differ_at("RST_RCVD"@, "COMMENT"@, 0));
                reveal_strlit("COMMENT_INTL");
                assert(differ_at("RST_RCVD"@, "COMMENT_INTL"@, 0));
                reveal_strlit("CONT");
                assert(differ_at("RST_RCVD"@, "CONT"@, 0));
                reveal_strlit("CONTACTED_OP");
                assert(differ_at("RST_RCVD"@, "CONTACTED_OP"@, 0));
                reveal_strlit("CONTEST_ID");
                assert(differ_at("RST_RCVD"@, "CONTEST_ID"@, 0));
                reveal_strlit("COUNTRY");
                assert(differ_at("RST_RCVD"@, "COUNTRY"@, 0));
                reveal_strlit("CQZ");
                assert(differ_at("RST_RCVD"@, "CQZ"@, 0));
                reveal_strlit("DXCC");
                assert(differ_at("RST_RCVD"@, "DXCC"@, 0));
                reveal_strlit("EMAIL");
                assert(differ_at("RST_RCVD"@, "EMAIL"@, 0));
                reveal_strlit("EQSL_QSL_RCVD");
                assert(differ_at("RST_RCVD"@, "EQSL_QSL_RCVD"@, 0));
                reveal_strlit("EQSL_QSL_SENT");
                assert(differ_at("RST_RCVD"@, "EQSL_QSL_SENT"@, 0));
                reveal_strlit("FORCE_INIT");
                assert(differ_at("RST_RCVD"@, "FORCE_INIT"@, 0));
                reveal_strlit("FREQ");
                assert(differ_at("RST_RCVD"@, "FREQ"@, 0));
                reveal_strlit("FREQ_RX");
                assert(differ_at("RST_RCVD"@, "FREQ_RX"@, 0));
                reveal_strlit("GRIDSQUARE");
                assert(differ_at("RST_RCVD"@, "GRIDSQUARE"@, 0));
                reveal_strlit("GRIDSQUARE_EXT");
                assert(differ_at("RST_RCVD"@, "GRIDSQUARE_EXT"@, 0));
                reveal_strlit("IOTA");
                assert(differ_at("RST_RCVD"@, "IOTA"@, 0));
                reveal_strlit("ITUZ");
                assert(differ_at("RST_RCVD"@, "ITUZ"@, 0));
                reveal_strlit("K_INDEX");
                assert(differ_at("RST_RCVD"@, "K_INDEX"@, 0));
                reveal_strlit("LAT");
                assert(differ_at("RST_RCVD"@, "LAT"@, 0));
                reveal_strlit("LON");
                assert(differ_at("RST_RCVD"@, "LON"@, 0));
                reveal_strlit("LOTW_QSL_RCVD");
                assert(differ_at("RST_RCVD"@, "LOTW_QSL_RCVD"@, 0));
                reveal_strlit("LOTW_QSL_SENT");
                assert(differ_at("RST_RCVD"@, "LOTW_QSL_SENT"@, 0));
                reveal_strlit("MODE");
                assert(differ_at("RST_RCVD"@, "MODE"@, 0));
                reveal_strlit("MORSE_KEY_TYPE");
                assert(differ_at("RST_RCVD"@, "MORSE_KEY_TYPE"@, 0));
                reveal_strlit("MY_DXCC");
                assert(differ_at("RST_RCVD"@, "MY_DXCC"@, 0));
                reveal_strlit("MY_GRIDSQUARE");
                assert(differ_at("RST_RCVD"@, "MY_GRIDSQUARE"@, 0));
                reveal_strlit("MY_LAT");
                assert(differ_at("RST_RCVD"@, "MY_LAT"@, 0));
                reveal_strlit("MY_LON");
                assert(differ_at("RST_RCVD"@, "MY_LON"@, 0));
                reveal_strlit("MY_POTA_REF");
                assert(differ_at("RST_RCVD"@, "MY_POTA_REF"@, 0));
                reveal_strlit("MY_SOTA_REF");
                assert(differ_at("RST_RCVD"@, "MY_SOTA_REF"@, 0));
                reveal_strlit("MY_WWFF_REF");
                assert(differ_at("RST_RCVD"@, "MY_WWFF_REF"@, 0));
                reveal_strlit("NAME");
                assert(differ_at("RST_RCVD"@, "NAME"@, 0));
                reveal_strlit("NAME_INTL");
                assert(differ_at("RST_RCVD"@, "NAME_INTL"@, 0));
                reveal_strlit("NOTES");
                assert(differ_at("RST_RCVD"@, "NOTES"@, 0));
                reveal_strlit("POTA_REF");
                assert(differ_at("RST_RCVD"@, "POTA_REF"@, 0));
                reveal_strlit("PROP_MODE");
                assert(differ_at("RST_RCVD"@, "PROP_MODE"@, 0));
                reveal_strlit("QSLMSG");
                assert(differ_at("RST_RCVD"@, "QSLMSG"@, 0));
                reveal_strlit("QSL_RCVD");
                assert(differ_at("RST_RCVD"@, "QSL_RCVD"@, 0));
                reveal_strlit("QSL_RCVD_VIA");
                assert(differ_at("RST_RCVD"@, "QSL_RCVD_VIA"@, 0));
                reveal_strlit("QSL_SENT");
                assert(differ_at("RST_RCVD"@, "QSL_SENT"@, 0));
                reveal_strlit("QSL_SENT_VIA");
                assert(differ_at("RST_RCVD"@, "QSL_SENT_VIA"@, 0));
                reveal_strlit("QSL_VIA");
                assert(differ_at("RST_RCVD"@, "QSL_VIA"@, 0));
                reveal_strlit("QSO_COMPLETE");
                assert(differ_at("RST_RCVD"@, "QSO_COMPLETE"@, 0));
                reveal_strlit("QSO_DATE");
                assert(differ_at("RST_RCVD"@, "QSO_DATE"@, 0));
                reveal_strlit("QSO_DATE_OFF");
                assert(differ_at("RST_RCVD"@, "QSO_DATE_OFF"@, 0));
                reveal_strlit("QSO_RANDOM");
                assert(differ_at("RST_RCVD"@, "QSO_RANDOM"@, 0));
                reveal_strlit("QTH");
                assert(differ_at("RST_RCVD"@, "QTH"@, 0));
                reveal_strlit("QTH_INTL");
                assert(differ_at("RST_RCVD"@, "QTH_INTL"@, 0));
                reveal_strlit("REGION");
                assert(differ_at("RST_RCVD"@, "REGION"@, 0));
                assert(token_chars("RST_RCVD"@));
            },
            QSOFieldName::RST_SENT => {
                reveal_strlit("RST_SENT");
                reveal_strlit("ADDRESS");
                assert(differ_at("RST_SENT"@, "ADDRESS"@, 0));
                reveal_strlit("ADDRESS_INTL");
                assert(differ_at("RST_SENT"@, "ADDRESS_INTL"@, 0));
                reveal_strlit("AGE");
                assert(differ_at("RST_SENT"@, "AGE"@, 0));
                reveal_strlit("ANT_AZ");
                assert(differ_at("RST_SENT"@, "ANT_AZ"@, 0));
                reveal_strlit("ANT_EL");
                assert(differ_at("RST_SENT"@, "ANT_EL"@, 0));
                reveal_strlit("ANT_PATH");
                assert(differ_at("RST_SENT"@, "ANT_PATH"@, 0));
                reveal_strlit("A_INDEX");
                assert(differ_at("RST_SENT"@, "A_INDEX"@, 0));
                reveal_strlit("AWARD_GRANTED");
                assert(differ_at("RST_SENT"@, "AWARD_GRANTED"@, 0));
                reveal_strlit("AWARD_SUBMITTED");
                assert(differ_at("RST_SENT"@, "AWARD_SUBMITTED"@, 0));
                reveal_strlit("BAND");
                assert(differ_at("RST_SENT"@, "BAND"@, 0));
                reveal_strlit("BAND_RX");
                assert(differ_at("RST_SENT"@, "BAND_RX"@, 0));
                reveal_strlit("CALL");
                assert(differ_at("RST_SENT"@, "CALL"@, 0));
                reveal_strlit("CHECK");
                assert(differ_at("RST_SENT"@, "CHECK"@, 0));
                reveal_strlit("CLASS");
                assert(differ_at("RST_SENT"@, "CLASS"@, 0));
                reveal_strlit("CLUBLOG_QSO_UPLOAD_DATE");
                assert(differ_at("RST_SENT"@, "CLUBLOG_QSO_UPLOAD_DATE"@, 0));
                reveal_strlit("CLUBLOG_QSO_UPLOAD_STATUS");
                assert(differ_at("RST_SENT"@, "CLUBLOG_QSO_UPLOAD_STATUS"@, 0));
                reveal_strlit("CNTY");
                assert(differ_at("RST_SENT"@, "CNTY"@, 0));
                reveal_strlit("COMMENT");
                assert(differ_at("RST_SENT"@, "COMMENT"@, 0));
                reveal_strlit("COMMENT_INTL");
                assert(differ_at("RST_SENT"@, "COMMENT_INTL"@, 0));
                reveal_strlit("CONT");
                assert(differ_at("RST_SENT"@, "CONT"@, 0));
                reveal_strlit("CONTACTED_OP");
                assert(differ_at("RST_SENT"@, "CONTACTED_OP"@, 0));
                reveal_strlit("CONTEST_ID");
                assert(differ_at("RST_SENT"@, "CONTEST_ID"@, 0));
                reveal_strlit("COUNTRY");
                assert(differ_at("RST_SENT"@, "COUNTRY"@, 0));
                reveal_strlit("CQZ");
                assert(differ_at("RST_SENT"@, "CQZ"@, 0));
                reveal_strlit("DXCC");
                assert(differ_at("RST_SENT"@, "DXCC"@, 0));
                reveal_strlit("EMAIL");
                assert(differ_at("RST_SENT"@, "EMAIL"@, 0));
                reveal_strlit("EQSL_QSL_RCVD");
                assert(differ_at("RST_SENT"@, "EQSL_QSL_RCVD"@, 0));
                reveal_strlit("EQSL_QSL_SENT");
                assert(differ_at("RST_SENT"@, "EQSL_QSL_SENT"@, 0));
                reveal_strlit("FORCE_INIT");
                assert(differ_at("RST_SENT"@, "FORCE_INIT"@, 0));
                reveal_strlit("FREQ");
                assert(differ_at("RST_SENT"@, "FREQ"@, 0));
                reveal_strlit("FREQ_RX");
                assert(differ_at("RST_SENT"@, "FREQ_RX"@, 0));
                reveal_strlit("GRIDSQUARE");
                assert(differ_at("RST_SENT"@, "GRIDSQUARE"@, 0));
                reveal_strlit("GRIDSQUARE_EXT");
                assert(differ_at("RST_SENT"@, "GRIDSQUARE_EXT"@, 0));
                reveal_strlit("IOTA");
                assert(differ_at("RST_SENT"@, "IOTA"@, 0));
                reveal_strlit("ITUZ");
                assert(differ_at("RST_SENT"@, "ITUZ"@, 0));
                reveal_strlit("K_INDEX");
                assert(differ_at("RST_SENT"@, "K_INDEX"@, 0));
                reveal_strlit("LAT");
                assert(differ_at("RST_SENT"@, "LAT"@, 0));
                reveal_strlit("LON");
                assert(differ_at("RST_SENT"@, "LON"@, 0));
                reveal_strlit("LOTW_QSL_RCVD");
                assert(differ_at("RST_SENT"@, "LOTW_QSL_RCVD"@, 0));
                reveal_strlit("LOTW_QSL_SENT");
                assert(differ_at("RST_SENT"@, "LOTW_QSL_SENT"@, 0));
                reveal_strlit("MODE");
                assert(differ_at("RST_SENT"@, "MODE"@, 0));
                reveal_strlit("MORSE_KEY_TYPE");
                assert(differ_at("RST_SENT"@, "MORSE_KEY_TYPE"@, 0));
                reveal_strlit("MY_DXCC");
                assert(differ_at("RST_SENT"@, "MY_DXCC"@, 0));
                reveal_strlit("MY_GRIDSQUARE");
                assert(differ_at("RST_SENT"@, "MY_GRIDSQUARE"@, 0));
                reveal_strlit("MY_LAT");
                assert(differ_at("RST_SENT"@, "MY_LAT"@, 0));
                reveal_strlit("MY_LON");
                assert(differ_at("RST_SENT"@, "MY_LON"@, 0));
                reveal_strlit("MY_POTA_REF");
                assert(differ_at("RST_SENT"@, "MY_POTA_REF"@, 0));
                reveal_strlit("MY_SOTA_REF");
                assert(differ_at("RST_SENT"@, "MY_SOTA_REF"@, 0));
                reveal_strlit("MY_WWFF_REF");
                assert(differ_at("RST_SENT"@, "MY_WWFF_REF"@, 0));
                reveal_strlit("NAME");
                assert(differ_at("RST_SENT"@, "NAME"@, 0));
                reveal_strlit("NAME_INTL");
                assert(differ_at("RST_SENT"@, "NAME_INTL"@, 0));
                reveal_strlit("NOTES");
                assert(differ_at("RST_SENT"@, "NOTES"@, 0));
                reveal_strlit("POTA_REF");
                assert(differ_at("RST_SENT"@, "POTA_REF"@, 0));
                reveal_strlit("PROP_MODE");
                assert(differ_at("RST_SENT"@, "PROP_MODE"@, 0));
                reveal_strlit("QSLMSG");
                assert(differ_at("RST_SENT"@, "QSLMSG"@, 0));
                reveal_strlit("QSL_RCVD");
                assert(differ_at("RST_SENT"@, "QSL_RCVD"@, 0));
                reveal_strlit("QSL_RCVD_VIA");
                assert(differ_at("RST_SENT"@, "QSL_RCVD_VIA"@, 0));
                reveal_strlit("QSL_SENT");
                assert(differ_at("RST_SENT"@, "QSL_SENT"@, 0));
                reveal_strlit("QSL_SENT_VIA");
                assert(differ_at("RST_SENT"@, "QSL_SENT_VIA"@, 0));
                reveal_strlit("QSL_VIA");
                assert(differ_at("RST_SENT"@, "QSL_VIA"@, 0));
                reveal_strlit("QSO_COMPLETE");
                assert(differ_at("RST_SENT"@, "QSO_COMPLETE"@, 0));
                reveal_strlit("QSO_DATE");
                assert(differ_at("RST_SENT"@, "QSO_DATE"@, 0));
                reveal_strlit("QSO_DATE_OFF");
                assert(differ_at("RST_SENT"@, "QSO_DATE_OFF"@, 0));
                reveal_strlit("QSO_RANDOM");
                assert(differ_at("RST_SENT"@, "QSO_RANDOM"@, 0));
                reveal_strlit("QTH");
                assert(differ_at("RST_SENT"@, "QTH"@, 0));
                reveal_strlit("QTH_INTL");
                assert(differ_at("RST_SENT"@, "QTH_INTL"@, 0));
                reveal_strlit("REGION");
                assert(differ_at("RST_SENT"@, "REGION"@, 0));
                reveal_strlit("RST_RCVD");
                assert(differ_at("RST_SENT"@, "RST_RCVD"@, 4));
                assert(token_chars("RST_SENT"@));
            },
            QSOFieldName::RX_PWR => {
                reveal_strlit("RX_PWR");
                reveal_strlit("ADDRESS");
                assert(differ_at("RX_PWR"@, "ADDRESS"@, 0));
                reveal_strlit("ADDRESS_INTL");
                assert(differ_at("RX_PWR"@, "ADDRESS_INTL"@, 0));
                reveal_strlit("AGE");
                assert(differ_at("RX_PWR"@, "AGE"@, 0));
                reveal_strlit("ANT_AZ");
                assert(differ_at("RX_PWR"@, "ANT_AZ"@, 0));
                reveal_strlit("ANT_EL");
                assert(differ_at("RX_PWR"@, "ANT_EL"@, 0));
                reveal_strlit("ANT_PATH");
                assert(differ_at("RX_PWR"@, "ANT_PATH"@, 0));
                reveal_strlit("A_INDEX");
                assert(differ_at("RX_PWR"@, "A_INDEX"@, 0));
                reveal_strlit("AWARD_GRANTED");
                assert(differ_at("RX_PWR"@, "AWARD_GRANTED"@, 0));
                reveal_strlit("AWARD_SUBMITTED");
                assert(differ_at("RX_PWR"@, "AWARD_SUBMITTED"@, 0));
                reveal_strlit("BAND");
                assert(differ_at("RX_PWR"@, "BAND"@, 0));
                reveal_strlit("BAND_RX");
                assert(differ_at("RX_PWR"@, "BAND_RX"@, 0));
                reveal_strlit("CALL");
                assert(differ_at("RX_PWR"@, "CALL"@, 0));
                reveal_strlit("CHECK");
                assert(differ_at("RX_PWR"@, "CHECK"@, 0));
                reveal_strlit("CLASS");
                assert(differ_at("RX_PWR"@, "CLASS"@, 0));
                reveal_strlit("CLUBLOG_QSO_UPLOAD_DATE");
                assert(differ_at("RX_PWR"@, "CLUBLOG_QSO_UPLOAD_DATE"@, 0));
                reveal_strlit("CLUBLOG_QSO_UPLOAD_STATUS");
                assert(differ_at("RX_PWR"@, "CLUBLOG_QSO_UPLOAD_STATUS"@, 0));
                reveal_strlit("CNTY");
                assert(differ_at("RX_PWR"@, "CNTY"@, 0));
                reveal_strlit("COMMENT");
                assert(differ_at("RX_PWR"@, "COMMENT"@, 0));
                reveal_strlit("COMMENT_INTL");
                assert(differ_at("RX_PWR"@, "COMMENT_INTL"@, 0));
                reveal_strlit("CONT");
                assert(differ_at("RX_PWR"@, "CONT"@, 0));
                reveal_strlit("CONTACTED_OP");
                assert(differ_at("RX_PWR"@, "CONTACTED_OP"@, 0));
                reveal_strlit("CONTEST_ID");
                assert(differ_at("RX_PWR"@, "CONTEST_ID"@, 0));
                reveal_strlit("COUNTRY");
                assert(differ_at("RX_PWR"@, "COUNTRY"@, 0));
                reveal_strlit("CQZ");
                assert(differ_at("RX_PWR"@, "CQZ"@, 0));
                reveal_strlit("DXCC");
                assert(differ_at("RX_PWR"@, "DXCC"@, 0));
                reveal_strlit("EMAIL");
                assert(differ_at("RX_PWR"@, "EMAIL"@, 0));
                reveal_strlit("EQSL_QSL_RCVD");
                assert(differ_at("RX_PWR"@, "EQSL_QSL_RCVD"@, 0));
                reveal_strlit("EQSL_QSL_SENT");
                assert(differ_at("RX_PWR"@, "EQSL_QSL_SENT"@, 0));
                reveal_strlit("FORCE_INIT");
                assert(differ_at("RX_PWR"@, "FORCE_INIT"@, 0));
                reveal_strlit("FREQ");
                assert(differ_at("RX_PWR"@, "FREQ"@, 0));
                reveal_strlit("FREQ_RX");
                assert(differ_at("RX_PWR"@, "FREQ_RX"@, 0));
                reveal_strlit("GRIDSQUARE");
                assert(differ_at("RX_PWR"@, "GRIDSQUARE"@, 0));
                reveal_strlit("GRIDSQUARE_EXT");
                assert(differ_at("RX_PWR"@, "GRIDSQUARE_EXT"@, 0));
                reveal_strlit("IOTA");
                assert(differ_at("RX_PWR"@, "IOTA"@, 0));
                reveal_strlit("ITUZ");
                assert(differ_at("RX_PWR"@, "ITUZ"@, 0));
                reveal_strlit("K_INDEX");
                assert(differ_at("RX_PWR"@, "K_INDEX"@, 0));
                reveal_strlit("LAT");
                assert(differ_at("RX_PWR"@, "LAT"@, 0));
                reveal_strlit("LON");
                assert(differ_at("RX_PWR"@, "LON"@, 0));
                reveal_strlit("LOTW_QSL_RCVD");
                assert(differ_at("RX_PWR"@, "LOTW_QSL_RCVD"@, 0));
                reveal_strlit("LOTW_QSL_SENT");
                assert(differ_at("RX_PWR"@, "LOTW_QSL_SENT"@, 0));
                reveal_strlit("MODE");
                assert(differ_at("RX_PWR"@, "MODE"@, 0));
                reveal_strlit("MORSE_KEY_TYPE");
                assert(differ_at("RX_PWR"@, "MORSE_KEY_TYPE"@, 0));
                reveal_strlit("MY_DXCC");
                assert(differ_at("RX_PWR"@, "MY_DXCC"@, 0));
                reveal_strlit("MY_GRIDSQUARE");
                assert(differ_at("RX_PWR"@, "MY_GRIDSQUARE"@, 0));
                reveal_strlit("MY_LAT");
                assert(differ_at("RX_PWR"@, "MY_LAT"@, 0));
                reveal_strlit("MY_LON");
                assert(differ_at("RX_PWR"@, "MY_LON"@, 0));
                reveal_strlit("MY_POTA_REF");
                assert(differ_at("RX_PWR"@, "MY_POTA_REF"@, 0));
                reveal_strlit("MY_SOTA_REF");
                assert(differ_at("RX_PWR"@, "MY_SOTA_REF"@, 0));
                reveal_strlit("MY_WWFF_REF");
                assert(differ_at("RX_PWR"@, "MY_WWFF_REF"@, 0));
                reveal_strlit("NAME");
                assert(differ_at("RX_PWR"@, "NAME"@, 0));
                reveal_strlit("NAME_INTL");
                assert(differ_at("RX_PWR"@, "NAME_INTL"@, 0));
                reveal_strlit("NOTES");
                assert(differ_at("RX_PWR"@, "NOTES"@, 0));
                reveal_strlit("POTA_REF");
                assert(differ_at("RX_PWR"@, "POTA_REF"@, 0));
                reveal_strlit("PROP_MODE");
                assert(differ_at("RX_PWR"@, "PROP_MODE"@, 0));
                reveal_strlit("QSLMSG");
                assert(differ_at("RX_PWR"@, "QSLMSG"@, 0));
                reveal_strlit("QSL_RCVD");
                assert(differ_at("RX_PWR"@, "QSL_RCVD"@, 0));
                reveal_strlit("QSL_RCVD_VIA");
                assert(differ_at("RX_PWR"@, "QSL_RCVD_VIA"@, 0));
                reveal_strlit("QSL_SENT");
                assert(differ_at("RX_PWR"@, "QSL_SENT"@, 0));
                reveal_strlit("QSL_SENT_VIA");
                assert(differ_at("RX_PWR"@, "QSL_SENT_VIA"@, 0));
                reveal_strlit("QSL_VIA");
                assert(differ_at("RX_PWR"@, "QSL_VIA"@, 0));
                reveal_strlit("QSO_COMPLETE");
                assert(differ_at("RX_PWR"@, "QSO_COMPLETE"@, 0));
                reveal_strlit("QSO_DATE");
                assert(differ_at("RX_PWR"@, "QSO_DATE"@, 0));
                reveal_strlit("QSO_DATE_OFF");
                assert(differ_at("RX_PWR"@, "QSO_DATE_OFF"@, 0));
                reveal_strlit("QSO_RANDOM");
                assert(differ_at("RX_PWR"@, "QSO_RANDOM"@, 0));
                reveal_strlit("QTH");
                assert(differ_at("RX_PWR"@, "QTH"@, 0));
                reveal_strlit("QTH_INTL");
                assert(differ_at("RX_PWR"@, "QTH_INTL"@, 0));
                reveal_strlit("REGION");
                assert(differ_at("RX_PWR"@, "REGION"@, 1));
                reveal_strlit("RST_RCVD");
                assert(differ_at("RX_PWR"@, "RST_RCVD"@, 0));
                reveal_strlit("RST_SENT");
                assert(differ_at("RX_PWR"@, "RST_SENT"@, 0));
                assert(token_chars("RX_PWR"@));
            },
            QSOFieldName::SOTA_REF => {
                reveal_strlit("SOTA_REF");
                reveal_strlit("ADDRESS");
                assert(differ_at("SOTA_REF"@, "ADDRESS"@, 0));
                reveal_strlit("ADDRESS_INTL");
                assert(differ_at("SOTA_REF"@, "ADDRESS_INTL"@, 0));
                reveal_strlit("AGE");
                assert(differ_at("SOTA_REF"@, "AGE"@, 0));
                reveal_strlit("ANT_AZ");
                assert(differ_at("SOTA_REF"@, "ANT_AZ"@, 0));
                reveal_strlit("ANT_EL");
                assert(differ_at("SOTA_REF"@, "ANT_EL"@, 0));
                reveal_strlit("ANT_PATH");
                assert(differ_at("SOTA_REF"@, "ANT_PATH"@, 0));
                reveal_strlit("A_INDEX");
                assert(differ_at("SOTA_REF"@, "A_INDEX"@, 0));
                reveal_strlit("AWARD_GRANTED");
                assert(differ_at("SOTA_REF"@, "AWARD_GRANTED"@, 0));
                reveal_strlit("AWARD_SUBMITTED");
                assert(differ_at("SOTA_REF"@, "AWARD_SUBMITTED"@, 0));
                reveal_strlit("BAND");
                assert(differ_at("SOTA_REF"@, "BAND"@, 0));
                reveal_strlit("BAND_RX");
                assert(differ_at("SOTA_REF"@, "BAND_RX"@, 0));
                reveal_strlit("CALL");
                assert(differ_at("SOTA_REF"@, "CALL"@, 0));
                reveal_strlit("CHECK");
                assert(differ_at("SOTA_REF"@, "CHECK"@, 0));
                reveal_strlit("CLASS");
                assert(differ_at("SOTA_REF"@, "CLASS"@, 0));
                reveal_strlit("CLUBLOG_QSO_UPLOAD_DATE");
                assert(differ_at("SOTA_REF"@, "CLUBLOG_QSO_UPLOAD_DATE"@, 0));
                reveal_strlit("CLUBLOG_QSO_UPLOAD_STATUS");
                assert(differ_at("SOTA_REF"@, "CLUBLOG_QSO_UPLOAD_STATUS"@, 0));
                reveal_strlit("CNTY");
                assert(differ_at("SOTA_REF"@, "CNTY"@, 0));
                reveal_strlit("COMMENT");
                assert(differ_at("SOTA_REF"@, "COMMENT"@, 0));
                reveal_strlit("COMMENT_INTL");
                assert(differ_at("SOTA_REF"@, "COMMENT_INTL"@, 0));
                reveal_strlit("CONT");
                assert(differ_at("SOTA_REF"@, "CONT"@, 0));
                reveal_strlit("CONTACTED_OP");
                assert(differ_at("SOTA_REF"@, "CONTACTED_OP"@, 0));
                reveal_strlit("CONTEST_ID");
                assert(differ_at("SOTA_REF"@, "CONTEST_ID"@, 0));
                reveal_strlit("COUNTRY");
                assert(differ_at("SOTA_REF"@, "COUNTRY"@, 0));
                reveal_strlit("CQZ");
                assert(differ_at("SOTA_REF"@, "CQZ"@, 0));
                reveal_strlit("DXCC");
                assert(differ_at("SOTA_REF"@, "DXCC"@, 0));
                reveal_strlit("EMAIL");
                assert(differ_at("SOTA_REF"@, "EMAIL"@, 0));
                reveal_strlit("EQSL_QSL_RCVD");
                assert(differ_at("SOTA_REF"@, "EQSL_QSL_RCVD"@, 0));
                reveal_strlit("EQSL_QSL_SENT");
                assert(differ_at("SOTA_REF"@, "EQSL_QSL_SENT"@, 0));
                reveal_strlit("FORCE_INIT");
                assert(differ_at("SOTA_REF"@, "FORCE_INIT"@, 0));
                reveal_strlit("FREQ");
                assert(differ_at("SOTA_REF"@, "FREQ"@, 0));
                reveal_strlit("FREQ_RX");
                assert(differ_at("SOTA_REF"@, "FREQ_RX"@, 0));
                reveal_strlit("GRIDSQUARE");
                assert(differ_at("SOTA_REF"@, "GRIDSQUARE"@, 0));
                reveal_strlit("GRIDSQUARE_EXT");
                assert(differ_at("SOTA_REF"@, "GRIDSQUARE_EXT"@, 0));
                reveal_strlit("IOTA");
                assert(differ_at("SOTA_REF"@, "IOTA"@, 0));
                reveal_strlit("ITUZ");
                assert(differ_at("SOTA_REF"@, "ITUZ"@, 0));
                reveal_strlit("K_INDEX");
                assert(differ_at("SOTA_REF"@, "K_INDEX"@, 0));
                reveal_strlit("LAT");
                assert(differ_at("SOTA_REF"@, "LAT"@, 0));
                reveal_strlit("LON");
                assert(differ_at("SOTA_REF"@, "LON"@, 0));
                reveal_strlit("LOTW_QSL_RCVD");
                assert(differ_at("SOTA_REF"@, "LOTW_QSL_RCVD"@, 0));
                reveal_strlit("LOTW_QSL_SENT");
                assert(differ_at("SOTA_REF"@, "LOTW_QSL_SENT"@, 0));
                reveal_strlit("MODE");
                assert(differ_at("SOTA_REF"@, "MODE"@, 0));
                reveal_strlit("MORSE_KEY_TYPE");
                assert(differ_at("SOTA_REF"@, "MORSE_KEY_TYPE"@, 0));
                reveal_strlit("MY_DXCC");
                assert(differ_at("SOTA_REF"@, "MY_DXCC"@, 0));
                reveal_strlit("MY_GRIDSQUARE");
                assert(differ_at("SOTA_REF"@, "MY_GRIDSQUARE"@, 0));
                reveal_strlit("MY_LAT");
                assert(differ_at("SOTA_REF"@, "MY_LAT"@, 0));
                reveal_strlit("MY_LON");
                assert(differ_at("SOTA_REF"@, "MY_LON"@, 0));
                reveal_strlit("MY_POTA_REF");
                assert(differ_at("SOTA_REF"@, "MY_POTA_REF"@, 0));
                reveal_strlit("MY_SOTA_REF");
                assert(differ_at("SOTA_REF"@, "MY_SOTA_REF"@, 0));
                reveal_strlit("MY_WWFF_REF");
                assert(differ_at("SOTA_REF"@, "MY_WWFF_REF"@, 0));
                reveal_strlit("NAME");
                assert(differ_at("SOTA_REF"@, "NAME"@, 0));
                reveal_strlit("NAME_INTL");
                assert(differ_at("SOTA_REF"@, "NAME_INTL"@, 0));
                reveal_strlit("NOTES");
                assert(differ_at("SOTA_REF"@, "NOTES"@, 0));
                reveal_strlit("POTA_REF");
                assert(differ_at("SOTA_REF"@, "POTA_REF"@, 0));
                reveal_strlit("PROP_MODE");
                assert(differ_at("SOTA_REF"@, "PROP_MODE"@, 0));
                reveal_strlit("QSLMSG");
                assert(differ_at("SOTA_REF"@, "QSLMSG"@, 0));
                reveal_strlit("QSL_RCVD");
                assert(differ_at("SOTA_REF"@, "QSL_RCVD"@, 0));
                reveal_strlit("QSL_RCVD_VIA");
                assert(differ_at("SOTA_REF"@, "QSL_RCVD_VIA"@, 0));
                reveal_strlit("QSL_SENT");
                assert(differ_at("SOTA_REF"@, "QSL_SENT"@, 0));
                reveal_strlit("QSL_SENT_VIA");
                assert(differ_at("SOTA_REF"@, "QSL_SENT_VIA"@, 0));
                reveal_strlit("QSL_VIA");
                assert(differ_at("SOTA_REF"@, "QSL_VIA"@, 0));
                reveal_strlit("QSO_COMPLETE");
                assert(differ_at("SOTA_REF"@, "QSO_COMPLETE"@, 0));
                reveal_strlit("QSO_DATE");
                assert(differ_at("SOTA_REF"@, "QSO_DATE"@, 0));
                reveal_strlit("QSO_DATE_OFF");
                assert(differ_at("SOTA_REF"@, "QSO_DATE_OFF"@, 0));
                reveal_strlit("QSO_RANDOM");
                assert(differ_at("SOTA_REF"@, "QSO_RANDOM"@, 0));
                reveal_strlit("QTH");
                assert(differ_at("SOTA_REF"@, "QTH"@, 0));
                reveal_strlit("QTH_INTL");
                assert(differ_at("SOTA_REF"@, "QTH_INTL"@, 0));
                reveal_strlit("REGION");
                assert(differ_at("SOTA_REF"@, "REGION"@, 0));
                reveal_strlit("RST_RCVD");
                assert(differ_at("SOTA_REF"@, "RST_RCVD"@, 0));
                reveal_strlit("RST_SENT");
                assert(differ_at("SOTA_REF"@, "RST_SENT"@, 0));
                reveal_strlit("RX_PWR");
                assert(differ_at("SOTA_REF"@, "RX_PWR"@, 0));
                assert(token_chars("SOTA_REF"@));
            },
            QSOFieldName::SRX => {
                reveal_strlit("SRX");
                reveal_strlit("ADDRESS");
                assert(differ_at("SRX"@, "ADDRESS"@, 0));
                reveal_strlit("ADDRESS_INTL");
                assert(differ_at("SRX"@, "ADDRESS_INTL"@, 0));
                reveal_strlit("AGE");
                assert(differ_at("SRX"@, "AGE"@, 0));
                reveal_strlit("ANT_AZ");
                assert(differ_at("SRX"@, "ANT_AZ"@, 0));
                reveal_strlit("ANT_EL");
                assert(differ_at("SRX"@, "ANT_EL"@, 0));
                reveal_strlit("ANT_PATH");
                assert(differ_at("SRX"@, "ANT_PATH"@, 0));
                reveal_strlit("A_INDEX");
                assert(differ_at("SRX"@, "A_INDEX"@, 0));
                reveal_strlit("AWARD_GRANTED");
                assert(differ_at("SRX"@, "AWARD_GRANTED"@, 0));
                reveal_strlit("AWARD_SUBMITTED");
                assert(differ_at("SRX"@, "AWARD_SUBMITTED"@, 0));
                reveal_strlit("BAND");
                assert(differ_at("SRX"@, "BAND"@, 0));
                reveal_strlit("BAND_RX");
                assert(differ_at("SRX"@, "BAND_RX"@, 0));
                reveal_strlit("CALL");
                assert(differ_at("SRX"@, "CALL"@, 0));
                reveal_strlit("CHECK");
                assert(differ_at("SRX"@, "CHECK"@, 0));
                reveal_strlit("CLASS");
                assert(differ_at("SRX"@, "CLASS"@, 0));
                reveal_strlit("CLUBLOG_QSO_UPLOAD_DATE");
                assert(differ_at("SRX"@, "CLUBLOG_QSO_UPLOAD_DATE"@, 0));
                reveal_strlit("CLUBLOG_QSO_UPLOAD_STATUS");
                assert(differ_at("SRX"@, "CLUBLOG_QSO_UPLOAD_STATUS"@, 0));
                reveal_strlit("CNTY");
                assert(differ_at("SRX"@, "CNTY"@, 0));
                reveal_strlit("COMMENT");
                assert(differ_at("SRX"@, "COMMENT"@, 0));
                reveal_strlit("COMMENT_INTL");
                assert(differ_at("SRX"@, "COMMENT_INTL"@, 0));
                reveal_strlit("CONT");
                assert(differ_at("SRX"@, "CONT"@, 0));
                reveal_strlit("CONTACTED_OP");
                assert(differ_at("SRX"@, "CONTACTED_OP"@, 0));
                reveal_strlit("CONTEST_ID");
                assert(differ_at("SRX"@, "CONTEST_ID"@, 0));
                reveal_strlit("COUNTRY");
                assert(differ_at("SRX"@, "COUNTRY"@, 0));
                reveal_strlit("CQZ");
                assert(differ_at("SRX"@, "CQZ"@, 0));
                reveal_strlit("DXCC");
                assert(differ_at("SRX"@, "DXCC"@, 0));
                reveal_strlit("EMAIL");
                assert(differ_at("SRX"@, "EMAIL"@, 0));
                reveal_strlit("EQSL_QSL_RCVD");
                assert(differ_at("SRX"@, "EQSL_QSL_RCVD"@, 0));
                reveal_strlit("EQSL_QSL_SENT");
                assert(differ_at("SRX"@, "EQSL_QSL_SENT"@, 0));
                reveal_strlit("FORCE_INIT");
                assert(differ_at("SRX"@, "FORCE_INIT"@, 0));
                reveal_strlit("FREQ");
                assert(differ_at("SRX"@, "FREQ"@, 0));
                reveal_strlit("FREQ_RX");
                assert(differ_at("SRX"@, "FREQ_RX"@, 0));
                reveal_strlit("GRIDSQUARE");
                assert(differ_at("SRX"@, "GRIDSQUARE"@, 0));
                reveal_strlit("GRIDSQUARE_EXT");
                assert(differ_at("SRX"@, "GRIDSQUARE_EXT"@, 0));
                reveal_strlit("IOTA");
                assert(differ_at("SRX"@, "IOTA"@, 0));
                reveal_strlit("ITUZ");
                assert(differ_at("SRX"@, "ITUZ"@, 0));
                reveal_strlit("K_INDEX");
                assert(differ_at("SRX"@, "K_INDEX"@, 0));
                reveal_strlit("LAT");
                assert(differ_at("SRX"@, "LAT"@, 0));
                reveal_strlit("LON");
                assert(differ_at("SRX"@, "LON"@, 0));
                reveal_strlit("LOTW_QSL_RCVD");
                assert(differ_at("SRX"@, "LOTW_QSL_RCVD"@, 0));
                reveal_strlit("LOTW_QSL_SENT");
                assert(differ_at("SRX"@, "LOTW_QSL_SENT"@, 0));
                reveal_strlit("MODE");
                assert(differ_at("SRX"@, "MODE"@, 0));
                reveal_strlit("MORSE_KEY_TYPE");
                assert(differ_at("SRX"@, "MORSE_KEY_TYPE"@, 0));
                reveal_strlit("MY_DXCC");
                assert(differ_at("SRX"@, "MY_DXCC"@, 0));
                reveal_strlit("MY_GRIDSQUARE");
                assert(differ_at("SRX"@, "MY_GRIDSQUARE"@, 0));
                reveal_strlit("MY_LAT");
                assert(differ_at("SRX"@, "MY_LAT"@, 0));
                reveal_strlit("MY_LON");
                assert(differ_at("SRX"@, "MY_LON"@, 0));
                reveal_strlit("MY_POTA_REF");
                assert(differ_at("SRX"@, "MY_POTA_REF"@, 0));
                reveal_strlit("MY_SOTA_REF");
                assert(differ_at("SRX"@, "MY_SOTA_REF"@, 0));
                reveal_strlit("MY_WWFF_REF");
                assert(differ_at("SRX"@, "MY_WWFF_REF"@, 0));
                reveal_strlit("NAME");
                assert(differ_at("SRX"@, "NAME"@, 0));
                reveal_strlit("NAME_INTL");
                assert(differ_at("SRX"@, "NAME_INTL"@, 0));
                reveal_strlit("NOTES");
                assert(differ_at("SRX"@, "NOTES"@, 0));
                reveal_strlit("POTA_REF");
                assert(differ_at("SRX"@, "POTA_REF"@, 0));
                reveal_strlit("PROP_MODE");
                assert(differ_at("SRX"@, "PROP_MODE"@, 0));
                reveal_strlit("QSLMSG");
                assert(differ_at("SRX"@, "QSLMSG"@, 0));
                reveal_strlit("QSL_RCVD");
                assert(differ_at("SRX"@, "QSL_RCVD"@, 0));
                reveal_strlit("QSL_RCVD_VIA");
                assert(differ_at("SRX"@, "QSL_RCVD_VIA"@, 0));
                reveal_strlit("QSL_SENT");
                assert(differ_at("SRX"@, "QSL_SENT"@, 0));
                reveal_strlit("QSL_SENT_VIA");
                assert(differ_at("SRX"@, "QSL_SENT_VIA"@, 0));
                reveal_strlit("QSL_VIA");
                assert(differ_at("SRX"@, "QSL_VIA"@, 0));
                reveal_strlit("QSO_COMPLETE");
                assert(differ_at("SRX"@, "QSO_COMPLETE"@, 0));
                reveal_strlit("QSO_DATE");
                assert(differ_at("SRX"@, "QSO_DATE"@, 0));
                reveal_strlit("QSO_DATE_OFF");
                assert(differ_at("SRX"@, "QSO_DATE_OFF"@, 0));
                reveal_strlit("QSO_RANDOM");
                assert(differ_at("SRX"@, "QSO_RANDOM"@, 0));
                reveal_strlit("QTH");
                assert(differ_at("SRX"@, "QTH"@, 0));
                reveal_strlit("QTH_INTL");
                assert(differ_at("SRX"@, "QTH_INTL"@, 0));
                reveal_strlit("REGION");
                assert(differ_at("SRX"@, "REGION"@, 0));
                reveal_strlit("RST_RCVD");
                assert(differ_at("SRX"@, "RST_RCVD"@, 0));
                reveal_strlit("RST_SENT");
                assert(differ_at("SRX"@, "RST_SENT"@, 0));
                reveal_strlit("RX_PWR");
                assert(differ_at("SRX"@, "RX_PWR"@, 0));
                reveal_strlit("SOTA_REF");
                assert(differ_at("SRX"@, "SOTA_REF"@, 0));
                assert(token_chars("SRX"@));
            },
            QSOFieldName::STX => {
                reveal_strlit("STX");
                reveal_strlit("ADDRESS");
                assert(differ_at("STX"@, "ADDRESS"@, 0));
                reveal_strlit("ADDRESS_INTL");
                assert(differ_at("STX"@, "ADDRESS_INTL"@, 0));
                reveal_strlit("AGE");
                assert(differ_at("STX"@, "AGE"@, 0));
                reveal_strlit("ANT_AZ");
                assert(differ_at("STX"@, "ANT_AZ"@, 0));
                reveal_strlit("ANT_EL");
                assert(differ_at("STX"@, "ANT_EL"@, 0));
                reveal_strlit("ANT_PATH");
                assert(differ_at("STX"@, "ANT_PATH"@, 0));
                reveal_strlit("A_INDEX");
                assert(differ_at("STX"@, "A_INDEX"@, 0));
                reveal_strlit("AWARD_GRANTED");
                assert(differ_at("STX"@, "AWARD_GRANTED"@, 0));
                reveal_strlit("AWARD_SUBMITTED");
                assert(differ_at("STX"@, "AWARD_SUBMITTED"@, 0));
                reveal_strlit("BAND");
                assert(differ_at("STX"@, "BAND"@, 0));
                reveal_strlit("BAND_RX");
                assert(differ_at("STX"@, "BAND_RX"@, 0));
                reveal_strlit("CALL");
                assert(differ_at("STX"@, "CALL"@, 0));
                reveal_strlit("CHECK");
                assert(differ_at("STX"@, "CHECK"@, 0));
                reveal_strlit("CLASS");
                assert(differ_at("STX"@, "CLASS"@, 0));
                reveal_strlit("CLUBLOG_QSO_UPLOAD_DATE");
                assert(differ_at("STX"@, "CLUBLOG_QSO_UPLOAD_DATE"@, 0));
                reveal_strlit("CLUBLOG_QSO_UPLOAD_STATUS");
                assert(differ_at("STX"@, "CLUBLOG_QSO_UPLOAD_STATUS"@, 0));
                reveal_strlit("CNTY");
                assert(differ_at("STX"@, "CNTY"@, 0));
                reveal_strlit("COMMENT");
                assert(differ_at("STX"@, "COMMENT"@, 0));
                reveal_strlit("COMMENT_INTL");
                assert(differ_at("STX"@, "COMMENT_INTL"@, 0));
                reveal_strlit("CONT");
                assert(differ_at("STX"@, "CONT"@, 0));
                reveal_strlit("CONTACTED_OP");
                assert(differ_at("STX"@, "CONTACTED_OP"@, 0));
                reveal_strlit("CONTEST_ID");
                assert(differ_at("STX"@, "CONTEST_ID"@, 0));
                reveal_strlit("COUNTRY");
                assert(differ_at("STX"@, "COUNTRY"@, 0));
                reveal_strlit("CQZ");
                assert(differ_at("STX"@, "CQZ"@, 0));
                reveal_strlit("DXCC");
                assert(differ_at("STX"@, "DXCC"@, 0));
                reveal_strlit("EMAIL");
                assert(differ_at("STX"@, "EMAIL"@, 0));
                reveal_strlit("EQSL_QSL_RCVD");
                assert(differ_at("STX"@, "EQSL_QSL_RCVD"@, 0));
                reveal_strlit("EQSL_QSL_SENT");
                assert(differ_at("STX"@, "EQSL_QSL_SENT"@, 0));
                reveal_strlit("FORCE_INIT");
                assert(differ_at("STX"@, "FORCE_INIT"@, 0));
                reveal_strlit("FREQ");
                assert(differ_at("STX"@, "FREQ"@, 0));
                reveal_strlit("FREQ_RX");
                assert(differ_at("STX"@, "FREQ_RX"@, 0));
                reveal_strlit("GRIDSQUARE");
                assert(differ_at("STX"@, "GRIDSQUARE"@, 0));
                reveal_strlit("GRIDSQUARE_EXT");
                assert(differ_at("STX"@, "GRIDSQUARE_EXT"@, 0));
                reveal_strlit("IOTA");
                assert(differ_at("STX"@, "IOTA"@, 0));
                reveal_strlit("ITUZ");
                assert(differ_at("STX"@, "ITUZ"@, 0));
                reveal_strlit("K_INDEX");
                assert(differ_at("STX"@, "K_INDEX"@, 0));
                reveal_strlit("LAT");
                assert(differ_at("STX"@, "LAT"@, 0));
                reveal_strlit("LON");
                assert(differ_at("STX"@, "LON"@, 0));
                reveal_strlit("LOTW_QSL_RCVD");
                assert(differ_at("STX"@, "LOTW_QSL_RCVD"@, 0));
                reveal_strlit("LOTW_QSL_SENT");
                assert(differ_at("STX"@, "LOTW_QSL_SENT"@, 0));
                reveal_strlit("MODE");
                assert(differ_at("STX"@, "MODE"@, 0));
                reveal_strlit("MORSE_KEY_TYPE");
                assert(differ_at("STX"@, "MORSE_KEY_TYPE"@, 0));
                reveal_strlit("MY_DXCC");
                assert(differ_at("STX"@, "MY_DXCC"@, 0));
                reveal_strlit("MY_GRIDSQUARE");
                assert(differ_at("STX"@, "MY_GRIDSQUARE"@, 0));
                reveal_strlit("MY_LAT");
                assert(differ_at("STX"@, "MY_LAT"@, 0));
                reveal_strlit("MY_LON");
                assert(differ_at("STX"@, "MY_LON"@, 0));
                reveal_strlit("MY_POTA_REF");
                assert(differ_at("STX"@, "MY_POTA_REF"@, 0));
                reveal_strlit("MY_SOTA_REF");
                assert(differ_at("STX"@, "MY_SOTA_REF"@, 0));
                reveal_strlit("MY_WWFF_REF");
                assert(differ_at("STX"@, "MY_WWFF_REF"@, 0));
                reveal_strlit("NAME");
                assert(differ_at("STX"@, "NAME"@, 0));
                reveal_strlit("NAME_INTL");
                assert(differ_at("STX"@, "NAME_INTL"@, 0));
                reveal_strlit("NOTES");
                assert(differ_at("STX"@, "NOTES"@, 0));
                reveal_strlit("POTA_REF");
                assert(differ_at("STX"@, "POTA_REF"@, 0));
                reveal_strlit("PROP_MODE");
                assert(differ_at("STX"@, "PROP_MODE"@, 0));
                reveal_strlit("QSLMSG");
                assert(differ_at("STX"@, "QSLMSG"@, 0));
                reveal_strlit("QSL_RCVD");
                assert(differ_at("STX"@, "QSL_RCVD"@, 0));
                reveal_strlit("QSL_RCVD_VIA");
                assert(differ_at("STX"@, "QSL_RCVD_VIA"@, 0));
                reveal_strlit("QSL_SENT");
                assert(differ_at("STX"@, "QSL_SENT"@, 0));
                reveal_strlit("QSL_SENT_VIA");
                assert(differ_at("STX"@, "QSL_SENT_VIA"@, 0));
                reveal_strlit("QSL_VIA");
                assert(differ_at("STX"@, "QSL_VIA"@, 0));
                reveal_strlit("QSO_COMPLETE");
                assert(differ_at("STX"@, "QSO_COMPLETE"@, 0));
                reveal_strlit("QSO_DATE");
                assert(differ_at("STX"@, "QSO_DATE"@, 0));
                reveal_strlit("QSO_DATE_OFF");
                assert(differ_at("STX"@, "QSO_DATE_OFF"@, 0));
                reveal_strlit("QSO_RANDOM");
                assert(differ_at("STX"@, "QSO_RANDOM"@, 0));
                reveal_strlit("QTH");
                assert(differ_at("STX"@, "QTH"@, 0));
                reveal_strlit("QTH_INTL");
                assert(differ_at("STX"@, "QTH_INTL"@, 0));
                reveal_strlit("REGION");
                assert(differ_at("STX"@, "REGION"@, 0));
                reveal_strlit("RST_RCVD");
                assert(differ_at("STX"@, "RST_RCVD"@, 0));
                reveal_strlit("RST_SENT");
                assert(differ_at("STX"@, "RST_SENT"@, 0));
                reveal_strlit("RX_PWR");
                assert(differ_at("STX"@, "RX_PWR"@, 0));
                reveal_strlit("SOTA_REF");
                assert(differ_at("STX"@, "SOTA_REF"@, 0));
                reveal_strlit("SRX");
                assert(differ_at("STX"@, "SRX"@, 1));
                assert(token_chars("STX"@));
            },
            QSOFieldName::SUBMODE => {
                reveal_strlit("SUBMODE");
                reveal_strlit("ADDRESS");
                assert(differ_at("SUBMODE"@, "ADDRESS"@, 0));
                reveal_strlit("ADDRESS_INTL");
                assert(differ_at("SUBMODE"@, "ADDRESS_INTL"@, 0));
                reveal_strlit("AGE");
                assert(differ_at("SUBMODE"@, "AGE"@, 0));
                reveal_strlit("ANT_AZ");
                assert(differ_at("SUBMODE"@, "ANT_AZ"@, 0));
                reveal_strlit("ANT_EL");
                assert(differ_at("SUBMODE"@, "ANT_EL"@, 0));
                reveal_strlit("ANT_PATH");
                assert(differ_at("SUBMODE"@, "ANT_PATH"@, 0));
                reveal_strlit("A_INDEX");
                assert(differ_at("SUBMODE"@, "A_INDEX"@, 0));
                reveal_strlit("AWARD_GRANTED");
                assert(differ_at("SUBMODE"@, "AWARD_GRANTED"@, 0));
                reveal_strlit("AWARD_SUBMITTED");
                assert(differ_at("SUBMODE"@, "AWARD_SUBMITTED"@, 0));
                reveal_strlit("BAND");
                assert(differ_at("SUBMODE"@, "BAND"@, 0));
                reveal_strlit("BAND_RX");
                assert(differ_at("SUBMODE"@, "BAND_RX"@, 0));
                reveal_strlit("CALL");
                assert(differ_at("SUBMODE"@, "CALL"@, 0));
                reveal_strlit("CHECK");
                assert(differ_at("SUBMODE"@, "CHECK"@, 0));
                reveal_strlit("CLASS");
                assert(differ_at("SUBMODE"@, "CLASS"@, 0));
                reveal_strlit("CLUBLOG_QSO_UPLOAD_DATE");
                assert(differ_at("SUBMODE"@, "CLUBLOG_QSO_UPLOAD_DATE"@, 0));
                reveal_strlit("CLUBLOG_QSO_UPLOAD_STATUS");
                assert(differ_at("SUBMODE"@, "CLUBLOG_QSO_UPLOAD_STATUS"@, 0));
                reveal_strlit("CNTY");
                assert(differ_at("SUBMODE"@, "CNTY"@, 0));
                reveal_strlit("COMMENT");
                assert(differ_at("SUBMODE"@, "COMMENT"@, 0));
                reveal_strlit("COMMENT_INTL");
                assert(differ_at("SUBMODE"@, "COMMENT_INTL"@, 0));
                reveal_strlit("CONT");
                assert(differ_at("SUBMODE"@, "CONT"@, 0));
                reveal_strlit("CONTACTED_OP");
                assert(differ_at("SUBMODE"@, "CONTACTED_OP"@, 0));
                reveal_strlit("CONTEST_ID");
                assert(differ_at("SUBMODE"@, "CONTEST_ID"@, 0));
                reveal_strlit("COUNTRY");
                assert(differ_at("SUBMODE"@, "COUNTRY"@, 0));
                reveal_strlit("CQZ");
                assert(differ_at("SUBMODE"@, "CQZ"@, 0));
                reveal_strlit("DXCC");
                assert(differ_at("SUBMODE"@, "DXCC"@, 0));
                reveal_strlit("EMAIL");
                assert(differ_at("SUBMODE"@, "EMAIL"@, 0));
                reveal_strlit("EQSL_QSL_RCVD");
                assert(differ_at("SUBMODE"@, "EQSL_QSL_RCVD"@, 0));
                reveal_strlit("EQSL_QSL_SENT");
                assert(differ_at("SUBMODE"@, "EQSL_QSL_SENT"@, 0));
                reveal_strlit("FORCE_INIT");
                assert(differ_at("SUBMODE"@, "FORCE_INIT"@, 0));
                reveal_strlit("FREQ");
                assert(differ_at("SUBMODE"@, "FREQ"@, 0));
                reveal_strlit("FREQ_RX");
                assert(differ_at("SUBMODE"@, "FREQ_RX"@, 0));
                reveal_strlit("GRIDSQUARE");
                assert(differ_at("SUBMODE"@, "GRIDSQUARE"@, 0));
                reveal_strlit("GRIDSQUARE_EXT");
                assert(differ_at("SUBMODE"@, "GRIDSQUARE_EXT"@, 0));
                reveal_strlit("IOTA");
                assert(differ_at("SUBMODE"@, "IOTA"@, 0));
                reveal_strlit("ITUZ");
                assert(differ_at("SUBMODE"@, "ITUZ"@, 0));
                reveal_strlit("K_INDEX");
                assert(differ_at("SUBMODE"@, "K_INDEX"@, 0));
                reveal_strlit("LAT");
                assert(differ_at("SUBMODE"@, "LAT"@, 0));
                reveal_strlit("LON");
                assert(differ_at("SUBMODE"@, "LON"@, 0));
                reveal_strlit("LOTW_QSL_RCVD");
                assert(differ_at("SUBMODE"@, "LOTW_QSL_RCVD"@, 0));
                reveal_strlit("LOTW_QSL_SENT");
                assert(differ_at("SUBMODE"@, "LOTW_QSL_SENT"@, 0));
                reveal_strlit("MODE");
                assert(differ_at("SUBMODE"@, "MODE"@, 0));
                reveal_strlit("MORSE_KEY_TYPE");
                assert(differ_at("SUBMODE"@, "MORSE_KEY_TYPE"@, 0));
                reveal_strlit("MY_DXCC");
                assert(differ_at("SUBMODE"@, "MY_DXCC"@, 0));
                reveal_strlit("MY_GRIDSQUARE");
                assert(differ_at("SUBMODE"@, "MY_GRIDSQUARE"@, 0));
                reveal_strlit("MY_LAT");
                assert(differ_at("SUBMODE"@, "MY_LAT"@, 0));
                reveal_strlit("MY_LON");
                assert(differ_at("SUBMODE"@, "MY_LON"@, 0));
                reveal_strlit("MY_POTA_REF");
                assert(differ_at("SUBMODE"@, "MY_POTA_REF"@, 0));
                reveal_strlit("MY_SOTA_REF");
                assert(differ_at("SUBMODE"@, "MY_SOTA_REF"@, 0));
                reveal_strlit("MY_WWFF_REF");
                assert(differ_at("SUBMODE"@, "MY_WWFF_REF"@, 0));
                reveal_strlit("NAME");
                assert(differ_at("SUBMODE"@, "NAME"@, 0));
                reveal_strlit("NAME_INTL");
                assert(differ_at("SUBMODE"@, "NAME_INTL"@, 0));
                reveal_strlit("NOTES");
                assert(differ_at("SUBMODE"@, "NOTES"@, 0));
                reveal_strlit("POTA_REF");
                assert(differ_at("SUBMODE"@, "POTA_REF"@, 0));
                reveal_strlit("PROP_MODE");
                assert(differ_at("SUBMODE"@, "PROP_MODE"@, 0));
                reveal_strlit("QSLMSG");
                assert(differ_at("SUBMODE"@, "QSLMSG"@, 0));
                reveal_strlit("QSL_RCVD");
                assert(differ_at("SUBMODE"@, "QSL_RCVD"@, 0));
                reveal_strlit("QSL_RCVD_VIA");
                assert(differ_at("SUBMODE"@, "QSL_RCVD_VIA"@, 0));
                reveal_strlit("QSL_SENT");
                assert(differ_at("SUBMODE"@, "QSL_SENT"@, 0));
                reveal_strlit("QSL_SENT_VIA");
                assert(differ_at("SUBMODE"@, "QSL_SENT_VIA"@, 0));
                reveal_strlit("QSL_VIA");
                assert(differ_at("SUBMODE"@, "QSL_VIA"@, 0));
                reveal_strlit("QSO_COMPLETE");
                assert(differ_at("SUBMODE"@, "QSO_COMPLETE"@, 0));
                reveal_strlit("QSO_DATE");
                assert(differ_at("SUBMODE"@, "QSO_DATE"@, 0));
                reveal_strlit("QSO_DATE_OFF");
                assert(differ_at("SUBMODE"@, "QSO_DATE_OFF"@, 0));
                reveal_strlit("QSO_RANDOM");
                assert(differ_at("SUBMODE"@, "QSO_RANDOM"@, 0));
                reveal_strlit("QTH");
                assert(differ_at("SUBMODE"@, "QTH"@, 0));
                reveal_strlit("QTH_INTL");
                assert(differ_at("SUBMODE"@, "QTH_INTL"@, 0));
                reveal_strlit("REGION");
                assert(differ_at("SUBMODE"@, "REGION"@, 0));
                reveal_strlit("RST_RCVD");
                assert(differ_at("SUBMODE"@, "RST_RCVD"@, 0));
                reveal_strlit("RST_SENT");
                assert(differ_at("SUBMODE"@, "RST_SENT"@, 0));
                reveal_strlit("RX_PWR");
                assert(differ_at("SUBMODE"@, "RX_PWR"@, 0));
                reveal_strlit("SOTA_REF");
                assert(differ_at("SUBMODE"@, "SOTA_REF"@, 0));
                reveal_strlit("SRX");
                assert(differ_at("SUBMODE"@, "SRX"@, 0));
                reveal_strlit("STX");
                assert(differ_at("SUBMODE"@, "STX"@, 0));
                assert(token_chars("SUBMODE"@));
            },
            QSOFieldName::SWL => {
                reveal_strlit("SWL");
                reveal_strlit("ADDRESS");
                assert(differ_at("SWL"@, "ADDRESS"@, 0));
                reveal_strlit("ADDRESS_INTL");
                assert(differ_at("SWL"@, "ADDRESS_INTL"@, 0));
                reveal_strlit("AGE");
                assert(differ_at("SWL"@, "AGE"@, 0));
                reveal_strlit("ANT_AZ");
                assert(differ_at("SWL"@, "ANT_AZ"@, 0));
                reveal_strlit("ANT_EL");
                assert(differ_at("SWL"@, "ANT_EL"@, 0));
                reveal_strlit("ANT_PATH");
                assert(differ_at("SWL"@, "ANT_PATH"@, 0));
                reveal_strlit("A_INDEX");
                assert(differ_at("SWL"@, "A_INDEX"@, 0));
                reveal_strlit("AWARD_GRANTED");
                assert(differ_at("SWL"@, "AWARD_GRANTED"@, 0));
                reveal_strlit("AWARD_SUBMITTED");
                assert(differ_at("SWL"@, "AWARD_SUBMITTED"@, 0));
                reveal_strlit("BAND");
                assert(differ_at("SWL"@, "BAND"@, 0));
                reveal_strlit("BAND_RX");
                assert(differ_at("SWL"@, "BAND_RX"@, 0));
                reveal_strlit("CALL");
                assert(differ_at("SWL"@, "CALL"@, 0));
                reveal_strlit("CHECK");
                assert(differ_at("SWL"@, "CHECK"@, 0));
                reveal_strlit("CLASS");
                assert(differ_at("SWL"@, "CLASS"@, 0));
                reveal_strlit("CLUBLOG_QSO_UPLOAD_DATE");
                assert(differ_at("SWL"@, "CLUBLOG_QSO_UPLOAD_DATE"@, 0));
                reveal_strlit("CLUBLOG_QSO_UPLOAD_STATUS");
                assert(differ_at("SWL"@, "CLUBLOG_QSO_UPLOAD_STATUS"@, 0));
                reveal_strlit("CNTY");
                assert(differ_at("SWL"@, "CNTY"@, 0));
                reveal_strlit("COMMENT");
                assert(differ_at("SWL"@, "COMMENT"@, 0));
                reveal_strlit("COMMENT_INTL");
                assert(differ_at("SWL"@, "COMMENT_INTL"@, 0));
                reveal_strlit("CONT");
                assert(differ_at("SWL"@, "CONT"@, 0));
                reveal_strlit("CONTACTED_OP");
                assert(differ_at("SWL"@, "CONTACTED_OP"@, 0));
                reveal_strlit("CONTEST_ID");
                assert(differ_at("SWL"@, "CONTEST_ID"@, 0));
                reveal_strlit("COUNTRY");
                assert(differ_at("SWL"@, "COUNTRY"@, 0));
                reveal_strlit("CQZ");
                assert(differ_at("SWL"@, "CQZ"@, 0));
                reveal_strlit("DXCC");
                assert(differ_at("SWL"@, "DXCC"@, 0));
                reveal_strlit("EMAIL");
                assert(differ_at("SWL"@, "EMAIL"@, 0));
                reveal_strlit("EQSL_QSL_RCVD");
                assert(differ_at("SWL"@, "EQSL_QSL_RCVD"@, 0));
                reveal_strlit("EQSL_QSL_SENT");
                assert(differ_at("SWL"@, "EQSL_QSL_SENT"@, 0));
                reveal_strlit("FORCE_INIT");
                assert(differ_at("SWL"@, "FORCE_INIT"@, 0));
                reveal_strlit("FREQ");
                assert(differ_at("SWL"@, "FREQ"@, 0));
                reveal_strlit("FREQ_RX");
                assert(differ_at("SWL"@, "FREQ_RX"@, 0));
                reveal_strlit("GRIDSQUARE");
                assert(differ_at("SWL"@, "GRIDSQUARE"@, 0));
                reveal_strlit("GRIDSQUARE_EXT");
                assert(differ_at("SWL"@, "GRIDSQUARE_EXT"@, 0));
                reveal_strlit("IOTA");
                assert(differ_at("SWL"@, "IOTA"@, 0));
                reveal_strlit("ITUZ");
                assert(differ_at("SWL"@, "ITUZ"@, 0));
                reveal_strlit("K_INDEX");
                assert(differ_at("SWL"@, "K_INDEX"@, 0));
                reveal_strlit("LAT");
                assert(differ_at("SWL"@, "LAT"@, 0));
                reveal_strlit("LON");
                assert(differ_at("SWL"@, "LON"@, 0));
                reveal_strlit("LOTW_QSL_RCVD");
                assert(differ_at("SWL"@, "LOTW_QSL_RCVD"@, 0));
                reveal_strlit("LOTW_QSL_SENT");
                assert(differ_at("SWL"@, "LOTW_QSL_SENT"@, 0));
                reveal_strlit("MODE");
                assert(differ_at("SWL"@, "MODE"@, 0));
                reveal_strlit("MORSE_KEY_TYPE");
                assert(differ_at("SWL"@, "MORSE_KEY_TYPE"@, 0));
                reveal_strlit("MY_DXCC");
                assert(differ_at("SWL"@, "MY_DXCC"@, 0));
                reveal_strlit("MY_GRIDSQUARE");
                assert(differ_at("SWL"@, "MY_GRIDSQUARE"@, 0));
                reveal_strlit("MY_LAT");
                assert(differ_at("SWL"@, "MY_LAT"@, 0));
                reveal_strlit("MY_LON");
                assert(differ_at("SWL"@, "MY_LON"@, 0));
                reveal_strlit("MY_POTA_REF");
                assert(differ_at("SWL"@, "MY_POTA_REF"@, 0));
                reveal_strlit("MY_SOTA_REF");
                assert(differ_at("SWL"@, "MY_SOTA_REF"@, 0));
                reveal_strlit("MY_WWFF_REF");
                assert(differ_at("SWL"@, "MY_WWFF_REF"@, 0));
                reveal_strlit("NAME");
                assert(differ_at("SWL"@, "NAME"@, 0));
                reveal_strlit("NAME_INTL");
                assert(differ_at("SWL"@, "NAME_INTL"@, 0));
                reveal_strlit("NOTES");
                assert(differ_at("SWL"@, "NOTES"@, 0));
                reveal_strlit("POTA_REF");
                assert(differ_at("SWL"@, "POTA_REF"@, 0));
                reveal_strlit("PROP_MODE");
                assert(differ_at("SWL"@, "PROP_MODE"@, 0));
                reveal_strlit("QSLMSG");
                assert(differ_at("SWL"@, "QSLMSG"@, 0));
                reveal_strlit("QSL_RCVD");
                assert(differ_at("SWL"@, "QSL_RCVD"@, 0));
                reveal_strlit("QSL_RCVD_VIA");
                assert(differ_at("SWL"@, "QSL_RCVD_VIA"@, 0));
                reveal_strlit("QSL_SENT");
                assert(differ_at("SWL"@, "QSL_SENT"@, 0));
                reveal_strlit("QSL_SENT_VIA");
                assert(differ_at("SWL"@, "QSL_SENT_VIA"@, 0));
                reveal_strlit("QSL_VIA");
                assert(differ_at("SWL"@, "QSL_VIA"@, 0));
                reveal_strlit("QSO_COMPLETE");
                assert(differ_at("SWL"@, "QSO_COMPLETE"@, 0));
                reveal_strlit("QSO_DATE");
                assert(differ_at("SWL"@, "QSO_DATE"@, 0));
                reveal_strlit("QSO_DATE_OFF");
                assert(differ_at("SWL"@, "QSO_DATE_OFF"@, 0));
                reveal_strlit("QSO_RANDOM");
                assert(differ_at("SWL"@, "QSO_RANDOM"@, 0));
                reveal_strlit("QTH");
                assert(differ_at("SWL"@, "QTH"@, 0));
                reveal_strlit("QTH_INTL");
                assert(differ_at("SWL"@, "QTH_INTL"@, 0));
                reveal_strlit("REGION");
                assert(differ_at("SWL"@, "REGION"@, 0));
                reveal_strlit("RST_RCVD");
                assert(differ_at("SWL"@, "RST_RCVD"@, 0));
                reveal_strlit("RST_SENT");
                assert(differ_at("SWL"@, "RST_SENT"@, 0));
                reveal_strlit("RX_PWR");
                assert(differ_at("SWL"@, "RX_PWR"@, 0));
                reveal_strlit("SOTA_REF");
                assert(differ_at("SWL"@, "SOTA_REF"@, 0));
                reveal_strlit("SRX");
                assert(differ_at("SWL"@, "SRX"@, 1));
                reveal_strlit("STX");
                assert(differ_at("SWL"@, "STX"@, 1));
                reveal_strlit("SUBMODE");
                assert(differ_at("SWL"@, "SUBMODE"@, 0));
                assert(token_chars("SWL"@));
            },
            QSOFieldName::TIME_OFF => {
                reveal_strlit("TIME_OFF");
                reveal_strlit("ADDRESS");
                assert(differ_at("TIME_OFF"@, "ADDRESS"@, 0));
                reveal_strlit("ADDRESS_INTL");
                assert(differ_at("TIME_OFF"@, "ADDRESS_INTL"@, 0));
                reveal_strlit("AGE");
                assert(differ_at("TIME_OFF"@, "AGE"@, 0));
                reveal_strlit("ANT_AZ");
                assert(differ_at("TIME_OFF"@, "ANT_AZ"@, 0));
                reveal_strlit("ANT_EL");
                assert(differ_at("TIME_OFF"@, "ANT_EL"@, 0));
                reveal_strlit("ANT_PATH");
                assert(differ_at("TIME_OFF"@, "ANT_PATH"@, 0));
                reveal_strlit("A_INDEX");
                assert(differ_at("TIME_OFF"@, "A_INDEX"@, 0));
                reveal_strlit("AWARD_GRANTED");
                assert(differ_at("TIME_OFF"@, "AWARD_GRANTED"@, 0));
                reveal_strlit("AWARD_SUBMITTED");
                assert(differ_at("TIME_OFF"@, "AWARD_SUBMITTED"@, 0));
                reveal_strlit("BAND");
                assert(differ_at("TIME_OFF"@, "BAND"@, 0));
                reveal_strlit("BAND_RX");
                assert(differ_at("TIME_OFF"@, "BAND_RX"@, 0));
                reveal_strlit("CALL");
                assert(differ_at("TIME_OFF"@, "CALL"@, 0));
                reveal_strlit("CHECK");
                assert(differ_at("TIME_OFF"@, "CHECK"@, 0));
                reveal_strlit("CLASS");
                assert(differ_at("TIME_OFF"@, "CLASS"@, 0));
                reveal_strlit("CLUBLOG_QSO_UPLOAD_DATE");
                assert(differ_at("TIME_OFF"@, "CLUBLOG_QSO_UPLOAD_DATE"@, 0));
                reveal_strlit("CLUBLOG_QSO_UPLOAD_STATUS");
                assert(differ_at("TIME_OFF"@, "CLUBLOG_QSO_UPLOAD_STATUS"@, 0));
                reveal_strlit("CNTY");
                assert(differ_at("TIME_OFF"@, "CNTY"@, 0));
                reveal_strlit("COMMENT");
                assert(differ_at("TIME_OFF"@, "COMMENT"@, 0));
                reveal_strlit("COMMENT_INTL");
                assert(differ_at("TIME_OFF"@, "COMMENT_INTL"@, 0));
                reveal_strlit("CONT");
                assert(differ_at("TIME_OFF"@, "CONT"@, 0));
                reveal_strlit("CONTACTED_OP");
                assert(differ_at("TIME_OFF"@, "CONTACTED_OP"@, 0));
                reveal_strlit("CONTEST_ID");
                assert(differ_at("TIME_OFF"@, "CONTEST_ID"@, 0));
                reveal_strlit("COUNTRY");
                assert(differ_at("TIME_OFF"@, "COUNTRY"@, 0));
                reveal_strlit("CQZ");
                assert(differ_at("TIME_OFF"@, "CQZ"@, 0));
                reveal_strlit("DXCC");
                assert(differ_at("TIME_OFF"@, "DXCC"@, 0));
                reveal_strlit("EMAIL");
                assert(differ_at("TIME_OFF"@, "EMAIL"@, 0));
                reveal_strlit("EQSL_QSL_RCVD");
                assert(differ_at("TIME_OFF"@, "EQSL_QSL_RCVD"@, 0));
                reveal_strlit("EQSL_QSL_SENT");
                assert(differ_at("TIME_OFF"@, "EQSL_QSL_SENT"@, 0));
                reveal_strlit("FORCE_INIT");
                assert(differ_at("TIME_OFF"@, "FORCE_INIT"@, 0));
                reveal_strlit("FREQ");
                assert(differ_at("TIME_OFF"@, "FREQ"@, 0));
                reveal_strlit("FREQ_RX");
                assert(differ_at("TIME_OFF"@, "FREQ_RX"@, 0));
                reveal_strlit("GRIDSQUARE");
                assert(differ_at("TIME_OFF"@, "GRIDSQUARE"@, 0));
                reveal_strlit("GRIDSQUARE_EXT");
                assert(differ_at("TIME_OFF"@, "GRIDSQUARE_EXT"@, 0));
                reveal_strlit("IOTA");
                assert(differ_at("TIME_OFF"@, "IOTA"@, 0));
                reveal_strlit("ITUZ");
                assert(differ_at("TIME_OFF"@, "ITUZ"@, 0));
                reveal_strlit("K_INDEX");
                assert(differ_at("TIME_OFF"@, "K_INDEX"@, 0));
                reveal_strlit("LAT");
                assert(differ_at("TIME_OFF"@, "LAT"@, 0));
                reveal_strlit("LON");
                assert(differ_at("TIME_OFF"@, "LON"@, 0));
                reveal_strlit("LOTW_QSL_RCVD");
                assert(differ_at("TIME_OFF"@, "LOTW_QSL_RCVD"@, 0));
                reveal_strlit("LOTW_QSL_SENT");
                assert(differ_at("TIME_OFF"@, "LOTW_QSL_SENT"@, 0));
                reveal_strlit("MODE");
                assert(differ_at("TIME_OFF"@, "MODE"@, 0));
                reveal_strlit("MORSE_KEY_TYPE");
                assert(differ_at("TIME_OFF"@, "MORSE_KEY_TYPE"@, 0));
                reveal_strlit("MY_DXCC");
                assert(differ_at("TIME_OFF"@, "MY_DXCC"@, 0));
                reveal_strlit("MY_GRIDSQUARE");
                assert(differ_at("TIME_OFF"@, "MY_GRIDSQUARE"@, 0));
                reveal_strlit("MY_LAT");
                assert(differ_at("TIME_OFF"@, "MY_LAT"@, 0));
                reveal_strlit("MY_LON");
                assert(differ_at("TIME_OFF"@, "MY_LON"@, 0));
                reveal_strlit("MY_POTA_REF");
                assert(differ_at("TIME_OFF"@, "MY_POTA_REF"@, 0));
                reveal_strlit("MY_SOTA_REF");
                assert(differ_at("TIME_OFF"@, "MY_SOTA_REF"@, 0));
                reveal_strlit("MY_WWFF_REF");
                assert(differ_at("TIME_OFF"@, "MY_WWFF_REF"@, 0));
                reveal_strlit("NAME");
                assert(differ_at("TIME_OFF"@, "NAME"@, 0));
                reveal_strlit("NAME_INTL");
                assert(differ_at("TIME_OFF"@, "NAME_INTL"@, 0));
                reveal_strlit("NOTES");
                assert(differ_at("TIME_OFF"@, "NOTES"@, 0));
                reveal_strlit("POTA_REF");
                assert(differ_at("TIME_OFF"@, "POTA_REF"@, 0));
                reveal_strlit("PROP_MODE");
                assert(differ_at("TIME_OFF"@, "PROP_MODE"@, 0));
                reveal_strlit("QSLMSG");
                assert(differ_at("TIME_OFF"@, "QSLMSG"@, 0));
                reveal_strlit("QSL_RCVD");
                assert(differ_at("TIME_OFF"@, "QSL_RCVD"@, 0));
                reveal_strlit("QSL_RCVD_VIA");
                assert(differ_at("TIME_OFF"@, "QSL_RCVD_VIA"@, 0));
                reveal_strlit("QSL_SENT");
                assert(differ_at("TIME_OFF"@, "QSL_SENT"@, 0));
                reveal_strlit("QSL_SENT_VIA");
                assert(differ_at("TIME_OFF"@, "QSL_SENT_VIA"@, 0));
                reveal_strlit("QSL_VIA");
                assert(differ_at("TIME_OFF"@, "QSL_VIA"@, 0));
                reveal_strlit("QSO_COMPLETE");
                assert(differ_at("TIME_OFF"@, "QSO_COMPLETE"@, 0));
                reveal_strlit("QSO_DATE");
                assert(differ_at("TIME_OFF"@, "QSO_DATE"@, 0));
                reveal_strlit("QSO_DATE_OFF");
                assert(differ_at("TIME_OFF"@, "QSO_DATE_OFF"@, 0));
                reveal_strlit("QSO_RANDOM");
                assert(differ_at("TIME_OFF"@, "QSO_RANDOM"@, 0));
                reveal_strlit("QTH");
                assert(differ_at("TIME_OFF"@, "QTH"@, 0));
                reveal_strlit("QTH_INTL");
                assert(differ_at("TIME_OFF"@, "QTH_INTL"@, 0));
                reveal_strlit("REGION");
                assert(differ_at("TIME_OFF"@, "REGION"@, 0));
                reveal_strlit("RST_RCVD");
                assert(differ_at("TIME_OFF"@, "RST_RCVD"@, 0));
                reveal_strlit("RST_SENT");
                assert(differ_at("TIME_OFF"@, "RST_SENT"@, 0));
                reveal_strlit("RX_PWR");
                assert(differ_at("TIME_OFF"@, "RX_PWR"@, 0));
                reveal_strlit("SOTA_REF");
                assert(differ_at("TIME_OFF"@, "SOTA_REF"@, 0));
                reveal_strlit("SRX");
                assert(differ_at("TIME_OFF"@, "SRX"@, 0));
                reveal_strlit("STX");
                assert(differ_at("TIME_OFF"@, "STX"@, 0));
                reveal_strlit("SUBMODE");
                assert(differ_at("TIME_OFF"@, "SUBMODE"@, 0));
                reveal_strlit("SWL");
                assert(differ_at("TIME_OFF"@, "SWL"@, 0));
                assert(token_chars("TIME_OFF"@));
            },
            QSOFieldName::TIME_ON => {
                reveal_strlit("TIME_ON");
                reveal_strlit("ADDRESS");
                assert(differ_at("TIME_ON"@, "ADDRESS"@, 0));
                reveal_strlit("ADDRESS_INTL");
                assert(differ_at("TIME_ON"@, "ADDRESS_INTL"@, 0));
                reveal_strlit("AGE");
                assert(differ_at("TIME_ON"@, "AGE"@, 0));
                reveal_strlit("ANT_AZ");
                assert(differ_at("TIME_ON"@, "ANT_AZ"@, 0));
                reveal_strlit("ANT_EL");
                assert(differ_at("TIME_ON"@, "ANT_EL"@, 0));
                reveal_strlit("ANT_PATH");
                assert(differ_at("TIME_ON"@, "ANT_PATH"@, 0));
                reveal_strlit("A_INDEX");
                assert(differ_at("TIME_ON"@, "A_INDEX"@, 0));
                reveal_strlit("AWARD_GRANTED");
                assert(differ_at("TIME_ON"@, "AWARD_GRANTED"@, 0));
                reveal_strlit("AWARD_SUBMITTED");
                assert(differ_at("TIME_ON"@, "AWARD_SUBMITTED"@, 0));
                reveal_strlit("BAND");
                assert(differ_at("TIME_ON"@, "BAND"@, 0));
                reveal_strlit("BAND_RX");
                assert(differ_at("TIME_ON"@, "BAND_RX"@, 0));
                reveal_strlit("CALL");
                assert(differ_at("TIME_ON"@, "CALL"@, 0));
                reveal_strlit("CHECK");
                assert(differ_at("TIME_ON"@, "CHECK"@, 0));
                reveal_strlit("CLASS");
                assert(differ_at("TIME_ON"@, "CLASS"@, 0));
                reveal_strlit("CLUBLOG_QSO_UPLOAD_DATE");
                assert(differ_at("TIME_ON"@, "CLUBLOG_QSO_UPLOAD_DATE"@, 0));
                reveal_strlit("CLUBLOG_QSO_UPLOAD_STATUS");
                assert(differ_at("TIME_ON"@, "CLUBLOG_QSO_UPLOAD_STATUS"@, 0));
                reveal_strlit("CNTY");
                assert(differ_at("TIME_ON"@, "CNTY"@, 0));
                reveal_strlit("COMMENT");
                assert(differ_at("TIME_ON"@, "COMMENT"@, 0));
                reveal_strlit("COMMENT_INTL");
                assert(differ_at("TIME_ON"@, "COMMENT_INTL"@, 0));
                reveal_strlit("CONT");
                assert(differ_at("TIME_ON"@, "CONT"@, 0));
                reveal_strlit("CONTACTED_OP");
                assert(differ_at("TIME_ON"@, "CONTACTED_OP"@, 0));
                reveal_strlit("CONTEST_ID");
                assert(differ_at("TIME_ON"@, "CONTEST_ID"@, 0));
                reveal_strlit("COUNTRY");
                assert(differ_at("TIME_ON"@, "COUNTRY"@, 0));
                reveal_strlit("CQZ");
                assert(differ_at("TIME_ON"@, "CQZ"@, 0));
                reveal_strlit("DXCC");
                assert(differ_at("TIME_ON"@, "DXCC"@, 0));
                reveal_strlit("EMAIL");
                assert(differ_at("TIME_ON"@, "EMAIL"@, 0));
                reveal_strlit("EQSL_QSL_RCVD");
                assert(differ_at("TIME_ON"@, "EQSL_QSL_RCVD"@, 0));
                reveal_strlit("EQSL_QSL_SENT");
                assert(differ_at("TIME_ON"@, "EQSL_QSL_SENT"@, 0));
                reveal_strlit("FORCE_INIT");
                assert(differ_at("TIME_ON"@, "FORCE_INIT"@, 0));
                reveal_strlit("FREQ");
                assert(differ_at("TIME_ON"@, "FREQ"@, 0));
                reveal_strlit("FREQ_RX");
                assert(differ_at("TIME_ON"@, "FREQ_RX"@, 0));
                reveal_strlit("GRIDSQUARE");
                assert(differ_at("TIME_ON"@, "GRIDSQUARE"@, 0));
                reveal_strlit("GRIDSQUARE_EXT");
                assert(differ_at("TIME_ON"@, "GRIDSQUARE_EXT"@, 0));
                reveal_strlit("IOTA");
                assert(differ_at("TIME_ON"@, "IOTA"@, 0));
                reveal_strlit("ITUZ");
                assert(differ_at("TIME_ON"@, "ITUZ"@, 0));
                reveal_strlit("K_INDEX");
                assert(differ_at("TIME_ON"@, "K_INDEX"@, 0));
                reveal_strlit("LAT");
                assert(differ_at("TIME_ON"@, "LAT"@, 0));
                reveal_strlit("LON");
                assert(differ_at("TIME_ON"@, "LON"@, 0));
                reveal_strlit("LOTW_QSL_RCVD");
                assert(differ_at("TIME_ON"@, "LOTW_QSL_RCVD"@, 0));
                reveal_strlit("LOTW_QSL_SENT");
                assert(differ_at("TIME_ON"@, "LOTW_QSL_SENT"@, 0));
                reveal_strlit("MODE");
                assert(differ_at("TIME_ON"@, "MODE"@, 0));
                reveal_strlit("MORSE_KEY_TYPE");
                assert(differ_at("TIME_ON"@, "MORSE_KEY_TYPE"@, 0));
                reveal_strlit("MY_DXCC");
                assert(differ_at("TIME_ON"@, "MY_DXCC"@, 0));
                reveal_strlit("MY_GRIDSQUARE");
                assert(differ_at("TIME_ON"@, "MY_GRIDSQUARE"@, 0));
                reveal_strlit("MY_LAT");
                assert(differ_at("TIME_ON"@, "MY_LAT"@, 0));
                reveal_strlit("MY_LON");
                assert(differ_at("TIME_ON"@, "MY_LON"@, 0));
                reveal_strlit("MY_POTA_REF");
                assert(differ_at("TIME_ON"@, "MY_POTA_REF"@, 0));
                reveal_strlit("MY_SOTA_REF");
                assert(differ_at("TIME_ON"@, "MY_SOTA_REF"@, 0));
                reveal_strlit("MY_WWFF_REF");
                assert(differ_at("TIME_ON"@, "MY_WWFF_REF"@, 0));
                reveal_strlit("NAME");
                assert(differ_at("TIME_ON"@, "NAME"@, 0));
                reveal_strlit("NAME_INTL");
                assert(differ_at("TIME_ON"@, "NAME_INTL"@, 0));
                reveal_strlit("NOTES");
                assert(differ_at("TIME_ON"@, "NOTES"@, 0));
                reveal_strlit("POTA_REF");
                assert(differ_at("TIME_ON"@, "POTA_REF"@, 0));
                reveal_strlit("PROP_MODE");
                assert(differ_at("TIME_ON"@, "PROP_MODE"@, 0));
                reveal_strlit("QSLMSG");
                assert(differ_at("TIME_ON"@, "QSLMSG"@, 0));
                reveal_strlit("QSL_RCVD");
                assert(differ_at("TIME_ON"@, "QSL_RCVD"@, 0));
                reveal_strlit("QSL_RCVD_VIA");
                assert(differ_at("TIME_ON"@, "QSL_RCVD_VIA"@, 0));
                reveal_strlit("QSL_SENT");
                assert(differ_at("TIME_ON"@, "QSL_SENT"@, 0));
                reveal_strlit("QSL_SENT_VIA");
                assert(differ_at("TIME_ON"@, "QSL_SENT_VIA"@, 0));
                reveal_strlit("QSL_VIA");
                assert(differ_at("TIME_ON"@, "QSL_VIA"@, 0));
                reveal_strlit("QSO_COMPLETE");
                assert(differ_at("TIME_ON"@, "QSO_COMPLETE"@, 0));
                reveal_strlit("QSO_DATE");
                assert(differ_at("TIME_ON"@, "QSO_DATE"@, 0));
                reveal_strlit("QSO_DATE_OFF");
                assert(differ_at("TIME_ON"@, "QSO_DATE_OFF"@, 0));
                reveal_strlit("QSO_RANDOM");
                assert(differ_at("TIME_ON"@, "QSO_RANDOM"@, 0));
                reveal_strlit("QTH");
                assert(differ_at("TIME_ON"@, "QTH"@, 0));
                reveal_strlit("QTH_INTL");
                assert(differ_at("TIME_ON"@, "QTH_INTL"@, 0));
                reveal_strlit("REGION");
                assert(differ_at("TIME_ON"@, "REGION"@, 0));
                reveal_strlit("RST_RCVD");
                assert(differ_at("TIME_ON"@, "RST_RCVD"@, 0));
                reveal_strlit("RST_SENT");
                assert(differ_at("TIME_ON"@, "RST_SENT"@, 0));
                reveal_strlit("RX_PWR");
                assert(differ_at("TIME_ON"@, "RX_PWR"@, 0));
                reveal_strlit("SOTA_REF");
                assert(differ_at("TIME_ON"@, "SOTA_REF"@, 0));
                reveal_strlit("SRX");
                assert(differ_at("TIME_ON"@, "SRX"@, 0));
                reveal_strlit("STX");
                assert(differ_at("TIME_ON"@, "STX"@, 0));
                reveal_strlit("SUBMODE");
                assert(differ_at("TIME_ON"@, "SUBMODE"@, 0));
                reveal_strlit("SWL");
                assert(differ_at("TIME_ON"@, "SWL"@, 0));
                reveal_strlit("TIME_OFF");
                assert(differ_at("TIME_ON"@, "TIME_OFF"@, 0));
                assert(token_chars("TIME_ON"@));
            },
            QSOFieldName::TX_PWR => {
                reveal_strlit("TX_PWR");
                reveal_strlit("ADDRESS");
                assert(differ_at("TX_PWR"@, "ADDRESS"@, 0));
                reveal_strlit("ADDRESS_INTL");
                assert(differ_at("TX_PWR"@, "ADDRESS_INTL"@, 0));
                reveal_strlit("AGE");
                assert(differ_at("TX_PWR"@, "AGE"@, 0));
                reveal_strlit("ANT_AZ");
                assert(differ_at("TX_PWR"@, "ANT_AZ"@, 0));
                reveal_strlit("ANT_EL");
                assert(differ_at("TX_PWR"@, "ANT_EL"@, 0));
                reveal_strlit("ANT_PATH");
                assert(differ_at("TX_PWR"@, "ANT_PATH"@, 0));
                reveal_strlit("A_INDEX");
                assert(differ_at("TX_PWR"@, "A_INDEX"@, 0));
                reveal_strlit("AWARD_GRANTED");
                assert(differ_at("TX_PWR"@, "AWARD_GRANTED"@, 0));
                reveal_strlit("AWARD_SUBMITTED");
                assert(differ_at("TX_PWR"@, "AWARD_SUBMITTED"@, 0));
                reveal_strlit("BAND");
                assert(differ_at("TX_PWR"@, "BAND"@, 0));
                reveal_strlit("BAND_RX");
                assert(differ_at("TX_PWR"@, "BAND_RX"@, 0));
                reveal_strlit("CALL");
                assert(differ_at("TX_PWR"@, "CALL"@, 0));
                reveal_strlit("CHECK");
                assert(differ_at("TX_PWR"@, "CHECK"@, 0));
                reveal_strlit("CLASS");
                assert(differ_at("TX_PWR"@, "CLASS"@, 0));
                reveal_strlit("CLUBLOG_QSO_UPLOAD_DATE");
                assert(differ_at("TX_PWR"@, "CLUBLOG_QSO_UPLOAD_DATE"@, 0));
                reveal_strlit("CLUBLOG_QSO_UPLOAD_STATUS");
                assert(differ_at("TX_PWR"@, "CLUBLOG_QSO_UPLOAD_STATUS"@, 0));
                reveal_strlit("CNTY");
                assert(differ_at("TX_PWR"@, "CNTY"@, 0));
                reveal_strlit("COMMENT");
                assert(differ_at("TX_PWR"@, "COMMENT"@, 0));
                reveal_strlit("COMMENT_INTL");
                assert(differ_at("TX_PWR"@, "COMMENT_INTL"@, 0));
                reveal_strlit("CONT");
                assert(differ_at("TX_PWR"@, "CONT"@, 0));
                reveal_strlit("CONTACTED_OP");
                assert(differ_at("TX_PWR"@, "CONTACTED_OP"@, 0));
                reveal_strlit("CONTEST_ID");
                assert(differ_at("TX_PWR"@, "CONTEST_ID"@, 0));
                reveal_strlit("COUNTRY");
                assert(differ_at("TX_PWR"@, "COUNTRY"@, 0));
                reveal_strlit("CQZ");
                assert(differ_at("TX_PWR"@, "CQZ"@, 0));
                reveal_strlit("DXCC");
                assert(differ_at("TX_PWR"@, "DXCC"@, 0));
                reveal_strlit("EMAIL");
                assert(differ_at("TX_PWR"@, "EMAIL"@, 0));
                reveal_strlit("EQSL_QSL_RCVD");
                assert(differ_at("TX_PWR"@, "EQSL_QSL_RCVD"@, 0));
                reveal_strlit("EQSL_QSL_SENT");
                assert(differ_at("TX_PWR"@, "EQSL_QSL_SENT"@, 0));
                reveal_strlit("FORCE_INIT");
                assert(differ_at("TX_PWR"@, "FORCE_INIT"@, 0));
                reveal_strlit("FREQ");
                assert(differ_at("TX_PWR"@, "FREQ"@, 0));
                reveal_strlit("FREQ_RX");
                assert(differ_at("TX_PWR"@, "FREQ_RX"@, 0));
                reveal_strlit("GRIDSQUARE");
                assert(differ_at("TX_PWR"@, "GRIDSQUARE"@, 0));
                reveal_strlit("GRIDSQUARE_EXT");
                assert(differ_at("TX_PWR"@, "GRIDSQUARE_EXT"@, 0));
                reveal_strlit("IOTA");
                assert(differ_at("TX_PWR"@, "IOTA"@, 0));
                reveal_strlit("ITUZ");
                assert(differ_at("TX_PWR"@, "ITUZ"@, 0));
                reveal_strlit("K_INDEX");
                assert(differ_at("TX_PWR"@, "K_INDEX"@, 0));
                reveal_strlit("LAT");
                assert(differ_at("TX_PWR"@, "LAT"@, 0));
                reveal_strlit("LON");
                assert(differ_at("TX_PWR"@, "LON"@, 0));
                reveal_strlit("LOTW_QSL_RCVD");
                assert(differ_at("TX_PWR"@, "LOTW_QSL_RCVD"@, 0));
                reveal_strlit("LOTW_QSL_SENT");
                assert(differ_at("TX_PWR"@, "LOTW_QSL_SENT"@, 0));
                reveal_strlit("MODE");
                assert(differ_at("TX_PWR"@, "MODE"@, 0));
                reveal_strlit("MORSE_KEY_TYPE");
                assert(differ_at("TX_PWR"@, "MORSE_KEY_TYPE"@, 0));
                reveal_strlit("MY_DXCC");
                assert(differ_at("TX_PWR"@, "MY_DXCC"@, 0));
                reveal_strlit("MY_GRIDSQUARE");
                assert(differ_at("TX_PWR"@, "MY_GRIDSQUARE"@, 0));
                reveal_strlit("MY_LAT");
                assert(differ_at("TX_PWR"@, "MY_LAT"@, 0));
                reveal_strlit("MY_LON");
                assert(differ_at("TX_PWR"@, "MY_LON"@, 0));
                reveal_strlit("MY_POTA_REF");
                assert(differ_at("TX_PWR"@, "MY_POTA_REF"@, 0));
                reveal_strlit("MY_SOTA_REF");
                assert(differ_at("TX_PWR"@, "MY_SOTA_REF"@, 0));
                reveal_strlit("MY_WWFF_REF");
                assert(differ_at("TX_PWR"@, "MY_WWFF_REF"@, 0));
                reveal_strlit("NAME");
                assert(differ_at("TX_PWR"@, "NAME"@, 0));
                reveal_strlit("NAME_INTL");
                assert(differ_at("TX_PWR"@, "NAME_INTL"@, 0));
                reveal_strlit("NOTES");
                assert(differ_at("TX_PWR"@, "NOTES"@, 0));
                reveal_strlit("POTA_REF");
                assert(differ_at("TX_PWR"@, "POTA_REF"@, 0));
                reveal_strlit("PROP_MODE");
                assert(differ_at("TX_PWR"@, "PROP_MODE"@, 0));
                reveal_strlit("QSLMSG");
                assert(differ_at("TX_PWR"@, "QSLMSG"@, 0));
                reveal_strlit("QSL_RCVD");
                assert(differ_at("TX_PWR"@, "QSL_RCVD"@, 0));
                reveal_strlit("QSL_RCVD_VIA");
                assert(differ_at("TX_PWR"@, "QSL_RCVD_VIA"@, 0));
                reveal_strlit("QSL_SENT");
                assert(differ_at("TX_PWR"@, "QSL_SENT"@, 0));
                reveal_strlit("QSL_SENT_VIA");
                assert(differ_at("TX_PWR"@, "QSL_SENT_VIA"@, 0));
                reveal_strlit("QSL_VIA");
                assert(differ_at("TX_PWR"@, "QSL_VIA"@, 0));
                reveal_strlit("QSO_COMPLETE");
                assert(differ_at("TX_PWR"@, "QSO_COMPLETE"@, 0));
                reveal_strlit("QSO_DATE");
                assert(differ_at("TX_PWR"@, "QSO_DATE"@, 0));
                reveal_strlit("QSO_DATE_OFF");
                assert(differ_at("TX_PWR"@, "QSO_DATE_OFF"@, 0));
                reveal_strlit("QSO_RANDOM");
                assert(differ_at("TX_PWR"@, "QSO_RANDOM"@, 0));
                reveal_strlit("QTH");
                assert(differ_at("TX_PWR"@, "QTH"@, 0));
                reveal_strlit("QTH_INTL");
                assert(differ_at("TX_PWR"@, "QTH_INTL"@, 0));
                reveal_strlit("REGION");
                assert(differ_at("TX_PWR"@, "REGION"@, 0));
                reveal_strlit("RST_RCVD");
                assert(differ_at("TX_PWR"@, "RST_RCVD"@, 0));
                reveal_strlit("RST_SENT");
                assert(differ_at("TX_PWR"@, "RST_SENT"@, 0));
                reveal_strlit("RX_PWR");
                assert(differ_at("TX_PWR"@, "RX_PWR"@, 0));
                reveal_strlit("SOTA_REF");
                assert(differ_at("TX_PWR"@, "SOTA_REF"@, 0));
                reveal_strlit("SRX");
                assert(differ_at("TX_PWR"@, "SRX"@, 0));
                reveal_strlit("STX");
                assert(differ_at("TX_PWR"@, "STX"@, 0));
                reveal_strlit("SUBMODE");
                assert(differ_at("TX_PWR"@, "SUBMODE"@, 0));
                reveal_strlit("SWL");
                assert(differ_at("TX_PWR"@, "SWL"@, 0));
                reveal_strlit("TIME_OFF");
                assert(differ_at("TX_PWR"@, "TIME_OFF"@, 0));
                reveal_strlit("TIME_ON");
                assert(differ_at("TX_PWR"@, "TIME_ON"@, 0));
                assert(token_chars("TX_PWR"@));
            },
            QSOFieldName::USACA_COUNTIES => {
                reveal_strlit("USACA_COUNTIES");
                reveal_strlit("ADDRESS");
                assert(differ_at("USACA_COUNTIES"@, "ADDRESS"@, 0));
                reveal_strlit("ADDRESS_INTL");
                assert(differ_at("USACA_COUNTIES"@, "ADDRESS_INTL"@, 0));
                reveal_strlit("AGE");
                assert(differ_at("USACA_COUNTIES"@, "AGE"@, 0));
                reveal_strlit("ANT_AZ");
                assert(differ_at("USACA_COUNTIES"@, "ANT_AZ"@, 0));
                reveal_strlit("ANT_EL");
                assert(differ_at("USACA_COUNTIES"@, "ANT_EL"@, 0));
                reveal_strlit("ANT_PATH");
                assert(differ_at("USACA_COUNTIES"@, "ANT_PATH"@, 0));
                reveal_strlit("A_INDEX");
                assert(differ_at("USACA_COUNTIES"@, "A_INDEX"@, 0));
                reveal_strlit("AWARD_GRANTED");
                assert(differ_at("USACA_COUNTIES"@, "AWARD_GRANTED"@, 0));
                reveal_strlit("AWARD_SUBMITTED");
                assert(differ_at("USACA_COUNTIES"@, "AWARD_SUBMITTED"@, 0));
                reveal_strlit("BAND");
                assert(differ_at("USACA_COUNTIES"@, "BAND"@, 0));
                reveal_strlit("BAND_RX");
                assert(differ_at("USACA_COUNTIES"@, "BAND_RX"@, 0));
                reveal_strlit("CALL");
                assert(differ_at("USACA_COUNTIES"@, "CALL"@, 0));
                reveal_strlit("CHECK");
                assert(differ_at("USACA_COUNTIES"@, "CHECK"@, 0));
                reveal_strlit("CLASS");
                assert(differ_at("USACA_COUNTIES"@, "CLASS"@, 0));
                reveal_strlit("CLUBLOG_QSO_UPLOAD_DATE");
                assert(differ_at("USACA_COUNTIES"@, "CLUBLOG_QSO_UPLOAD_DATE"@, 0));
                reveal_strlit("CLUBLOG_QSO_UPLOAD_STATUS");
                assert(differ_at("USACA_COUNTIES"@, "CLUBLOG_QSO_UPLOAD_STATUS"@, 0));
                reveal_strlit("CNTY");
                assert(differ_at("USACA_COUNTIES"@, "CNTY"@, 0));
                reveal_strlit("COMMENT");
                assert(differ_at("USACA_COUNTIES"@, "COMMENT"@, 0));
                reveal_strlit("COMMENT_INTL");
                assert(differ_at("USACA_COUNTIES"@, "COMMENT_INTL"@, 0));
                reveal_strlit("CONT");
                assert(differ_at("USACA_COUNTIES"@, "CONT"@, 0));
                reveal_strlit("CONTACTED_OP");
                assert(differ_at("USACA_COUNTIES"@, "CONTACTED_OP"@, 0));
                reveal_strlit("CONTEST_ID");
                assert(differ_at("USACA_COUNTIES"@, "CONTEST_ID"@, 0));
                reveal_strlit("COUNTRY");
                assert(differ_at("USACA_COUNTIES"@, "COUNTRY"@, 0));
                reveal_strlit("CQZ");
                assert(differ_at("USACA_COUNTIES"@, "CQZ"@, 0));
                reveal_strlit("DXCC");
                assert(differ_at("USACA_COUNTIES"@, "DXCC"@, 0));
                reveal_strlit("EMAIL");
                assert(differ_at("USACA_COUNTIES"@, "EMAIL"@, 0));
                reveal_strlit("EQSL_QSL_RCVD");
                assert(differ_at("USACA_COUNTIES"@, "EQSL_QSL_RCVD"@, 0));
                reveal_strlit("EQSL_QSL_SENT");
                assert(differ_at("USACA_COUNTIES"@, "EQSL_QSL_SENT"@, 0));
                reveal_strlit("FORCE_INIT");
                assert(differ_at("USACA_COUNTIES"@, "FORCE_INIT"@, 0));
                reveal_strlit("FREQ");
                assert(differ_at("USACA_COUNTIES"@, "FREQ"@, 0));
                reveal_strlit("FREQ_RX");
                assert(differ_at("USACA_COUNTIES"@, "FREQ_RX"@, 0));
                reveal_strlit("GRIDSQUARE");
                assert(differ_at("USACA_COUNTIES"@, "GRIDSQUARE"@, 0));
                reveal_strlit("GRIDSQUARE_EXT");
                assert(differ_at("USACA_COUNTIES"@, "GRIDSQUARE_EXT"@, 0));
                reveal_strlit("IOTA");
                assert(differ_at("USACA_COUNTIES"@, "IOTA"@, 0));
                reveal_strlit("ITUZ");
                assert(differ_at("USACA_COUNTIES"@, "ITUZ"@, 0));
                reveal_strlit("K_INDEX");
                assert(differ_at("USACA_COUNTIES"@, "K_INDEX"@, 0));
                reveal_strlit("LAT");
                assert(differ_at("USACA_COUNTIES"@, "LAT"@, 0));
                reveal_strlit("LON");
                assert(differ_at("USACA_COUNTIES"@, "LON"@, 0));
                reveal_strlit("LOTW_QSL_RCVD");
                assert(differ_at("USACA_COUNTIES"@, "LOTW_QSL_RCVD"@, 0));
                reveal_strlit("LOTW_QSL_SENT");
                assert(differ_at("USACA_COUNTIES"@, "LOTW_QSL_SENT"@, 0));
                reveal_strlit("MODE");
                assert(differ_at("USACA_COUNTIES"@, "MODE"@, 0));
                reveal_strlit("MORSE_KEY_TYPE");
                assert(differ_at("USACA_COUNTIES"@, "MORSE_KEY_TYPE"@, 0));
                reveal_strlit("MY_DXCC");
                assert(differ_at("USACA_COUNTIES"@, "MY_DXCC"@, 0));
                reveal_strlit("MY_GRIDSQUARE");
                assert(differ_at("USACA_COUNTIES"@, "MY_GRIDSQUARE"@, 0));
                reveal_strlit("MY_LAT");
                assert(differ_at("USACA_COUNTIES"@, "MY_LAT"@, 0));
                reveal_strlit("MY_LON");
                assert(differ_at("USACA_COUNTIES"@, "MY_LON"@, 0));
                reveal_strlit("MY_POTA_REF");
                assert(differ_at("USACA_COUNTIES"@, "MY_POTA_REF"@, 0));
                reveal_strlit("MY_SOTA_REF");
                assert(differ_at("USACA_COUNTIES"@, "MY_SOTA_REF"@, 0));
                reveal_strlit("MY_WWFF_REF");
                assert(differ_at("USACA_COUNTIES"@, "MY_WWFF_REF"@, 0));
                reveal_strlit("NAME");
                assert(differ_at("USACA_COUNTIES"@, "NAME"@, 0));
                reveal_strlit("NAME_INTL");
                assert(differ_at("USACA_COUNTIES"@, "NAME_INTL"@, 0));
                reveal_strlit("NOTES");
                assert(differ_at("USACA_COUNTIES"@, "NOTES"@, 0));
                reveal_strlit("POTA_REF");
                assert(differ_at("USACA_COUNTIES"@, "POTA_REF"@, 0));
                reveal_strlit("PROP_MODE");
                assert(differ_at("USACA_COUNTIES"@, "PROP_MODE"@, 0));
                reveal_strlit("QSLMSG");
                assert(differ_at("USACA_COUNTIES"@, "QSLMSG"@, 0));
                reveal_strlit("QSL_RCVD");
                assert(differ_at("USACA_COUNTIES"@, "QSL_RCVD"@, 0));
                reveal_strlit("QSL_RCVD_VIA");
                assert(differ_at("USACA_COUNTIES"@, "QSL_RCVD_VIA"@, 0));
                reveal_strlit("QSL_SENT");
                assert(differ_at("USACA_COUNTIES"@, "QSL_SENT"@, 0));
                reveal_strlit("QSL_SENT_VIA");
                assert(differ_at("USACA_COUNTIES"@, "QSL_SENT_VIA"@, 0));
                reveal_strlit("QSL_VIA");
                assert(differ_at("USACA_COUNTIES"@, "QSL_VIA"@, 0));
                reveal_strlit("QSO_COMPLETE");
                assert(differ_at("USACA_COUNTIES"@, "QSO_COMPLETE"@, 0));
                reveal_strlit("QSO_DATE");
                assert(differ_at("USACA_COUNTIES"@, "QSO_DATE"@, 0));
                reveal_strlit("QSO_DATE_OFF");
                assert(differ_at("USACA_COUNTIES"@, "QSO_DATE_OFF"@, 0));
                reveal_strlit("QSO_RANDOM");
                assert(differ_at("USACA_COUNTIES"@, "QSO_RANDOM"@, 0));
                reveal_strlit("QTH");
                assert(differ_at("USACA_COUNTIES"@, "QTH"@, 0));
                reveal_strlit("QTH_INTL");
                assert(differ_at("USACA_COUNTIES"@, "QTH_INTL"@, 0));
                reveal_strlit("REGION");
                assert(differ_at("USACA_COUNTIES"@, "REGION"@, 0));
                reveal_strlit("RST_RCVD");
                assert(differ_at("USACA_COUNTIES"@, "RST_RCVD"@, 0));
                reveal_strlit("RST_SENT");
                assert(differ_at("USACA_COUNTIES"@, "RST_SENT"@, 0));
                reveal_strlit("RX_PWR");
                assert(differ_at("USACA_COUNTIES"@, "RX_PWR"@, 0));
                reveal_strlit("SOTA_REF");
                assert(differ_at("USACA_COUNTIES"@, "SOTA_REF"@, 0));
                reveal_strlit("SRX");
                assert(differ_at("USACA_COUNTIES"@, "SRX"@, 0));
                reveal_strlit("STX");
                assert(differ_at("USACA_COUNTIES"@, "STX"@, 0));
                reveal_strlit("SUBMODE");
                assert(differ_at("USACA_COUNTIES"@, "SUBMODE"@, 0));
                reveal_strlit("SWL");
                assert(differ_at("USACA_COUNTIES"@, "SWL"@, 0));
                reveal_strlit("TIME_OFF");
                assert(differ_at("USACA_COUNTIES"@, "TIME_OFF"@, 0));
                reveal_strlit("TIME_ON");
                assert(differ_at("USACA_COUNTIES"@, "TIME_ON"@, 0));
                reveal_strlit("TX_PWR");
                assert(differ_at("USACA_COUNTIES"@, "TX_PWR"@, 0));
                assert(token_chars("USACA_COUNTIES"@));
            },
            QSOFieldName::VUCC_GRIDS => {
                reveal_strlit("VUCC_GRIDS");
                reveal_strlit("ADDRESS");
                assert(differ_at("VUCC_GRIDS"@, "ADDRESS"@, 0));
                reveal_strlit("ADDRESS_INTL");
                assert(differ_at("VUCC_GRIDS"@, "ADDRESS_INTL"@, 0));
                reveal_strlit("AGE");
                assert(differ_at("VUCC_GRIDS"@, "AGE"@, 0));
                reveal_strlit("ANT_AZ");
                assert(differ_at("VUCC_GRIDS"@, "ANT_AZ"@, 0));
                reveal_strlit("ANT_EL");
                assert(differ_at("VUCC_GRIDS"@, "ANT_EL"@, 0));
                reveal_strlit("ANT_PATH");
                assert(differ_at("VUCC_GRIDS"@, "ANT_PATH"@, 0));
                reveal_strlit("A_INDEX");
                assert(differ_at("VUCC_GRIDS"@, "A_INDEX"@, 0));
                reveal_strlit("AWARD_GRANTED");
                assert(differ_at("VUCC_GRIDS"@, "AWARD_GRANTED"@, 0));
                reveal_strlit("AWARD_SUBMITTED");
                assert(differ_at("VUCC_GRIDS"@, "AWARD_SUBMITTED"@, 0));
                reveal_strlit("BAND");
                assert(differ_at("VUCC_GRIDS"@, "BAND"@, 0));
                reveal_strlit("BAND_RX");
                assert(differ_at("VUCC_GRIDS"@, "BAND_RX"@, 0));
                reveal_strlit("CALL");
                assert(differ_at("VUCC_GRIDS"@, "CALL"@, 0));
                reveal_strlit("CHECK");
                assert(differ_at("VUCC_GRIDS"@, "CHECK"@, 0));
                reveal_strlit("CLASS");
                assert(differ_at("VUCC_GRIDS"@, "CLASS"@, 0));
                reveal_strlit("CLUBLOG_QSO_UPLOAD_DATE");
                assert(differ_at("VUCC_GRIDS"@, "CLUBLOG_QSO_UPLOAD_DATE"@, 0));
                reveal_strlit("CLUBLOG_QSO_UPLOAD_STATUS");
                assert(differ_at("VUCC_GRIDS"@, "CLUBLOG_QSO_UPLOAD_STATUS"@, 0));
                reveal_strlit("CNTY");
                assert(differ_at("VUCC_GRIDS"@, "CNTY"@, 0));
                reveal_strlit("COMMENT");
                assert(differ_at("VUCC_GRIDS"@, "COMMENT"@, 0));
                reveal_strlit("COMMENT_INTL");
                assert(differ_at("VUCC_GRIDS"@, "COMMENT_INTL"@, 0));
                reveal_strlit("CONT");
                assert(differ_at("VUCC_GRIDS"@, "CONT"@, 0));
                reveal_strlit("CONTACTED_OP");
                assert(differ_at("VUCC_GRIDS"@, "CONTACTED_OP"@, 0));
                reveal_strlit("CONTEST_ID");
                assert(differ_at("VUCC_GRIDS"@, "CONTEST_ID"@, 0));
                reveal_strlit("COUNTRY");
                assert(differ_at("VUCC_GRIDS"@, "COUNTRY"@, 0));
                reveal_strlit("CQZ");
                assert(differ_at("VUCC_GRIDS"@, "CQZ"@, 0));
                reveal_strlit("DXCC");
                assert(differ_at("VUCC_GRIDS"@, "DXCC"@, 0));
                reveal_strlit("EMAIL");
                assert(differ_at("VUCC_GRIDS"@, "EMAIL"@, 0));
                reveal_strlit("EQSL_QSL_RCVD");
                assert(differ_at("VUCC_GRIDS"@, "EQSL_QSL_RCVD"@, 0));
                reveal_strlit("EQSL_QSL_SENT");
                assert(differ_at("VUCC_GRIDS"@, "EQSL_QSL_SENT"@, 0));
                reveal_strlit("FORCE_INIT");
                assert(differ_at("VUCC_GRIDS"@, "FORCE_INIT"@, 0));
                reveal_strlit("FREQ");
                assert(differ_at("VUCC_GRIDS"@, "FREQ"@, 0));
                reveal_strlit("FREQ_RX");
                assert(differ_at("VUCC_GRIDS"@, "FREQ_RX"@, 0));
                reveal_strlit("GRIDSQUARE");
                assert(differ_at("VUCC_GRIDS"@, "GRIDSQUARE"@, 0));
                reveal_strlit("GRIDSQUARE_EXT");
                assert(differ_at("VUCC_GRIDS"@, "GRIDSQUARE_EXT"@, 0));
                reveal_strlit("IOTA");
                assert(differ_at("VUCC_GRIDS"@, "IOTA"@, 0));
                reveal_strlit("ITUZ");
                assert(differ_at("VUCC_GRIDS"@, "ITUZ"@, 0));
                reveal_strlit("K_INDEX");
                assert(differ_at("VUCC_GRIDS"@, "K_INDEX"@, 0));
                reveal_strlit("LAT");
                assert(differ_at("VUCC_GRIDS"@, "LAT"@, 0));
                reveal_strlit("LON");
                assert(differ_at("VUCC_GRIDS"@, "LON"@, 0));
                reveal_strlit("LOTW_QSL_RCVD");
                assert(differ_at("VUCC_GRIDS"@, "LOTW_QSL_RCVD"@, 0));
                reveal_strlit("LOTW_QSL_SENT");
                assert(differ_at("VUCC_GRIDS"@, "LOTW_QSL_SENT"@, 0));
                reveal_strlit("MODE");
                assert(differ_at("VUCC_GRIDS"@, "MODE"@, 0));
                reveal_strlit("MORSE_KEY_TYPE");
                assert(differ_at("VUCC_GRIDS"@, "MORSE_KEY_TYPE"@, 0));
                reveal_strlit("MY_DXCC");
                assert(differ_at("VUCC_GRIDS"@, "MY_DXCC"@, 0));
                reveal_strlit("MY_GRIDSQUARE");
                assert(differ_at("VUCC_GRIDS"@, "MY_GRIDSQUARE"@, 0));
                reveal_strlit("MY_LAT");
                assert(differ_at("VUCC_GRIDS"@, "MY_LAT"@, 0));
                reveal_strlit("MY_LON");
                assert(differ_at("VUCC_GRIDS"@, "MY_LON"@, 0));
                reveal_strlit("MY_POTA_REF");
                assert(differ_at("VUCC_GRIDS"@, "MY_POTA_REF"@, 0));
                reveal_strlit("MY_SOTA_REF");
                assert(differ_at("VUCC_GRIDS"@, "MY_SOTA_REF"@, 0));
                reveal_strlit("MY_WWFF_REF");
                assert(differ_at("VUCC_GRIDS"@, "MY_WWFF_REF"@, 0));
                reveal_strlit("NAME");
                assert(differ_at("VUCC_GRIDS"@, "NAME"@, 0));
                reveal_strlit("NAME_INTL");
                assert(differ_at("VUCC_GRIDS"@, "NAME_INTL"@, 0));
                reveal_strlit("NOTES");
                assert(differ_at("VUCC_GRIDS"@, "NOTES"@, 0));
                reveal_strlit("POTA_REF");
                assert(differ_at("VUCC_GRIDS"@, "POTA_REF"@, 0));
                reveal_strlit("PROP_MODE");
                assert(differ_at("VUCC_GRIDS"@, "PROP_MODE"@, 0));
                reveal_strlit("QSLMSG");
                assert(differ_at("VUCC_GRIDS"@, "QSLMSG"@, 0));
                reveal_strlit("QSL_RCVD");
                assert(differ_at("VUCC_GRIDS"@, "QSL_RCVD"@, 0));
                reveal_strlit("QSL_RCVD_VIA");
                assert(differ_at("VUCC_GRIDS"@, "QSL_RCVD_VIA"@, 0));
                reveal_strlit("QSL_SENT");
                assert(differ_at("VUCC_GRIDS"@, "QSL_SENT"@, 0));
                reveal_strlit("QSL_SENT_VIA");
                assert(differ_at("VUCC_GRIDS"@, "QSL_SENT_VIA"@, 0));
                reveal_strlit("QSL_VIA");
                assert(differ_at("VUCC_GRIDS"@, "QSL_VIA"@, 0));
                reveal_strlit("QSO_COMPLETE");
                assert(differ_at("VUCC_GRIDS"@, "QSO_COMPLETE"@, 0));
                reveal_strlit("QSO_DATE");
                assert(differ_at("VUCC_GRIDS"@, "QSO_DATE"@, 0));
                reveal_strlit("QSO_DATE_OFF");
                assert(differ_at("VUCC_GRIDS"@, "QSO_DATE_OFF"@, 0));
                reveal_strlit("QSO_RANDOM");
                assert(differ_at("VUCC_GRIDS"@, "QSO_RANDOM"@, 0));
                reveal_strlit("QTH");
                assert(differ_at("VUCC_GRIDS"@, "QTH"@, 0));
                reveal_strlit("QTH_INTL");
                assert(differ_at("VUCC_GRIDS"@, "QTH_INTL"@, 0));
                reveal_strlit("REGION");
                assert(differ_at("VUCC_GRIDS"@, "REGION"@, 0));
                reveal_strlit("RST_RCVD");
                assert(differ_at("VUCC_GRIDS"@, "RST_RCVD"@, 0));
                reveal_strlit("RST_SENT");
                assert(differ_at("VUCC_GRIDS"@, "RST_SENT"@, 0));
                reveal_strlit("RX_PWR");
                assert(differ_at("VUCC_GRIDS"@, "RX_PWR"@, 0));
                reveal_strlit("SOTA_REF");
                assert(differ_at("VUCC_GRIDS"@, "SOTA_REF"@, 0));
                reveal_strlit("SRX");
                assert(differ_at("VUCC_GRIDS"@, "SRX"@, 0));
                reveal_strlit("STX");
                assert(differ_at("VUCC_GRIDS"@, "STX"@, 0));
                reveal_strlit("SUBMODE");
                assert(differ_at("VUCC_GRIDS"@, "SUBMODE"@, 0));
                reveal_strlit("SWL");
                assert(differ_at("VUCC_GRIDS"@, "SWL"@, 0));
                reveal_strlit("TIME_OFF");
                assert(differ_at("VUCC_GRIDS"@, "TIME_OFF"@, 0));
                reveal_strlit("TIME_ON");
                assert(differ_at("VUCC_GRIDS"@, "TIME_ON"@, 0));
                reveal_strlit("TX_PWR");
                assert(differ_at("VUCC_GRIDS"@, "TX_PWR"@, 0));
                reveal_strlit("USACA_COUNTIES");
                assert(differ_at("VUCC_GRIDS"@, "USACA_COUNTIES"@, 0));
                assert(token_chars("VUCC_GRIDS"@));
            },
            QSOFieldName::WWFF_REF => {
                reveal_strlit("WWFF_REF");
                reveal_strlit("ADDRESS");
                assert(differ_at("WWFF_REF"@, "ADDRESS"@, 0));
                reveal_strlit("ADDRESS_INTL");
                assert(differ_at("WWFF_REF"@, "ADDRESS_INTL"@, 0));
                reveal_strlit("AGE");
                assert(differ_at("WWFF_REF"@, "AGE"@, 0));
                reveal_strlit("ANT_AZ");
                assert(differ_at("WWFF_REF"@, "ANT_AZ"@, 0));
                reveal_strlit("ANT_EL");
                assert(differ_at("WWFF_REF"@, "ANT_EL"@, 0));
                reveal_strlit("ANT_PATH");
                assert(differ_at("WWFF_REF"@, "ANT_PATH"@, 0));
                reveal_strlit("A_INDEX");
                assert(differ_at("WWFF_REF"@, "A_INDEX"@, 0));
                reveal_strlit("AWARD_GRANTED");
                assert(differ_at("WWFF_REF"@, "AWARD_GRANTED"@, 0));
                reveal_strlit("AWARD_SUBMITTED");
                assert(differ_at("WWFF_REF"@, "AWARD_SUBMITTED"@, 0));
                reveal_strlit("BAND");
                assert(differ_at("WWFF_REF"@, "BAND"@, 0));
                reveal_strlit("BAND_RX");
                assert(differ_at("WWFF_REF"@, "BAND_RX"@, 0));
                reveal_strlit("CALL");
                assert(differ_at("WWFF_REF"@, "CALL"@, 0));
                reveal_strlit("CHECK");
                assert(differ_at("WWFF_REF"@, "CHECK"@, 0));
                reveal_strlit("CLASS");
                assert(differ_at("WWFF_REF"@, "CLASS"@, 0));
                reveal_strlit("CLUBLOG_QSO_UPLOAD_DATE");
                assert(differ_at("WWFF_REF"@, "CLUBLOG_QSO_UPLOAD_DATE"@, 0));
                reveal_strlit("CLUBLOG_QSO_UPLOAD_STATUS");
                assert(differ_at("WWFF_REF"@, "CLUBLOG_QSO_UPLOAD_STATUS"@, 0));
                reveal_strlit("CNTY");
                assert(differ_at("WWFF_REF"@, "CNTY"@, 0));
                reveal_strlit("COMMENT");
                assert(differ_at("WWFF_REF"@, "COMMENT"@, 0));
                reveal_strlit("COMMENT_INTL");
                assert(differ_at("WWFF_REF"@, "COMMENT_INTL"@, 0));
                reveal_strlit("CONT");
                assert(differ_at("WWFF_REF"@, "CONT"@, 0));
                reveal_strlit("CONTACTED_OP");
                assert(differ_at("WWFF_REF"@, "CONTACTED_OP"@, 0));
                reveal_strlit("CONTEST_ID");
                assert(differ_at("WWFF_REF"@, "CONTEST_ID"@, 0));
                reveal_strlit("COUNTRY");
                assert(differ_at("WWFF_REF"@, "COUNTRY"@, 0));
                reveal_strlit("CQZ");
                assert(differ_at("WWFF_REF"@, "CQZ"@, 0));
                reveal_strlit("DXCC");
                assert(differ_at("WWFF_REF"@, "DXCC"@, 0));
                reveal_strlit("EMAIL");
                assert(differ_at("WWFF_REF"@, "EMAIL"@, 0));
                reveal_strlit("EQSL_QSL_RCVD");
                assert(differ_at("WWFF_REF"@, "EQSL_QSL_RCVD"@, 0));
                reveal_strlit("EQSL_QSL_SENT");
                assert(differ_at("WWFF_REF"@, "EQSL_QSL_SENT"@, 0));
                reveal_strlit("FORCE_INIT");
                assert(differ_at("WWFF_REF"@, "FORCE_INIT"@, 0));
                reveal_strlit("FREQ");
                assert(differ_at("WWFF_REF"@, "FREQ"@, 0));
                reveal_strlit("FREQ_RX");
                assert(differ_at("WWFF_REF"@, "FREQ_RX"@, 0));
                reveal_strlit("GRIDSQUARE");
                assert(differ_at("WWFF_REF"@, "GRIDSQUARE"@, 0));
                reveal_strlit("GRIDSQUARE_EXT");
                assert(differ_at("WWFF_REF"@, "GRIDSQUARE_EXT"@, 0));
                reveal_strlit("IOTA");
                assert(differ_at("WWFF_REF"@, "IOTA"@, 0));
                reveal_strlit("ITUZ");
                assert(differ_at("WWFF_REF"@, "ITUZ"@, 0));
                reveal_strlit("K_INDEX");
                assert(differ_at("WWFF_REF"@, "K_INDEX"@, 0));
                reveal_strlit("LAT");
                assert(differ_at("WWFF_REF"@, "LAT"@, 0));
                reveal_strlit("LON");
                assert(differ_at("WWFF_REF"@, "LON"@, 0));
                reveal_strlit("LOTW_QSL_RCVD");
                assert(differ_at("WWFF_REF"@, "LOTW_QSL_RCVD"@, 0));
                reveal_strlit("LOTW_QSL_SENT");
                assert(differ_at("WWFF_REF"@, "LOTW_QSL_SENT"@, 0));
                reveal_strlit("MODE");
                assert(differ_at("WWFF_REF"@, "MODE"@, 0));
                reveal_strlit("MORSE_KEY_TYPE");
                assert(differ_at("WWFF_REF"@, "MORSE_KEY_TYPE"@, 0));
                reveal_strlit("MY_DXCC");
                assert(differ_at("WWFF_REF"@, "MY_DXCC"@, 0));
                reveal_strlit("MY_GRIDSQUARE");
                assert(differ_at("WWFF_REF"@, "MY_GRIDSQUARE"@, 0));
                reveal_strlit("MY_LAT");
                assert(differ_at("WWFF_REF"@, "MY_LAT"@, 0));
                reveal_strlit("MY_LON");
                assert(differ_at("WWFF_REF"@, "MY_LON"@, 0));
                reveal_strlit("MY_POTA_REF");
                assert(differ_at("WWFF_REF"@, "MY_POTA_REF"@, 0));
                reveal_strlit("MY_SOTA_REF");
                assert(differ_at("WWFF_REF"@, "MY_SOTA_REF"@, 0));
                reveal_strlit("MY_WWFF_REF");
                assert(differ_at("WWFF_REF"@, "MY_WWFF_REF"@, 0));
                reveal_strlit("NAME");
                assert(differ_at("WWFF_REF"@, "NAME"@, 0));
                reveal_strlit("NAME_INTL");
                assert(differ_at("WWFF_REF"@, "NAME_INTL"@, 0));
                reveal_strlit("NOTES");
                assert(differ_at("WWFF_REF"@, "NOTES"@, 0));
                reveal_strlit("POTA_REF");
                assert(differ_at("WWFF_REF"@, "POTA_REF"@, 0));
                reveal_strlit("PROP_MODE");
                assert(differ_at("WWFF_REF"@, "PROP_MODE"@, 0));
                reveal_strlit("QSLMSG");
                assert(differ_at("WWFF_REF"@, "QSLMSG"@, 0));
                reveal_strlit("QSL_RCVD");
                assert(differ_at("WWFF_REF"@, "QSL_RCVD"@, 0));
                reveal_strlit("QSL_RCVD_VIA");
                assert(differ_at("WWFF_REF"@, "QSL_RCVD_VIA"@, 0));
                reveal_strlit("QSL_SENT");
                assert(differ_at("WWFF_REF"@, "QSL_SENT"@, 0));
                reveal_strlit("QSL_SENT_VIA");
                assert(differ_at("WWFF_REF"@, "QSL_SENT_VIA"@, 0));
                reveal_strlit("QSL_VIA");
                assert(differ_at("WWFF_REF"@, "QSL_VIA"@, 0));
                reveal_strlit("QSO_COMPLETE");
                assert(differ_at("WWFF_REF"@, "QSO_COMPLETE"@, 0));
                reveal_strlit("QSO_DATE");
                assert(differ_at("WWFF_REF"@, "QSO_DATE"@, 0));
                reveal_strlit("QSO_DATE_OFF");
                assert(differ_at("WWFF_REF"@, "QSO_DATE_OFF"@, 0));
                reveal_strlit("QSO_RANDOM");
                assert(differ_at("WWFF_REF"@, "QSO_RANDOM"@, 0));
                reveal_strlit("QTH");
                assert(differ_at("WWFF_REF"@, "QTH"@, 0));
                reveal_strlit("QTH_INTL");
                assert(differ_at("WWFF_REF"@, "QTH_INTL"@, 0));
                reveal_strlit("REGION");
                assert(differ_at("WWFF_REF"@, "REGION"@, 0));
                reveal_strlit("RST_RCVD");
                assert(differ_at("WWFF_REF"@, "RST_RCVD"@, 0));
                reveal_strlit("RST_SENT");
                assert(differ_at("WWFF_REF"@, "RST_SENT"@, 0));
                reveal_strlit("RX_PWR");
                assert(differ_at("WWFF_REF"@, "RX_PWR"@, 0));
                reveal_strlit("SOTA_REF");
                assert(differ_at("WWFF_REF"@, "SOTA_REF"@, 0));
                reveal_strlit("SRX");
                assert(differ_at("WWFF_REF"@, "SRX"@, 0));
                reveal_strlit("STX");
                assert(differ_at("WWFF_REF"@, "STX"@, 0));
                reveal_strlit("SUBMODE");
                assert(differ_at("WWFF_REF"@, "SUBMODE"@, 0));
                reveal_strlit("SWL");
                assert(differ_at("WWFF_REF"@, "SWL"@, 0));
                reveal_strlit("TIME_OFF");
                assert(differ_at("WWFF_REF"@, "TIME_OFF"@, 0));
                reveal_strlit("TIME_ON");
                assert(differ_at("WWFF_REF"@, "TIME_ON"@, 0));
                reveal_strlit("TX_PWR");
                assert(differ_at("WWFF_REF"@, "TX_PWR"@, 0));
                reveal_strlit("USACA_COUNTIES");
                assert(differ_at("WWFF_REF"@, "USACA_COUNTIES"@, 0));
                reveal_strlit("VUCC_GRIDS");
                assert(differ_at("WWFF_REF"@, "VUCC_GRIDS"@, 0));
                assert(token_chars("WWFF_REF"@));
            },
            QSOFieldName::EOR => {
                reveal_strlit("EOR");
                reveal_strlit("ADDRESS");
                assert(differ_at("EOR"@, "ADDRESS"@, 0));
                reveal_strlit("ADDRESS_INTL");
                assert(differ_at("EOR"@, "ADDRESS_INTL"@, 0));
                reveal_strlit("AGE");
                assert(differ_at("EOR"@, "AGE"@, 0));
                reveal_strlit("ANT_AZ");
                assert(differ_at("EOR"@, "ANT_AZ"@, 0));
                reveal_strlit("ANT_EL");
                assert(differ_at("EOR"@, "ANT_EL"@, 0));
                reveal_strlit("ANT_PATH");
                assert(differ_at("EOR"@, "ANT_PATH"@, 0));
                reveal_strlit("A_INDEX");
                assert(differ_at("EOR"@, "A_INDEX"@, 0));
                reveal_strlit("AWARD_GRANTED");
                assert(differ_at("EOR"@, "AWARD_GRANTED"@, 0));
                reveal_strlit("AWARD_SUBMITTED");
                assert(differ_at("EOR"@, "AWARD_SUBMITTED"@, 0));
                reveal_strlit("BAND");
                assert(differ_at("EOR"@, "BAND"@, 0));
                reveal_strlit("BAND_RX");
                assert(differ_at("EOR"@, "BAND_RX"@, 0));
                reveal_strlit("CALL");
                assert(differ_at("EOR"@, "CALL"@, 0));
                reveal_strlit("CHECK");
                assert(differ_at("EOR"@, "CHECK"@, 0));
                reveal_strlit("CLASS");
                assert(differ_at("EOR"@, "CLASS"@, 0));
                reveal_strlit("CLUBLOG_QSO_UPLOAD_DATE");
                assert(differ_at("EOR"@, "CLUBLOG_QSO_UPLOAD_DATE"@, 0));
                reveal_strlit("CLUBLOG_QSO_UPLOAD_STATUS");
                assert(differ_at("EOR"@, "CLUBLOG_QSO_UPLOAD_STATUS"@, 0));
                reveal_strlit("CNTY");
                assert(differ_at("EOR"@, "CNTY"@, 0));
                reveal_strlit("COMMENT");
                assert(differ_at("EOR"@, "COMMENT"@, 0));
                reveal_strlit("COMMENT_INTL");
                assert(differ_at("EOR"@, "COMMENT_INTL"@, 0));
                reveal_strlit("CONT");
                assert(differ_at("EOR"@, "CONT"@, 0));
                reveal_strlit("CONTACTED_OP");
                assert(differ_at("EOR"@, "CONTACTED_OP"@, 0));
                reveal_strlit("CONTEST_ID");
                assert(differ_at("EOR"@, "CONTEST_ID"@, 0));
                reveal_strlit("COUNTRY");
                assert(differ_at("EOR"@, "COUNTRY"@, 0));
                reveal_strlit("CQZ");
                assert(differ_at("EOR"@, "CQZ"@, 0));
                reveal_strlit("DXCC");
                assert(differ_at("EOR"@, "DXCC"@, 0));
                reveal_strlit("EMAIL");
                assert(differ_at("EOR"@, "EMAIL"@, 0));
                reveal_strlit("EQSL_QSL_RCVD");
                assert(differ_at("EOR"@, "EQSL_QSL_RCVD"@, 0));
                reveal_strlit("EQSL_QSL_SENT");
                assert(differ_at("EOR"@, "EQSL_QSL_SENT"@, 0));
                reveal_strlit("FORCE_INIT");
                assert(differ_at("EOR"@, "FORCE_INIT"@, 0));
                reveal_strlit("FREQ");
                assert(differ_at("EOR"@, "FREQ"@, 0));
                reveal_strlit("FREQ_RX");
                assert(differ_at("EOR"@, "FREQ_RX"@, 0));
                reveal_strlit("GRIDSQUARE");
                assert(differ_at("EOR"@, "GRIDSQUARE"@, 0));
                reveal_strlit("GRIDSQUARE_EXT");
                assert(differ_at("EOR"@, "GRIDSQUARE_EXT"@, 0));
                reveal_strlit("IOTA");
                assert(differ_at("EOR"@, "IOTA"@, 0));
                reveal_strlit("ITUZ");
                assert(differ_at("EOR"@, "ITUZ"@, 0));
                reveal_strlit("K_INDEX");
                assert(differ_at("EOR"@, "K_INDEX"@, 0));
                reveal_strlit("LAT");
                assert(differ_at("EOR"@, "LAT"@, 0));
                reveal_strlit("LON");
                assert(differ_at("EOR"@, "LON"@, 0));
                reveal_strlit("LOTW_QSL_RCVD");
                assert(differ_at("EOR"@, "LOTW_QSL_RCVD"@, 0));
                reveal_strlit("LOTW_QSL_SENT");
                assert(differ_at("EOR"@, "LOTW_QSL_SENT"@, 0));
                reveal_strlit("MODE");
                assert(differ_at("EOR"@, "MODE"@, 0));
                reveal_strlit("MORSE_KEY_TYPE");
                assert(differ_at("EOR"@, "MORSE_KEY_TYPE"@, 0));
                reveal_strlit("MY_DXCC");
                assert(differ_at("EOR"@, "MY_DXCC"@, 0));
                reveal_strlit("MY_GRIDSQUARE");
                assert(differ_at("EOR"@, "MY_GRIDSQUARE"@, 0));
                reveal_strlit("MY_LAT");
                assert(differ_at("EOR"@, "MY_LAT"@, 0));
                reveal_strlit("MY_LON");
                assert(differ_at("EOR"@, "MY_LON"@, 0));
                reveal_strlit("MY_POTA_REF");
                assert(differ_at("EOR"@, "MY_POTA_REF"@, 0));
                reveal_strlit("MY_SOTA_REF");
                assert(differ_at("EOR"@, "MY_SOTA_REF"@, 0));
                reveal_strlit("MY_WWFF_REF");
                assert(differ_at("EOR"@, "MY_WWFF_REF"@, 0));
                reveal_strlit("NAME");
                assert(differ_at("EOR"@, "NAME"@, 0));
                reveal_strlit("NAME_INTL");
                assert(differ_at("EOR"@, "NAME_INTL"@, 0));
                reveal_strlit("NOTES");
                assert(differ_at("EOR"@, "NOTES"@, 0));
                reveal_strlit("POTA_REF");
                assert(differ_at("EOR"@, "POTA_REF"@, 0));
                reveal_strlit("PROP_MODE");
                assert(differ_at("EOR"@, "PROP_MODE"@, 0));
                reveal_strlit("QSLMSG");
                assert(differ_at("EOR"@, "QSLMSG"@, 0));
                reveal_strlit("QSL_RCVD");
                assert(differ_at("EOR"@, "QSL_RCVD"@, 0));
                reveal_strlit("QSL_RCVD_VIA");
                assert(differ_at("EOR"@, "QSL_RCVD_VIA"@, 0));
                reveal_strlit("QSL_SENT");
                assert(differ_at("EOR"@, "QSL_SENT"@, 0));
                reveal_strlit("QSL_SENT_VIA");
                assert(differ_at("EOR"@, "QSL_SENT_VIA"@, 0));
                reveal_strlit("QSL_VIA");
                assert(differ_at("EOR"@, "QSL_VIA"@, 0));
                reveal_strlit("QSO_COMPLETE");
                assert(differ_at("EOR"@, "QSO_COMPLETE"@, 0));
                reveal_strlit("QSO_DATE");
                assert(differ_at("EOR"@, "QSO_DATE"@, 0));
                reveal_strlit("QSO_DATE_OFF");
                assert(differ_at("EOR"@, "QSO_DATE_OFF"@, 0));
                reveal_strlit("QSO_RANDOM");
                assert(differ_at("EOR"@, "QSO_RANDOM"@, 0));
                reveal_strlit("QTH");
                assert(differ_at("EOR"@, "QTH"@, 0));
                reveal_strlit("QTH_INTL");
                assert(differ_at("EOR"@, "QTH_INTL"@, 0));
                reveal_strlit("REGION");
                assert(differ_at("EOR"@, "REGION"@, 0));
                reveal_strlit("RST_RCVD");
                assert(differ_at("EOR"@, "RST_RCVD"@, 0));
                reveal_strlit("RST_SENT");
                assert(differ_at("EOR"@, "RST_SENT"@, 0));
                reveal_strlit("RX_PWR");
                assert(differ_at("EOR"@, "RX_PWR"@, 0));
                reveal_strlit("SOTA_REF");
                assert(differ_at("EOR"@, "SOTA_REF"@, 0));
                reveal_strlit("SRX");
                assert(differ_at("EOR"@, "SRX"@, 0));
                reveal_strlit("STX");
                assert(differ_at("EOR"@, "STX"@, 0));
                reveal_strlit("SUBMODE");
                assert(differ_at("EOR"@, "SUBMODE"@, 0));
                reveal_strlit("SWL");
                assert(differ_at("EOR"@, "SWL"@, 0));
                reveal_strlit("TIME_OFF");
                assert(differ_at("EOR"@, "TIME_OFF"@, 0));
                reveal_strlit("TIME_ON");
                assert(differ_at("EOR"@, "TIME_ON"@, 0));
                reveal_strlit("TX_PWR");
                assert(differ_at("EOR"@, "TX_PWR"@, 0));
                reveal_strlit("USACA_COUNTIES");
                assert(differ_at("EOR"@, "USACA_COUNTIES"@, 0));
                reveal_strlit("VUCC_GRIDS");
                assert(differ_at("EOR"@, "VUCC_GRIDS"@, 0));
                reveal_strlit("WWFF_REF");
                assert(differ_at("EOR"@, "WWFF_REF"@, 0));
                assert(token_chars("EOR"@));
            },
        }
    }

    proof fn lemma_terminator(self) {
    }
}

} // verus!
