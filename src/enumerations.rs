//! The controlled vocabularies of ADIF, one enum per domain, each with its
//! token table.

use vstd::prelude::*;
use crate::error::{AdifError, ErrorKind};
use crate::text::{append_str, chars_eq_str, chars_of, string_of};
use crate::vocabulary::{differ_at, token_chars, Vocabulary};

verus! {

/// The token of `v` as a `String`.
pub fn token_string<V: Vocabulary>(v: &V) -> (r: String)
    ensures
        r@ == v.spec_token(),
{
    let mut out: Vec<char> = Vec::new();
    v.push_token(&mut out);
    assert(out@ =~= v.spec_token());
    string_of(&out)
}

/// The value whose token is `value`; `UnknownEnumerationToken` if none is.
pub fn parse_token<V: Vocabulary>(value: &str) -> (r: Result<V, AdifError>)
    ensures
        match r {
            Ok(v) => V::spec_from_token(value@) == Some(v),
            Err(e) => V::spec_from_token(value@) is None && e.kind
                == ErrorKind::UnknownEnumerationToken,
        },
{
    let chars = chars_of(value);
    match V::from_token(&chars) {
        Some(v) => Ok(v),
        None => Err(AdifError::new(ErrorKind::UnknownEnumerationToken, &chars)),
    }
}

/// Antenna path of the signal.
#[allow(non_camel_case_types)]
#[derive(Clone, Copy, Debug, PartialEq, Eq, Hash, Structural)]
pub enum AntPath {
    Grayline,
    Other,
    ShortPath,
    LongPath,
}

impl View for AntPath {
    type V = AntPath;

    open spec fn view(&self) -> AntPath {
        *self
    }
}

impl Vocabulary for AntPath {
    open spec fn spec_token(self) -> Seq<char> {
        match self {
            AntPath::Grayline => "G"@,
            AntPath::Other => "O"@,
            AntPath::ShortPath => "S"@,
            AntPath::LongPath => "L"@,
        }
    }

    closed spec fn spec_from_token(s: Seq<char>) -> Option<AntPath> {
        if s == "G"@ {
            Some(AntPath::Grayline)
        } else if s == "O"@ {
            Some(AntPath::Other)
        } else if s == "S"@ {
            Some(AntPath::ShortPath)
        } else if s == "L"@ {
            Some(AntPath::LongPath)
        } else {
            None
        }
    }

    fn push_token(&self, out: &mut Vec<char>) {
        match self {
            AntPath::Grayline => append_str(out, "G"),
            AntPath::Other => append_str(out, "O"),
            AntPath::ShortPath => append_str(out, "S"),
            AntPath::LongPath => append_str(out, "L"),
        }
    }

    fn from_token(s: &[char]) -> (r: Option<AntPath>) {
        if chars_eq_str(s, "G") {
            Some(AntPath::Grayline)
        } else if chars_eq_str(s, "O") {
            Some(AntPath::Other)
        } else if chars_eq_str(s, "S") {
            Some(AntPath::ShortPath)
        } else if chars_eq_str(s, "L") {
            Some(AntPath::LongPath)
        } else {
            None
        }
    }

    proof fn lemma_from_token(s: Seq<char>) {
    }

    proof fn lemma_token(self) {
        match self {
            AntPath::Grayline => {
                reveal_strlit("G");
                assert(token_chars("G"@));
            },
            AntPath::Other => {
                reveal_strlit("O");
                reveal_strlit("G");
                assert(differ_at("O"@, "G"@, 0));
                assert(token_chars("O"@));
            },
            AntPath::ShortPath => {
                reveal_strlit("S");
                reveal_strlit("G");
                assert(differ_at("S"@, "G"@, 0));
                reveal_strlit("O");
                assert(differ_at("S"@, "O"@, 0));
                assert(token_chars("S"@));
            },
            AntPath::LongPath => {
                reveal_strlit("L");
                reveal_strlit("G");
                assert(differ_at("L"@, "G"@, 0));
                reveal_strlit("O");
                assert(differ_at("L"@, "O"@, 0));
                reveal_strlit("S");
                assert(differ_at("L"@, "S"@, 0));
                assert(token_chars("L"@));
            },
        }
    }
}

impl AntPath {
    pub fn serialize(&self) -> (r: String)
        ensures
            r@ == self.spec_token(),
    {
        token_string(self)
    }

    pub fn deserialize(value: &str) -> (r: Result<AntPath, AdifError>)
        ensures
            match r {
                Ok(v) => AntPath::spec_from_token(value@) == Some(v),
                Err(e) => AntPath::spec_from_token(value@) is None && e.kind
                    == ErrorKind::UnknownEnumerationToken,
            },
    {
        parse_token(value)
    }
}

/// Awards that a contact may be submitted for or granted.
#[allow(non_camel_case_types)]
#[derive(Clone, Copy, Debug, PartialEq, Eq, Hash, Structural)]
pub enum Award {
    AJA,
    CQDX,
    CQDXFIELD,
    CQWAZ_MIXED,
    CQWAZ_CW,
    CQWAZ_PHONE,
    CQWAZ_RTTY,
    CQWAZ_160m,
    CQWPX,
    DARC_DOK,
    DXCC,
    DXCC_MIXED,
    DXCC_CW,
    DXCC_PHONE,
    DXCC_RTTY,
    IOTA,
    JCC,
    JCG,
    MARATHON,
    RDA,
    WAB,
    WAC,
    WAE,
    WAIP,
    WAJA,
    WAS,
    WAZ,
    USACA,
    VUCC,
}

impl View for Award {
    type V = Award;

    open spec fn view(&self) -> Award {
        *self
    }
}

impl Vocabulary for Award {
    open spec fn spec_token(self) -> Seq<char> {
        match self {
            Award::AJA => "AJA"@,
            Award::CQDX => "CQDX"@,
            Award::CQDXFIELD => "CQDXFIELD"@,
            Award::CQWAZ_MIXED => "CQWAZ_MIXED"@,
            Award::CQWAZ_CW => "CQWAZ_CW"@,
            Award::CQWAZ_PHONE => "CQWAZ_PHONE"@,
            Award::CQWAZ_RTTY => "CQWAZ_RTTY"@,
            Award::CQWAZ_160m => "CQWAZ_160M"@,
            Award::CQWPX => "CQWPX"@,
            Award::DARC_DOK => "DARC_DOK"@,
            Award::DXCC => "DXCC"@,
            Award::DXCC_MIXED => "DXCC_MIXED"@,
            Award::DXCC_CW => "DXCC_CW"@,
            Award::DXCC_PHONE => "DXCC_PHONE"@,
            Award::DXCC_RTTY => "DXCC_RTTY"@,
            Award::IOTA => "IOTA"@,
            Award::JCC => "JCC"@,
            Award::JCG => "JCG"@,
            Award::MARATHON => "MARATHON"@,
            Award::RDA => "RDA"@,
            Award::WAB => "WAB"@,
            Award::WAC => "WAC"@,
            Award::WAE => "WAE"@,
            Award::WAIP => "WAIP"@,
            Award::WAJA => "WAJA"@,
            Award::WAS => "WAS"@,
            Award::WAZ => "WAZ"@,
            Award::USACA => "USACA"@,
            Award::VUCC => "VUCC"@,
        }
    }

    closed spec fn spec_from_token(s: Seq<char>) -> Option<Award> {
        if s == "AJA"@ {
            Some(Award::AJA)
        } else if s == "CQDX"@ {
            Some(Award::CQDX)
        } else if s == "CQDXFIELD"@ {
            Some(Award::CQDXFIELD)
        } else if s == "CQWAZ_MIXED"@ {
            Some(Award::CQWAZ_MIXED)
        } else if s == "CQWAZ_CW"@ {
            Some(Award::CQWAZ_CW)
        } else if s == "CQWAZ_PHONE"@ {
            Some(Award::CQWAZ_PHONE)
        } else if s == "CQWAZ_RTTY"@ {
            Some(Award::CQWAZ_RTTY)
        } else if s == "CQWAZ_160M"@ {
            Some(Award::CQWAZ_160m)
        } else if s == "CQWPX"@ {
            Some(Award::CQWPX)
        } else if s == "DARC_DOK"@ {
            Some(Award::DARC_DOK)
        } else if s == "DXCC"@ {
            Some(Award::DXCC)
        } else if s == "DXCC_MIXED"@ {
            Some(Award::DXCC_MIXED)
        } else if s == "DXCC_CW"@ {
            Some(Award::DXCC_CW)
        } else if s == "DXCC_PHONE"@ {
            Some(Award::DXCC_PHONE)
        } else if s == "DXCC_RTTY"@ {
            Some(Award::DXCC_RTTY)
        } else if s == "IOTA"@ {
            Some(Award::IOTA)
        } else if s == "JCC"@ {
            Some(Award::JCC)
        } else if s == "JCG"@ {
            Some(Award::JCG)
        } else if s == "MARATHON"@ {
            Some(Award::MARATHON)
        } else if s == "RDA"@ {
            Some(Award::RDA)
        } else if s == "WAB"@ {
            Some(Award::WAB)
        } else if s == "WAC"@ {
            Some(Award::WAC)
        } else if s == "WAE"@ {
            Some(Award::WAE)
        } else if s == "WAIP"@ {
            Some(Award::WAIP)
        } else if s == "WAJA"@ {
            Some(Award::WAJA)
        } else if s == "WAS"@ {
            Some(Award::WAS)
        } else if s == "WAZ"@ {
            Some(Award::WAZ)
        } else if s == "USACA"@ {
            Some(Award::USACA)
        } else if s == "VUCC"@ {
            Some(Award::VUCC)
        } else {
            None
        }
    }

    fn push_token(&self, out: &mut Vec<char>) {
        match self {
            Award::AJA => append_str(out, "AJA"),
            Award::CQDX => append_str(out, "CQDX"),
            Award::CQDXFIELD => append_str(out, "CQDXFIELD"),
            Award::CQWAZ_MIXED => append_str(out, "CQWAZ_MIXED"),
            Award::CQWAZ_CW => append_str(out, "CQWAZ_CW"),
            Award::CQWAZ_PHONE => append_str(out, "CQWAZ_PHONE"),
            Award::CQWAZ_RTTY => append_str(out, "CQWAZ_RTTY"),
            Award::CQWAZ_160m => append_str(out, "CQWAZ_160M"),
            Award::CQWPX => append_str(out, "CQWPX"),
            Award::DARC_DOK => append_str(out, "DARC_DOK"),
            Award::DXCC => append_str(out, "DXCC"),
            Award::DXCC_MIXED => append_str(out, "DXCC_MIXED"),
            Award::DXCC_CW => append_str(out, "DXCC_CW"),
            Award::DXCC_PHONE => append_str(out, "DXCC_PHONE"),
            Award::DXCC_RTTY => append_str(out, "DXCC_RTTY"),
            Award::IOTA => append_str(out, "IOTA"),
            Award::JCC => append_str(out, "JCC"),
            Award::JCG => append_str(out, "JCG"),
            Award::MARATHON => append_str(out, "MARATHON"),
            Award::RDA => append_str(out, "RDA"),
            Award::WAB => append_str(out, "WAB"),
            Award::WAC => append_str(out, "WAC"),
            Award::WAE => append_str(out, "WAE"),
            Award::WAIP => append_str(out, "WAIP"),
            Award::WAJA => append_str(out, "WAJA"),
            Award::WAS => append_str(out, "WAS"),
            Award::WAZ => append_str(out, "WAZ"),
            Award::USACA => append_str(out, "USACA"),
            Award::VUCC => append_str(out, "VUCC"),
        }
    }

    fn from_token(s: &[char]) -> (r: Option<Award>) {
        if chars_eq_str(s, "AJA") {
            Some(Award::AJA)
        } else if chars_eq_str(s, "CQDX") {
            Some(Award::CQDX)
        } else if chars_eq_str(s, "CQDXFIELD") {
            Some(Award::CQDXFIELD)
        } else if chars_eq_str(s, "CQWAZ_MIXED") {
            Some(Award::CQWAZ_MIXED)
        } else if chars_eq_str(s, "CQWAZ_CW") {
            Some(Award::CQWAZ_CW)
        } else if chars_eq_str(s, "CQWAZ_PHONE") {
            Some(Award::CQWAZ_PHONE)
        } else if chars_eq_str(s, "CQWAZ_RTTY") {
            Some(Award::CQWAZ_RTTY)
        } else if chars_eq_str(s, "CQWAZ_160M") {
            Some(Award::CQWAZ_160m)
        } else if chars_eq_str(s, "CQWPX") {
            Some(Award::CQWPX)
        } else if chars_eq_str(s, "DARC_DOK") {
            Some(Award::DARC_DOK)
        } else if chars_eq_str(s, "DXCC") {
            Some(Award::DXCC)
        } else if chars_eq_str(s, "DXCC_MIXED") {
            Some(Award::DXCC_MIXED)
        } else if chars_eq_str(s, "DXCC_CW") {
            Some(Award::DXCC_CW)
        } else if chars_eq_str(s, "DXCC_PHONE") {
            Some(Award::DXCC_PHONE)
        } else if chars_eq_str(s, "DXCC_RTTY") {
            Some(Award::DXCC_RTTY)
        } else if chars_eq_str(s, "IOTA") {
            Some(Award::IOTA)
        } else if chars_eq_str(s, "JCC") {
            Some(Award::JCC)
        } else if chars_eq_str(s, "JCG") {
            Some(Award::JCG)
        } else if chars_eq_str(s, "MARATHON") {
            Some(Award::MARATHON)
        } else if chars_eq_str(s, "RDA") {
            Some(Award::RDA)
        } else if chars_eq_str(s, "WAB") {
            Some(Award::WAB)
        } else if chars_eq_str(s, "WAC") {
            Some(Award::WAC)
        } else if chars_eq_str(s, "WAE") {
            Some(Award::WAE)
        } else if chars_eq_str(s, "WAIP") {
            Some(Award::WAIP)
        } else if chars_eq_str(s, "WAJA") {
            Some(Award::WAJA)
        } else if chars_eq_str(s, "WAS") {
            Some(Award::WAS)
        } else if chars_eq_str(s, "WAZ") {
            Some(Award::WAZ)
        } else if chars_eq_str(s, "USACA") {
            Some(Award::USACA)
        } else if chars_eq_str(s, "VUCC") {
            Some(Award::VUCC)
        } else {
            None
        }
    }

    proof fn lemma_from_token(s: Seq<char>) {
    }

    proof fn lemma_token(self) {
        match self {
            Award::AJA => {
                reveal_strlit("AJA");
                assert(token_chars("AJA"@));
            },
            Award::CQDX => {
                reveal_strlit("CQDX");
                reveal_strlit("AJA");
                assert(differ_at("CQDX"@, "AJA"@, 0));
                assert(token_chars("CQDX"@));
            },
            Award::CQDXFIELD => {
                reveal_strlit("CQDXFIELD");
                reveal_strlit("AJA");
                assert(differ_at("CQDXFIELD"@, "AJA"@, 0));
                reveal_strlit("CQDX");
                assert(differ_at("CQDXFIELD"@, "CQDX"@, 0));
                assert(token_chars("CQDXFIELD"@));
            },
            Award::CQWAZ_MIXED => {
                reveal_strlit("CQWAZ_MIXED");
                reveal_strlit("AJA");
                assert(differ_at("CQWAZ_MIXED"@, "AJA"@, 0));
                reveal_strlit("CQDX");
                assert(differ_at("CQWAZ_MIXED"@, "CQDX"@, 0));
                reveal_strlit("CQDXFIELD");
                assert(differ_at("CQWAZ_MIXED"@, "CQDXFIELD"@, 0));
                assert(token_chars("CQWAZ_MIXED"@));
            },
            Award::CQWAZ_CW => {
                reveal_strlit("CQWAZ_CW");
                reveal_strlit("AJA");
                assert(differ_at("CQWAZ_CW"@, "AJA"@, 0));
                reveal_strlit("CQDX");
                assert(differ_at("CQWAZ_CW"@, "CQDX"@, 0));
                reveal_strlit("CQDXFIELD");
                assert(differ_at("CQWAZ_CW"@, "CQDXFIELD"@, 0));
                reveal_strlit("CQWAZ_MIXED");
                assert(differ_at("CQWAZ_CW"@, "CQWAZ_MIXED"@, 0));
                assert(token_chars("CQWAZ_CW"@));
            },
            Award::CQWAZ_PHONE => {
                reveal_strlit("CQWAZ_PHONE");
                reveal_strlit("AJA");
                assert(differ_at("CQWAZ_PHONE"@, "AJA"@, 0));
                reveal_strlit("CQDX");
                assert(differ_at("CQWAZ_PHONE"@, "CQDX"@, 0));
                reveal_strlit("CQDXFIELD");
                assert(differ_at("CQWAZ_PHONE"@, "CQDXFIELD"@, 0));
                reveal_strlit("CQWAZ_MIXED");
                assert(differ_at("CQWAZ_PHONE"@, "CQWAZ_MIXED"@, 6));
                reveal_strlit("CQWAZ_CW");
                assert(differ_at("CQWAZ_PHONE"@, "CQWAZ_CW"@, 0));
                assert(token_chars("CQWAZ_PHONE"@));
            },
            Award::CQWAZ_RTTY => {
                reveal_strlit("CQWAZ_RTTY");
                reveal_strlit("AJA");
                assert(differ_at("CQWAZ_RTTY"@, "AJA"@, 0));
                reveal_strlit("CQDX");
                assert(differ_at("CQWAZ_RTTY"@, "CQDX"@, 0));
                reveal_strlit("CQDXFIELD");
                assert(differ_at("CQWAZ_RTTY"@, "CQDXFIELD"@, 0));
                reveal_strlit("CQWAZ_MIXED");
                assert(differ_at("CQWAZ_RTTY"@, "CQWAZ_MIXED"@, 0));
                reveal_strlit("CQWAZ_CW");
                assert(differ_at("CQWAZ_RTTY"@, "CQWAZ_CW"@, 0));
                reveal_strlit("CQWAZ_PHONE");
                assert(differ_at("CQWAZ_RTTY"@, "CQWAZ_PHONE"@, 0));
                assert(token_chars("CQWAZ_RTTY"@));
            },
            Award::CQWAZ_160m => {
                reveal_strlit("CQWAZ_160M");
                reveal_strlit("AJA");
                assert(differ_at("CQWAZ_160M"@, "AJA"@, 0));
                reveal_strlit("CQDX");
                assert(differ_at("CQWAZ_160M"@, "CQDX"@, 0));
                reveal_strlit("CQDXFIELD");
                assert(differ_at("CQWAZ_160M"@, "CQDXFIELD"@, 0));
                reveal_strlit("CQWAZ_MIXED");
                assert(differ_at("CQWAZ_160M"@, "CQWAZ_MIXED"@, 0));
                reveal_strlit("CQWAZ_CW");
                assert(differ_at("CQWAZ_160M"@, "CQWAZ_CW"@, 0));
                reveal_strlit("CQWAZ_PHONE");
                assert(differ_at("CQWAZ_160M"@, "CQWAZ_PHONE"@, 0));
                reveal_strlit("CQWAZ_RTTY");
                assert(differ_at("CQWAZ_160M"@, "CQWAZ_RTTY"@, 6));
                assert(token_chars("CQWAZ_160M"@));
            },
            Award::CQWPX => {
                reveal_strlit("CQWPX");
                reveal_strlit("AJA");
                assert(differ_at("CQWPX"@, "AJA"@, 0));
                reveal_strlit("CQDX");
                assert(differ_at("CQWPX"@, "CQDX"@, 0));
                reveal_strlit("CQDXFIELD");
                assert(differ_at("CQWPX"@, "CQDXFIELD"@, 0));
                reveal_strlit("CQWAZ_MIXED");
                assert(differ_at("CQWPX"@, "CQWAZ_MIXED"@, 0));
                reveal_strlit("CQWAZ_CW");
                assert(differ_at("CQWPX"@, "CQWAZ_CW"@, 0));
                reveal_strlit("CQWAZ_PHONE");
                assert(differ_at("CQWPX"@, "CQWAZ_PHONE"@, 0));
                reveal_strlit("CQWAZ_RTTY");
                assert(differ_at("CQWPX"@, "CQWAZ_RTTY"@, 0));
                reveal_strlit("CQWAZ_160M");
                assert(differ_at("CQWPX"@, "CQWAZ_160M"@, 0));
                assert(token_chars("CQWPX"@));
            },
            Award::DARC_DOK => {
                reveal_strlit("DARC_DOK");
                reveal_strlit("AJA");
                assert(differ_at("DARC_DOK"@, "AJA"@, 0));
                reveal_strlit("CQDX");
                assert(differ_at("DARC_DOK"@, "CQDX"@, 0));
                reveal_strlit("CQDXFIELD");
                assert(differ_at("DARC_DOK"@, "CQDXFIELD"@, 0));
                reveal_strlit("CQWAZ_MIXED");
                assert(differ_at("DARC_DOK"@, "CQWAZ_MIXED"@, 0));
                reveal_strlit("CQWAZ_CW");
                assert(differ_at("DARC_DOK"@, "CQWAZ_CW"@, 0));
                reveal_strlit("CQWAZ_PHONE");
                assert(differ_at("DARC_DOK"@, "CQWAZ_PHONE"@, 0));
                reveal_strlit("CQWAZ_RTTY");
                assert(differ_at("DARC_DOK"@, "CQWAZ_RTTY"@, 0));
                reveal_strlit("CQWAZ_160M");
                assert(differ_at("DARC_DOK"@, "CQWAZ_160M"@, 0));
                reveal_strlit("CQWPX");
                assert(differ_at("DARC_DOK"@, "CQWPX"@, 0));
                assert(token_chars("DARC_DOK"@));
            },
            Award::DXCC => {
                reveal_strlit("DXCC");
                reveal_strlit("AJA");
                assert(differ_at("DXCC"@, "AJA"@, 0));
                reveal_strlit("CQDX");
                assert(differ_at("DXCC"@, "CQDX"@, 0));
                reveal_strlit("CQDXFIELD");
                assert(differ_at("DXCC"@, "CQDXFIELD"@, 0));
                reveal_strlit("CQWAZ_MIXED");
                assert(differ_at("DXCC"@, "CQWAZ_MIXED"@, 0));
                reveal_strlit("CQWAZ_CW");
                assert(differ_at("DXCC"@, "CQWAZ_CW"@, 0));
                reveal_strlit("CQWAZ_PHONE");
                assert(differ_at("DXCC"@, "CQWAZ_PHONE"@, 0));
                reveal_strlit("CQWAZ_RTTY");
                assert(differ_at("DXCC"@, "CQWAZ_RTTY"@, 0));
                reveal_strlit("CQWAZ_160M");
                assert(differ_at("DXCC"@, "CQWAZ_160M"@, 0));
                reveal_strlit("CQWPX");
                assert(differ_at("DXCC"@, "CQWPX"@, 0));
                reveal_strlit("DARC_DOK");
                assert(differ_at("DXCC"@, "DARC_DOK"@, 0));
                assert(token_chars("DXCC"@));
            },
            Award::DXCC_MIXED => {
                reveal_strlit("DXCC_MIXED");
                reveal_strlit("AJA");
                assert(differ_at("DXCC_MIXED"@, "AJA"@, 0));
                reveal_strlit("CQDX");
                assert(differ_at("DXCC_MIXED"@, "CQDX"@, 0));
                reveal_strlit("CQDXFIELD");
                assert(differ_at("DXCC_MIXED"@, "CQDXFIELD"@, 0));
                reveal_strlit("CQWAZ_MIXED");
                assert(differ_at("DXCC_MIXED"@, "CQWAZ_MIXED"@, 0));
                reveal_strlit("CQWAZ_CW");
                assert(differ_at("DXCC_MIXED"@, "CQWAZ_CW"@, 0));
                reveal_strlit("CQWAZ_PHONE");
                assert(differ_at("DXCC_MIXED"@, "CQWAZ_PHONE"@, 0));
                reveal_strlit("CQWAZ_RTTY");
                assert(differ_at("DXCC_MIXED"@, "CQWAZ_RTTY"@, 0));
                reveal_strlit("CQWAZ_160M");
                assert(differ_at("DXCC_MIXED"@, "CQWAZ_160M"@, 0));
                reveal_strlit("CQWPX");
                assert(differ_at("DXCC_MIXED"@, "CQWPX"@, 0));
                reveal_strlit("DARC_DOK");
                assert(differ_at("DXCC_MIXED"@, "DARC_DOK"@, 0));
                reveal_strlit("DXCC");
                assert(differ_at("DXCC_MIXED"@, "DXCC"@, 0));
                assert(token_chars("DXCC_MIXED"@));
            },
            Award::DXCC_CW => {
                reveal_strlit("DXCC_CW");
                reveal_strlit("AJA");
                assert(differ_at("DXCC_CW"@, "AJA"@, 0));
                reveal_strlit("CQDX");
                assert(differ_at("DXCC_CW"@, "CQDX"@, 0));
                reveal_strlit("CQDXFIELD");
                assert(differ_at("DXCC_CW"@, "CQDXFIELD"@, 0));
                reveal_strlit("CQWAZ_MIXED");
                assert(differ_at("DXCC_CW"@, "CQWAZ_MIXED"@, 0));
                reveal_strlit("CQWAZ_CW");
                assert(differ_at("DXCC_CW"@, "CQWAZ_CW"@, 0));
                reveal_strlit("CQWAZ_PHONE");
                assert(differ_at("DXCC_CW"@, "CQWAZ_PHONE"@, 0));
                reveal_strlit("CQWAZ_RTTY");
                assert(differ_at("DXCC_CW"@, "CQWAZ_RTTY"@, 0));
                reveal_strlit("CQWAZ_160M");
                assert(differ_at("DXCC_CW"@, "CQWAZ_160M"@, 0));
                reveal_strlit("CQWPX");
                assert(differ_at("DXCC_CW"@, "CQWPX"@, 0));
                reveal_strlit("DARC_DOK");
                assert(differ_at("DXCC_CW"@, "DARC_DOK"@, 0));
                reveal_strlit("DXCC");
                assert(differ_at("DXCC_CW"@, "DXCC"@, 0));
                reveal_strlit("DXCC_MIXED");
                assert(differ_at("DXCC_CW"@, "DXCC_MIXED"@, 0));
                assert(token_chars("DXCC_CW"@));
            },
            Award::DXCC_PHONE => {
                reveal_strlit("DXCC_PHONE");
                reveal_strlit("AJA");
                assert(differ_at("DXCC_PHONE"@, "AJA"@, 0));
                reveal_strlit("CQDX");
                assert(differ_at("DXCC_PHONE"@, "CQDX"@, 0));
                reveal_strlit("CQDXFIELD");
                assert(differ_at("DXCC_PHONE"@, "CQDXFIELD"@, 0));
                reveal_strlit("CQWAZ_MIXED");
                assert(differ_at("DXCC_PHONE"@, "CQWAZ_MIXED"@, 0));
                reveal_strlit("CQWAZ_CW");
                assert(differ_at("DXCC_PHONE"@, "CQWAZ_CW"@, 0));
                reveal_strlit("CQWAZ_PHONE");
                assert(differ_at("DXCC_PHONE"@, "CQWAZ_PHONE"@, 0));
                reveal_strlit("CQWAZ_RTTY");
                assert(differ_at("DXCC_PHONE"@, "CQWAZ_RTTY"@, 0));
                reveal_strlit("CQWAZ_160M");
                assert(differ_at("DXCC_PHONE"@, "CQWAZ_160M"@, 0));
                reveal_strlit("CQWPX");
                assert(differ_at("DXCC_PHONE"@, "CQWPX"@, 0));
                reveal_strlit("DARC_DOK");
                assert(differ_at("DXCC_PHONE"@, "DARC_DOK"@, 0));
                reveal_strlit("DXCC");
                assert(differ_at("DXCC_PHONE"@, "DXCC"@, 0));
                reveal_strlit("DXCC_MIXED");
                assert(differ_at("DXCC_PHONE"@, "DXCC_MIXED"@, 5));
                reveal_strlit("DXCC_CW");
                assert(differ_at("DXCC_PHONE"@, "DXCC_CW"@, 0));
                assert(token_chars("DXCC_PHONE"@));
            },
            Award::DXCC_RTTY => {
                reveal_strlit("DXCC_RTTY");
                reveal_strlit("AJA");
                assert(differ_at("DXCC_RTTY"@, "AJA"@, 0));
                reveal_strlit("CQDX");
                assert(differ_at("DXCC_RTTY"@, "CQDX"@, 0));
                reveal_strlit("CQDXFIELD");
                assert(differ_at("DXCC_RTTY"@, "CQDXFIELD"@, 0));
                reveal_strlit("CQWAZ_MIXED");
                assert(differ_at("DXCC_RTTY"@, "CQWAZ_MIXED"@, 0));
                reveal_strlit("CQWAZ_CW");
                assert(differ_at("DXCC_RTTY"@, "CQWAZ_CW"@, 0));
                reveal_strlit("CQWAZ_PHONE");
                assert(differ_at("DXCC_RTTY"@, "CQWAZ_PHONE"@, 0));
                reveal_strlit("CQWAZ_RTTY");
                assert(differ_at("DXCC_RTTY"@, "CQWAZ_RTTY"@, 0));
                reveal_strlit("CQWAZ_160M");
                assert(differ_at("DXCC_RTTY"@, "CQWAZ_160M"@, 0));
                reveal_strlit("CQWPX");
                assert(differ_at("DXCC_RTTY"@, "CQWPX"@, 0));
                reveal_strlit("DARC_DOK");
                assert(differ_at("DXCC_RTTY"@, "DARC_DOK"@, 0));
                reveal_strlit("DXCC");
                assert(differ_at("DXCC_RTTY"@, "DXCC"@, 0));
                reveal_strlit("DXCC_MIXED");
                assert(differ_at("DXCC_RTTY"@, "DXCC_MIXED"@, 0));
                reveal_strlit("DXCC_CW");
                assert(differ_at("DXCC_RTTY"@, "DXCC_CW"@, 0));
                reveal_strlit("DXCC_PHONE");
                assert(differ_at("DXCC_RTTY"@, "DXCC_PHONE"@, 0));
                assert(token_chars("DXCC_RTTY"@));
            },
            Award::IOTA => {
                reveal_strlit("IOTA");
                reveal_strlit("AJA");
                assert(differ_at("IOTA"@, "AJA"@, 0));
                reveal_strlit("CQDX");
                assert(differ_at("IOTA"@, "CQDX"@, 0));
                reveal_strlit("CQDXFIELD");
                assert(differ_at("IOTA"@, "CQDXFIELD"@, 0));
                reveal_strlit("CQWAZ_MIXED");
                assert(differ_at("IOTA"@, "CQWAZ_MIXED"@, 0));
                reveal_strlit("CQWAZ_CW");
                assert(differ_at("IOTA"@, "CQWAZ_CW"@, 0));
                reveal_strlit("CQWAZ_PHONE");
                assert(differ_at("IOTA"@, "CQWAZ_PHONE"@, 0));
                reveal_strlit("CQWAZ_RTTY");
                assert(differ_at("IOTA"@, "CQWAZ_RTTY"@, 0));
                reveal_strlit("CQWAZ_160M");
                assert(differ_at("IOTA"@, "CQWAZ_160M"@, 0));
                reveal_strlit("CQWPX");
                assert(differ_at("IOTA"@, "CQWPX"@, 0));
                reveal_strlit("DARC_DOK");
                assert(differ_at("IOTA"@, "DARC_DOK"@, 0));
                reveal_strlit("DXCC");
                assert(differ_at("IOTA"@, "DXCC"@, 0));
                reveal_strlit("DXCC_MIXED");
                assert(differ_at("IOTA"@, "DXCC_MIXED"@, 0));
                reveal_strlit("DXCC_CW");
                assert(differ_at("IOTA"@, "DXCC_CW"@, 0));
                reveal_strlit("DXCC_PHONE");
                assert(differ_at("IOTA"@, "DXCC_PHONE"@, 0));
                reveal_strlit("DXCC_RTTY");
                assert(differ_at("IOTA"@, "DXCC_RTTY"@, 0));
                assert(token_chars("IOTA"@));
            },
            Award::JCC => {
                reveal_strlit("JCC");
                reveal_strlit("AJA");
                assert(differ_at("JCC"@, "AJA"@, 0));
                reveal_strlit("CQDX");
                assert(differ_at("JCC"@, "CQDX"@, 0));
                reveal_strlit("CQDXFIELD");
                assert(differ_at("JCC"@, "CQDXFIELD"@, 0));
                reveal_strlit("CQWAZ_MIXED");
                assert(differ_at("JCC"@, "CQWAZ_MIXED"@, 0));
                reveal_strlit("CQWAZ_CW");
                assert(differ_at("JCC"@, "CQWAZ_CW"@, 0));
                reveal_strlit("CQWAZ_PHONE");
                assert(differ_at("JCC"@, "CQWAZ_PHONE"@, 0));
                reveal_strlit("CQWAZ_RTTY");
                assert(differ_at("JCC"@, "CQWAZ_RTTY"@, 0));
                reveal_strlit("CQWAZ_160M");
                assert(differ_at("JCC"@, "CQWAZ_160M"@, 0));
                reveal_strlit("CQWPX");
                assert(differ_at("JCC"@, "CQWPX"@, 0));
                reveal_strlit("DARC_DOK");
                assert(differ_at("JCC"@, "DARC_DOK"@, 0));
                reveal_strlit("DXCC");
                assert(differ_at("JCC"@, "DXCC"@, 0));
                reveal_strlit("DXCC_MIXED");
                assert(differ_at("JCC"@, "DXCC_MIXED"@, 0));
                reveal_strlit("DXCC_CW");
                assert(differ_at("JCC"@, "DXCC_CW"@, 0));
                reveal_strlit("DXCC_PHONE");
                assert(differ_at("JCC"@, "DXCC_PHONE"@, 0));
                reveal_strlit("DXCC_RTTY");
                assert(differ_at("JCC"@, "DXCC_RTTY"@, 0));
                reveal_strlit("IOTA");
                assert(differ_at("JCC"@, "IOTA"@, 0));
                assert(token_chars("JCC"@));
            },
            Award::JCG => {
                reveal_strlit("JCG");
                reveal_strlit("AJA");
                assert(differ_at("JCG"@, "AJA"@, 0));
                reveal_strlit("CQDX");
                assert(differ_at("JCG"@, "CQDX"@, 0));
                reveal_strlit("CQDXFIELD");
                assert(differ_at("JCG"@, "CQDXFIELD"@, 0));
                reveal_strlit("CQWAZ_MIXED");
                assert(differ_at("JCG"@, "CQWAZ_MIXED"@, 0));
                reveal_strlit("CQWAZ_CW");
                assert(differ_at("JCG"@, "CQWAZ_CW"@, 0));
                reveal_strlit("CQWAZ_PHONE");
                assert(differ_at("JCG"@, "CQWAZ_PHONE"@, 0));
                reveal_strlit("CQWAZ_RTTY");
                assert(differ_at("JCG"@, "CQWAZ_RTTY"@, 0));
                reveal_strlit("CQWAZ_160M");
                assert(differ_at("JCG"@, "CQWAZ_160M"@, 0));
                reveal_strlit("CQWPX");
                assert(differ_at("JCG"@, "CQWPX"@, 0));
                reveal_strlit("DARC_DOK");
                assert(differ_at("JCG"@, "DARC_DOK"@, 0));
                reveal_strlit("DXCC");
                assert(differ_at("JCG"@, "DXCC"@, 0));
                reveal_strlit("DXCC_MIXED");
                assert(differ_at("JCG"@, "DXCC_MIXED"@, 0));
                reveal_strlit("DXCC_CW");
                assert(differ_at("JCG"@, "DXCC_CW"@, 0));
                reveal_strlit("DXCC_PHONE");
                assert(differ_at("JCG"@, "DXCC_PHONE"@, 0));
                reveal_strlit("DXCC_RTTY");
                assert(differ_at("JCG"@, "DXCC_RTTY"@, 0));
                reveal_strlit("IOTA");
                assert(differ_at("JCG"@, "IOTA"@, 0));
                reveal_strlit("JCC");
                assert(differ_at("JCG"@, "JCC"@, 2));
                assert(token_chars("JCG"@));
            },
            Award::MARATHON => {
                reveal_strlit("MARATHON");
                reveal_strlit("AJA");
                assert(differ_at("MARATHON"@, "AJA"@, 0));
                reveal_strlit("CQDX");
                assert(differ_at("MARATHON"@, "CQDX"@, 0));
                reveal_strlit("CQDXFIELD");
                assert(differ_at("MARATHON"@, "CQDXFIELD"@, 0));
                reveal_strlit("CQWAZ_MIXED");
                assert(differ_at("MARATHON"@, "CQWAZ_MIXED"@, 0));
                reveal_strlit("CQWAZ_CW");
                assert(differ_at("MARATHON"@, "CQWAZ_CW"@, 0));
                reveal_strlit("CQWAZ_PHONE");
                assert(differ_at("MARATHON"@, "CQWAZ_PHONE"@, 0));
                reveal_strlit("CQWAZ_RTTY");
                assert(differ_at("MARATHON"@, "CQWAZ_RTTY"@, 0));
                reveal_strlit("CQWAZ_160M");
                assert(differ_at("MARATHON"@, "CQWAZ_160M"@, 0));
                reveal_strlit("CQWPX");
                assert(differ_at("MARATHON"@, "CQWPX"@, 0));
                reveal_strlit("DARC_DOK");
                assert(differ_at("MARATHON"@, "DARC_DOK"@, 0));
                reveal_strlit("DXCC");
                assert(differ_at("MARATHON"@, "DXCC"@, 0));
                reveal_strlit("DXCC_MIXED");
                assert(differ_at("MARATHON"@, "DXCC_MIXED"@, 0));
                reveal_strlit("DXCC_CW");
                assert(differ_at("MARATHON"@, "DXCC_CW"@, 0));
                reveal_strlit("DXCC_PHONE");
                assert(differ_at("MARATHON"@, "DXCC_PHONE"@, 0));
                reveal_strlit("DXCC_RTTY");
                assert(differ_at("MARATHON"@, "DXCC_RTTY"@, 0));
                reveal_strlit("IOTA");
                assert(differ_at("MARATHON"@, "IOTA"@, 0));
                reveal_strlit("JCC");
                assert(differ_at("MARATHON"@, "JCC"@, 0));
                reveal_strlit("JCG");
                assert(differ_at("MARATHON"@, "JCG"@, 0));
                assert(token_chars("MARATHON"@));
            },
            Award::RDA => {
                reveal_strlit("RDA");
                reveal_strlit("AJA");
                assert(differ_at("RDA"@, "AJA"@, 0));
                reveal_strlit("CQDX");
                assert(differ_at("RDA"@, "CQDX"@, 0));
                reveal_strlit("CQDXFIELD");
                assert(differ_at("RDA"@, "CQDXFIELD"@, 0));
                reveal_strlit("CQWAZ_MIXED");
                assert(differ_at("RDA"@, "CQWAZ_MIXED"@, 0));
                reveal_strlit("CQWAZ_CW");
                assert(differ_at("RDA"@, "CQWAZ_CW"@, 0));
                reveal_strlit("CQWAZ_PHONE");
                assert(differ_at("RDA"@, "CQWAZ_PHONE"@, 0));
                reveal_strlit("CQWAZ_RTTY");
                assert(differ_at("RDA"@, "CQWAZ_RTTY"@, 0));
                reveal_strlit("CQWAZ_160M");
                assert(differ_at("RDA"@, "CQWAZ_160M"@, 0));
                reveal_strlit("CQWPX");
                assert(differ_at("RDA"@, "CQWPX"@, 0));
                reveal_strlit("DARC_DOK");
                assert(differ_at("RDA"@, "DARC_DOK"@, 0));
                reveal_strlit("DXCC");
                assert(differ_at("RDA"@, "DXCC"@, 0));
                reveal_strlit("DXCC_MIXED");
                assert(differ_at("RDA"@, "DXCC_MIXED"@, 0));
                reveal_strlit("DXCC_CW");
                assert(differ_at("RDA"@, "DXCC_CW"@, 0));
                reveal_strlit("DXCC_PHONE");
                assert(differ_at("RDA"@, "DXCC_PHONE"@, 0));
                reveal_strlit("DXCC_RTTY");
                assert(differ_at("RDA"@, "DXCC_RTTY"@, 0));
                reveal_strlit("IOTA");
                assert(differ_at("RDA"@, "IOTA"@, 0));
                reveal_strlit("JCC");
                assert(differ_at("RDA"@, "JCC"@, 0));
                reveal_strlit("JCG");
                assert(differ_at("RDA"@, "JCG"@, 0));
                reveal_strlit("MARATHON");
                assert(differ_at("RDA"@, "MARATHON"@, 0));
                assert(token_chars("RDA"@));
            },
            Award::WAB => {
                reveal_strlit("WAB");
                reveal_strlit("AJA");
                assert(differ_at("WAB"@, "AJA"@, 0));
                reveal_strlit("CQDX");
                assert(differ_at("WAB"@, "CQDX"@, 0));
                reveal_strlit("CQDXFIELD");
                assert(differ_at("WAB"@, "CQDXFIELD"@, 0));
                reveal_strlit("CQWAZ_MIXED");
                assert(differ_at("WAB"@, "CQWAZ_MIXED"@, 0));
                reveal_strlit("CQWAZ_CW");
                assert(differ_at("WAB"@, "CQWAZ_CW"@, 0));
                reveal_strlit("CQWAZ_PHONE");
                assert(differ_at("WAB"@, "CQWAZ_PHONE"@, 0));
                reveal_strlit("CQWAZ_RTTY");
                assert(differ_at("WAB"@, "CQWAZ_RTTY"@, 0));
                reveal_strlit("CQWAZ_160M");
                assert(differ_at("WAB"@, "CQWAZ_160M"@, 0));
                reveal_strlit("CQWPX");
                assert(differ_at("WAB"@, "CQWPX"@, 0));
                reveal_strlit("DARC_DOK");
                assert(differ_at("WAB"@, "DARC_DOK"@, 0));
                reveal_strlit("DXCC");
                assert(differ_at("WAB"@, "DXCC"@, 0));
                reveal_strlit("DXCC_MIXED");
                assert(differ_at("WAB"@, "DXCC_MIXED"@, 0));
                reveal_strlit("DXCC_CW");
                assert(differ_at("WAB"@, "DXCC_CW"@, 0));
                reveal_strlit("DXCC_PHONE");
                assert(differ_at("WAB"@, "DXCC_PHONE"@, 0));
                reveal_strlit("DXCC_RTTY");
                assert(differ_at("WAB"@, "DXCC_RTTY"@, 0));
                reveal_strlit("IOTA");
                assert(differ_at("WAB"@, "IOTA"@, 0));
                reveal_strlit("JCC");
                assert(differ_at("WAB"@, "JCC"@, 0));
                reveal_strlit("JCG");
                assert(differ_at("WAB"@, "JCG"@, 0));
                reveal_strlit("MARATHON");
                assert(differ_at("WAB"@, "MARATHON"@, 0));
                reveal_strlit("RDA");
                assert(differ_at("WAB"@, "RDA"@, 0));
                assert(token_chars("WAB"@));
            },
            Award::WAC => {
                reveal_strlit("WAC");
                reveal_strlit("AJA");
                assert(differ_at("WAC"@, "AJA"@, 0));
                reveal_strlit("CQDX");
                assert(differ_at("WAC"@, "CQDX"@, 0));
                reveal_strlit("CQDXFIELD");
                assert(differ_at("WAC"@, "CQDXFIELD"@, 0));
                reveal_strlit("CQWAZ_MIXED");
                assert(differ_at("WAC"@, "CQWAZ_MIXED"@, 0));
                reveal_strlit("CQWAZ_CW");
                assert(differ_at("WAC"@, "CQWAZ_CW"@, 0));
                reveal_strlit("CQWAZ_PHONE");
                assert(differ_at("WAC"@, "CQWAZ_PHONE"@, 0));
                reveal_strlit("CQWAZ_RTTY");
                assert(differ_at("WAC"@, "CQWAZ_RTTY"@, 0));
                reveal_strlit("CQWAZ_160M");
                assert(differ_at("WAC"@, "CQWAZ_160M"@, 0));
                reveal_strlit("CQWPX");
                assert(differ_at("WAC"@, "CQWPX"@, 0));
                reveal_strlit("DARC_DOK");
                assert(differ_at("WAC"@, "DARC_DOK"@, 0));
                reveal_strlit("DXCC");
                assert(differ_at("WAC"@, "DXCC"@, 0));
                reveal_strlit("DXCC_MIXED");
                assert(differ_at("WAC"@, "DXCC_MIXED"@, 0));
                reveal_strlit("DXCC_CW");
                assert(differ_at("WAC"@, "DXCC_CW"@, 0));
                reveal_strlit("DXCC_PHONE");
                assert(differ_at("WAC"@, "DXCC_PHONE"@, 0));
                reveal_strlit("DXCC_RTTY");
                assert(differ_at("WAC"@, "DXCC_RTTY"@, 0));
                reveal_strlit("IOTA");
                assert(differ_at("WAC"@, "IOTA"@, 0));
                reveal_strlit("JCC");
                assert(differ_at("WAC"@, "JCC"@, 0));
                reveal_strlit("JCG");
                assert(differ_at("WAC"@, "JCG"@, 0));
                reveal_strlit("MARATHON");
                assert(differ_at("WAC"@, "MARATHON"@, 0));
                reveal_strlit("RDA");
                assert(differ_at("WAC"@, "RDA"@, 0));
                reveal_strlit("WAB");
                assert(differ_at("WAC"@, "WAB"@, 2));
                assert(token_chars("WAC"@));
            },
            Award::WAE => {
                reveal_strlit("WAE");
                reveal_strlit("AJA");
                assert(differ_at("WAE"@, "AJA"@, 0));
                reveal_strlit("CQDX");
                assert(differ_at("WAE"@, "CQDX"@, 0));
                reveal_strlit("CQDXFIELD");
                assert(differ_at("WAE"@, "CQDXFIELD"@, 0));
                reveal_strlit("CQWAZ_MIXED");
                assert(differ_at("WAE"@, "CQWAZ_MIXED"@, 0));
                reveal_strlit("CQWAZ_CW");
                assert(differ_at("WAE"@, "CQWAZ_CW"@, 0));
                reveal_strlit("CQWAZ_PHONE");
                assert(differ_at("WAE"@, "CQWAZ_PHONE"@, 0));
                reveal_strlit("CQWAZ_RTTY");
                assert(differ_at("WAE"@, "CQWAZ_RTTY"@, 0));
                reveal_strlit("CQWAZ_160M");
                assert(differ_at("WAE"@, "CQWAZ_160M"@, 0));
                reveal_strlit("CQWPX");
                assert(differ_at("WAE"@, "CQWPX"@, 0));
                reveal_strlit("DARC_DOK");
                assert(differ_at("WAE"@, "DARC_DOK"@, 0));
                reveal_strlit("DXCC");
                assert(differ_at("WAE"@, "DXCC"@, 0));
                reveal_strlit("DXCC_MIXED");
                assert(differ_at("WAE"@, "DXCC_MIXED"@, 0));
                reveal_strlit("DXCC_CW");
                assert(differ_at("WAE"@, "DXCC_CW"@, 0));
                reveal_strlit("DXCC_PHONE");
                assert(differ_at("WAE"@, "DXCC_PHONE"@, 0));
                reveal_strlit("DXCC_RTTY");
                assert(differ_at("WAE"@, "DXCC_RTTY"@, 0));
                reveal_strlit("IOTA");
                assert(differ_at("WAE"@, "IOTA"@, 0));
                reveal_strlit("JCC");
                assert(differ_at("WAE"@, "JCC"@, 0));
                reveal_strlit("JCG");
                assert(differ_at("WAE"@, "JCG"@, 0));
                reveal_strlit("MARATHON");
                assert(differ_at("WAE"@, "MARATHON"@, 0));
                reveal_strlit("RDA");
                assert(differ_at("WAE"@, "RDA"@, 0));
                reveal_strlit("WAB");
                assert(differ_at("WAE"@, "WAB"@, 2));
                reveal_strlit("WAC");
                assert(differ_at("WAE"@, "WAC"@, 2));
                assert(token_chars("WAE"@));
            },
            Award::WAIP => {
                reveal_strlit("WAIP");
                reveal_strlit("AJA");
                assert(differ_at("WAIP"@, "AJA"@, 0));
                reveal_strlit("CQDX");
                assert(differ_at("WAIP"@, "CQDX"@, 0));
                reveal_strlit("CQDXFIELD");
                assert(differ_at("WAIP"@, "CQDXFIELD"@, 0));
                reveal_strlit("CQWAZ_MIXED");
                assert(differ_at("WAIP"@, "CQWAZ_MIXED"@, 0));
                reveal_strlit("CQWAZ_CW");
                assert(differ_at("WAIP"@, "CQWAZ_CW"@, 0));
                reveal_strlit("CQWAZ_PHONE");
                assert(differ_at("WAIP"@, "CQWAZ_PHONE"@, 0));
                reveal_strlit("CQWAZ_RTTY");
                assert(differ_at("WAIP"@, "CQWAZ_RTTY"@, 0));
                reveal_strlit("CQWAZ_160M");
                assert(differ_at("WAIP"@, "CQWAZ_160M"@, 0));
                reveal_strlit("CQWPX");
                assert(differ_at("WAIP"@, "CQWPX"@, 0));
                reveal_strlit("DARC_DOK");
                assert(differ_at("WAIP"@, "DARC_DOK"@, 0));
                reveal_strlit("DXCC");
                assert(differ_at("WAIP"@, "DXCC"@, 0));
                reveal_strlit("DXCC_MIXED");
                assert(differ_at("WAIP"@, "DXCC_MIXED"@, 0));
                reveal_strlit("DXCC_CW");
                assert(differ_at("WAIP"@, "DXCC_CW"@, 0));
                reveal_strlit("DXCC_PHONE");
                assert(differ_at("WAIP"@, "DXCC_PHONE"@, 0));
                reveal_strlit("DXCC_RTTY");
                assert(differ_at("WAIP"@, "DXCC_RTTY"@, 0));
                reveal_strlit("IOTA");
                assert(differ_at("WAIP"@, "IOTA"@, 0));
                reveal_strlit("JCC");
                assert(differ_at("WAIP"@, "JCC"@, 0));
                reveal_strlit("JCG");
                assert(differ_at("WAIP"@, "JCG"@, 0));
                reveal_strlit("MARATHON");
                assert(differ_at("WAIP"@, "MARATHON"@, 0));
                reveal_strlit("RDA");
                assert(differ_at("WAIP"@, "RDA"@, 0));
                reveal_strlit("WAB");
                assert(differ_at("WAIP"@, "WAB"@, 0));
                reveal_strlit("WAC");
                assert(differ_at("WAIP"@, "WAC"@, 0));
                reveal_strlit("WAE");
                assert(differ_at("WAIP"@, "WAE"@, 0));
                assert(token_chars("WAIP"@));
            },
            Award::WAJA => {
                reveal_strlit("WAJA");
                reveal_strlit("AJA");
                assert(differ_at("WAJA"@, "AJA"@, 0));
                reveal_strlit("CQDX");
                assert(differ_at("WAJA"@, "CQDX"@, 0));
                reveal_strlit("CQDXFIELD");
                assert(differ_at("WAJA"@, "CQDXFIELD"@, 0));
                reveal_strlit("CQWAZ_MIXED");
                assert(differ_at("WAJA"@, "CQWAZ_MIXED"@, 0));
                reveal_strlit("CQWAZ_CW");
                assert(differ_at("WAJA"@, "CQWAZ_CW"@, 0));
                reveal_strlit("CQWAZ_PHONE");
                assert(differ_at("WAJA"@, "CQWAZ_PHONE"@, 0));
                reveal_strlit("CQWAZ_RTTY");
                assert(differ_at("WAJA"@, "CQWAZ_RTTY"@, 0));
                reveal_strlit("CQWAZ_160M");
                assert(differ_at("WAJA"@, "CQWAZ_160M"@, 0));
                reveal_strlit("CQWPX");
                assert(differ_at("WAJA"@, "CQWPX"@, 0));
                reveal_strlit("DARC_DOK");
                assert(differ_at("WAJA"@, "DARC_DOK"@, 0));
                reveal_strlit("DXCC");
                assert(differ_at("WAJA"@, "DXCC"@, 0));
                reveal_strlit("DXCC_MIXED");
                assert(differ_at("WAJA"@, "DXCC_MIXED"@, 0));
                reveal_strlit("DXCC_CW");
                assert(differ_at("WAJA"@, "DXCC_CW"@, 0));
                reveal_strlit("DXCC_PHONE");
                assert(differ_at("WAJA"@, "DXCC_PHONE"@, 0));
                reveal_strlit("DXCC_RTTY");
                assert(differ_at("WAJA"@, "DXCC_RTTY"@, 0));
                reveal_strlit("IOTA");
                assert(differ_at("WAJA"@, "IOTA"@, 0));
                reveal_strlit("JCC");
                assert(differ_at("WAJA"@, "JCC"@, 0));
                reveal_strlit("JCG");
                assert(differ_at("WAJA"@, "JCG"@, 0));
                reveal_strlit("MARATHON");
                assert(differ_at("WAJA"@, "MARATHON"@, 0));
                reveal_strlit("RDA");
                assert(differ_at("WAJA"@, "RDA"@, 0));
                reveal_strlit("WAB");
                assert(differ_at("WAJA"@, "WAB"@, 0));
                reveal_strlit("WAC");
                assert(differ_at("WAJA"@, "WAC"@, 0));
                reveal_strlit("WAE");
                assert(differ_at("WAJA"@, "WAE"@, 0));
                reveal_strlit("WAIP");
                assert(differ_at("WAJA"@, "WAIP"@, 2));
                assert(token_chars("WAJA"@));
            },
            Award::WAS => {
                reveal_strlit("WAS");
                reveal_strlit("AJA");
                assert(differ_at("WAS"@, "AJA"@, 0));
                reveal_strlit("CQDX");
                assert(differ_at("WAS"@, "CQDX"@, 0));
                reveal_strlit("CQDXFIELD");
                assert(differ_at("WAS"@, "CQDXFIELD"@, 0));
                reveal_strlit("CQWAZ_MIXED");
                assert(differ_at("WAS"@, "CQWAZ_MIXED"@, 0));
                reveal_strlit("CQWAZ_CW");
                assert(differ_at("WAS"@, "CQWAZ_CW"@, 0));
                reveal_strlit("CQWAZ_PHONE");
                assert(differ_at("WAS"@, "CQWAZ_PHONE"@, 0));
                reveal_strlit("CQWAZ_RTTY");
                assert(differ_at("WAS"@, "CQWAZ_RTTY"@, 0));
                reveal_strlit("CQWAZ_160M");
                assert(differ_at("WAS"@, "CQWAZ_160M"@, 0));
                reveal_strlit("CQWPX");
                assert(differ_at("WAS"@, "CQWPX"@, 0));
                reveal_strlit("DARC_DOK");
                assert(differ_at("WAS"@, "DARC_DOK"@, 0));
                reveal_strlit("DXCC");
                assert(differ_at("WAS"@, "DXCC"@, 0));
                reveal_strlit("DXCC_MIXED");
                assert(differ_at("WAS"@, "DXCC_MIXED"@, 0));
                reveal_strlit("DXCC_CW");
                assert(differ_at("WAS"@, "DXCC_CW"@, 0));
                reveal_strlit("DXCC_PHONE");
                assert(differ_at("WAS"@, "DXCC_PHONE"@, 0));
                reveal_strlit("DXCC_RTTY");
                assert(differ_at("WAS"@, "DXCC_RTTY"@, 0));
                reveal_strlit("IOTA");
                assert(differ_at("WAS"@, "IOTA"@, 0));
                reveal_strlit("JCC");
                assert(differ_at("WAS"@, "JCC"@, 0));
                reveal_strlit("JCG");
                assert(differ_at("WAS"@, "JCG"@, 0));
                reveal_strlit("MARATHON");
                assert(differ_at("WAS"@, "MARATHON"@, 0));
                reveal_strlit("RDA");
                assert(differ_at("WAS"@, "RDA"@, 0));
                reveal_strlit("WAB");
                assert(differ_at("WAS"@, "WAB"@, 2));
                reveal_strlit("WAC");
                assert(differ_at("WAS"@, "WAC"@, 2));
                reveal_strlit("WAE");
                assert(differ_at("WAS"@, "WAE"@, 2));
                reveal_strlit("WAIP");
                assert(differ_at("WAS"@, "WAIP"@, 0));
                reveal_strlit("WAJA");
                assert(differ_at("WAS"@, "WAJA"@, 0));
                assert(token_chars("WAS"@));
            },
            Award::WAZ => {
                reveal_strlit("WAZ");
                reveal_strlit("AJA");
                assert(differ_at("WAZ"@, "AJA"@, 0));
                reveal_strlit("CQDX");
                assert(differ_at("WAZ"@, "CQDX"@, 0));
                reveal_strlit("CQDXFIELD");
                assert(differ_at("WAZ"@, "CQDXFIELD"@, 0));
                reveal_strlit("CQWAZ_MIXED");
                assert(differ_at("WAZ"@, "CQWAZ_MIXED"@, 0));
                reveal_strlit("CQWAZ_CW");
                assert(differ_at("WAZ"@, "CQWAZ_CW"@, 0));
                reveal_strlit("CQWAZ_PHONE");
                assert(differ_at("WAZ"@, "CQWAZ_PHONE"@, 0));
                reveal_strlit("CQWAZ_RTTY");
                assert(differ_at("WAZ"@, "CQWAZ_RTTY"@, 0));
                reveal_strlit("CQWAZ_160M");
                assert(differ_at("WAZ"@, "CQWAZ_160M"@, 0));
                reveal_strlit("CQWPX");
                assert(differ_at("WAZ"@, "CQWPX"@, 0));
                reveal_strlit("DARC_DOK");
                assert(differ_at("WAZ"@, "DARC_DOK"@, 0));
                reveal_strlit("DXCC");
                assert(differ_at("WAZ"@, "DXCC"@, 0));
                reveal_strlit("DXCC_MIXED");
                assert(differ_at("WAZ"@, "DXCC_MIXED"@, 0));
                reveal_strlit("DXCC_CW");
                assert(differ_at("WAZ"@, "DXCC_CW"@, 0));
                reveal_strlit("DXCC_PHONE");
                assert(differ_at("WAZ"@, "DXCC_PHONE"@, 0));
                reveal_strlit("DXCC_RTTY");
                assert(differ_at("WAZ"@, "DXCC_RTTY"@, 0));
                reveal_strlit("IOTA");
                assert(differ_at("WAZ"@, "IOTA"@, 0));
                reveal_strlit("JCC");
                assert(differ_at("WAZ"@, "JCC"@, 0));
                reveal_strlit("JCG");
                assert(differ_at("WAZ"@, "JCG"@, 0));
                reveal_strlit("MARATHON");
                assert(differ_at("WAZ"@, "MARATHON"@, 0));
                reveal_strlit("RDA");
                assert(differ_at("WAZ"@, "RDA"@, 0));
                reveal_strlit("WAB");
                assert(differ_at("WAZ"@, "WAB"@, 2));
                reveal_strlit("WAC");
                assert(differ_at("WAZ"@, "WAC"@, 2));
                reveal_strlit("WAE");
                assert(differ_at("WAZ"@, "WAE"@, 2));
                reveal_strlit("WAIP");
                assert(differ_at("WAZ"@, "WAIP"@, 0));
                reveal_strlit("WAJA");
                assert(differ_at("WAZ"@, "WAJA"@, 0));
                reveal_strlit("WAS");
                assert(differ_at("WAZ"@, "WAS"@, 2));
                assert(token_chars("WAZ"@));
            },
            Award::USACA => {
                reveal_strlit("USACA");
                reveal_strlit("AJA");
                assert(differ_at("USACA"@, "AJA"@, 0));
                reveal_strlit("CQDX");
                assert(differ_at("USACA"@, "CQDX"@, 0));
                reveal_strlit("CQDXFIELD");
                assert(differ_at("USACA"@, "CQDXFIELD"@, 0));
                reveal_strlit("CQWAZ_MIXED");
                assert(differ_at("USACA"@, "CQWAZ_MIXED"@, 0));
                reveal_strlit("CQWAZ_CW");
                assert(differ_at("USACA"@, "CQWAZ_CW"@, 0));
                reveal_strlit("CQWAZ_PHONE");
                assert(differ_at("USACA"@, "CQWAZ_PHONE"@, 0));
                reveal_strlit("CQWAZ_RTTY");
                assert(differ_at("USACA"@, "CQWAZ_RTTY"@, 0));
                reveal_strlit("CQWAZ_160M");
                assert(differ_at("USACA"@, "CQWAZ_160M"@, 0));
                reveal_strlit("CQWPX");
                assert(differ_at("USACA"@, "CQWPX"@, 0));
                reveal_strlit("DARC_DOK");
                assert(differ_at("USACA"@, "DARC_DOK"@, 0));
                reveal_strlit("DXCC");
                assert(differ_at("USACA"@, "DXCC"@, 0));
                reveal_strlit("DXCC_MIXED");
                assert(differ_at("USACA"@, "DXCC_MIXED"@, 0));
                reveal_strlit("DXCC_CW");
                assert(differ_at("USACA"@, "DXCC_CW"@, 0));
                reveal_strlit("DXCC_PHONE");
                assert(differ_at("USACA"@, "DXCC_PHONE"@, 0));
                reveal_strlit("DXCC_RTTY");
                assert(differ_at("USACA"@, "DXCC_RTTY"@, 0));
                reveal_strlit("IOTA");
                assert(differ_at("USACA"@, "IOTA"@, 0));
                reveal_strlit("JCC");
                assert(differ_at("USACA"@, "JCC"@, 0));
                reveal_strlit("JCG");
                assert(differ_at("USACA"@, "JCG"@, 0));
                reveal_strlit("MARATHON");
                assert(differ_at("USACA"@, "MARATHON"@, 0));
                reveal_strlit("RDA");
                assert(differ_at("USACA"@, "RDA"@, 0));
                reveal_strlit("WAB");
                assert(differ_at("USACA"@, "WAB"@, 0));
                reveal_strlit("WAC");
                assert(differ_at("USACA"@, "WAC"@, 0));
                reveal_strlit("WAE");
                assert(differ_at("USACA"@, "WAE"@, 0));
                reveal_strlit("WAIP");
                assert(differ_at("USACA"@, "WAIP"@, 0));
                reveal_strlit("WAJA");
                assert(differ_at("USACA"@, "WAJA"@, 0));
                reveal_strlit("WAS");
                assert(differ_at("USACA"@, "WAS"@, 0));
                reveal_strlit("WAZ");
                assert(differ_at("USACA"@, "WAZ"@, 0));
                assert(token_chars("USACA"@));
            },
            Award::VUCC => {
                reveal_strlit("VUCC");
                reveal_strlit("AJA");
                assert(differ_at("VUCC"@, "AJA"@, 0));
                reveal_strlit("CQDX");
                assert(differ_at("VUCC"@, "CQDX"@, 0));
                reveal_strlit("CQDXFIELD");
                assert(differ_at("VUCC"@, "CQDXFIELD"@, 0));
                reveal_strlit("CQWAZ_MIXED");
                assert(differ_at("VUCC"@, "CQWAZ_MIXED"@, 0));
                reveal_strlit("CQWAZ_CW");
                assert(differ_at("VUCC"@, "CQWAZ_CW"@, 0));
                reveal_strlit("CQWAZ_PHONE");
                assert(differ_at("VUCC"@, "CQWAZ_PHONE"@, 0));
                reveal_strlit("CQWAZ_RTTY");
                assert(differ_at("VUCC"@, "CQWAZ_RTTY"@, 0));
                reveal_strlit("CQWAZ_160M");
                assert(differ_at("VUCC"@, "CQWAZ_160M"@, 0));
                reveal_strlit("CQWPX");
                assert(differ_at("VUCC"@, "CQWPX"@, 0));
                reveal_strlit("DARC_DOK");
                assert(differ_at("VUCC"@, "DARC_DOK"@, 0));
                reveal_strlit("DXCC");
                assert(differ_at("VUCC"@, "DXCC"@, 0));
                reveal_strlit("DXCC_MIXED");
                assert(differ_at("VUCC"@, "DXCC_MIXED"@, 0));
                reveal_strlit("DXCC_CW");
                assert(differ_at("VUCC"@, "DXCC_CW"@, 0));
                reveal_strlit("DXCC_PHONE");
                assert(differ_at("VUCC"@, "DXCC_PHONE"@, 0));
                reveal_strlit("DXCC_RTTY");
                assert(differ_at("VUCC"@, "DXCC_RTTY"@, 0));
                reveal_strlit("IOTA");
                assert(differ_at("VUCC"@, "IOTA"@, 0));
                reveal_strlit("JCC");
                assert(differ_at("VUCC"@, "JCC"@, 0));
                reveal_strlit("JCG");
                assert(differ_at("VUCC"@, "JCG"@, 0));
                reveal_strlit("MARATHON");
                assert(differ_at("VUCC"@, "MARATHON"@, 0));
                reveal_strlit("RDA");
                assert(differ_at("VUCC"@, "RDA"@, 0));
                reveal_strlit("WAB");
                assert(differ_at("VUCC"@, "WAB"@, 0));
                reveal_strlit("WAC");
                assert(differ_at("VUCC"@, "WAC"@, 0));
                reveal_strlit("WAE");
                assert(differ_at("VUCC"@, "WAE"@, 0));
                reveal_strlit("WAIP");
                assert(differ_at("VUCC"@, "WAIP"@, 0));
                reveal_strlit("WAJA");
                assert(differ_at("VUCC"@, "WAJA"@, 0));
                reveal_strlit("WAS");
                assert(differ_at("VUCC"@, "WAS"@, 0));
                reveal_strlit("WAZ");
                assert(differ_at("VUCC"@, "WAZ"@, 0));
                reveal_strlit("USACA");
                assert(differ_at("VUCC"@, "USACA"@, 0));
                assert(token_chars("VUCC"@));
            },
        }
    }
}

impl Award {
    pub fn serialize(&self) -> (r: String)
        ensures
            r@ == self.spec_token(),
    {
        token_string(self)
    }

    pub fn deserialize(value: &str) -> (r: Result<Award, AdifError>)
        ensures
            match r {
                Ok(v) => Award::spec_from_token(value@) == Some(v),
                Err(e) => Award::spec_from_token(value@) is None && e.kind
                    == ErrorKind::UnknownEnumerationToken,
            },
    {
        parse_token(value)
    }
}

/// Amateur radio bands, by wavelength.
#[allow(non_camel_case_types)]
#[derive(Clone, Copy, Debug, PartialEq, Eq, Hash, Structural)]
pub enum Band {
    Band2190m,
    Band630m,
    Band560m,
    Band160m,
    Band80m,
    Band60m,
    Band40m,
    Band30m,
    Band20m,
    Band17m,
    Band15m,
    Band12m,
    Band10m,
    Band8m,
    Band6m,
    Band5m,
    Band4m,
    Band2m,
    Band1_25m,
    Band70cm,
    Band33cm,
    Band23cm,
    Band13cm,
    Band9cm,
    Band6cm,
    Band3cm,
    Band1_25cm,
    Band6mm,
    Band4mm,
    Band2_5mm,
    Band2mm,
    Band1mm,
    Bandsubmm,
}

impl View for Band {
    type V = Band;

    open spec fn view(&self) -> Band {
        *self
    }
}

impl Vocabulary for Band {
    open spec fn spec_token(self) -> Seq<char> {
        match self {
            Band::Band2190m => "2190M"@,
            Band::Band630m => "630M"@,
            Band::Band560m => "560M"@,
            Band::Band160m => "160M"@,
            Band::Band80m => "80M"@,
            Band::Band60m => "60M"@,
            Band::Band40m => "40M"@,
            Band::Band30m => "30M"@,
            Band::Band20m => "20M"@,
            Band::Band17m => "17M"@,
            Band::Band15m => "15M"@,
            Band::Band12m => "12M"@,
            Band::Band10m => "10M"@,
            Band::Band8m => "8M"@,
            Band::Band6m => "6M"@,
            Band::Band5m => "5M"@,
            Band::Band4m => "4M"@,
            Band::Band2m => "2M"@,
            Band::Band1_25m => "1.25M"@,
            Band::Band70cm => "70CM"@,
            Band::Band33cm => "33CM"@,
            Band::Band23cm => "23CM"@,
            Band::Band13cm => "13CM"@,
            Band::Band9cm => "9CM"@,
            Band::Band6cm => "6CM"@,
            Band::Band3cm => "3CM"@,
            Band::Band1_25cm => "1.25CM"@,
            Band::Band6mm => "6MM"@,
            Band::Band4mm => "4MM"@,
            Band::Band2_5mm => "2.5MM"@,
            Band::Band2mm => "2MM"@,
            Band::Band1mm => "1MM"@,
            Band::Bandsubmm => "SUBMM"@,
        }
    }

    closed spec fn spec_from_token(s: Seq<char>) -> Option<Band> {
        if s == "2190M"@ {
            Some(Band::Band2190m)
        } else if s == "630M"@ {
            Some(Band::Band630m)
        } else if s == "560M"@ {
            Some(Band::Band560m)
        } else if s == "160M"@ {
            Some(Band::Band160m)
        } else if s == "80M"@ {
            Some(Band::Band80m)
        } else if s == "60M"@ {
            Some(Band::Band60m)
        } else if s == "40M"@ {
            Some(Band::Band40m)
        } else if s == "30M"@ {
            Some(Band::Band30m)
        } else if s == "20M"@ {
            Some(Band::Band20m)
        } else if s == "17M"@ {
            Some(Band::Band17m)
        } else if s == "15M"@ {
            Some(Band::Band15m)
        } else if s == "12M"@ {
            Some(Band::Band12m)
        } else if s == "10M"@ {
            Some(Band::Band10m)
        } else if s == "8M"@ {
            Some(Band::Band8m)
        } else if s == "6M"@ {
            Some(Band::Band6m)
        } else if s == "5M"@ {
            Some(Band::Band5m)
        } else if s == "4M"@ {
            Some(Band::Band4m)
        } else if s == "2M"@ {
            Some(Band::Band2m)
        } else if s == "1.25M"@ {
            Some(Band::Band1_25m)
        } else if s == "70CM"@ {
            Some(Band::Band70cm)
        } else if s == "33CM"@ {
            Some(Band::Band33cm)
        } else if s == "23CM"@ {
            Some(Band::Band23cm)
        } else if s == "13CM"@ {
            Some(Band::Band13cm)
        } else if s == "9CM"@ {
            Some(Band::Band9cm)
        } else if s == "6CM"@ {
            Some(Band::Band6cm)
        } else if s == "3CM"@ {
            Some(Band::Band3cm)
        } else if s == "1.25CM"@ {
            Some(Band::Band1_25cm)
        } else if s == "6MM"@ {
            Some(Band::Band6mm)
        } else if s == "4MM"@ {
            Some(Band::Band4mm)
        } else if s == "2.5MM"@ {
            Some(Band::Band2_5mm)
        } else if s == "2MM"@ {
            Some(Band::Band2mm)
        } else if s == "1MM"@ {
            Some(Band::Band1mm)
        } else if s == "SUBMM"@ {
            Some(Band::Bandsubmm)
        } else {
            None
        }
    }

    fn push_token(&self, out: &mut Vec<char>) {
        match self {
            Band::Band2190m => append_str(out, "2190M"),
            Band::Band630m => append_str(out, "630M"),
            Band::Band560m => append_str(out, "560M"),
            Band::Band160m => append_str(out, "160M"),
            Band::Band80m => append_str(out, "80M"),
            Band::Band60m => append_str(out, "60M"),
            Band::Band40m => append_str(out, "40M"),
            Band::Band30m => append_str(out, "30M"),
            Band::Band20m => append_str(out, "20M"),
            Band::Band17m => append_str(out, "17M"),
            Band::Band15m => append_str(out, "15M"),
            Band::Band12m => append_str(out, "12M"),
            Band::Band10m => append_str(out, "10M"),
            Band::Band8m => append_str(out, "8M"),
            Band::Band6m => append_str(out, "6M"),
            Band::Band5m => append_str(out, "5M"),
            Band::Band4m => append_str(out, "4M"),
            Band::Band2m => append_str(out, "2M"),
            Band::Band1_25m => append_str(out, "1.25M"),
            Band::Band70cm => append_str(out, "70CM"),
            Band::Band33cm => append_str(out, "33CM"),
            Band::Band23cm => append_str(out, "23CM"),
            Band::Band13cm => append_str(out, "13CM"),
            Band::Band9cm => append_str(out, "9CM"),
            Band::Band6cm => append_str(out, "6CM"),
            Band::Band3cm => append_str(out, "3CM"),
            Band::Band1_25cm => append_str(out, "1.25CM"),
            Band::Band6mm => append_str(out, "6MM"),
            Band::Band4mm => append_str(out, "4MM"),
            Band::Band2_5mm => append_str(out, "2.5MM"),
            Band::Band2mm => append_str(out, "2MM"),
            Band::Band1mm => append_str(out, "1MM"),
            Band::Bandsubmm => append_str(out, "SUBMM"),
        }
    }

    fn from_token(s: &[char]) -> (r: Option<Band>) {
        if chars_eq_str(s, "2190M") {
            Some(Band::Band2190m)
        } else if chars_eq_str(s, "630M") {
            Some(Band::Band630m)
        } else if chars_eq_str(s, "560M") {
            Some(Band::Band560m)
        } else if chars_eq_str(s, "160M") {
            Some(Band::Band160m)
        } else if chars_eq_str(s, "80M") {
            Some(Band::Band80m)
        } else if chars_eq_str(s, "60M") {
            Some(Band::Band60m)
        } else if chars_eq_str(s, "40M") {
            Some(Band::Band40m)
        } else if chars_eq_str(s, "30M") {
            Some(Band::Band30m)
        } else if chars_eq_str(s, "20M") {
            Some(Band::Band20m)
        } else if chars_eq_str(s, "17M") {
            Some(Band::Band17m)
        } else if chars_eq_str(s, "15M") {
            Some(Band::Band15m)
        } else if chars_eq_str(s, "12M") {
            Some(Band::Band12m)
        } else if chars_eq_str(s, "10M") {
            Some(Band::Band10m)
        } else if chars_eq_str(s, "8M") {
            Some(Band::Band8m)
        } else if chars_eq_str(s, "6M") {
            Some(Band::Band6m)
        } else if chars_eq_str(s, "5M") {
            Some(Band::Band5m)
        } else if chars_eq_str(s, "4M") {
            Some(Band::Band4m)
        } else if chars_eq_str(s, "2M") {
            Some(Band::Band2m)
        } else if chars_eq_str(s, "1.25M") {
            Some(Band::Band1_25m)
        } else if chars_eq_str(s, "70CM") {
            Some(Band::Band70cm)
        } else if chars_eq_str(s, "33CM") {
            Some(Band::Band33cm)
        } else if chars_eq_str(s, "23CM") {
            Some(Band::Band23cm)
        } else if chars_eq_str(s, "13CM") {
            Some(Band::Band13cm)
        } else if chars_eq_str(s, "9CM") {
            Some(Band::Band9cm)
        } else if chars_eq_str(s, "6CM") {
            Some(Band::Band6cm)
        } else if chars_eq_str(s, "3CM") {
            Some(Band::Band3cm)
        } else if chars_eq_str(s, "1.25CM") {
            Some(Band::Band1_25cm)
        } else if chars_eq_str(s, "6MM") {
            Some(Band::Band6mm)
        } else if chars_eq_str(s, "4MM") {
            Some(Band::Band4mm)
        } else if chars_eq_str(s, "2.5MM") {
            Some(Band::Band2_5mm)
        } else if chars_eq_str(s, "2MM") {
            Some(Band::Band2mm)
        } else if chars_eq_str(s, "1MM") {
            Some(Band::Band1mm)
        } else if chars_eq_str(s, "SUBMM") {
            Some(Band::Bandsubmm)
        } else {
            None
        }
    }

    proof fn lemma_from_token(s: Seq<char>) {
    }

    proof fn lemma_token(self) {
        match self {
            Band::Band2190m => {
                reveal_strlit("2190M");
                assert(token_chars("2190M"@));
            },
            Band::Band630m => {
                reveal_strlit("630M");
                reveal_strlit("2190M");
                assert(differ_at("630M"@, "2190M"@, 0));
                assert(token_chars("630M"@));
            },
            Band::Band560m => {
                reveal_strlit("560M");
                reveal_strlit("2190M");
                assert(differ_at("560M"@, "2190M"@, 0));
                reveal_strlit("630M");
                assert(differ_at("560M"@, "630M"@, 0));
                assert(token_chars("560M"@));
            },
            Band::Band160m => {
                reveal_strlit("160M");
                reveal_strlit("2190M");
                assert(differ_at("160M"@, "2190M"@, 0));
                reveal_strlit("630M");
                assert(differ_at("160M"@, "630M"@, 0));
                reveal_strlit("560M");
                assert(differ_at("160M"@, "560M"@, 0));
                assert(token_chars("160M"@));
            },
            Band::Band80m => {
                reveal_strlit("80M");
                reveal_strlit("2190M");
                assert(differ_at("80M"@, "2190M"@, 0));
                reveal_strlit("630M");
                assert(differ_at("80M"@, "630M"@, 0));
                reveal_strlit("560M");
                assert(differ_at("80M"@, "560M"@, 0));
                reveal_strlit("160M");
                assert(differ_at("80M"@, "160M"@, 0));
                assert(token_chars("80M"@));
            },
            Band::Band60m => {
                reveal_strlit("60M");
                reveal_strlit("2190M");
                assert(differ_at("60M"@, "2190M"@, 0));
                reveal_strlit("630M");
                assert(differ_at("60M"@, "630M"@, 0));
                reveal_strlit("560M");
                assert(differ_at("60M"@, "560M"@, 0));
                reveal_strlit("160M");
                assert(differ_at("60M"@, "160M"@, 0));
                reveal_strlit("80M");
                assert(differ_at("60M"@, "80M"@, 0));
                assert(token_chars("60M"@));
            },
            Band::Band40m => {
                reveal_strlit("40M");
                reveal_strlit("2190M");
                assert(differ_at("40M"@, "2190M"@, 0));
                reveal_strlit("630M");
                assert(differ_at("40M"@, "630M"@, 0));
                reveal_strlit("560M");
                assert(differ_at("40M"@, "560M"@, 0));
                reveal_strlit("160M");
                assert(differ_at("40M"@, "160M"@, 0));
                reveal_strlit("80M");
                assert(differ_at("40M"@, "80M"@, 0));
                reveal_strlit("60M");
                assert(differ_at("40M"@, "60M"@, 0));
                assert(token_chars("40M"@));
            },
            Band::Band30m => {
                reveal_strlit("30M");
                reveal_strlit("2190M");
                assert(differ_at("30M"@, "2190M"@, 0));
                reveal_strlit("630M");
                assert(differ_at("30M"@, "630M"@, 0));
                reveal_strlit("560M");
                assert(differ_at("30M"@, "560M"@, 0));
                reveal_strlit("160M");
                assert(differ_at("30M"@, "160M"@, 0));
                reveal_strlit("80M");
                assert(differ_at("30M"@, "80M"@, 0));
                reveal_strlit("60M");
                assert(differ_at("30M"@, "60M"@, 0));
                reveal_strlit("40M");
                assert(differ_at("30M"@, "40M"@, 0));
                assert(token_chars("30M"@));
            },
            Band::Band20m => {
                reveal_strlit("20M");
                reveal_strlit("2190M");
                assert(differ_at("20M"@, "2190M"@, 0));
                reveal_strlit("630M");
                assert(differ_at("20M"@, "630M"@, 0));
                reveal_strlit("560M");
                assert(differ_at("20M"@, "560M"@, 0));
                reveal_strlit("160M");
                assert(differ_at("20M"@, "160M"@, 0));
                reveal_strlit("80M");
                assert(differ_at("20M"@, "80M"@, 0));
                reveal_strlit("60M");
                assert(differ_at("20M"@, "60M"@, 0));
                reveal_strlit("40M");
                assert(differ_at("20M"@, "40M"@, 0));
                reveal_strlit("30M");
                assert(differ_at("20M"@, "30M"@, 0));
                assert(token_chars("20M"@));
            },
            Band::Band17m => {
                reveal_strlit("17M");
                reveal_strlit("2190M");
                assert(differ_at("17M"@, "2190M"@, 0));
                reveal_strlit("630M");
                assert(differ_at("17M"@, "630M"@, 0));
                reveal_strlit("560M");
                assert(differ_at("17M"@, "560M"@, 0));
                reveal_strlit("160M");
                assert(differ_at("17M"@, "160M"@, 0));
                reveal_strlit("80M");
                assert(differ_at("17M"@, "80M"@, 0));
                reveal_strlit("60M");
                assert(differ_at("17M"@, "60M"@, 0));
                reveal_strlit("40M");
                assert(differ_at("17M"@, "40M"@, 0));
                reveal_strlit("30M");
                assert(differ_at("17M"@, "30M"@, 0));
                reveal_strlit("20M");
                assert(differ_at("17M"@, "20M"@, 0));
                assert(token_chars("17M"@));
            },
            Band::Band15m => {
                reveal_strlit("15M");
                reveal_strlit("2190M");
                assert(differ_at("15M"@, "2190M"@, 0));
                reveal_strlit("630M");
                assert(differ_at("15M"@, "630M"@, 0));
                reveal_strlit("560M");
                assert(differ_at("15M"@, "560M"@, 0));
                reveal_strlit("160M");
                assert(differ_at("15M"@, "160M"@, 0));
                reveal_strlit("80M");
                assert(differ_at("15M"@, "80M"@, 0));
                reveal_strlit("60M");
                assert(differ_at("15M"@, "60M"@, 0));
                reveal_strlit("40M");
                assert(differ_at("15M"@, "40M"@, 0));
                reveal_strlit("30M");
                assert(differ_at("15M"@, "30M"@, 0));
                reveal_strlit("20M");
                assert(differ_at("15M"@, "20M"@, 0));
                reveal_strlit("17M");
                assert(differ_at("15M"@, "17M"@, 1));
                assert(token_chars("15M"@));
            },
            Band::Band12m => {
                reveal_strlit("12M");
                reveal_strlit("2190M");
                assert(differ_at("12M"@, "2190M"@, 0));
                reveal_strlit("630M");
                assert(differ_at("12M"@, "630M"@, 0));
                reveal_strlit("560M");
                assert(differ_at("12M"@, "560M"@, 0));
                reveal_strlit("160M");
                assert(differ_at("12M"@, "160M"@, 0));
                reveal_strlit("80M");
                assert(differ_at("12M"@, "80M"@, 0));
                reveal_strlit("60M");
                assert(differ_at("12M"@, "60M"@, 0));
                reveal_strlit("40M");
                assert(differ_at("12M"@, "40M"@, 0));
                reveal_strlit("30M");
                assert(differ_at("12M"@, "30M"@, 0));
                reveal_strlit("20M");
                assert(differ_at("12M"@, "20M"@, 0));
                reveal_strlit("17M");
                assert(differ_at("12M"@, "17M"@, 1));
                reveal_strlit("15M");
                assert(differ_at("12M"@, "15M"@, 1));
                assert(token_chars("12M"@));
            },
            Band::Band10m => {
                reveal_strlit("10M");
                reveal_strlit("2190M");
                assert(differ_at("10M"@, "2190M"@, 0));
                reveal_strlit("630M");
                assert(differ_at("10M"@, "630M"@, 0));
                reveal_strlit("560M");
                assert(differ_at("10M"@, "560M"@, 0));
                reveal_strlit("160M");
                assert(differ_at("10M"@, "160M"@, 0));
                reveal_strlit("80M");
                assert(differ_at("10M"@, "80M"@, 0));
                reveal_strlit("60M");
                assert(differ_at("10M"@, "60M"@, 0));
                reveal_strlit("40M");
                assert(differ_at("10M"@, "40M"@, 0));
                reveal_strlit("30M");
                assert(differ_at("10M"@, "30M"@, 0));
                reveal_strlit("20M");
                assert(differ_at("10M"@, "20M"@, 0));
                reveal_strlit("17M");
                assert(differ_at("10M"@, "17M"@, 1));
                reveal_strlit("15M");
                assert(differ_at("10M"@, "15M"@, 1));
                reveal_strlit("12M");
                assert(differ_at("10M"@, "12M"@, 1));
                assert(token_chars("10M"@));
            },
            Band::Band8m => {
                reveal_strlit("8M");
                reveal_strlit("2190M");
                assert(differ_at("8M"@, "2190M"@, 0));
                reveal_strlit("630M");
                assert(differ_at("8M"@, "630M"@, 0));
                reveal_strlit("560M");
                assert(differ_at("8M"@, "560M"@, 0));
                reveal_strlit("160M");
                assert(differ_at("8M"@, "160M"@, 0));
                reveal_strlit("80M");
                assert(differ_at("8M"@, "80M"@, 0));
                reveal_strlit("60M");
                assert(differ_at("8M"@, "60M"@, 0));
                reveal_strlit("40M");
                assert(differ_at("8M"@, "40M"@, 0));
                reveal_strlit("30M");
                assert(differ_at("8M"@, "30M"@, 0));
                reveal_strlit("20M");
                assert(differ_at("8M"@, "20M"@, 0));
                reveal_strlit("17M");
                assert(differ_at("8M"@, "17M"@, 0));
                reveal_strlit("15M");
                assert(differ_at("8M"@, "15M"@, 0));
                reveal_strlit("12M");
                assert(differ_at("8M"@, "12M"@, 0));
                reveal_strlit("10M");
                assert(differ_at("8M"@, "10M"@, 0));
                assert(token_chars("8M"@));
            },
            Band::Band6m => {
                reveal_strlit("6M");
                reveal_strlit("2190M");
                assert(differ_at("6M"@, "2190M"@, 0));
                reveal_strlit("630M");
                assert(differ_at("6M"@, "630M"@, 0));
                reveal_strlit("560M");
                assert(differ_at("6M"@, "560M"@, 0));
                reveal_strlit("160M");
                assert(differ_at("6M"@, "160M"@, 0));
                reveal_strlit("80M");
                assert(differ_at("6M"@, "80M"@, 0));
                reveal_strlit("60M");
                assert(differ_at("6M"@, "60M"@, 0));
                reveal_strlit("40M");
                assert(differ_at("6M"@, "40M"@, 0));
                reveal_strlit("30M");
                assert(differ_at("6M"@, "30M"@, 0));
                reveal_strlit("20M");
                assert(differ_at("6M"@, "20M"@, 0));
                reveal_strlit("17M");
                assert(differ_at("6M"@, "17M"@, 0));
                reveal_strlit("15M");
                assert(differ_at("6M"@, "15M"@, 0));
                reveal_strlit("12M");
                assert(differ_at("6M"@, "12M"@, 0));
                reveal_strlit("10M");
                assert(differ_at("6M"@, "10M"@, 0));
                reveal_strlit("8M");
                assert(differ_at("6M"@, "8M"@, 0));
                assert(token_chars("6M"@));
            },
            Band::Band5m => {
                reveal_strlit("5M");
                reveal_strlit("2190M");
                assert(differ_at("5M"@, "2190M"@, 0));
                reveal_strlit("630M");
                assert(differ_at("5M"@, "630M"@, 0));
                reveal_strlit("560M");
                assert(differ_at("5M"@, "560M"@, 0));
                reveal_strlit("160M");
                assert(differ_at("5M"@, "160M"@, 0));
                reveal_strlit("80M");
                assert(differ_at("5M"@, "80M"@, 0));
                reveal_strlit("60M");
                assert(differ_at("5M"@, "60M"@, 0));
                reveal_strlit("40M");
                assert(differ_at("5M"@, "40M"@, 0));
                reveal_strlit("30M");
                assert(differ_at("5M"@, "30M"@, 0));
                reveal_strlit("20M");
                assert(differ_at("5M"@, "20M"@, 0));
                reveal_strlit("17M");
                assert(differ_at("5M"@, "17M"@, 0));
                reveal_strlit("15M");
                assert(differ_at("5M"@, "15M"@, 0));
                reveal_strlit("12M");
                assert(differ_at("5M"@, "12M"@, 0));
                reveal_strlit("10M");
                assert(differ_at("5M"@, "10M"@, 0));
                reveal_strlit("8M");
                assert(differ_at("5M"@, "8M"@, 0));
                reveal_strlit("6M");
                assert(differ_at("5M"@, "6M"@, 0));
                assert(token_chars("5M"@));
            },
            Band::Band4m => {
                reveal_strlit("4M");
                reveal_strlit("2190M");
                assert(differ_at("4M"@, "2190M"@, 0));
                reveal_strlit("630M");
                assert(differ_at("4M"@, "630M"@, 0));
                reveal_strlit("560M");
                assert(differ_at("4M"@, "560M"@, 0));
                reveal_strlit("160M");
                assert(differ_at("4M"@, "160M"@, 0));
                reveal_strlit("80M");
                assert(differ_at("4M"@, "80M"@, 0));
                reveal_strlit("60M");
                assert(differ_at("4M"@, "60M"@, 0));
                reveal_strlit("40M");
                assert(differ_at("4M"@, "40M"@, 0));
                reveal_strlit("30M");
                assert(differ_at("4M"@, "30M"@, 0));
                reveal_strlit("20M");
                assert(differ_at("4M"@, "20M"@, 0));
                reveal_strlit("17M");
                assert(differ_at("4M"@, "17M"@, 0));
                reveal_strlit("15M");
                assert(differ_at("4M"@, "15M"@, 0));
                reveal_strlit("12M");
                assert(differ_at("4M"@, "12M"@, 0));
                reveal_strlit("10M");
                assert(differ_at("4M"@, "10M"@, 0));
                reveal_strlit("8M");
                assert(differ_at("4M"@, "8M"@, 0));
                reveal_strlit("6M");
                assert(differ_at("4M"@, "6M"@, 0));
                reveal_strlit("5M");
                assert(differ_at("4M"@, "5M"@, 0));
                assert(token_chars("4M"@));
            },
            Band::Band2m => {
                reveal_strlit("2M");
                reveal_strlit("2190M");
                assert(differ_at("2M"@, "2190M"@, 0));
                reveal_strlit("630M");
                assert(differ_at("2M"@, "630M"@, 0));
                reveal_strlit("560M");
                assert(differ_at("2M"@, "560M"@, 0));
                reveal_strlit("160M");
                assert(differ_at("2M"@, "160M"@, 0));
                reveal_strlit("80M");
                assert(differ_at("2M"@, "80M"@, 0));
                reveal_strlit("60M");
                assert(differ_at("2M"@, "60M"@, 0));
                reveal_strlit("40M");
                assert(differ_at("2M"@, "40M"@, 0));
                reveal_strlit("30M");
                assert(differ_at("2M"@, "30M"@, 0));
                reveal_strlit("20M");
                assert(differ_at("2M"@, "20M"@, 0));
                reveal_strlit("17M");
                assert(differ_at("2M"@, "17M"@, 0));
                reveal_strlit("15M");
                assert(differ_at("2M"@, "15M"@, 0));
                reveal_strlit("12M");
                assert(differ_at("2M"@, "12M"@, 0));
                reveal_strlit("10M");
                assert(differ_at("2M"@, "10M"@, 0));
                reveal_strlit("8M");
                assert(differ_at("2M"@, "8M"@, 0));
                reveal_strlit("6M");
                assert(differ_at("2M"@, "6M"@, 0));
                reveal_strlit("5M");
                assert(differ_at("2M"@, "5M"@, 0));
                reveal_strlit("4M");
                assert(differ_at("2M"@, "4M"@, 0));
                assert(token_chars("2M"@));
            },
            Band::Band1_25m => {
                reveal_strlit("1.25M");
                reveal_strlit("2190M");
                assert(differ_at("1.25M"@, "2190M"@, 0));
                reveal_strlit("630M");
                assert(differ_at("1.25M"@, "630M"@, 0));
                reveal_strlit("560M");
                assert(differ_at("1.25M"@, "560M"@, 0));
                reveal_strlit("160M");
                assert(differ_at("1.25M"@, "160M"@, 0));
                reveal_strlit("80M");
                assert(differ_at("1.25M"@, "80M"@, 0));
                reveal_strlit("60M");
                assert(differ_at("1.25M"@, "60M"@, 0));
                reveal_strlit("40M");
                assert(differ_at("1.25M"@, "40M"@, 0));
                reveal_strlit("30M");
                assert(differ_at("1.25M"@, "30M"@, 0));
                reveal_strlit("20M");
                assert(differ_at("1.25M"@, "20M"@, 0));
                reveal_strlit("17M");
                assert(differ_at("1.25M"@, "17M"@, 0));
                reveal_strlit("15M");
                assert(differ_at("1.25M"@, "15M"@, 0));
                reveal_strlit("12M");
                assert(differ_at("1.25M"@, "12M"@, 0));
                reveal_strlit("10M");
                assert(differ_at("1.25M"@, "10M"@, 0));
                reveal_strlit("8M");
                assert(differ_at("1.25M"@, "8M"@, 0));
                reveal_strlit("6M");
                assert(differ_at("1.25M"@, "6M"@, 0));
                reveal_strlit("5M");
                assert(differ_at("1.25M"@, "5M"@, 0));
                reveal_strlit("4M");
                assert(differ_at("1.25M"@, "4M"@, 0));
                reveal_strlit("2M");
                assert(differ_at("1.25M"@, "2M"@, 0));
                assert(token_chars("1.25M"@));
            },
            Band::Band70cm => {
                reveal_strlit("70CM");
                reveal_strlit("2190M");
                assert(differ_at("70CM"@, "2190M"@, 0));
                reveal_strlit("630M");
                assert(differ_at("70CM"@, "630M"@, 0));
                reveal_strlit("560M");
                assert(differ_at("70CM"@, "560M"@, 0));
                reveal_strlit("160M");
                assert(differ_at("70CM"@, "160M"@, 0));
                reveal_strlit("80M");
                assert(differ_at("70CM"@, "80M"@, 0));
                reveal_strlit("60M");
                assert(differ_at("70CM"@, "60M"@, 0));
                reveal_strlit("40M");
                assert(differ_at("70CM"@, "40M"@, 0));
                reveal_strlit("30M");
                assert(differ_at("70CM"@, "30M"@, 0));
                reveal_strlit("20M");
                assert(differ_at("70CM"@, "20M"@, 0));
                reveal_strlit("17M");
                assert(differ_at("70CM"@, "17M"@, 0));
                reveal_strlit("15M");
                assert(differ_at("70CM"@, "15M"@, 0));
                reveal_strlit("12M");
                assert(differ_at("70CM"@, "12M"@, 0));
                reveal_strlit("10M");
                assert(differ_at("70CM"@, "10M"@, 0));
                reveal_strlit("8M");
                assert(differ_at("70CM"@, "8M"@, 0));
                reveal_strlit("6M");
                assert(differ_at("70CM"@, "6M"@, 0));
                reveal_strlit("5M");
                assert(differ_at("70CM"@, "5M"@, 0));
                reveal_strlit("4M");
                assert(differ_at("70CM"@, "4M"@, 0));
                reveal_strlit("2M");
                assert(differ_at("70CM"@, "2M"@, 0));
                reveal_strlit("1.25M");
                assert(differ_at("70CM"@, "1.25M"@, 0));
                assert(token_chars("70CM"@));
            },
            Band::Band33cm => {
                reveal_strlit("33CM");
                reveal_strlit("2190M");
                assert(differ_at("33CM"@, "2190M"@, 0));
                reveal_strlit("630M");
                assert(differ_at("33CM"@, "630M"@, 0));
                reveal_strlit("560M");
                assert(differ_at("33CM"@, "560M"@, 0));
                reveal_strlit("160M");
                assert(differ_at("33CM"@, "160M"@, 0));
                reveal_strlit("80M");
                assert(differ_at("33CM"@, "80M"@, 0));
                reveal_strlit("60M");
                assert(differ_at("33CM"@, "60M"@, 0));
                reveal_strlit("40M");
                assert(differ_at("33CM"@, "40M"@, 0));
                reveal_strlit("30M");
                assert(differ_at("33CM"@, "30M"@, 0));
                reveal_strlit("20M");
                assert(differ_at("33CM"@, "20M"@, 0));
                reveal_strlit("17M");
                assert(differ_at("33CM"@, "17M"@, 0));
                reveal_strlit("15M");
                assert(differ_at("33CM"@, "15M"@, 0));
                reveal_strlit("12M");
                assert(differ_at("33CM"@, "12M"@, 0));
                reveal_strlit("10M");
                assert(differ_at("33CM"@, "10M"@, 0));
                reveal_strlit("8M");
                assert(differ_at("33CM"@, "8M"@, 0));
                reveal_strlit("6M");
                assert(differ_at("33CM"@, "6M"@, 0));
                reveal_strlit("5M");
                assert(differ_at("33CM"@, "5M"@, 0));
                reveal_strlit("4M");
                assert(differ_at("33CM"@, "4M"@, 0));
                reveal_strlit("2M");
                assert(differ_at("33CM"@, "2M"@, 0));
                reveal_strlit("1.25M");
                assert(differ_at("33CM"@, "1.25M"@, 0));
                reveal_strlit("70CM");
                assert(differ_at("33CM"@, "70CM"@, 0));
                assert(token_chars("33CM"@));
            },
            Band::Band23cm => {
                reveal_strlit("23CM");
                reveal_strlit("2190M");
                assert(differ_at("23CM"@, "2190M"@, 0));
                reveal_strlit("630M");
                assert(differ_at("23CM"@, "630M"@, 0));
                reveal_strlit("560M");
                assert(differ_at("23CM"@, "560M"@, 0));
                reveal_strlit("160M");
                assert(differ_at("23CM"@, "160M"@, 0));
                reveal_strlit("80M");
                assert(differ_at("23CM"@, "80M"@, 0));
                reveal_strlit("60M");
                assert(differ_at("23CM"@, "60M"@, 0));
                reveal_strlit("40M");
                assert(differ_at("23CM"@, "40M"@, 0));
                reveal_strlit("30M");
                assert(differ_at("23CM"@, "30M"@, 0));
                reveal_strlit("20M");
                assert(differ_at("23CM"@, "20M"@, 0));
                reveal_strlit("17M");
                assert(differ_at("23CM"@, "17M"@, 0));
                reveal_strlit("15M");
                assert(differ_at("23CM"@, "15M"@, 0));
                reveal_strlit("12M");
                assert(differ_at("23CM"@, "12M"@, 0));
                reveal_strlit("10M");
                assert(differ_at("23CM"@, "10M"@, 0));
                reveal_strlit("8M");
                assert(differ_at("23CM"@, "8M"@, 0));
                reveal_strlit("6M");
                assert(differ_at("23CM"@, "6M"@, 0));
                reveal_strlit("5M");
                assert(differ_at("23CM"@, "5M"@, 0));
                reveal_strlit("4M");
                assert(differ_at("23CM"@, "4M"@, 0));
                reveal_strlit("2M");
                assert(differ_at("23CM"@, "2M"@, 0));
                reveal_strlit("1.25M");
                assert(differ_at("23CM"@, "1.25M"@, 0));
                reveal_strlit("70CM");
                assert(differ_at("23CM"@, "70CM"@, 0));
                reveal_strlit("33CM");
                assert(differ_at("23CM"@, "33CM"@, 0));
                assert(token_chars("23CM"@));
            },
            Band::Band13cm => {
                reveal_strlit("13CM");
                reveal_strlit("2190M");
                assert(differ_at("13CM"@, "2190M"@, 0));
                reveal_strlit("630M");
                assert(differ_at("13CM"@, "630M"@, 0));
                reveal_strlit("560M");
                assert(differ_at("13CM"@, "560M"@, 0));
                reveal_strlit("160M");
                assert(differ_at("13CM"@, "160M"@, 1));
                reveal_strlit("80M");
                assert(differ_at("13CM"@, "80M"@, 0));
                reveal_strlit("60M");
                assert(differ_at("13CM"@, "60M"@, 0));
                reveal_strlit("40M");
                assert(differ_at("13CM"@, "40M"@, 0));
                reveal_strlit("30M");
                assert(differ_at("13CM"@, "30M"@, 0));
                reveal_strlit("20M");
                assert(differ_at("13CM"@, "20M"@, 0));
                reveal_strlit("17M");
                assert(differ_at("13CM"@, "17M"@, 0));
                reveal_strlit("15M");
                assert(differ_at("13CM"@, "15M"@, 0));
                reveal_strlit("12M");
                assert(differ_at("13CM"@, "12M"@, 0));
                reveal_strlit("10M");
                assert(differ_at("13CM"@, "10M"@, 0));
                reveal_strlit("8M");
                assert(differ_at("13CM"@, "8M"@, 0));
                reveal_strlit("6M");
                assert(differ_at("13CM"@, "6M"@, 0));
                reveal_strlit("5M");
                assert(differ_at("13CM"@, "5M"@, 0));
                reveal_strlit("4M");
                assert(differ_at("13CM"@, "4M"@, 0));
                reveal_strlit("2M");
                assert(differ_at("13CM"@, "2M"@, 0));
                reveal_strlit("1.25M");
                assert(differ_at("13CM"@, "1.25M"@, 0));
                reveal_strlit("70CM");
                assert(differ_at("13CM"@, "70CM"@, 0));
                reveal_strlit("33CM");
                assert(differ_at("13CM"@, "33CM"@, 0));
                reveal_strlit("23CM");
                assert(differ_at("13CM"@, "23CM"@, 0));
                assert(token_chars("13CM"@));
            },
            Band::Band9cm => {
                reveal_strlit("9CM");
                reveal_strlit("2190M");
                assert(differ_at("9CM"@, "2190M"@, 0));
                reveal_strlit("630M");
                assert(differ_at("9CM"@, "630M"@, 0));
                reveal_strlit("560M");
                assert(differ_at("9CM"@, "560M"@, 0));
                reveal_strlit("160M");
                assert(differ_at("9CM"@, "160M"@, 0));
                reveal_strlit("80M");
                assert(differ_at("9CM"@, "80M"@, 0));
                reveal_strlit("60M");
                assert(differ_at("9CM"@, "60M"@, 0));
                reveal_strlit("40M");
                assert(differ_at("9CM"@, "40M"@, 0));
                reveal_strlit("30M");
                assert(differ_at("9CM"@, "30M"@, 0));
                reveal_strlit("20M");
                assert(differ_at("9CM"@, "20M"@, 0));
                reveal_strlit("17M");
                assert(differ_at("9CM"@, "17M"@, 0));
                reveal_strlit("15M");
                assert(differ_at("9CM"@, "15M"@, 0));
                reveal_strlit("12M");
                assert(differ_at("9CM"@, "12M"@, 0));
                reveal_strlit("10M");
                assert(differ_at("9CM"@, "10M"@, 0));
                reveal_strlit("8M");
                assert(differ_at("9CM"@, "8M"@, 0));
                reveal_strlit("6M");
                assert(differ_at("9CM"@, "6M"@, 0));
                reveal_strlit("5M");
                assert(differ_at("9CM"@, "5M"@, 0));
                reveal_strlit("4M");
                assert(differ_at("9CM"@, "4M"@, 0));
                reveal_strlit("2M");
                assert(differ_at("9CM"@, "2M"@, 0));
                reveal_strlit("1.25M");
                assert(differ_at("9CM"@, "1.25M"@, 0));
                reveal_strlit("70CM");
                assert(differ_at("9CM"@, "70CM"@, 0));
                reveal_strlit("33CM");
                assert(differ_at("9CM"@, "33CM"@, 0));
                reveal_strlit("23CM");
                assert(differ_at("9CM"@, "23CM"@, 0));
                reveal_strlit("13CM");
                assert(differ_at("9CM"@, "13CM"@, 0));
                assert(token_chars("9CM"@));
            },
            Band::Band6cm => {
                reveal_strlit("6CM");
                reveal_strlit("2190M");
                assert(differ_at("6CM"@, "2190M"@, 0));
                reveal_strlit("630M");
                assert(differ_at("6CM"@, "630M"@, 0));
                reveal_strlit("560M");
                assert(differ_at("6CM"@, "560M"@, 0));
                reveal_strlit("160M");
                assert(differ_at("6CM"@, "160M"@, 0));
                reveal_strlit("80M");
                assert(differ_at("6CM"@, "80M"@, 0));
                reveal_strlit("60M");
                assert(differ_at("6CM"@, "60M"@, 1));
                reveal_strlit("40M");
                assert(differ_at("6CM"@, "40M"@, 0));
                reveal_strlit("30M");
                assert(differ_at("6CM"@, "30M"@, 0));
                reveal_strlit("20M");
                assert(differ_at("6CM"@, "20M"@, 0));
                reveal_strlit("17M");
                assert(differ_at("6CM"@, "17M"@, 0));
                reveal_strlit("15M");
                assert(differ_at("6CM"@, "15M"@, 0));
                reveal_strlit("12M");
                assert(differ_at("6CM"@, "12M"@, 0));
                reveal_strlit("10M");
                assert(differ_at("6CM"@, "10M"@, 0));
                reveal_strlit("8M");
                assert(differ_at("6CM"@, "8M"@, 0));
                reveal_strlit("6M");
                assert(differ_at("6CM"@, "6M"@, 0));
                reveal_strlit("5M");
                assert(differ_at("6CM"@, "5M"@, 0));
                reveal_strlit("4M");
                assert(differ_at("6CM"@, "4M"@, 0));
                reveal_strlit("2M");
                assert(differ_at("6CM"@, "2M"@, 0));
                reveal_strlit("1.25M");
                assert(differ_at("6CM"@, "1.25M"@, 0));
                reveal_strlit("70CM");
                assert(differ_at("6CM"@, "70CM"@, 0));
                reveal_strlit("33CM");
                assert(differ_at("6CM"@, "33CM"@, 0));
                reveal_strlit("23CM");
                assert(differ_at("6CM"@, "23CM"@, 0));
                reveal_strlit("13CM");
                assert(differ_at("6CM"@, "13CM"@, 0));
                reveal_strlit("9CM");
                assert(differ_at("6CM"@, "9CM"@, 0));
                assert(token_chars("6CM"@));
            },
            Band::Band3cm => {
                reveal_strlit("3CM");
                reveal_strlit("2190M");
                assert(differ_at("3CM"@, "2190M"@, 0));
                reveal_strlit("630M");
                assert(differ_at("3CM"@, "630M"@, 0));
                reveal_strlit("560M");
                assert(differ_at("3CM"@, "560M"@, 0));
                reveal_strlit("160M");
                assert(differ_at("3CM"@, "160M"@, 0));
                reveal_strlit("80M");
                assert(differ_at("3CM"@, "80M"@, 0));
                reveal_strlit("60M");
                assert(differ_at("3CM"@, "60M"@, 0));
                reveal_strlit("40M");
                assert(differ_at("3CM"@, "40M"@, 0));
                reveal_strlit("30M");
                assert(differ_at("3CM"@, "30M"@, 1));
                reveal_strlit("20M");
                assert(differ_at("3CM"@, "20M"@, 0));
                reveal_strlit("17M");
                assert(differ_at("3CM"@, "17M"@, 0));
                reveal_strlit("15M");
                assert(differ_at("3CM"@, "15M"@, 0));
                reveal_strlit("12M");
                assert(differ_at("3CM"@, "12M"@, 0));
                reveal_strlit("10M");
                assert(differ_at("3CM"@, "10M"@, 0));
                reveal_strlit("8M");
                assert(differ_at("3CM"@, "8M"@, 0));
                reveal_strlit("6M");
                assert(differ_at("3CM"@, "6M"@, 0));
                reveal_strlit("5M");
                assert(differ_at("3CM"@, "5M"@, 0));
                reveal_strlit("4M");
                assert(differ_at("3CM"@, "4M"@, 0));
                reveal_strlit("2M");
                assert(differ_at("3CM"@, "2M"@, 0));
                reveal_strlit("1.25M");
                assert(differ_at("3CM"@, "1.25M"@, 0));
                reveal_strlit("70CM");
                assert(differ_at("3CM"@, "70CM"@, 0));
                reveal_strlit("33CM");
                assert(differ_at("3CM"@, "33CM"@, 0));
                reveal_strlit("23CM");
                assert(differ_at("3CM"@, "23CM"@, 0));
                reveal_strlit("13CM");
                assert(differ_at("3CM"@, "13CM"@, 0));
                reveal_strlit("9CM");
                assert(differ_at("3CM"@, "9CM"@, 0));
                reveal_strlit("6CM");
                assert(differ_at("3CM"@, "6CM"@, 0));
                assert(token_chars("3CM"@));
            },
            Band::Band1_25cm => {
                reveal_strlit("1.25CM");
                reveal_strlit("2190M");
                assert(differ_at("1.25CM"@, "2190M"@, 0));
                reveal_strlit("630M");
                assert(differ_at("1.25CM"@, "630M"@, 0));
                reveal_strlit("560M");
                assert(differ_at("1.25CM"@, "560M"@, 0));
                reveal_strlit("160M");
                assert(differ_at("1.25CM"@, "160M"@, 0));
                reveal_strlit("80M");
                assert(differ_at("1.25CM"@, "80M"@, 0));
                reveal_strlit("60M");
                assert(differ_at("1.25CM"@, "60M"@, 0));
                reveal_strlit("40M");
                assert(differ_at("1.25CM"@, "40M"@, 0));
                reveal_strlit("30M");
                assert(differ_at("1.25CM"@, "30M"@, 0));
                reveal_strlit("20M");
                assert(differ_at("1.25CM"@, "20M"@, 0));
                reveal_strlit("17M");
                assert(differ_at("1.25CM"@, "17M"@, 0));
                reveal_strlit("15M");
                assert(differ_at("1.25CM"@, "15M"@, 0));
                reveal_strlit("12M");
                assert(differ_at("1.25CM"@, "12M"@, 0));
                reveal_strlit("10M");
                assert(differ_at("1.25CM"@, "10M"@, 0));
                reveal_strlit("8M");
                assert(differ_at("1.25CM"@, "8M"@, 0));
                reveal_strlit("6M");
                assert(differ_at("1.25CM"@, "6M"@, 0));
                reveal_strlit("5M");
                assert(differ_at("1.25CM"@, "5M"@, 0));
                reveal_strlit("4M");
                assert(differ_at("1.25CM"@, "4M"@, 0));
                reveal_strlit("2M");
                assert(differ_at("1.25CM"@, "2M"@, 0));
                reveal_strlit("1.25M");
                assert(differ_at("1.25CM"@, "1.25M"@, 0));
                reveal_strlit("70CM");
                assert(differ_at("1.25CM"@, "70CM"@, 0));
                reveal_strlit("33CM");
                assert(differ_at("1.25CM"@, "33CM"@, 0));
                reveal_strlit("23CM");
                assert(differ_at("1.25CM"@, "23CM"@, 0));
                reveal_strlit("13CM");
                assert(differ_at("1.25CM"@, "13CM"@, 0));
                reveal_strlit("9CM");
                assert(differ_at("1.25CM"@, "9CM"@, 0));
                reveal_strlit("6CM");
                assert(differ_at("1.25CM"@, "6CM"@, 0));
                reveal_strlit("3CM");
                assert(differ_at("1.25CM"@, "3CM"@, 0));
                assert(token_chars("1.25CM"@));
            },
            Band::Band6mm => {
                reveal_strlit("6MM");
                reveal_strlit("2190M");
                assert(differ_at("6MM"@, "2190M"@, 0));
                reveal_strlit("630M");
                assert(differ_at("6MM"@, "630M"@, 0));
                reveal_strlit("560M");
                assert(differ_at("6MM"@, "560M"@, 0));
                reveal_strlit("160M");
                assert(differ_at("6MM"@, "160M"@, 0));
                reveal_strlit("80M");
                assert(differ_at("6MM"@, "80M"@, 0));
                reveal_strlit("60M");
                assert(differ_at("6MM"@, "60M"@, 1));
                reveal_strlit("40M");
                assert(differ_at("6MM"@, "40M"@, 0));
                reveal_strlit("30M");
                assert(differ_at("6MM"@, "30M"@, 0));
                reveal_strlit("20M");
                assert(differ_at("6MM"@, "20M"@, 0));
                reveal_strlit("17M");
                assert(differ_at("6MM"@, "17M"@, 0));
                reveal_strlit("15M");
                assert(differ_at("6MM"@, "15M"@, 0));
                reveal_strlit("12M");
                assert(differ_at("6MM"@, "12M"@, 0));
                reveal_strlit("10M");
                assert(differ_at("6MM"@, "10M"@, 0));
                reveal_strlit("8M");
                assert(differ_at("6MM"@, "8M"@, 0));
                reveal_strlit("6M");
                assert(differ_at("6MM"@, "6M"@, 0));
                reveal_strlit("5M");
                assert(differ_at("6MM"@, "5M"@, 0));
                reveal_strlit("4M");
                assert(differ_at("6MM"@, "4M"@, 0));
                reveal_strlit("2M");
                assert(differ_at("6MM"@, "2M"@, 0));
                reveal_strlit("1.25M");
                assert(differ_at("6MM"@, "1.25M"@, 0));
                reveal_strlit("70CM");
                assert(differ_at("6MM"@, "70CM"@, 0));
                reveal_strlit("33CM");
                assert(differ_at("6MM"@, "33CM"@, 0));
                reveal_strlit("23CM");
                assert(differ_at("6MM"@, "23CM"@, 0));
                reveal_strlit("13CM");
                assert(differ_at("6MM"@, "13CM"@, 0));
                reveal_strlit("9CM");
                assert(differ_at("6MM"@, "9CM"@, 0));
                reveal_strlit("6CM");
                assert(differ_at("6MM"@, "6CM"@, 1));
                reveal_strlit("3CM");
                assert(differ_at("6MM"@, "3CM"@, 0));
                reveal_strlit("1.25CM");
                assert(differ_at("6MM"@, "1.25CM"@, 0));
                assert(token_chars("6MM"@));
            },
            Band::Band4mm => {
                reveal_strlit("4MM");
                reveal_strlit("2190M");
                assert(differ_at("4MM"@, "2190M"@, 0));
                reveal_strlit("630M");
                assert(differ_at("4MM"@, "630M"@, 0));
                reveal_strlit("560M");
                assert(differ_at("4MM"@, "560M"@, 0));
                reveal_strlit("160M");
                assert(differ_at("4MM"@, "160M"@, 0));
                reveal_strlit("80M");
                assert(differ_at("4MM"@, "80M"@, 0));
                reveal_strlit("60M");
                assert(differ_at("4MM"@, "60M"@, 0));
                reveal_strlit("40M");
                assert(differ_at("4MM"@, "40M"@, 1));
                reveal_strlit("30M");
                assert(differ_at("4MM"@, "30M"@, 0));
                reveal_strlit("20M");
                assert(differ_at("4MM"@, "20M"@, 0));
                reveal_strlit("17M");
                assert(differ_at("4MM"@, "17M"@, 0));
                reveal_strlit("15M");
                assert(differ_at("4MM"@, "15M"@, 0));
                reveal_strlit("12M");
                assert(differ_at("4MM"@, "12M"@, 0));
                reveal_strlit("10M");
                assert(differ_at("4MM"@, "10M"@, 0));
                reveal_strlit("8M");
                assert(differ_at("4MM"@, "8M"@, 0));
                reveal_strlit("6M");
                assert(differ_at("4MM"@, "6M"@, 0));
                reveal_strlit("5M");
                assert(differ_at("4MM"@, "5M"@, 0));
                reveal_strlit("4M");
                assert(differ_at("4MM"@, "4M"@, 0));
                reveal_strlit("2M");
                assert(differ_at("4MM"@, "2M"@, 0));
                reveal_strlit("1.25M");
                assert(differ_at("4MM"@, "1.25M"@, 0));
                reveal_strlit("70CM");
                assert(differ_at("4MM"@, "70CM"@, 0));
                reveal_strlit("33CM");
                assert(differ_at("4MM"@, "33CM"@, 0));
                reveal_strlit("23CM");
                assert(differ_at("4MM"@, "23CM"@, 0));
                reveal_strlit("13CM");
                assert(differ_at("4MM"@, "13CM"@, 0));
                reveal_strlit("9CM");
                assert(differ_at("4MM"@, "9CM"@, 0));
                reveal_strlit("6CM");
                assert(differ_at("4MM"@, "6CM"@, 0));
                reveal_strlit("3CM");
                assert(differ_at("4MM"@, "3CM"@, 0));
                reveal_strlit("1.25CM");
                assert(differ_at("4MM"@, "1.25CM"@, 0));
                reveal_strlit("6MM");
                assert(differ_at("4MM"@, "6MM"@, 0));
                assert(token_chars("4MM"@));
            },
            Band::Band2_5mm => {
                reveal_strlit("2.5MM");
                reveal_strlit("2190M");
                assert(differ_at("2.5MM"@, "2190M"@, 1));
                reveal_strlit("630M");
                assert(differ_at("2.5MM"@, "630M"@, 0));
                reveal_strlit("560M");
                assert(differ_at("2.5MM"@, "560M"@, 0));
                reveal_strlit("160M");
                assert(differ_at("2.5MM"@, "160M"@, 0));
                reveal_strlit("80M");
                assert(differ_at("2.5MM"@, "80M"@, 0));
                reveal_strlit("60M");
                assert(differ_at("2.5MM"@, "60M"@, 0));
                reveal_strlit("40M");
                assert(differ_at("2.5MM"@, "40M"@, 0));
                reveal_strlit("30M");
                assert(differ_at("2.5MM"@, "30M"@, 0));
                reveal_strlit("20M");
                assert(differ_at("2.5MM"@, "20M"@, 0));
                reveal_strlit("17M");
                assert(differ_at("2.5MM"@, "17M"@, 0));
                reveal_strlit("15M");
                assert(differ_at("2.5MM"@, "15M"@, 0));
                reveal_strlit("12M");
                assert(differ_at("2.5MM"@, "12M"@, 0));
                reveal_strlit("10M");
                assert(differ_at("2.5MM"@, "10M"@, 0));
                reveal_strlit("8M");
                assert(differ_at("2.5MM"@, "8M"@, 0));
                reveal_strlit("6M");
                assert(differ_at("2.5MM"@, "6M"@, 0));
                reveal_strlit("5M");
                assert(differ_at("2.5MM"@, "5M"@, 0));
                reveal_strlit("4M");
                assert(differ_at("2.5MM"@, "4M"@, 0));
                reveal_strlit("2M");
                assert(differ_at("2.5MM"@, "2M"@, 0));
                reveal_strlit("1.25M");
                assert(differ_at("2.5MM"@, "1.25M"@, 0));
                reveal_strlit("70CM");
                assert(differ_at("2.5MM"@, "70CM"@, 0));
                reveal_strlit("33CM");
                assert(differ_at("2.5MM"@, "33CM"@, 0));
                reveal_strlit("23CM");
                assert(differ_at("2.5MM"@, "23CM"@, 0));
                reveal_strlit("13CM");
                assert(differ_at("2.5MM"@, "13CM"@, 0));
                reveal_strlit("9CM");
                assert(differ_at("2.5MM"@, "9CM"@, 0));
                reveal_strlit("6CM");
                assert(differ_at("2.5MM"@, "6CM"@, 0));
                reveal_strlit("3CM");
                assert(differ_at("2.5MM"@, "3CM"@, 0));
                reveal_strlit("1.25CM");
                assert(differ_at("2.5MM"@, "1.25CM"@, 0));
                reveal_strlit("6MM");
                assert(differ_at("2.5MM"@, "6MM"@, 0));
                reveal_strlit("4MM");
                assert(differ_at("2.5MM"@, "4MM"@, 0));
                assert(token_chars("2.5MM"@));
            },
            Band::Band2mm => {
                reveal_strlit("2MM");
                reveal_strlit("2190M");
                assert(differ_at("2MM"@, "2190M"@, 0));
                reveal_strlit("630M");
                assert(differ_at("2MM"@, "630M"@, 0));
                reveal_strlit("560M");
                assert(differ_at("2MM"@, "560M"@, 0));
                reveal_strlit("160M");
                assert(differ_at("2MM"@, "160M"@, 0));
                reveal_strlit("80M");
                assert(differ_at("2MM"@, "80M"@, 0));
                reveal_strlit("60M");
                assert(differ_at("2MM"@, "60M"@, 0));
                reveal_strlit("40M");
                assert(differ_at("2MM"@, "40M"@, 0));
                reveal_strlit("30M");
                assert(differ_at("2MM"@, "30M"@, 0));
                reveal_strlit("20M");
                assert(differ_at("2MM"@, "20M"@, 1));
                reveal_strlit("17M");
                assert(differ_at("2MM"@, "17M"@, 0));
                reveal_strlit("15M");
                assert(differ_at("2MM"@, "15M"@, 0));
                reveal_strlit("12M");
                assert(differ_at("2MM"@, "12M"@, 0));
                reveal_strlit("10M");
                assert(differ_at("2MM"@, "10M"@, 0));
                reveal_strlit("8M");
                assert(differ_at("2MM"@, "8M"@, 0));
                reveal_strlit("6M");
                assert(differ_at("2MM"@, "6M"@, 0));
                reveal_strlit("5M");
                assert(differ_at("2MM"@, "5M"@, 0));
                reveal_strlit("4M");
                assert(differ_at("2MM"@, "4M"@, 0));
                reveal_strlit("2M");
                assert(differ_at("2MM"@, "2M"@, 0));
                reveal_strlit("1.25M");
                assert(differ_at("2MM"@, "1.25M"@, 0));
                reveal_strlit("70CM");
                assert(differ_at("2MM"@, "70CM"@, 0));
                reveal_strlit("33CM");
                assert(differ_at("2MM"@, "33CM"@, 0));
                reveal_strlit("23CM");
                assert(differ_at("2MM"@, "23CM"@, 0));
                reveal_strlit("13CM");
                assert(differ_at("2MM"@, "13CM"@, 0));
                reveal_strlit("9CM");
                assert(differ_at("2MM"@, "9CM"@, 0));
                reveal_strlit("6CM");
                assert(differ_at("2MM"@, "6CM"@, 0));
                reveal_strlit("3CM");
                assert(differ_at("2MM"@, "3CM"@, 0));
                reveal_strlit("1.25CM");
                assert(differ_at("2MM"@, "1.25CM"@, 0));
                reveal_strlit("6MM");
                assert(differ_at("2MM"@, "6MM"@, 0));
                reveal_strlit("4MM");
                assert(differ_at("2MM"@, "4MM"@, 0));
                reveal_strlit("2.5MM");
                assert(differ_at("2MM"@, "2.5MM"@, 0));
                assert(token_chars("2MM"@));
            },
            Band::Band1mm => {
                reveal_strlit("1MM");
                reveal_strlit("2190M");
                assert(differ_at("1MM"@, "2190M"@, 0));
                reveal_strlit("630M");
                assert(differ_at("1MM"@, "630M"@, 0));
                reveal_strlit("560M");
                assert(differ_at("1MM"@, "560M"@, 0));
                reveal_strlit("160M");
                assert(differ_at("1MM"@, "160M"@, 0));
                reveal_strlit("80M");
                assert(differ_at("1MM"@, "80M"@, 0));
                reveal_strlit("60M");
                assert(differ_at("1MM"@, "60M"@, 0));
                reveal_strlit("40M");
                assert(differ_at("1MM"@, "40M"@, 0));
                reveal_strlit("30M");
                assert(differ_at("1MM"@, "30M"@, 0));
                reveal_strlit("20M");
                assert(differ_at("1MM"@, "20M"@, 0));
                reveal_strlit("17M");
                assert(differ_at("1MM"@, "17M"@, 1));
                reveal_strlit("15M");
                assert(differ_at("1MM"@, "15M"@, 1));
                reveal_strlit("12M");
                assert(differ_at("1MM"@, "12M"@, 1));
                reveal_strlit("10M");
                assert(differ_at("1MM"@, "10M"@, 1));
                reveal_strlit("8M");
                assert(differ_at("1MM"@, "8M"@, 0));
                reveal_strlit("6M");
                assert(differ_at("1MM"@, "6M"@, 0));
                reveal_strlit("5M");
                assert(differ_at("1MM"@, "5M"@, 0));
                reveal_strlit("4M");
                assert(differ_at("1MM"@, "4M"@, 0));
                reveal_strlit("2M");
                assert(differ_at("1MM"@, "2M"@, 0));
                reveal_strlit("1.25M");
                assert(differ_at("1MM"@, "1.25M"@, 0));
                reveal_strlit("70CM");
                assert(differ_at("1MM"@, "70CM"@, 0));
                reveal_strlit("33CM");
                assert(differ_at("1MM"@, "33CM"@, 0));
                reveal_strlit("23CM");
                assert(differ_at("1MM"@, "23CM"@, 0));
                reveal_strlit("13CM");
                assert(differ_at("1MM"@, "13CM"@, 0));
                reveal_strlit("9CM");
                assert(differ_at("1MM"@, "9CM"@, 0));
                reveal_strlit("6CM");
                assert(differ_at("1MM"@, "6CM"@, 0));
                reveal_strlit("3CM");
                assert(differ_at("1MM"@, "3CM"@, 0));
                reveal_strlit("1.25CM");
                assert(differ_at("1MM"@, "1.25CM"@, 0));
                reveal_strlit("6MM");
                assert(differ_at("1MM"@, "6MM"@, 0));
                reveal_strlit("4MM");
                assert(differ_at("1MM"@, "4MM"@, 0));
                reveal_strlit("2.5MM");
                assert(differ_at("1MM"@, "2.5MM"@, 0));
                reveal_strlit("2MM");
                assert(differ_at("1MM"@, "2MM"@, 0));
                assert(token_chars("1MM"@));
            },
            Band::Bandsubmm => {
                reveal_strlit("SUBMM");
                reveal_strlit("2190M");
                assert(differ_at("SUBMM"@, "2190M"@, 0));
                reveal_strlit("630M");
                assert(differ_at("SUBMM"@, "630M"@, 0));
                reveal_strlit("560M");
                assert(differ_at("SUBMM"@, "560M"@, 0));
                reveal_strlit("160M");
                assert(differ_at("SUBMM"@, "160M"@, 0));
                reveal_strlit("80M");
                assert(differ_at("SUBMM"@, "80M"@, 0));
                reveal_strlit("60M");
                assert(differ_at("SUBMM"@, "60M"@, 0));
                reveal_strlit("40M");
                assert(differ_at("SUBMM"@, "40M"@, 0));
                reveal_strlit("30M");
                assert(differ_at("SUBMM"@, "30M"@, 0));
                reveal_strlit("20M");
                assert(differ_at("SUBMM"@, "20M"@, 0));
                reveal_strlit("17M");
                assert(differ_at("SUBMM"@, "17M"@, 0));
                reveal_strlit("15M");
                assert(differ_at("SUBMM"@, "15M"@, 0));
                reveal_strlit("12M");
                assert(differ_at("SUBMM"@, "12M"@, 0));
                reveal_strlit("10M");
                assert(differ_at("SUBMM"@, "10M"@, 0));
                reveal_strlit("8M");
                assert(differ_at("SUBMM"@, "8M"@, 0));
                reveal_strlit("6M");
                assert(differ_at("SUBMM"@, "6M"@, 0));
                reveal_strlit("5M");
                assert(differ_at("SUBMM"@, "5M"@, 0));
                reveal_strlit("4M");
                assert(differ_at("SUBMM"@, "4M"@, 0));
                reveal_strlit("2M");
                assert(differ_at("SUBMM"@, "2M"@, 0));
                reveal_strlit("1.25M");
                assert(differ_at("SUBMM"@, "1.25M"@, 0));
                reveal_strlit("70CM");
                assert(differ_at("SUBMM"@, "70CM"@, 0));
                reveal_strlit("33CM");
                assert(differ_at("SUBMM"@, "33CM"@, 0));
                reveal_strlit("23CM");
                assert(differ_at("SUBMM"@, "23CM"@, 0));
                reveal_strlit("13CM");
                assert(differ_at("SUBMM"@, "13CM"@, 0));
                reveal_strlit("9CM");
                assert(differ_at("SUBMM"@, "9CM"@, 0));
                reveal_strlit("6CM");
                assert(differ_at("SUBMM"@, "6CM"@, 0));
                reveal_strlit("3CM");
                assert(differ_at("SUBMM"@, "3CM"@, 0));
                reveal_strlit("1.25CM");
                assert(differ_at("SUBMM"@, "1.25CM"@, 0));
                reveal_strlit("6MM");
                assert(differ_at("SUBMM"@, "6MM"@, 0));
                reveal_strlit("4MM");
                assert(differ_at("SUBMM"@, "4MM"@, 0));
                reveal_strlit("2.5MM");
                assert(differ_at("SUBMM"@, "2.5MM"@, 0));
                reveal_strlit("2MM");
                assert(differ_at("SUBMM"@, "2MM"@, 0));
                reveal_strlit("1MM");
                assert(differ_at("SUBMM"@, "1MM"@, 0));
                assert(token_chars("SUBMM"@));
            },
        }
    }
}

impl Band {
    pub fn serialize(&self) -> (r: String)
        ensures
            r@ == self.spec_token(),
    {
        token_string(self)
    }

    pub fn deserialize(value: &str) -> (r: Result<Band, AdifError>)
        ensures
            match r {
                Ok(v) => Band::spec_from_token(value@) == Some(v),
                Err(e) => Band::spec_from_token(value@) is None && e.kind
                    == ErrorKind::UnknownEnumerationToken,
            },
    {
        parse_token(value)
    }
}

/// Continents.
#[allow(non_camel_case_types)]
#[derive(Clone, Copy, Debug, PartialEq, Eq, Hash, Structural)]
pub enum Continent {
    NorthAmerica,
    SouthAmerica,
    Europe,
    Africa,
    Oceana,
    Asia,
    Antarctica,
}

impl View for Continent {
    type V = Continent;

    open spec fn view(&self) -> Continent {
        *self
    }
}

impl Vocabulary for Continent {
    open spec fn spec_token(self) -> Seq<char> {
        match self {
            Continent::NorthAmerica => "NA"@,
            Continent::SouthAmerica => "SA"@,
            Continent::Europe => "EU"@,
            Continent::Africa => "AF"@,
            Continent::Oceana => "OC"@,
            Continent::Asia => "AS"@,
            Continent::Antarctica => "AN"@,
        }
    }

    closed spec fn spec_from_token(s: Seq<char>) -> Option<Continent> {
        if s == "NA"@ {
            Some(Continent::NorthAmerica)
        } else if s == "SA"@ {
            Some(Continent::SouthAmerica)
        } else if s == "EU"@ {
            Some(Continent::Europe)
        } else if s == "AF"@ {
            Some(Continent::Africa)
        } else if s == "OC"@ {
            Some(Continent::Oceana)
        } else if s == "AS"@ {
            Some(Continent::Asia)
        } else if s == "AN"@ {
            Some(Continent::Antarctica)
        } else {
            None
        }
    }

    fn push_token(&self, out: &mut Vec<char>) {
        match self {
            Continent::NorthAmerica => append_str(out, "NA"),
            Continent::SouthAmerica => append_str(out, "SA"),
            Continent::Europe => append_str(out, "EU"),
            Continent::Africa => append_str(out, "AF"),
            Continent::Oceana => append_str(out, "OC"),
            Continent::Asia => append_str(out, "AS"),
            Continent::Antarctica => append_str(out, "AN"),
        }
    }

    fn from_token(s: &[char]) -> (r: Option<Continent>) {
        if chars_eq_str(s, "NA") {
            Some(Continent::NorthAmerica)
        } else if chars_eq_str(s, "SA") {
            Some(Continent::SouthAmerica)
        } else if chars_eq_str(s, "EU") {
            Some(Continent::Europe)
        } else if chars_eq_str(s, "AF") {
            Some(Continent::Africa)
        } else if chars_eq_str(s, "OC") {
            Some(Continent::Oceana)
        } else if chars_eq_str(s, "AS") {
            Some(Continent::Asia)
        } else if chars_eq_str(s, "AN") {
            Some(Continent::Antarctica)
        } else {
            None
        }
    }

    proof fn lemma_from_token(s: Seq<char>) {
    }

    proof fn lemma_token(self) {
        match self {
            Continent::NorthAmerica => {
                reveal_strlit("NA");
                assert(token_chars("NA"@));
            },
            Continent::SouthAmerica => {
                reveal_strlit("SA");
                reveal_strlit("NA");
                assert(differ_at("SA"@, "NA"@, 0));
                assert(token_chars("SA"@));
            },
            Continent::Europe => {
                reveal_strlit("EU");
                reveal_strlit("NA");
                assert(differ_at("EU"@, "NA"@, 0));
                reveal_strlit("SA");
                assert(differ_at("EU"@, "SA"@, 0));
                assert(token_chars("EU"@));
            },
            Continent::Africa => {
                reveal_strlit("AF");
                reveal_strlit("NA");
                assert(differ_at("AF"@, "NA"@, 0));
                reveal_strlit("SA");
                assert(differ_at("AF"@, "SA"@, 0));
                reveal_strlit("EU");
                assert(differ_at("AF"@, "EU"@, 0));
                assert(token_chars("AF"@));
            },
            Continent::Oceana => {
                reveal_strlit("OC");
                reveal_strlit("NA");
                assert(differ_at("OC"@, "NA"@, 0));
                reveal_strlit("SA");
                assert(differ_at("OC"@, "SA"@, 0));
                reveal_strlit("EU");
                assert(differ_at("OC"@, "EU"@, 0));
                reveal_strlit("AF");
                assert(differ_at("OC"@, "AF"@, 0));
                assert(token_chars("OC"@));
            },
            Continent::Asia => {
                reveal_strlit("AS");
                reveal_strlit("NA");
                assert(differ_at("AS"@, "NA"@, 0));
                reveal_strlit("SA");
                assert(differ_at("AS"@, "SA"@, 0));
                reveal_strlit("EU");
                assert(differ_at("AS"@, "EU"@, 0));
                reveal_strlit("AF");
                assert(differ_at("AS"@, "AF"@, 1));
                reveal_strlit("OC");
                assert(differ_at("AS"@, "OC"@, 0));
                assert(token_chars("AS"@));
            },
            Continent::Antarctica => {
                reveal_strlit("AN");
                reveal_strlit("NA");
                assert(differ_at("AN"@, "NA"@, 0));
                reveal_strlit("SA");
                assert(differ_at("AN"@, "SA"@, 0));
                reveal_strlit("EU");
                assert(differ_at("AN"@, "EU"@, 0));
                reveal_strlit("AF");
                assert(differ_at("AN"@, "AF"@, 1));
                reveal_strlit("OC");
                assert(differ_at("AN"@, "OC"@, 0));
                reveal_strlit("AS");
                assert(differ_at("AN"@, "AS"@, 1));
                assert(token_chars("AN"@));
            },
        }
    }
}

impl Continent {
    pub fn serialize(&self) -> (r: String)
        ensures
            r@ == self.spec_token(),
    {
        token_string(self)
    }

    pub fn deserialize(value: &str) -> (r: Result<Continent, AdifError>)
        ensures
            match r {
                Ok(v) => Continent::spec_from_token(value@) == Some(v),
                Err(e) => Continent::spec_from_token(value@) is None && e.kind
                    == ErrorKind::UnknownEnumerationToken,
            },
    {
        parse_token(value)
    }
}

/// Kinds of Morse key.
#[allow(non_camel_case_types)]
#[derive(Clone, Copy, Debug, PartialEq, Eq, Hash, Structural)]
pub enum MorseKeyType {
    StraightKey,
    Sideswiper,
    MechanicalSemiAutomaticKeyerOrBug,
    MechanicalFullyAutomaticKeyerOrBug,
    SinglePaddle,
    DualPaddle,
    ComputerDriven,
}

impl View for MorseKeyType {
    type V = MorseKeyType;

    open spec fn view(&self) -> MorseKeyType {
        *self
    }
}

impl Vocabulary for MorseKeyType {
    open spec fn spec_token(self) -> Seq<char> {
        match self {
            MorseKeyType::StraightKey => "SK"@,
            MorseKeyType::Sideswiper => "SS"@,
            MorseKeyType::MechanicalSemiAutomaticKeyerOrBug => "BUG"@,
            MorseKeyType::MechanicalFullyAutomaticKeyerOrBug => "FAB"@,
            MorseKeyType::SinglePaddle => "SP"@,
            MorseKeyType::DualPaddle => "DP"@,
            MorseKeyType::ComputerDriven => "CPU"@,
        }
    }

    closed spec fn spec_from_token(s: Seq<char>) -> Option<MorseKeyType> {
        if s == "SK"@ {
            Some(MorseKeyType::StraightKey)
        } else if s == "SS"@ {
            Some(MorseKeyType::Sideswiper)
        } else if s == "BUG"@ {
            Some(MorseKeyType::MechanicalSemiAutomaticKeyerOrBug)
        } else if s == "FAB"@ {
            Some(MorseKeyType::MechanicalFullyAutomaticKeyerOrBug)
        } else if s == "SP"@ {
            Some(MorseKeyType::SinglePaddle)
        } else if s == "DP"@ {
            Some(MorseKeyType::DualPaddle)
        } else if s == "CPU"@ {
            Some(MorseKeyType::ComputerDriven)
        } else {
            None
        }
    }

    fn push_token(&self, out: &mut Vec<char>) {
        match self {
            MorseKeyType::StraightKey => append_str(out, "SK"),
            MorseKeyType::Sideswiper => append_str(out, "SS"),
            MorseKeyType::MechanicalSemiAutomaticKeyerOrBug => append_str(out, "BUG"),
            MorseKeyType::MechanicalFullyAutomaticKeyerOrBug => append_str(out, "FAB"),
            MorseKeyType::SinglePaddle => append_str(out, "SP"),
            MorseKeyType::DualPaddle => append_str(out, "DP"),
            MorseKeyType::ComputerDriven => append_str(out, "CPU"),
        }
    }

    fn from_token(s: &[char]) -> (r: Option<MorseKeyType>) {
        if chars_eq_str(s, "SK") {
            Some(MorseKeyType::StraightKey)
        } else if chars_eq_str(s, "SS") {
            Some(MorseKeyType::Sideswiper)
        } else if chars_eq_str(s, "BUG") {
            Some(MorseKeyType::MechanicalSemiAutomaticKeyerOrBug)
        } else if chars_eq_str(s, "FAB") {
            Some(MorseKeyType::MechanicalFullyAutomaticKeyerOrBug)
        } else if chars_eq_str(s, "SP") {
            Some(MorseKeyType::SinglePaddle)
        } else if chars_eq_str(s, "DP") {
            Some(MorseKeyType::DualPaddle)
        } else if chars_eq_str(s, "CPU") {
            Some(MorseKeyType::ComputerDriven)
        } else {
            None
        }
    }

    proof fn lemma_from_token(s: Seq<char>) {
    }

    proof fn lemma_token(self) {
        match self {
            MorseKeyType::StraightKey => {
                reveal_strlit("SK");
                assert(token_chars("SK"@));
            },
            MorseKeyType::Sideswiper => {
                reveal_strlit("SS");
                reveal_strlit("SK");
                assert(differ_at("SS"@, "SK"@, 1));
                assert(token_chars("SS"@));
            },
            MorseKeyType::MechanicalSemiAutomaticKeyerOrBug => {
                reveal_strlit("BUG");
                reveal_strlit("SK");
                assert(differ_at("BUG"@, "SK"@, 0));
                reveal_strlit("SS");
                assert(differ_at("BUG"@, "SS"@, 0));
                assert(token_chars("BUG"@));
            },
            MorseKeyType::MechanicalFullyAutomaticKeyerOrBug => {
                reveal_strlit("FAB");
                reveal_strlit("SK");
                assert(differ_at("FAB"@, "SK"@, 0));
                reveal_strlit("SS");
                assert(differ_at("FAB"@, "SS"@, 0));
                reveal_strlit("BUG");
                assert(differ_at("FAB"@, "BUG"@, 0));
                assert(token_chars("FAB"@));
            },
            MorseKeyType::SinglePaddle => {
                reveal_strlit("SP");
                reveal_strlit("SK");
                assert(differ_at("SP"@, "SK"@, 1));
                reveal_strlit("SS");
                assert(differ_at("SP"@, "SS"@, 1));
                reveal_strlit("BUG");
                assert(differ_at("SP"@, "BUG"@, 0));
                reveal_strlit("FAB");
                assert(differ_at("SP"@, "FAB"@, 0));
                assert(token_chars("SP"@));
            },
            MorseKeyType::DualPaddle => {
                reveal_strlit("DP");
                reveal_strlit("SK");
                assert(differ_at("DP"@, "SK"@, 0));
                reveal_strlit("SS");
                assert(differ_at("DP"@, "SS"@, 0));
                reveal_strlit("BUG");
                assert(differ_at("DP"@, "BUG"@, 0));
                reveal_strlit("FAB");
                assert(differ_at("DP"@, "FAB"@, 0));
                reveal_strlit("SP");
                assert(differ_at("DP"@, "SP"@, 0));
                assert(token_chars("DP"@));
            },
            MorseKeyType::ComputerDriven => {
                reveal_strlit("CPU");
                reveal_strlit("SK");
                assert(differ_at("CPU"@, "SK"@, 0));
                reveal_strlit("SS");
                assert(differ_at("CPU"@, "SS"@, 0));
                reveal_strlit("BUG");
                assert(differ_at("CPU"@, "BUG"@, 0));
                reveal_strlit("FAB");
                assert(differ_at("CPU"@, "FAB"@, 0));
                reveal_strlit("SP");
                assert(differ_at("CPU"@, "SP"@, 0));
                reveal_strlit("DP");
                assert(differ_at("CPU"@, "DP"@, 0));
                assert(token_chars("CPU"@));
            },
        }
    }
}

impl MorseKeyType {
    pub fn serialize(&self) -> (r: String)
        ensures
            r@ == self.spec_token(),
    {
        token_string(self)
    }

    pub fn deserialize(value: &str) -> (r: Result<MorseKeyType, AdifError>)
        ensures
            match r {
                Ok(v) => MorseKeyType::spec_from_token(value@) == Some(v),
                Err(e) => MorseKeyType::spec_from_token(value@) is None && e.kind
                    == ErrorKind::UnknownEnumerationToken,
            },
    {
        parse_token(value)
    }
}

/// Modes of signal propagation.
#[allow(non_camel_case_types)]
#[derive(Clone, Copy, Debug, PartialEq, Eq, Hash, Structural)]
pub enum PropagationMode {
    AircraftScatter,
    AuroraE,
    Aurora,
    BackScatter,
    EchoLink,
    EarthMoonEarth,
    SporadicE,
    F2Reflection,
    FieldAlignedIrregularities,
    GroundWave,
    InternetAssisted,
    Ionoscatter,
    IRLP,
    LineOfSight,
    MeteorScatter,
    Repeater,
    RainScatter,
    Satellite,
    TransEquatorial,
    TroposphericDucting,
}

impl View for PropagationMode {
    type V = PropagationMode;

    open spec fn view(&self) -> PropagationMode {
        *self
    }
}

impl Vocabulary for PropagationMode {
    open spec fn spec_token(self) -> Seq<char> {
        match self {
            PropagationMode::AircraftScatter => "AS"@,
            PropagationMode::AuroraE => "AUE"@,
            PropagationMode::Aurora => "AUR"@,
            PropagationMode::BackScatter => "BS"@,
            PropagationMode::EchoLink => "ECH"@,
            PropagationMode::EarthMoonEarth => "EME"@,
            PropagationMode::SporadicE => "ES"@,
            PropagationMode::F2Reflection => "F2"@,
            PropagationMode::FieldAlignedIrregularities => "FAI"@,
            PropagationMode::GroundWave => "GWAVE"@,
            PropagationMode::InternetAssisted => "INTERNET"@,
            PropagationMode::Ionoscatter => "ION"@,
            PropagationMode::IRLP => "IRL"@,
            PropagationMode::LineOfSight => "LOS"@,
            PropagationMode::MeteorScatter => "MS"@,
            PropagationMode::Repeater => "RPT"@,
            PropagationMode::RainScatter => "RS"@,
            PropagationMode::Satellite => "SAT"@,
            PropagationMode::TransEquatorial => "TEP"@,
            PropagationMode::TroposphericDucting => "TR"@,
        }
    }

    closed spec fn spec_from_token(s: Seq<char>) -> Option<PropagationMode> {
        if s == "AS"@ {
            Some(PropagationMode::AircraftScatter)
        } else if s == "AUE"@ {
            Some(PropagationMode::AuroraE)
        } else if s == "AUR"@ {
            Some(PropagationMode::Aurora)
        } else if s == "BS"@ {
            Some(PropagationMode::BackScatter)
        } else if s == "ECH"@ {
            Some(PropagationMode::EchoLink)
        } else if s == "EME"@ {
            Some(PropagationMode::EarthMoonEarth)
        } else if s == "ES"@ {
            Some(PropagationMode::SporadicE)
        } else if s == "F2"@ {
            Some(PropagationMode::F2Reflection)
        } else if s == "FAI"@ {
            Some(PropagationMode::FieldAlignedIrregularities)
        } else if s == "GWAVE"@ {
            Some(PropagationMode::GroundWave)
        } else if s == "INTERNET"@ {
            Some(PropagationMode::InternetAssisted)
        } else if s == "ION"@ {
            Some(PropagationMode::Ionoscatter)
        } else if s == "IRL"@ {
            Some(PropagationMode::IRLP)
        } else if s == "LOS"@ {
            Some(PropagationMode::LineOfSight)
        } else if s == "MS"@ {
            Some(PropagationMode::MeteorScatter)
        } else if s == "RPT"@ {
            Some(PropagationMode::Repeater)
        } else if s == "RS"@ {
            Some(PropagationMode::RainScatter)
        } else if s == "SAT"@ {
            Some(PropagationMode::Satellite)
        } else if s == "TEP"@ {
            Some(PropagationMode::TransEquatorial)
        } else if s == "TR"@ {
            Some(PropagationMode::TroposphericDucting)
        } else {
            None
        }
    }

    fn push_token(&self, out: &mut Vec<char>) {
        match self {
            PropagationMode::AircraftScatter => append_str(out, "AS"),
            PropagationMode::AuroraE => append_str(out, "AUE"),
            PropagationMode::Aurora => append_str(out, "AUR"),
            PropagationMode::BackScatter => append_str(out, "BS"),
            PropagationMode::EchoLink => append_str(out, "ECH"),
            PropagationMode::EarthMoonEarth => append_str(out, "EME"),
            PropagationMode::SporadicE => append_str(out, "ES"),
            PropagationMode::F2Reflection => append_str(out, "F2"),
            PropagationMode::FieldAlignedIrregularities => append_str(out, "FAI"),
            PropagationMode::GroundWave => append_str(out, "GWAVE"),
            PropagationMode::InternetAssisted => append_str(out, "INTERNET"),
            PropagationMode::Ionoscatter => append_str(out, "ION"),
            PropagationMode::IRLP => append_str(out, "IRL"),
            PropagationMode::LineOfSight => append_str(out, "LOS"),
            PropagationMode::MeteorScatter => append_str(out, "MS"),
            PropagationMode::Repeater => append_str(out, "RPT"),
            PropagationMode::RainScatter => append_str(out, "RS"),
            PropagationMode::Satellite => append_str(out, "SAT"),
            PropagationMode::TransEquatorial => append_str(out, "TEP"),
            PropagationMode::TroposphericDucting => append_str(out, "TR"),
        }
    }

    fn from_token(s: &[char]) -> (r: Option<PropagationMode>) {
        if chars_eq_str(s, "AS") {
            Some(PropagationMode::AircraftScatter)
        } else if chars_eq_str(s, "AUE") {
            Some(PropagationMode::AuroraE)
        } else if chars_eq_str(s, "AUR") {
            Some(PropagationMode::Aurora)
        } else if chars_eq_str(s, "BS") {
            Some(PropagationMode::BackScatter)
        } else if chars_eq_str(s, "ECH") {
            Some(PropagationMode::EchoLink)
        } else if chars_eq_str(s, "EME") {
            Some(PropagationMode::EarthMoonEarth)
        } else if chars_eq_str(s, "ES") {
            Some(PropagationMode::SporadicE)
        } else if chars_eq_str(s, "F2") {
            Some(PropagationMode::F2Reflection)
        } else if chars_eq_str(s, "FAI") {
            Some(PropagationMode::FieldAlignedIrregularities)
        } else if chars_eq_str(s, "GWAVE") {
            Some(PropagationMode::GroundWave)
        } else if chars_eq_str(s, "INTERNET") {
            Some(PropagationMode::InternetAssisted)
        } else if chars_eq_str(s, "ION") {
            Some(PropagationMode::Ionoscatter)
        } else if chars_eq_str(s, "IRL") {
            Some(PropagationMode::IRLP)
        } else if chars_eq_str(s, "LOS") {
            Some(PropagationMode::LineOfSight)
        } else if chars_eq_str(s, "MS") {
            Some(PropagationMode::MeteorScatter)
        } else if chars_eq_str(s, "RPT") {
            Some(PropagationMode::Repeater)
        } else if chars_eq_str(s, "RS") {
            Some(PropagationMode::RainScatter)
        } else if chars_eq_str(s, "SAT") {
            Some(PropagationMode::Satellite)
        } else if chars_eq_str(s, "TEP") {
            Some(PropagationMode::TransEquatorial)
        } else if chars_eq_str(s, "TR") {
            Some(PropagationMode::TroposphericDucting)
        } else {
            None
        }
    }

    proof fn lemma_from_token(s: Seq<char>) {
    }

    proof fn lemma_token(self) {
        match self {
            PropagationMode::AircraftScatter => {
                reveal_strlit("AS");
                assert(token_chars("AS"@));
            },
            PropagationMode::AuroraE => {
                reveal_strlit("AUE");
                reveal_strlit("AS");
                assert(differ_at("AUE"@, "AS"@, 0));
                assert(token_chars("AUE"@));
            },
            PropagationMode::Aurora => {
                reveal_strlit("AUR");
                reveal_strlit("AS");
                assert(differ_at("AUR"@, "AS"@, 0));
                reveal_strlit("AUE");
                assert(differ_at("AUR"@, "AUE"@, 2));
                assert(token_chars("AUR"@));
            },
            PropagationMode::BackScatter => {
                reveal_strlit("BS");
                reveal_strlit("AS");
                assert(differ_at("BS"@, "AS"@, 0));
                reveal_strlit("AUE");
                assert(differ_at("BS"@, "AUE"@, 0));
                reveal_strlit("AUR");
                assert(differ_at("BS"@, "AUR"@, 0));
                assert(token_chars("BS"@));
            },
            PropagationMode::EchoLink => {
                reveal_strlit("ECH");
                reveal_strlit("AS");
                assert(differ_at("ECH"@, "AS"@, 0));
                reveal_strlit("AUE");
                assert(differ_at("ECH"@, "AUE"@, 0));
                reveal_strlit("AUR");
                assert(differ_at("ECH"@, "AUR"@, 0));
                reveal_strlit("BS");
                assert(differ_at("ECH"@, "BS"@, 0));
                assert(token_chars("ECH"@));
            },
            PropagationMode::EarthMoonEarth => {
                reveal_strlit("EME");
                reveal_strlit("AS");
                assert(differ_at("EME"@, "AS"@, 0));
                reveal_strlit("AUE");
                assert(differ_at("EME"@, "AUE"@, 0));
                reveal_strlit("AUR");
                assert(differ_at("EME"@, "AUR"@, 0));
                reveal_strlit("BS");
                assert(differ_at("EME"@, "BS"@, 0));
                reveal_strlit("ECH");
                assert(differ_at("EME"@, "ECH"@, 1));
                assert(token_chars("EME"@));
            },
            PropagationMode::SporadicE => {
                reveal_strlit("ES");
                reveal_strlit("AS");
                assert(differ_at("ES"@, "AS"@, 0));
                reveal_strlit("AUE");
                assert(differ_at("ES"@, "AUE"@, 0));
                reveal_strlit("AUR");
                assert(differ_at("ES"@, "AUR"@, 0));
                reveal_strlit("BS");
                assert(differ_at("ES"@, "BS"@, 0));
                reveal_strlit("ECH");
                assert(differ_at("ES"@, "ECH"@, 0));
                reveal_strlit("EME");
                assert(differ_at("ES"@, "EME"@, 0));
                assert(token_chars("ES"@));
            },
            PropagationMode::F2Reflection => {
                reveal_strlit("F2");
                reveal_strlit("AS");
                assert(differ_at("F2"@, "AS"@, 0));
                reveal_strlit("AUE");
                assert(differ_at("F2"@, "AUE"@, 0));
                reveal_strlit("AUR");
                assert(differ_at("F2"@, "AUR"@, 0));
                reveal_strlit("BS");
                assert(differ_at("F2"@, "BS"@, 0));
                reveal_strlit("ECH");
                assert(differ_at("F2"@, "ECH"@, 0));
                reveal_strlit("EME");
                assert(differ_at("F2"@, "EME"@, 0));
                reveal_strlit("ES");
                assert(differ_at("F2"@, "ES"@, 0));
                assert(token_chars("F2"@));
            },
            PropagationMode::FieldAlignedIrregularities => {
                reveal_strlit("FAI");
                reveal_strlit("AS");
                assert(differ_at("FAI"@, "AS"@, 0));
                reveal_strlit("AUE");
                assert(differ_at("FAI"@, "AUE"@, 0));
                reveal_strlit("AUR");
                assert(differ_at("FAI"@, "AUR"@, 0));
                reveal_strlit("BS");
                assert(differ_at("FAI"@, "BS"@, 0));
                reveal_strlit("ECH");
                assert(differ_at("FAI"@, "ECH"@, 0));
                reveal_strlit("EME");
                assert(differ_at("FAI"@, "EME"@, 0));
                reveal_strlit("ES");
                assert(differ_at("FAI"@, "ES"@, 0));
                reveal_strlit("F2");
                assert(differ_at("FAI"@, "F2"@, 0));
                assert(token_chars("FAI"@));
            },
            PropagationMode::GroundWave => {
                reveal_strlit("GWAVE");
                reveal_strlit("AS");
                assert(differ_at("GWAVE"@, "AS"@, 0));
                reveal_strlit("AUE");
                assert(differ_at("GWAVE"@, "AUE"@, 0));
                reveal_strlit("AUR");
                assert(differ_at("GWAVE"@, "AUR"@, 0));
                reveal_strlit("BS");
                assert(differ_at("GWAVE"@, "BS"@, 0));
                reveal_strlit("ECH");
                assert(differ_at("GWAVE"@, "ECH"@, 0));
                reveal_strlit("EME");
                assert(differ_at("GWAVE"@, "EME"@, 0));
                reveal_strlit("ES");
                assert(differ_at("GWAVE"@, "ES"@, 0));
                reveal_strlit("F2");
                assert(differ_at("GWAVE"@, "F2"@, 0));
                reveal_strlit("FAI");
                assert(differ_at("GWAVE"@, "FAI"@, 0));
                assert(token_chars("GWAVE"@));
            },
            PropagationMode::InternetAssisted => {
                reveal_strlit("INTERNET");
                reveal_strlit("AS");
                assert(differ_at("INTERNET"@, "AS"@, 0));
                reveal_strlit("AUE");
                assert(differ_at("INTERNET"@, "AUE"@, 0));
                reveal_strlit("AUR");
                assert(differ_at("INTERNET"@, "AUR"@, 0));
                reveal_strlit("BS");
                assert(differ_at("INTERNET"@, "BS"@, 0));
                reveal_strlit("ECH");
                assert(differ_at("INTERNET"@, "ECH"@, 0));
                reveal_strlit("EME");
                assert(differ_at("INTERNET"@, "EME"@, 0));
                reveal_strlit("ES");
                assert(differ_at("INTERNET"@, "ES"@, 0));
                reveal_strlit("F2");
                assert(differ_at("INTERNET"@, "F2"@, 0));
                reveal_strlit("FAI");
                assert(differ_at("INTERNET"@, "FAI"@, 0));
                reveal_strlit("GWAVE");
                assert(differ_at("INTERNET"@, "GWAVE"@, 0));
                assert(token_chars("INTERNET"@));
            },
            PropagationMode::Ionoscatter => {
                reveal_strlit("ION");
                reveal_strlit("AS");
                assert(differ_at("ION"@, "AS"@, 0));
                reveal_strlit("AUE");
                assert(differ_at("ION"@, "AUE"@, 0));
                reveal_strlit("AUR");
                assert(differ_at("ION"@, "AUR"@, 0));
                reveal_strlit("BS");
                assert(differ_at("ION"@, "BS"@, 0));
                reveal_strlit("ECH");
                assert(differ_at("ION"@, "ECH"@, 0));
                reveal_strlit("EME");
                assert(differ_at("ION"@, "EME"@, 0));
                reveal_strlit("ES");
                assert(differ_at("ION"@, "ES"@, 0));
                reveal_strlit("F2");
                assert(differ_at("ION"@, "F2"@, 0));
                reveal_strlit("FAI");
                assert(differ_at("ION"@, "FAI"@, 0));
                reveal_strlit("GWAVE");
                assert(differ_at("ION"@, "GWAVE"@, 0));
                reveal_strlit("INTERNET");
                assert(differ_at("ION"@, "INTERNET"@, 0));
                assert(token_chars("ION"@));
            },
            PropagationMode::IRLP => {
                reveal_strlit("IRL");
                reveal_strlit("AS");
                assert(differ_at("IRL"@, "AS"@, 0));
                reveal_strlit("AUE");
                assert(differ_at("IRL"@, "AUE"@, 0));
                reveal_strlit("AUR");
                assert(differ_at("IRL"@, "AUR"@, 0));
                reveal_strlit("BS");
                assert(differ_at("IRL"@, "BS"@, 0));
                reveal_strlit("ECH");
                assert(differ_at("IRL"@, "ECH"@, 0));
                reveal_strlit("EME");
                assert(differ_at("IRL"@, "EME"@, 0));
                reveal_strlit("ES");
                assert(differ_at("IRL"@, "ES"@, 0));
                reveal_strlit("F2");
                assert(differ_at("IRL"@, "F2"@, 0));
                reveal_strlit("FAI");
                assert(differ_at("IRL"@, "FAI"@, 0));
                reveal_strlit("GWAVE");
                assert(differ_at("IRL"@, "GWAVE"@, 0));
                reveal_strlit("INTERNET");
                assert(differ_at("IRL"@, "INTERNET"@, 0));
                reveal_strlit("ION");
                assert(differ_at("IRL"@, "ION"@, 1));
                assert(token_chars("IRL"@));
            },
            PropagationMode::LineOfSight => {
                reveal_strlit("LOS");
                reveal_strlit("AS");
                assert(differ_at("LOS"@, "AS"@, 0));
                reveal_strlit("AUE");
                assert(differ_at("LOS"@, "AUE"@, 0));
                reveal_strlit("AUR");
                assert(differ_at("LOS"@, "AUR"@, 0));
                reveal_strlit("BS");
                assert(differ_at("LOS"@, "BS"@, 0));
                reveal_strlit("ECH");
                assert(differ_at("LOS"@, "ECH"@, 0));
                reveal_strlit("EME");
                assert(differ_at("LOS"@, "EME"@, 0));
                reveal_strlit("ES");
                assert(differ_at("LOS"@, "ES"@, 0));
                reveal_strlit("F2");
                assert(differ_at("LOS"@, "F2"@, 0));
                reveal_strlit("FAI");
                assert(differ_at("LOS"@, "FAI"@, 0));
                reveal_strlit("GWAVE");
                assert(differ_at("LOS"@, "GWAVE"@, 0));
                reveal_strlit("INTERNET");
                assert(differ_at("LOS"@, "INTERNET"@, 0));
                reveal_strlit("ION");
                assert(differ_at("LOS"@, "ION"@, 0));
                reveal_strlit("IRL");
                assert(differ_at("LOS"@, "IRL"@, 0));
                assert(token_chars("LOS"@));
            },
            PropagationMode::MeteorScatter => {
                reveal_strlit("MS");
                reveal_strlit("AS");
                assert(differ_at("MS"@, "AS"@, 0));
                reveal_strlit("AUE");
                assert(differ_at("MS"@, "AUE"@, 0));
                reveal_strlit("AUR");
                assert(differ_at("MS"@, "AUR"@, 0));
                reveal_strlit("BS");
                assert(differ_at("MS"@, "BS"@, 0));
                reveal_strlit("ECH");
                assert(differ_at("MS"@, "ECH"@, 0));
                reveal_strlit("EME");
                assert(differ_at("MS"@, "EME"@, 0));
                reveal_strlit("ES");
                assert(differ_at("MS"@, "ES"@, 0));
                reveal_strlit("F2");
                assert(differ_at("MS"@, "F2"@, 0));
                reveal_strlit("FAI");
                assert(differ_at("MS"@, "FAI"@, 0));
                reveal_strlit("GWAVE");
                assert(differ_at("MS"@, "GWAVE"@, 0));
                reveal_strlit("INTERNET");
                assert(differ_at("MS"@, "INTERNET"@, 0));
                reveal_strlit("ION");
                assert(differ_at("MS"@, "ION"@, 0));
                reveal_strlit("IRL");
                assert(differ_at("MS"@, "IRL"@, 0));
                reveal_strlit("LOS");
                assert(differ_at("MS"@, "LOS"@, 0));
                assert(token_chars("MS"@));
            },
            PropagationMode::Repeater => {
                reveal_strlit("RPT");
                reveal_strlit("AS");
                assert(differ_at("RPT"@, "AS"@, 0));
                reveal_strlit("AUE");
                assert(differ_at("RPT"@, "AUE"@, 0));
                reveal_strlit("AUR");
                assert(differ_at("RPT"@, "AUR"@, 0));
                reveal_strlit("BS");
                assert(differ_at("RPT"@, "BS"@, 0));
                reveal_strlit("ECH");
                assert(differ_at("RPT"@, "ECH"@, 0));
                reveal_strlit("EME");
                assert(differ_at("RPT"@, "EME"@, 0));
                reveal_strlit("ES");
                assert(differ_at("RPT"@, "ES"@, 0));
                reveal_strlit("F2");
                assert(differ_at("RPT"@, "F2"@, 0));
                reveal_strlit("FAI");
                assert(differ_at("RPT"@, "FAI"@, 0));
                reveal_strlit("GWAVE");
                assert(differ_at("RPT"@, "GWAVE"@, 0));
                reveal_strlit("INTERNET");
                assert(differ_at("RPT"@, "INTERNET"@, 0));
                reveal_strlit("ION");
                assert(differ_at("RPT"@, "ION"@, 0));
                reveal_strlit("IRL");
                assert(differ_at("RPT"@, "IRL"@, 0));
                reveal_strlit("LOS");
                assert(differ_at("RPT"@, "LOS"@, 0));
                reveal_strlit("MS");
                assert(differ_at("RPT"@, "MS"@, 0));
                assert(token_chars("RPT"@));
            },
            PropagationMode::RainScatter => {
                reveal_strlit("RS");
                reveal_strlit("AS");
                assert(differ_at("RS"@, "AS"@, 0));
                reveal_strlit("AUE");
                assert(differ_at("RS"@, "AUE"@, 0));
                reveal_strlit("AUR");
                assert(differ_at("RS"@, "AUR"@, 0));
                reveal_strlit("BS");
                assert(differ_at("RS"@, "BS"@, 0));
                reveal_strlit("ECH");
                assert(differ_at("RS"@, "ECH"@, 0));
                reveal_strlit("EME");
                assert(differ_at("RS"@, "EME"@, 0));
                reveal_strlit("ES");
                assert(differ_at("RS"@, "ES"@, 0));
                reveal_strlit("F2");
                assert(differ_at("RS"@, "F2"@, 0));
                reveal_strlit("FAI");
                assert(differ_at("RS"@, "FAI"@, 0));
                reveal_strlit("GWAVE");
                assert(differ_at("RS"@, "GWAVE"@, 0));
                reveal_strlit("INTERNET");
                assert(differ_at("RS"@, "INTERNET"@, 0));
                reveal_strlit("ION");
                assert(differ_at("RS"@, "ION"@, 0));
                reveal_strlit("IRL");
                assert(differ_at("RS"@, "IRL"@, 0));
                reveal_strlit("LOS");
                assert(differ_at("RS"@, "LOS"@, 0));
                reveal_strlit("MS");
                assert(differ_at("RS"@, "MS"@, 0));
                reveal_strlit("RPT");
                assert(differ_at("RS"@, "RPT"@, 0));
                assert(token_chars("RS"@));
            },
            PropagationMode::Satellite => {
                reveal_strlit("SAT");
                reveal_strlit("AS");
                assert(differ_at("SAT"@, "AS"@, 0));
                reveal_strlit("AUE");
                assert(differ_at("SAT"@, "AUE"@, 0));
                reveal_strlit("AUR");
                assert(differ_at("SAT"@, "AUR"@, 0));
                reveal_strlit("BS");
                assert(differ_at("SAT"@, "BS"@, 0));
                reveal_strlit("ECH");
                assert(differ_at("SAT"@, "ECH"@, 0));
                reveal_strlit("EME");
                assert(differ_at("SAT"@, "EME"@, 0));
                reveal_strlit("ES");
                assert(differ_at("SAT"@, "ES"@, 0));
                reveal_strlit("F2");
                assert(differ_at("SAT"@, "F2"@, 0));
                reveal_strlit("FAI");
                assert(differ_at("SAT"@, "FAI"@, 0));
                reveal_strlit("GWAVE");
                assert(differ_at("SAT"@, "GWAVE"@, 0));
                reveal_strlit("INTERNET");
                assert(differ_at("SAT"@, "INTERNET"@, 0));
                reveal_strlit("ION");
                assert(differ_at("SAT"@, "ION"@, 0));
                reveal_strlit("IRL");
                assert(differ_at("SAT"@, "IRL"@, 0));
                reveal_strlit("LOS");
                assert(differ_at("SAT"@, "LOS"@, 0));
                reveal_strlit("MS");
                assert(differ_at("SAT"@, "MS"@, 0));
                reveal_strlit("RPT");
                assert(differ_at("SAT"@, "RPT"@, 0));
                reveal_strlit("RS");
                assert(differ_at("SAT"@, "RS"@, 0));
                assert(token_chars("SAT"@));
            },
            PropagationMode::TransEquatorial => {
                reveal_strlit("TEP");
                reveal_strlit("AS");
                assert(differ_at("TEP"@, "AS"@, 0));
                reveal_strlit("AUE");
                assert(differ_at("TEP"@, "AUE"@, 0));
                reveal_strlit("AUR");
                assert(differ_at("TEP"@, "AUR"@, 0));
                reveal_strlit("BS");
                assert(differ_at("TEP"@, "BS"@, 0));
                reveal_strlit("ECH");
                assert(differ_at("TEP"@, "ECH"@, 0));
                reveal_strlit("EME");
                assert(differ_at("TEP"@, "EME"@, 0));
                reveal_strlit("ES");
                assert(differ_at("TEP"@, "ES"@, 0));
                reveal_strlit("F2");
                assert(differ_at("TEP"@, "F2"@, 0));
                reveal_strlit("FAI");
                assert(differ_at("TEP"@, "FAI"@, 0));
                reveal_strlit("GWAVE");
                assert(differ_at("TEP"@, "GWAVE"@, 0));
                reveal_strlit("INTERNET");
                assert(differ_at("TEP"@, "INTERNET"@, 0));
                reveal_strlit("ION");
                assert(differ_at("TEP"@, "ION"@, 0));
                reveal_strlit("IRL");
                assert(differ_at("TEP"@, "IRL"@, 0));
                reveal_strlit("LOS");
                assert(differ_at("TEP"@, "LOS"@, 0));
                reveal_strlit("MS");
                assert(differ_at("TEP"@, "MS"@, 0));
                reveal_strlit("RPT");
                assert(differ_at("TEP"@, "RPT"@, 0));
                reveal_strlit("RS");
                assert(differ_at("TEP"@, "RS"@, 0));
                reveal_strlit("SAT");
                assert(differ_at("TEP"@, "SAT"@, 0));
                assert(token_chars("TEP"@));
            },
            PropagationMode::TroposphericDucting => {
                reveal_strlit("TR");
                reveal_strlit("AS");
                assert(differ_at("TR"@, "AS"@, 0));
                reveal_strlit("AUE");
                assert(differ_at("TR"@, "AUE"@, 0));
                reveal_strlit("AUR");
                assert(differ_at("TR"@, "AUR"@, 0));
                reveal_strlit("BS");
                assert(differ_at("TR"@, "BS"@, 0));
                reveal_strlit("ECH");
                assert(differ_at("TR"@, "ECH"@, 0));
                reveal_strlit("EME");
                assert(differ_at("TR"@, "EME"@, 0));
                reveal_strlit("ES");
                assert(differ_at("TR"@, "ES"@, 0));
                reveal_strlit("F2");
                assert(differ_at("TR"@, "F2"@, 0));
                reveal_strlit("FAI");
                assert(differ_at("TR"@, "FAI"@, 0));
                reveal_strlit("GWAVE");
                assert(differ_at("TR"@, "GWAVE"@, 0));
                reveal_strlit("INTERNET");
                assert(differ_at("TR"@, "INTERNET"@, 0));
                reveal_strlit("ION");
                assert(differ_at("TR"@, "ION"@, 0));
                reveal_strlit("IRL");
                assert(differ_at("TR"@, "IRL"@, 0));
                reveal_strlit("LOS");
                assert(differ_at("TR"@, "LOS"@, 0));
                reveal_strlit("MS");
                assert(differ_at("TR"@, "MS"@, 0));
                reveal_strlit("RPT");
                assert(differ_at("TR"@, "RPT"@, 0));
                reveal_strlit("RS");
                assert(differ_at("TR"@, "RS"@, 0));
                reveal_strlit("SAT");
                assert(differ_at("TR"@, "SAT"@, 0));
                reveal_strlit("TEP");
                assert(differ_at("TR"@, "TEP"@, 0));
                assert(token_chars("TR"@));
            },
        }
    }
}

impl PropagationMode {
    pub fn serialize(&self) -> (r: String)
        ensures
            r@ == self.spec_token(),
    {
        token_string(self)
    }

    pub fn deserialize(value: &str) -> (r: Result<PropagationMode, AdifError>)
        ensures
            match r {
                Ok(v) => PropagationMode::spec_from_token(value@) == Some(v),
                Err(e) => PropagationMode::spec_from_token(value@) is None && e.kind
                    == ErrorKind::UnknownEnumerationToken,
            },
    {
        parse_token(value)
    }
}

/// Media by which a QSL is confirmed.
#[allow(non_camel_case_types)]
#[derive(Clone, Copy, Debug, PartialEq, Eq, Hash, Structural)]
pub enum QslMedium {
    Card,
    eQSL,
    LoTW,
}

impl View for QslMedium {
    type V = QslMedium;

    open spec fn view(&self) -> QslMedium {
        *self
    }
}

impl Vocabulary for QslMedium {
    open spec fn spec_token(self) -> Seq<char> {
        match self {
            QslMedium::Card => "CARD"@,
            QslMedium::eQSL => "EQSL"@,
            QslMedium::LoTW => "LOTW"@,
        }
    }

    closed spec fn spec_from_token(s: Seq<char>) -> Option<QslMedium> {
        if s == "CARD"@ {
            Some(QslMedium::Card)
        } else if s == "EQSL"@ {
            Some(QslMedium::eQSL)
        } else if s == "LOTW"@ {
            Some(QslMedium::LoTW)
        } else {
            None
        }
    }

    fn push_token(&self, out: &mut Vec<char>) {
        match self {
            QslMedium::Card => append_str(out, "CARD"),
            QslMedium::eQSL => append_str(out, "EQSL"),
            QslMedium::LoTW => append_str(out, "LOTW"),
        }
    }

    fn from_token(s: &[char]) -> (r: Option<QslMedium>) {
        if chars_eq_str(s, "CARD") {
            Some(QslMedium::Card)
        } else if chars_eq_str(s, "EQSL") {
            Some(QslMedium::eQSL)
        } else if chars_eq_str(s, "LOTW") {
            Some(QslMedium::LoTW)
        } else {
            None
        }
    }

    proof fn lemma_from_token(s: Seq<char>) {
    }

    proof fn lemma_token(self) {
        match self {
            QslMedium::Card => {
                reveal_strlit("CARD");
                assert(token_chars("CARD"@));
            },
            QslMedium::eQSL => {
                reveal_strlit("EQSL");
                reveal_strlit("CARD");
                assert(differ_at("EQSL"@, "CARD"@, 0));
                assert(token_chars("EQSL"@));
            },
            QslMedium::LoTW => {
                reveal_strlit("LOTW");
                reveal_strlit("CARD");
                assert(differ_at("LOTW"@, "CARD"@, 0));
                reveal_strlit("EQSL");
                assert(differ_at("LOTW"@, "EQSL"@, 0));
                assert(token_chars("LOTW"@));
            },
        }
    }
}

impl QslMedium {
    pub fn serialize(&self) -> (r: String)
        ensures
            r@ == self.spec_token(),
    {
        token_string(self)
    }

    pub fn deserialize(value: &str) -> (r: Result<QslMedium, AdifError>)
        ensures
            match r {
                Ok(v) => QslMedium::spec_from_token(value@) == Some(v),
                Err(e) => QslMedium::spec_from_token(value@) is None && e.kind
                    == ErrorKind::UnknownEnumerationToken,
            },
    {
        parse_token(value)
    }
}

/// Status of a received QSL.
#[allow(non_camel_case_types)]
#[derive(Clone, Copy, Debug, PartialEq, Eq, Hash, Structural)]
pub enum QslRcvd {
    Yes,
    No,
    Requested,
    Invalid,
    Verified,
}

impl View for QslRcvd {
    type V = QslRcvd;

    open spec fn view(&self) -> QslRcvd {
        *self
    }
}

impl Vocabulary for QslRcvd {
    open spec fn spec_token(self) -> Seq<char> {
        match self {
            QslRcvd::Yes => "Y"@,
            QslRcvd::No => "N"@,
            QslRcvd::Requested => "R"@,
            QslRcvd::Invalid => "I"@,
            QslRcvd::Verified => "V"@,
        }
    }

    closed spec fn spec_from_token(s: Seq<char>) -> Option<QslRcvd> {
        if s == "Y"@ {
            Some(QslRcvd::Yes)
        } else if s == "N"@ {
            Some(QslRcvd::No)
        } else if s == "R"@ {
            Some(QslRcvd::Requested)
        } else if s == "I"@ {
            Some(QslRcvd::Invalid)
        } else if s == "V"@ {
            Some(QslRcvd::Verified)
        } else {
            None
        }
    }

    fn push_token(&self, out: &mut Vec<char>) {
        match self {
            QslRcvd::Yes => append_str(out, "Y"),
            QslRcvd::No => append_str(out, "N"),
            QslRcvd::Requested => append_str(out, "R"),
            QslRcvd::Invalid => append_str(out, "I"),
            QslRcvd::Verified => append_str(out, "V"),
        }
    }

    fn from_token(s: &[char]) -> (r: Option<QslRcvd>) {
        if chars_eq_str(s, "Y") {
            Some(QslRcvd::Yes)
        } else if chars_eq_str(s, "N") {
            Some(QslRcvd::No)
        } else if chars_eq_str(s, "R") {
            Some(QslRcvd::Requested)
        } else if chars_eq_str(s, "I") {
            Some(QslRcvd::Invalid)
        } else if chars_eq_str(s, "V") {
            Some(QslRcvd::Verified)
        } else {
            None
        }
    }

    proof fn lemma_from_token(s: Seq<char>) {
    }

    proof fn lemma_token(self) {
        match self {
            QslRcvd::Yes => {
                reveal_strlit("Y");
                assert(token_chars("Y"@));
            },
            QslRcvd::No => {
                reveal_strlit("N");
                reveal_strlit("Y");
                assert(differ_at("N"@, "Y"@, 0));
                assert(token_chars("N"@));
            },
            QslRcvd::Requested => {
                reveal_strlit("R");
                reveal_strlit("Y");
                assert(differ_at("R"@, "Y"@, 0));
                reveal_strlit("N");
                assert(differ_at("R"@, "N"@, 0));
                assert(token_chars("R"@));
            },
            QslRcvd::Invalid => {
                reveal_strlit("I");
                reveal_strlit("Y");
                assert(differ_at("I"@, "Y"@, 0));
                reveal_strlit("N");
                assert(differ_at("I"@, "N"@, 0));
                reveal_strlit("R");
                assert(differ_at("I"@, "R"@, 0));
                assert(token_chars("I"@));
            },
            QslRcvd::Verified => {
                reveal_strlit("V");
                reveal_strlit("Y");
                assert(differ_at("V"@, "Y"@, 0));
                reveal_strlit("N");
                assert(differ_at("V"@, "N"@, 0));
                reveal_strlit("R");
                assert(differ_at("V"@, "R"@, 0));
                reveal_strlit("I");
                assert(differ_at("V"@, "I"@, 0));
                assert(token_chars("V"@));
            },
        }
    }
}

impl QslRcvd {
    pub fn serialize(&self) -> (r: String)
        ensures
            r@ == self.spec_token(),
    {
        token_string(self)
    }

    pub fn deserialize(value: &str) -> (r: Result<QslRcvd, AdifError>)
        ensures
            match r {
                Ok(v) => QslRcvd::spec_from_token(value@) == Some(v),
                Err(e) => QslRcvd::spec_from_token(value@) is None && e.kind
                    == ErrorKind::UnknownEnumerationToken,
            },
    {
        parse_token(value)
    }
}

/// Status of a sent QSL.
#[allow(non_camel_case_types)]
#[derive(Clone, Copy, Debug, PartialEq, Eq, Hash, Structural)]
pub enum QslSent {
    Yes,
    No,
    Requested,
    Queued,
    Invalid,
}

impl View for QslSent {
    type V = QslSent;

    open spec fn view(&self) -> QslSent {
        *self
    }
}

impl Vocabulary for QslSent {
    open spec fn spec_token(self) -> Seq<char> {
        match self {
            QslSent::Yes => "Y"@,
            QslSent::No => "N"@,
            QslSent::Requested => "R"@,
            QslSent::Queued => "Q"@,
            QslSent::Invalid => "I"@,
        }
    }

    closed spec fn spec_from_token(s: Seq<char>) -> Option<QslSent> {
        if s == "Y"@ {
            Some(QslSent::Yes)
        } else if s == "N"@ {
            Some(QslSent::No)
        } else if s == "R"@ {
            Some(QslSent::Requested)
        } else if s == "Q"@ {
            Some(QslSent::Queued)
        } else if s == "I"@ {
            Some(QslSent::Invalid)
        } else {
            None
        }
    }

    fn push_token(&self, out: &mut Vec<char>) {
        match self {
            QslSent::Yes => append_str(out, "Y"),
            QslSent::No => append_str(out, "N"),
            QslSent::Requested => append_str(out, "R"),
            QslSent::Queued => append_str(out, "Q"),
            QslSent::Invalid => append_str(out, "I"),
        }
    }

    fn from_token(s: &[char]) -> (r: Option<QslSent>) {
        if chars_eq_str(s, "Y") {
            Some(QslSent::Yes)
        } else if chars_eq_str(s, "N") {
            Some(QslSent::No)
        } else if chars_eq_str(s, "R") {
            Some(QslSent::Requested)
        } else if chars_eq_str(s, "Q") {
            Some(QslSent::Queued)
        } else if chars_eq_str(s, "I") {
            Some(QslSent::Invalid)
        } else {
            None
        }
    }

    proof fn lemma_from_token(s: Seq<char>) {
    }

    proof fn lemma_token(self) {
        match self {
            QslSent::Yes => {
                reveal_strlit("Y");
                assert(token_chars("Y"@));
            },
            QslSent::No => {
                reveal_strlit("N");
                reveal_strlit("Y");
                assert(differ_at("N"@, "Y"@, 0));
                assert(token_chars("N"@));
            },
            QslSent::Requested => {
                reveal_strlit("R");
                reveal_strlit("Y");
                assert(differ_at("R"@, "Y"@, 0));
                reveal_strlit("N");
                assert(differ_at("R"@, "N"@, 0));
                assert(token_chars("R"@));
            },
            QslSent::Queued => {
                reveal_strlit("Q");
                reveal_strlit("Y");
                assert(differ_at("Q"@, "Y"@, 0));
                reveal_strlit("N");
                assert(differ_at("Q"@, "N"@, 0));
                reveal_strlit("R");
                assert(differ_at("Q"@, "R"@, 0));
                assert(token_chars("Q"@));
            },
            QslSent::Invalid => {
                reveal_strlit("I");
                reveal_strlit("Y");
                assert(differ_at("I"@, "Y"@, 0));
                reveal_strlit("N");
                assert(differ_at("I"@, "N"@, 0));
                reveal_strlit("R");
                assert(differ_at("I"@, "R"@, 0));
                reveal_strlit("Q");
                assert(differ_at("I"@, "Q"@, 0));
                assert(token_chars("I"@));
            },
        }
    }
}

impl QslSent {
    pub fn serialize(&self) -> (r: String)
        ensures
            r@ == self.spec_token(),
    {
        token_string(self)
    }

    pub fn deserialize(value: &str) -> (r: Result<QslSent, AdifError>)
        ensures
            match r {
                Ok(v) => QslSent::spec_from_token(value@) == Some(v),
                Err(e) => QslSent::spec_from_token(value@) is None && e.kind
                    == ErrorKind::UnknownEnumerationToken,
            },
    {
        parse_token(value)
    }
}

/// Routes by which a QSL card travels.
#[allow(non_camel_case_types)]
#[derive(Clone, Copy, Debug, PartialEq, Eq, Hash, Structural)]
pub enum QslVia {
    Bureau,
    Direct,
    Electronic,
    Manager,
}

impl View for QslVia {
    type V = QslVia;

    open spec fn view(&self) -> QslVia {
        *self
    }
}

impl Vocabulary for QslVia {
    open spec fn spec_token(self) -> Seq<char> {
        match self {
            QslVia::Bureau => "B"@,
            QslVia::Direct => "D"@,
            QslVia::Electronic => "E"@,
            QslVia::Manager => "M"@,
        }
    }

    closed spec fn spec_from_token(s: Seq<char>) -> Option<QslVia> {
        if s == "B"@ {
            Some(QslVia::Bureau)
        } else if s == "D"@ {
            Some(QslVia::Direct)
        } else if s == "E"@ {
            Some(QslVia::Electronic)
        } else if s == "M"@ {
            Some(QslVia::Manager)
        } else {
            None
        }
    }

    fn push_token(&self, out: &mut Vec<char>) {
        match self {
            QslVia::Bureau => append_str(out, "B"),
            QslVia::Direct => append_str(out, "D"),
            QslVia::Electronic => append_str(out, "E"),
            QslVia::Manager => append_str(out, "M"),
        }
    }

    fn from_token(s: &[char]) -> (r: Option<QslVia>) {
        if chars_eq_str(s, "B") {
            Some(QslVia::Bureau)
        } else if chars_eq_str(s, "D") {
            Some(QslVia::Direct)
        } else if chars_eq_str(s, "E") {
            Some(QslVia::Electronic)
        } else if chars_eq_str(s, "M") {
            Some(QslVia::Manager)
        } else {
            None
        }
    }

    proof fn lemma_from_token(s: Seq<char>) {
    }

    proof fn lemma_token(self) {
        match self {
            QslVia::Bureau => {
                reveal_strlit("B");
                assert(token_chars("B"@));
            },
            QslVia::Direct => {
                reveal_strlit("D");
                reveal_strlit("B");
                assert(differ_at("D"@, "B"@, 0));
                assert(token_chars("D"@));
            },
            QslVia::Electronic => {
                reveal_strlit("E");
                reveal_strlit("B");
                assert(differ_at("E"@, "B"@, 0));
                reveal_strlit("D");
                assert(differ_at("E"@, "D"@, 0));
                assert(token_chars("E"@));
            },
            QslVia::Manager => {
                reveal_strlit("M");
                reveal_strlit("B");
                assert(differ_at("M"@, "B"@, 0));
                reveal_strlit("D");
                assert(differ_at("M"@, "D"@, 0));
                reveal_strlit("E");
                assert(differ_at("M"@, "E"@, 0));
                assert(token_chars("M"@));
            },
        }
    }
}

impl QslVia {
    pub fn serialize(&self) -> (r: String)
        ensures
            r@ == self.spec_token(),
    {
        token_string(self)
    }

    pub fn deserialize(value: &str) -> (r: Result<QslVia, AdifError>)
        ensures
            match r {
                Ok(v) => QslVia::spec_from_token(value@) == Some(v),
                Err(e) => QslVia::spec_from_token(value@) is None && e.kind
                    == ErrorKind::UnknownEnumerationToken,
            },
    {
        parse_token(value)
    }
}

/// Whether a contact was completed.
#[allow(non_camel_case_types)]
#[derive(Clone, Copy, Debug, PartialEq, Eq, Hash, Structural)]
pub enum QsoComplete {
    Yes,
    No,
    NotHeard,
    Uncertain,
}

impl View for QsoComplete {
    type V = QsoComplete;

    open spec fn view(&self) -> QsoComplete {
        *self
    }
}

impl Vocabulary for QsoComplete {
    open spec fn spec_token(self) -> Seq<char> {
        match self {
            QsoComplete::Yes => "Y"@,
            QsoComplete::No => "N"@,
            QsoComplete::NotHeard => "NIL"@,
            QsoComplete::Uncertain => "?"@,
        }
    }

    closed spec fn spec_from_token(s: Seq<char>) -> Option<QsoComplete> {
        if s == "Y"@ {
            Some(QsoComplete::Yes)
        } else if s == "N"@ {
            Some(QsoComplete::No)
        } else if s == "NIL"@ {
            Some(QsoComplete::NotHeard)
        } else if s == "?"@ {
            Some(QsoComplete::Uncertain)
        } else {
            None
        }
    }

    fn push_token(&self, out: &mut Vec<char>) {
        match self {
            QsoComplete::Yes => append_str(out, "Y"),
            QsoComplete::No => append_str(out, "N"),
            QsoComplete::NotHeard => append_str(out, "NIL"),
            QsoComplete::Uncertain => append_str(out, "?"),
        }
    }

    fn from_token(s: &[char]) -> (r: Option<QsoComplete>) {
        if chars_eq_str(s, "Y") {
            Some(QsoComplete::Yes)
        } else if chars_eq_str(s, "N") {
            Some(QsoComplete::No)
        } else if chars_eq_str(s, "NIL") {
            Some(QsoComplete::NotHeard)
        } else if chars_eq_str(s, "?") {
            Some(QsoComplete::Uncertain)
        } else {
            None
        }
    }

    proof fn lemma_from_token(s: Seq<char>) {
    }

    proof fn lemma_token(self) {
        match self {
            QsoComplete::Yes => {
                reveal_strlit("Y");
                assert(token_chars("Y"@));
            },
            QsoComplete::No => {
                reveal_strlit("N");
                reveal_strlit("Y");
                assert(differ_at("N"@, "Y"@, 0));
                assert(token_chars("N"@));
            },
            QsoComplete::NotHeard => {
                reveal_strlit("NIL");
                reveal_strlit("Y");
                assert(differ_at("NIL"@, "Y"@, 0));
                reveal_strlit("N");
                assert(differ_at("NIL"@, "N"@, 0));
                assert(token_chars("NIL"@));
            },
            QsoComplete::Uncertain => {
                reveal_strlit("?");
                reveal_strlit("Y");
                assert(differ_at("?"@, "Y"@, 0));
                reveal_strlit("N");
                assert(differ_at("?"@, "N"@, 0));
                reveal_strlit("NIL");
                assert(differ_at("?"@, "NIL"@, 0));
                assert(token_chars("?"@));
            },
        }
    }
}

impl QsoComplete {
    pub fn serialize(&self) -> (r: String)
        ensures
            r@ == self.spec_token(),
    {
        token_string(self)
    }

    pub fn deserialize(value: &str) -> (r: Result<QsoComplete, AdifError>)
        ensures
            match r {
                Ok(v) => QsoComplete::spec_from_token(value@) == Some(v),
                Err(e) => QsoComplete::spec_from_token(value@) is None && e.kind
                    == ErrorKind::UnknownEnumerationToken,
            },
    {
        parse_token(value)
    }
}

/// Upload status of a contact to an online service.
#[allow(non_camel_case_types)]
#[derive(Clone, Copy, Debug, PartialEq, Eq, Hash, Structural)]
pub enum QsoUploadStatus {
    Yes,
    No,
    Modified,
}

impl View for QsoUploadStatus {
    type V = QsoUploadStatus;

    open spec fn view(&self) -> QsoUploadStatus {
        *self
    }
}

impl Vocabulary for QsoUploadStatus {
    open spec fn spec_token(self) -> Seq<char> {
        match self {
            QsoUploadStatus::Yes => "Y"@,
            QsoUploadStatus::No => "N"@,
            QsoUploadStatus::Modified => "M"@,
        }
    }

    closed spec fn spec_from_token(s: Seq<char>) -> Option<QsoUploadStatus> {
        if s == "Y"@ {
            Some(QsoUploadStatus::Yes)
        } else if s == "N"@ {
            Some(QsoUploadStatus::No)
        } else if s == "M"@ {
            Some(QsoUploadStatus::Modified)
        } else {
            None
        }
    }

    fn push_token(&self, out: &mut Vec<char>) {
        match self {
            QsoUploadStatus::Yes => append_str(out, "Y"),
            QsoUploadStatus::No => append_str(out, "N"),
            QsoUploadStatus::Modified => append_str(out, "M"),
        }
    }

    fn from_token(s: &[char]) -> (r: Option<QsoUploadStatus>) {
        if chars_eq_str(s, "Y") {
            Some(QsoUploadStatus::Yes)
        } else if chars_eq_str(s, "N") {
            Some(QsoUploadStatus::No)
        } else if chars_eq_str(s, "M") {
            Some(QsoUploadStatus::Modified)
        } else {
            None
        }
    }

    proof fn lemma_from_token(s: Seq<char>) {
    }

    proof fn lemma_token(self) {
        match self {
            QsoUploadStatus::Yes => {
                reveal_strlit("Y");
                assert(token_chars("Y"@));
            },
            QsoUploadStatus::No => {
                reveal_strlit("N");
                reveal_strlit("Y");
                assert(differ_at("N"@, "Y"@, 0));
                assert(token_chars("N"@));
            },
            QsoUploadStatus::Modified => {
                reveal_strlit("M");
                reveal_strlit("Y");
                assert(differ_at("M"@, "Y"@, 0));
                reveal_strlit("N");
                assert(differ_at("M"@, "N"@, 0));
                assert(token_chars("M"@));
            },
        }
    }
}

impl QsoUploadStatus {
    pub fn serialize(&self) -> (r: String)
        ensures
            r@ == self.spec_token(),
    {
        token_string(self)
    }

    pub fn deserialize(value: &str) -> (r: Result<QsoUploadStatus, AdifError>)
        ensures
            match r {
                Ok(v) => QsoUploadStatus::spec_from_token(value@) == Some(v),
                Err(e) => QsoUploadStatus::spec_from_token(value@) is None && e.kind
                    == ErrorKind::UnknownEnumerationToken,
            },
    {
        parse_token(value)
    }
}

/// Regions that are counted apart from their DXCC entity.
#[allow(non_camel_case_types)]
#[derive(Clone, Copy, Debug, PartialEq, Eq, Hash, Structural)]
pub enum Region {
    NoRegion,
    ITUVienna,
    AfricanItaly,
    Sicily,
    BearIsland,
    ShetlandIslands,
    Kosovo,
    EuropeanTurkey,
}

impl View for Region {
    type V = Region;

    open spec fn view(&self) -> Region {
        *self
    }
}

impl Vocabulary for Region {
    open spec fn spec_token(self) -> Seq<char> {
        match self {
            Region::NoRegion => "NONE"@,
            Region::ITUVienna => "IV"@,
            Region::AfricanItaly => "AI"@,
            Region::Sicily => "SY"@,
            Region::BearIsland => "BI"@,
            Region::ShetlandIslands => "SI"@,
            Region::Kosovo => "KO"@,
            Region::EuropeanTurkey => "ET"@,
        }
    }

    closed spec fn spec_from_token(s: Seq<char>) -> Option<Region> {
        if s == "NONE"@ {
            Some(Region::NoRegion)
        } else if s == "IV"@ {
            Some(Region::ITUVienna)
        } else if s == "AI"@ {
            Some(Region::AfricanItaly)
        } else if s == "SY"@ {
            Some(Region::Sicily)
        } else if s == "BI"@ {
            Some(Region::BearIsland)
        } else if s == "SI"@ {
            Some(Region::ShetlandIslands)
        } else if s == "KO"@ {
            Some(Region::Kosovo)
        } else if s == "ET"@ {
            Some(Region::EuropeanTurkey)
        } else {
            None
        }
    }

    fn push_token(&self, out: &mut Vec<char>) {
        match self {
            Region::NoRegion => append_str(out, "NONE"),
            Region::ITUVienna => append_str(out, "IV"),
            Region::AfricanItaly => append_str(out, "AI"),
            Region::Sicily => append_str(out, "SY"),
            Region::BearIsland => append_str(out, "BI"),
            Region::ShetlandIslands => append_str(out, "SI"),
            Region::Kosovo => append_str(out, "KO"),
            Region::EuropeanTurkey => append_str(out, "ET"),
        }
    }

    fn from_token(s: &[char]) -> (r: Option<Region>) {
        if chars_eq_str(s, "NONE") {
            Some(Region::NoRegion)
        } else if chars_eq_str(s, "IV") {
            Some(Region::ITUVienna)
        } else if chars_eq_str(s, "AI") {
            Some(Region::AfricanItaly)
        } else if chars_eq_str(s, "SY") {
            Some(Region::Sicily)
        } else if chars_eq_str(s, "BI") {
            Some(Region::BearIsland)
        } else if chars_eq_str(s, "SI") {
            Some(Region::ShetlandIslands)
        } else if chars_eq_str(s, "KO") {
            Some(Region::Kosovo)
        } else if chars_eq_str(s, "ET") {
            Some(Region::EuropeanTurkey)
        } else {
            None
        }
    }

    proof fn lemma_from_token(s: Seq<char>) {
    }

    proof fn lemma_token(self) {
        match self {
            Region::NoRegion => {
                reveal_strlit("NONE");
                assert(token_chars("NONE"@));
            },
            Region::ITUVienna => {
                reveal_strlit("IV");
                reveal_strlit("NONE");
                assert(differ_at("IV"@, "NONE"@, 0));
                assert(token_chars("IV"@));
            },
            Region::AfricanItaly => {
                reveal_strlit("AI");
                reveal_strlit("NONE");
                assert(differ_at("AI"@, "NONE"@, 0));
                reveal_strlit("IV");
                assert(differ_at("AI"@, "IV"@, 0));
                assert(token_chars("AI"@));
            },
            Region::Sicily => {
                reveal_strlit("SY");
                reveal_strlit("NONE");
                assert(differ_at("SY"@, "NONE"@, 0));
                reveal_strlit("IV");
                assert(differ_at("SY"@, "IV"@, 0));
                reveal_strlit("AI");
                assert(differ_at("SY"@, "AI"@, 0));
                assert(token_chars("SY"@));
            },
            Region::BearIsland => {
                reveal_strlit("BI");
                reveal_strlit("NONE");
                assert(differ_at("BI"@, "NONE"@, 0));
                reveal_strlit("IV");
                assert(differ_at("BI"@, "IV"@, 0));
                reveal_strlit("AI");
                assert(differ_at("BI"@, "AI"@, 0));
                reveal_strlit("SY");
                assert(differ_at("BI"@, "SY"@, 0));
                assert(token_chars("BI"@));
            },
            Region::ShetlandIslands => {
                reveal_strlit("SI");
                reveal_strlit("NONE");
                assert(differ_at("SI"@, "NONE"@, 0));
                reveal_strlit("IV");
                assert(differ_at("SI"@, "IV"@, 0));
                reveal_strlit("AI");
                assert(differ_at("SI"@, "AI"@, 0));
                reveal_strlit("SY");
                assert(differ_at("SI"@, "SY"@, 1));
                reveal_strlit("BI");
                assert(differ_at("SI"@, "BI"@, 0));
                assert(token_chars("SI"@));
            },
            Region::Kosovo => {
                reveal_strlit("KO");
                reveal_strlit("NONE");
                assert(differ_at("KO"@, "NONE"@, 0));
                reveal_strlit("IV");
                assert(differ_at("KO"@, "IV"@, 0));
                reveal_strlit("AI");
                assert(differ_at("KO"@, "AI"@, 0));
                reveal_strlit("SY");
                assert(differ_at("KO"@, "SY"@, 0));
                reveal_strlit("BI");
                assert(differ_at("KO"@, "BI"@, 0));
                reveal_strlit("SI");
                assert(differ_at("KO"@, "SI"@, 0));
                assert(token_chars("KO"@));
            },
            Region::EuropeanTurkey => {
                reveal_strlit("ET");
                reveal_strlit("NONE");
                assert(differ_at("ET"@, "NONE"@, 0));
                reveal_strlit("IV");
                assert(differ_at("ET"@, "IV"@, 0));
                reveal_strlit("AI");
                assert(differ_at("ET"@, "AI"@, 0));
                reveal_strlit("SY");
                assert(differ_at("ET"@, "SY"@, 0));
                reveal_strlit("BI");
                assert(differ_at("ET"@, "BI"@, 0));
                reveal_strlit("SI");
                assert(differ_at("ET"@, "SI"@, 0));
                reveal_strlit("KO");
                assert(differ_at("ET"@, "KO"@, 0));
                assert(token_chars("ET"@));
            },
        }
    }
}

impl Region {
    pub fn serialize(&self) -> (r: String)
        ensures
            r@ == self.spec_token(),
    {
        token_string(self)
    }

    pub fn deserialize(value: &str) -> (r: Result<Region, AdifError>)
        ensures
            match r {
                Ok(v) => Region::spec_from_token(value@) == Some(v),
                Err(e) => Region::spec_from_token(value@) is None && e.kind
                    == ErrorKind::UnknownEnumerationToken,
            },
    {
        parse_token(value)
    }
}

/// Sponsors of awards.
#[allow(non_camel_case_types)]
#[derive(Clone, Copy, Debug, PartialEq, Eq, Hash, Structural)]
pub enum Sponsor {
    ADIF,
    ARI,
    ARRL,
    CQ,
    DARC,
    EQSL,
    IARU,
    JARL,
    RSGB,
    TAG,
    WABAG,
}

impl View for Sponsor {
    type V = Sponsor;

    open spec fn view(&self) -> Sponsor {
        *self
    }
}

impl Vocabulary for Sponsor {
    open spec fn spec_token(self) -> Seq<char> {
        match self {
            Sponsor::ADIF => "ADIF"@,
            Sponsor::ARI => "ARI"@,
            Sponsor::ARRL => "ARRL"@,
            Sponsor::CQ => "CQ"@,
            Sponsor::DARC => "DARC"@,
            Sponsor::EQSL => "EQSL"@,
            Sponsor::IARU => "IARU"@,
            Sponsor::JARL => "JARL"@,
            Sponsor::RSGB => "RSGB"@,
            Sponsor::TAG => "TAG"@,
            Sponsor::WABAG => "WABAG"@,
        }
    }

    closed spec fn spec_from_token(s: Seq<char>) -> Option<Sponsor> {
        if s == "ADIF"@ {
            Some(Sponsor::ADIF)
        } else if s == "ARI"@ {
            Some(Sponsor::ARI)
        } else if s == "ARRL"@ {
            Some(Sponsor::ARRL)
        } else if s == "CQ"@ {
            Some(Sponsor::CQ)
        } else if s == "DARC"@ {
            Some(Sponsor::DARC)
        } else if s == "EQSL"@ {
            Some(Sponsor::EQSL)
        } else if s == "IARU"@ {
            Some(Sponsor::IARU)
        } else if s == "JARL"@ {
            Some(Sponsor::JARL)
        } else if s == "RSGB"@ {
            Some(Sponsor::RSGB)
        } else if s == "TAG"@ {
            Some(Sponsor::TAG)
        } else if s == "WABAG"@ {
            Some(Sponsor::WABAG)
        } else {
            None
        }
    }

    fn push_token(&self, out: &mut Vec<char>) {
        match self {
            Sponsor::ADIF => append_str(out, "ADIF"),
            Sponsor::ARI => append_str(out, "ARI"),
            Sponsor::ARRL => append_str(out, "ARRL"),
            Sponsor::CQ => append_str(out, "CQ"),
            Sponsor::DARC => append_str(out, "DARC"),
            Sponsor::EQSL => append_str(out, "EQSL"),
            Sponsor::IARU => append_str(out, "IARU"),
            Sponsor::JARL => append_str(out, "JARL"),
            Sponsor::RSGB => append_str(out, "RSGB"),
            Sponsor::TAG => append_str(out, "TAG"),
            Sponsor::WABAG => append_str(out, "WABAG"),
        }
    }

    fn from_token(s: &[char]) -> (r: Option<Sponsor>) {
        if chars_eq_str(s, "ADIF") {
            Some(Sponsor::ADIF)
        } else if chars_eq_str(s, "ARI") {
            Some(Sponsor::ARI)
        } else if chars_eq_str(s, "ARRL") {
            Some(Sponsor::ARRL)
        } else if chars_eq_str(s, "CQ") {
            Some(Sponsor::CQ)
        } else if chars_eq_str(s, "DARC") {
            Some(Sponsor::DARC)
        } else if chars_eq_str(s, "EQSL") {
            Some(Sponsor::EQSL)
        } else if chars_eq_str(s, "IARU") {
            Some(Sponsor::IARU)
        } else if chars_eq_str(s, "JARL") {
            Some(Sponsor::JARL)
        } else if chars_eq_str(s, "RSGB") {
            Some(Sponsor::RSGB)
        } else if chars_eq_str(s, "TAG") {
            Some(Sponsor::TAG)
        } else if chars_eq_str(s, "WABAG") {
            Some(Sponsor::WABAG)
        } else {
            None
        }
    }

    proof fn lemma_from_token(s: Seq<char>) {
    }

    proof fn lemma_token(self) {
        match self {
            Sponsor::ADIF => {
                reveal_strlit("ADIF");
                assert(token_chars("ADIF"@));
            },
            Sponsor::ARI => {
                reveal_strlit("ARI");
                reveal_strlit("ADIF");
                assert(differ_at("ARI"@, "ADIF"@, 0));
                assert(token_chars("ARI"@));
            },
            Sponsor::ARRL => {
                reveal_strlit("ARRL");
                reveal_strlit("ADIF");
                assert(differ_at("ARRL"@, "ADIF"@, 1));
                reveal_strlit("ARI");
                assert(differ_at("ARRL"@, "ARI"@, 0));
                assert(token_chars("ARRL"@));
            },
            Sponsor::CQ => {
                reveal_strlit("CQ");
                reveal_strlit("ADIF");
                assert(differ_at("CQ"@, "ADIF"@, 0));
                reveal_strlit("ARI");
                assert(differ_at("CQ"@, "ARI"@, 0));
                reveal_strlit("ARRL");
                assert(differ_at("CQ"@, "ARRL"@, 0));
                assert(token_chars("CQ"@));
            },
            Sponsor::DARC => {
                reveal_strlit("DARC");
                reveal_strlit("ADIF");
                assert(differ_at("DARC"@, "ADIF"@, 0));
                reveal_strlit("ARI");
                assert(differ_at("DARC"@, "ARI"@, 0));
                reveal_strlit("ARRL");
                assert(differ_at("DARC"@, "ARRL"@, 0));
                reveal_strlit("CQ");
                assert(differ_at("DARC"@, "CQ"@, 0));
                assert(token_chars("DARC"@));
            },
            Sponsor::EQSL => {
                reveal_strlit("EQSL");
                reveal_strlit("ADIF");
                assert(differ_at("EQSL"@, "ADIF"@, 0));
                reveal_strlit("ARI");
                assert(differ_at("EQSL"@, "ARI"@, 0));
                reveal_strlit("ARRL");
                assert(differ_at("EQSL"@, "ARRL"@, 0));
                reveal_strlit("CQ");
                assert(differ_at("EQSL"@, "CQ"@, 0));
                reveal_strlit("DARC");
                assert(differ_at("EQSL"@, "DARC"@, 0));
                assert(token_chars("EQSL"@));
            },
            Sponsor::IARU => {
                reveal_strlit("IARU");
                reveal_strlit("ADIF");
                assert(differ_at("IARU"@, "ADIF"@, 0));
                reveal_strlit("ARI");
                assert(differ_at("IARU"@, "ARI"@, 0));
                reveal_strlit("ARRL");
                assert(differ_at("IARU"@, "ARRL"@, 0));
                reveal_strlit("CQ");
                assert(differ_at("IARU"@, "CQ"@, 0));
                reveal_strlit("DARC");
                assert(differ_at("IARU"@, "DARC"@, 0));
                reveal_strlit("EQSL");
                assert(differ_at("IARU"@, "EQSL"@, 0));
                assert(token_chars("IARU"@));
            },
            Sponsor::JARL => {
                reveal_strlit("JARL");
                reveal_strlit("ADIF");
                assert(differ_at("JARL"@, "ADIF"@, 0));
                reveal_strlit("ARI");
                assert(differ_at("JARL"@, "ARI"@, 0));
                reveal_strlit("ARRL");
                assert(differ_at("JARL"@, "ARRL"@, 0));
                reveal_strlit("CQ");
                assert(differ_at("JARL"@, "CQ"@, 0));
                reveal_strlit("DARC");
                assert(differ_at("JARL"@, "DARC"@, 0));
                reveal_strlit("EQSL");
                assert(differ_at("JARL"@, "EQSL"@, 0));
                reveal_strlit("IARU");
                assert(differ_at("JARL"@, "IARU"@, 0));
                assert(token_chars("JARL"@));
            },
            Sponsor::RSGB => {
                reveal_strlit("RSGB");
                reveal_strlit("ADIF");
                assert(differ_at("RSGB"@, "ADIF"@, 0));
                reveal_strlit("ARI");
                assert(differ_at("RSGB"@, "ARI"@, 0));
                reveal_strlit("ARRL");
                assert(differ_at("RSGB"@, "ARRL"@, 0));
                reveal_strlit("CQ");
                assert(differ_at("RSGB"@, "CQ"@, 0));
                reveal_strlit("DARC");
                assert(differ_at("RSGB"@, "DARC"@, 0));
                reveal_strlit("EQSL");
                assert(differ_at("RSGB"@, "EQSL"@, 0));
                reveal_strlit("IARU");
                assert(differ_at("RSGB"@, "IARU"@, 0));
                reveal_strlit("JARL");
                assert(differ_at("RSGB"@, "JARL"@, 0));
                assert(token_chars("RSGB"@));
            },
            Sponsor::TAG => {
                reveal_strlit("TAG");
                reveal_strlit("ADIF");
                assert(differ_at("TAG"@, "ADIF"@, 0));
                reveal_strlit("ARI");
                assert(differ_at("TAG"@, "ARI"@, 0));
                reveal_strlit("ARRL");
                assert(differ_at("TAG"@, "ARRL"@, 0));
                reveal_strlit("CQ");
                assert(differ_at("TAG"@, "CQ"@, 0));
                reveal_strlit("DARC");
                assert(differ_at("TAG"@, "DARC"@, 0));
                reveal_strlit("EQSL");
                assert(differ_at("TAG"@, "EQSL"@, 0));
                reveal_strlit("IARU");
                assert(differ_at("TAG"@, "IARU"@, 0));
                reveal_strlit("JARL");
                assert(differ_at("TAG"@, "JARL"@, 0));
                reveal_strlit("RSGB");
                assert(differ_at("TAG"@, "RSGB"@, 0));
                assert(token_chars("TAG"@));
            },
            Sponsor::WABAG => {
                reveal_strlit("WABAG");
                reveal_strlit("ADIF");
                assert(differ_at("WABAG"@, "ADIF"@, 0));
                reveal_strlit("ARI");
                assert(differ_at("WABAG"@, "ARI"@, 0));
                reveal_strlit("ARRL");
                assert(differ_at("WABAG"@, "ARRL"@, 0));
                reveal_strlit("CQ");
                assert(differ_at("WABAG"@, "CQ"@, 0));
                reveal_strlit("DARC");
                assert(differ_at("WABAG"@, "DARC"@, 0));
                reveal_strlit("EQSL");
                assert(differ_at("WABAG"@, "EQSL"@, 0));
                reveal_strlit("IARU");
                assert(differ_at("WABAG"@, "IARU"@, 0));
                reveal_strlit("JARL");
                assert(differ_at("WABAG"@, "JARL"@, 0));
                reveal_strlit("RSGB");
                assert(differ_at("WABAG"@, "RSGB"@, 0));
                reveal_strlit("TAG");
                assert(differ_at("WABAG"@, "TAG"@, 0));
                assert(token_chars("WABAG"@));
            },
        }
    }
}

impl Sponsor {
    pub fn serialize(&self) -> (r: String)
        ensures
            r@ == self.spec_token(),
    {
        token_string(self)
    }

    pub fn deserialize(value: &str) -> (r: Result<Sponsor, AdifError>)
        ensures
            match r {
                Ok(v) => Sponsor::spec_from_token(value@) == Some(v),
                Err(e) => Sponsor::spec_from_token(value@) is None && e.kind
                    == ErrorKind::UnknownEnumerationToken,
            },
    {
        parse_token(value)
    }
}

impl Sponsor {
    /// Sponsor tokens hold no `_`, the separator of a sponsored award.
    pub proof fn lemma_token_plain(self)
        ensures
            crate::text::free_of(self.spec_token(), '_'),
    {
        match self {
            Sponsor::ADIF => {
                reveal_strlit("ADIF");
                assert(crate::text::free_of("ADIF"@, '_'));
            },
            Sponsor::ARI => {
                reveal_strlit("ARI");
                assert(crate::text::free_of("ARI"@, '_'));
            },
            Sponsor::ARRL => {
                reveal_strlit("ARRL");
                assert(crate::text::free_of("ARRL"@, '_'));
            },
            Sponsor::CQ => {
                reveal_strlit("CQ");
                assert(crate::text::free_of("CQ"@, '_'));
            },
            Sponsor::DARC => {
                reveal_strlit("DARC");
                assert(crate::text::free_of("DARC"@, '_'));
            },
            Sponsor::EQSL => {
                reveal_strlit("EQSL");
                assert(crate::text::free_of("EQSL"@, '_'));
            },
            Sponsor::IARU => {
                reveal_strlit("IARU");
                assert(crate::text::free_of("IARU"@, '_'));
            },
            Sponsor::JARL => {
                reveal_strlit("JARL");
                assert(crate::text::free_of("JARL"@, '_'));
            },
            Sponsor::RSGB => {
                reveal_strlit("RSGB");
                assert(crate::text::free_of("RSGB"@, '_'));
            },
            Sponsor::TAG => {
                reveal_strlit("TAG");
                assert(crate::text::free_of("TAG"@, '_'));
            },
            Sponsor::WABAG => {
                reveal_strlit("WABAG");
                assert(crate::text::free_of("WABAG"@, '_'));
            },
        }
    }
}

} // verus!
