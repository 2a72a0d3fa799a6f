//! The composite value formats: island reference (`EU-024`), geographic
//! coordinate (`N045 12.456`) and sponsored award (`ARRL_DXCC_Mixed`).

use vstd::prelude::*;
use crate::enumerations::{Continent, Sponsor};
use crate::error::{agrees, AdifError, ErrorKind};
use crate::text::{
    all_digits, chars_of, digits_value, free_of, join, lemma_decimal, lemma_split_join,
    lemma_zero_padded, parse_decimal, push_zero_padded, split, split_chars, string_of, zero_padded,
    append_chars, views,
};
use crate::vocabulary::Vocabulary;

verus! {

/// An IOTA (Islands On The Air) reference: a continent and a number below 1000.
#[derive(Clone, Copy, Debug, PartialEq, Eq, Structural)]
pub struct IotaRefNo {
    pub continent: Continent,
    pub number: u16,
}

impl View for IotaRefNo {
    type V = IotaRefNo;

    open spec fn view(&self) -> IotaRefNo {
        *self
    }
}

impl IotaRefNo {
    pub open spec fn wf(self) -> bool {
        self.number <= 999
    }

    /// `CONTINENT-NNN`, the number padded to three digits.
    pub open spec fn spec_encode(self) -> Seq<char> {
        self.continent.spec_token() + seq!['-'] + zero_padded(self.number as nat, 3)
    }

    pub open spec fn spec_decode(s: Seq<char>) -> Result<IotaRefNo, ErrorKind> {
        let parts = split(s, '-');
        if parts.len() != 2 || parts[1].len() != 3 {
            Err(ErrorKind::InvalidComposite)
        } else {
            match Continent::spec_from_token(parts[0]) {
                None => Err(ErrorKind::UnknownEnumerationToken),
                Some(c) => if all_digits(parts[1]) {
                    Ok(IotaRefNo { continent: c, number: digits_value(parts[1]) as u16 })
                } else {
                    Err(ErrorKind::InvalidComposite)
                },
            }
        }
    }

    pub fn push_encoding(&self, out: &mut Vec<char>)
        ensures
            final(out)@ == old(out)@ + self.spec_encode(),
    {
        self.continent.push_token(out);
        out.push('-');
        push_zero_padded(out, self.number as u64, 3);
        assert(final(out)@ =~= old(out)@ + self.spec_encode());
    }

    pub fn serialize(&self) -> (r: String)
        ensures
            r@ == self.spec_encode(),
    {
        let mut out: Vec<char> = Vec::new();
        self.push_encoding(&mut out);
        assert(out@ =~= self.spec_encode());
        string_of(&out)
    }

    pub fn decode(s: &[char]) -> (r: Result<IotaRefNo, AdifError>)
        ensures
            agrees(r, IotaRefNo::spec_decode(s@)),
    {
        let parts = split_chars(s, '-');
        assert(views(parts@).len() == parts@.len());
        if parts.len() != 2 || parts[1].len() != 3 {
            return Err(AdifError::new(ErrorKind::InvalidComposite, s));
        }
        assert(views(parts@)[0] == parts@[0]@ && views(parts@)[1] == parts@[1]@);
        match Continent::from_token(parts[0].as_slice()) {
            None => Err(AdifError::new(ErrorKind::UnknownEnumerationToken, s)),
            Some(c) => match parse_decimal(parts[1].as_slice(), 0, 3, 999) {
                Some(n) => {
                    assert(parts@[1]@.subrange(0, 3) =~= parts@[1]@);
                    Ok(IotaRefNo { continent: c, number: n as u16 })
                },
                None => {
                    assert(parts@[1]@.subrange(0, 3) =~= parts@[1]@);
                    proof {
                        if all_digits(parts@[1]@) {
                            crate::text::lemma_digits_value_bound(parts@[1]@);
                        }
                    }
                    Err(AdifError::new(ErrorKind::InvalidComposite, s))
                },
            },
        }
    }

    pub fn deserialize(value: &str) -> (r: Result<IotaRefNo, AdifError>)
        ensures
            agrees(r, IotaRefNo::spec_decode(value@)),
    {
        let chars = chars_of(value);
        IotaRefNo::decode(&chars)
    }

    pub proof fn lemma_round_trip(self)
        requires
            self.wf(),
        ensures
            IotaRefNo::spec_decode(self.spec_encode()) == Ok::<IotaRefNo, ErrorKind>(self),
            free_of(self.spec_encode(), ','),
    {
        let tok = self.continent.spec_token();
        let z = zero_padded(self.number as nat, 3);
        self.continent.lemma_token();
        lemma_decimal(self.number as nat);
        lemma_zero_padded(self.number as nat, 3);
        let parts = seq![tok, z];
        crate::text::lemma_join2(tok, z, '-');
        assert(free_of(tok, '-'));
        assert(free_of(z, '-')) by {
            assert forall|i: int| 0 <= i < z.len() implies #[trigger] z[i] != '-' by {
                assert(crate::text::is_digit(z[i]));
            }
        }
        assert forall|i: int| 0 <= i < parts.len() implies free_of(#[trigger] parts[i], '-') by {
        }
        lemma_split_join(parts, '-');
        let e = self.spec_encode();
        assert forall|i: int| 0 <= i < e.len() implies #[trigger] e[i] != ',' by {
            if i < tok.len() {
                assert(e[i] == tok[i]);
            } else if i > tok.len() {
                assert(e[i] == z[i - tok.len() - 1]);
                assert(crate::text::is_digit(z[i - tok.len() - 1]));
            }
        }
    }
}

/// The hemisphere letter of a coordinate.
#[derive(Clone, Copy, Debug, PartialEq, Eq, Structural)]
pub enum LocationDirection {
    North,
    South,
    East,
    West,
}

impl LocationDirection {
    pub open spec fn spec_char(self) -> char {
        match self {
            LocationDirection::North => 'N',
            LocationDirection::South => 'S',
            LocationDirection::East => 'E',
            LocationDirection::West => 'W',
        }
    }

    pub open spec fn spec_from_char(c: char) -> Option<LocationDirection> {
        if c == 'N' {
            Some(LocationDirection::North)
        } else if c == 'S' {
            Some(LocationDirection::South)
        } else if c == 'E' {
            Some(LocationDirection::East)
        } else if c == 'W' {
            Some(LocationDirection::West)
        } else {
            None
        }
    }

    /// Latitudes go up to 90 degrees, longitudes up to 180.
    pub open spec fn max_degrees(self) -> nat {
        match self {
            LocationDirection::North | LocationDirection::South => 90,
            LocationDirection::East | LocationDirection::West => 180,
        }
    }

    pub fn to_char(&self) -> (r: char)
        ensures
            r == self.spec_char(),
    {
        match self {
            LocationDirection::North => 'N',
            LocationDirection::South => 'S',
            LocationDirection::East => 'E',
            LocationDirection::West => 'W',
        }
    }

    pub fn from_char(c: char) -> (r: Option<LocationDirection>)
        ensures
            r == LocationDirection::spec_from_char(c),
    {
        if c == 'N' {
            Some(LocationDirection::North)
        } else if c == 'S' {
            Some(LocationDirection::South)
        } else if c == 'E' {
            Some(LocationDirection::East)
        } else if c == 'W' {
            Some(LocationDirection::West)
        } else {
            None
        }
    }

    fn max_degrees_exec(&self) -> (r: u64)
        ensures
            r == self.max_degrees(),
    {
        match self {
            LocationDirection::North | LocationDirection::South => 90,
            LocationDirection::East | LocationDirection::West => 180,
        }
    }
}

/// A latitude or longitude: hemisphere, whole degrees, and minutes in
/// thousandths of a minute (`12.456'` is `12456`).
#[derive(Clone, Copy, Debug, PartialEq, Eq, Structural)]
pub struct Location {
    pub direction: LocationDirection,
    pub degrees: u8,
    pub milli_minutes: u32,
}

impl View for Location {
    type V = Location;

    open spec fn view(&self) -> Location {
        *self
    }
}

impl Location {
    /// Minutes below 60, and the whole coordinate within the hemisphere's range.
    pub open spec fn wf(self) -> bool {
        self.milli_minutes < 60000 && self.degrees * 60000 + self.milli_minutes
            <= self.direction.max_degrees() * 60000
    }

    /// `XDDD MM.MMM`.
    pub open spec fn spec_encode(self) -> Seq<char> {
        seq![self.direction.spec_char()] + zero_padded(self.degrees as nat, 3) + seq![' ']
            + zero_padded((self.milli_minutes / 1000) as nat, 2) + seq!['.'] + zero_padded(
            (self.milli_minutes % 1000) as nat,
            3,
        )
    }

    pub open spec fn spec_decode(s: Seq<char>) -> Result<Location, ErrorKind> {
        if s.len() != 11 || s[4] != ' ' || s[7] != '.' || !all_digits(s.subrange(1, 4))
            || !all_digits(s.subrange(5, 7)) || !all_digits(s.subrange(8, 11)) {
            Err(ErrorKind::InvalidComposite)
        } else {
            match LocationDirection::spec_from_char(s[0]) {
                None => Err(ErrorKind::InvalidComposite),
                Some(d) => if digits_value(s.subrange(5, 7)) >= 60 || digits_value(
                    s.subrange(1, 4),
                ) * 60000 + digits_value(s.subrange(5, 7)) * 1000 + digits_value(s.subrange(8, 11))
                    > d.max_degrees() * 60000 {
                    Err(ErrorKind::InvalidComposite)
                } else {
                    Ok(
                        Location {
                            direction: d,
                            degrees: digits_value(s.subrange(1, 4)) as u8,
                            milli_minutes: (digits_value(s.subrange(5, 7)) * 1000 + digits_value(
                                s.subrange(8, 11),
                            )) as u32,
                        },
                    )
                },
            }
        }
    }

    pub fn push_encoding(&self, out: &mut Vec<char>)
        ensures
            final(out)@ == old(out)@ + self.spec_encode(),
    {
        out.push(self.direction.to_char());
        push_zero_padded(out, self.degrees as u64, 3);
        out.push(' ');
        push_zero_padded(out, (self.milli_minutes / 1000) as u64, 2);
        out.push('.');
        push_zero_padded(out, (self.milli_minutes % 1000) as u64, 3);
        assert(final(out)@ =~= old(out)@ + self.spec_encode());
    }

    pub fn serialize(&self) -> (r: String)
        ensures
            r@ == self.spec_encode(),
    {
        let mut out: Vec<char> = Vec::new();
        self.push_encoding(&mut out);
        assert(out@ =~= self.spec_encode());
        string_of(&out)
    }

    pub fn decode(s: &[char]) -> (r: Result<Location, AdifError>)
        ensures
            agrees(r, Location::spec_decode(s@)),
    {
        if s.len() != 11 || s[4] != ' ' || s[7] != '.' {
            return Err(AdifError::new(ErrorKind::InvalidComposite, s));
        }
        let deg = parse_decimal(s, 1, 4, 999);
        let whole = parse_decimal(s, 5, 7, 99);
        let frac = parse_decimal(s, 8, 11, 999);
        proof {
            crate::text::lemma_bounded_digits(s@.subrange(1, 4));
            crate::text::lemma_bounded_digits(s@.subrange(5, 7));
            crate::text::lemma_bounded_digits(s@.subrange(8, 11));
        }
        match (deg, whole, frac) {
            (Some(deg), Some(whole), Some(frac)) => match LocationDirection::from_char(s[0]) {
                None => Err(AdifError::new(ErrorKind::InvalidComposite, s)),
                Some(d) => {
                    if whole >= 60 || deg * 60000 + whole * 1000 + frac > d.max_degrees_exec()
                        * 60000 {
                        Err(AdifError::new(ErrorKind::InvalidComposite, s))
                    } else {
                        Ok(
                            Location {
                                direction: d,
                                degrees: deg as u8,
                                milli_minutes: (whole * 1000 + frac) as u32,
                            },
                        )
                    }
                },
            },
            _ => Err(AdifError::new(ErrorKind::InvalidComposite, s)),
        }
    }

    pub fn deserialize(value: &str) -> (r: Result<Location, AdifError>)
        ensures
            agrees(r, Location::spec_decode(value@)),
    {
        let chars = chars_of(value);
        Location::decode(&chars)
    }

    pub proof fn lemma_round_trip(self)
        requires
            self.wf(),
        ensures
            Location::spec_decode(self.spec_encode()) == Ok::<Location, ErrorKind>(self),
            free_of(self.spec_encode(), ','),
    {
        let a = zero_padded(self.degrees as nat, 3);
        let b = zero_padded((self.milli_minutes / 1000) as nat, 2);
        let c = zero_padded((self.milli_minutes % 1000) as nat, 3);
        lemma_decimal(self.degrees as nat);
        lemma_decimal((self.milli_minutes / 1000) as nat);
        lemma_decimal((self.milli_minutes % 1000) as nat);
        lemma_zero_padded(self.degrees as nat, 3);
        lemma_zero_padded((self.milli_minutes / 1000) as nat, 2);
        lemma_zero_padded((self.milli_minutes % 1000) as nat, 3);
        let e = self.spec_encode();
        assert(e.subrange(1, 4) =~= a);
        assert(e.subrange(5, 7) =~= b);
        assert(e.subrange(8, 11) =~= c);
        assert(e[0] == self.direction.spec_char());
        assert(e[4] == ' ');
        assert(e[7] == '.');
        assert forall|i: int| 0 <= i < e.len() implies #[trigger] e[i] != ',' by {
            if 1 <= i < 4 {
                assert(e[i] == a[i - 1]);
                assert(crate::text::is_digit(a[i - 1]));
            } else if 5 <= i < 7 {
                assert(e[i] == b[i - 5]);
                assert(crate::text::is_digit(b[i - 5]));
            } else if 8 <= i < 11 {
                assert(e[i] == c[i - 8]);
                assert(crate::text::is_digit(c[i - 8]));
            }
        }
    }
}

/// What a sponsored award looks like to the contracts.
pub struct SponsoredAwardView {
    pub sponsor: Sponsor,
    pub program: Seq<char>,
    pub award: Seq<char>,
}

/// An award of a sponsor: `SPONSOR_PROGRAM_AWARD`.
#[derive(Clone, Debug, PartialEq, Eq, Hash)]
pub struct SponsoredAward {
    pub sponsor: Sponsor,
    pub program: String,
    pub award: String,
}

impl View for SponsoredAward {
    type V = SponsoredAwardView;

    open spec fn view(&self) -> SponsoredAwardView {
        SponsoredAwardView { sponsor: self.sponsor, program: self.program@, award: self.award@ }
    }
}

impl SponsoredAwardView {
    /// Program and award hold no `_`, else the parts could not be told apart.
    pub open spec fn wf(self) -> bool {
        free_of(self.program, '_') && free_of(self.award, '_')
    }

    pub open spec fn spec_encode(self) -> Seq<char> {
        join(seq![self.sponsor.spec_token(), self.program, self.award], '_')
    }
}

impl SponsoredAward {
    pub open spec fn spec_decode(s: Seq<char>) -> Result<SponsoredAwardView, ErrorKind> {
        let parts = split(s, '_');
        if parts.len() != 3 {
            Err(ErrorKind::InvalidComposite)
        } else {
            match Sponsor::spec_from_token(parts[0]) {
                None => Err(ErrorKind::UnknownEnumerationToken),
                Some(sp) => Ok(SponsoredAwardView { sponsor: sp, program: parts[1], award: parts[2] }),
            }
        }
    }

    pub fn push_encoding(&self, out: &mut Vec<char>)
        ensures
            final(out)@ == old(out)@ + self@.spec_encode(),
    {
        let ghost parts = seq![self.sponsor.spec_token(), self.program@, self.award@];
        self.sponsor.push_token(out);
        out.push('_');
        let p = chars_of(self.program.as_str());
        append_chars(out, &p);
        out.push('_');
        let a = chars_of(self.award.as_str());
        append_chars(out, &a);
        proof {
            crate::text::lemma_join3(self.sponsor.spec_token(), self.program@, self.award@, '_');
        }
        assert(final(out)@ =~= old(out)@ + self@.spec_encode());
    }

    pub fn serialize(&self) -> (r: String)
        ensures
            r@ == self@.spec_encode(),
    {
        let mut out: Vec<char> = Vec::new();
        self.push_encoding(&mut out);
        assert(out@ =~= self@.spec_encode());
        string_of(&out)
    }

    pub fn decode(s: &[char]) -> (r: Result<SponsoredAward, AdifError>)
        ensures
            agrees(r, SponsoredAward::spec_decode(s@)),
    {
        let parts = split_chars(s, '_');
        assert(views(parts@).len() == parts@.len());
        if parts.len() != 3 {
            return Err(AdifError::new(ErrorKind::InvalidComposite, s));
        }
        assert(views(parts@)[0] == parts@[0]@);
        assert(views(parts@)[1] == parts@[1]@);
        assert(views(parts@)[2] == parts@[2]@);
        match Sponsor::from_token(parts[0].as_slice()) {
            None => Err(AdifError::new(ErrorKind::UnknownEnumerationToken, s)),
            Some(sponsor) => Ok(
                SponsoredAward {
                    sponsor,
                    program: string_of(parts[1].as_slice()),
                    award: string_of(parts[2].as_slice()),
                },
            ),
        }
    }

    pub fn deserialize(value: &str) -> (r: Result<SponsoredAward, AdifError>)
        ensures
            agrees(r, SponsoredAward::spec_decode(value@)),
    {
        let chars = chars_of(value);
        SponsoredAward::decode(&chars)
    }

    pub proof fn lemma_round_trip(v: SponsoredAwardView)
        requires
            v.wf(),
        ensures
            SponsoredAward::spec_decode(v.spec_encode()) == Ok::<SponsoredAwardView, ErrorKind>(v),
            free_of(v.program, ',') && free_of(v.award, ',') ==> free_of(v.spec_encode(), ','),
    {
        let tok = v.sponsor.spec_token();
        let parts = seq![tok, v.program, v.award];
        v.sponsor.lemma_token();
        v.sponsor.lemma_token_plain();
        assert forall|i: int| 0 <= i < parts.len() implies free_of(#[trigger] parts[i], '_') by {
        }
        lemma_split_join(parts, '_');
        assert(parts[0] == tok && parts[1] == v.program && parts[2] == v.award);
        let e = v.spec_encode();
        if free_of(v.program, ',') && free_of(v.award, ',') {
            crate::text::lemma_join3(tok, v.program, v.award, '_');
            assert(e =~= tok.push('_') + v.program + seq!['_'] + v.award);
            assert forall|i: int| 0 <= i < e.len() implies #[trigger] e[i] != ',' by {
                let t1 = tok.len() as int;
                let p1 = v.program.len() as int;
                if i < t1 {
                    assert(e[i] == tok[i]);
                } else if t1 < i < t1 + 1 + p1 {
                    assert(e[i] == v.program[i - t1 - 1]);
                } else if i > t1 + 1 + p1 {
                    assert(e[i] == v.award[i - t1 - 2 - p1]);
                }
            }
        }
    }
}

} // verus!
