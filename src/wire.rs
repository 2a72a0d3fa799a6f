//! The field codec: a (name, value) pair and its tag-length-value text.

use vstd::prelude::*;
use crate::error::{agrees, AdifError, ErrorKind};
use crate::field::{FieldName, HeaderFieldName, QSOFieldName};
use crate::text::{
    bytes_chars, latin1, latin1_bytes,
    all_digits, append_chars, chars_of, decimal, digits_value, first_index, free_of, is_digit,
    join, lemma_decimal, lemma_first_index, lemma_join2, lemma_split_join, parse_decimal,
    push_decimal, split, split_chars, string_of, sub_chars, to_upper, upper, views,
};
use crate::value::{lemma_value_round_trip, DataValue, ValueView};
use crate::vocabulary::lemma_token_chars;

verus! {

/// A named value; the value's type is the one its name is bound to.
#[derive(Clone, Debug, PartialEq, Eq)]
pub struct Field<N> {
    pub name: N,
    pub value: DataValue,
}

pub type HeaderField = Field<HeaderFieldName>;

pub type QSOField = Field<QSOFieldName>;

/// A field as the contracts see it.
pub struct FieldView<N> {
    pub name: N,
    pub value: ValueView,
}

impl<N: FieldName> View for Field<N> {
    type V = FieldView<N>;

    open spec fn view(&self) -> FieldView<N> {
        FieldView { name: self.name, value: self.value@ }
    }
}

/// Largest declared length the codec reads.
pub const MAX_LEN: u64 = 18446744073709551615;

impl<N: FieldName> FieldView<N> {
    /// A constructible field: its value is well formed and of its name's type.
    pub open spec fn wf(self) -> bool {
        self.value.wf() && self.value.data_type() == self.name.spec_data_type()
    }

    pub open spec fn is_end(self) -> bool {
        self.name == N::spec_terminator()
    }

    /// `<NAME>` for the terminator, `<NAME:LEN>VALUE` otherwise.
    pub open spec fn spec_encode(self) -> Seq<char> {
        if self.is_end() {
            seq!['<'] + self.name.spec_name() + seq!['>']
        } else {
            seq!['<'] + self.name.spec_name() + seq![':'] + decimal(
                self.value.spec_encode().len(),
            ) + seq!['>'] + self.value.spec_encode()
        }
    }

    /// Reads the field at the start of `s`: its tag, then exactly as many
    /// characters as the tag declares; what follows them is not part of it.
    pub open spec fn spec_decode(s: Seq<char>) -> Result<FieldView<N>, ErrorKind> {
        if s.len() == 0 || s[0] != '<' {
            Err(ErrorKind::MalformedField)
        } else {
            match first_index(s, '>') {
                None => Err(ErrorKind::MalformedField),
                Some(gt) => {
                    let parts = split(s.subrange(1, gt), ':');
                    let rest = s.subrange(gt + 1, s.len() as int);
                    if parts.len() > 3 {
                        Err(ErrorKind::MalformedField)
                    } else {
                        match N::spec_from_name(upper(parts[0])) {
                            None => Err(ErrorKind::UnknownFieldName),
                            Some(n) => if parts.len() == 1 {
                                if n != N::spec_terminator() {
                                    Err(ErrorKind::MalformedField)
                                } else {
                                    Ok(FieldView { name: n, value: ValueView::Null })
                                }
                            } else {
                                let len = parts.last();
                                if parts.len() == 3 && parts[1].len() != 1 {
                                    Err(ErrorKind::MalformedField)
                                } else if len.len() == 0 || !all_digits(len) || digits_value(len)
                                    > MAX_LEN {
                                    Err(ErrorKind::MalformedField)
                                } else if rest.len() < digits_value(len) {
                                    Err(ErrorKind::LengthMismatch)
                                } else {
                                    match DataValue::spec_decode(
                                        n.spec_data_type(),
                                        rest.subrange(0, digits_value(len) as int),
                                    ) {
                                        Err(e) => Err(e),
                                        Ok(v) => Ok(FieldView { name: n, value: v }),
                                    }
                                }
                            },
                        }
                    }
                },
            }
        }
    }
}

/// Every constructible field is read back from its own text.
pub proof fn lemma_field_round_trip<N: FieldName>(f: FieldView<N>)
    requires
        f.wf(),
        f.value.spec_encode().len() <= MAX_LEN,
    ensures
        FieldView::<N>::spec_decode(f.spec_encode()) == Ok::<FieldView<N>, ErrorKind>(f),
{
    let name = f.name.spec_name();
    let s = f.spec_encode();
    f.name.lemma_name();
    f.name.lemma_terminator();
    lemma_token_chars(name);
    let gt = name.len() as int + if f.is_end() {
        1int
    } else {
        2 + decimal(f.value.spec_encode().len()).len() as int
    };
    let head = if f.is_end() {
        name
    } else {
        name + seq![':'] + decimal(f.value.spec_encode().len())
    };
    lemma_decimal(f.value.spec_encode().len());
    assert(s.subrange(1, gt) =~= head);
    assert(s[gt] == '>');
    assert(free_of(s.subrange(0, gt), '>')) by {
        assert forall|k: int| 0 <= k < gt implies #[trigger] s.subrange(0, gt)[k] != '>' by {
            if 1 <= k < name.len() + 1 {
                assert(s[k] == name[k - 1]);
            } else if k > name.len() + 1 {
                assert(s[k] == decimal(f.value.spec_encode().len())[k - name.len() - 2]);
                assert(is_digit(decimal(f.value.spec_encode().len())[k - name.len() - 2]));
            }
        }
    }
    lemma_first_index(s, '>', gt);
    if f.is_end() {
        assert(f.value is Null);
        lemma_split_join(seq![name], ':');
        assert(join(seq![name], ':') == name);
        assert(s.subrange(gt + 1, s.len() as int).len() == 0);
    } else {
        let d = decimal(f.value.spec_encode().len());
        lemma_join2(name, d, ':');
        assert(free_of(d, ':')) by {
            assert forall|k: int| 0 <= k < d.len() implies #[trigger] d[k] != ':' by {
                assert(is_digit(d[k]));
            }
        }
        let parts = seq![name, d];
        assert forall|i: int| 0 <= i < parts.len() implies free_of(#[trigger] parts[i], ':') by {
        }
        lemma_split_join(parts, ':');
        assert(split(s.subrange(1, gt), ':') == parts);
        assert(parts.last() == d);
        assert(s.subrange(gt + 1, s.len() as int) =~= f.value.spec_encode());
        assert(f.value.spec_encode().subrange(0, f.value.spec_encode().len() as int)
            =~= f.value.spec_encode());
        lemma_value_round_trip(f.value);
    }
}

impl<N: FieldName> Field<N> {
    pub fn new(name: N, value: DataValue) -> (r: Field<N>)
        ensures
            r.name == name,
            r.value@ == value@,
    {
        Field { name, value }
    }

    /// The terminator field of the name domain.
    pub fn end() -> (r: Field<N>)
        ensures
            r@.is_end(),
            r@.value == ValueView::Null,
    {
        Field { name: N::terminator(), value: DataValue::Null }
    }

    pub fn get_name(&self) -> (r: &N)
        ensures
            *r == self.name,
    {
        &self.name
    }

    pub fn get_value(&self) -> (r: &DataValue)
        ensures
            r@ == self.value@,
    {
        &self.value
    }

    pub fn is_end(&self) -> (r: bool)
        ensures
            r == self@.is_end(),
    {
        self.name.is_terminator()
    }

    pub fn push_encoding(&self, out: &mut Vec<char>)
        ensures
            final(out)@ == old(out)@ + self@.spec_encode(),
    {
        out.push('<');
        self.name.push_name(out);
        if !self.name.is_terminator() {
            let mut text: Vec<char> = Vec::new();
            self.value.push_encoding(&mut text);
            assert(text@ =~= self.value@.spec_encode());
            out.push(':');
            push_decimal(out, text.len() as u64);
            out.push('>');
            append_chars(out, text.as_slice());
        } else {
            out.push('>');
        }
        assert(final(out)@ =~= old(out)@ + self@.spec_encode());
    }

    /// The field's bytes on the wire (ISO-8859-1, one byte per character);
    /// `None` when a character of it has no such byte.
    pub fn to_bytes(&self) -> (r: Option<Vec<u8>>)
        ensures
            match r {
                Some(b) => bytes_chars(b@) == self@.spec_encode(),
                None => !latin1(self@.spec_encode()),
            },
    {
        let mut out: Vec<char> = Vec::new();
        self.push_encoding(&mut out);
        assert(out@ =~= self@.spec_encode());
        latin1_bytes(out.as_slice())
    }

    /// The wire text of the field, one character for each byte.
    pub fn serialize(&self) -> (r: String)
        ensures
            r@ == self@.spec_encode(),
    {
        let mut out: Vec<char> = Vec::new();
        self.push_encoding(&mut out);
        assert(out@ =~= self@.spec_encode());
        string_of(&out)
    }

    /// Reads the field at the start of `s`: its tag, then the declared number of characters.
    pub fn decode(s: &[char]) -> (r: Result<Field<N>, AdifError>)
        ensures
            agrees(r, FieldView::<N>::spec_decode(s@)),
    {
        if s.len() == 0 || s[0] != '<' {
            return Err(AdifError::new(ErrorKind::MalformedField, s));
        }
        let mut gt: usize = 0;
        while gt < s.len() && s[gt] != '>'
            invariant
                gt <= s@.len(),
                free_of(s@.subrange(0, gt as int), '>'),
            decreases s@.len() - gt,
        {
            assert(s@.subrange(0, gt + 1) =~= s@.subrange(0, gt as int).push(s@[gt as int]));
            gt = gt + 1;
        }
        proof {
            lemma_first_index(s@, '>', gt as int);
        }
        if gt == s.len() {
            return Err(AdifError::new(ErrorKind::MalformedField, s));
        }
        let inner = sub_chars(s, 1, gt);
        let parts = split_chars(inner.as_slice(), ':');
        assert(views(parts@).len() == parts@.len());
        if parts.len() > 3 {
            return Err(AdifError::new(ErrorKind::MalformedField, s));
        }
        proof {
            crate::text::lemma_split_len(inner@, ':');
        }
        assert(views(parts@)[0] == parts@[0]@);
        let key = to_upper(parts[0].as_slice());
        let name = match N::from_name(key.as_slice()) {
            Some(n) => n,
            None => {
                return Err(AdifError::new(ErrorKind::UnknownFieldName, parts[0].as_slice()));
            },
        };
        let rest_len = s.len() - gt - 1;
        if parts.len() == 1 {
            if !name.is_terminator() {
                return Err(AdifError::new(ErrorKind::MalformedField, s));
            }
            return Ok(Field { name, value: DataValue::Null });
        }
        let last = parts.len() - 1;
        assert(views(parts@)[last as int] == parts@[last as int]@);
        assert(views(parts@)[1] == parts@[1]@);
        if parts.len() == 3 && parts[1].len() != 1 {
            return Err(AdifError::new(ErrorKind::MalformedField, s));
        }
        let declared = match parse_decimal(parts[last].as_slice(), 0, parts[last].len(), MAX_LEN) {
            Some(n) => n,
            None => {
                assert(parts@[last as int]@.subrange(0, parts@[last as int]@.len() as int)
                    =~= parts@[last as int]@);
                return Err(AdifError::new(ErrorKind::MalformedField, s));
            },
        };
        assert(parts@[last as int]@.subrange(0, parts@[last as int]@.len() as int)
            =~= parts@[last as int]@);
        if (rest_len as u64) < declared {
            return Err(AdifError::new(ErrorKind::LengthMismatch, s));
        }
        let rest = sub_chars(s, gt + 1, gt + 1 + declared as usize);
        assert(rest@ =~= s@.subrange(gt + 1, s@.len() as int).subrange(0, declared as int));
        match DataValue::decode(name.data_type(), rest.as_slice()) {
            Ok(value) => Ok(Field { name, value }),
            Err(e) => Err(e),
        }
    }

    /// Reads the field at the start of `s`: its tag, then the declared number of characters.
    pub fn deserialize(s: &str) -> (r: Result<Field<N>, AdifError>)
        ensures
            agrees(r, FieldView::<N>::spec_decode(s@)),
    {
        let chars = chars_of(s);
        Field::<N>::decode(chars.as_slice())
    }
}

impl<N: FieldName> Default for Field<N> {
    /// The terminator field.
    fn default() -> (r: Field<N>)
        ensures
            r@.is_end(),
            r@.value == ValueView::Null,
    {
        Field::end()
    }
}

/// `s` starts with a well-formed tag `<NAME:LEN>` (or `<NAME:T:LEN>`) of
/// domain `N`, and fewer than `LEN` characters follow it.
pub open spec fn value_cut_short<N: FieldName>(s: Seq<char>) -> bool {
    s.len() > 0 && s[0] == '<' && match first_index(s, '>') {
        None => false,
        Some(gt) => {
            let parts = split(s.subrange(1, gt), ':');
            let len = parts.last();
            &&& 2 <= parts.len() <= 3
            &&& N::spec_from_name(upper(parts[0])) is Some
            &&& (parts.len() == 3 ==> parts[1].len() == 1)
            &&& len.len() > 0 && all_digits(len) && digits_value(len) <= MAX_LEN
            &&& s.len() - (gt + 1) < digits_value(len)
        },
    }
}

/// Decoding holds the value to its declared length: when fewer than `LEN`
/// characters follow the tag, decoding fails with `LengthMismatch`; when it
/// succeeds, the value is read from exactly the first `LEN` characters after
/// the tag.
pub proof fn lemma_length_checked<N: FieldName>(s: Seq<char>)
    ensures
        value_cut_short::<N>(s) ==> FieldView::<N>::spec_decode(s) == Err::<
            FieldView<N>,
            ErrorKind,
        >(ErrorKind::LengthMismatch),
        FieldView::<N>::spec_decode(s) matches Ok(f) ==> (first_index(s, '>') matches Some(gt)
            && ({
            let parts = split(s.subrange(1, gt), ':');
            parts.len() > 1 ==> s.len() - (gt + 1) >= digits_value(parts.last())
                && DataValue::spec_decode(
                f.name.spec_data_type(),
                s.subrange(gt + 1, gt + 1 + digits_value(parts.last())),
            ) == Ok::<ValueView, ErrorKind>(f.value)
        })),
{
    crate::text::lemma_first_index_bounds(s, '>');
    if let Some(gt) = first_index(s, '>') {
        let parts = split(s.subrange(1, gt), ':');
        let rest = s.subrange(gt + 1, s.len() as int);
        if parts.len() > 1 && rest.len() >= digits_value(parts.last()) {
            assert(rest.subrange(0, digits_value(parts.last()) as int) =~= s.subrange(
                gt + 1,
                gt + 1 + digits_value(parts.last()),
            ));
        }
    }
}

/// On the wire, one byte per character, the declared length is the byte
/// length of the value: the field's bytes end with exactly `LEN` bytes, and
/// they are the value's.
pub proof fn lemma_wire_length<N: FieldName>(f: FieldView<N>, b: Seq<u8>)
    requires
        !f.is_end(),
        bytes_chars(b) == f.spec_encode(),
    ensures
        b.len() >= f.value.spec_encode().len(),
        bytes_chars(b.subrange(b.len() - f.value.spec_encode().len(), b.len() as int))
            == f.value.spec_encode(),
        digits_value(decimal(f.value.spec_encode().len())) == f.value.spec_encode().len(),
{
    let v = f.value.spec_encode();
    lemma_decimal(v.len());
    let k = b.len() - v.len();
    assert(bytes_chars(b).len() == b.len());
    assert(bytes_chars(b.subrange(k, b.len() as int)) =~= f.spec_encode().subrange(
        k,
        b.len() as int,
    ));
    assert(f.spec_encode().subrange(k, b.len() as int) =~= v);
}

/// Every field that decoding returns is well formed: its value is of its
/// name's type and can be written and read back.
pub proof fn lemma_decoded_field_wf<N: FieldName>(s: Seq<char>)
    ensures
        FieldView::<N>::spec_decode(s) matches Ok(f) ==> f.wf(),
{
    if let Ok(f) = FieldView::<N>::spec_decode(s) {
        f.name.lemma_terminator();
        N::spec_terminator().lemma_terminator();
        crate::text::lemma_first_index_bounds(s, '>');
        let gt = first_index(s, '>')->Some_0;
        let parts = split(s.subrange(1, gt), ':');
        crate::text::lemma_split_len(s.subrange(1, gt), ':');
        if parts.len() > 1 {
            let v = s.subrange(gt + 1, s.len() as int).subrange(
                0,
                digits_value(parts.last()) as int,
            );
            assert(DataValue::spec_decode(f.name.spec_data_type(), v) == Ok::<
                ValueView,
                ErrorKind,
            >(f.value));
            crate::value::lemma_decoded_value_wf(f.name.spec_data_type(), v);
        } else {
            assert(f.name == N::spec_terminator());
            assert(f.value == ValueView::Null);
        }
    }
}

/// The declared length always equals the length of the value text that follows.
pub proof fn lemma_declared_length<N: FieldName>(f: FieldView<N>)
    requires
        !f.is_end(),
    ensures
        f.spec_encode() == seq!['<'] + f.name.spec_name() + seq![':'] + decimal(
            f.value.spec_encode().len(),
        ) + seq!['>'] + f.value.spec_encode(),
        digits_value(decimal(f.value.spec_encode().len())) == f.value.spec_encode().len(),
{
    lemma_decimal(f.value.spec_encode().len());
}

} // verus!
