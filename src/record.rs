//! Records (the header and the contact records) and the document.

use vstd::prelude::*;
use crate::error::AdifError;
use crate::field::{FieldName, HeaderFieldName, QSOFieldName};
use crate::text::{
    append_chars, append_str, bytes_chars, chars_of, decimal, latin1, latin1_bytes, push_decimal,
    string_of,
};
use crate::wire::{Field, FieldView};

verus! {

/// The text of a sequence of fields: their encodings, one after the other.
pub open spec fn fields_text<N: FieldName>(fields: Seq<FieldView<N>>) -> Seq<char>
    decreases fields.len(),
{
    if fields.len() == 0 {
        Seq::empty()
    } else {
        fields_text(fields.drop_last()) + fields.last().spec_encode()
    }
}

/// A record is finalized when its terminator is its last field and appears
/// nowhere else.
pub open spec fn finalized<N: FieldName>(fields: Seq<FieldView<N>>) -> bool {
    &&& fields.len() >= 1
    &&& fields.last().is_end()
    &&& forall|i: int| 0 <= i < fields.len() - 1 ==> !(#[trigger] fields[i]).is_end()
}

/// An ordered, append-only sequence of fields.
#[derive(Clone, Debug, PartialEq, Eq)]
pub struct Record<N> {
    fields: Vec<Field<N>>,
}

/// The header of a document; it ends with `EOH`.
pub type Header = Record<HeaderFieldName>;

/// A contact record; it ends with `EOR`.
pub type QSO = Record<QSOFieldName>;

impl<N: FieldName> View for Record<N> {
    type V = Seq<FieldView<N>>;

    closed spec fn view(&self) -> Seq<FieldView<N>> {
        self.fields@.map_values(|f: Field<N>| f@)
    }
}

impl<N: FieldName> Record<N> {
    pub fn new() -> (r: Record<N>)
        ensures
            r@ == Seq::<FieldView<N>>::empty(),
    {
        let r = Record { fields: Vec::new() };
        assert(r@ =~= Seq::<FieldView<N>>::empty());
        r
    }

    /// A record holding `fields`, in order.
    pub fn try_from(fields: Vec<Field<N>>) -> (r: Result<Record<N>, AdifError>)
        ensures
            r matches Ok(rec) && rec@ == fields@.map_values(|f: Field<N>| f@),
    {
        Ok(Record { fields })
    }

    pub fn len(&self) -> (r: usize)
        ensures
            r == self@.len(),
    {
        self.fields.len()
    }

    pub fn get(&self, i: usize) -> (r: &Field<N>)
        requires
            i < self@.len(),
        ensures
            r@ == self@[i as int],
    {
        &self.fields[i]
    }

    /// Appends a field.
    pub fn push(&mut self, field: Field<N>)
        ensures
            final(self)@ == old(self)@.push(field@),
    {
        self.fields.push(field);
        assert(final(self)@ =~= old(self)@.push(field@));
    }

    /// The record with `field` appended.
    pub fn add_field(self, field: Field<N>) -> (r: Record<N>)
        ensures
            r@ == self@.push(field@),
    {
        let mut r = self;
        r.push(field);
        r
    }

    /// The record with its terminator appended, unless its last field is one.
    pub fn add_end_if_missing(self) -> (r: Record<N>)
        ensures
            r@ == (if self@.len() > 0 && self@.last().is_end() {
                self@
            } else {
                self@.push(FieldView { name: N::spec_terminator(), value: crate::value::ValueView::Null })
            }),
    {
        let n = self.fields.len();
        if n > 0 && self.fields[n - 1].is_end() {
            self
        } else {
            let end = Field::<N>::end();
            self.add_field(end)
        }
    }

    pub fn push_encoding(&self, out: &mut Vec<char>)
        ensures
            final(out)@ == old(out)@ + fields_text(self@),
    {
        let mut i: usize = 0;
        while i < self.fields.len()
            invariant
                i <= self@.len(),
                self@.len() == self.fields@.len(),
                out@ == old(out)@ + fields_text(self@.subrange(0, i as int)),
            decreases self@.len() - i,
        {
            assert(self@.subrange(0, i + 1).drop_last() =~= self@.subrange(0, i as int));
            assert(self@[i as int] == self.fields@[i as int]@);
            self.fields[i].push_encoding(out);
            assert(out@ =~= old(out)@ + fields_text(self@.subrange(0, i + 1)));
            i = i + 1;
        }
        assert(self@.subrange(0, i as int) =~= self@);
    }

    /// The fields' encodings in order, with nothing between them.
    pub fn serialize(&self) -> (r: String)
        ensures
            r@ == fields_text(self@),
    {
        let mut out: Vec<char> = Vec::new();
        self.push_encoding(&mut out);
        assert(out@ =~= fields_text(self@));
        string_of(&out)
    }
}

impl<N: FieldName> Default for Record<N> {
    fn default() -> (r: Record<N>)
        ensures
            r@ == Seq::<FieldView<N>>::empty(),
    {
        Record::new()
    }
}

/// The blocks that are not empty, joined with newlines.
pub open spec fn join_lines(blocks: Seq<Seq<char>>) -> Seq<char>
    decreases blocks.len(),
{
    if blocks.len() == 0 {
        Seq::empty()
    } else {
        let init = join_lines(blocks.drop_last());
        let b = blocks.last();
        if b.len() == 0 {
            init
        } else if init.len() == 0 {
            b
        } else {
            init + seq!['\n'] + b
        }
    }
}

/// A document as the contracts see it.
pub struct AdifView {
    pub header: Seq<FieldView<HeaderFieldName>>,
    pub records: Seq<Seq<FieldView<QSOFieldName>>>,
}

impl AdifView {
    /// The text blocks of the document: the header, then each record.
    pub open spec fn blocks(self) -> Seq<Seq<char>> {
        seq![fields_text(self.header)] + self.records.map_values(
            |r: Seq<FieldView<QSOFieldName>>| fields_text(r),
        )
    }

    pub open spec fn spec_serialize(self) -> Seq<char> {
        join_lines(self.blocks())
    }
}

/// A document: a header and the contact records, in order.
#[derive(Clone, Debug, PartialEq, Eq)]
pub struct Adif {
    pub header: Header,
    pub qso: Vec<QSO>,
}

impl View for Adif {
    type V = AdifView;

    open spec fn view(&self) -> AdifView {
        AdifView { header: self.header@, records: self.qso@.map_values(|q: QSO| q@) }
    }
}

impl Default for Adif {
    fn default() -> (r: Adif)
        ensures
            r@.header == Seq::<FieldView<HeaderFieldName>>::empty(),
            r@.records == Seq::<Seq<FieldView<QSOFieldName>>>::empty(),
    {
        let r = Adif { header: Header::new(), qso: Vec::new() };
        assert(r@.records =~= Seq::<Seq<FieldView<QSOFieldName>>>::empty());
        r
    }
}

impl Adif {
    /// The number of contact records.
    pub fn qso_count(&self) -> (r: usize)
        ensures
            r == self@.records.len(),
    {
        self.qso.len()
    }

    /// A short description: the number of header fields and of contact records.
    pub fn describe(&self) -> (r: String)
        ensures
            r@ == "Headers: "@ + decimal(self@.header.len()) + " - QSO: "@ + decimal(
                self@.records.len(),
            ),
    {
        let mut out: Vec<char> = Vec::new();
        append_str(&mut out, "Headers: ");
        push_decimal(&mut out, self.header.len() as u64);
        append_str(&mut out, " - QSO: ");
        push_decimal(&mut out, self.qso.len() as u64);
        string_of(&out)
    }

    /// The document's bytes on the wire (ISO-8859-1, one byte per character);
    /// `None` when a character of it has no such byte.
    pub fn to_bytes(&self) -> (r: Option<Vec<u8>>)
        ensures
            match r {
                Some(b) => bytes_chars(b@) == self@.spec_serialize(),
                None => !latin1(self@.spec_serialize()),
            },
    {
        let text = self.serialize();
        let cs = chars_of(text.as_str());
        latin1_bytes(cs.as_slice())
    }

    /// The wire text, one character for each byte: the header, then each
    /// contact record, the non-empty ones joined by newlines.
    pub fn serialize(&self) -> (r: String)
        ensures
            r@ == self@.spec_serialize(),
    {
        let ghost blocks = self@.blocks();
        let mut out: Vec<char> = Vec::new();
        self.header.push_encoding(&mut out);
        assert(blocks.subrange(0, 1).drop_last() =~= Seq::<Seq<char>>::empty());
        assert(join_lines(Seq::<Seq<char>>::empty()) == Seq::<char>::empty());
        assert(blocks[0] == fields_text(self@.header));
        assert(blocks.subrange(0, 1).last() == blocks[0]);
        assert(out@ =~= join_lines(blocks.subrange(0, 1)));
        let mut i: usize = 0;
        while i < self.qso.len()
            invariant
                i <= self.qso@.len(),
                blocks == self@.blocks(),
                blocks.len() == self.qso@.len() + 1,
                out@ == join_lines(blocks.subrange(0, i + 1)),
            decreases self.qso@.len() - i,
        {
            let mut text: Vec<char> = Vec::new();
            self.qso[i].push_encoding(&mut text);
            let ghost next = blocks.subrange(0, i + 2);
            assert(next.drop_last() =~= blocks.subrange(0, i + 1));
            assert(next.last() == fields_text(self.qso@[i as int]@));
            assert(text@ =~= next.last());
            if text.len() > 0 {
                if out.len() > 0 {
                    out.push('\n');
                }
                append_chars(&mut out, text.as_slice());
            }
            assert(out@ =~= join_lines(next));
            i = i + 1;
        }
        assert(blocks.subrange(0, i + 1) =~= blocks);
        string_of(&out)
    }
}

} // verus!
