//! The streaming parser: a state machine that takes one character at a time
//! (one byte of the input, read as ISO-8859-1) and builds the document as it
//! goes, holding no more than the field it is reading.
//!
//! A document without a header is accepted: while the header is being read, a
//! field that is no header field but is a contact-record field starts the
//! first record. A tag is compared only with the terminator of the domain
//! being read: `<EOR>` where the header is expected is a malformed field.

use vstd::prelude::*;
use vstd::string::*;
use crate::error::{AdifError, ErrorKind};
use crate::field::{FieldName, HeaderFieldName, QSOFieldName};
use crate::record::{Adif, AdifView, QSO};
use crate::text::{
    bytes_chars,
    all_digits, chars_eq, chars_of, digits_value, parse_decimal, push_char, sub_chars, to_upper,
    upper,
};
use crate::value::ValueView;
use crate::wire::{Field, FieldView, MAX_LEN};

verus! {

/// Where the parser stands within a field.
#[derive(Clone, Copy, Debug, PartialEq, Eq, Structural)]
pub enum FieldState {
    LookingForBeginning,
    InTag,
    InValue,
}

/// Whether the parser reads the header or the contact records.
#[derive(Clone, Copy, Debug, PartialEq, Eq, Structural)]
pub enum AdifState {
    InHeader,
    InQso,
}

/// The parser's state: the position within a field, the text of the field
/// read so far, the value characters still expected, the record being built
/// and the document built so far.
#[derive(Debug)]
pub struct State {
    pub field_state: FieldState,
    pub adif_state: AdifState,
    pub buffer: String,
    pub counter: u64,
    pub qso: QSO,
    pub adif: Adif,
}

pub struct StateView {
    pub field_state: FieldState,
    pub adif_state: AdifState,
    pub buffer: Seq<char>,
    pub counter: nat,
    pub qso: Seq<FieldView<QSOFieldName>>,
    pub doc: AdifView,
}

impl View for State {
    type V = StateView;

    open spec fn view(&self) -> StateView {
        StateView {
            field_state: self.field_state,
            adif_state: self.adif_state,
            buffer: self.buffer@,
            counter: self.counter as nat,
            qso: self.qso@,
            doc: self.adif@,
        }
    }
}

pub open spec fn end_field<N: FieldName>() -> FieldView<N> {
    FieldView { name: N::spec_terminator(), value: ValueView::Null }
}

/// Where `c` last occurs in `s`, if it does.
pub open spec fn last_index(s: Seq<char>, c: char) -> Option<int>
    decreases s.len(),
{
    if s.len() == 0 {
        None
    } else if s.last() == c {
        Some(s.len() - 1)
    } else {
        last_index(s.drop_last(), c)
    }
}

pub proof fn lemma_last_index(s: Seq<char>, c: char)
    ensures
        last_index(s, c) matches Some(k) ==> 0 <= k < s.len() && s[k] == c,
    decreases s.len(),
{
    if s.len() > 0 && s.last() != c {
        lemma_last_index(s.drop_last(), c);
    }
}

pub open spec fn initial() -> StateView {
    StateView {
        field_state: FieldState::LookingForBeginning,
        adif_state: AdifState::InHeader,
        buffer: Seq::empty(),
        counter: 0,
        qso: Seq::empty(),
        doc: AdifView { header: Seq::empty(), records: Seq::empty() },
    }
}

/// `f` appended to the header; the header terminator switches to the records.
pub open spec fn with_header_field(s: StateView, f: FieldView<HeaderFieldName>) -> StateView {
    StateView {
        field_state: FieldState::LookingForBeginning,
        adif_state: if f.is_end() {
            AdifState::InQso
        } else {
            AdifState::InHeader
        },
        buffer: Seq::empty(),
        counter: 0,
        qso: s.qso,
        doc: AdifView { header: s.doc.header.push(f), records: s.doc.records },
    }
}

/// `f` appended to the current record; the record terminator closes it.
pub open spec fn with_record_field(s: StateView, f: FieldView<QSOFieldName>) -> StateView {
    StateView {
        field_state: FieldState::LookingForBeginning,
        adif_state: AdifState::InQso,
        buffer: Seq::empty(),
        counter: 0,
        qso: if f.is_end() {
            Seq::empty()
        } else {
            s.qso.push(f)
        },
        doc: AdifView {
            header: s.doc.header,
            records: if f.is_end() {
                s.doc.records.push(s.qso.push(f))
            } else {
                s.doc.records
            },
        },
    }
}

/// A whole field `b` has been read: decode it in the active domain.
#[verifier::opaque]
pub open spec fn complete(s: StateView, b: Seq<char>) -> Result<StateView, ErrorKind> {
    match s.adif_state {
        AdifState::InHeader => match FieldView::<HeaderFieldName>::spec_decode(b) {
            Ok(f) => Ok(with_header_field(s, f)),
            Err(ErrorKind::UnknownFieldName) => match FieldView::<QSOFieldName>::spec_decode(b) {
                Ok(f) => Ok(with_record_field(s, f)),
                Err(e) => Err(e),
            },
            Err(e) => Err(e),
        },
        AdifState::InQso => match FieldView::<QSOFieldName>::spec_decode(b) {
            Ok(f) => Ok(with_record_field(s, f)),
            Err(e) => Err(e),
        },
    }
}

/// The tag `b` (from `<` to `>`) has been read.
#[verifier::opaque]
pub open spec fn tag_end(s: StateView, b: Seq<char>) -> Result<StateView, ErrorKind> {
    if s.adif_state == AdifState::InHeader && upper(b) == end_field::<
        HeaderFieldName,
    >().spec_encode() {
        Ok(with_header_field(s, end_field()))
    } else if s.adif_state == AdifState::InQso && upper(b) == end_field::<
        QSOFieldName,
    >().spec_encode() {
        Ok(with_record_field(s, end_field()))
    } else {
        match last_index(b, ':') {
            None => Err(ErrorKind::MalformedField),
            Some(k) => {
                let d = b.subrange(k + 1, b.len() - 1);
                if d.len() == 0 || !all_digits(d) || digits_value(d) > MAX_LEN {
                    Err(ErrorKind::MalformedField)
                } else if digits_value(d) == 0 {
                    complete(s, b)
                } else {
                    Ok(
                        StateView {
                            field_state: FieldState::InValue,
                            buffer: b,
                            counter: digits_value(d),
                            ..s
                        },
                    )
                }
            },
        }
    }
}

/// One character of input.
pub open spec fn step(s: StateView, c: char) -> Result<StateView, ErrorKind> {
    match s.field_state {
        FieldState::LookingForBeginning => if c == '<' {
            Ok(
                StateView {
                    field_state: FieldState::InTag,
                    buffer: seq!['<'],
                    counter: 0,
                    ..s
                },
            )
        } else {
            Ok(s)
        },
        FieldState::InTag => if c != '>' {
            Ok(StateView { buffer: s.buffer.push(c), ..s })
        } else {
            tag_end(s, s.buffer.push('>'))
        },
        FieldState::InValue => if s.counter > 1 {
            Ok(StateView { buffer: s.buffer.push(c), counter: (s.counter - 1) as nat, ..s })
        } else {
            complete(s, s.buffer.push(c))
        },
    }
}

/// The characters `cs`, one after the other; the first error stops the run.
pub open spec fn run(s: StateView, cs: Seq<char>) -> Result<StateView, ErrorKind>
    decreases cs.len(),
{
    if cs.len() == 0 {
        Ok(s)
    } else {
        match run(s, cs.drop_last()) {
            Ok(t) => step(t, cs.last()),
            Err(e) => Err(e),
        }
    }
}

/// End of input: the document, unless a field was cut short.
pub open spec fn finish(s: StateView) -> Result<AdifView, ErrorKind> {
    if s.field_state == FieldState::LookingForBeginning {
        Ok(s.doc)
    } else {
        Err(ErrorKind::UnexpectedEof)
    }
}

pub open spec fn parse_chars(cs: Seq<char>) -> Result<AdifView, ErrorKind> {
    match run(initial(), cs) {
        Ok(t) => finish(t),
        Err(e) => Err(e),
    }
}


/// `complete` reads only the mode, the current record and the document.
pub proof fn lemma_complete_frame(s: StateView, t: StateView, b: Seq<char>)
    requires
        s.adif_state == t.adif_state,
        s.qso == t.qso,
        s.doc == t.doc,
    ensures
        complete(s, b) == complete(t, b),
{
    reveal(complete);
    assert forall|f: FieldView<HeaderFieldName>| #[trigger]
        with_header_field(s, f) == with_header_field(t, f) by {
        assert(with_header_field(s, f) =~= with_header_field(t, f));
    }
    assert forall|f: FieldView<QSOFieldName>| #[trigger]
        with_record_field(s, f) == with_record_field(t, f) by {
    }
}

/// `tag_end` does not read the text buffered before the tag closed.
pub proof fn lemma_tag_end_frame(s: StateView, t: StateView, b: Seq<char>)
    requires
        s.field_state == t.field_state,
        s.adif_state == t.adif_state,
        s.counter == t.counter,
        s.qso == t.qso,
        s.doc == t.doc,
    ensures
        tag_end(s, b) == tag_end(t, b),
{
    reveal(tag_end);
    lemma_complete_frame(s, t, b);
    assert(with_header_field(s, end_field()) =~= with_header_field(t, end_field()));
    assert(with_record_field(s, end_field()) =~= with_record_field(t, end_field()));
}

pub proof fn lemma_run_one(s: StateView, c: char)
    ensures
        run(s, seq![c]) == step(s, c),
{
    assert(seq![c].drop_last() =~= Seq::<char>::empty());
    assert(seq![c].last() == c);
    assert(run(s, Seq::<char>::empty()) == Ok::<StateView, ErrorKind>(s));
}

/// Once a run has failed, more input does not revive it.
pub proof fn lemma_run_prefix_error(s: StateView, cs: Seq<char>, k: int)
    requires
        0 <= k <= cs.len(),
        run(s, cs.subrange(0, k)) is Err,
    ensures
        run(s, cs) == run(s, cs.subrange(0, k)),
    decreases cs.len() - k,
{
    if k < cs.len() {
        assert(cs.subrange(0, k + 1).drop_last() =~= cs.subrange(0, k));
        lemma_run_prefix_error(s, cs, k + 1);
    } else {
        assert(cs.subrange(0, k) =~= cs);
    }
}

/// Running over `a + b` is running over `a`, then over `b` from where `a` left off.
pub proof fn lemma_run_concat(s: StateView, a: Seq<char>, b: Seq<char>)
    ensures
        run(s, a + b) == (match run(s, a) {
            Ok(t) => run(t, b),
            Err(e) => Err(e),
        }),
    decreases b.len(),
{
    if b.len() == 0 {
        assert(a + b =~= a);
    } else {
        lemma_run_concat(s, a, b.drop_last());
        assert((a + b).drop_last() =~= a + b.drop_last());
        assert((a + b).last() == b.last());
    }
}

/// Chunk invariance: feeding a document in two pieces, split at any byte,
/// ends in the same result as feeding it whole; by induction, so does any
/// number of pieces.
pub proof fn lemma_chunk_invariance(s: StateView, a: Seq<u8>, b: Seq<u8>)
    ensures
        run(s, bytes_chars(a + b)) == (match run(s, bytes_chars(a)) {
            Ok(t) => run(t, bytes_chars(b)),
            Err(e) => Err(e),
        }),
{
    assert(bytes_chars(a + b) =~= bytes_chars(a) + bytes_chars(b));
    lemma_run_concat(s, bytes_chars(a), bytes_chars(b));
}

/// The chunks fed one after the other, each from where the last left off.
pub open spec fn run_chunks(s: StateView, chunks: Seq<Seq<u8>>) -> Result<StateView, ErrorKind>
    decreases chunks.len(),
{
    if chunks.len() == 0 {
        Ok(s)
    } else {
        match run_chunks(s, chunks.drop_last()) {
            Ok(t) => run(t, bytes_chars(chunks.last())),
            Err(e) => Err(e),
        }
    }
}

/// Chunk invariance: feeding the input in any number of chunks, split at
/// any bytes, ends in the same result as feeding it whole.
pub proof fn lemma_chunks_invariance(s: StateView, chunks: Seq<Seq<u8>>)
    ensures
        run_chunks(s, chunks) == run(s, bytes_chars(chunks.flatten())),
    decreases chunks.len(),
{
    chunks.lemma_flatten_and_flatten_alt_are_equivalent();
    if chunks.len() == 0 {
        assert(bytes_chars(chunks.flatten()) =~= Seq::<char>::empty());
    } else {
        let init = chunks.drop_last();
        lemma_chunks_invariance(s, init);
        init.lemma_flatten_and_flatten_alt_are_equivalent();
        assert(chunks.flatten_alt() == init.flatten_alt() + chunks.last());
        lemma_chunk_invariance(s, init.flatten(), chunks.last());
    }
}

/// The text of the terminator of domain `N`.
fn end_text<N: FieldName>() -> (r: Vec<char>)
    ensures
        r@ == end_field::<N>().spec_encode(),
{
    let mut t: Vec<char> = Vec::new();
    let e = Field::<N>::end();
    assert(e@ == end_field::<N>());
    e.push_encoding(&mut t);
    assert(t@ =~= end_field::<N>().spec_encode());
    t
}

fn last_index_of(s: &[char], c: char) -> (r: Option<usize>)
    ensures
        match r {
            Some(k) => last_index(s@, c) == Some(k as int),
            None => last_index(s@, c) is None,
        },
{
    let mut i: usize = s.len();
    assert(s@.subrange(0, i as int) =~= s@);
    while i > 0
        invariant
            i <= s@.len(),
            last_index(s@, c) == last_index(s@.subrange(0, i as int), c),
        decreases i,
    {
        let ghost pre = s@.subrange(0, i as int);
        assert(pre.drop_last() =~= s@.subrange(0, i - 1));
        if s[i - 1] == c {
            return Some(i - 1);
        }
        i = i - 1;
    }
    None
}

impl State {
    fn look_for_beginning(&mut self, c: char)
        requires
            old(self).field_state == FieldState::LookingForBeginning,
        ensures
            step(old(self)@, c) == Ok::<StateView, ErrorKind>(final(self)@),
    {
        if c == '<' {
            self.field_state = FieldState::InTag;
            self.buffer = String::new();
            push_char(&mut self.buffer, '<');
            self.counter = 0;
            assert(self@.buffer =~= seq!['<']);
        }
    }

    fn add_header_field(&mut self, f: Field<HeaderFieldName>)
        ensures
            final(self)@ == with_header_field(old(self)@, f@),
    {
        let end = f.is_end();
        self.adif.header.push(f);
        self.adif_state = if end {
            AdifState::InQso
        } else {
            AdifState::InHeader
        };
        self.field_state = FieldState::LookingForBeginning;
        self.buffer = String::new();
        self.counter = 0;
        assert(final(self)@.buffer =~= Seq::<char>::empty());
    }

    fn add_record_field(&mut self, f: Field<QSOFieldName>)
        ensures
            final(self)@ == with_record_field(old(self)@, f@),
    {
        let end = f.is_end();
        self.qso.push(f);
        if end {
            let mut done = QSO::new();
            std::mem::swap(&mut done, &mut self.qso);
            let ghost before = self.adif.qso@;
            self.adif.qso.push(done);
            assert(self.adif@.records =~= old(self)@.doc.records.push(old(self)@.qso.push(f@)));
        }
        self.adif_state = AdifState::InQso;
        self.field_state = FieldState::LookingForBeginning;
        self.buffer = String::new();
        self.counter = 0;
        assert(final(self)@.buffer =~= Seq::<char>::empty());
    }

    /// A whole field `b` has been read: decode it in the active domain.
    fn complete(&mut self, b: &[char]) -> (r: Result<(), AdifError>)
        ensures
            match r {
                Ok(_) => complete(old(self)@, b@) == Ok::<StateView, ErrorKind>(final(self)@),
                Err(e) => complete(old(self)@, b@) is Err && complete(old(self)@, b@)->Err_0
                    == e.kind,
            },
    {
        proof {
            reveal(complete);
        }
        match self.adif_state {
            AdifState::InHeader => match Field::<HeaderFieldName>::decode(b) {
                Ok(f) => {
                    self.add_header_field(f);
                    Ok(())
                },
                Err(e) => {
                    if e.kind != ErrorKind::UnknownFieldName {
                        return Err(e);
                    }
                    match Field::<QSOFieldName>::decode(b) {
                        Ok(f) => {
                            self.add_record_field(f);
                            Ok(())
                        },
                        Err(e) => Err(e),
                    }
                },
            },
            AdifState::InQso => match Field::<QSOFieldName>::decode(b) {
                Ok(f) => {
                    self.add_record_field(f);
                    Ok(())
                },
                Err(e) => Err(e),
            },
        }
    }

    /// The tag held in the buffer has been closed with `>`.
    fn tag_end(&mut self) -> (r: Result<(), AdifError>)
        requires
            old(self).buffer@.len() > 0 && old(self).buffer@.last() == '>',
        ensures
            match r {
                Ok(_) => tag_end(old(self)@, old(self)@.buffer) == Ok::<StateView, ErrorKind>(
                    final(self)@,
                ),
                Err(e) => tag_end(old(self)@, old(self)@.buffer) is Err && tag_end(
                    old(self)@,
                    old(self)@.buffer,
                )->Err_0 == e.kind,
            },
    {
        proof {
            reveal(tag_end);
        }
        let b = chars_of(self.buffer.as_str());
        let up = to_upper(b.as_slice());
        if self.adif_state == AdifState::InHeader && chars_eq(
            up.as_slice(),
            end_text::<HeaderFieldName>().as_slice(),
        ) {
            let f = Field::<HeaderFieldName>::end();
            assert(f@ == end_field::<HeaderFieldName>());
            self.add_header_field(f);
            return Ok(());
        }
        if self.adif_state == AdifState::InQso && chars_eq(
            up.as_slice(),
            end_text::<QSOFieldName>().as_slice(),
        ) {
            let f = Field::<QSOFieldName>::end();
            assert(f@ == end_field::<QSOFieldName>());
            self.add_record_field(f);
            return Ok(());
        }
        match last_index_of(b.as_slice(), ':') {
            None => Err(AdifError::new(ErrorKind::MalformedField, b.as_slice())),
            Some(k) => {
                proof {
                    lemma_last_index(b@, ':');
                }
                let n = b.len() - 1;
                let d = sub_chars(b.as_slice(), k + 1, n);
                assert(d@.subrange(0, d@.len() as int) =~= d@);
                match parse_decimal(d.as_slice(), 0, d.len(), MAX_LEN) {
                    None => Err(AdifError::new(ErrorKind::MalformedField, b.as_slice())),
                    Some(len) => {
                        if len == 0 {
                            self.complete(b.as_slice())
                        } else {
                            self.field_state = FieldState::InValue;
                            self.counter = len;
                            Ok(())
                        }
                    },
                }
            },
        }
    }
}

impl Default for State {
    fn default() -> (r: State)
        ensures
            r@ == initial(),
    {
        State::new()
    }
}

impl State {
    /// A parser at the start of a document.
    pub fn new() -> (r: State)
        ensures
            r@ == initial(),
    {
        let r = State {
            field_state: FieldState::LookingForBeginning,
            adif_state: AdifState::InHeader,
            buffer: String::new(),
            counter: 0,
            qso: QSO::new(),
            adif: Adif::default(),
        };
        assert(r@.doc.records =~= Seq::<Seq<FieldView<QSOFieldName>>>::empty());
        r
    }

    /// Feeds the characters of `cs` in order, stopping at the first error.
    pub fn feed_chars(&mut self, cs: &[char]) -> (r: Result<(), AdifError>)
        ensures
            match r {
                Ok(_) => run(old(self)@, cs@) == Ok::<StateView, ErrorKind>(final(self)@),
                Err(e) => run(old(self)@, cs@) is Err && run(old(self)@, cs@)->Err_0 == e.kind,
            },
    {
        let ghost start = self@;
        let mut i: usize = 0;
        assert(cs@.subrange(0, 0) =~= Seq::<char>::empty());
        while i < cs.len()
            invariant
                i <= cs@.len(),
                start == old(self)@,
                run(start, cs@.subrange(0, i as int)) == Ok::<StateView, ErrorKind>(self@),
            decreases cs@.len() - i,
        {
            assert(cs@.subrange(0, i + 1).drop_last() =~= cs@.subrange(0, i as int));
            match parse_adif_char(self, cs[i]) {
                Ok(_) => {},
                Err(e) => {
                    proof {
                        lemma_run_prefix_error(start, cs@, i + 1);
                    }
                    return Err(e);
                },
            }
            i = i + 1;
        }
        assert(cs@.subrange(0, i as int) =~= cs@);
        Ok(())
    }

    /// Feeds a chunk of input bytes, each read as one ISO-8859-1 character.
    pub fn feed(&mut self, chunk: &[u8]) -> (r: Result<(), AdifError>)
        ensures
            match r {
                Ok(_) => run(old(self)@, bytes_chars(chunk@)) == Ok::<StateView, ErrorKind>(
                    final(self)@,
                ),
                Err(e) => run(old(self)@, bytes_chars(chunk@)) is Err && run(
                    old(self)@,
                    bytes_chars(chunk@),
                )->Err_0 == e.kind,
            },
    {
        let mut cs: Vec<char> = Vec::new();
        let mut i: usize = 0;
        while i < chunk.len()
            invariant
                i <= chunk@.len(),
                cs@ =~= bytes_chars(chunk@.subrange(0, i as int)),
            decreases chunk@.len() - i,
        {
            cs.push(chunk[i] as char);
            i = i + 1;
        }
        assert(chunk@.subrange(0, i as int) =~= chunk@);
        self.feed_chars(cs.as_slice())
    }

    /// Ends the input: the document, or `UnexpectedEof` if a field was cut short.
    pub fn finish(self) -> (r: Result<Adif, AdifError>)
        ensures
            match r {
                Ok(a) => finish(self@) == Ok::<AdifView, ErrorKind>(a@),
                Err(e) => finish(self@) == Err::<AdifView, ErrorKind>(e.kind),
            },
    {
        if self.field_state == FieldState::LookingForBeginning {
            Ok(self.adif)
        } else {
            let rest = chars_of(self.buffer.as_str());
            Err(AdifError::new(ErrorKind::UnexpectedEof, rest.as_slice()))
        }
    }
}

/// Parses a whole document held in a string, as one chunk of its bytes:
/// the same as `parse(text.as_bytes())`.
pub fn parse_str(text: &str) -> (r: Result<Adif, AdifError>)
    ensures
        match r {
            Ok(a) => parse_chars(bytes_chars(text.spec_bytes())) == Ok::<AdifView, ErrorKind>(a@),
            Err(e) => parse_chars(bytes_chars(text.spec_bytes())) == Err::<AdifView, ErrorKind>(
                e.kind,
            ),
        },
{
    parse(text.as_bytes())
}

/// Parses a whole document of bytes, as one chunk.
pub fn parse(input: &[u8]) -> (r: Result<Adif, AdifError>)
    ensures
        match r {
            Ok(a) => parse_chars(bytes_chars(input@)) == Ok::<AdifView, ErrorKind>(a@),
            Err(e) => parse_chars(bytes_chars(input@)) == Err::<AdifView, ErrorKind>(e.kind),
        },
{
    let mut state = State::new();
    match state.feed(input) {
        Ok(_) => state.finish(),
        Err(e) => Err(e),
    }
}

impl Adif {
    /// Reads a whole document from the bytes of `value`: the same as
    /// `parse(value.as_bytes())`.
    pub fn deserialize(value: &str) -> (r: Result<Adif, AdifError>)
        ensures
            match r {
                Ok(a) => parse_chars(bytes_chars(value.spec_bytes())) == Ok::<AdifView, ErrorKind>(
                    a@,
                ),
                Err(e) => parse_chars(bytes_chars(value.spec_bytes())) == Err::<
                    AdifView,
                    ErrorKind,
                >(e.kind),
            },
    {
        parse_str(value)
    }
}

/// Feeds one character to the parser. On success the state has taken the
/// step; on error the parse is over and the state is not to be used again.
pub fn parse_adif_char(state: &mut State, c: char) -> (r: Result<(), AdifError>)
    ensures
        match r {
            Ok(_) => step(old(state)@, c) == Ok::<StateView, ErrorKind>(final(state)@),
            Err(e) => step(old(state)@, c) is Err && step(old(state)@, c)->Err_0 == e.kind,
        },
{
    match state.field_state {
        FieldState::LookingForBeginning => {
            state.look_for_beginning(c);
            Ok(())
        },
        FieldState::InTag => {
            push_char(&mut state.buffer, c);
            proof {
                lemma_tag_end_frame(old(state)@, state@, state@.buffer);
            }
            if c == '>' {
                state.tag_end()
            } else {
                Ok(())
            }
        },
        FieldState::InValue => {
            push_char(&mut state.buffer, c);
            if state.counter > 1 {
                state.counter = state.counter - 1;
                Ok(())
            } else {
                let b = chars_of(state.buffer.as_str());
                proof {
                    lemma_complete_frame(old(state)@, state@, b@);
                }
                state.complete(b.as_slice())
            }
        },
    }
}

} // verus!
