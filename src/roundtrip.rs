//! A finalized document is read back from its own text by the streaming
//! parser, field for field and record for record.

use vstd::prelude::*;
use crate::error::ErrorKind;
use crate::field::{FieldName, HeaderFieldName, QSOFieldName};
use crate::parser::{
    complete, end_field, initial, last_index, lemma_complete_frame, lemma_run_concat,
    lemma_run_one, parse_chars, run, step, tag_end, with_header_field, with_record_field,
    AdifState, FieldState, StateView,
};
use crate::record::{fields_text, finalized, join_lines, AdifView};
use crate::text::{
    bytes_chars,
    all_digits, decimal, digits_value, free_of, is_digit, lemma_decimal, upper, upper_char,
};
use crate::value::ValueView;
use crate::vocabulary::{lemma_token_chars, token_chars};
use crate::wire::{lemma_field_round_trip, FieldView, MAX_LEN};

verus! {

/// Between fields: nothing is pending.
pub open spec fn idle(s: StateView) -> bool {
    s.field_state == FieldState::LookingForBeginning && s.buffer == Seq::<char>::empty()
        && s.counter == 0
}

/// A field that can be written and read back.
pub open spec fn field_ok<N: FieldName>(f: FieldView<N>) -> bool {
    f.wf() && f.value.spec_encode().len() <= MAX_LEN
}

proof fn lemma_run_tag(s: StateView, t: Seq<char>)
    requires
        s.field_state == FieldState::InTag,
        free_of(t, '>'),
    ensures
        run(s, t) == Ok::<StateView, ErrorKind>(StateView { buffer: s.buffer + t, ..s }),
    decreases t.len(),
{
    if t.len() == 0 {
        assert(s.buffer + t =~= s.buffer);
    } else {
        assert(free_of(t.drop_last(), '>'));
        lemma_run_tag(s, t.drop_last());
        assert(t.last() == t[t.len() - 1]);
        assert((s.buffer + t.drop_last()).push(t.last()) =~= s.buffer + t);
    }
}

proof fn lemma_run_value_prefix(s: StateView, v: Seq<char>, j: int)
    requires
        s.field_state == FieldState::InValue,
        s.counter == v.len(),
        0 <= j < v.len(),
    ensures
        run(s, v.subrange(0, j)) == Ok::<StateView, ErrorKind>(
            StateView {
                buffer: s.buffer + v.subrange(0, j),
                counter: (v.len() - j) as nat,
                ..s
            },
        ),
    decreases j,
{
    if j == 0 {
        assert(s.buffer + v.subrange(0, 0) =~= s.buffer);
        assert(v.subrange(0, 0) =~= Seq::<char>::empty());
    } else {
        lemma_run_value_prefix(s, v, j - 1);
        assert(v.subrange(0, j).drop_last() =~= v.subrange(0, j - 1));
        assert((s.buffer + v.subrange(0, j - 1)).push(v[j - 1]) =~= s.buffer + v.subrange(0, j));
    }
}

/// Reading the value characters that a tag announced completes the field.
proof fn lemma_run_value(s: StateView, v: Seq<char>)
    requires
        s.field_state == FieldState::InValue,
        s.counter == v.len(),
        v.len() >= 1,
    ensures
        run(s, v) == complete(s, s.buffer + v),
{
    let n = v.len() as int;
    lemma_run_value_prefix(s, v, n - 1);
    assert(v.drop_last() =~= v.subrange(0, n - 1));
    assert((s.buffer + v.subrange(0, n - 1)).push(v[n - 1]) =~= s.buffer + v);
    let t = StateView {
        buffer: s.buffer + v.subrange(0, n - 1),
        counter: (v.len() - (n - 1)) as nat,
        ..s
    };
    assert(v.last() == v[n - 1]);
    assert(run(s, v) == step(t, v[n - 1]));
    lemma_complete_frame(t, s, s.buffer + v);
}

proof fn lemma_last_colon(p: Seq<char>, q: Seq<char>)
    requires
        free_of(q, ':'),
    ensures
        last_index(p + seq![':'] + q, ':') == Some(p.len() as int),
    decreases q.len(),
{
    if q.len() == 0 {
        assert(p + seq![':'] + q =~= p.push(':'));
    } else {
        assert(free_of(q.drop_last(), ':'));
        lemma_last_colon(p, q.drop_last());
        assert((p + seq![':'] + q).drop_last() =~= p + seq![':'] + q.drop_last());
        assert(q.last() == q[q.len() - 1]);
    }
}

/// Text holding `:` at position `k` is not a text without `:`, whatever the case.
proof fn lemma_colon_differs(b: Seq<char>, t: Seq<char>, k: int)
    requires
        0 <= k < b.len(),
        b[k] == ':',
        free_of(t, ':'),
    ensures
        upper(b) != t,
{
    if upper(b) == t {
        assert(upper(b)[k] == upper_char(b[k]));
        assert(t[k] == ':');
    }
}

proof fn lemma_terminator_text<N: FieldName>()
    ensures
        free_of(end_field::<N>().spec_encode(), ':'),
        upper(end_field::<N>().spec_encode()) == end_field::<N>().spec_encode(),
        end_field::<N>().spec_encode() == seq!['<'] + N::spec_terminator().spec_name()
            + seq!['>'],
{
    let name = N::spec_terminator().spec_name();
    N::spec_terminator().lemma_name();
    lemma_token_chars(name);
    let e = end_field::<N>().spec_encode();
    assert(e =~= seq!['<'] + name + seq!['>']);
    assert forall|i: int| 0 <= i < e.len() implies #[trigger] e[i] != ':' by {
        if 1 <= i <= name.len() {
            assert(e[i] == name[i - 1]);
        }
    }
    assert(upper(e) =~= e) by {
        assert forall|i: int| 0 <= i < e.len() implies #[trigger] upper(e)[i] == e[i] by {
            if 1 <= i <= name.len() {
                assert(e[i] == name[i - 1]);
                assert(upper(name)[i - 1] == upper_char(name[i - 1]));
            }
        }
    }
}

/// The tag `<NAME:LEN>` of a field that is no terminator announces its value.
proof fn lemma_tag_end_field(s2: StateView, b: Seq<char>, name: Seq<char>, dec: Seq<char>, len: nat)
    requires
        s2.field_state == FieldState::InTag,
        b == seq!['<'] + name + seq![':'] + dec + seq!['>'],
        token_chars(name),
        all_digits(dec),
        dec.len() > 0,
        digits_value(dec) == len,
        len <= MAX_LEN,
    ensures
        tag_end(s2, b) == (if len == 0 {
            complete(s2, b)
        } else {
            Ok::<StateView, ErrorKind>(
                StateView { field_state: FieldState::InValue, buffer: b, counter: len, ..s2 },
            )
        }),
{
    reveal(tag_end);
    lemma_token_chars(name);
    let k = 1 + name.len() as int;
    assert(b[k] == ':');
    lemma_terminator_text::<HeaderFieldName>();
    lemma_terminator_text::<QSOFieldName>();
    lemma_colon_differs(b, end_field::<HeaderFieldName>().spec_encode(), k);
    lemma_colon_differs(b, end_field::<QSOFieldName>().spec_encode(), k);
    let q = dec + seq!['>'];
    assert(free_of(q, ':')) by {
        assert forall|i: int| 0 <= i < q.len() implies #[trigger] q[i] != ':' by {
            if i < dec.len() {
                assert(is_digit(dec[i]));
            }
        }
    }
    assert(b =~= (seq!['<'] + name) + seq![':'] + q);
    lemma_last_colon(seq!['<'] + name, q);
    assert(b.subrange(k + 1, b.len() - 1) =~= dec);
}

/// From between fields, the text of a field that is no terminator is read
/// whole and handed to `complete`.
proof fn lemma_run_field_text<N: FieldName>(s: StateView, f: FieldView<N>)
    requires
        idle(s),
        field_ok(f),
        !f.is_end(),
    ensures
        run(s, f.spec_encode()) == complete(s, f.spec_encode()),
{
    let name = f.name.spec_name();
    let v = f.value.spec_encode();
    let dec = decimal(v.len());
    f.name.lemma_name();
    lemma_token_chars(name);
    lemma_decimal(v.len());
    let mid = name + seq![':'] + dec;
    let e = f.spec_encode();
    assert(free_of(mid, '>')) by {
        assert forall|i: int| 0 <= i < mid.len() implies #[trigger] mid[i] != '>' by {
            if i < name.len() {
                assert(mid[i] == name[i]);
            } else if i > name.len() {
                assert(mid[i] == dec[i - name.len() - 1]);
                assert(is_digit(dec[i - name.len() - 1]));
            }
        }
    }
    let b = seq!['<'] + mid + seq!['>'];
    assert(b =~= seq!['<'] + name + seq![':'] + dec + seq!['>']);
    let s2 = lemma_run_open_tag(s, mid);
    lemma_tag_end_field(s2, b, name, dec, v.len());
    lemma_complete_frame(s2, s, b);
    if v.len() == 0 {
        assert(e =~= b);
    } else {
        let s3 = StateView {
            field_state: FieldState::InValue,
            buffer: b,
            counter: v.len(),
            ..s2
        };
        lemma_run_concat(s, b, v);
        lemma_run_value(s3, v);
        assert(b + v =~= e);
        lemma_complete_frame(s3, s, b + v);
    }
}

/// Reading `<` and then tag text without `>`, and then `>`, from between fields.
proof fn lemma_run_open_tag(s: StateView, mid: Seq<char>) -> (s2: StateView)
    requires
        idle(s),
        free_of(mid, '>'),
    ensures
        s2 == (StateView {
            field_state: FieldState::InTag,
            buffer: seq!['<'] + mid,
            counter: 0,
            ..s
        }),
        run(s, seq!['<'] + mid + seq!['>']) == tag_end(s2, seq!['<'] + mid + seq!['>']),
{
    let s1 = StateView { field_state: FieldState::InTag, buffer: seq!['<'], counter: 0, ..s };
    lemma_run_one(s, '<');
    lemma_run_tag(s1, mid);
    lemma_run_concat(s, seq!['<'], mid);
    let s2 = StateView { buffer: seq!['<'] + mid, ..s1 };
    lemma_run_one(s2, '>');
    assert((seq!['<'] + mid).push('>') =~= seq!['<'] + mid + seq!['>']);
    lemma_run_concat(s, seq!['<'] + mid, seq!['>']);
    s2
}

/// The terminator text of the active domain ends the header or the record.
proof fn lemma_run_header_end(s: StateView)
    requires
        idle(s),
        s.adif_state == AdifState::InHeader,
    ensures
        run(s, end_field::<HeaderFieldName>().spec_encode()) == Ok::<StateView, ErrorKind>(
            with_header_field(s, end_field::<HeaderFieldName>()),
        ),
{
    let name = HeaderFieldName::spec_terminator().spec_name();
    lemma_terminator_text::<HeaderFieldName>();
    HeaderFieldName::spec_terminator().lemma_name();
    lemma_token_chars(name);
    let s2 = lemma_run_open_tag(s, name);
    reveal(tag_end);
}

proof fn lemma_run_record_end(s: StateView)
    requires
        idle(s),
        s.adif_state == AdifState::InQso,
    ensures
        run(s, end_field::<QSOFieldName>().spec_encode()) == Ok::<StateView, ErrorKind>(
            with_record_field(s, end_field::<QSOFieldName>()),
        ),
{
    let name = QSOFieldName::spec_terminator().spec_name();
    lemma_terminator_text::<QSOFieldName>();
    QSOFieldName::spec_terminator().lemma_name();
    lemma_token_chars(name);
    let s2 = lemma_run_open_tag(s, name);
    reveal(tag_end);
    assert(s2.adif_state == AdifState::InQso);
}

proof fn lemma_complete_header(t: StateView, f: FieldView<HeaderFieldName>)
    requires
        t.adif_state == AdifState::InHeader,
        field_ok(f),
    ensures
        complete(t, f.spec_encode()) == Ok::<StateView, ErrorKind>(with_header_field(t, f)),
{
    reveal(complete);
    lemma_field_round_trip(f);
}

proof fn lemma_complete_record(t: StateView, f: FieldView<QSOFieldName>)
    requires
        t.adif_state == AdifState::InQso,
        field_ok(f),
    ensures
        complete(t, f.spec_encode()) == Ok::<StateView, ErrorKind>(with_record_field(t, f)),
{
    reveal(complete);
    lemma_field_round_trip(f);
}

/// A terminator that can be written and read back carries no value.
proof fn lemma_end_is_end_field<N: FieldName>(f: FieldView<N>)
    requires
        f.wf(),
        f.is_end(),
    ensures
        f == end_field::<N>(),
{
    f.name.lemma_terminator();
}

proof fn lemma_run_header_fields(s: StateView, fs: Seq<FieldView<HeaderFieldName>>)
    requires
        idle(s),
        s.adif_state == AdifState::InHeader,
        forall|i: int| 0 <= i < fs.len() ==> field_ok(#[trigger] fs[i]) && !fs[i].is_end(),
    ensures
        run(s, fields_text(fs)) == Ok::<StateView, ErrorKind>(
            StateView {
                doc: AdifView { header: s.doc.header + fs, records: s.doc.records },
                ..s
            },
        ),
    decreases fs.len(),
{
    if fs.len() == 0 {
        assert(s.doc.header + fs =~= s.doc.header);
        assert(fields_text(fs) =~= Seq::<char>::empty());
    } else {
        let init = fs.drop_last();
        let f = fs.last();
        assert forall|i: int| 0 <= i < init.len() implies field_ok(#[trigger] init[i])
            && !init[i].is_end() by {
            assert(init[i] == fs[i]);
        }
        lemma_run_header_fields(s, init);
        let t = StateView {
            doc: AdifView { header: s.doc.header + init, records: s.doc.records },
            ..s
        };
        assert(f == fs[fs.len() - 1]);
        lemma_run_concat(s, fields_text(init), f.spec_encode());
        lemma_run_field_text(t, f);
        lemma_complete_header(t, f);
        assert((s.doc.header + init).push(f) =~= s.doc.header + fs);
    }
}

proof fn lemma_run_record_fields(s: StateView, fs: Seq<FieldView<QSOFieldName>>)
    requires
        idle(s),
        s.adif_state == AdifState::InQso,
        forall|i: int| 0 <= i < fs.len() ==> field_ok(#[trigger] fs[i]) && !fs[i].is_end(),
    ensures
        run(s, fields_text(fs)) == Ok::<StateView, ErrorKind>(
            StateView { qso: s.qso + fs, ..s },
        ),
    decreases fs.len(),
{
    if fs.len() == 0 {
        assert(s.qso + fs =~= s.qso);
        assert(fields_text(fs) =~= Seq::<char>::empty());
    } else {
        let init = fs.drop_last();
        let f = fs.last();
        assert forall|i: int| 0 <= i < init.len() implies field_ok(#[trigger] init[i])
            && !init[i].is_end() by {
            assert(init[i] == fs[i]);
        }
        lemma_run_record_fields(s, init);
        let t = StateView { qso: s.qso + init, ..s };
        assert(f == fs[fs.len() - 1]);
        lemma_run_concat(s, fields_text(init), f.spec_encode());
        lemma_run_field_text(t, f);
        lemma_complete_record(t, f);
        assert((s.qso + init).push(f) =~= s.qso + fs);
    }
}

/// Every field of a record can be written and read back.
pub open spec fn record_ok<N: FieldName>(fs: Seq<FieldView<N>>) -> bool {
    finalized(fs) && forall|i: int| 0 <= i < fs.len() ==> field_ok(#[trigger] fs[i])
}

proof fn lemma_record_parts<N: FieldName>(fs: Seq<FieldView<N>>)
    requires
        record_ok(fs),
    ensures
        forall|i: int|
            0 <= i < fs.drop_last().len() ==> field_ok(#[trigger] fs.drop_last()[i])
                && !fs.drop_last()[i].is_end(),
        fs.last() == end_field::<N>(),
        fields_text(fs) == fields_text(fs.drop_last()) + end_field::<N>().spec_encode(),
        fields_text(fs).len() > 0,
{
    assert forall|i: int| 0 <= i < fs.drop_last().len() implies field_ok(
        #[trigger] fs.drop_last()[i],
    ) && !fs.drop_last()[i].is_end() by {
        assert(fs.drop_last()[i] == fs[i]);
    }
    assert(field_ok(fs[fs.len() - 1]));
    lemma_end_is_end_field(fs.last());
}

proof fn lemma_run_header(h: Seq<FieldView<HeaderFieldName>>)
    requires
        record_ok(h),
    ensures
        run(initial(), fields_text(h)) == Ok::<StateView, ErrorKind>(
            StateView {
                adif_state: AdifState::InQso,
                doc: AdifView { header: h, records: Seq::empty() },
                ..initial()
            },
        ),
{
    lemma_record_parts(h);
    let s = initial();
    let init = h.drop_last();
    lemma_run_header_fields(s, init);
    let t = StateView {
        doc: AdifView { header: s.doc.header + init, records: s.doc.records },
        ..s
    };
    lemma_run_concat(s, fields_text(init), end_field::<HeaderFieldName>().spec_encode());
    lemma_run_header_end(t);
    assert((s.doc.header + init).push(end_field::<HeaderFieldName>()) =~= h);
    assert(with_header_field(t, end_field::<HeaderFieldName>()).buffer =~= Seq::<char>::empty());
}

proof fn lemma_run_record(s: StateView, r: Seq<FieldView<QSOFieldName>>)
    requires
        idle(s),
        s.adif_state == AdifState::InQso,
        s.qso == Seq::<FieldView<QSOFieldName>>::empty(),
        record_ok(r),
    ensures
        run(s, fields_text(r)) == Ok::<StateView, ErrorKind>(
            StateView {
                doc: AdifView { header: s.doc.header, records: s.doc.records.push(r) },
                ..s
            },
        ),
{
    lemma_record_parts(r);
    let init = r.drop_last();
    lemma_run_record_fields(s, init);
    let t = StateView { qso: s.qso + init, ..s };
    lemma_run_concat(s, fields_text(init), end_field::<QSOFieldName>().spec_encode());
    lemma_run_record_end(t);
    assert((s.qso + init).push(end_field::<QSOFieldName>()) =~= r);
}

/// Every record of the document, and its header, is finalized and made of
/// fields that can be written and read back.
pub open spec fn document_ok(d: AdifView) -> bool {
    &&& record_ok(d.header)
    &&& forall|i: int| 0 <= i < d.records.len() ==> record_ok(#[trigger] d.records[i])
}

proof fn lemma_join_lines_nonempty(bs: Seq<Seq<char>>)
    requires
        bs.len() >= 1,
        bs[0].len() > 0,
    ensures
        join_lines(bs).len() > 0,
    decreases bs.len(),
{
    if bs.len() > 1 {
        assert(bs.drop_last()[0] == bs[0]);
        lemma_join_lines_nonempty(bs.drop_last());
    } else {
        assert(bs.drop_last() =~= Seq::<Seq<char>>::empty());
    }
}

pub open spec fn after_records(d: AdifView, k: int) -> StateView {
    StateView {
        adif_state: AdifState::InQso,
        doc: AdifView { header: d.header, records: d.records.subrange(0, k) },
        ..initial()
    }
}

proof fn lemma_run_blocks(d: AdifView, k: int)
    requires
        document_ok(d),
        0 <= k <= d.records.len(),
    ensures
        run(initial(), join_lines(d.blocks().subrange(0, k + 1))) == Ok::<StateView, ErrorKind>(
            after_records(d, k),
        ),
    decreases k,
{
    let bs = d.blocks();
    lemma_record_parts(d.header);
    assert(bs[0] == fields_text(d.header));
    if k == 0 {
        assert(bs.subrange(0, 1).drop_last() =~= Seq::<Seq<char>>::empty());
        assert(bs.subrange(0, 1).last() == bs[0]);
        assert(join_lines(Seq::<Seq<char>>::empty()) == Seq::<char>::empty());
        assert(join_lines(bs.subrange(0, 1)) == bs[0]);
        lemma_run_header(d.header);
        assert(d.records.subrange(0, 0) =~= Seq::<Seq<FieldView<QSOFieldName>>>::empty());
        assert(after_records(d, 0) == StateView {
            adif_state: AdifState::InQso,
            doc: AdifView { header: d.header, records: Seq::empty() },
            ..initial()
        });
    } else {
        lemma_run_blocks(d, k - 1);
        let pre = bs.subrange(0, k);
        let a = join_lines(pre);
        let r = d.records[k - 1];
        assert(record_ok(r));
        lemma_record_parts(r);
        assert(bs[k] == fields_text(r));
        assert(pre[0] == bs[0]);
        lemma_join_lines_nonempty(pre);
        assert(bs.subrange(0, k + 1).drop_last() =~= pre);
        assert(bs.subrange(0, k + 1).last() == bs[k]);
        let text = a + seq!['\n'] + fields_text(r);
        assert(join_lines(bs.subrange(0, k + 1)) == text);
        let s = after_records(d, k - 1);
        lemma_run_concat(initial(), a, seq!['\n']);
        lemma_run_one(s, '\n');
        lemma_run_concat(initial(), a + seq!['\n'], fields_text(r));
        assert(step(s, '\n') == Ok::<StateView, ErrorKind>(s));
        assert(run(initial(), a + seq!['\n']) == Ok::<StateView, ErrorKind>(s));
        assert(s.qso == Seq::<FieldView<QSOFieldName>>::empty());
        lemma_run_record(s, r);
        assert(d.records.subrange(0, k - 1).push(r) =~= d.records.subrange(0, k));
        assert(run(initial(), text) == run(s, fields_text(r)));
        assert(StateView {
            doc: AdifView { header: s.doc.header, records: s.doc.records.push(r) },
            ..s
        } == after_records(d, k));
    }
}

/// A finalized document is read back from its own text: the same header
/// fields and the same records, each with the same fields, in order.
pub proof fn lemma_document_round_trip(d: AdifView)
    requires
        document_ok(d),
    ensures
        parse_chars(d.spec_serialize()) == Ok::<AdifView, ErrorKind>(d),
{
    let n = d.records.len() as int;
    lemma_run_blocks(d, n);
    assert(d.blocks().subrange(0, n + 1) =~= d.blocks());
    assert(d.records.subrange(0, n) =~= d.records);
}

/// The wire bytes of a finalized document, as `Adif::to_bytes` gives them,
/// parse back to the document.
pub proof fn lemma_document_bytes_round_trip(d: AdifView, b: Seq<u8>)
    requires
        document_ok(d),
        bytes_chars(b) == d.spec_serialize(),
    ensures
        parse_chars(bytes_chars(b)) == Ok::<AdifView, ErrorKind>(d),
{
    lemma_document_round_trip(d);
}

} // verus!
