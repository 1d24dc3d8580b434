//! The text format of the session file.
//!
//! A record is written as four or five lines: homeserver, user id, device
//! id, access token and, if one is known, the sync cursor. Every line ends
//! with a line feed. Inside a field a backslash is written as two
//! backslashes and a line feed as a backslash followed by `n`, so that any
//! string can be a field.

use vstd::prelude::*;

verus! {

/// The mathematical content of the credentials of an account.
pub struct CredentialsView {
    pub homeserver: Seq<char>,
    pub user_id: Seq<char>,
    pub device_id: Seq<char>,
    pub access_token: Seq<char>,
}

/// The mathematical content of a session record.
pub struct SessionRecordView {
    pub credentials: CredentialsView,
    pub sync_token: Option<Seq<char>>,
}

/// How one character of a field is written.
pub open spec fn escape_char(c: char) -> Seq<char> {
    if c == '\\' {
        seq!['\\', '\\']
    } else if c == '\n' {
        seq!['\\', 'n']
    } else {
        seq![c]
    }
}

/// How a field is written: character by character.
pub open spec fn escape(field: Seq<char>) -> Seq<char>
    decreases field.len(),
{
    if field.len() == 0 {
        Seq::empty()
    } else {
        escape(field.drop_last()) + escape_char(field.last())
    }
}

/// A field as a line of the file.
pub open spec fn line(field: Seq<char>) -> Seq<char> {
    escape(field).push('\n')
}

/// Fields as lines, one after the other.
pub open spec fn lines(fields: Seq<Seq<char>>) -> Seq<char>
    decreases fields.len(),
{
    if fields.len() == 0 {
        Seq::empty()
    } else {
        lines(fields.drop_last()) + line(fields.last())
    }
}

/// The fields of a record in the order in which they are written.
pub open spec fn fields_of(record: SessionRecordView) -> Seq<Seq<char>> {
    let credentials = seq![
        record.credentials.homeserver,
        record.credentials.user_id,
        record.credentials.device_id,
        record.credentials.access_token,
    ];
    match record.sync_token {
        Some(cursor) => credentials.push(cursor),
        None => credentials,
    }
}

/// The record that four or five fields stand for.
pub open spec fn record_of(fields: Seq<Seq<char>>) -> SessionRecordView {
    SessionRecordView {
        credentials: CredentialsView {
            homeserver: fields[0],
            user_id: fields[1],
            device_id: fields[2],
            access_token: fields[3],
        },
        sync_token: if fields.len() == 5 {
            Some(fields[4])
        } else {
            None
        },
    }
}

/// The contents of the session file for a record.
pub open spec fn encode_spec(record: SessionRecordView) -> Seq<char> {
    lines(fields_of(record))
}

/// The record that a text is the file contents of, if there is one.
pub open spec fn decode_spec(text: Seq<char>) -> Option<SessionRecordView> {
    if exists|record: SessionRecordView| encode_spec(record) == text {
        Some(choose|record: SessionRecordView| encode_spec(record) == text)
    } else {
        None
    }
}

/// What reading a text from its start has found so far.
pub struct Scan {
    /// The fields of the lines that have ended.
    pub fields: Seq<Seq<char>>,
    /// The field of the line that has not ended yet.
    pub current: Seq<char>,
    /// The last character was a backslash that starts an escape.
    pub escaped: bool,
    /// A backslash was followed by something else than a backslash or `n`.
    pub bad: bool,
}

/// The reading of one more character.
pub open spec fn scan_char(state: Scan, c: char) -> Scan {
    if state.bad {
        state
    } else if state.escaped {
        if c == '\\' {
            Scan { current: state.current.push('\\'), escaped: false, ..state }
        } else if c == 'n' {
            Scan { current: state.current.push('\n'), escaped: false, ..state }
        } else {
            Scan { bad: true, ..state }
        }
    } else if c == '\\' {
        Scan { escaped: true, ..state }
    } else if c == '\n' {
        Scan { fields: state.fields.push(state.current), current: Seq::empty(), ..state }
    } else {
        Scan { current: state.current.push(c), ..state }
    }
}

/// The reading of a whole text.
pub open spec fn scan(text: Seq<char>) -> Scan
    decreases text.len(),
{
    if text.len() == 0 {
        Scan { fields: Seq::empty(), current: Seq::empty(), escaped: false, bad: false }
    } else {
        scan_char(scan(text.drop_last()), text.last())
    }
}

/// The reading has ended between two lines, after four or five of them.
pub open spec fn complete(state: Scan) -> bool {
    !state.bad && !state.escaped && state.current.len() == 0 && (state.fields.len() == 4
        || state.fields.len() == 5)
}

/// The text that a reading has seen.
pub open spec fn unparse(state: Scan) -> Seq<char> {
    lines(state.fields) + escape(state.current) + if state.escaped {
        seq!['\\']
    } else {
        Seq::empty()
    }
}

/// Reading one more character after a text.
pub proof fn lemma_scan_push(text: Seq<char>, c: char)
    ensures
        scan(text.push(c)) == scan_char(scan(text), c),
{
    assert(text.push(c).drop_last() =~= text);
}

/// Writing a field with one more character.
pub proof fn lemma_escape_push(field: Seq<char>, c: char)
    ensures
        escape(field.push(c)) == escape(field) + escape_char(c),
{
    assert(field.push(c).drop_last() =~= field);
}

/// Writing one more line.
pub proof fn lemma_lines_push(fields: Seq<Seq<char>>, field: Seq<char>)
    ensures
        lines(fields.push(field)) == lines(fields) + line(field),
{
    assert(fields.push(field).drop_last() =~= fields);
}

/// Once a reading has gone wrong it stays wrong.
pub proof fn lemma_bad_stays_bad(text: Seq<char>, more: Seq<char>)
    requires
        scan(text).bad,
    ensures
        scan(text + more).bad,
    decreases more.len(),
{
    if more.len() == 0 {
        assert(text + more =~= text);
    } else {
        lemma_bad_stays_bad(text, more.drop_last());
        assert(text + more =~= (text + more.drop_last()).push(more.last()));
        lemma_scan_push(text + more.drop_last(), more.last());
    }
}

/// Reading a written field appends the field to the current one.
proof fn lemma_scan_escape(text: Seq<char>, field: Seq<char>)
    requires
        !scan(text).bad,
        !scan(text).escaped,
    ensures
        scan(text + escape(field)) == (Scan {
            current: scan(text).current + field,
            ..scan(text)
        }),
    decreases field.len(),
{
    let state = scan(text);
    if field.len() == 0 {
        assert(text + escape(field) =~= text);
        assert(state.current + field =~= state.current);
    } else {
        let front = field.drop_last();
        let c = field.last();
        lemma_scan_escape(text, front);
        let before = text + escape(front);
        assert(state.current + field =~= (state.current + front).push(c));
        if c == '\\' {
            assert(text + escape(field) =~= before.push('\\').push('\\'));
            lemma_scan_push(before, '\\');
            lemma_scan_push(before.push('\\'), '\\');
        } else if c == '\n' {
            assert(text + escape(field) =~= before.push('\\').push('n'));
            lemma_scan_push(before, '\\');
            lemma_scan_push(before.push('\\'), 'n');
        } else {
            assert(text + escape(field) =~= before.push(c));
            lemma_scan_push(before, c);
        }
    }
}

/// Reading written lines after a text that ended between two lines adds
/// their fields.
proof fn lemma_scan_lines(text: Seq<char>, fields: Seq<Seq<char>>)
    requires
        !scan(text).bad,
        !scan(text).escaped,
        scan(text).current.len() == 0,
    ensures
        scan(text + lines(fields)) == (Scan {
            fields: scan(text).fields + fields,
            current: Seq::empty(),
            escaped: false,
            bad: false,
        }),
    decreases fields.len(),
{
    let state = scan(text);
    if fields.len() == 0 {
        assert(text + lines(fields) =~= text);
        assert(state.fields + fields =~= state.fields);
        assert(state.current =~= Seq::<char>::empty());
    } else {
        let front = fields.drop_last();
        let field = fields.last();
        lemma_scan_lines(text, front);
        let before = text + lines(front);
        lemma_scan_escape(before, field);
        assert(text + lines(fields) =~= (before + escape(field)).push('\n'));
        lemma_scan_push(before + escape(field), '\n');
        assert(Seq::<char>::empty() + field =~= field);
        assert(state.fields + fields =~= (state.fields + front).push(field));
    }
}

/// Reading the contents written for a record finds exactly its fields.
pub proof fn lemma_scan_encoding(record: SessionRecordView)
    ensures
        scan(encode_spec(record)) == (Scan {
            fields: fields_of(record),
            current: Seq::empty(),
            escaped: false,
            bad: false,
        }),
        complete(scan(encode_spec(record))),
        record_of(fields_of(record)) == record,
{
    let nothing = Seq::<char>::empty();
    lemma_scan_lines(nothing, fields_of(record));
    assert(nothing + lines(fields_of(record)) =~= lines(fields_of(record)));
    assert(Seq::<Seq<char>>::empty() + fields_of(record) =~= fields_of(record));
}

/// A reading that has not gone wrong has seen exactly the text that its
/// state stands for.
pub proof fn lemma_scan_sound(text: Seq<char>)
    requires
        !scan(text).bad,
    ensures
        text == unparse(scan(text)),
    decreases text.len(),
{
    if text.len() == 0 {
        assert(unparse(scan(text)) =~= text);
    } else {
        let front = text.drop_last();
        let c = text.last();
        let before = scan(front);
        lemma_scan_sound(front);
        assert(text =~= front.push(c));
        if before.escaped {
            if c == '\\' {
                lemma_escape_push(before.current, '\\');
            } else {
                lemma_escape_push(before.current, '\n');
            }
            assert(unparse(scan(text)) =~= text);
        } else if c == '\\' {
            assert(unparse(scan(text)) =~= text);
        } else if c == '\n' {
            lemma_lines_push(before.fields, before.current);
            assert(unparse(scan(text)) =~= text);
        } else {
            lemma_escape_push(before.current, c);
            assert(unparse(scan(text)) =~= text);
        }
    }
}

/// Four or five fields are the fields of the record they stand for.
pub proof fn lemma_fields_of_record(fields: Seq<Seq<char>>)
    requires
        fields.len() == 4 || fields.len() == 5,
    ensures
        fields_of(record_of(fields)) == fields,
{
    assert(fields_of(record_of(fields)) =~= fields);
}

/// A text whose reading is complete is the contents written for the
/// record that its fields stand for, and for no other record.
pub proof fn lemma_complete_decodes(text: Seq<char>)
    requires
        complete(scan(text)),
    ensures
        encode_spec(record_of(scan(text).fields)) == text,
        decode_spec(text) == Some(record_of(scan(text).fields)),
{
    let state = scan(text);
    lemma_scan_sound(text);
    lemma_fields_of_record(state.fields);
    assert(escape(state.current) =~= Seq::<char>::empty());
    assert(unparse(state) =~= lines(state.fields));
    let record = record_of(state.fields);
    assert(encode_spec(record) == text);
    let chosen = choose|r: SessionRecordView| encode_spec(r) == text;
    lemma_scan_encoding(chosen);
    lemma_scan_encoding(record);
}

/// A text whose reading is not complete is the contents of no record.
pub proof fn lemma_incomplete_decodes_to_nothing(text: Seq<char>)
    requires
        !complete(scan(text)),
    ensures
        forall|record: SessionRecordView| encode_spec(record) != text,
        decode_spec(text) is None,
{
    assert forall|record: SessionRecordView| encode_spec(record) != text by {
        lemma_scan_encoding(record);
    }
}

/// Reading back what was written for a record gives that record: writing
/// loses nothing, and two records are never written alike.
pub proof fn law_decode_inverts_encode(record: SessionRecordView)
    ensures
        decode_spec(encode_spec(record)) == Some(record),
{
    lemma_scan_encoding(record);
    lemma_complete_decodes(encode_spec(record));
}

/// The contents of a session file determine the record: two records that
/// are written alike are the same record.
pub proof fn law_encoding_is_injective(a: SessionRecordView, b: SessionRecordView)
    requires
        encode_spec(a) == encode_spec(b),
    ensures
        a == b,
{
    lemma_scan_encoding(a);
    lemma_scan_encoding(b);
}

/// A text that decodes is the contents written for the record it decodes
/// to.
pub proof fn law_encode_inverts_decode(text: Seq<char>)
    requires
        decode_spec(text) is Some,
    ensures
        encode_spec(decode_spec(text)->0) == text,
{
}

} // verus!
