//! The session record: the credentials of the logged-in account together
//! with the sync cursor that was persisted last.
//!
//! Reading and writing the file is left to the caller; this module says
//! what the file holds. [`restore_session`] turns what was read into a
//! record, [`persist_sync_token`] turns what was read into what is to be
//! written so that the cursor is replaced and nothing else changes.

use crate::session_format::{
    decode_spec, encode_spec, escape, fields_of, lemma_bad_stays_bad, lemma_complete_decodes,
    lemma_escape_push, lemma_incomplete_decodes_to_nothing, lemma_lines_push, lemma_scan_push,
    line, lines, record_of, scan, CredentialsView, Scan, SessionRecordView,
};
use crate::text::{push_char, texts};
use matrix_sdk::ruma::UserId;
use vstd::prelude::*;
use vstd::std_specs::iter::IteratorSpec;

verus! {

/// The credentials of the logged-in account.
#[derive(Clone, Debug, PartialEq, Eq)]
pub struct Credentials {
    pub homeserver: String,
    pub user_id: String,
    pub device_id: String,
    pub access_token: String,
}

impl View for Credentials {
    type V = CredentialsView;

    open spec fn view(&self) -> CredentialsView {
        CredentialsView {
            homeserver: self.homeserver@,
            user_id: self.user_id@,
            device_id: self.device_id@,
            access_token: self.access_token@,
        }
    }
}

/// What the session file holds.
#[derive(Clone, Debug, PartialEq, Eq)]
pub struct SessionRecord {
    pub credentials: Credentials,
    /// The cursor of the last sync round that was fully processed, if any.
    pub sync_token: Option<String>,
}

impl View for SessionRecord {
    type V = SessionRecordView;

    open spec fn view(&self) -> SessionRecordView {
        SessionRecordView {
            credentials: self.credentials@,
            sync_token: match self.sync_token {
                Some(cursor) => Some(cursor@),
                None => None,
            },
        }
    }
}

/// Why a session could not be restored.
#[derive(Clone, Copy, Debug, PartialEq, Eq, Structural)]
pub enum SessionLoadError {
    /// There is no session file.
    Missing,
    /// The session file could not be read.
    Unreadable,
    /// The session file does not hold a record.
    Malformed,
    /// The record's user id is no Matrix user id.
    InvalidCredentials,
}

impl SessionLoadError {
    /// The error in words.
    pub open spec fn describe_text(self) -> Seq<char> {
        match self {
            SessionLoadError::Missing => "there is no session file"@,
            SessionLoadError::Unreadable => "the session file cannot be read"@,
            SessionLoadError::Malformed => "the session file holds no session record"@,
            SessionLoadError::InvalidCredentials => "the session record names no Matrix user"@,
        }
    }

    /// The error in words.
    pub fn describe(&self) -> (text: &'static str)
        ensures
            text@ == self.describe_text(),
    {
        match self {
            SessionLoadError::Missing => "there is no session file",
            SessionLoadError::Unreadable => "the session file cannot be read",
            SessionLoadError::Malformed => "the session file holds no session record",
            SessionLoadError::InvalidCredentials => "the session record names no Matrix user",
        }
    }
}

/// What an attempt to read the session file gave.
#[derive(Clone, Debug, PartialEq, Eq)]
pub enum SessionFile {
    /// There is no such file.
    Missing,
    /// The file is there but could not be read as text.
    Unreadable,
    /// The text of the file.
    Contents(String),
}

/// The mathematical content of a [`SessionFile`].
pub enum SessionFileView {
    Missing,
    Unreadable,
    Contents(Seq<char>),
}

impl View for SessionFile {
    type V = SessionFileView;

    open spec fn view(&self) -> SessionFileView {
        match *self {
            SessionFile::Missing => SessionFileView::Missing,
            SessionFile::Unreadable => SessionFileView::Unreadable,
            SessionFile::Contents(text) => SessionFileView::Contents(text@),
        }
    }
}

/// How the bot gets its session at startup.
#[derive(Clone, Debug, PartialEq, Eq)]
pub enum Startup {
    /// Restore the client from this record.
    Restore(SessionRecord),
    /// There is no session yet: log in.
    Login,
    /// The session file is there but cannot be used: give up.
    Abort(SessionLoadError),
}

/// The mathematical content of a [`Startup`].
pub enum StartupView {
    Restore(SessionRecordView),
    Login,
    Abort(SessionLoadError),
}

impl View for Startup {
    type V = StartupView;

    open spec fn view(&self) -> StartupView {
        match *self {
            Startup::Restore(record) => StartupView::Restore(record@),
            Startup::Login => StartupView::Login,
            Startup::Abort(error) => StartupView::Abort(error),
        }
    }
}

/// Whether the Matrix SDK accepts a text as a user id: the answer of
/// `UserId::parse` of `matrix_sdk::ruma`, which depends on the text alone.
pub uninterp spec fn user_id_accepted(user_id: Seq<char>) -> bool;

/// Asks the Matrix SDK whether a text is a user id.
///
/// Calls `UserId::parse` of `matrix_sdk::ruma` and tells whether it
/// returned `Ok`. The function checks the text against the grammar of
/// Matrix user ids and does nothing else, so the same text always gets
/// the same answer; the contract gives that answer its name and claims
/// nothing about which texts are accepted.
#[verifier::external_body]
fn is_user_id(text: &str) -> (accepted: bool)
    ensures
        accepted == user_id_accepted(text@),
{
    UserId::parse(text).is_ok()
}

/// What becomes of a record that was read, given whether its user id is
/// accepted: the record itself, or the error that says it is not.
pub open spec fn accept_spec(record: SessionRecordView, accepted: bool) -> Result<
    SessionRecordView,
    SessionLoadError,
> {
    if accepted {
        Ok(record)
    } else {
        Err(SessionLoadError::InvalidCredentials)
    }
}

/// The record of a fresh login: the credentials and no cursor.
pub open spec fn fresh_record(credentials: CredentialsView) -> SessionRecordView {
    SessionRecordView { credentials, sync_token: None }
}

/// A record with its cursor replaced.
pub open spec fn with_sync_token(record: SessionRecordView, cursor: Seq<char>) -> SessionRecordView {
    SessionRecordView { sync_token: Some(cursor), ..record }
}

/// What restoring gives for what was read: an error if the file is
/// missing, unreadable or not the contents of a record, or if the
/// record's user id is not accepted as one; else the record.
pub open spec fn restore_spec(file: SessionFileView) -> Result<SessionRecordView, SessionLoadError> {
    match file {
        SessionFileView::Missing => Err(SessionLoadError::Missing),
        SessionFileView::Unreadable => Err(SessionLoadError::Unreadable),
        SessionFileView::Contents(text) => match decode_spec(text) {
            Some(record) => accept_spec(record, user_id_accepted(record.credentials.user_id)),
            None => Err(SessionLoadError::Malformed),
        },
    }
}

/// What is to be written so that the record that was read has the given
/// cursor: the error of the restore if no record could be read.
pub open spec fn persist_spec(file: SessionFileView, cursor: Seq<char>) -> Result<
    Seq<char>,
    SessionLoadError,
> {
    match restore_spec(file) {
        Ok(record) => Ok(encode_spec(with_sync_token(record, cursor))),
        Err(error) => Err(error),
    }
}

/// How the session is got at startup: a missing file leads to a login, a
/// file that holds a record to a restore, and any other file ends the
/// startup.
pub open spec fn startup_spec(file: SessionFileView) -> StartupView {
    match file {
        SessionFileView::Missing => StartupView::Login,
        _ => match restore_spec(file) {
            Ok(record) => StartupView::Restore(record),
            Err(error) => StartupView::Abort(error),
        },
    }
}

/// Writes one field as a line.
fn write_line(out: &mut String, field: &str)
    ensures
        final(out)@ == old(out)@ + line(field@),
{
    let ghost start = out@;
    let mut chars = field.chars();
    let ghost mut done: int = 0;
    loop
        invariant
            0 <= done <= field@.len(),
            chars.remaining() == field@.skip(done),
            out@ == start + escape(field@.take(done)),
        ensures
            out@ == start + escape(field@),
        decreases field@.len() - done,
    {
        match chars.next() {
            None => {
                assert(field@.take(done) =~= field@);
                break ;
            },
            Some(c) => {
                proof {
                    assert(field@.take(done + 1) =~= field@.take(done).push(c));
                    lemma_escape_push(field@.take(done), c);
                }
                let ghost before = out@;
                if c == '\\' {
                    push_char(out, '\\');
                    push_char(out, '\\');
                    assert(out@ =~= before + seq!['\\', '\\']);
                } else if c == '\n' {
                    push_char(out, '\\');
                    push_char(out, 'n');
                    assert(out@ =~= before + seq!['\\', 'n']);
                } else {
                    push_char(out, c);
                    assert(out@ =~= before + seq![c]);
                }
                proof {
                    assert(out@ =~= start + escape(field@.take(done + 1)));
                    done = done + 1;
                }
            },
        }
    }
    push_char(out, '\n');
    assert(out@ =~= start + line(field@));
}

impl SessionRecord {
    /// The record of a fresh login.
    pub fn new(credentials: Credentials) -> (record: SessionRecord)
        ensures
            record@ == fresh_record(credentials@),
    {
        SessionRecord { credentials, sync_token: None }
    }

    /// This record with its cursor replaced; the credentials stay.
    pub fn with_sync_token(self, cursor: String) -> (record: SessionRecord)
        ensures
            record@ == with_sync_token(self@, cursor@),
    {
        SessionRecord { credentials: self.credentials, sync_token: Some(cursor) }
    }

    /// The contents of the session file for this record.
    pub fn encode(&self) -> (text: String)
        ensures
            text@ == encode_spec(self@),
    {
        let mut text = String::new();
        let ghost f0 = Seq::<Seq<char>>::empty();
        let ghost f1 = f0.push(self.credentials.homeserver@);
        let ghost f2 = f1.push(self.credentials.user_id@);
        let ghost f3 = f2.push(self.credentials.device_id@);
        let ghost f4 = f3.push(self.credentials.access_token@);
        proof {
            lemma_lines_push(f0, self.credentials.homeserver@);
            lemma_lines_push(f1, self.credentials.user_id@);
            lemma_lines_push(f2, self.credentials.device_id@);
            lemma_lines_push(f3, self.credentials.access_token@);
            assert(lines(f0) =~= Seq::<char>::empty());
        }
        write_line(&mut text, self.credentials.homeserver.as_str());
        assert(text@ =~= lines(f1));
        write_line(&mut text, self.credentials.user_id.as_str());
        write_line(&mut text, self.credentials.device_id.as_str());
        write_line(&mut text, self.credentials.access_token.as_str());
        assert(text@ == lines(f4));
        match &self.sync_token {
            Some(cursor) => {
                proof {
                    lemma_lines_push(f4, cursor@);
                    assert(fields_of(self@) =~= f4.push(cursor@));
                }
                write_line(&mut text, cursor.as_str());
            },
            None => {
                assert(fields_of(self@) =~= f4);
            },
        }
        text
    }

    /// The record that a text is the file contents of. It fails exactly
    /// on the texts that are the contents of no record.
    pub fn decode(text: &str) -> (result: Result<SessionRecord, SessionLoadError>)
        ensures
            match result {
                Ok(record) => decode_spec(text@) == Some(record@),
                Err(error) => error == SessionLoadError::Malformed && decode_spec(text@) is None,
            },
    {
        let mut chars = text.chars();
        let mut fields: Vec<String> = Vec::new();
        let mut current = String::new();
        let mut escaped = false;
        let ghost mut seen: int = 0;
        proof {
            assert(text@.take(0).len() == 0);
            assert(texts(fields@) =~= Seq::<Seq<char>>::empty());
        }
        loop
            invariant
                0 <= seen <= text@.len(),
                chars.remaining() == text@.skip(seen),
                scan(text@.take(seen)) == (Scan {
                    fields: texts(fields@),
                    current: current@,
                    escaped,
                    bad: false,
                }),
            ensures
                scan(text@) == (Scan {
                    fields: texts(fields@),
                    current: current@,
                    escaped,
                    bad: false,
                }),
            decreases text@.len() - seen,
        {
            match chars.next() {
                None => {
                    assert(text@.take(seen) =~= text@);
                    break ;
                },
                Some(c) => {
                    proof {
                        assert(text@.take(seen + 1) =~= text@.take(seen).push(c));
                        lemma_scan_push(text@.take(seen), c);
                    }
                    if escaped {
                        if c == '\\' {
                            push_char(&mut current, '\\');
                            escaped = false;
                        } else if c == 'n' {
                            push_char(&mut current, '\n');
                            escaped = false;
                        } else {
                            proof {
                                lemma_bad_stays_bad(text@.take(seen + 1), text@.skip(seen + 1));
                                assert(text@.take(seen + 1) + text@.skip(seen + 1) =~= text@);
                                lemma_incomplete_decodes_to_nothing(text@);
                            }
                            return Err(SessionLoadError::Malformed);
                        }
                    } else if c == '\\' {
                        escaped = true;
                    } else if c == '\n' {
                        let ended = current;
                        current = String::new();
                        assert(texts(fields@.push(ended)) =~= texts(fields@).push(ended@));
                        fields.push(ended);
                    } else {
                        push_char(&mut current, c);
                    }
                    proof {
                        seen = seen + 1;
                    }
                },
            }
        }
        let count: usize = fields.len();
        if escaped || !current.as_str().is_empty() || (count != 4 && count != 5) {
            proof {
                lemma_incomplete_decodes_to_nothing(text@);
            }
            return Err(SessionLoadError::Malformed);
        }
        let credentials = Credentials {
            homeserver: fields[0].clone(),
            user_id: fields[1].clone(),
            device_id: fields[2].clone(),
            access_token: fields[3].clone(),
        };
        let sync_token = if count == 5 {
            Some(fields[4].clone())
        } else {
            None
        };
        let record = SessionRecord { credentials, sync_token };
        proof {
            lemma_complete_decodes(text@);
            assert(record@ == record_of(texts(fields@)));
        }
        Ok(record)
    }
}

/// Lets a record that was read pass if its user id was accepted.
pub fn accept_record(record: SessionRecord, user_id_accepted: bool) -> (result: Result<
    SessionRecord,
    SessionLoadError,
>)
    ensures
        match result {
            Ok(accepted) => accept_spec(record@, user_id_accepted) == Ok::<
                SessionRecordView,
                SessionLoadError,
            >(accepted@),
            Err(error) => accept_spec(record@, user_id_accepted) == Err::<
                SessionRecordView,
                SessionLoadError,
            >(error),
        },
{
    if user_id_accepted {
        Ok(record)
    } else {
        Err(SessionLoadError::InvalidCredentials)
    }
}

/// Restores the session record from what was read of the session file.
pub fn restore_session(file: SessionFile) -> (result: Result<SessionRecord, SessionLoadError>)
    ensures
        match result {
            Ok(record) => restore_spec(file@) == Ok::<SessionRecordView, SessionLoadError>(record@),
            Err(error) => restore_spec(file@) == Err::<SessionRecordView, SessionLoadError>(error),
        },
{
    match file {
        SessionFile::Missing => Err(SessionLoadError::Missing),
        SessionFile::Unreadable => Err(SessionLoadError::Unreadable),
        SessionFile::Contents(text) => match SessionRecord::decode(text.as_str()) {
            Ok(record) => {
                let accepted = is_user_id(record.credentials.user_id.as_str());
                accept_record(record, accepted)
            },
            Err(error) => Err(error),
        },
    }
}

/// Replaces the cursor of the record that was read of the session file.
/// The result is what is to be written in place of the file; the writing
/// itself, and what follows if it fails, is the caller's. It fails where
/// no record could be read, with the error of the restore.
pub fn persist_sync_token(file: SessionFile, cursor: String) -> (result: Result<
    String,
    SessionLoadError,
>)
    ensures
        match result {
            Ok(text) => persist_spec(file@, cursor@) == Ok::<Seq<char>, SessionLoadError>(text@),
            Err(error) => persist_spec(file@, cursor@) == Err::<Seq<char>, SessionLoadError>(
                error,
            ),
        },
{
    match restore_session(file) {
        Ok(record) => Ok(record.with_sync_token(cursor).encode()),
        Err(error) => Err(error),
    }
}

/// Decides how the session is got at startup from what was read of the
/// session file.
pub fn plan_startup(file: SessionFile) -> (plan: Startup)
    ensures
        plan@ == startup_spec(file@),
{
    match file {
        SessionFile::Missing => Startup::Login,
        _ => match restore_session(file) {
            Ok(record) => Startup::Restore(record),
            Err(error) => Startup::Abort(error),
        },
    }
}

} // verus!
