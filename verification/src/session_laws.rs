//! What holds of restoring a session and persisting its cursor.

use crate::session::{
    accept_spec, fresh_record, persist_spec, restore_spec, user_id_accepted, with_sync_token,
    SessionFileView, SessionLoadError,
};
use crate::session_format::{
    encode_spec, law_decode_inverts_encode, CredentialsView, SessionRecordView,
};
use vstd::prelude::*;

verus! {

/// Restoring is repeatable: what a restore gives is decided by what the
/// session file holds and by nothing else, so two restores from the same
/// file agree, on whether they succeed and on the record, and with it on
/// the account that is logged in.
pub proof fn law_restore_is_repeatable(
    file: SessionFileView,
    first: Result<SessionRecordView, SessionLoadError>,
    second: Result<SessionRecordView, SessionLoadError>,
)
    requires
        first == restore_spec(file),
        second == restore_spec(file),
    ensures
        first == second,
        first is Ok ==> second is Ok && first->Ok_0.credentials == second->Ok_0.credentials,
{
}

/// A cursor that was persisted is the cursor that the next restore gives:
/// if a cursor can be persisted for a session file, restoring from what
/// was written succeeds and gives the record that was there before with
/// exactly that cursor, and with its credentials unchanged.
pub proof fn law_persisted_cursor_is_restored(file: SessionFileView, cursor: Seq<char>)
    requires
        persist_spec(file, cursor) is Ok,
    ensures
        restore_spec(file) is Ok,
        restore_spec(SessionFileView::Contents(persist_spec(file, cursor)->Ok_0)) == Ok::<
            SessionRecordView,
            SessionLoadError,
        >(with_sync_token(restore_spec(file)->Ok_0, cursor)),
        restore_spec(
            SessionFileView::Contents(persist_spec(file, cursor)->Ok_0),
        )->Ok_0.sync_token == Some(cursor),
        restore_spec(
            SessionFileView::Contents(persist_spec(file, cursor)->Ok_0),
        )->Ok_0.credentials == restore_spec(file)->Ok_0.credentials,
{
    let record = restore_spec(file)->Ok_0;
    law_decode_inverts_encode(with_sync_token(record, cursor));
}

/// A cursor can be persisted exactly when the session can be restored,
/// and the error says why it could not.
pub proof fn law_persist_needs_a_record(file: SessionFileView, cursor: Seq<char>)
    ensures
        persist_spec(file, cursor) is Ok <==> restore_spec(file) is Ok,
        restore_spec(file) matches Err(error) ==> persist_spec(file, cursor) == Err::<
            Seq<char>,
            SessionLoadError,
        >(error),
{
}

/// Of two cursors persisted one after the other, the later one is
/// restored.
pub proof fn law_latest_cursor_wins(file: SessionFileView, earlier: Seq<char>, later: Seq<char>)
    requires
        restore_spec(file) is Ok,
    ensures
        ({
            let once = SessionFileView::Contents(persist_spec(file, earlier)->Ok_0);
            let twice = SessionFileView::Contents(persist_spec(once, later)->Ok_0);
            restore_spec(twice) == Ok::<SessionRecordView, SessionLoadError>(
                with_sync_token(restore_spec(file)->Ok_0, later),
            )
        }),
{
    law_persisted_cursor_is_restored(file, earlier);
    let once = SessionFileView::Contents(persist_spec(file, earlier)->Ok_0);
    law_persisted_cursor_is_restored(once, later);
}

/// The record written after a login is restored as it was written, with
/// the credentials of the login and no cursor, provided that its user id
/// is accepted as one.
pub proof fn law_login_record_is_restored(credentials: CredentialsView)
    ensures
        restore_spec(SessionFileView::Contents(encode_spec(fresh_record(credentials))))
            == accept_spec(fresh_record(credentials), user_id_accepted(credentials.user_id)),
{
    law_decode_inverts_encode(fresh_record(credentials));
}

} // verus!
