//! The per-user notification inbox's table: its schema statements,
//! safe to run on every boot.
use vstd::prelude::*;

verus! {

/// Creates the notifications table unless it exists.
pub const CREATE_TABLE_SQL: &'static str = "CREATE TABLE IF NOT EXISTS rustio_notifications (
    id         BIGSERIAL    PRIMARY KEY,
    user_id    BIGINT       NOT NULL REFERENCES rustio_users(id) ON DELETE CASCADE,
    message    TEXT         NOT NULL,
    url        TEXT         NOT NULL DEFAULT '',
    read_at    TIMESTAMPTZ,
    created_at TIMESTAMPTZ  NOT NULL DEFAULT NOW()
)";

/// Creates the unread-lookup index unless it exists.
pub const CREATE_INDEX_SQL: &'static str =
    "CREATE INDEX IF NOT EXISTS rustio_notifications_user_unread_idx \
     ON rustio_notifications (user_id, read_at) WHERE read_at IS NULL";

} // verus!
