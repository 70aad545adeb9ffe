//! Size budgeting: the maximum serialized byte size of each record kind,
//! computed once from fixed-width field sizes plus declared upper bounds on
//! variable-length text fields. Storage for a record is reserved at this size
//! on creation and never resized.

use vstd::prelude::*;

verus! {

/// Declared maximum byte length of a user's display name, and of a video's or
/// a comment's creator/commenter name.
pub const USER_NAME_LENGTH: usize = 100;

/// Declared maximum byte length of a profile image, creator, or commenter URL.
pub const USER_URL_LENGTH: usize = 225;

/// Declared maximum byte length of a video URL.
pub const VIDEO_URL_LENGTH: usize = 225;

/// Declared maximum byte length of a video description or a comment text.
pub const TEXT_LENGTH: usize = 1024;

/// Hard capacity of a video's like ledger.
pub const NUMBER_OF_ALLOWED_LIKES: u8 = 5;

/// Storage reserved for the like ledger, in identities.
pub const NUMBER_OF_ALLOWED_LIKES_SPACE: usize = 5;

/// Byte width of an identity or an address.
pub const KEY_SIZE: usize = 32;

/// Byte width of a counter, an index, or a timestamp field.
pub const WORD_SIZE: usize = 8;

/// Fixed per-record discriminator/overhead bytes.
pub const RECORD_OVERHEAD: usize = 8;

/// The kinds of persisted records.
#[derive(PartialEq, Eq, Structural, Clone, Copy, Debug)]
pub enum RecordKind {
    User,
    Video,
    Comment,
}

/// The maximum serialized byte size of a record of the given kind.
pub open spec fn spec_budget(kind: RecordKind) -> nat {
    match kind {
        // owner key + display name + profile image URL + overhead
        RecordKind::User => (KEY_SIZE + USER_NAME_LENGTH + USER_URL_LENGTH + RECORD_OVERHEAD) as nat,
        // owner key + description + video URL + creator name + creator URL
        // + comment counter + creation time + reserved moderation word
        // + like ledger + like counter + overhead
        RecordKind::Video => (KEY_SIZE + TEXT_LENGTH + VIDEO_URL_LENGTH + USER_NAME_LENGTH
            + USER_URL_LENGTH + WORD_SIZE + WORD_SIZE + WORD_SIZE + KEY_SIZE
            * NUMBER_OF_ALLOWED_LIKES_SPACE + 1 + RECORD_OVERHEAD) as nat,
        // owner key + text + commenter name + commenter URL + index
        // + creation time + overhead
        RecordKind::Comment => (KEY_SIZE + TEXT_LENGTH + USER_NAME_LENGTH + USER_URL_LENGTH
            + WORD_SIZE + WORD_SIZE + RECORD_OVERHEAD) as nat,
    }
}

/// Computes the storage budget of a record kind.
pub fn budget(kind: RecordKind) -> (r: usize)
    ensures
        r == spec_budget(kind),
{
    match kind {
        RecordKind::User => KEY_SIZE + USER_NAME_LENGTH + USER_URL_LENGTH + RECORD_OVERHEAD,
        RecordKind::Video => KEY_SIZE + TEXT_LENGTH + VIDEO_URL_LENGTH + USER_NAME_LENGTH
            + USER_URL_LENGTH + WORD_SIZE + WORD_SIZE + WORD_SIZE + KEY_SIZE
            * NUMBER_OF_ALLOWED_LIKES_SPACE + 1 + RECORD_OVERHEAD,
        RecordKind::Comment => KEY_SIZE + TEXT_LENGTH + USER_NAME_LENGTH + USER_URL_LENGTH
            + WORD_SIZE + WORD_SIZE + RECORD_OVERHEAD,
    }
}

} // verus!
