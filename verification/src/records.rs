//! The record model: the persisted record kinds, their mathematical views,
//! and their field-level invariants.

use vstd::prelude::*;

use crate::keys::Identity;
use crate::space::NUMBER_OF_ALLOWED_LIKES;
use crate::space::TEXT_LENGTH;
use crate::space::USER_NAME_LENGTH;
use crate::space::USER_URL_LENGTH;
use crate::space::VIDEO_URL_LENGTH;
use crate::text::blank;
use crate::text::byte_len;

verus! {

/// A user record: one per owner, holding the owner's display fields.
pub struct UserAccount {
    pub user_name: String,
    pub user_wallet_address: Identity,
    pub user_profile_image_url: String,
}

/// The mathematical view of a user record.
#[verifier::ext_equal]
pub struct UserV {
    pub user_name: Seq<char>,
    pub user_wallet_address: Seq<u8>,
    pub user_profile_image_url: Seq<char>,
}

impl View for UserAccount {
    type V = UserV;

    open spec fn view(&self) -> UserV {
        UserV {
            user_name: self.user_name@,
            user_wallet_address: self.user_wallet_address@,
            user_profile_image_url: self.user_profile_image_url@,
        }
    }
}

impl UserV {
    /// Field-level invariants of a stored user record: required display
    /// fields are non-blank and within their declared byte budgets.
    pub open spec fn wf(self) -> bool {
        &&& self.user_wallet_address.len() == crate::keys::KEY_LEN
        &&& !blank(self.user_name)
        &&& !blank(self.user_profile_image_url)
        &&& byte_len(self.user_name) <= USER_NAME_LENGTH
        &&& byte_len(self.user_profile_image_url) <= USER_URL_LENGTH
    }
}

/// Pairwise distinctness of the identities in a like ledger.
pub open spec fn distinct_ids(s: Seq<Seq<u8>>) -> bool {
    forall|i: int, j: int| 0 <= i < j < s.len() ==> s[i] != s[j]
}

/// The views of a sequence of identities.
pub open spec fn ids_view(s: Seq<Identity>) -> Seq<Seq<u8>> {
    Seq::new(s.len(), |i: int| s[i]@)
}

/// Whether an identity is a member of a like ledger.
pub open spec fn has_id(s: Seq<Seq<u8>>, id: Seq<u8>) -> bool {
    exists|i: int| 0 <= i < s.len() && s[i] == id
}

/// A video record: owner, display fields, a monotonic comment counter, and a
/// bounded like ledger.
pub struct VideoAccount {
    pub authority: Identity,
    pub description: String,
    pub video_url: String,
    pub creator_name: String,
    pub creator_url: String,
    pub comment_count: u64,
    pub creator_time: i64,
    pub people_who_liked: Vec<Identity>,
    pub likes: u8,
    /// Reserved moderation field; no operation in this core touches it.
    pub remove: i64,
}

/// The mathematical view of a video record.
#[verifier::ext_equal]
pub struct VideoV {
    pub authority: Seq<u8>,
    pub description: Seq<char>,
    pub video_url: Seq<char>,
    pub creator_name: Seq<char>,
    pub creator_url: Seq<char>,
    pub comment_count: u64,
    pub creator_time: i64,
    pub people_who_liked: Seq<Seq<u8>>,
    pub likes: u8,
    pub remove: i64,
}

impl View for VideoAccount {
    type V = VideoV;

    open spec fn view(&self) -> VideoV {
        VideoV {
            authority: self.authority@,
            description: self.description@,
            video_url: self.video_url@,
            creator_name: self.creator_name@,
            creator_url: self.creator_url@,
            comment_count: self.comment_count,
            creator_time: self.creator_time,
            people_who_liked: ids_view(self.people_who_liked@),
            likes: self.likes,
            remove: self.remove,
        }
    }
}

impl VideoV {
    /// Field-level invariants of a stored video record: required display
    /// fields are non-blank, every text field is within its declared byte
    /// budget, each stored liker is well-formed and distinct, and the like
    /// counter always equals the size of the like ledger, which never
    /// exceeds its capacity.
    pub open spec fn wf(self) -> bool {
        &&& self.authority.len() == crate::keys::KEY_LEN
        &&& !blank(self.description)
        &&& !blank(self.video_url)
        &&& byte_len(self.description) <= TEXT_LENGTH
        &&& byte_len(self.video_url) <= VIDEO_URL_LENGTH
        &&& byte_len(self.creator_name) <= USER_NAME_LENGTH
        &&& byte_len(self.creator_url) <= USER_URL_LENGTH
        &&& forall|i: int|
            0 <= i < self.people_who_liked.len() ==> (#[trigger] self.people_who_liked[i]).len()
                == crate::keys::KEY_LEN
        &&& distinct_ids(self.people_who_liked)
        &&& self.likes == self.people_who_liked.len()
        &&& self.likes <= NUMBER_OF_ALLOWED_LIKES
    }
}

/// A comment record: owner, text fields, and its dense per-video index.
pub struct CommentAccount {
    pub authority: Identity,
    pub text: String,
    pub commenter_name: String,
    pub commenter_url: String,
    pub index: u64,
    pub video_time: i64,
}

/// The mathematical view of a comment record.
#[verifier::ext_equal]
pub struct CommentV {
    pub authority: Seq<u8>,
    pub text: Seq<char>,
    pub commenter_name: Seq<char>,
    pub commenter_url: Seq<char>,
    pub index: u64,
    pub video_time: i64,
}

impl View for CommentAccount {
    type V = CommentV;

    open spec fn view(&self) -> CommentV {
        CommentV {
            authority: self.authority@,
            text: self.text@,
            commenter_name: self.commenter_name@,
            commenter_url: self.commenter_url@,
            index: self.index,
            video_time: self.video_time,
        }
    }
}

impl CommentV {
    /// Field-level invariants of a stored comment record: every text field is
    /// within its declared byte budget. No blankness rule applies to comment
    /// fields.
    pub open spec fn wf(self) -> bool {
        &&& self.authority.len() == crate::keys::KEY_LEN
        &&& byte_len(self.text) <= TEXT_LENGTH
        &&& byte_len(self.commenter_name) <= USER_NAME_LENGTH
        &&& byte_len(self.commenter_url) <= USER_URL_LENGTH
    }
}

} // verus!
