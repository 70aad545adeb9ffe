//! The four state transitions: create user, create video, create comment,
//! and like video. Each is atomic: every failure is detected before any
//! write, so either the full effect set applies or none of it. Each
//! transition's exact effect is fixed by a spec-level function over the
//! store's map view, and every executable operation is proved to realize it.

use vstd::prelude::*;

use crate::keys::Address;
use crate::keys::Identity;
use crate::pda::comment_seeds;
use crate::pda::derive_comment_address;
use crate::pda::derive_user_address;
use crate::pda::derive_video_address;
use crate::pda::pda_of;
use crate::pda::user_seeds;
use crate::pda::video_seeds;
use crate::records::has_id;
use crate::records::ids_view;
use crate::records::CommentAccount;
use crate::records::CommentV;
use crate::records::UserAccount;
use crate::records::UserV;
use crate::records::VideoAccount;
use crate::records::VideoV;
use crate::space::NUMBER_OF_ALLOWED_LIKES;
use crate::space::TEXT_LENGTH;
use crate::space::USER_NAME_LENGTH;
use crate::space::USER_URL_LENGTH;
use crate::space::VIDEO_URL_LENGTH;
use crate::store::Ledger;
use crate::store::Record;
use crate::store::RecordV;
use crate::text::blank;
use crate::text::byte_len;
use crate::text::is_blank;
use crate::text::text_len;

verus! {

/// The closed set of failure kinds an operation may signal.
#[derive(PartialEq, Eq, Structural, Clone, Copy, Debug)]
pub enum Errors {
    /// A required text field is empty after trimming whitespace.
    InvalidInput,
    /// A create targeted an address that already holds a record.
    AlreadyExists,
    /// An operation referenced a parent video that does not exist.
    NotFound,
    /// A like would push the like ledger beyond its capacity.
    CapacityExceeded,
    /// The caller's identity is already present in the like ledger.
    DuplicateMembership,
    /// A text field's byte length exceeds its declared budget.
    OversizeField,
    /// The environment's address derivation found no viable address for the
    /// operation's seeds; statistically improbable, but surfaced rather than
    /// hidden.
    AddressUnavailable,
}

/// The call context of `create_user`: the authenticated caller and the
/// environment clock.
pub struct CreateUser {
    pub authority: Identity,
    pub clock: i64,
}

impl CreateUser {
    pub open spec fn wf(&self) -> bool {
        self.authority.wf()
    }
}

/// The call context of `create_video`: the caller, a disposable nonce
/// identity that seeds the video's address, and the environment clock.
pub struct CreateVideo {
    pub randomkey: Identity,
    pub authority: Identity,
    pub clock: i64,
}

impl CreateVideo {
    pub open spec fn wf(&self) -> bool {
        self.randomkey.wf() && self.authority.wf()
    }
}

/// The call context of `create_comment`: the parent video's address, the
/// caller, and the environment clock.
pub struct CreateComment {
    pub video: Address,
    pub authority: Identity,
    pub clock: i64,
}

impl CreateComment {
    pub open spec fn wf(&self) -> bool {
        self.video.wf() && self.authority.wf()
    }
}

/// The call context of `like_video`: the liked video's address, the caller,
/// and the environment clock.
pub struct LikeVideo {
    pub video: Address,
    pub authority: Identity,
    pub clock: i64,
}

impl LikeVideo {
    pub open spec fn wf(&self) -> bool {
        self.video.wf() && self.authority.wf()
    }
}

/// The view of an operation result that returns an address.
pub open spec fn res_view(r: Result<Address, Errors>) -> Result<Seq<u8>, Errors> {
    match r {
        Ok(a) => Ok(a@),
        Err(e) => Err(e),
    }
}

/// The exact effect of `create_user` on the store's map view: the new map
/// and the result.
pub open spec fn spec_create_user(
    m: Map<Seq<u8>, RecordV>,
    owner: Seq<u8>,
    name: Seq<char>,
    profile_url: Seq<char>,
) -> (Map<Seq<u8>, RecordV>, Result<Seq<u8>, Errors>) {
    if blank(name) || blank(profile_url) {
        (m, Err(Errors::InvalidInput))
    } else if byte_len(name) > USER_NAME_LENGTH || byte_len(profile_url) > USER_URL_LENGTH {
        (m, Err(Errors::OversizeField))
    } else {
        match pda_of(user_seeds(owner)) {
            None => (m, Err(Errors::AddressUnavailable)),
            Some(a) => if m.contains_key(a) {
                (m, Err(Errors::AlreadyExists))
            } else {
                (
                    m.insert(
                        a,
                        RecordV::User(
                            UserV {
                                user_name: name,
                                user_wallet_address: owner,
                                user_profile_image_url: profile_url,
                            },
                        ),
                    ),
                    Ok(a),
                )
            },
        }
    }
}

/// Creates the one user record of `ctx.authority`, at the address derived
/// from the user tag and the owner's identity.
pub fn create_user(
    ledger: &mut Ledger,
    ctx: CreateUser,
    name: String,
    profile_url: String,
) -> (r: Result<Address, Errors>)
    requires
        old(ledger).wf(),
        ctx.wf(),
    ensures
        final(ledger).wf(),
        ({
            let (m2, rr) = spec_create_user(old(ledger)@, ctx.authority@, name@, profile_url@);
            final(ledger)@ == m2 && res_view(r) == rr
        }),
        (r matches Ok(a) ==> a.wf()),
{
    if is_blank(name.as_str()) || is_blank(profile_url.as_str()) {
        return Err(Errors::InvalidInput);
    }
    if text_len(&name) > USER_NAME_LENGTH || text_len(&profile_url) > USER_URL_LENGTH {
        return Err(Errors::OversizeField);
    }
    let addr = match derive_user_address(&ctx.authority) {
        Some(a) => a,
        None => {
            return Err(Errors::AddressUnavailable);
        },
    };
    if ledger.contains_addr(&addr) {
        return Err(Errors::AlreadyExists);
    }
    let ret = addr.dup();
    let CreateUser { authority, clock: _ } = ctx;
    let rec = Record::User(
        UserAccount { user_name: name, user_wallet_address: authority, user_profile_image_url: profile_url },
    );
    ledger.insert_new(addr, rec);
    Ok(ret)
}

/// The exact effect of `create_video` on the store's map view.
pub open spec fn spec_create_video(
    m: Map<Seq<u8>, RecordV>,
    owner: Seq<u8>,
    nonce: Seq<u8>,
    description: Seq<char>,
    video_url: Seq<char>,
    creator_name: Seq<char>,
    creator_url: Seq<char>,
    now: i64,
) -> (Map<Seq<u8>, RecordV>, Result<Seq<u8>, Errors>) {
    if blank(description) || blank(video_url) {
        (m, Err(Errors::InvalidInput))
    } else if byte_len(description) > TEXT_LENGTH || byte_len(video_url) > VIDEO_URL_LENGTH
        || byte_len(creator_name) > USER_NAME_LENGTH || byte_len(creator_url) > USER_URL_LENGTH {
        (m, Err(Errors::OversizeField))
    } else {
        match pda_of(video_seeds(nonce)) {
            None => (m, Err(Errors::AddressUnavailable)),
            Some(a) => if m.contains_key(a) {
                (m, Err(Errors::AlreadyExists))
            } else {
                (
                    m.insert(
                        a,
                        RecordV::Video(
                            VideoV {
                                authority: owner,
                                description: description,
                                video_url: video_url,
                                creator_name: creator_name,
                                creator_url: creator_url,
                                comment_count: 0,
                                creator_time: now,
                                people_who_liked: Seq::empty(),
                                likes: 0,
                                remove: 0,
                            },
                        ),
                    ),
                    Ok(a),
                )
            },
        }
    }
}

/// Creates a video record owned by `ctx.authority`, at the address derived
/// from the video tag and the disposable nonce identity, with its comment
/// counter at zero and its like ledger empty.
pub fn create_video(
    ledger: &mut Ledger,
    ctx: CreateVideo,
    description: String,
    video_url: String,
    creator_name: String,
    creator_url: String,
) -> (r: Result<Address, Errors>)
    requires
        old(ledger).wf(),
        ctx.wf(),
    ensures
        final(ledger).wf(),
        ({
            let (m2, rr) = spec_create_video(
                old(ledger)@,
                ctx.authority@,
                ctx.randomkey@,
                description@,
                video_url@,
                creator_name@,
                creator_url@,
                ctx.clock,
            );
            final(ledger)@ == m2 && res_view(r) == rr
        }),
        (r matches Ok(a) ==> a.wf()),
{
    if is_blank(description.as_str()) || is_blank(video_url.as_str()) {
        return Err(Errors::InvalidInput);
    }
    if text_len(&description) > TEXT_LENGTH || text_len(&video_url) > VIDEO_URL_LENGTH || text_len(
        &creator_name,
    ) > USER_NAME_LENGTH || text_len(&creator_url) > USER_URL_LENGTH {
        return Err(Errors::OversizeField);
    }
    let addr = match derive_video_address(&ctx.randomkey) {
        Some(a) => a,
        None => {
            return Err(Errors::AddressUnavailable);
        },
    };
    if ledger.contains_addr(&addr) {
        return Err(Errors::AlreadyExists);
    }
    let ret = addr.dup();
    let CreateVideo { randomkey: _, authority, clock } = ctx;
    let video = VideoAccount {
        authority,
        description,
        video_url,
        creator_name,
        creator_url,
        comment_count: 0,
        creator_time: clock,
        people_who_liked: Vec::new(),
        likes: 0,
        remove: 0,
    };
    proof {
        assert(ids_view(video.people_who_liked@) =~= Seq::<Seq<u8>>::empty());
    }
    let rec = Record::Video(video);
    ledger.insert_new(addr, rec);
    Ok(ret)
}

/// The exact effect of `create_comment` on the store's map view: on success
/// the new comment record and the parent's incremented comment counter are
/// observed together.
pub open spec fn spec_create_comment(
    m: Map<Seq<u8>, RecordV>,
    owner: Seq<u8>,
    video_addr: Seq<u8>,
    text: Seq<char>,
    commenter_name: Seq<char>,
    commenter_url: Seq<char>,
    now: i64,
) -> (Map<Seq<u8>, RecordV>, Result<Seq<u8>, Errors>) {
    if !(m.contains_key(video_addr) && m[video_addr] is Video) {
        (m, Err(Errors::NotFound))
    } else if byte_len(text) > TEXT_LENGTH || byte_len(commenter_name) > USER_NAME_LENGTH
        || byte_len(commenter_url) > USER_URL_LENGTH {
        (m, Err(Errors::OversizeField))
    } else {
        let v = m[video_addr]->Video_0;
        match pda_of(comment_seeds(video_addr, v.comment_count)) {
            None => (m, Err(Errors::AddressUnavailable)),
            Some(ca) => if m.contains_key(ca) {
                (m, Err(Errors::AlreadyExists))
            } else {
                let cm = CommentV {
                    authority: owner,
                    text: text,
                    commenter_name: commenter_name,
                    commenter_url: commenter_url,
                    index: v.comment_count,
                    video_time: now,
                };
                let v2 = VideoV { comment_count: (v.comment_count + 1) as u64, ..v };
                (
                    m.insert(ca, RecordV::Comment(cm)).insert(video_addr, RecordV::Video(v2)),
                    Ok(ca),
                )
            },
        }
    }
}

/// Creates a comment under the video at `ctx.video`, at the address derived
/// from the comment tag, the video's address, and the video's comment
/// counter; assigns that counter value as the comment's index and increments
/// the counter as part of the same atomic effect.
pub fn create_comment(
    ledger: &mut Ledger,
    ctx: CreateComment,
    text: String,
    commenter_name: String,
    commenter_url: String,
) -> (r: Result<Address, Errors>)
    requires
        old(ledger).wf(),
        ctx.wf(),
        (old(ledger)@.contains_key(ctx.video@) && old(ledger)@[ctx.video@] is Video)
            ==> (old(ledger)@[ctx.video@]->Video_0).comment_count < u64::MAX,
    ensures
        final(ledger).wf(),
        ({
            let (m2, rr) = spec_create_comment(
                old(ledger)@,
                ctx.authority@,
                ctx.video@,
                text@,
                commenter_name@,
                commenter_url@,
                ctx.clock,
            );
            final(ledger)@ == m2 && res_view(r) == rr
        }),
        (r matches Ok(a) ==> a.wf()),
{
    let CreateComment { video, authority, clock } = ctx;
    let vid = match ledger.get_video(&video) {
        Some(v) => clone_video(v),
        None => {
            return Err(Errors::NotFound);
        },
    };
    if text_len(&text) > TEXT_LENGTH || text_len(&commenter_name) > USER_NAME_LENGTH || text_len(
        &commenter_url,
    ) > USER_URL_LENGTH {
        return Err(Errors::OversizeField);
    }
    let caddr = match derive_comment_address(&video, vid.comment_count) {
        Some(a) => a,
        None => {
            return Err(Errors::AddressUnavailable);
        },
    };
    if ledger.contains_addr(&caddr) {
        return Err(Errors::AlreadyExists);
    }
    let ret = caddr.dup();
    let comment = Record::Comment(
        CommentAccount {
            authority,
            text,
            commenter_name,
            commenter_url,
            index: vid.comment_count,
            video_time: clock,
        },
    );
    ledger.insert_new(caddr, comment);
    let mut vid2 = vid;
    vid2.comment_count = vid2.comment_count + 1;
    ledger.replace_at(&video, Record::Video(vid2));
    Ok(ret)
}

/// The exact effect of `like_video` on the store's map view.
pub open spec fn spec_like_video(
    m: Map<Seq<u8>, RecordV>,
    id: Seq<u8>,
    video_addr: Seq<u8>,
) -> (Map<Seq<u8>, RecordV>, Result<(), Errors>) {
    if !(m.contains_key(video_addr) && m[video_addr] is Video) {
        (m, Err(Errors::NotFound))
    } else {
        let v = m[video_addr]->Video_0;
        if v.likes == NUMBER_OF_ALLOWED_LIKES {
            (m, Err(Errors::CapacityExceeded))
        } else if has_id(v.people_who_liked, id) {
            (m, Err(Errors::DuplicateMembership))
        } else {
            let v2 = VideoV {
                people_who_liked: v.people_who_liked.push(id),
                likes: (v.likes + 1) as u8,
                ..v
            };
            (m.insert(video_addr, RecordV::Video(v2)), Ok(()))
        }
    }
}

/// Appends the caller's identity to the like ledger of the video at
/// `ctx.video` and increments its like counter, keeping the counter equal to
/// the ledger's size; rejects a sixth like and a duplicate identity.
pub fn like_video(ledger: &mut Ledger, ctx: LikeVideo) -> (r: Result<(), Errors>)
    requires
        old(ledger).wf(),
        ctx.wf(),
    ensures
        final(ledger).wf(),
        ({
            let (m2, rr) = spec_like_video(old(ledger)@, ctx.authority@, ctx.video@);
            final(ledger)@ == m2 && r == rr
        }),
{
    let LikeVideo { video, authority, clock: _ } = ctx;
    let vid = match ledger.get_video(&video) {
        Some(v) => clone_video(v),
        None => {
            return Err(Errors::NotFound);
        },
    };
    if vid.likes == NUMBER_OF_ALLOWED_LIKES {
        return Err(Errors::CapacityExceeded);
    }
    if contains_id(&vid.people_who_liked, &authority) {
        return Err(Errors::DuplicateMembership);
    }
    let ghost old_likers = ids_view(vid.people_who_liked@);
    let mut vid2 = vid;
    vid2.people_who_liked.push(authority);
    vid2.likes = vid2.likes + 1;
    proof {
        assert(ids_view(vid2.people_who_liked@) =~= old_likers.push(ctx.authority@));
        assert forall|i: int, j: int|
            0 <= i < j < ids_view(vid2.people_who_liked@).len() implies ids_view(
            vid2.people_who_liked@,
        )[i] != ids_view(vid2.people_who_liked@)[j] by {
            if j == ids_view(vid2.people_who_liked@).len() - 1 {
                assert(!has_id(old_likers, ctx.authority@));
                assert(old_likers[i] != ctx.authority@);
            }
        }
    }
    ledger.replace_at(&video, Record::Video(vid2));
    Ok(())
}

/// Membership test of an identity in a like ledger.
fn contains_id(v: &Vec<Identity>, id: &Identity) -> (r: bool)
    ensures
        r == has_id(ids_view(v@), id@),
{
    let n = v.len();
    let mut i: usize = 0;
    while i < n
        invariant
            n == v@.len(),
            0 <= i <= n,
            forall|k: int| 0 <= k < i ==> (#[trigger] v@[k])@ != id@,
        decreases n - i,
    {
        if v[i].same_as(id) {
            assert(ids_view(v@)[i as int] == id@);
            return true;
        }
        i += 1;
    }
    assert(forall|k: int| 0 <= k < v@.len() ==> ids_view(v@)[k] != id@);
    false
}

/// Duplicates a vector of identities.
fn dup_ids(v: &Vec<Identity>) -> (r: Vec<Identity>)
    ensures
        r@.len() == v@.len(),
        forall|k: int| 0 <= k < v@.len() ==> (#[trigger] r@[k])@ == v@[k]@,
{
    let n = v.len();
    let mut r: Vec<Identity> = Vec::new();
    let mut i: usize = 0;
    while i < n
        invariant
            n == v@.len(),
            0 <= i <= n,
            r@.len() == i,
            forall|k: int| 0 <= k < i ==> (#[trigger] r@[k])@ == v@[k]@,
        decreases n - i,
    {
        r.push(v[i].dup());
        i += 1;
    }
    r
}

/// Duplicates a video record, field by field.
fn clone_video(v: &VideoAccount) -> (r: VideoAccount)
    ensures
        r@ == v@,
{
    let r = VideoAccount {
        authority: v.authority.dup(),
        description: v.description.clone(),
        video_url: v.video_url.clone(),
        creator_name: v.creator_name.clone(),
        creator_url: v.creator_url.clone(),
        comment_count: v.comment_count,
        creator_time: v.creator_time,
        people_who_liked: dup_ids(&v.people_who_liked),
        likes: v.likes,
        remove: v.remove,
    };
    proof {
        assert(ids_view(r.people_who_liked@) =~= ids_view(v.people_who_liked@));
        assert(r@ =~= v@);
    }
    r
}

} // verus!
