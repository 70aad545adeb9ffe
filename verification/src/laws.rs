//! Laws of the operation suite, stated over the spec-level transitions and
//! proved once and for all: uniqueness of user creation, the fresh state of a
//! new video, dense comment indices, and the bounded, duplicate-free like
//! ledger.

use vstd::prelude::*;

use crate::ops::spec_create_comment;
use crate::ops::spec_create_user;
use crate::ops::spec_create_video;
use crate::ops::spec_like_video;
use crate::ops::Errors;
use crate::pda::pda_of;
use crate::pda::user_seeds;
use crate::pda::video_seeds;
use crate::records::distinct_ids;
use crate::records::has_id;
use crate::records::UserV;
use crate::space::NUMBER_OF_ALLOWED_LIKES;
use crate::space::TEXT_LENGTH;
use crate::space::USER_NAME_LENGTH;
use crate::space::USER_URL_LENGTH;
use crate::space::VIDEO_URL_LENGTH;
use crate::store::RecordV;
use crate::text::blank;
use crate::text::byte_len;

verus! {

/// A valid user creation is owed success on an unoccupied, derivable
/// address: it returns that address and writes exactly the new user record.
pub proof fn lemma_create_user_ok(
    m: Map<Seq<u8>, RecordV>,
    owner: Seq<u8>,
    name: Seq<char>,
    url: Seq<char>,
)
    requires
        !blank(name),
        !blank(url),
        byte_len(name) <= USER_NAME_LENGTH,
        byte_len(url) <= USER_URL_LENGTH,
    ensures
        ({
            let a = pda_of(user_seeds(owner))->Some_0;
            let (m1, r) = spec_create_user(m, owner, name, url);
            pda_of(user_seeds(owner)) is Some && !m.contains_key(a) ==> {
                &&& r == Ok::<Seq<u8>, Errors>(a)
                &&& m1 == m.insert(
                    a,
                    RecordV::User(
                        UserV {
                            user_name: name,
                            user_wallet_address: owner,
                            user_profile_image_url: url,
                        },
                    ),
                )
            }
        }),
{
}

/// A user creation succeeds at most once per owner: after a successful
/// creation, any further creation for the same owner fails with
/// `AlreadyExists` and leaves the store unchanged, whatever valid fields the
/// second call carries.
pub proof fn lemma_create_user_once(
    m: Map<Seq<u8>, RecordV>,
    owner: Seq<u8>,
    name: Seq<char>,
    url: Seq<char>,
    name2: Seq<char>,
    url2: Seq<char>,
)
    requires
        spec_create_user(m, owner, name, url).1 is Ok,
        !blank(name2),
        !blank(url2),
        byte_len(name2) <= USER_NAME_LENGTH,
        byte_len(url2) <= USER_URL_LENGTH,
    ensures
        ({
            let (m1, _) = spec_create_user(m, owner, name, url);
            let (m2, r2) = spec_create_user(m1, owner, name2, url2);
            m2 == m1 && r2 == Err::<Seq<u8>, Errors>(Errors::AlreadyExists)
        }),
{
}

/// A video creation with a description that is empty after trimming fails
/// with `InvalidInput` and leaves the store unchanged, whatever the URL.
pub proof fn lemma_create_video_blank_description(
    m: Map<Seq<u8>, RecordV>,
    owner: Seq<u8>,
    nonce: Seq<u8>,
    description: Seq<char>,
    video_url: Seq<char>,
    creator_name: Seq<char>,
    creator_url: Seq<char>,
    now: i64,
)
    requires
        blank(description),
    ensures
        spec_create_video(m, owner, nonce, description, video_url, creator_name, creator_url, now)
            == (m, Err::<Seq<u8>, Errors>(Errors::InvalidInput)),
{
}

/// A valid video creation on an unoccupied, derivable address succeeds and
/// writes a fresh video: comment counter zero, like counter zero, like
/// ledger empty.
pub proof fn lemma_create_video_fresh(
    m: Map<Seq<u8>, RecordV>,
    owner: Seq<u8>,
    nonce: Seq<u8>,
    description: Seq<char>,
    video_url: Seq<char>,
    creator_name: Seq<char>,
    creator_url: Seq<char>,
    now: i64,
)
    requires
        !blank(description),
        !blank(video_url),
        byte_len(description) <= TEXT_LENGTH,
        byte_len(video_url) <= VIDEO_URL_LENGTH,
        byte_len(creator_name) <= USER_NAME_LENGTH,
        byte_len(creator_url) <= USER_URL_LENGTH,
    ensures
        ({
            let a = pda_of(video_seeds(nonce))->Some_0;
            let (m1, r) = spec_create_video(
                m,
                owner,
                nonce,
                description,
                video_url,
                creator_name,
                creator_url,
                now,
            );
            pda_of(video_seeds(nonce)) is Some && !m.contains_key(a) ==> {
                &&& r == Ok::<Seq<u8>, Errors>(a)
                &&& m1.contains_key(a)
                &&& m1[a] is Video
                &&& (m1[a]->Video_0).comment_count == 0
                &&& (m1[a]->Video_0).likes == 0
                &&& (m1[a]->Video_0).people_who_liked == Seq::<Seq<u8>>::empty()
                &&& (m1[a]->Video_0).creator_time == now
            }
        }),
{
}

/// The argument block of one comment creation.
pub struct CommentArgs {
    pub owner: Seq<u8>,
    pub text: Seq<char>,
    pub commenter_name: Seq<char>,
    pub commenter_url: Seq<char>,
    pub now: i64,
}

/// Runs a sequence of comment creations against one video, collecting the
/// store after all of them and each call's result in order.
pub open spec fn run_create_comments(
    m: Map<Seq<u8>, RecordV>,
    va: Seq<u8>,
    args: Seq<CommentArgs>,
) -> (Map<Seq<u8>, RecordV>, Seq<Result<Seq<u8>, Errors>>)
    decreases args.len(),
{
    if args.len() == 0 {
        (m, Seq::empty())
    } else {
        let prev = run_create_comments(m, va, args.drop_last());
        let a = args.last();
        let step = spec_create_comment(
            prev.0,
            a.owner,
            va,
            a.text,
            a.commenter_name,
            a.commenter_url,
            a.now,
        );
        (step.0, prev.1.push(step.1))
    }
}

/// Sequential comment creations against one video whose counter starts at
/// `c` yield, when they all succeed, exactly the indices `c, c+1, ...` in
/// order, at pairwise distinct addresses, and leave the video's counter at
/// `c` plus the number of calls.
pub proof fn lemma_comment_indices(
    m: Map<Seq<u8>, RecordV>,
    va: Seq<u8>,
    args: Seq<CommentArgs>,
    c: u64,
)
    requires
        m.contains_key(va),
        m[va] is Video,
        (m[va]->Video_0).comment_count == c,
        c + args.len() <= u64::MAX,
    ensures
        ({
            let (mf, rs) = run_create_comments(m, va, args);
            &&& rs.len() == args.len()
            &&& ((forall|k: int| 0 <= k < rs.len() ==> (#[trigger] rs[k]) is Ok) ==> {
                &&& mf.contains_key(va)
                &&& mf[va] is Video
                &&& (mf[va]->Video_0).comment_count == c + args.len()
                &&& (forall|k: int|
                    0 <= k < rs.len() ==> {
                        &&& mf.contains_key((#[trigger] rs[k])->Ok_0)
                        &&& mf[rs[k]->Ok_0] is Comment
                        &&& (mf[rs[k]->Ok_0]->Comment_0).index == c + k
                        &&& rs[k]->Ok_0 != va
                    })
                &&& (forall|k: int, l: int|
                    0 <= k < l < rs.len() ==> (#[trigger] rs[k])->Ok_0 != (#[trigger] rs[l])->Ok_0)
            })
        }),
    decreases args.len(),
{
    let (mf, rs) = run_create_comments(m, va, args);
    if args.len() == 0 {
    } else {
        let n = args.len() as int;
        lemma_comment_indices(m, va, args.drop_last(), c);
        let (m1, rs1) = run_create_comments(m, va, args.drop_last());
        assert(rs == rs1.push(rs[n - 1]));
        if forall|k: int| 0 <= k < rs.len() ==> (#[trigger] rs[k]) is Ok {
            assert(forall|k: int| 0 <= k < rs1.len() ==> (#[trigger] rs1[k]) == rs[k]);
            assert(forall|k: int| 0 <= k < rs1.len() ==> (#[trigger] rs1[k]) is Ok);
            let a = args.last();
            let step = spec_create_comment(
                m1,
                a.owner,
                va,
                a.text,
                a.commenter_name,
                a.commenter_url,
                a.now,
            );
            assert(rs[n - 1] == step.1);
            assert(step.1 is Ok);
            let ca = step.1->Ok_0;
            assert(!m1.contains_key(ca));
            assert(mf == m1.insert(ca, mf[ca]).insert(va, mf[va])) by {
                assert(ca != va);
            }
            assert((mf[va]->Video_0).comment_count == c + n);
            assert forall|k: int| 0 <= k < rs.len() implies {
                &&& mf.contains_key((#[trigger] rs[k])->Ok_0)
                &&& mf[rs[k]->Ok_0] is Comment
                &&& (mf[rs[k]->Ok_0]->Comment_0).index == c + k
                &&& rs[k]->Ok_0 != va
            } by {
                if k < n - 1 {
                    assert(rs1[k] == rs[k]);
                    assert(m1.contains_key(rs[k]->Ok_0));
                    assert(rs[k]->Ok_0 != ca);
                } else {
                    assert(rs[k]->Ok_0 == ca);
                    assert(ca != va);
                }
            }
            assert forall|k: int, l: int|
                0 <= k < l < rs.len() implies (#[trigger] rs[k])->Ok_0 != (
            #[trigger] rs[l])->Ok_0 by {
                if l < n - 1 {
                    assert(rs1[k] == rs[k] && rs1[l] == rs[l]);
                } else {
                    assert(rs1[k] == rs[k]);
                    assert(m1.contains_key(rs[k]->Ok_0));
                    assert(rs[l]->Ok_0 == ca);
                }
            }
        }
    }
}

/// A video's comment counter is the sole source of the next comment's
/// index: a successful comment creation assigns the counter's old value as
/// the new comment's index and advances the counter by exactly one, and a
/// failed one leaves the store exactly as it was.
pub proof fn lemma_comment_counter_steps(
    m: Map<Seq<u8>, RecordV>,
    owner: Seq<u8>,
    va: Seq<u8>,
    text: Seq<char>,
    commenter_name: Seq<char>,
    commenter_url: Seq<char>,
    now: i64,
)
    requires
        m.contains_key(va),
        m[va] is Video,
        (m[va]->Video_0).comment_count < u64::MAX,
    ensures
        ({
            let (m1, r) = spec_create_comment(m, owner, va, text, commenter_name, commenter_url, now);
            let c = (m[va]->Video_0).comment_count;
            &&& (r is Ok ==> {
                &&& m1.contains_key(va)
                &&& m1[va] is Video
                &&& (m1[va]->Video_0).comment_count == c + 1
                &&& m1.contains_key(r->Ok_0)
                &&& m1[r->Ok_0] is Comment
                &&& (m1[r->Ok_0]->Comment_0).index == c
            })
            &&& (r is Err ==> m1 == m)
        }),
{
}

/// No operation but comment creation touches a video's comment counter:
/// user creation and video creation leave an existing video record
/// untouched, and a like changes its like ledger at most, never the
/// counter.
pub proof fn lemma_comment_counter_untouched_elsewhere(
    m: Map<Seq<u8>, RecordV>,
    va: Seq<u8>,
    owner: Seq<u8>,
    name: Seq<char>,
    url: Seq<char>,
    nonce: Seq<u8>,
    description: Seq<char>,
    video_url: Seq<char>,
    creator_name: Seq<char>,
    creator_url: Seq<char>,
    now: i64,
    id: Seq<u8>,
)
    requires
        m.contains_key(va),
        m[va] is Video,
    ensures
        ({
            let (m1, _) = spec_create_user(m, owner, name, url);
            m1.contains_key(va) && m1[va] == m[va]
        }),
        ({
            let (m1, _) = spec_create_video(
                m,
                owner,
                nonce,
                description,
                video_url,
                creator_name,
                creator_url,
                now,
            );
            m1.contains_key(va) && m1[va] == m[va]
        }),
        ({
            let (m1, _) = spec_like_video(m, id, va);
            m1.contains_key(va) && m1[va] is Video && (m1[va]->Video_0).comment_count == (
            m[va]->Video_0).comment_count
        }),
{
}

/// Runs a sequence of likes from the given identities against one video,
/// collecting the store after all of them and each call's result in order.
pub open spec fn run_likes(m: Map<Seq<u8>, RecordV>, va: Seq<u8>, ids: Seq<Seq<u8>>) -> (
    Map<Seq<u8>, RecordV>,
    Seq<Result<(), Errors>>,
)
    decreases ids.len(),
{
    if ids.len() == 0 {
        (m, Seq::empty())
    } else {
        let prev = run_likes(m, va, ids.drop_last());
        let step = spec_like_video(prev.0, ids.last(), va);
        (step.0, prev.1.push(step.1))
    }
}

/// Likes from pairwise distinct identities against a video whose like
/// ledger starts empty succeed in order up to the capacity and fail with
/// `CapacityExceeded` beyond it; afterwards the like counter equals the
/// number of distinct identities, capped at the capacity, and the ledger
/// holds exactly the first ones.
pub proof fn lemma_like_sequence(m: Map<Seq<u8>, RecordV>, va: Seq<u8>, ids: Seq<Seq<u8>>)
    requires
        m.contains_key(va),
        m[va] is Video,
        (m[va]->Video_0).people_who_liked == Seq::<Seq<u8>>::empty(),
        (m[va]->Video_0).likes == 0,
        distinct_ids(ids),
    ensures
        ({
            let cap = NUMBER_OF_ALLOWED_LIKES as int;
            let kept = if ids.len() <= cap {
                ids.len() as int
            } else {
                cap
            };
            let (mf, rs) = run_likes(m, va, ids);
            &&& rs.len() == ids.len()
            &&& (forall|k: int|
                0 <= k < rs.len() ==> (#[trigger] rs[k]) == if k < cap {
                    Ok::<(), Errors>(())
                } else {
                    Err::<(), Errors>(Errors::CapacityExceeded)
                })
            &&& mf.contains_key(va)
            &&& mf[va] is Video
            &&& (mf[va]->Video_0).likes as int == kept
            &&& (mf[va]->Video_0).people_who_liked == ids.take(kept)
            &&& (mf[va]->Video_0).comment_count == (m[va]->Video_0).comment_count
        }),
    decreases ids.len(),
{
    let cap = NUMBER_OF_ALLOWED_LIKES as int;
    let (mf, rs) = run_likes(m, va, ids);
    if ids.len() == 0 {
        assert(ids.take(0) =~= Seq::<Seq<u8>>::empty());
    } else {
        let n = ids.len() as int;
        assert(distinct_ids(ids.drop_last()));
        lemma_like_sequence(m, va, ids.drop_last());
        let (m1, rs1) = run_likes(m, va, ids.drop_last());
        let kept1 = if n - 1 <= cap {
            n - 1
        } else {
            cap
        };
        let v1 = m1[va]->Video_0;
        let id = ids.last();
        assert(ids.drop_last().take(kept1) =~= ids.take(kept1));
        if n - 1 < cap {
            assert(v1.likes as int == n - 1);
            assert(!has_id(v1.people_who_liked, id)) by {
                if has_id(v1.people_who_liked, id) {
                    let i = choose|i: int|
                        0 <= i < v1.people_who_liked.len() && v1.people_who_liked[i] == id;
                    assert(ids.take(kept1)[i] == ids[i]);
                    assert(ids[i] == ids[n - 1]);
                }
            }
            assert((mf[va]->Video_0).people_who_liked == ids.take(n)) by {
                assert(ids.take(n - 1).push(ids[n - 1]) =~= ids.take(n));
            }
        } else {
            assert(v1.likes as int == cap);
            assert(mf == m1);
        }
        assert(forall|k: int| 0 <= k < rs1.len() ==> (#[trigger] rs1[k]) == rs[k]);
    }
}

/// After a successful like, liking the same video again with the same
/// identity changes nothing; when the ledger is below capacity the repeat is
/// rejected as `DuplicateMembership` (a repeat against a full ledger is
/// rejected as capacity is checked first), so the like counter never counts
/// an identity twice.
pub proof fn lemma_like_twice(m: Map<Seq<u8>, RecordV>, id: Seq<u8>, va: Seq<u8>)
    requires
        spec_like_video(m, id, va).1 is Ok,
    ensures
        ({
            let (m1, _) = spec_like_video(m, id, va);
            let (m2, r2) = spec_like_video(m1, id, va);
            &&& m2 == m1
            &&& r2 is Err
            &&& ((m1[va]->Video_0).likes < NUMBER_OF_ALLOWED_LIKES ==> r2 == Err::<(), Errors>(
                Errors::DuplicateMembership,
            ))
        }),
{
    let (m1, _) = spec_like_video(m, id, va);
    let v = m[va]->Video_0;
    let v1 = m1[va]->Video_0;
    assert(v1.people_who_liked == v.people_who_liked.push(id));
    assert(v1.people_who_liked[v.people_who_liked.len() as int] == id);
    assert(has_id(v1.people_who_liked, id));
}

} // verus!
