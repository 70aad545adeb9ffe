use tiktok_solana::keys::Identity;
use tiktok_solana::ops::create_user;
use tiktok_solana::ops::create_video;
use tiktok_solana::ops::CreateUser;
use tiktok_solana::ops::CreateVideo;
use tiktok_solana::pda::derive_comment_address;
use tiktok_solana::pda::derive_user_address;
use tiktok_solana::pda::derive_video_address;
use tiktok_solana::pda::u64_be_bytes;
use tiktok_solana::space::budget;
use tiktok_solana::space::RecordKind;
use tiktok_solana::store::Ledger;
use tiktok_solana::text::is_blank;
use tiktok_solana::text::text_len;

fn id(b: u8) -> Identity {
    let mut v = vec![0u8; 32];
    v[0] = b;
    Identity::from_bytes(v).unwrap()
}

#[test]
fn derivation_is_deterministic() {
    let a1 = derive_user_address(&id(5)).unwrap();
    let a2 = derive_user_address(&id(5)).unwrap();
    assert_eq!(a1.to_bytes(), a2.to_bytes());
    assert_eq!(a1.to_bytes().len(), 32);
}

#[test]
fn derivation_separates_owners() {
    let a1 = derive_user_address(&id(5)).unwrap();
    let a2 = derive_user_address(&id(6)).unwrap();
    assert_ne!(a1.to_bytes(), a2.to_bytes());
}

#[test]
fn derivation_separates_domains() {
    let user = derive_user_address(&id(5)).unwrap();
    let video = derive_video_address(&id(5)).unwrap();
    assert_ne!(user.to_bytes(), video.to_bytes());
}

#[test]
fn derivation_separates_comment_seeds() {
    let video = derive_video_address(&id(5)).unwrap();
    let c0 = derive_comment_address(&video, 0).unwrap();
    let c1 = derive_comment_address(&video, 1).unwrap();
    assert_ne!(c0.to_bytes(), c1.to_bytes());
}

#[test]
fn counter_encodes_big_endian() {
    assert_eq!(u64_be_bytes(0), vec![0, 0, 0, 0, 0, 0, 0, 0]);
    assert_eq!(u64_be_bytes(1), vec![0, 0, 0, 0, 0, 0, 0, 1]);
    assert_eq!(
        u64_be_bytes(0x0102030405060708),
        vec![1, 2, 3, 4, 5, 6, 7, 8]
    );
    assert_eq!(u64_be_bytes(u64::MAX), vec![255; 8]);
}

#[test]
fn identity_length_checked() {
    assert!(Identity::from_bytes(vec![0u8; 31]).is_none());
    assert!(Identity::from_bytes(vec![0u8; 33]).is_none());
    assert!(Identity::from_bytes(vec![0u8; 32]).is_some());
}

#[test]
fn budgets_are_fixed() {
    assert_eq!(budget(RecordKind::User), 32 + 100 + 225 + 8);
    assert_eq!(
        budget(RecordKind::Video),
        32 + 1024 + 225 + 100 + 225 + 8 + 8 + 8 + 32 * 5 + 1 + 8
    );
    assert_eq!(budget(RecordKind::Comment), 32 + 1024 + 100 + 225 + 8 + 8 + 8);
}

#[test]
fn storage_reserved_by_kind() {
    let mut ledger = Ledger::new();
    let ua = create_user(
        &mut ledger,
        CreateUser { authority: id(1), clock: 0 },
        "alice".to_string(),
        "url".to_string(),
    )
    .unwrap();
    let va = create_video(
        &mut ledger,
        CreateVideo { randomkey: id(9), authority: id(1), clock: 0 },
        "hi".to_string(),
        "u".to_string(),
        "".to_string(),
        "".to_string(),
    )
    .unwrap();
    assert_eq!(ledger.reserved_size(&ua), Some(budget(RecordKind::User)));
    assert_eq!(ledger.reserved_size(&va), Some(budget(RecordKind::Video)));
    let absent = derive_user_address(&id(200)).unwrap();
    assert_eq!(ledger.reserved_size(&absent), None);
}

#[test]
fn blankness_is_trim_emptiness() {
    assert!(is_blank(""));
    assert!(is_blank(" \t\r\n "));
    assert!(is_blank("\u{a0}\u{2003}"));
    assert!(!is_blank(" a "));
    assert!(!is_blank("x"));
}

#[test]
fn text_length_counts_bytes() {
    assert_eq!(text_len(&"abc".to_string()), 3);
    assert_eq!(text_len(&"".to_string()), 0);
    assert_eq!(text_len(&"\u{e9}".to_string()), 2);
    assert_eq!(text_len(&"\u{4e16}\u{754c}".to_string()), 6);
}
