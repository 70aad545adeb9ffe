use tiktok_solana::keys::Identity;
use tiktok_solana::ops::create_video;
use tiktok_solana::ops::CreateVideo;
use tiktok_solana::ops::Errors;
use tiktok_solana::pda::derive_video_address;
use tiktok_solana::store::Ledger;

fn id(b: u8) -> Identity {
    let mut v = vec![0u8; 32];
    v[0] = b;
    Identity::from_bytes(v).unwrap()
}

#[test]
fn video_created_fresh() {
    let mut ledger = Ledger::new();
    let ctx = CreateVideo { randomkey: id(9), authority: id(1), clock: 1234 };
    let r = create_video(
        &mut ledger,
        ctx,
        "a video".to_string(),
        "https://v.example/1".to_string(),
        "".to_string(),
        "".to_string(),
    );
    let addr = r.unwrap();
    let expected = derive_video_address(&id(9)).unwrap();
    assert_eq!(addr.to_bytes(), expected.to_bytes());
    let v = ledger.get_video(&addr).unwrap();
    assert_eq!(v.description, "a video");
    assert_eq!(v.video_url, "https://v.example/1");
    assert_eq!(v.creator_name, "");
    assert_eq!(v.creator_url, "");
    assert_eq!(v.comment_count, 0);
    assert_eq!(v.likes, 0);
    assert_eq!(v.people_who_liked.len(), 0);
    assert_eq!(v.creator_time, 1234);
    assert_eq!(v.authority.to_bytes(), id(1).to_bytes());
}

#[test]
fn wrong_kind_lookup_is_none() {
    let mut ledger = Ledger::new();
    let r = create_video(
        &mut ledger,
        CreateVideo { randomkey: id(9), authority: id(1), clock: 0 },
        "a video".to_string(),
        "url".to_string(),
        "".to_string(),
        "".to_string(),
    );
    let addr = r.unwrap();
    assert!(ledger.get_video(&addr).is_some());
    assert!(ledger.get_user(&addr).is_none());
    assert!(ledger.get_comment(&addr).is_none());
}

#[test]
fn video_blank_description_rejected() {
    let mut ledger = Ledger::new();
    let r = create_video(
        &mut ledger,
        CreateVideo { randomkey: id(9), authority: id(1), clock: 0 },
        "".to_string(),
        "https://v.example/1".to_string(),
        "name".to_string(),
        "url".to_string(),
    );
    assert!(matches!(r, Err(Errors::InvalidInput)));
}

#[test]
fn video_blank_url_rejected() {
    let mut ledger = Ledger::new();
    let r = create_video(
        &mut ledger,
        CreateVideo { randomkey: id(9), authority: id(1), clock: 0 },
        "a video".to_string(),
        "   ".to_string(),
        "".to_string(),
        "".to_string(),
    );
    assert!(matches!(r, Err(Errors::InvalidInput)));
}

#[test]
fn video_nonce_reuse_rejected() {
    let mut ledger = Ledger::new();
    let r1 = create_video(
        &mut ledger,
        CreateVideo { randomkey: id(9), authority: id(1), clock: 0 },
        "first".to_string(),
        "u1".to_string(),
        "".to_string(),
        "".to_string(),
    );
    assert!(r1.is_ok());
    let r2 = create_video(
        &mut ledger,
        CreateVideo { randomkey: id(9), authority: id(2), clock: 1 },
        "second".to_string(),
        "u2".to_string(),
        "".to_string(),
        "".to_string(),
    );
    assert!(matches!(r2, Err(Errors::AlreadyExists)));
}

#[test]
fn video_description_at_budget_accepted() {
    let mut ledger = Ledger::new();
    let r = create_video(
        &mut ledger,
        CreateVideo { randomkey: id(9), authority: id(1), clock: 0 },
        "d".repeat(1024),
        "url".to_string(),
        "".to_string(),
        "".to_string(),
    );
    assert!(r.is_ok());
}

#[test]
fn video_description_over_budget_rejected() {
    let mut ledger = Ledger::new();
    let r = create_video(
        &mut ledger,
        CreateVideo { randomkey: id(9), authority: id(1), clock: 0 },
        "d".repeat(1025),
        "url".to_string(),
        "".to_string(),
        "".to_string(),
    );
    assert!(matches!(r, Err(Errors::OversizeField)));
}

#[test]
fn video_creator_name_over_budget_rejected() {
    let mut ledger = Ledger::new();
    let r = create_video(
        &mut ledger,
        CreateVideo { randomkey: id(9), authority: id(1), clock: 0 },
        "a video".to_string(),
        "url".to_string(),
        "n".repeat(101),
        "".to_string(),
    );
    assert!(matches!(r, Err(Errors::OversizeField)));
}
