use tiktok_solana::keys::Address;
use tiktok_solana::keys::Identity;
use tiktok_solana::ops::create_video;
use tiktok_solana::ops::like_video;
use tiktok_solana::ops::CreateVideo;
use tiktok_solana::ops::Errors;
use tiktok_solana::ops::LikeVideo;
use tiktok_solana::pda::derive_video_address;
use tiktok_solana::store::Ledger;

fn id(b: u8) -> Identity {
    let mut v = vec![0u8; 32];
    v[0] = b;
    Identity::from_bytes(v).unwrap()
}

fn make_video(ledger: &mut Ledger, nonce: u8) -> Address {
    create_video(
        ledger,
        CreateVideo { randomkey: id(nonce), authority: id(1), clock: 100 },
        "hi".to_string(),
        "u".to_string(),
        "".to_string(),
        "".to_string(),
    )
    .unwrap()
}

#[test]
fn likes_counted_up_to_capacity() {
    let mut ledger = Ledger::new();
    let vaddr = make_video(&mut ledger, 9);
    for k in 0..5u8 {
        let r = like_video(
            &mut ledger,
            LikeVideo { video: vaddr.dup(), authority: id(10 + k), clock: 0 },
        );
        assert!(r.is_ok());
        let v = ledger.get_video(&vaddr).unwrap();
        assert_eq!(v.likes, k + 1);
        assert_eq!(v.people_who_liked.len() as u8, k + 1);
    }
    let r6 = like_video(
        &mut ledger,
        LikeVideo { video: vaddr.dup(), authority: id(99), clock: 0 },
    );
    assert!(matches!(r6, Err(Errors::CapacityExceeded)));
    assert_eq!(ledger.get_video(&vaddr).unwrap().likes, 5);
}

#[test]
fn duplicate_like_rejected() {
    let mut ledger = Ledger::new();
    let vaddr = make_video(&mut ledger, 9);
    let r1 = like_video(
        &mut ledger,
        LikeVideo { video: vaddr.dup(), authority: id(7), clock: 0 },
    );
    assert!(r1.is_ok());
    assert_eq!(ledger.get_video(&vaddr).unwrap().likes, 1);
    let r2 = like_video(
        &mut ledger,
        LikeVideo { video: vaddr.dup(), authority: id(7), clock: 1 },
    );
    assert!(matches!(r2, Err(Errors::DuplicateMembership)));
    assert_eq!(ledger.get_video(&vaddr).unwrap().likes, 1);
}

#[test]
fn like_missing_video_rejected() {
    let mut ledger = Ledger::new();
    let absent = derive_video_address(&id(42)).unwrap();
    let r = like_video(&mut ledger, LikeVideo { video: absent, authority: id(7), clock: 0 });
    assert!(matches!(r, Err(Errors::NotFound)));
}

#[test]
fn likers_recorded_in_order() {
    let mut ledger = Ledger::new();
    let vaddr = make_video(&mut ledger, 9);
    like_video(&mut ledger, LikeVideo { video: vaddr.dup(), authority: id(30), clock: 0 }).unwrap();
    like_video(&mut ledger, LikeVideo { video: vaddr.dup(), authority: id(31), clock: 0 }).unwrap();
    let v = ledger.get_video(&vaddr).unwrap();
    assert_eq!(v.people_who_liked[0].to_bytes(), id(30).to_bytes());
    assert_eq!(v.people_who_liked[1].to_bytes(), id(31).to_bytes());
}
