use tiktok_solana::keys::Address;
use tiktok_solana::keys::Identity;
use tiktok_solana::ops::create_comment;
use tiktok_solana::ops::create_video;
use tiktok_solana::ops::CreateComment;
use tiktok_solana::ops::CreateVideo;
use tiktok_solana::ops::Errors;
use tiktok_solana::pda::derive_comment_address;
use tiktok_solana::pda::derive_video_address;
use tiktok_solana::store::Ledger;

fn id(b: u8) -> Identity {
    let mut v = vec![0u8; 32];
    v[0] = b;
    Identity::from_bytes(v).unwrap()
}

fn make_video(ledger: &mut Ledger, nonce: u8) -> Address {
    create_video(
        ledger,
        CreateVideo { randomkey: id(nonce), authority: id(1), clock: 100 },
        "hi".to_string(),
        "u".to_string(),
        "".to_string(),
        "".to_string(),
    )
    .unwrap()
}

#[test]
fn comment_scenario_two_comments() {
    let mut ledger = Ledger::new();
    let vaddr = make_video(&mut ledger, 9);
    let expected_vaddr = derive_video_address(&id(9)).unwrap();
    assert_eq!(vaddr.to_bytes(), expected_vaddr.to_bytes());
    assert_eq!(ledger.get_video(&vaddr).unwrap().comment_count, 0);

    let c1 = create_comment(
        &mut ledger,
        CreateComment { video: vaddr.dup(), authority: id(2), clock: 101 },
        "t1".to_string(),
        "bob".to_string(),
        "bob.example".to_string(),
    )
    .unwrap();
    let expected_c1 = derive_comment_address(&vaddr, 0).unwrap();
    assert_eq!(c1.to_bytes(), expected_c1.to_bytes());
    let stored1 = ledger.get_comment(&c1).unwrap();
    assert_eq!(stored1.index, 0);
    assert_eq!(stored1.text, "t1");
    assert_eq!(stored1.commenter_name, "bob");
    assert_eq!(stored1.commenter_url, "bob.example");
    assert_eq!(stored1.video_time, 101);
    assert_eq!(stored1.authority.to_bytes(), id(2).to_bytes());
    assert_eq!(ledger.get_video(&vaddr).unwrap().comment_count, 1);

    let c2 = create_comment(
        &mut ledger,
        CreateComment { video: vaddr.dup(), authority: id(3), clock: 102 },
        "t2".to_string(),
        "".to_string(),
        "".to_string(),
    )
    .unwrap();
    let expected_c2 = derive_comment_address(&vaddr, 1).unwrap();
    assert_eq!(c2.to_bytes(), expected_c2.to_bytes());
    assert_eq!(ledger.get_comment(&c2).unwrap().index, 1);
    assert_eq!(ledger.get_video(&vaddr).unwrap().comment_count, 2);
    assert_ne!(c1.to_bytes(), c2.to_bytes());
}

#[test]
fn comment_indices_dense() {
    let mut ledger = Ledger::new();
    let vaddr = make_video(&mut ledger, 9);
    let mut addrs: Vec<Vec<u8>> = Vec::new();
    for k in 0..4u64 {
        let c = create_comment(
            &mut ledger,
            CreateComment { video: vaddr.dup(), authority: id(2), clock: 0 },
            format!("comment {}", k),
            "".to_string(),
            "".to_string(),
        )
        .unwrap();
        assert_eq!(ledger.get_comment(&c).unwrap().index, k);
        addrs.push(c.to_bytes());
    }
    assert_eq!(ledger.get_video(&vaddr).unwrap().comment_count, 4);
    for i in 0..addrs.len() {
        for j in 0..i {
            assert_ne!(addrs[i], addrs[j]);
        }
    }
}

#[test]
fn comment_missing_video_rejected() {
    let mut ledger = Ledger::new();
    let absent = derive_video_address(&id(42)).unwrap();
    let r = create_comment(
        &mut ledger,
        CreateComment { video: absent, authority: id(2), clock: 0 },
        "t".to_string(),
        "".to_string(),
        "".to_string(),
    );
    assert!(matches!(r, Err(Errors::NotFound)));
}

#[test]
fn comment_empty_text_accepted() {
    let mut ledger = Ledger::new();
    let vaddr = make_video(&mut ledger, 9);
    let r = create_comment(
        &mut ledger,
        CreateComment { video: vaddr, authority: id(2), clock: 0 },
        "".to_string(),
        "".to_string(),
        "".to_string(),
    );
    assert!(r.is_ok());
}

#[test]
fn comment_text_over_budget_rejected() {
    let mut ledger = Ledger::new();
    let vaddr = make_video(&mut ledger, 9);
    let before = ledger.get_video(&vaddr).unwrap().comment_count;
    let r = create_comment(
        &mut ledger,
        CreateComment { video: vaddr.dup(), authority: id(2), clock: 0 },
        "t".repeat(1025),
        "".to_string(),
        "".to_string(),
    );
    assert!(matches!(r, Err(Errors::OversizeField)));
    assert_eq!(ledger.get_video(&vaddr).unwrap().comment_count, before);
}
