use schnorrkel::{signing_context, ExpansionMode, MiniSecretKey};
use sha2::{Digest, Sha256};
use vrf_poker::game::{leader, score, shared_seed};
use vrf_poker::player::Player;

#[test]
fn shared_seed_of_no_signature_is_the_empty_digest() {
    let expected: [u8; 32] = [
        0xe3, 0xb0, 0xc4, 0x42, 0x98, 0xfc, 0x1c, 0x14, 0x9a, 0xfb, 0xf4, 0xc8, 0x99, 0x6f, 0xb9,
        0x24, 0x27, 0xae, 0x41, 0xe4, 0x64, 0x9b, 0x93, 0x4c, 0xa4, 0x95, 0x99, 0x1b, 0x78, 0x52,
        0xb8, 0x55,
    ];
    assert_eq!(shared_seed(&[]), expected);
}

#[test]
fn shared_seed_hashes_signatures_in_order() {
    let a = [1u8; 64];
    let mut b = [2u8; 64];
    b[63] = 9;
    let mut hasher = Sha256::new();
    hasher.update(a);
    hasher.update(b);
    let expected: [u8; 32] = hasher.finalize().into();
    assert_eq!(shared_seed(&[a, b]), expected);
    assert_ne!(shared_seed(&[b, a]), expected);
    assert_ne!(shared_seed(&[a]), expected);
}

#[test]
fn shared_seed_of_real_signatures() {
    let ctx = signing_context(b"Signing the PBA poker game!");
    let mut signatures = Vec::new();
    let mut all = Vec::new();
    for fill in 1..4u8 {
        let keypair = MiniSecretKey::from_bytes(&[fill; 32])
            .unwrap()
            .expand_to_keypair(ExpansionMode::Ed25519);
        let signature = keypair.sign(ctx.bytes(b"Here I come!")).to_bytes();
        all.extend_from_slice(&signature);
        signatures.push(signature);
    }
    let expected: [u8; 32] = Sha256::digest(&all).into();
    assert_eq!(shared_seed(&signatures), expected);
}

#[test]
fn score_adds_table_and_hand() {
    assert_eq!(score(&[], &[]), 0);
    assert_eq!(score(&[1, 2, 3, 4, 5], &[]), 15);
    assert_eq!(score(&[], &[51, 51]), 102);
    assert_eq!(score(&[10, 20, 30, 40, 50], &[7, 8]), 165);
    assert_eq!(score(&[65000], &[535]), 65535);
}

#[test]
fn leader_is_the_first_of_the_highest() {
    assert_eq!(leader(&[]), (0, None));
    assert_eq!(leader(&[0, 0, 0]), (0, None));
    assert_eq!(leader(&[5]), (5, Some(0)));
    assert_eq!(leader(&[3, 9, 9, 2]), (9, Some(1)));
    assert_eq!(leader(&[0, 1, 0]), (1, Some(1)));
    assert_eq!(leader(&[7, 7]), (7, Some(0)));
    assert_eq!(leader(&[1, 2, 65535]), (65535, Some(2)));
}

#[test]
fn pay_bid_moves_money_to_the_bank() {
    let keypair = MiniSecretKey::from_bytes(&[5u8; 32])
        .unwrap()
        .expand_to_keypair(ExpansionMode::Ed25519);
    let mut player = Player::new(keypair, 1000);
    let mut bank = 0;
    player.pay_bid(300, &mut bank);
    assert_eq!(player.balance, 700);
    assert_eq!(bank, 300);
    player.pay_bid(0, &mut bank);
    assert_eq!(player.balance, 700);
    assert_eq!(bank, 300);
    player.pay_bid(800, &mut bank);
    assert_eq!(player.balance, -100);
    assert_eq!(bank, 1100);
    assert!(player.cards.is_empty());
}
