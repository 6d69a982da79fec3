//! A participant at the table.

use crate::draw::{draw_range, is_draw};
use schnorrkel::Keypair;
use vstd::prelude::*;

verus! {

/// Number of cards in a participant's hand.
pub const HAND_SIZE: u8 = 2;

/// A participant: a signing identity, the draws held, and a balance.
#[derive(Debug)]
pub struct Player {
    pub keypair: Keypair,
    pub cards: Vec<(u16, [u8; 97])>,
    pub balance: i32,
}

impl Player {
    /// A participant with no cards yet.
    pub fn new(keypair: Keypair, balance: i32) -> (p: Self)
        ensures
            p.keypair == keypair,
            p.cards@ == Seq::<(u16, [u8; 97])>::empty(),
            p.balance == balance,
    {
        Player { keypair, cards: Vec::new(), balance }
    }

    /// Replaces the participant's cards.
    pub fn hand_card(&mut self, cards: Vec<(u16, [u8; 97])>)
        ensures
            final(self).cards == cards,
            final(self).keypair == old(self).keypair,
            final(self).balance == old(self).balance,
    {
        self.cards = cards;
    }

    /// Moves a bid from the participant's balance into the bank.
    pub fn pay_bid(&mut self, bid: i32, bank: &mut i32)
        requires
            i32::MIN <= old(self).balance - bid <= i32::MAX,
            i32::MIN <= *old(bank) + bid <= i32::MAX,
        ensures
            final(self).balance == old(self).balance - bid,
            *final(bank) == *old(bank) + bid,
            final(self).keypair == old(self).keypair,
            final(self).cards == old(self).cards,
    {
        self.balance = self.balance - bid;
        *bank = *bank + bid;
    }

    /// Deals the participant's hand under a seed: the draws of the first
    /// `HAND_SIZE` indices of the participant's own key.
    pub fn deal_hand(&mut self, seed: &[u8; 32])
        ensures
            final(self).cards@.len() == HAND_SIZE,
            forall|k: int|
                0 <= k < HAND_SIZE ==> is_draw(
                    old(self).keypair,
                    seed@,
                    k as u8,
                    Some(#[trigger] final(self).cards@[k]),
                ),
            final(self).keypair == old(self).keypair,
            final(self).balance == old(self).balance,
    {
        let cards = draw_range(&self.keypair, seed, 0, HAND_SIZE);
        self.hand_card(cards);
    }
}

} // verus!
