//! An on-chain lottery round: entries at a fixed ticket price accumulate in a
//! prize pool, and once a target number of entrants is reached a winner is
//! selected from the participants and the pool is paid out.
//!
//! This crate is the contract's core: entry validation, prize-pool
//! accounting, the round-completion trigger, winner selection, and the round
//! reset. The host that persists state between invocations, supplies the
//! calling context (caller address, sent amount, block timestamp) and moves
//! value on the ledger sits outside this crate; it hands those values in as
//! plain arguments and performs the payout transfer it is told to make.

pub mod hex;
pub mod selection;

use vstd::prelude::*;

use crate::selection::{winner_index_spec, SelectionPolicy};

verus! {

/// A participant's account address: 32 raw bytes, as the host ledger uses them.
pub type Address = [u8; 32];

/// Ticket price a first-ever invocation falls back to when the contract has
/// not been initialized explicitly.
pub const DEFAULT_TICKET_PRICE: u64 = 1;

/// Participant target a first-ever invocation falls back to when the contract
/// has not been initialized explicitly.
pub const DEFAULT_TARGETED_PARTICIPANTS: u32 = 10;

/// The ways an invocation of the lottery can fail.
#[derive(Clone, Copy, PartialEq, Eq, Debug)]
pub enum LotteryError {
    /// The sent amount is below the ticket price; the entry is rejected and
    /// the round state is left untouched.
    InsufficientFunds,
    /// Winner selection was asked for an empty participant set. The round
    /// trigger never fires with zero participants, so reaching this marks a
    /// defect in the embedding, not a user error.
    EmptyParticipantSet,
    /// The ledger refused the payout transfer. Raised by the embedding that
    /// performs the transfer; the round state must then be kept intact.
    TransferFailure,
}

/// What a successful entry led to.
#[derive(Clone, Copy, PartialEq, Eq, Debug)]
pub enum ExecuteOutcome {
    /// The entry was admitted and the round is still short of its target.
    Entered,
    /// The entry was admitted and the round reached its target. `prize` is
    /// owed to `winner`; the caller must transfer it and, once the transfer
    /// has succeeded, reset the round with `complete_payout`.
    RoundComplete { winner: Address, prize: u64 },
}

/// One lottery round's persisted state.
pub struct LotteryContract {
    /// Cost of one entry, in the contract's accounting unit. Zero means the
    /// contract has not been initialized yet.
    pub ticket_price: u64,
    /// The current round's entrants, in entry order.
    pub participants: Vec<Address>,
    /// The pool accumulated for the current round: one ticket price per
    /// participant.
    pub total_prize: u64,
    /// The entry count at which the round completes and pays out.
    pub targeted_participants: u32,
}

impl LotteryContract {
    /// The contract counts as initialized once a ticket price is set.
    pub open spec fn spec_initialized(self) -> bool {
        self.ticket_price > 0
    }

    /// The pool holds exactly one ticket price per participant.
    pub open spec fn accounted(self) -> bool {
        self.total_prize == self.ticket_price * self.participants@.len()
    }

    /// The steady-state invariant between invocations: the pool is accounted
    /// for and the round has not outgrown its target.
    pub open spec fn wf(self) -> bool {
        &&& self.accounted()
        &&& self.participants@.len() <= self.targeted_participants
    }

    /// The ticket price as of right after the lazy first-call initialization.
    pub open spec fn boot_price(self) -> u64 {
        if self.spec_initialized() {
            self.ticket_price
        } else {
            DEFAULT_TICKET_PRICE
        }
    }

    /// The participant target as of right after the lazy initialization.
    pub open spec fn boot_target(self) -> u32 {
        if self.spec_initialized() {
            self.targeted_participants
        } else {
            DEFAULT_TARGETED_PARTICIPANTS
        }
    }

    /// The participant list as of right after the lazy initialization.
    pub open spec fn boot_participants(self) -> Seq<Address> {
        if self.spec_initialized() {
            self.participants@
        } else {
            Seq::empty()
        }
    }

    /// The prize pool as of right after the lazy initialization.
    pub open spec fn boot_prize(self) -> u64 {
        if self.spec_initialized() {
            self.total_prize
        } else {
            0
        }
    }

    /// One invocation of the lottery: validate the entry, admit the caller,
    /// and report whether the round is now complete.
    ///
    /// `caller` and `sent_amount` identify and quantify the invocation's
    /// principal; `sent_amount` is already normalized to the contract's
    /// accounting unit. `seed` is the host's block timestamp, the sole
    /// (manipulable, replay-deterministic) entropy source.
    ///
    /// An uninitialized contract first initializes itself with the default
    /// parameters. An entry below the ticket price is rejected with
    /// `InsufficientFunds` and changes nothing. An admitted entry appends the
    /// caller and grows the pool by exactly the ticket price — not by the
    /// full sent amount. If the participants then reach the target, the round
    /// is complete: the winner is selected by the Shuffle policy and the
    /// whole pool is owed to them. The state still holds the finished round
    /// until `complete_payout`, so a failed transfer leaves it intact.
    pub fn execute(&mut self, caller: Address, sent_amount: u64, seed: u32) -> (r: Result<
        ExecuteOutcome,
        LotteryError,
    >)
        requires
            old(self).spec_initialized() ==> old(self).wf(),
            old(self).spec_initialized() ==> old(self).participants@.len() < u32::MAX,
            old(self).spec_initialized() ==> old(self).total_prize + old(self).ticket_price
                <= u64::MAX,
        ensures
            final(self).ticket_price == old(self).boot_price(),
            final(self).targeted_participants == old(self).boot_target(),
            final(self).accounted(),
            // a rejected entry: exactly when the sent amount is short, and
            // it changes nothing
            r is Err <==> sent_amount < old(self).boot_price(),
            r is Err ==> r == Err::<ExecuteOutcome, LotteryError>(
                LotteryError::InsufficientFunds,
            ),
            r is Err ==> final(self).participants@ == old(self).boot_participants()
                && final(self).total_prize == old(self).boot_prize(),
            old(self).spec_initialized() && sent_amount < old(self).ticket_price ==> *final(self)
                == *old(self),
            // an admitted entry: the caller is appended and the pool grows by
            // exactly the ticket price
            r is Ok ==> final(self).participants@ == old(self).boot_participants().push(caller)
                && final(self).total_prize == old(self).boot_prize() + old(self).boot_price(),
            // the round completes exactly when the participants reach the
            // target right after the admission
            r == Ok::<ExecuteOutcome, LotteryError>(ExecuteOutcome::Entered) <==> (r is Ok
                && final(self).participants@.len() < final(self).targeted_participants),
            r == Ok::<ExecuteOutcome, LotteryError>(ExecuteOutcome::Entered) ==> final(self).wf(),
            r is Err ==> final(self).wf(),
            // a completed round: the whole pool is owed to the participant
            // the Shuffle policy picks
            (r matches Ok(ExecuteOutcome::RoundComplete { winner, prize }) ==> {
                &&& final(self).participants@.len() >= final(self).targeted_participants
                &&& prize == final(self).total_prize
                &&& winner == final(self).participants@[winner_index_spec(
                    SelectionPolicy::Shuffle,
                    final(self).participants@.len() as int,
                    seed,
                )]
                &&& exists|i: int|
                    0 <= i < final(self).participants@.len()
                        && winner == final(self).participants@[i]
            }),
    {
        if !self.is_initialized() {
            self.new(DEFAULT_TICKET_PRICE, DEFAULT_TARGETED_PARTICIPANTS);
        }
        if sent_amount < self.ticket_price {
            return Err(LotteryError::InsufficientFunds);
        }
        let ghost price: int = self.ticket_price as int;
        let ghost len0: int = self.participants@.len() as int;
        self.participants.push(caller);
        self.total_prize = self.total_prize + self.ticket_price;
        proof {
            vstd::arithmetic::mul::lemma_mul_is_distributive_add(price, len0, 1);
        }
        if self.should_conduct_lottery() {
            let winner = match self.select_winner(seed) {
                Ok(w) => w,
                Err(_) => unreached(),
            };
            Ok(ExecuteOutcome::RoundComplete { winner, prize: self.total_prize })
        } else {
            Ok(ExecuteOutcome::Entered)
        }
    }

    /// (Re)initializes the contract: sets the ticket price and the
    /// participant target, and opens an empty round.
    pub fn new(&mut self, ticket_price: u64, targeted_participants: u32)
        ensures
            final(self).ticket_price == ticket_price,
            final(self).targeted_participants == targeted_participants,
            final(self).participants@ == Seq::<Address>::empty(),
            final(self).total_prize == 0,
            final(self).wf(),
    {
        self.ticket_price = ticket_price;
        self.participants = Vec::new();
        self.total_prize = 0;
        self.targeted_participants = targeted_participants;
    }

    /// Closes a completed round after its prize has actually been paid:
    /// clears the participants and zeroes the pool, keeping the ticket price
    /// and the target for the next round. Only to be called once the payout
    /// transfer has succeeded — on a failed transfer the round must stay as
    /// `execute` left it.
    pub fn complete_payout(&mut self)
        requires
            old(self).participants@.len() >= old(self).targeted_participants,
        ensures
            final(self).participants@ == Seq::<Address>::empty(),
            final(self).total_prize == 0,
            final(self).ticket_price == old(self).ticket_price,
            final(self).targeted_participants == old(self).targeted_participants,
            final(self).wf(),
    {
        self.participants = Vec::new();
        self.total_prize = 0;
    }

    /// Whether the contract has been initialized (a ticket price is set).
    pub fn is_initialized(&self) -> (r: bool)
        ensures
            r == self.spec_initialized(),
    {
        self.ticket_price > 0
    }

    /// Renders an address as 64 uppercase hex characters.
    pub fn address_to_string(address: Address) -> (r: String)
        ensures
            r@ == hex::hex_string(address@),
            r@.len() == 64,
    {
        let mut out = String::new();
        let mut i: usize = 0;
        while i < 32
            invariant
                i <= 32,
                out@ == hex::hex_string(address@.take(i as int)),
            decreases 32 - i,
        {
            let b = address[i];
            hex::push_hex_byte(&mut out, b);
            proof {
                assert(address@.take(i as int + 1).drop_last() =~= address@.take(i as int));
                assert(address@.take(i as int + 1).last() == address@[i as int]);
            }
            i = i + 1;
        }
        proof {
            assert(address@.take(32) =~= address@);
            hex::lemma_hex_string_len(address@);
        }
        out
    }

    /// The round trigger: the round is complete when the participants have
    /// reached the target.
    pub fn should_conduct_lottery(&self) -> (r: bool)
        ensures
            r == (self.participants@.len() >= self.targeted_participants),
    {
        self.participants.len() >= self.targeted_participants as usize
    }

    /// Selects the winner of the current round under the canonical Shuffle
    /// policy: the participant at the index the seed-driven shuffle picks.
    /// Fails fast with `EmptyParticipantSet` instead of dividing by a zero
    /// participant count.
    pub fn select_winner(&self, seed: u32) -> (r: Result<Address, LotteryError>)
        requires
            self.participants@.len() <= u32::MAX,
        ensures
            r is Err <==> self.participants@.len() == 0,
            r is Err ==> r == Err::<Address, LotteryError>(LotteryError::EmptyParticipantSet),
            self.participants@.len() > 0 ==> r == Ok::<Address, LotteryError>(
                self.participants@[winner_index_spec(
                    SelectionPolicy::Shuffle,
                    self.participants@.len() as int,
                    seed,
                )],
            ),
            r matches Ok(w) ==> exists|i: int|
                0 <= i < self.participants@.len() && w == self.participants@[i],
            self.participants@.len() == 1 ==> r == Ok::<Address, LotteryError>(
                self.participants@[0],
            ),
    {
        if self.participants.len() == 0 {
            return Err(LotteryError::EmptyParticipantSet);
        }
        let random_index = selection::winner_index(
            SelectionPolicy::Shuffle,
            self.participants.len(),
            seed,
        );
        let winner = self.participants[random_index];
        proof {
            assert(0 <= random_index < self.participants@.len() && winner
                == self.participants@[random_index as int]);
        }
        Ok(winner)
    }

    /// Derives a pseudo-random value from `[start, end]` under `seed`: the
    /// Shuffle policy's pick from that range.
    pub fn select_random_number(&self, start: u32, end: u32, seed: u32) -> (r: usize)
        requires
            start <= end,
            end - start < u32::MAX,
        ensures
            r == selection::selected_from_range(start, end, seed),
            start <= r <= end,
    {
        let range: u32 = end - start + 1;
        let shuffled_items = self.shuffle_range(start, end, seed);
        proof {
            vstd::arithmetic::div_mod::lemma_mod_division_less_than_divisor(
                seed as int,
                range as int,
            );
        }
        let random_index = (seed % range) as usize;
        let v: u32 = shuffled_items[random_index];
        v as usize
    }

    /// The Fisher–Yates shuffle of the range `[start, end]` under `seed`.
    pub fn shuffle_range(&self, start: u32, end: u32, seed: u32) -> (r: Vec<u32>)
        requires
            start <= end,
            end - start < u32::MAX,
        ensures
            r@ == selection::shuffled(selection::range_seq(start, end), seed),
            r@.len() == end - start + 1,
            forall|k: int| 0 <= k < r@.len() ==> start <= #[trigger] r@[k] <= end,
    {
        selection::shuffle_span(start, end, seed)
    }
}

impl Default for LotteryContract {
    /// The pristine, uninitialized state a contract address starts from.
    fn default() -> (r: Self)
        ensures
            r.ticket_price == 0,
            r.participants@ == Seq::<Address>::empty(),
            r.total_prize == 0,
            r.targeted_participants == 0,
            !r.spec_initialized(),
            r.wf(),
    {
        LotteryContract {
            ticket_price: 0,
            participants: Vec::new(),
            total_prize: 0,
            targeted_participants: 0,
        }
    }
}

impl LotteryError {
    /// A human-readable description of the failure.
    pub fn message(&self) -> (r: String)
        ensures
            *self is InsufficientFunds ==> r@ == "Insufficient funds to purchase a ticket"@,
            *self is EmptyParticipantSet ==> r@ == "No participants to select a winner from"@,
            *self is TransferFailure ==> r@ == "Transferring the prize to the winner failed"@,
    {
        match self {
            LotteryError::InsufficientFunds => String::from_str(
                "Insufficient funds to purchase a ticket",
            ),
            LotteryError::EmptyParticipantSet => String::from_str(
                "No participants to select a winner from",
            ),
            LotteryError::TransferFailure => String::from_str(
                "Transferring the prize to the winner failed",
            ),
        }
    }
}

} // verus!
