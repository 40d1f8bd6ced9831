//! Wagering arithmetic: the fee split, the payout formula, and the
//! derivation of the outcome from entropy and the wager counter.

use crate::partnered_game::PartneredGame;
use crate::FRACTIONAL_BASE;
use vstd::arithmetic::div_mod::{
    lemma_div_is_ordered, lemma_div_multiples_vanish, lemma_fundamental_div_mod,
};
use vstd::arithmetic::mul::{lemma_mul_inequality, lemma_mul_is_distributive_add};
use vstd::prelude::*;

verus! {

/// The Keccak-256 digest of a byte string.
pub uninterp spec fn keccak_of(input: Seq<u8>) -> Seq<u8>;

/// Relies on `near_sdk::env::keccak256`: the 32-byte Keccak-256 digest
/// of the input, a function of the input bytes alone.
#[verifier::external_body]
fn keccak256(input: &Vec<u8>) -> (r: Vec<u8>)
    ensures
        r@ == keccak_of(input@),
        r@.len() == 32,
{
    near_sdk::env::keccak256(input.as_slice())
}

/// The big-endian integer value of a byte string.
pub open spec fn spec_be_u128(s: Seq<u8>) -> int
    decreases s.len(),
{
    if s.len() == 0 {
        0
    } else {
        spec_be_u128(s.drop_last()) * 256 + s.last()
    }
}

spec fn pow256(n: nat) -> int
    decreases n,
{
    if n == 0 {
        1
    } else {
        256 * pow256((n - 1) as nat)
    }
}

proof fn lemma_pow256_pos(n: nat)
    ensures
        pow256(n) >= 1,
    decreases n,
{
    if n > 0 {
        lemma_pow256_pos((n - 1) as nat);
    }
}

proof fn lemma_pow256_increases(a: nat, b: nat)
    requires
        a <= b,
    ensures
        1 <= pow256(a) <= pow256(b),
    decreases b,
{
    lemma_pow256_pos(a);
    if a < b {
        lemma_pow256_increases(a, (b - 1) as nat);
    }
}

proof fn lemma_be_u128_bound(s: Seq<u8>)
    ensures
        0 <= spec_be_u128(s) < pow256(s.len() as nat),
    decreases s.len(),
{
    if s.len() > 0 {
        lemma_be_u128_bound(s.drop_last());
    }
}

fn be_u128_of_prefix(bytes: &Vec<u8>) -> (r: u128)
    requires
        bytes@.len() >= 16,
    ensures
        r as int == spec_be_u128(bytes@.take(16)),
{
    let mut acc: u128 = 0;
    let mut i: usize = 0;
    proof {
        assert(bytes@.take(0) =~= Seq::<u8>::empty());
    }
    while i < 16
        invariant
            bytes@.len() >= 16,
            i <= 16,
            acc as int == spec_be_u128(bytes@.take(i as int)),
        decreases 16 - i,
    {
        proof {
            lemma_be_u128_bound(bytes@.take(i as int));
            lemma_pow256_increases(i as nat, 15);
            reveal_with_fuel(pow256, 16);
            assert(pow256(15) == 0x1000000000000000000000000000000);
        }
        acc = acc * 256 + (bytes[i] as u128);
        i = i + 1;
        proof {
            assert(bytes@.take(i as int).drop_last() =~= bytes@.take(i as int - 1));
            assert(bytes@.take(i as int).last() == bytes@[i as int - 1]);
        }
    }
    acc
}

/// The roll a wager lands on, in `[0, 256)`: one byte of entropy and
/// the wager counter's low byte are hashed, the digest's first sixteen
/// bytes are read as a big-endian number, and that number is reduced
/// modulo 256.
pub open spec fn spec_roll(entropy: u8, game_count: u128) -> int {
    spec_be_u128(keccak_of(seq![entropy, (game_count % 256) as u8]).take(16)) % 256
}

/// Whether a wager at the given odds wins: the roll is strictly below
/// the odds parameter, so the win probability is `odds / 256`.
pub open spec fn spec_wins(entropy: u8, game_count: u128, odds: u8) -> bool {
    spec_roll(entropy, game_count) < odds
}

/// Computes the roll for one byte of entropy and a wager counter.
pub fn flip_result(entropy: u8, game_count: u128) -> (r: u8)
    ensures
        r as int == spec_roll(entropy, game_count),
{
    let mut input: Vec<u8> = Vec::new();
    input.push(entropy);
    input.push((game_count % 256) as u8);
    proof {
        assert(input@ =~= seq![entropy, (game_count % 256) as u8]);
    }
    let hash = keccak256(&input);
    let value = be_u128_of_prefix(&hash);
    (value % 256) as u8
}

/// One fee component: the stake times the fee fraction, truncating.
pub open spec fn spec_cut(stake: u128, fee: u128) -> int {
    (stake * fee) / (FRACTIONAL_BASE as int)
}

/// The four fee components taken from a stake, together.
pub open spec fn spec_cuts_total(stake: u128, game: PartneredGame) -> int {
    spec_cut(stake, game.nft_fee) + spec_cut(stake, game.owner_fee) + spec_cut(
        stake,
        game.house_fee,
    ) + spec_cut(stake, game.partner_fee)
}

/// What remains of the stake once all four fees are taken.
pub open spec fn spec_net_stake(stake: u128, game: PartneredGame) -> int {
    stake - spec_cuts_total(stake, game)
}

/// The payout of a winning wager: the fair multiple `256 / odds` of
/// the net stake, scaled by the game's payment adjustment.
pub open spec fn spec_won_value(net_stake: int, odds: u8, adjustment: u128) -> int {
    ((net_stake * 256) / (odds as int)) * adjustment / (FRACTIONAL_BASE as int)
}

/// Two fee components drawn from the same stake never exceed the
/// component of the summed fees.
proof fn lemma_cut_add(stake: u128, fee_a: u128, fee_b: u128)
    requires
        fee_a + fee_b <= u128::MAX,
    ensures
        spec_cut(stake, fee_a) + spec_cut(stake, fee_b) <= (stake * (fee_a + fee_b)) / (
        FRACTIONAL_BASE as int),
{
    let b = FRACTIONAL_BASE as int;
    let qa = spec_cut(stake, fee_a);
    let qb = spec_cut(stake, fee_b);
    lemma_fundamental_div_mod(stake * fee_a, b);
    lemma_fundamental_div_mod(stake * fee_b, b);
    lemma_mul_is_distributive_add(stake as int, fee_a as int, fee_b as int);
    assert(b * (qa + qb) <= stake * (fee_a + fee_b)) by (nonlinear_arith)
        requires
            stake * fee_a == b * qa + (stake * fee_a) % b,
            stake * fee_b == b * qb + (stake * fee_b) % b,
            (stake * fee_a) % b >= 0,
            (stake * fee_b) % b >= 0,
            stake * (fee_a + fee_b) == stake * fee_a + stake * fee_b,
    ;
    lemma_div_is_ordered(b * (qa + qb), stake * (fee_a + fee_b), b);
    lemma_div_multiples_vanish(qa + qb, b);
}

/// Fee bound: whenever the four fee fractions sum to at most
/// `FRACTIONAL_BASE`, the four cuts together never exceed the stake
/// itself.  With fractions summing beyond the base the bound fails:
/// four fees of `FRACTIONAL_BASE` each take the whole stake four
/// times over.
pub proof fn lemma_fee_bound(stake: u128, game: PartneredGame)
    requires
        game.nft_fee + game.owner_fee + game.house_fee + game.partner_fee <= FRACTIONAL_BASE,
    ensures
        0 <= spec_cuts_total(stake, game) <= stake,
{
    let b = FRACTIONAL_BASE as int;
    lemma_cut_add(stake, game.nft_fee, game.owner_fee);
    lemma_cut_add(stake, (game.nft_fee + game.owner_fee) as u128, game.house_fee);
    lemma_cut_add(
        stake,
        (game.nft_fee + game.owner_fee + game.house_fee) as u128,
        game.partner_fee,
    );
    let all_fees = game.nft_fee + game.owner_fee + game.house_fee + game.partner_fee;
    lemma_mul_inequality(all_fees as int, FRACTIONAL_BASE as int, stake as int);
    lemma_div_is_ordered(stake * all_fees, stake * FRACTIONAL_BASE, b);
    lemma_div_multiples_vanish(stake as int, b);
    assert(spec_cut(stake, game.nft_fee) >= 0) by {
        vstd::arithmetic::div_mod::lemma_div_pos_is_pos(stake * game.nft_fee, b);
        assert(stake * game.nft_fee >= 0) by (nonlinear_arith);
    }
    assert(spec_cut(stake, game.owner_fee) >= 0) by {
        vstd::arithmetic::div_mod::lemma_div_pos_is_pos(stake * game.owner_fee, b);
        assert(stake * game.owner_fee >= 0) by (nonlinear_arith);
    }
    assert(spec_cut(stake, game.house_fee) >= 0) by {
        vstd::arithmetic::div_mod::lemma_div_pos_is_pos(stake * game.house_fee, b);
        assert(stake * game.house_fee >= 0) by (nonlinear_arith);
    }
    assert(spec_cut(stake, game.partner_fee) >= 0) by {
        vstd::arithmetic::div_mod::lemma_div_pos_is_pos(stake * game.partner_fee, b);
        assert(stake * game.partner_fee >= 0) by (nonlinear_arith);
    }
}

} // verus!
