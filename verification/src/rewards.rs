//! The split of a matured block's coinbase among its miner and burn supporters.

use crate::accounts::StacksChainState;
use crate::database::{ClarityDatabase, LedgerView};
use crate::errors::Error;
use crate::payments::{MinerPaymentSchedule, StacksHeaderInfo};
use crate::types::{BlockHeaderHash, ConsensusHash, PrincipalView, StacksAddress};
use vstd::prelude::*;

verus! {

/// Number of blocks that must follow a block before its rewards are paid.
pub const MINER_REWARD_MATURITY: u64 = 100;

/// Percentage of a penalized miner's coinbase share that goes to the reporter.
pub const POISON_MICROBLOCK_COMMISSION_FRACTION: u128 = 5;

/// The resolved payout of one participant of a block.
#[derive(Clone, Copy, Debug, PartialEq, Eq)]
pub struct MinerReward {
    pub address: StacksAddress,
    pub coinbase: u128,
    pub tx_fees_anchored: u128,
    pub tx_fees_streamed_produced: u128,
    pub tx_fees_streamed_confirmed: u128,
    /// The index that the block's miner has among the payments of the block.
    pub vtxindex: u32,
}

/// The block that a batch of resolved rewards comes from.
#[derive(Clone, Copy, Debug, PartialEq, Eq)]
pub struct MinerRewardInfo {
    pub from_stacks_block_hash: BlockHeaderHash,
    pub from_block_consensus_hash: ConsensusHash,
}

impl MinerReward {
    /// The sum of the four value fields.
    pub open spec fn spec_total(&self) -> nat {
        (self.coinbase + self.tx_fees_anchored + self.tx_fees_streamed_produced
            + self.tx_fees_streamed_confirmed) as nat
    }

    /// Everything that this reward pays.
    pub fn total(&self) -> (r: u128)
        requires
            self.spec_total() <= u128::MAX,
        ensures
            r == self.spec_total(),
    {
        self.coinbase + self.tx_fees_anchored + self.tx_fees_streamed_produced
            + self.tx_fees_streamed_confirmed
    }
}

/// The sum of the commit burns of a list of burn supporters.
pub open spec fn users_burn(users: Seq<MinerPaymentSchedule>) -> nat
    decreases users.len(),
{
    if users.len() == 0 {
        0
    } else {
        users_burn(users.drop_last()) + users.last().burnchain_commit_burn as nat
    }
}

/// The sum of the commit burns of every participant of a block: its miner and
/// all of its burn supporters.
pub open spec fn burn_total(miner: MinerPaymentSchedule, users: Seq<MinerPaymentSchedule>) -> nat {
    miner.burnchain_commit_burn as nat + users_burn(users)
}

/// The share of `coinbase` that a commit burn of `commit` earns out of `total`:
/// the proportion, rounded down.
pub open spec fn coinbase_share(coinbase: nat, commit: nat, total: nat) -> nat {
    (coinbase * commit) / total
}

/// The commission on `coinbase` for the report of a poisoned microblock stream.
pub open spec fn spec_poison_microblock_commission(coinbase: nat) -> nat {
    (coinbase * POISON_MICROBLOCK_COMMISSION_FRACTION as nat) / 100
}

/// The share of the block's coinbase that `participant` earned.
pub open spec fn participant_share(
    participant: MinerPaymentSchedule,
    miner: MinerPaymentSchedule,
    users: Seq<MinerPaymentSchedule>,
) -> nat {
    coinbase_share(
        miner.coinbase as nat,
        participant.burnchain_commit_burn as nat,
        burn_total(miner, users),
    )
}

/// The reward of `participant` in the block of `miner` and `users`.
///
/// Without a poison report the participant is paid its share. With one, the
/// reporter is paid the commission on the miner's share in the miner's place,
/// and a burn supporter's share goes to the burn address.
pub open spec fn spec_miner_reward(
    mainnet: bool,
    participant: MinerPaymentSchedule,
    miner: MinerPaymentSchedule,
    users: Seq<MinerPaymentSchedule>,
    poison_reporter_opt: Option<StacksAddress>,
) -> MinerReward {
    let share = participant_share(participant, miner, users);
    let (recipient, coinbase) = match poison_reporter_opt {
        Some(reporter) => if participant.address == miner.address {
            (reporter, spec_poison_microblock_commission(share))
        } else {
            (StacksAddress::spec_burn_address(mainnet), share)
        },
        None => (participant.address, share),
    };
    MinerReward {
        address: recipient,
        coinbase: coinbase as u128,
        tx_fees_anchored: 0,
        tx_fees_streamed_produced: 0,
        tx_fees_streamed_confirmed: 0,
        vtxindex: miner.vtxindex,
    }
}

/// Adding one supporter to a list adds its commit burn to the sum.
proof fn lemma_users_burn_push(users: Seq<MinerPaymentSchedule>, user: MinerPaymentSchedule)
    ensures
        users_burn(users.push(user)) == users_burn(users) + user.burnchain_commit_burn,
{
    assert(users.push(user).drop_last() =~= users);
}

/// A share is never more than the coinbase, where the commit burn is part of
/// the total.
proof fn lemma_share_bound(coinbase: nat, commit: nat, total: nat)
    requires
        0 < total,
        commit <= total,
    ensures
        coinbase_share(coinbase, commit, total) <= coinbase,
{
    assert(coinbase * commit <= coinbase * total) by (nonlinear_arith)
        requires
            commit <= total,
    ;
    assert((coinbase * commit) / total <= coinbase) by (nonlinear_arith)
        requires
            0 < total,
            coinbase * commit <= coinbase * total,
    ;
}

/// The sum of the commit burns of the first supporters of a list is at most
/// the sum of all of them.
proof fn lemma_users_burn_prefix(users: Seq<MinerPaymentSchedule>, k: int)
    requires
        0 <= k <= users.len(),
    ensures
        users_burn(users.take(k)) <= users_burn(users),
    decreases users.len() - k,
{
    if k < users.len() {
        lemma_users_burn_prefix(users, k + 1);
        assert(users.take(k + 1).drop_last() =~= users.take(k));
    } else {
        assert(users.take(k) =~= users);
    }
}

/// The commit burn of each supporter is part of the sum of all commit burns.
proof fn lemma_user_burn_in_total(users: Seq<MinerPaymentSchedule>, i: int)
    requires
        0 <= i < users.len(),
    ensures
        users[i].burnchain_commit_burn <= users_burn(users),
{
    lemma_users_burn_prefix(users, i + 1);
    assert(users.take(i + 1).drop_last() =~= users.take(i));
    assert(users.take(i + 1).last() == users[i]);
}

/// Two quotients rounded down are together at most the quotient of the sum.
proof fn lemma_div_superadditive(a: nat, b: nat, t: nat)
    requires
        t > 0,
    ensures
        a / t + b / t <= (a + b) / t,
{
    let qa = a / t;
    let qb = b / t;
    vstd::arithmetic::div_mod::lemma_fundamental_div_mod(a as int, t as int);
    vstd::arithmetic::div_mod::lemma_fundamental_div_mod(b as int, t as int);
    vstd::arithmetic::div_mod::lemma_mod_bound(a as int, t as int);
    vstd::arithmetic::div_mod::lemma_mod_bound(b as int, t as int);
    assert(t * (qa + qb) == t * qa + t * qb) by (nonlinear_arith);
    assert(t * (qa + qb) <= a + b);
    vstd::arithmetic::div_mod::lemma_div_is_ordered(
        (t * (qa + qb)) as int,
        (a + b) as int,
        t as int,
    );
    vstd::arithmetic::div_mod::lemma_div_multiples_vanish((qa + qb) as int, t as int);
}

/// The shares of the first `k` burn supporters of a list, together.
pub open spec fn supporters_share(
    miner: MinerPaymentSchedule,
    users: Seq<MinerPaymentSchedule>,
    k: nat,
) -> nat
    decreases k,
{
    if k == 0 {
        0
    } else {
        supporters_share(miner, users, (k - 1) as nat) + participant_share(
            users[k - 1],
            miner,
            users,
        )
    }
}

/// The coinbase amounts of a list of rewards, together.
pub open spec fn rewards_coinbase(rewards: Seq<MinerReward>) -> nat
    decreases rewards.len(),
{
    if rewards.len() == 0 {
        0
    } else {
        rewards_coinbase(rewards.drop_last()) + rewards.last().coinbase as nat
    }
}

/// The miner's share and the shares of the first `k` supporters are together
/// at most the share that their commit burns would earn as one.
proof fn lemma_shares_prefix(miner: MinerPaymentSchedule, users: Seq<MinerPaymentSchedule>, k: nat)
    requires
        burn_total(miner, users) > 0,
        k <= users.len(),
    ensures
        participant_share(miner, miner, users) + supporters_share(miner, users, k) <= (
        miner.coinbase as nat * (miner.burnchain_commit_burn as nat + users_burn(
            users.take(k as int),
        ))) / burn_total(miner, users),
    decreases k,
{
    let c = miner.coinbase as nat;
    let t = burn_total(miner, users);
    if k == 0 {
        assert(users.take(0) =~= Seq::<MinerPaymentSchedule>::empty());
    } else {
        lemma_shares_prefix(miner, users, (k - 1) as nat);
        let before = miner.burnchain_commit_burn as nat + users_burn(users.take(k - 1));
        let u = users[k - 1].burnchain_commit_burn as nat;
        assert(users.take(k as int).drop_last() =~= users.take(k - 1));
        assert(users.take(k as int).last() == users[k - 1]);
        lemma_div_superadditive(c * before, c * u, t);
        assert(c * before + c * u == c * (before + u)) by (nonlinear_arith);
    }
}

/// Conservation: the shares of a block's miner and of all its burn
/// supporters are together never more than the block's coinbase. What the
/// rounding leaves over is paid to nobody.
pub proof fn lemma_coinbase_conservation(
    miner: MinerPaymentSchedule,
    users: Seq<MinerPaymentSchedule>,
)
    requires
        burn_total(miner, users) > 0,
    ensures
        participant_share(miner, miner, users) + supporters_share(miner, users, users.len())
            <= miner.coinbase,
{
    lemma_shares_prefix(miner, users, users.len());
    assert(users.take(users.len() as int) =~= users);
    vstd::arithmetic::div_mod::lemma_div_multiples_vanish(
        miner.coinbase as int,
        burn_total(miner, users) as int,
    );
    assert(miner.coinbase as nat * burn_total(miner, users) == burn_total(miner, users)
        * miner.coinbase as nat) by (nonlinear_arith);
}

/// A miner without burn supporters earns the whole coinbase.
pub proof fn lemma_single_participant_share(miner: MinerPaymentSchedule)
    requires
        miner.burnchain_commit_burn > 0,
    ensures
        participant_share(miner, miner, Seq::empty()) == miner.coinbase,
{
    vstd::arithmetic::div_mod::lemma_div_multiples_vanish(
        miner.coinbase as int,
        miner.burnchain_commit_burn as int,
    );
    assert(miner.coinbase as nat * miner.burnchain_commit_burn as nat
        == miner.burnchain_commit_burn as nat * miner.coinbase as nat) by (nonlinear_arith);
}

/// No reward pays more coinbase than the share of its participant: the
/// commission of a reporter is part of the miner's share.
proof fn lemma_reward_within_share(
    mainnet: bool,
    participant: MinerPaymentSchedule,
    miner: MinerPaymentSchedule,
    users: Seq<MinerPaymentSchedule>,
    poison_reporter_opt: Option<StacksAddress>,
)
    requires
        burn_total(miner, users) > 0,
        participant.burnchain_commit_burn <= burn_total(miner, users),
    ensures
        spec_miner_reward(mainnet, participant, miner, users, poison_reporter_opt).coinbase
            <= participant_share(participant, miner, users),
        participant_share(participant, miner, users) <= miner.coinbase,
{
    let share = participant_share(participant, miner, users);
    lemma_share_bound(
        miner.coinbase as nat,
        participant.burnchain_commit_burn as nat,
        burn_total(miner, users),
    );
    assert((share * 5) / 100 <= share) by (nonlinear_arith);
}

impl StacksChainState {
    /// The commission for the report of a poisoned microblock stream.
    pub fn poison_microblock_commission(coinbase: u128) -> (r: u128)
        ensures
            r == spec_poison_microblock_commission(coinbase as nat),
    {
        let whole: u128 = coinbase / 100;
        let rest: u128 = coinbase % 100;
        assert(whole * 5 + (rest * 5) / 100 == (coinbase * 5) / 100) by (nonlinear_arith)
            requires
                whole == coinbase / 100,
                rest == coinbase % 100,
        ;
        assert(whole * 5 <= coinbase) by (nonlinear_arith)
            requires
                whole == coinbase / 100,
        ;
        whole * POISON_MICROBLOCK_COMMISSION_FRACTION + (rest
            * POISON_MICROBLOCK_COMMISSION_FRACTION) / 100
    }

    /// The sum of the commit burns of a block's miner and burn supporters.
    pub fn total_commit_burn(miner: &MinerPaymentSchedule, users: &Vec<MinerPaymentSchedule>) -> (r:
        u128)
        ensures
            r == burn_total(*miner, users@),
    {
        let mut total: u128 = miner.burnchain_commit_burn as u128;
        let mut i: usize = 0;
        while i < users.len()
            invariant
                0 <= i <= users.len(),
                total == burn_total(*miner, users@.take(i as int)),
                total <= (i + 1) * 0xffff_ffff_ffff_ffff,
            decreases users.len() - i,
        {
            proof {
                lemma_users_burn_push(users@.take(i as int), users@[i as int]);
                assert(users@.take(i as int).push(users@[i as int]) =~= users@.take(i + 1));
            }
            total = total + users[i].burnchain_commit_burn as u128;
            i += 1;
        }
        assert(users@.take(i as int) =~= users@);
        total
    }

    /// Calculates the coinbase reward of one participant of a block, given the
    /// block's miner and the list of its burn supporters.
    ///
    /// With a poison reporter, the reward is made out to the reporter in the
    /// miner's place, and to the burn address in a supporter's place.
    /// Transaction fees are not distributed: the fee fields are zero.
    pub fn calculate_miner_reward(
        mainnet: bool,
        participant: &MinerPaymentSchedule,
        miner: &MinerPaymentSchedule,
        users: &Vec<MinerPaymentSchedule>,
        poison_reporter_opt: Option<&StacksAddress>,
    ) -> (r: MinerReward)
        requires
            burn_total(*miner, users@) > 0,
            miner.coinbase * participant.burnchain_commit_burn <= u128::MAX,
        ensures
            r == spec_miner_reward(
                mainnet,
                *participant,
                *miner,
                users@,
                match poison_reporter_opt {
                    Some(a) => Some(*a),
                    None => None,
                },
            ),
    {
        let burn_total = Self::total_commit_burn(miner, users);
        let this_burn_total: u128 = participant.burnchain_commit_burn as u128;

        // each participant gets a share of the coinbase proportional to the
        // fraction it burned out of all participants' burns
        let coinbase_reward: u128 = (miner.coinbase * this_burn_total) / burn_total;

        let (recipient, coinbase_reward) = match poison_reporter_opt {
            Some(reporter_address) => {
                if participant.address == miner.address {
                    // the reporter, not the miner, gets a fraction of the reward
                    (*reporter_address, Self::poison_microblock_commission(coinbase_reward))
                } else {
                    // supporters of a penalized miner get nothing
                    (StacksAddress::burn_address(mainnet), coinbase_reward)
                }
            },
            None => (participant.address, coinbase_reward),
        };

        MinerReward {
            address: recipient,
            coinbase: coinbase_reward,
            tx_fees_anchored: 0,
            tx_fees_streamed_produced: 0,
            tx_fees_streamed_confirmed: 0,
            vtxindex: miner.vtxindex,
        }
    }

    /// Finds the rewards that mature with `tip`, given the payments scheduled
    /// for the block that matures, the miner's first: the reward of the
    /// miner, the rewards of the burn supporters in the supporters' order,
    /// and the block that they come from.
    ///
    /// Nothing matures until the tip is higher than the maturity window: the
    /// result is then none, whatever was scheduled. Where the ledger holds a
    /// report of a poisoned microblock stream for the block that matures,
    /// the reporter is rewarded in the miner's place.
    pub fn find_mature_miner_rewards(
        clarity_tx: &ClarityDatabase,
        mainnet: bool,
        tip: &StacksHeaderInfo,
        latest_matured_miners: Vec<MinerPaymentSchedule>,
    ) -> (r: Result<Option<(MinerReward, Vec<MinerReward>, MinerRewardInfo)>, Error>)
        requires
            clarity_tx.wf(),
            tip.block_height > MINER_REWARD_MATURITY ==> {
                &&& latest_matured_miners@.len() > 0
                &&& latest_matured_miners@[0].vtxindex == 0
                &&& latest_matured_miners@[0].miner
                &&& burn_total(latest_matured_miners@[0], latest_matured_miners@.skip(1)) > 0
                &&& forall|i: int|
                    0 <= i < latest_matured_miners@.len() ==> latest_matured_miners@[0].coinbase
                        * (#[trigger] latest_matured_miners@[i]).burnchain_commit_burn <= u128::MAX
            },
        ensures
            tip.block_height <= MINER_REWARD_MATURITY ==> r == Ok::<
                Option<(MinerReward, Vec<MinerReward>, MinerRewardInfo)>,
                Error,
            >(None),
            tip.block_height > MINER_REWARD_MATURITY ==> ({
                let miner = latest_matured_miners@[0];
                let users = latest_matured_miners@.skip(1);
                let reporter = spec_poison_reporter(
                    clarity_tx@,
                    (tip.block_height - MINER_REWARD_MATURITY) as u64,
                );
                &&& r matches Ok(Some((miner_reward, user_rewards, reward_info)))
                &&& miner_reward == spec_miner_reward(mainnet, miner, miner, users, reporter)
                &&& user_rewards@.len() == users.len()
                &&& forall|i: int|
                    0 <= i < users.len() ==> #[trigger] user_rewards@[i] == spec_miner_reward(
                        mainnet,
                        users[i],
                        miner,
                        users,
                        reporter,
                    )
                &&& reward_info == (MinerRewardInfo {
                    from_stacks_block_hash: miner.block_hash,
                    from_block_consensus_hash: miner.consensus_hash,
                })
                &&& miner_reward.coinbase + rewards_coinbase(user_rewards@) <= miner.coinbase
            }),
    {
        if tip.block_height <= MINER_REWARD_MATURITY {
            // no mature rewards exist
            return Ok(None);
        }
        let reward_height = tip.block_height - MINER_REWARD_MATURITY;

        let mut latest_matured_miners = latest_matured_miners;
        let ghost scheduled = latest_matured_miners@;
        let users = latest_matured_miners.split_off(1);
        let miner = latest_matured_miners[0];
        assert(users@ =~= scheduled.skip(1));

        let reward_info = MinerRewardInfo {
            from_stacks_block_hash: miner.block_hash,
            from_block_consensus_hash: miner.consensus_hash,
        };

        // was this block penalized for a forked microblock stream? If so, the
        // principal that reported it is rewarded instead
        let poison_recipient_opt = match Self::get_poison_microblock_report(
            clarity_tx,
            reward_height,
        ) {
            Ok(Some((reporter, _))) => Some(reporter),
            Ok(None) => None,
            Err(e) => {
                return Err(e);
            },
        };
        let ghost reporter = spec_poison_reporter(clarity_tx@, reward_height);
        assert(poison_recipient_opt == reporter);

        assert(scheduled[0] == miner);
        let miner_reward = Self::calculate_miner_reward(
            mainnet,
            &miner,
            &miner,
            &users,
            poison_recipient_opt.as_ref(),
        );
        proof {
            lemma_reward_within_share(mainnet, miner, miner, users@, reporter);
        }

        let mut user_rewards: Vec<MinerReward> = Vec::new();
        let mut i: usize = 0;
        while i < users.len()
            invariant
                0 <= i <= users@.len(),
                users@ == scheduled.skip(1),
                miner == scheduled[0],
                scheduled.len() > 0,
                reporter == poison_recipient_opt,
                burn_total(miner, users@) > 0,
                forall|j: int|
                    0 <= j < scheduled.len() ==> miner.coinbase * (
                    #[trigger] scheduled[j]).burnchain_commit_burn <= u128::MAX,
                user_rewards@.len() == i,
                forall|j: int|
                    0 <= j < i ==> #[trigger] user_rewards@[j] == spec_miner_reward(
                        mainnet,
                        users@[j],
                        miner,
                        users@,
                        reporter,
                    ),
                rewards_coinbase(user_rewards@) <= supporters_share(miner, users@, i as nat),
            decreases users@.len() - i,
        {
            assert(users@[i as int] == scheduled[i + 1]);
            let reward = Self::calculate_miner_reward(
                mainnet,
                &users[i],
                &miner,
                &users,
                poison_recipient_opt.as_ref(),
            );
            proof {
                lemma_user_burn_in_total(users@, i as int);
                lemma_reward_within_share(mainnet, users@[i as int], miner, users@, reporter);
                assert(user_rewards@.push(reward).drop_last() =~= user_rewards@);
            }
            user_rewards.push(reward);
            i += 1;
        }
        proof {
            lemma_coinbase_conservation(miner, users@);
        }
        Ok(Some((miner_reward, user_rewards, reward_info)))
    }
}

/// Who reported a poisoned microblock stream for the block at `height`, by
/// the ledger's reports, if anyone.
pub open spec fn spec_poison_reporter(ledger: LedgerView, height: u64) -> Option<StacksAddress> {
    if ledger.poison_reports.contains_key(height as u32) {
        Some(StacksAddress::spec_from_standard(ledger.poison_reports[height as u32].0))
    } else {
        None
    }
}

/// The ledger after one reward is paid: everything that the reward pays is
/// added to what the account of its address can spend.
pub open spec fn reward_credited(ledger: LedgerView, reward: MinerReward) -> LedgerView {
    let principal = PrincipalView::Standard(reward.address.spec_to_standard());
    ledger.with_stx_balance(
        principal,
        ledger.available_balance(principal).credited(reward.spec_total() as u128),
    )
}

/// The ledger after a list of rewards is paid, one after the other.
pub open spec fn rewards_credited(ledger: LedgerView, rewards: Seq<MinerReward>) -> LedgerView
    decreases rewards.len(),
{
    if rewards.len() == 0 {
        ledger
    } else {
        reward_credited(rewards_credited(ledger, rewards.drop_last()), rewards.last())
    }
}

/// Whether a reward can be paid: what it pays is an amount that the machine
/// can hold, and so is the whole balance of its account afterwards.
pub open spec fn reward_creditable(ledger: LedgerView, reward: MinerReward) -> bool {
    let principal = PrincipalView::Standard(reward.address.spec_to_standard());
    &&& reward.spec_total() <= u128::MAX
    &&& ledger.stx_balance(principal).held() + reward.spec_total() <= u128::MAX
}

/// Whether each reward of a list can be paid when its turn comes.
pub open spec fn rewards_creditable(ledger: LedgerView, rewards: Seq<MinerReward>) -> bool
    decreases rewards.len(),
{
    rewards.len() == 0 || (rewards_creditable(ledger, rewards.drop_last()) && reward_creditable(
        rewards_credited(ledger, rewards.drop_last()),
        rewards.last(),
    ))
}

impl StacksChainState {
    /// Pays one matured reward: everything that it pays is credited to the
    /// account of its address.
    pub fn process_matured_miner_reward(
        clarity_tx: &mut ClarityDatabase,
        miner_reward: &MinerReward,
    )
        requires
            old(clarity_tx).wf(),
            reward_creditable(old(clarity_tx)@, *miner_reward),
        ensures
            final(clarity_tx).wf(),
            final(clarity_tx)@ == reward_credited(old(clarity_tx)@, *miner_reward),
    {
        let miner_reward_total = miner_reward.total();
        let miner_principal = miner_reward.address.to_account_principal();
        let mut snapshot = clarity_tx.get_stx_balance_snapshot(&miner_principal);
        snapshot.credit(miner_reward_total);
        snapshot.save(clarity_tx);
    }

    /// Pays the matured rewards of a block, the miner's first and then those
    /// of the burn supporters in their order, and returns the coinbase that
    /// they pay together.
    pub fn process_matured_miner_rewards(
        clarity_tx: &mut ClarityDatabase,
        miner_reward: &MinerReward,
        users: &Vec<MinerReward>,
    ) -> (r: u128)
        requires
            old(clarity_tx).wf(),
            rewards_creditable(old(clarity_tx)@, seq![*miner_reward] + users@),
            miner_reward.coinbase + rewards_coinbase(users@) <= u128::MAX,
        ensures
            final(clarity_tx).wf(),
            final(clarity_tx)@ == rewards_credited(old(clarity_tx)@, seq![*miner_reward] + users@),
            r == miner_reward.coinbase + rewards_coinbase(users@),
    {
        let ghost all = seq![*miner_reward] + users@;
        let ghost before = clarity_tx@;
        proof {
            lemma_rewards_creditable_prefix(before, all, 1);
            assert(all.take(1).drop_last() =~= Seq::<MinerReward>::empty());
            assert(all.take(1).last() == *miner_reward);
            assert(users@.take(0) =~= Seq::<MinerReward>::empty());
        }
        let mut coinbase_reward: u128 = miner_reward.coinbase;
        Self::process_matured_miner_reward(clarity_tx, miner_reward);
        let mut i: usize = 0;
        while i < users.len()
            invariant
                0 <= i <= users@.len(),
                all == seq![*miner_reward] + users@,
                clarity_tx.wf(),
                rewards_creditable(before, all),
                clarity_tx@ == rewards_credited(before, all.take(i + 1)),
                coinbase_reward == miner_reward.coinbase + rewards_coinbase(users@.take(i as int)),
                miner_reward.coinbase + rewards_coinbase(users@) <= u128::MAX,
            decreases users@.len() - i,
        {
            proof {
                lemma_rewards_creditable_prefix(before, all, i + 2);
                assert(all.take(i + 2).drop_last() =~= all.take(i + 1));
                assert(all.take(i + 2).last() == users@[i as int]);
                assert(users@.take(i + 1).drop_last() =~= users@.take(i as int));
                lemma_rewards_coinbase_prefix(users@, i + 1);
            }
            coinbase_reward = coinbase_reward + users[i].coinbase;
            Self::process_matured_miner_reward(clarity_tx, &users[i]);
            i += 1;
        }
        proof {
            assert(all.take(i + 1) =~= all);
            assert(users@.take(i as int) =~= users@);
        }
        coinbase_reward
    }
}

/// Where a list of rewards can be paid, so can the first of them.
proof fn lemma_rewards_creditable_prefix(ledger: LedgerView, rewards: Seq<MinerReward>, k: int)
    requires
        0 <= k <= rewards.len(),
        rewards_creditable(ledger, rewards),
    ensures
        rewards_creditable(ledger, rewards.take(k)),
    decreases rewards.len() - k,
{
    if k < rewards.len() {
        lemma_rewards_creditable_prefix(ledger, rewards, k + 1);
        assert(rewards.take(k + 1).drop_last() =~= rewards.take(k));
    } else {
        assert(rewards.take(k) =~= rewards);
    }
}

/// The first rewards of a list pay no more coinbase than all of them.
proof fn lemma_rewards_coinbase_prefix(rewards: Seq<MinerReward>, k: int)
    requires
        0 <= k <= rewards.len(),
    ensures
        rewards_coinbase(rewards.take(k)) <= rewards_coinbase(rewards),
    decreases rewards.len() - k,
{
    if k < rewards.len() {
        lemma_rewards_coinbase_prefix(rewards, k + 1);
        assert(rewards.take(k + 1).drop_last() =~= rewards.take(k));
    } else {
        assert(rewards.take(k) =~= rewards);
    }
}

} // verus!
