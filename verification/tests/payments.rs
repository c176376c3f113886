use stx_settlement::accounts::StacksChainState;
use stx_settlement::errors::{DBError, Error};
use stx_settlement::payments::{
    MinerPaymentSchedule, PaymentRow, StacksHeaderInfo, StagingUserBurnSupport,
};
use stx_settlement::types::{BlockHeaderHash, ConsensusHash, Hash160, StacksAddress};

/// The address SP1A2K3ENNA6QQ7G8DVJXM24T6QMBDVS7D0TRTAR5.
fn miner_address() -> StacksAddress {
    StacksAddress {
        version: 22,
        bytes: Hash160([
            84, 41, 141, 213, 170, 141, 123, 158, 8, 110, 229, 218, 8, 154, 53, 232, 182, 239, 39,
            104,
        ]),
    }
}

/// The address SP2837ZMC89J40K4YTS64B00M7065C6X46JX6ARG0.
fn user_address() -> StacksAddress {
    StacksAddress {
        version: 22,
        bytes: Hash160([
            144, 51, 254, 140, 66, 100, 64, 76, 158, 214, 76, 69, 128, 20, 56, 12, 86, 27, 164, 52,
        ]),
    }
}

fn dummy_miner_payment_schedule(
    addr: &StacksAddress,
    coinbase: u128,
    tx_fees_anchored: u128,
    tx_fees_streamed: u128,
    commit_burn: u64,
    sortition_burn: u64,
) -> MinerPaymentSchedule {
    MinerPaymentSchedule {
        address: addr.clone(),
        block_hash: BlockHeaderHash([0u8; 32]),
        consensus_hash: ConsensusHash([0u8; 20]),
        parent_block_hash: BlockHeaderHash([0u8; 32]),
        parent_consensus_hash: ConsensusHash([0u8; 20]),
        coinbase,
        tx_fees_anchored,
        tx_fees_streamed,
        stx_burns: 0,
        burnchain_commit_burn: commit_burn,
        burnchain_sortition_burn: sortition_burn,
        fill: 0xffffffffffffffff,
        miner: true,
        stacks_block_height: 0,
        vtxindex: 0,
    }
}

fn dummy_user_payment_schedule(
    addr: &StacksAddress,
    coinbase: u128,
    tx_fees_anchored: u128,
    tx_fees_streamed: u128,
    commit_burn: u64,
    sortition_burn: u64,
    vtxindex: u32,
) -> MinerPaymentSchedule {
    let mut sched = dummy_miner_payment_schedule(
        addr,
        coinbase,
        tx_fees_anchored,
        tx_fees_streamed,
        commit_burn,
        sortition_burn,
    );
    sched.miner = false;
    sched.vtxindex = vtxindex;
    sched
}

fn user_support_of(user: &MinerPaymentSchedule) -> StagingUserBurnSupport {
    StagingUserBurnSupport {
        consensus_hash: user.consensus_hash.clone(),
        anchored_block_hash: user.block_hash.clone(),
        address: user.address.clone(),
        burn_amount: user.burnchain_commit_burn,
        vtxindex: user.vtxindex,
    }
}

/// A chain of blocks with the table of their payments, standing in for the
/// stored chain state.
struct Chain {
    blocks: Vec<StacksHeaderInfo>,
    payments: Vec<PaymentRow>,
}

impl Chain {
    fn genesis() -> Chain {
        Chain {
            blocks: vec![StacksHeaderInfo {
                block_hash: BlockHeaderHash([0u8; 32]),
                block_height: 0,
                consensus_hash: ConsensusHash([0u8; 20]),
            }],
            payments: vec![],
        }
    }

    fn tip(&self) -> StacksHeaderInfo {
        *self.blocks.last().unwrap()
    }

    /// Accepts the next block: its payments are scheduled.
    fn advance_tip(
        &mut self,
        block_reward: &mut MinerPaymentSchedule,
        user_burns: &mut Vec<StagingUserBurnSupport>,
    ) -> StacksHeaderInfo {
        let parent = self.tip();
        let height = parent.block_height + 1;
        let new_tip = StacksHeaderInfo {
            block_hash: BlockHeaderHash([height as u8; 32]),
            block_height: height,
            consensus_hash: ConsensusHash([height as u8; 20]),
        };
        block_reward.parent_consensus_hash = parent.consensus_hash.clone();
        block_reward.parent_block_hash = parent.block_hash.clone();
        block_reward.block_hash = new_tip.block_hash.clone();
        block_reward.consensus_hash = new_tip.consensus_hash.clone();
        for user_burn in user_burns.iter_mut() {
            user_burn.anchored_block_hash = new_tip.block_hash.clone();
            user_burn.consensus_hash = new_tip.consensus_hash.clone();
        }
        let rows = StacksChainState::insert_miner_payment_schedule(block_reward, user_burns);
        self.payments.extend(rows);
        self.blocks.push(new_tip);
        new_tip
    }

    fn get_tip_ancestor(&self, tip: &StacksHeaderInfo, height: u64) -> Option<StacksHeaderInfo> {
        if height > tip.block_height {
            return None;
        }
        self.blocks.iter().find(|b| b.block_height == height).cloned()
    }

    fn select(&self, selection: Option<(BlockHeaderHash, ConsensusHash)>) -> Vec<PaymentRow> {
        let mut rows: Vec<PaymentRow> = match selection {
            None => vec![],
            Some((block_hash, consensus_hash)) => self
                .payments
                .iter()
                .filter(|row| row.block_hash == block_hash && row.consensus_hash == consensus_hash)
                .cloned()
                .collect(),
        };
        rows.sort_by_key(|row| row.vtxindex);
        rows
    }

    fn scheduled_block_rewards_in_fork_at_height(
        &self,
        tip: &StacksHeaderInfo,
        height: u64,
    ) -> Result<Vec<MinerPaymentSchedule>, Error> {
        let ancestor = self.get_tip_ancestor(tip, height);
        let rows = self.select(StacksChainState::scheduled_rewards_selection(&ancestor));
        StacksChainState::get_scheduled_block_rewards_in_fork_at_height(&ancestor, &rows)
    }
}

#[test]
fn load_store_miner_payment_schedule() {
    let mut chainstate = Chain::genesis();
    let miner_1 = miner_address();
    let user_1 = user_address();

    let mut miner_reward = dummy_miner_payment_schedule(&miner_1, 500, 0, 0, 1000, 1000);
    let user_reward = dummy_user_payment_schedule(&user_1, 500, 0, 0, 750, 1000, 1);

    let user_support = user_support_of(&user_reward);
    let mut user_supports = vec![user_support];

    let _parent_tip = chainstate.advance_tip(&mut miner_reward, &mut user_supports);

    // dummy reward
    let mut tip_reward = dummy_miner_payment_schedule(
        &StacksAddress { version: 0, bytes: Hash160([0u8; 20]) },
        0,
        0,
        0,
        0,
        0,
    );
    let tip = chainstate.advance_tip(&mut tip_reward, &mut vec![]);

    {
        let payments_0 = chainstate.scheduled_block_rewards_in_fork_at_height(&tip, 0).unwrap();
        let payments_1 = chainstate.scheduled_block_rewards_in_fork_at_height(&tip, 1).unwrap();
        let payments_2 = chainstate.scheduled_block_rewards_in_fork_at_height(&tip, 2).unwrap();

        let mut expected_user_support = user_reward.clone();
        expected_user_support.consensus_hash = miner_reward.consensus_hash.clone();
        expected_user_support.parent_consensus_hash = miner_reward.parent_consensus_hash.clone();
        expected_user_support.block_hash = miner_reward.block_hash.clone();
        expected_user_support.parent_block_hash = miner_reward.parent_block_hash.clone();

        assert_eq!(payments_0, vec![]);
        assert_eq!(payments_1, vec![miner_reward, expected_user_support]);
        assert_eq!(payments_2, vec![tip_reward]);
    };
}

#[test]
fn no_block_at_the_height_gives_no_payments() {
    let mut chainstate = Chain::genesis();
    let mut miner_reward = dummy_miner_payment_schedule(&miner_address(), 500, 0, 0, 1000, 1000);
    let tip = chainstate.advance_tip(&mut miner_reward, &mut vec![]);
    // the fork has no block at height 7
    assert_eq!(chainstate.scheduled_block_rewards_in_fork_at_height(&tip, 7), Ok(vec![]));
    assert_eq!(StacksChainState::scheduled_rewards_selection(&None), None);
    // whatever rows are handed in
    let rows = StacksChainState::insert_miner_payment_schedule(&miner_reward, &vec![]);
    assert_eq!(
        StacksChainState::get_scheduled_block_rewards_in_fork_at_height(&None, &rows),
        Ok(vec![])
    );
}

#[test]
fn rows_of_a_scheduled_block() {
    let mut miner = dummy_miner_payment_schedule(&miner_address(), 500, 20, 3, 1000, 2000);
    miner.stx_burns = 11;
    miner.stacks_block_height = 42;
    // whatever the schedule says of these, the miner's row is the miner's
    miner.miner = false;
    miner.vtxindex = 9;
    let user = StagingUserBurnSupport {
        consensus_hash: ConsensusHash([1u8; 20]),
        anchored_block_hash: BlockHeaderHash([1u8; 32]),
        address: user_address(),
        burn_amount: 750,
        vtxindex: 4,
    };
    let rows = StacksChainState::insert_miner_payment_schedule(&miner, &vec![user, user]);
    assert_eq!(rows.len(), 3);
    assert_eq!(
        rows[0],
        PaymentRow {
            address: miner_address(),
            block_hash: BlockHeaderHash([0u8; 32]),
            consensus_hash: ConsensusHash([0u8; 20]),
            parent_block_hash: BlockHeaderHash([0u8; 32]),
            parent_consensus_hash: ConsensusHash([0u8; 20]),
            coinbase: b"500".to_vec(),
            tx_fees_anchored: b"20".to_vec(),
            tx_fees_streamed: b"3".to_vec(),
            stx_burns: b"11".to_vec(),
            burnchain_commit_burn: 1000,
            burnchain_sortition_burn: 2000,
            fill: b"18446744073709551615".to_vec(),
            stacks_block_height: 42,
            miner: true,
            vtxindex: 0,
        }
    );
    let user_row = PaymentRow {
        address: user_address(),
        block_hash: BlockHeaderHash([0u8; 32]),
        consensus_hash: ConsensusHash([0u8; 20]),
        parent_block_hash: BlockHeaderHash([0u8; 32]),
        parent_consensus_hash: ConsensusHash([0u8; 20]),
        coinbase: b"500".to_vec(),
        tx_fees_anchored: b"0".to_vec(),
        tx_fees_streamed: b"0".to_vec(),
        stx_burns: b"0".to_vec(),
        burnchain_commit_burn: 750,
        burnchain_sortition_burn: 2000,
        fill: b"18446744073709551615".to_vec(),
        stacks_block_height: 42,
        miner: false,
        vtxindex: 4,
    };
    assert_eq!(rows[1], user_row);
    assert_eq!(rows[2], user_row);
}

fn stored_row() -> PaymentRow {
    let miner = dummy_miner_payment_schedule(&miner_address(), 500, 20, 3, 1000, 2000);
    StacksChainState::insert_miner_payment_schedule(&miner, &vec![]).pop().unwrap()
}

#[test]
fn row_with_malformed_text_is_a_parse_error() {
    assert!(MinerPaymentSchedule::from_row(&stored_row()).is_ok());

    let mut row = stored_row();
    row.coinbase = b"five hundred".to_vec();
    assert_eq!(MinerPaymentSchedule::from_row(&row), Err(DBError::ParseError));

    let mut row = stored_row();
    row.tx_fees_anchored = b"".to_vec();
    assert_eq!(MinerPaymentSchedule::from_row(&row), Err(DBError::ParseError));

    let mut row = stored_row();
    row.tx_fees_streamed = b"-1".to_vec();
    assert_eq!(MinerPaymentSchedule::from_row(&row), Err(DBError::ParseError));

    let mut row = stored_row();
    row.stx_burns = b"340282366920938463463374607431768211456".to_vec();
    assert_eq!(MinerPaymentSchedule::from_row(&row), Err(DBError::ParseError));

    // the fill is a number of 64 bits
    let mut row = stored_row();
    row.fill = b"18446744073709551616".to_vec();
    assert_eq!(MinerPaymentSchedule::from_row(&row), Err(DBError::ParseError));
    row.fill = b"18446744073709551615".to_vec();
    assert_eq!(MinerPaymentSchedule::from_row(&row).unwrap().fill, u64::MAX);
}

#[test]
fn row_with_a_negative_number_is_a_parse_error() {
    let mut row = stored_row();
    row.burnchain_commit_burn = -1;
    assert_eq!(MinerPaymentSchedule::from_row(&row), Err(DBError::ParseError));

    let mut row = stored_row();
    row.burnchain_sortition_burn = i64::MIN;
    assert_eq!(MinerPaymentSchedule::from_row(&row), Err(DBError::ParseError));

    let mut row = stored_row();
    row.stacks_block_height = -7;
    assert_eq!(MinerPaymentSchedule::from_row(&row), Err(DBError::ParseError));

    let mut row = stored_row();
    row.stacks_block_height = i64::MAX;
    assert_eq!(
        MinerPaymentSchedule::from_row(&row).unwrap().stacks_block_height,
        i64::MAX as u64
    );
}

#[test]
fn rows_are_read_in_order_until_one_fails() {
    let good = stored_row();
    let mut bad = stored_row();
    bad.coinbase = b"x".to_vec();
    let first = MinerPaymentSchedule::from_row(&good).unwrap();
    assert_eq!(
        MinerPaymentSchedule::from_rows(&vec![good.clone(), good.clone()]),
        Ok(vec![first, first])
    );
    assert_eq!(
        MinerPaymentSchedule::from_rows(&vec![good.clone(), bad.clone(), good.clone()]),
        Err(DBError::ParseError)
    );
    assert_eq!(MinerPaymentSchedule::from_rows(&vec![]), Ok(vec![]));
    let some_block = Some(StacksHeaderInfo {
        block_hash: BlockHeaderHash([0u8; 32]),
        block_height: 0,
        consensus_hash: ConsensusHash([0u8; 20]),
    });
    assert_eq!(
        StacksChainState::get_scheduled_block_rewards_in_fork_at_height(&some_block, &vec![bad]),
        Err(Error::DBError(DBError::ParseError))
    );
}

#[test]
fn miner_info_of_a_block() {
    assert_eq!(StacksChainState::get_miner_info(&vec![]), Ok(None));
    let row = stored_row();
    let schedule = MinerPaymentSchedule::from_row(&row).unwrap();
    assert!(schedule.miner);
    assert_eq!(schedule.coinbase, 500);
    assert_eq!(StacksChainState::get_miner_info(&vec![row]), Ok(Some(schedule)));
    let mut bad = stored_row();
    bad.fill = b"?".to_vec();
    assert_eq!(
        StacksChainState::get_miner_info(&vec![bad]),
        Err(Error::DBError(DBError::ParseError))
    );
}

#[test]
fn scheduled_rewards_wait_for_the_maturity_window() {
    let tip = |block_height: u64| StacksHeaderInfo {
        block_hash: BlockHeaderHash([5u8; 32]),
        block_height,
        consensus_hash: ConsensusHash([5u8; 20]),
    };
    assert_eq!(StacksChainState::scheduled_rewards_height(&tip(0)), None);
    assert_eq!(StacksChainState::scheduled_rewards_height(&tip(99)), None);
    assert_eq!(StacksChainState::scheduled_rewards_height(&tip(100)), Some(0));
    assert_eq!(StacksChainState::scheduled_rewards_height(&tip(250)), Some(150));

    let rows = vec![stored_row()];
    let schedule = MinerPaymentSchedule::from_row(&rows[0]).unwrap();
    let ancestor = Some(tip(0));
    assert_eq!(StacksChainState::get_scheduled_block_rewards(&tip(99), &ancestor, &rows), Ok(vec![]));
    assert_eq!(
        StacksChainState::get_scheduled_block_rewards(&tip(100), &ancestor, &rows),
        Ok(vec![schedule])
    );
    assert_eq!(StacksChainState::get_scheduled_block_rewards(&tip(100), &None, &rows), Ok(vec![]));
}
