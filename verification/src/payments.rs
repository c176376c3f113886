//! Scheduled payments: the rows that record, at a block's acceptance, what its
//! miner and its burn supporters are owed once the block has matured.

use crate::accounts::StacksChainState;
use crate::decimal::{
    decimal_text, lemma_decimal_round_trip, parse_decimal, text_to_u128, u128_to_text,
};
use crate::errors::{DBError, Error};
use crate::rewards::MINER_REWARD_MATURITY;
use crate::types::{BlockHeaderHash, ConsensusHash, StacksAddress};
use crate::values::byte_vec_clone;
use vstd::prelude::*;

verus! {

/// A scheduled reward: one per block for its miner (`miner`, `vtxindex` 0) and
/// one for each burn supporter (`vtxindex` above 0).
#[derive(Clone, Copy, Debug, PartialEq, Eq)]
pub struct MinerPaymentSchedule {
    pub address: StacksAddress,
    pub block_hash: BlockHeaderHash,
    pub consensus_hash: ConsensusHash,
    pub parent_block_hash: BlockHeaderHash,
    pub parent_consensus_hash: ConsensusHash,
    pub coinbase: u128,
    pub tx_fees_anchored: u128,
    pub tx_fees_streamed: u128,
    pub stx_burns: u128,
    pub burnchain_commit_burn: u64,
    pub burnchain_sortition_burn: u64,
    pub fill: u64,
    pub miner: bool,
    pub stacks_block_height: u64,
    pub vtxindex: u32,
}

/// A burn that a user made in support of a block's miner.
#[derive(Clone, Copy, Debug, PartialEq, Eq)]
pub struct StagingUserBurnSupport {
    pub consensus_hash: ConsensusHash,
    pub anchored_block_hash: BlockHeaderHash,
    pub address: StacksAddress,
    pub burn_amount: u64,
    pub vtxindex: u32,
}

/// What this core reads of a block's header.
#[derive(Clone, Copy, Debug, PartialEq, Eq)]
pub struct StacksHeaderInfo {
    pub block_hash: BlockHeaderHash,
    pub block_height: u64,
    pub consensus_hash: ConsensusHash,
}

/// A row of the payments table. The amounts that are wider than the table's
/// integer columns are kept as decimal text; the others as signed integers.
#[derive(Debug, PartialEq, Eq)]
pub struct PaymentRow {
    pub address: StacksAddress,
    pub block_hash: BlockHeaderHash,
    pub consensus_hash: ConsensusHash,
    pub parent_block_hash: BlockHeaderHash,
    pub parent_consensus_hash: ConsensusHash,
    pub coinbase: Vec<u8>,
    pub tx_fees_anchored: Vec<u8>,
    pub tx_fees_streamed: Vec<u8>,
    pub stx_burns: Vec<u8>,
    pub burnchain_commit_burn: i64,
    pub burnchain_sortition_burn: i64,
    pub fill: Vec<u8>,
    pub stacks_block_height: i64,
    pub miner: bool,
    pub vtxindex: u32,
}

/// What a row of the payments table holds.
pub struct PaymentRowView {
    pub address: StacksAddress,
    pub block_hash: BlockHeaderHash,
    pub consensus_hash: ConsensusHash,
    pub parent_block_hash: BlockHeaderHash,
    pub parent_consensus_hash: ConsensusHash,
    pub coinbase: Seq<u8>,
    pub tx_fees_anchored: Seq<u8>,
    pub tx_fees_streamed: Seq<u8>,
    pub stx_burns: Seq<u8>,
    pub burnchain_commit_burn: i64,
    pub burnchain_sortition_burn: i64,
    pub fill: Seq<u8>,
    pub stacks_block_height: i64,
    pub miner: bool,
    pub vtxindex: u32,
}

impl View for PaymentRow {
    type V = PaymentRowView;

    open spec fn view(&self) -> PaymentRowView {
        PaymentRowView {
            address: self.address,
            block_hash: self.block_hash,
            consensus_hash: self.consensus_hash,
            parent_block_hash: self.parent_block_hash,
            parent_consensus_hash: self.parent_consensus_hash,
            coinbase: self.coinbase@,
            tx_fees_anchored: self.tx_fees_anchored@,
            tx_fees_streamed: self.tx_fees_streamed@,
            stx_burns: self.stx_burns@,
            burnchain_commit_burn: self.burnchain_commit_burn,
            burnchain_sortition_burn: self.burnchain_sortition_burn,
            fill: self.fill@,
            stacks_block_height: self.stacks_block_height,
            miner: self.miner,
            vtxindex: self.vtxindex,
        }
    }
}

impl Clone for PaymentRow {
    fn clone(&self) -> (r: Self)
        ensures
            r@ == self@,
    {
        PaymentRow {
            address: self.address,
            block_hash: self.block_hash,
            consensus_hash: self.consensus_hash,
            parent_block_hash: self.parent_block_hash,
            parent_consensus_hash: self.parent_consensus_hash,
            coinbase: byte_vec_clone(&self.coinbase),
            tx_fees_anchored: byte_vec_clone(&self.tx_fees_anchored),
            tx_fees_streamed: byte_vec_clone(&self.tx_fees_streamed),
            stx_burns: byte_vec_clone(&self.stx_burns),
            burnchain_commit_burn: self.burnchain_commit_burn,
            burnchain_sortition_burn: self.burnchain_sortition_burn,
            fill: byte_vec_clone(&self.fill),
            stacks_block_height: self.stacks_block_height,
            miner: self.miner,
            vtxindex: self.vtxindex,
        }
    }
}

/// The largest number that an integer column of the table holds.
pub const SQL_INTEGER_MAX: u64 = 0x7fff_ffff_ffff_ffff;

/// The row that schedules the payment of a block's miner.
pub open spec fn miner_row(block_reward: MinerPaymentSchedule) -> PaymentRowView {
    PaymentRowView {
        address: block_reward.address,
        block_hash: block_reward.block_hash,
        consensus_hash: block_reward.consensus_hash,
        parent_block_hash: block_reward.parent_block_hash,
        parent_consensus_hash: block_reward.parent_consensus_hash,
        coinbase: decimal_text(block_reward.coinbase as nat),
        tx_fees_anchored: decimal_text(block_reward.tx_fees_anchored as nat),
        tx_fees_streamed: decimal_text(block_reward.tx_fees_streamed as nat),
        stx_burns: decimal_text(block_reward.stx_burns as nat),
        burnchain_commit_burn: block_reward.burnchain_commit_burn as i64,
        burnchain_sortition_burn: block_reward.burnchain_sortition_burn as i64,
        fill: decimal_text(block_reward.fill as nat),
        stacks_block_height: block_reward.stacks_block_height as i64,
        miner: true,
        vtxindex: 0,
    }
}

/// The row that schedules the payment of one burn supporter of a block: it
/// shares the block's coinbase as declared, and carries no fees and no burns.
pub open spec fn user_row(
    block_reward: MinerPaymentSchedule,
    user_support: StagingUserBurnSupport,
) -> PaymentRowView {
    PaymentRowView {
        address: user_support.address,
        block_hash: block_reward.block_hash,
        consensus_hash: block_reward.consensus_hash,
        parent_block_hash: block_reward.parent_block_hash,
        parent_consensus_hash: block_reward.parent_consensus_hash,
        coinbase: decimal_text(block_reward.coinbase as nat),
        tx_fees_anchored: decimal_text(0),
        tx_fees_streamed: decimal_text(0),
        stx_burns: decimal_text(0),
        burnchain_commit_burn: user_support.burn_amount as i64,
        burnchain_sortition_burn: block_reward.burnchain_sortition_burn as i64,
        fill: decimal_text(block_reward.fill as nat),
        stacks_block_height: block_reward.stacks_block_height as i64,
        miner: false,
        vtxindex: user_support.vtxindex,
    }
}

/// The scheduled reward that a row of the payments table records. A row with
/// a negative number, or with a text that writes no number of the column's
/// width, records none.
pub open spec fn spec_from_row(row: PaymentRowView) -> Result<MinerPaymentSchedule, DBError> {
    let coinbase = parse_decimal(row.coinbase, u128::MAX as nat);
    let tx_fees_anchored = parse_decimal(row.tx_fees_anchored, u128::MAX as nat);
    let tx_fees_streamed = parse_decimal(row.tx_fees_streamed, u128::MAX as nat);
    let stx_burns = parse_decimal(row.stx_burns, u128::MAX as nat);
    let fill = parse_decimal(row.fill, u64::MAX as nat);
    if row.burnchain_commit_burn >= 0 && row.burnchain_sortition_burn >= 0
        && row.stacks_block_height >= 0 && coinbase is Some && tx_fees_anchored is Some
        && tx_fees_streamed is Some && stx_burns is Some && fill is Some {
        Ok(
            MinerPaymentSchedule {
                address: row.address,
                block_hash: row.block_hash,
                consensus_hash: row.consensus_hash,
                parent_block_hash: row.parent_block_hash,
                parent_consensus_hash: row.parent_consensus_hash,
                coinbase: coinbase->0 as u128,
                tx_fees_anchored: tx_fees_anchored->0 as u128,
                tx_fees_streamed: tx_fees_streamed->0 as u128,
                stx_burns: stx_burns->0 as u128,
                burnchain_commit_burn: row.burnchain_commit_burn as u64,
                burnchain_sortition_burn: row.burnchain_sortition_burn as u64,
                fill: fill->0 as u64,
                miner: row.miner,
                stacks_block_height: row.stacks_block_height as u64,
                vtxindex: row.vtxindex,
            },
        )
    } else {
        Err(DBError::ParseError)
    }
}

/// The scheduled rewards that a list of rows records, in the rows' order, or
/// the failure of the first row that records none.
pub open spec fn spec_from_rows(rows: Seq<PaymentRowView>) -> Result<
    Seq<MinerPaymentSchedule>,
    DBError,
>
    decreases rows.len(),
{
    if rows.len() == 0 {
        Ok(Seq::empty())
    } else {
        match spec_from_rows(rows.drop_last()) {
            Err(e) => Err(e),
            Ok(schedules) => match spec_from_row(rows.last()) {
                Err(e) => Err(e),
                Ok(schedule) => Ok(schedules.push(schedule)),
            },
        }
    }
}

/// The views of a list of rows.
pub open spec fn row_views(rows: Seq<PaymentRow>) -> Seq<PaymentRowView> {
    rows.map_values(|row: PaymentRow| row@)
}

/// A number of an integer column, as the unsigned number that it stands for.
fn u64_from_sql(x: i64) -> (r: Option<u64>)
    ensures
        r == if x >= 0 {
            Some(x as u64)
        } else {
            None
        },
{
    if x >= 0 {
        Some(x as u64)
    } else {
        None
    }
}

impl MinerPaymentSchedule {
    /// Reads a scheduled reward from a row of the payments table.
    pub fn from_row(row: &PaymentRow) -> (r: Result<MinerPaymentSchedule, DBError>)
        ensures
            r == spec_from_row(row@),
    {
        let burnchain_commit_burn = match u64_from_sql(row.burnchain_commit_burn) {
            Some(x) => x,
            None => {
                return Err(DBError::ParseError);
            },
        };
        let burnchain_sortition_burn = match u64_from_sql(row.burnchain_sortition_burn) {
            Some(x) => x,
            None => {
                return Err(DBError::ParseError);
            },
        };
        let stacks_block_height = match u64_from_sql(row.stacks_block_height) {
            Some(x) => x,
            None => {
                return Err(DBError::ParseError);
            },
        };
        let coinbase = match text_to_u128(&row.coinbase, u128::MAX) {
            Some(x) => x,
            None => {
                return Err(DBError::ParseError);
            },
        };
        let tx_fees_anchored = match text_to_u128(&row.tx_fees_anchored, u128::MAX) {
            Some(x) => x,
            None => {
                return Err(DBError::ParseError);
            },
        };
        let tx_fees_streamed = match text_to_u128(&row.tx_fees_streamed, u128::MAX) {
            Some(x) => x,
            None => {
                return Err(DBError::ParseError);
            },
        };
        let stx_burns = match text_to_u128(&row.stx_burns, u128::MAX) {
            Some(x) => x,
            None => {
                return Err(DBError::ParseError);
            },
        };
        let fill = match text_to_u128(&row.fill, 0xffff_ffff_ffff_ffff) {
            Some(x) => x as u64,
            None => {
                return Err(DBError::ParseError);
            },
        };
        Ok(
            MinerPaymentSchedule {
                address: row.address,
                block_hash: row.block_hash,
                consensus_hash: row.consensus_hash,
                parent_block_hash: row.parent_block_hash,
                parent_consensus_hash: row.parent_consensus_hash,
                coinbase,
                tx_fees_anchored,
                tx_fees_streamed,
                stx_burns,
                burnchain_commit_burn,
                burnchain_sortition_burn,
                fill,
                miner: row.miner,
                stacks_block_height,
                vtxindex: row.vtxindex,
            },
        )
    }

    /// Reads the scheduled rewards of a list of rows, in the rows' order.
    /// Fails where one of the rows cannot be read.
    pub fn from_rows(rows: &Vec<PaymentRow>) -> (r: Result<Vec<MinerPaymentSchedule>, DBError>)
        ensures
            match r {
                Ok(schedules) => spec_from_rows(row_views(rows@)) == Ok::<
                    Seq<MinerPaymentSchedule>,
                    DBError,
                >(schedules@),
                Err(e) => spec_from_rows(row_views(rows@)) == Err::<
                    Seq<MinerPaymentSchedule>,
                    DBError,
                >(e),
            },
    {
        let mut schedules: Vec<MinerPaymentSchedule> = Vec::new();
        let mut i: usize = 0;
        let ghost views = row_views(rows@);
        assert(views.take(0) =~= Seq::<PaymentRowView>::empty());
        while i < rows.len()
            invariant
                0 <= i <= rows@.len(),
                views == row_views(rows@),
                spec_from_rows(views.take(i as int)) == Ok::<Seq<MinerPaymentSchedule>, DBError>(
                    schedules@,
                ),
            decreases rows@.len() - i,
        {
            proof {
                assert(views.take(i + 1).drop_last() =~= views.take(i as int));
                assert(views.take(i + 1).last() == rows@[i as int]@);
            }
            match Self::from_row(&rows[i]) {
                Ok(schedule) => {
                    schedules.push(schedule);
                },
                Err(e) => {
                    proof {
                        lemma_from_rows_fails(views, i + 1);
                    }
                    return Err(e);
                },
            }
            i += 1;
        }
        assert(views.take(i as int) =~= views);
        Ok(schedules)
    }
}

/// Where the first rows of a list cannot all be read, the list cannot be.
proof fn lemma_from_rows_fails(rows: Seq<PaymentRowView>, k: int)
    requires
        0 <= k <= rows.len(),
        spec_from_rows(rows.take(k)) is Err,
    ensures
        spec_from_rows(rows) == Err::<Seq<MinerPaymentSchedule>, DBError>(DBError::ParseError),
    decreases rows.len() - k,
{
    lemma_from_rows_error(rows.take(k));
    if k < rows.len() {
        assert(rows.take(k + 1).drop_last() =~= rows.take(k));
        lemma_from_rows_fails(rows, k + 1);
    } else {
        assert(rows.take(k) =~= rows);
    }
}

/// The only failure of reading rows is that a column does not hold what it
/// should.
proof fn lemma_from_rows_error(rows: Seq<PaymentRowView>)
    ensures
        spec_from_rows(rows) is Err ==> spec_from_rows(rows) == Err::<
            Seq<MinerPaymentSchedule>,
            DBError,
        >(DBError::ParseError),
    decreases rows.len(),
{
    if rows.len() > 0 {
        lemma_from_rows_error(rows.drop_last());
    }
}

/// The rows that schedule the payments of a list of burn supporters, in the
/// supporters' order.
pub open spec fn user_rows(
    block_reward: MinerPaymentSchedule,
    user_burns: Seq<StagingUserBurnSupport>,
) -> Seq<PaymentRowView> {
    user_burns.map_values(
        |user_support: StagingUserBurnSupport| user_row(block_reward, user_support),
    )
}

/// A number below the largest of an integer column, as the column holds it.
fn u64_to_sql(x: u64) -> (r: i64)
    requires
        x < SQL_INTEGER_MAX,
    ensures
        r == x as i64,
        r >= 0,
        r == x,
{
    x as i64
}

/// The row that schedules the payment of a block's miner.
fn make_miner_row(block_reward: &MinerPaymentSchedule) -> (r: PaymentRow)
    requires
        block_reward.burnchain_commit_burn < SQL_INTEGER_MAX,
        block_reward.burnchain_sortition_burn < SQL_INTEGER_MAX,
        block_reward.stacks_block_height < SQL_INTEGER_MAX,
    ensures
        r@ == miner_row(*block_reward),
{
    PaymentRow {
        address: block_reward.address,
        block_hash: block_reward.block_hash,
        consensus_hash: block_reward.consensus_hash,
        parent_block_hash: block_reward.parent_block_hash,
        parent_consensus_hash: block_reward.parent_consensus_hash,
        coinbase: u128_to_text(block_reward.coinbase),
        tx_fees_anchored: u128_to_text(block_reward.tx_fees_anchored),
        tx_fees_streamed: u128_to_text(block_reward.tx_fees_streamed),
        stx_burns: u128_to_text(block_reward.stx_burns),
        burnchain_commit_burn: u64_to_sql(block_reward.burnchain_commit_burn),
        burnchain_sortition_burn: u64_to_sql(block_reward.burnchain_sortition_burn),
        fill: u128_to_text(block_reward.fill as u128),
        stacks_block_height: u64_to_sql(block_reward.stacks_block_height),
        miner: true,
        vtxindex: 0,
    }
}

/// The row that schedules the payment of one burn supporter of a block.
fn make_user_row(block_reward: &MinerPaymentSchedule, user_support: &StagingUserBurnSupport) -> (r:
    PaymentRow)
    requires
        block_reward.burnchain_sortition_burn < SQL_INTEGER_MAX,
        block_reward.stacks_block_height < SQL_INTEGER_MAX,
        user_support.burn_amount < SQL_INTEGER_MAX,
    ensures
        r@ == user_row(*block_reward, *user_support),
{
    PaymentRow {
        address: user_support.address,
        block_hash: block_reward.block_hash,
        consensus_hash: block_reward.consensus_hash,
        parent_block_hash: block_reward.parent_block_hash,
        parent_consensus_hash: block_reward.parent_consensus_hash,
        coinbase: u128_to_text(block_reward.coinbase),
        tx_fees_anchored: u128_to_text(0),
        tx_fees_streamed: u128_to_text(0),
        stx_burns: u128_to_text(0),
        burnchain_commit_burn: u64_to_sql(user_support.burn_amount),
        burnchain_sortition_burn: u64_to_sql(block_reward.burnchain_sortition_burn),
        fill: u128_to_text(block_reward.fill as u128),
        stacks_block_height: u64_to_sql(block_reward.stacks_block_height),
        miner: false,
        vtxindex: user_support.vtxindex,
    }
}

/// The scheduled reward that the row of a burn supporter records.
pub open spec fn user_schedule(
    block_reward: MinerPaymentSchedule,
    user_support: StagingUserBurnSupport,
) -> MinerPaymentSchedule {
    MinerPaymentSchedule {
        address: user_support.address,
        tx_fees_anchored: 0,
        tx_fees_streamed: 0,
        stx_burns: 0,
        burnchain_commit_burn: user_support.burn_amount,
        miner: false,
        vtxindex: user_support.vtxindex,
        ..block_reward
    }
}

/// What is stored is what is read: the row of a block's miner records the
/// miner's scheduled reward, as a reward of the miner with index 0.
pub proof fn lemma_miner_row_round_trip(block_reward: MinerPaymentSchedule)
    requires
        block_reward.burnchain_commit_burn < SQL_INTEGER_MAX,
        block_reward.burnchain_sortition_burn < SQL_INTEGER_MAX,
        block_reward.stacks_block_height < SQL_INTEGER_MAX,
    ensures
        spec_from_row(miner_row(block_reward)) == Ok::<MinerPaymentSchedule, DBError>(
            MinerPaymentSchedule { miner: true, vtxindex: 0, ..block_reward },
        ),
{
    lemma_decimal_round_trip(block_reward.coinbase as nat, u128::MAX as nat);
    lemma_decimal_round_trip(block_reward.tx_fees_anchored as nat, u128::MAX as nat);
    lemma_decimal_round_trip(block_reward.tx_fees_streamed as nat, u128::MAX as nat);
    lemma_decimal_round_trip(block_reward.stx_burns as nat, u128::MAX as nat);
    lemma_decimal_round_trip(block_reward.fill as nat, u64::MAX as nat);
}

/// What is stored is what is read: the row of a burn supporter records the
/// supporter's scheduled reward.
pub proof fn lemma_user_row_round_trip(
    block_reward: MinerPaymentSchedule,
    user_support: StagingUserBurnSupport,
)
    requires
        block_reward.burnchain_sortition_burn < SQL_INTEGER_MAX,
        block_reward.stacks_block_height < SQL_INTEGER_MAX,
        user_support.burn_amount < SQL_INTEGER_MAX,
    ensures
        spec_from_row(user_row(block_reward, user_support)) == Ok::<MinerPaymentSchedule, DBError>(
            user_schedule(block_reward, user_support),
        ),
{
    lemma_decimal_round_trip(block_reward.coinbase as nat, u128::MAX as nat);
    lemma_decimal_round_trip(0, u128::MAX as nat);
    lemma_decimal_round_trip(block_reward.fill as nat, u64::MAX as nat);
}

impl StacksChainState {
    /// Schedules the payments of a block: the rows to insert into the
    /// payments table, all or none of them, the miner's first and then one
    /// for each burn supporter in the supporters' order.
    pub fn insert_miner_payment_schedule(
        block_reward: &MinerPaymentSchedule,
        user_burns: &Vec<StagingUserBurnSupport>,
    ) -> (r: Vec<PaymentRow>)
        requires
            block_reward.burnchain_commit_burn < SQL_INTEGER_MAX,
            block_reward.burnchain_sortition_burn < SQL_INTEGER_MAX,
            block_reward.stacks_block_height < SQL_INTEGER_MAX,
            forall|i: int|
                0 <= i < user_burns@.len() ==> (#[trigger] user_burns@[i]).burn_amount
                    < SQL_INTEGER_MAX,
        ensures
            row_views(r@) == seq![miner_row(*block_reward)] + user_rows(
                *block_reward,
                user_burns@,
            ),
    {
        let mut rows: Vec<PaymentRow> = Vec::new();
        rows.push(make_miner_row(block_reward));
        let ghost expected = seq![miner_row(*block_reward)] + user_rows(
            *block_reward,
            user_burns@,
        );
        assert(row_views(rows@) =~= expected.take(1));
        let mut i: usize = 0;
        while i < user_burns.len()
            invariant
                0 <= i <= user_burns@.len(),
                block_reward.burnchain_sortition_burn < SQL_INTEGER_MAX,
                block_reward.stacks_block_height < SQL_INTEGER_MAX,
                forall|j: int|
                    0 <= j < user_burns@.len() ==> (#[trigger] user_burns@[j]).burn_amount
                        < SQL_INTEGER_MAX,
                expected == seq![miner_row(*block_reward)] + user_rows(
                    *block_reward,
                    user_burns@,
                ),
                row_views(rows@) == expected.take(i + 1),
            decreases user_burns@.len() - i,
        {
            let ghost before = rows@;
            rows.push(make_user_row(block_reward, &user_burns[i]));
            assert(row_views(rows@) =~= row_views(before).push(
                user_row(*block_reward, user_burns@[i as int]),
            ));
            assert(expected.take(i + 2) =~= expected.take(i + 1).push(expected[i + 1]));
            i += 1;
        }
        assert(expected.take(i + 1) =~= expected);
        rows
    }

    /// The height of the block whose rewards mature with `tip`: none while
    /// the chain is shorter than the maturity window.
    pub fn scheduled_rewards_height(tip: &StacksHeaderInfo) -> (r: Option<u64>)
        ensures
            r == if tip.block_height < MINER_REWARD_MATURITY {
                None
            } else {
                Some((tip.block_height - MINER_REWARD_MATURITY) as u64)
            },
    {
        if tip.block_height < MINER_REWARD_MATURITY {
            None
        } else {
            Some(tip.block_height - MINER_REWARD_MATURITY)
        }
    }

    /// The block and consensus hashes by which the payments of a fork's block
    /// at some height are selected from the table, given the fork's block at
    /// that height: none where the fork has no block there.
    pub fn scheduled_rewards_selection(ancestor_info: &Option<StacksHeaderInfo>) -> (r: Option<
        (BlockHeaderHash, ConsensusHash),
    >)
        ensures
            r == match *ancestor_info {
                Some(info) => Some((info.block_hash, info.consensus_hash)),
                None => None,
            },
    {
        match ancestor_info {
            Some(info) => Some((info.block_hash, info.consensus_hash)),
            None => None,
        }
    }

    /// The rewards scheduled in a fork at some height, given the fork's block
    /// at that height and the rows of the payments table that were selected
    /// by that block's hashes, in the order of their indexes.
    ///
    /// Where the fork has no block at that height the result is empty,
    /// whatever the rows. Fails where a row cannot be read.
    pub fn get_scheduled_block_rewards_in_fork_at_height(
        ancestor_info: &Option<StacksHeaderInfo>,
        rows: &Vec<PaymentRow>,
    ) -> (r: Result<Vec<MinerPaymentSchedule>, Error>)
        ensures
            *ancestor_info is None ==> r is Ok && r->Ok_0@ == Seq::<MinerPaymentSchedule>::empty(),
            *ancestor_info is Some ==> match r {
                Ok(schedules) => spec_from_rows(row_views(rows@)) == Ok::<
                    Seq<MinerPaymentSchedule>,
                    DBError,
                >(schedules@),
                Err(e) => spec_from_rows(row_views(rows@)) is Err && e == Error::DBError(
                    DBError::ParseError,
                ),
            },
    {
        match ancestor_info {
            None => Ok(Vec::new()),
            Some(_) => {
                proof {
                    lemma_from_rows_error(row_views(rows@));
                }
                match MinerPaymentSchedule::from_rows(rows) {
                    Ok(schedules) => Ok(schedules),
                    Err(e) => Err(Error::DBError(e)),
                }
            },
        }
    }

    /// The rewards that mature with `tip`, given the block of the tip's fork
    /// at the height that `scheduled_rewards_height` gives, and the rows
    /// selected by that block's hashes.
    ///
    /// While the chain is shorter than the maturity window the result is
    /// empty.
    pub fn get_scheduled_block_rewards(
        tip: &StacksHeaderInfo,
        ancestor_info: &Option<StacksHeaderInfo>,
        rows: &Vec<PaymentRow>,
    ) -> (r: Result<Vec<MinerPaymentSchedule>, Error>)
        ensures
            tip.block_height < MINER_REWARD_MATURITY || *ancestor_info is None ==> r is Ok
                && r->Ok_0@ == Seq::<MinerPaymentSchedule>::empty(),
            tip.block_height >= MINER_REWARD_MATURITY && *ancestor_info is Some ==> match r {
                Ok(schedules) => spec_from_rows(row_views(rows@)) == Ok::<
                    Seq<MinerPaymentSchedule>,
                    DBError,
                >(schedules@),
                Err(e) => spec_from_rows(row_views(rows@)) is Err && e == Error::DBError(
                    DBError::ParseError,
                ),
            },
    {
        if tip.block_height < MINER_REWARD_MATURITY {
            return Ok(Vec::new());
        }
        Self::get_scheduled_block_rewards_in_fork_at_height(ancestor_info, rows)
    }

    /// The scheduled reward of the miner of a block, given the rows of the
    /// payments table that were selected by the block's hashes and as rows
    /// of a miner: none where there is no such row. Fails where a row cannot
    /// be read.
    ///
    /// A block has one miner: more than one row is for the caller to have
    /// ruled out.
    pub fn get_miner_info(rows: &Vec<PaymentRow>) -> (r: Result<
        Option<MinerPaymentSchedule>,
        Error,
    >)
        requires
            rows@.len() <= 1,
        ensures
            r == if rows@.len() == 0 {
                Ok::<Option<MinerPaymentSchedule>, Error>(None)
            } else {
                match spec_from_row(rows@[0]@) {
                    Ok(schedule) => Ok::<Option<MinerPaymentSchedule>, Error>(Some(schedule)),
                    Err(e) => Err::<Option<MinerPaymentSchedule>, Error>(Error::DBError(e)),
                }
            },
    {
        if rows.len() == 0 {
            return Ok(None);
        }
        match MinerPaymentSchedule::from_row(&rows[0]) {
            Ok(schedule) => Ok(Some(schedule)),
            Err(e) => Err(Error::DBError(e)),
        }
    }
}

} // verus!
