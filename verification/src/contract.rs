//! The output of the pool handler: one record type per event, and the
//! lists of records of one block.

use vstd::prelude::*;
use crate::time::Timestamp;

verus! {

/// The record of a `Burn` event.
#[derive(Clone, Debug, PartialEq, Eq)]
pub struct EthUsdcPoolBurn {
    pub evt_tx_hash: Vec<u8>,
    pub evt_index: u32,
    pub evt_block_time: Option<Timestamp>,
    pub evt_block_number: u64,
    pub amount: String,
    pub amount0: String,
    pub amount1: String,
    pub owner: Vec<u8>,
    pub tick_lower: i64,
    pub tick_upper: i64,
}

/// A `Burn` record as plain values.
pub struct EthUsdcPoolBurnView {
    pub evt_tx_hash: Seq<u8>,
    pub evt_index: u32,
    pub evt_block_time: Option<Timestamp>,
    pub evt_block_number: u64,
    pub amount: Seq<char>,
    pub amount0: Seq<char>,
    pub amount1: Seq<char>,
    pub owner: Seq<u8>,
    pub tick_lower: i64,
    pub tick_upper: i64,
}

impl View for EthUsdcPoolBurn {
    type V = EthUsdcPoolBurnView;

    open spec fn view(&self) -> EthUsdcPoolBurnView {
        EthUsdcPoolBurnView {
            evt_tx_hash: self.evt_tx_hash@,
            evt_index: self.evt_index,
            evt_block_time: self.evt_block_time,
            evt_block_number: self.evt_block_number,
            amount: self.amount@,
            amount0: self.amount0@,
            amount1: self.amount1@,
            owner: self.owner@,
            tick_lower: self.tick_lower,
            tick_upper: self.tick_upper,
        }
    }
}

/// The record of a `Collect` event.
#[derive(Clone, Debug, PartialEq, Eq)]
pub struct EthUsdcPoolCollect {
    pub evt_tx_hash: Vec<u8>,
    pub evt_index: u32,
    pub evt_block_time: Option<Timestamp>,
    pub evt_block_number: u64,
    pub amount0: String,
    pub amount1: String,
    pub owner: Vec<u8>,
    pub recipient: Vec<u8>,
    pub tick_lower: i64,
    pub tick_upper: i64,
}

/// A `Collect` record as plain values.
pub struct EthUsdcPoolCollectView {
    pub evt_tx_hash: Seq<u8>,
    pub evt_index: u32,
    pub evt_block_time: Option<Timestamp>,
    pub evt_block_number: u64,
    pub amount0: Seq<char>,
    pub amount1: Seq<char>,
    pub owner: Seq<u8>,
    pub recipient: Seq<u8>,
    pub tick_lower: i64,
    pub tick_upper: i64,
}

impl View for EthUsdcPoolCollect {
    type V = EthUsdcPoolCollectView;

    open spec fn view(&self) -> EthUsdcPoolCollectView {
        EthUsdcPoolCollectView {
            evt_tx_hash: self.evt_tx_hash@,
            evt_index: self.evt_index,
            evt_block_time: self.evt_block_time,
            evt_block_number: self.evt_block_number,
            amount0: self.amount0@,
            amount1: self.amount1@,
            owner: self.owner@,
            recipient: self.recipient@,
            tick_lower: self.tick_lower,
            tick_upper: self.tick_upper,
        }
    }
}

/// The record of a `CollectProtocol` event.
#[derive(Clone, Debug, PartialEq, Eq)]
pub struct EthUsdcPoolCollectProtocol {
    pub evt_tx_hash: Vec<u8>,
    pub evt_index: u32,
    pub evt_block_time: Option<Timestamp>,
    pub evt_block_number: u64,
    pub amount0: String,
    pub amount1: String,
    pub recipient: Vec<u8>,
    pub sender: Vec<u8>,
}

/// A `CollectProtocol` record as plain values.
pub struct EthUsdcPoolCollectProtocolView {
    pub evt_tx_hash: Seq<u8>,
    pub evt_index: u32,
    pub evt_block_time: Option<Timestamp>,
    pub evt_block_number: u64,
    pub amount0: Seq<char>,
    pub amount1: Seq<char>,
    pub recipient: Seq<u8>,
    pub sender: Seq<u8>,
}

impl View for EthUsdcPoolCollectProtocol {
    type V = EthUsdcPoolCollectProtocolView;

    open spec fn view(&self) -> EthUsdcPoolCollectProtocolView {
        EthUsdcPoolCollectProtocolView {
            evt_tx_hash: self.evt_tx_hash@,
            evt_index: self.evt_index,
            evt_block_time: self.evt_block_time,
            evt_block_number: self.evt_block_number,
            amount0: self.amount0@,
            amount1: self.amount1@,
            recipient: self.recipient@,
            sender: self.sender@,
        }
    }
}

/// The record of a `Flash` event.
#[derive(Clone, Debug, PartialEq, Eq)]
pub struct EthUsdcPoolFlash {
    pub evt_tx_hash: Vec<u8>,
    pub evt_index: u32,
    pub evt_block_time: Option<Timestamp>,
    pub evt_block_number: u64,
    pub amount0: String,
    pub amount1: String,
    pub paid0: String,
    pub paid1: String,
    pub recipient: Vec<u8>,
    pub sender: Vec<u8>,
}

/// A `Flash` record as plain values.
pub struct EthUsdcPoolFlashView {
    pub evt_tx_hash: Seq<u8>,
    pub evt_index: u32,
    pub evt_block_time: Option<Timestamp>,
    pub evt_block_number: u64,
    pub amount0: Seq<char>,
    pub amount1: Seq<char>,
    pub paid0: Seq<char>,
    pub paid1: Seq<char>,
    pub recipient: Seq<u8>,
    pub sender: Seq<u8>,
}

impl View for EthUsdcPoolFlash {
    type V = EthUsdcPoolFlashView;

    open spec fn view(&self) -> EthUsdcPoolFlashView {
        EthUsdcPoolFlashView {
            evt_tx_hash: self.evt_tx_hash@,
            evt_index: self.evt_index,
            evt_block_time: self.evt_block_time,
            evt_block_number: self.evt_block_number,
            amount0: self.amount0@,
            amount1: self.amount1@,
            paid0: self.paid0@,
            paid1: self.paid1@,
            recipient: self.recipient@,
            sender: self.sender@,
        }
    }
}

/// The record of a `IncreaseObservationCardinalityNext` event.
#[derive(Clone, Debug, PartialEq, Eq)]
pub struct EthUsdcPoolIncreaseObservationCardinalityNext {
    pub evt_tx_hash: Vec<u8>,
    pub evt_index: u32,
    pub evt_block_time: Option<Timestamp>,
    pub evt_block_number: u64,
    pub observation_cardinality_next_new: u64,
    pub observation_cardinality_next_old: u64,
}

/// A `IncreaseObservationCardinalityNext` record as plain values.
pub struct EthUsdcPoolIncreaseObservationCardinalityNextView {
    pub evt_tx_hash: Seq<u8>,
    pub evt_index: u32,
    pub evt_block_time: Option<Timestamp>,
    pub evt_block_number: u64,
    pub observation_cardinality_next_new: u64,
    pub observation_cardinality_next_old: u64,
}

impl View for EthUsdcPoolIncreaseObservationCardinalityNext {
    type V = EthUsdcPoolIncreaseObservationCardinalityNextView;

    open spec fn view(&self) -> EthUsdcPoolIncreaseObservationCardinalityNextView {
        EthUsdcPoolIncreaseObservationCardinalityNextView {
            evt_tx_hash: self.evt_tx_hash@,
            evt_index: self.evt_index,
            evt_block_time: self.evt_block_time,
            evt_block_number: self.evt_block_number,
            observation_cardinality_next_new: self.observation_cardinality_next_new,
            observation_cardinality_next_old: self.observation_cardinality_next_old,
        }
    }
}

/// The record of a `Initialize` event.
#[derive(Clone, Debug, PartialEq, Eq)]
pub struct EthUsdcPoolInitialize {
    pub evt_tx_hash: Vec<u8>,
    pub evt_index: u32,
    pub evt_block_time: Option<Timestamp>,
    pub evt_block_number: u64,
    pub sqrt_price_x96: String,
    pub tick: i64,
}

/// A `Initialize` record as plain values.
pub struct EthUsdcPoolInitializeView {
    pub evt_tx_hash: Seq<u8>,
    pub evt_index: u32,
    pub evt_block_time: Option<Timestamp>,
    pub evt_block_number: u64,
    pub sqrt_price_x96: Seq<char>,
    pub tick: i64,
}

impl View for EthUsdcPoolInitialize {
    type V = EthUsdcPoolInitializeView;

    open spec fn view(&self) -> EthUsdcPoolInitializeView {
        EthUsdcPoolInitializeView {
            evt_tx_hash: self.evt_tx_hash@,
            evt_index: self.evt_index,
            evt_block_time: self.evt_block_time,
            evt_block_number: self.evt_block_number,
            sqrt_price_x96: self.sqrt_price_x96@,
            tick: self.tick,
        }
    }
}

/// The record of a `Mint` event.
#[derive(Clone, Debug, PartialEq, Eq)]
pub struct EthUsdcPoolMint {
    pub evt_tx_hash: Vec<u8>,
    pub evt_index: u32,
    pub evt_block_time: Option<Timestamp>,
    pub evt_block_number: u64,
    pub amount: String,
    pub amount0: String,
    pub amount1: String,
    pub owner: Vec<u8>,
    pub sender: Vec<u8>,
    pub tick_lower: i64,
    pub tick_upper: i64,
}

/// A `Mint` record as plain values.
pub struct EthUsdcPoolMintView {
    pub evt_tx_hash: Seq<u8>,
    pub evt_index: u32,
    pub evt_block_time: Option<Timestamp>,
    pub evt_block_number: u64,
    pub amount: Seq<char>,
    pub amount0: Seq<char>,
    pub amount1: Seq<char>,
    pub owner: Seq<u8>,
    pub sender: Seq<u8>,
    pub tick_lower: i64,
    pub tick_upper: i64,
}

impl View for EthUsdcPoolMint {
    type V = EthUsdcPoolMintView;

    open spec fn view(&self) -> EthUsdcPoolMintView {
        EthUsdcPoolMintView {
            evt_tx_hash: self.evt_tx_hash@,
            evt_index: self.evt_index,
            evt_block_time: self.evt_block_time,
            evt_block_number: self.evt_block_number,
            amount: self.amount@,
            amount0: self.amount0@,
            amount1: self.amount1@,
            owner: self.owner@,
            sender: self.sender@,
            tick_lower: self.tick_lower,
            tick_upper: self.tick_upper,
        }
    }
}

/// The record of a `SetFeeProtocol` event.
#[derive(Clone, Debug, PartialEq, Eq)]
pub struct EthUsdcPoolSetFeeProtocol {
    pub evt_tx_hash: Vec<u8>,
    pub evt_index: u32,
    pub evt_block_time: Option<Timestamp>,
    pub evt_block_number: u64,
    pub fee_protocol0_new: u64,
    pub fee_protocol0_old: u64,
    pub fee_protocol1_new: u64,
    pub fee_protocol1_old: u64,
}

/// A `SetFeeProtocol` record as plain values.
pub struct EthUsdcPoolSetFeeProtocolView {
    pub evt_tx_hash: Seq<u8>,
    pub evt_index: u32,
    pub evt_block_time: Option<Timestamp>,
    pub evt_block_number: u64,
    pub fee_protocol0_new: u64,
    pub fee_protocol0_old: u64,
    pub fee_protocol1_new: u64,
    pub fee_protocol1_old: u64,
}

impl View for EthUsdcPoolSetFeeProtocol {
    type V = EthUsdcPoolSetFeeProtocolView;

    open spec fn view(&self) -> EthUsdcPoolSetFeeProtocolView {
        EthUsdcPoolSetFeeProtocolView {
            evt_tx_hash: self.evt_tx_hash@,
            evt_index: self.evt_index,
            evt_block_time: self.evt_block_time,
            evt_block_number: self.evt_block_number,
            fee_protocol0_new: self.fee_protocol0_new,
            fee_protocol0_old: self.fee_protocol0_old,
            fee_protocol1_new: self.fee_protocol1_new,
            fee_protocol1_old: self.fee_protocol1_old,
        }
    }
}

/// The record of a `Swap` event.
#[derive(Clone, Debug, PartialEq, Eq)]
pub struct EthUsdcPoolSwap {
    pub evt_tx_hash: Vec<u8>,
    pub evt_index: u32,
    pub evt_block_time: Option<Timestamp>,
    pub evt_block_number: u64,
    pub amount0: String,
    pub amount1: String,
    pub liquidity: String,
    pub recipient: Vec<u8>,
    pub sender: Vec<u8>,
    pub sqrt_price_x96: String,
    pub tick: i64,
}

/// A `Swap` record as plain values.
pub struct EthUsdcPoolSwapView {
    pub evt_tx_hash: Seq<u8>,
    pub evt_index: u32,
    pub evt_block_time: Option<Timestamp>,
    pub evt_block_number: u64,
    pub amount0: Seq<char>,
    pub amount1: Seq<char>,
    pub liquidity: Seq<char>,
    pub recipient: Seq<u8>,
    pub sender: Seq<u8>,
    pub sqrt_price_x96: Seq<char>,
    pub tick: i64,
}

impl View for EthUsdcPoolSwap {
    type V = EthUsdcPoolSwapView;

    open spec fn view(&self) -> EthUsdcPoolSwapView {
        EthUsdcPoolSwapView {
            evt_tx_hash: self.evt_tx_hash@,
            evt_index: self.evt_index,
            evt_block_time: self.evt_block_time,
            evt_block_number: self.evt_block_number,
            amount0: self.amount0@,
            amount1: self.amount1@,
            liquidity: self.liquidity@,
            recipient: self.recipient@,
            sender: self.sender@,
            sqrt_price_x96: self.sqrt_price_x96@,
            tick: self.tick,
        }
    }
}

/// The views of a sequence of values.
pub open spec fn views<T: View>(values: Seq<T>) -> Seq<T::V> {
    Seq::new(values.len(), |i: int| values[i]@)
}

/// The records of the pool's events, one list per event.
#[derive(Clone, Debug, PartialEq, Eq)]
pub struct Events {
    pub eth_usdc_pool_burns: Vec<EthUsdcPoolBurn>,
    pub eth_usdc_pool_collects: Vec<EthUsdcPoolCollect>,
    pub eth_usdc_pool_collect_protocols: Vec<EthUsdcPoolCollectProtocol>,
    pub eth_usdc_pool_flashes: Vec<EthUsdcPoolFlash>,
    pub eth_usdc_pool_increase_observation_cardinality_nexts: Vec<
        EthUsdcPoolIncreaseObservationCardinalityNext,
    >,
    pub eth_usdc_pool_initializes: Vec<EthUsdcPoolInitialize>,
    pub eth_usdc_pool_mints: Vec<EthUsdcPoolMint>,
    pub eth_usdc_pool_set_fee_protocols: Vec<EthUsdcPoolSetFeeProtocol>,
    pub eth_usdc_pool_swaps: Vec<EthUsdcPoolSwap>,
}

/// The lists of records as sequences of plain values.
pub struct EventsView {
    pub eth_usdc_pool_burns: Seq<EthUsdcPoolBurnView>,
    pub eth_usdc_pool_collects: Seq<EthUsdcPoolCollectView>,
    pub eth_usdc_pool_collect_protocols: Seq<EthUsdcPoolCollectProtocolView>,
    pub eth_usdc_pool_flashes: Seq<EthUsdcPoolFlashView>,
    pub eth_usdc_pool_increase_observation_cardinality_nexts: Seq<
        EthUsdcPoolIncreaseObservationCardinalityNextView,
    >,
    pub eth_usdc_pool_initializes: Seq<EthUsdcPoolInitializeView>,
    pub eth_usdc_pool_mints: Seq<EthUsdcPoolMintView>,
    pub eth_usdc_pool_set_fee_protocols: Seq<EthUsdcPoolSetFeeProtocolView>,
    pub eth_usdc_pool_swaps: Seq<EthUsdcPoolSwapView>,
}

impl View for Events {
    type V = EventsView;

    open spec fn view(&self) -> EventsView {
        EventsView {
            eth_usdc_pool_burns: views(self.eth_usdc_pool_burns@),
            eth_usdc_pool_collects: views(self.eth_usdc_pool_collects@),
            eth_usdc_pool_collect_protocols: views(self.eth_usdc_pool_collect_protocols@),
            eth_usdc_pool_flashes: views(self.eth_usdc_pool_flashes@),
            eth_usdc_pool_increase_observation_cardinality_nexts: views(
                self.eth_usdc_pool_increase_observation_cardinality_nexts@,
            ),
            eth_usdc_pool_initializes: views(self.eth_usdc_pool_initializes@),
            eth_usdc_pool_mints: views(self.eth_usdc_pool_mints@),
            eth_usdc_pool_set_fee_protocols: views(self.eth_usdc_pool_set_fee_protocols@),
            eth_usdc_pool_swaps: views(self.eth_usdc_pool_swaps@),
        }
    }
}

impl EventsView {
    /// No records at all.
    pub open spec fn empty() -> EventsView {
        EventsView {
            eth_usdc_pool_burns: Seq::empty(),
            eth_usdc_pool_collects: Seq::empty(),
            eth_usdc_pool_collect_protocols: Seq::empty(),
            eth_usdc_pool_flashes: Seq::empty(),
            eth_usdc_pool_increase_observation_cardinality_nexts: Seq::empty(),
            eth_usdc_pool_initializes: Seq::empty(),
            eth_usdc_pool_mints: Seq::empty(),
            eth_usdc_pool_set_fee_protocols: Seq::empty(),
            eth_usdc_pool_swaps: Seq::empty(),
        }
    }
}

impl Events {
    /// Empty lists.
    pub fn new() -> (events: Events)
        ensures
            events@ == EventsView::empty(),
    {
        let events = Events {
            eth_usdc_pool_burns: Vec::new(),
            eth_usdc_pool_collects: Vec::new(),
            eth_usdc_pool_collect_protocols: Vec::new(),
            eth_usdc_pool_flashes: Vec::new(),
            eth_usdc_pool_increase_observation_cardinality_nexts: Vec::new(),
            eth_usdc_pool_initializes: Vec::new(),
            eth_usdc_pool_mints: Vec::new(),
            eth_usdc_pool_set_fee_protocols: Vec::new(),
            eth_usdc_pool_swaps: Vec::new(),
        };
        assert(events@.eth_usdc_pool_burns =~= Seq::empty());
        assert(events@.eth_usdc_pool_collects =~= Seq::empty());
        assert(events@.eth_usdc_pool_collect_protocols =~= Seq::empty());
        assert(events@.eth_usdc_pool_flashes =~= Seq::empty());
        assert(events@.eth_usdc_pool_increase_observation_cardinality_nexts =~= Seq::empty());
        assert(events@.eth_usdc_pool_initializes =~= Seq::empty());
        assert(events@.eth_usdc_pool_mints =~= Seq::empty());
        assert(events@.eth_usdc_pool_set_fee_protocols =~= Seq::empty());
        assert(events@.eth_usdc_pool_swaps =~= Seq::empty());
        events
    }
}

impl Default for Events {
    fn default() -> (events: Events)
        ensures
            events@ == EventsView::empty(),
    {
        Events::new()
    }
}

} // verus!
