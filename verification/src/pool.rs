//! The pool handler: scans the logs of a block for the pool's events and
//! makes a record of each.

use vstd::prelude::*;
use vstd::slice::slice_to_vec;
use crate::abi::eth_usdc_pool_contract::{
    Burn, BurnView, Collect, CollectProtocol, CollectProtocolView, CollectView, Flash, FlashView,
    IncreaseObservationCardinalityNext, IncreaseObservationCardinalityNextView, Initialize,
    InitializeView, Mint, MintView, SetFeeProtocol, SetFeeProtocolView, Swap, SwapView,
};
use crate::abi::{match_and_decode, matched, Event};
use crate::bigint::{decimal_text, BigInt};
use crate::contract::{
    views, EthUsdcPoolBurn, EthUsdcPoolBurnView, EthUsdcPoolCollect, EthUsdcPoolCollectProtocol,
    EthUsdcPoolCollectProtocolView, EthUsdcPoolCollectView, EthUsdcPoolFlash,
    EthUsdcPoolFlashView, EthUsdcPoolIncreaseObservationCardinalityNext,
    EthUsdcPoolIncreaseObservationCardinalityNextView, EthUsdcPoolInitialize,
    EthUsdcPoolInitializeView, EthUsdcPoolMint, EthUsdcPoolMintView, EthUsdcPoolSetFeeProtocol,
    EthUsdcPoolSetFeeProtocolView, EthUsdcPoolSwap, EthUsdcPoolSwapView, Events, EventsView,
};
use crate::ethereum::{Clock, ClockView, EventView, Events as BlockEvents, LogView};

verus! {

/// Why a block yields no records.
#[derive(Clone, Copy, Debug, PartialEq, Eq, Structural)]
pub enum MapError {
    /// An event carries no log.
    MissingLog,
    /// A parameter does not fit the 64-bit field of its record.
    Overflow,
}

/// Whether an integer fits an `i64`.
pub open spec fn fits_i64(value: int) -> bool {
    i64::MIN <= value <= i64::MAX
}

/// Whether an integer fits a `u64`.
pub open spec fn fits_u64(value: int) -> bool {
    0 <= value <= u64::MAX
}

/// Narrows an integer to an `i64`; one out of range is an error.
pub fn narrow_i64(value: &BigInt) -> (result: Result<i64, MapError>)
    ensures
        match result {
            Ok(n) => n as int == value@,
            Err(error) => !fits_i64(value@) && error == MapError::Overflow,
        },
{
    match value.to_i64() {
        Some(n) => Ok(n),
        None => Err(MapError::Overflow),
    }
}

/// Narrows an integer to a `u64`; one out of range is an error.
pub fn narrow_u64(value: &BigInt) -> (result: Result<u64, MapError>)
    ensures
        match result {
            Ok(n) => n as int == value@,
            Err(error) => !fits_u64(value@) && error == MapError::Overflow,
        },
{
    match value.to_u64() {
        Some(n) => Ok(n),
        None => Err(MapError::Overflow),
    }
}

/// A record made from one decoded event and the place where it was found.
pub trait Record: Sized + View {
    /// The event that the record is made from.
    type Source: Event;

    /// The record for a decoded event, or the reason why there is none.
    spec fn converted(
        clock: ClockView,
        tx_hash: Seq<u8>,
        index: u32,
        event: <Self::Source as View>::V,
    ) -> Result<Self::V, MapError>;

    /// Makes the record: the transaction hash, the log's position in the
    /// block and the clock's time and number are copied, big integers
    /// become decimal text, and ticks and small numbers are narrowed to 64
    /// bits.
    fn convert(clock: &Clock, tx_hash: &Vec<u8>, index: u32, event: Self::Source) -> (result:
        Result<Self, MapError>)
        ensures
            match result {
                Ok(record) => Self::converted(clock@, tx_hash@, index, event@) == Ok::<
                    Self::V,
                    MapError,
                >(record@),
                Err(error) => Self::converted(clock@, tx_hash@, index, event@) == Err::<
                    Self::V,
                    MapError,
                >(error),
            },
    ;
}

/// What one event of a block contributes to the records of type `R`:
/// nothing if its log is not one of `R`'s event or cannot be decoded, else
/// its record. An event without a log, or a record that cannot be made,
/// fails the block.
pub open spec fn step<R: Record>(clock: ClockView, event: EventView) -> Result<
    Option<R::V>,
    MapError,
> {
    match event.log {
        None => Err(MapError::MissingLog),
        Some(log) => match matched::<R::Source>(log) {
            None => Ok(None),
            Some(decoded) => match R::converted(clock, event.tx_hash, log.block_index, decoded) {
                Ok(record) => Ok(Some(record)),
                Err(error) => Err(error),
            },
        },
    }
}

/// The records of type `R` of a block, in block order, or the first failure
/// in block order.
pub open spec fn scan<R: Record>(clock: ClockView, events: Seq<EventView>) -> Result<
    Seq<R::V>,
    MapError,
>
    decreases events.len(),
{
    if events.len() == 0 {
        Ok(Seq::empty())
    } else {
        match scan::<R>(clock, events.drop_last()) {
            Err(error) => Err(error),
            Ok(found) => match step::<R>(clock, events.last()) {
                Err(error) => Err(error),
                Ok(None) => Ok(found),
                Ok(Some(record)) => Ok(found.push(record)),
            },
        }
    }
}

/// A failure among the first `k` events is the failure of the whole block.
pub proof fn lemma_failure_persists<R: Record>(clock: ClockView, events: Seq<EventView>, k: int)
    requires
        0 <= k <= events.len(),
        scan::<R>(clock, events.take(k)) is Err,
    ensures
        scan::<R>(clock, events) == scan::<R>(clock, events.take(k)),
    decreases events.len() - k,
{
    if k == events.len() {
        assert(events.take(k) =~= events);
    } else {
        assert(events.take(k + 1).drop_last() =~= events.take(k));
        lemma_failure_persists::<R>(clock, events, k + 1);
    }
}

/// Makes the record of one event, if its log is one of `R`'s event.
pub fn record_of<R: Record>(clock: &Clock, event: &crate::ethereum::Event) -> (result: Result<
    Option<R>,
    MapError,
>)
    ensures
        match result {
            Ok(Some(record)) => step::<R>(clock@, event@) == Ok::<Option<R::V>, MapError>(
                Some(record@),
            ),
            Ok(None) => step::<R>(clock@, event@) == Ok::<Option<R::V>, MapError>(None),
            Err(error) => step::<R>(clock@, event@) == Err::<Option<R::V>, MapError>(error),
        },
{
    match &event.log {
        None => Err(MapError::MissingLog),
        Some(log) => match match_and_decode::<R::Source>(log) {
            None => Ok(None),
            Some(decoded) => match R::convert(clock, &event.tx_hash, log.block_index, decoded) {
                Ok(record) => Ok(Some(record)),
                Err(error) => Err(error),
            },
        },
    }
}

/// Collects the records of type `R` of a block, in block order.
pub fn collect<R: Record>(clock: &Clock, input: &BlockEvents) -> (result: Result<Vec<R>, MapError>)
    ensures
        match result {
            Ok(records) => scan::<R>(clock@, input@) == Ok::<Seq<R::V>, MapError>(views(records@)),
            Err(error) => scan::<R>(clock@, input@) == Err::<Seq<R::V>, MapError>(error),
        },
{
    let mut records: Vec<R> = Vec::new();
    let mut i: usize = 0;
    assert(views(records@) =~= Seq::<R::V>::empty());
    assert(input@.take(0) =~= Seq::<EventView>::empty());
    while i < input.events.len()
        invariant
            i <= input.events@.len(),
            input@.len() == input.events@.len(),
            scan::<R>(clock@, input@.take(i as int)) == Ok::<Seq<R::V>, MapError>(views(records@)),
        decreases input.events@.len() - i,
    {
        let ghost before = records@;
        assert(input@.take(i + 1).drop_last() =~= input@.take(i as int));
        assert(input@.take(i + 1).last() == input.events@[i as int]@);
        match record_of::<R>(clock, &input.events[i]) {
            Err(error) => {
                proof {
                    lemma_failure_persists::<R>(clock@, input@, i + 1);
                }
                return Err(error);
            },
            Ok(None) => {},
            Ok(Some(record)) => {
                records.push(record);
                assert(views(records@) =~= views(before).push(record@));
            },
        }
        i += 1;
    }
    assert(input@.take(i as int) =~= input@);
    Ok(records)
}

impl Record for EthUsdcPoolBurn {
    type Source = Burn;

    open spec fn converted(clock: ClockView, tx_hash: Seq<u8>, index: u32, event: BurnView) -> Result<
        EthUsdcPoolBurnView,
        MapError,
    > {
        if fits_i64(event.tick_lower) && fits_i64(event.tick_upper) {
            Ok(
                EthUsdcPoolBurnView {
                    evt_tx_hash: tx_hash,
                    evt_index: index,
                    evt_block_time: clock.timestamp,
                    evt_block_number: clock.number,
                    amount: decimal_text(event.amount),
                    amount0: decimal_text(event.amount0),
                    amount1: decimal_text(event.amount1),
                    owner: event.owner,
                    tick_lower: event.tick_lower as i64,
                    tick_upper: event.tick_upper as i64,
                },
            )
        } else {
            Err(MapError::Overflow)
        }
    }

    fn convert(clock: &Clock, tx_hash: &Vec<u8>, index: u32, event: Burn) -> (result: Result<
        Self,
        MapError,
    >) {
        Ok(
            EthUsdcPoolBurn {
                evt_tx_hash: slice_to_vec(tx_hash.as_slice()),
                evt_index: index,
                evt_block_time: clock.timestamp,
                evt_block_number: clock.number,
                amount: event.amount.to_text(),
                amount0: event.amount0.to_text(),
                amount1: event.amount1.to_text(),
                owner: event.owner,
                tick_lower: narrow_i64(&event.tick_lower)?,
                tick_upper: narrow_i64(&event.tick_upper)?,
            },
        )
    }
}

impl Record for EthUsdcPoolCollect {
    type Source = Collect;

    open spec fn converted(clock: ClockView, tx_hash: Seq<u8>, index: u32, event: CollectView) -> Result<
        EthUsdcPoolCollectView,
        MapError,
    > {
        if fits_i64(event.tick_lower) && fits_i64(event.tick_upper) {
            Ok(
                EthUsdcPoolCollectView {
                    evt_tx_hash: tx_hash,
                    evt_index: index,
                    evt_block_time: clock.timestamp,
                    evt_block_number: clock.number,
                    amount0: decimal_text(event.amount0),
                    amount1: decimal_text(event.amount1),
                    owner: event.owner,
                    recipient: event.recipient,
                    tick_lower: event.tick_lower as i64,
                    tick_upper: event.tick_upper as i64,
                },
            )
        } else {
            Err(MapError::Overflow)
        }
    }

    fn convert(clock: &Clock, tx_hash: &Vec<u8>, index: u32, event: Collect) -> (result: Result<
        Self,
        MapError,
    >) {
        Ok(
            EthUsdcPoolCollect {
                evt_tx_hash: slice_to_vec(tx_hash.as_slice()),
                evt_index: index,
                evt_block_time: clock.timestamp,
                evt_block_number: clock.number,
                amount0: event.amount0.to_text(),
                amount1: event.amount1.to_text(),
                owner: event.owner,
                recipient: event.recipient,
                tick_lower: narrow_i64(&event.tick_lower)?,
                tick_upper: narrow_i64(&event.tick_upper)?,
            },
        )
    }
}

impl Record for EthUsdcPoolCollectProtocol {
    type Source = CollectProtocol;

    open spec fn converted(clock: ClockView, tx_hash: Seq<u8>, index: u32, event: CollectProtocolView) -> Result<
        EthUsdcPoolCollectProtocolView,
        MapError,
    > {
        Ok(
            EthUsdcPoolCollectProtocolView {
                evt_tx_hash: tx_hash,
                evt_index: index,
                evt_block_time: clock.timestamp,
                evt_block_number: clock.number,
                amount0: decimal_text(event.amount0),
                amount1: decimal_text(event.amount1),
                recipient: event.recipient,
                sender: event.sender,
            },
        )
    }

    fn convert(clock: &Clock, tx_hash: &Vec<u8>, index: u32, event: CollectProtocol) -> (result: Result<
        Self,
        MapError,
    >) {
        Ok(
            EthUsdcPoolCollectProtocol {
                evt_tx_hash: slice_to_vec(tx_hash.as_slice()),
                evt_index: index,
                evt_block_time: clock.timestamp,
                evt_block_number: clock.number,
                amount0: event.amount0.to_text(),
                amount1: event.amount1.to_text(),
                recipient: event.recipient,
                sender: event.sender,
            },
        )
    }
}

impl Record for EthUsdcPoolFlash {
    type Source = Flash;

    open spec fn converted(clock: ClockView, tx_hash: Seq<u8>, index: u32, event: FlashView) -> Result<
        EthUsdcPoolFlashView,
        MapError,
    > {
        Ok(
            EthUsdcPoolFlashView {
                evt_tx_hash: tx_hash,
                evt_index: index,
                evt_block_time: clock.timestamp,
                evt_block_number: clock.number,
                amount0: decimal_text(event.amount0),
                amount1: decimal_text(event.amount1),
                paid0: decimal_text(event.paid0),
                paid1: decimal_text(event.paid1),
                recipient: event.recipient,
                sender: event.sender,
            },
        )
    }

    fn convert(clock: &Clock, tx_hash: &Vec<u8>, index: u32, event: Flash) -> (result: Result<
        Self,
        MapError,
    >) {
        Ok(
            EthUsdcPoolFlash {
                evt_tx_hash: slice_to_vec(tx_hash.as_slice()),
                evt_index: index,
                evt_block_time: clock.timestamp,
                evt_block_number: clock.number,
                amount0: event.amount0.to_text(),
                amount1: event.amount1.to_text(),
                paid0: event.paid0.to_text(),
                paid1: event.paid1.to_text(),
                recipient: event.recipient,
                sender: event.sender,
            },
        )
    }
}

impl Record for EthUsdcPoolIncreaseObservationCardinalityNext {
    type Source = IncreaseObservationCardinalityNext;

    open spec fn converted(clock: ClockView, tx_hash: Seq<u8>, index: u32, event: IncreaseObservationCardinalityNextView) -> Result<
        EthUsdcPoolIncreaseObservationCardinalityNextView,
        MapError,
    > {
        if fits_u64(event.observation_cardinality_next_new) && fits_u64(event.observation_cardinality_next_old) {
            Ok(
                EthUsdcPoolIncreaseObservationCardinalityNextView {
                    evt_tx_hash: tx_hash,
                    evt_index: index,
                    evt_block_time: clock.timestamp,
                    evt_block_number: clock.number,
                    observation_cardinality_next_new: event.observation_cardinality_next_new as u64,
                    observation_cardinality_next_old: event.observation_cardinality_next_old as u64,
                },
            )
        } else {
            Err(MapError::Overflow)
        }
    }

    fn convert(clock: &Clock, tx_hash: &Vec<u8>, index: u32, event: IncreaseObservationCardinalityNext) -> (result: Result<
        Self,
        MapError,
    >) {
        Ok(
            EthUsdcPoolIncreaseObservationCardinalityNext {
                evt_tx_hash: slice_to_vec(tx_hash.as_slice()),
                evt_index: index,
                evt_block_time: clock.timestamp,
                evt_block_number: clock.number,
                observation_cardinality_next_new: narrow_u64(&event.observation_cardinality_next_new)?,
                observation_cardinality_next_old: narrow_u64(&event.observation_cardinality_next_old)?,
            },
        )
    }
}

impl Record for EthUsdcPoolInitialize {
    type Source = Initialize;

    open spec fn converted(clock: ClockView, tx_hash: Seq<u8>, index: u32, event: InitializeView) -> Result<
        EthUsdcPoolInitializeView,
        MapError,
    > {
        if fits_i64(event.tick) {
            Ok(
                EthUsdcPoolInitializeView {
                    evt_tx_hash: tx_hash,
                    evt_index: index,
                    evt_block_time: clock.timestamp,
                    evt_block_number: clock.number,
                    sqrt_price_x96: decimal_text(event.sqrt_price_x96),
                    tick: event.tick as i64,
                },
            )
        } else {
            Err(MapError::Overflow)
        }
    }

    fn convert(clock: &Clock, tx_hash: &Vec<u8>, index: u32, event: Initialize) -> (result: Result<
        Self,
        MapError,
    >) {
        Ok(
            EthUsdcPoolInitialize {
                evt_tx_hash: slice_to_vec(tx_hash.as_slice()),
                evt_index: index,
                evt_block_time: clock.timestamp,
                evt_block_number: clock.number,
                sqrt_price_x96: event.sqrt_price_x96.to_text(),
                tick: narrow_i64(&event.tick)?,
            },
        )
    }
}

impl Record for EthUsdcPoolMint {
    type Source = Mint;

    open spec fn converted(clock: ClockView, tx_hash: Seq<u8>, index: u32, event: MintView) -> Result<
        EthUsdcPoolMintView,
        MapError,
    > {
        if fits_i64(event.tick_lower) && fits_i64(event.tick_upper) {
            Ok(
                EthUsdcPoolMintView {
                    evt_tx_hash: tx_hash,
                    evt_index: index,
                    evt_block_time: clock.timestamp,
                    evt_block_number: clock.number,
                    amount: decimal_text(event.amount),
                    amount0: decimal_text(event.amount0),
                    amount1: decimal_text(event.amount1),
                    owner: event.owner,
                    sender: event.sender,
                    tick_lower: event.tick_lower as i64,
                    tick_upper: event.tick_upper as i64,
                },
            )
        } else {
            Err(MapError::Overflow)
        }
    }

    fn convert(clock: &Clock, tx_hash: &Vec<u8>, index: u32, event: Mint) -> (result: Result<
        Self,
        MapError,
    >) {
        Ok(
            EthUsdcPoolMint {
                evt_tx_hash: slice_to_vec(tx_hash.as_slice()),
                evt_index: index,
                evt_block_time: clock.timestamp,
                evt_block_number: clock.number,
                amount: event.amount.to_text(),
                amount0: event.amount0.to_text(),
                amount1: event.amount1.to_text(),
                owner: event.owner,
                sender: event.sender,
                tick_lower: narrow_i64(&event.tick_lower)?,
                tick_upper: narrow_i64(&event.tick_upper)?,
            },
        )
    }
}

impl Record for EthUsdcPoolSetFeeProtocol {
    type Source = SetFeeProtocol;

    open spec fn converted(clock: ClockView, tx_hash: Seq<u8>, index: u32, event: SetFeeProtocolView) -> Result<
        EthUsdcPoolSetFeeProtocolView,
        MapError,
    > {
        if fits_u64(event.fee_protocol0_new) && fits_u64(event.fee_protocol0_old) && fits_u64(event.fee_protocol1_new) && fits_u64(event.fee_protocol1_old) {
            Ok(
                EthUsdcPoolSetFeeProtocolView {
                    evt_tx_hash: tx_hash,
                    evt_index: index,
                    evt_block_time: clock.timestamp,
                    evt_block_number: clock.number,
                    fee_protocol0_new: event.fee_protocol0_new as u64,
                    fee_protocol0_old: event.fee_protocol0_old as u64,
                    fee_protocol1_new: event.fee_protocol1_new as u64,
                    fee_protocol1_old: event.fee_protocol1_old as u64,
                },
            )
        } else {
            Err(MapError::Overflow)
        }
    }

    fn convert(clock: &Clock, tx_hash: &Vec<u8>, index: u32, event: SetFeeProtocol) -> (result: Result<
        Self,
        MapError,
    >) {
        Ok(
            EthUsdcPoolSetFeeProtocol {
                evt_tx_hash: slice_to_vec(tx_hash.as_slice()),
                evt_index: index,
                evt_block_time: clock.timestamp,
                evt_block_number: clock.number,
                fee_protocol0_new: narrow_u64(&event.fee_protocol0_new)?,
                fee_protocol0_old: narrow_u64(&event.fee_protocol0_old)?,
                fee_protocol1_new: narrow_u64(&event.fee_protocol1_new)?,
                fee_protocol1_old: narrow_u64(&event.fee_protocol1_old)?,
            },
        )
    }
}

impl Record for EthUsdcPoolSwap {
    type Source = Swap;

    open spec fn converted(clock: ClockView, tx_hash: Seq<u8>, index: u32, event: SwapView) -> Result<
        EthUsdcPoolSwapView,
        MapError,
    > {
        if fits_i64(event.tick) {
            Ok(
                EthUsdcPoolSwapView {
                    evt_tx_hash: tx_hash,
                    evt_index: index,
                    evt_block_time: clock.timestamp,
                    evt_block_number: clock.number,
                    amount0: decimal_text(event.amount0),
                    amount1: decimal_text(event.amount1),
                    liquidity: decimal_text(event.liquidity),
                    recipient: event.recipient,
                    sender: event.sender,
                    sqrt_price_x96: decimal_text(event.sqrt_price_x96),
                    tick: event.tick as i64,
                },
            )
        } else {
            Err(MapError::Overflow)
        }
    }

    fn convert(clock: &Clock, tx_hash: &Vec<u8>, index: u32, event: Swap) -> (result: Result<
        Self,
        MapError,
    >) {
        Ok(
            EthUsdcPoolSwap {
                evt_tx_hash: slice_to_vec(tx_hash.as_slice()),
                evt_index: index,
                evt_block_time: clock.timestamp,
                evt_block_number: clock.number,
                amount0: event.amount0.to_text(),
                amount1: event.amount1.to_text(),
                liquidity: event.liquidity.to_text(),
                recipient: event.recipient,
                sender: event.sender,
                sqrt_price_x96: event.sqrt_price_x96.to_text(),
                tick: narrow_i64(&event.tick)?,
            },
        )
    }
}

/// A block without events has no records.
pub proof fn lemma_no_events_no_records<R: Record>(clock: ClockView)
    ensures
        scan::<R>(clock, Seq::empty()) == Ok::<Seq<R::V>, MapError>(Seq::empty()),
{
}

/// An event whose log is not one of `R`'s event, or is one that cannot be
/// decoded, is dropped: the records of type `R` are those of the events
/// before it.
pub proof fn lemma_other_log_is_dropped<R: Record>(
    clock: ClockView,
    events: Seq<EventView>,
    event: EventView,
)
    requires
        event.log is Some,
        matched::<R::Source>(event.log->Some_0) is None,
    ensures
        scan::<R>(clock, events.push(event)) == scan::<R>(clock, events),
{
    assert(events.push(event).drop_last() =~= events);
}

/// An event whose log is one of `R`'s event adds exactly one record, after
/// those of the events before it: the conversion of what the log decodes
/// to, with the event's transaction hash and the log's place in the block.
pub proof fn lemma_matching_log_is_recorded<R: Record>(
    clock: ClockView,
    events: Seq<EventView>,
    event: EventView,
)
    requires
        scan::<R>(clock, events) is Ok,
        event.log is Some,
        matched::<R::Source>(event.log->Some_0) is Some,
        R::converted(
            clock,
            event.tx_hash,
            event.log->Some_0.block_index,
            matched::<R::Source>(event.log->Some_0)->Some_0,
        ) is Ok,
    ensures
        scan::<R>(clock, events.push(event)) == Ok::<Seq<R::V>, MapError>(
            scan::<R>(clock, events)->Ok_0.push(
                R::converted(
                    clock,
                    event.tx_hash,
                    event.log->Some_0.block_index,
                    matched::<R::Source>(event.log->Some_0)->Some_0,
                )->Ok_0,
            ),
        ),
{
    assert(events.push(event).drop_last() =~= events);
}

/// There are never more records of one type than events in the block.
pub proof fn lemma_at_most_one_record_per_event<R: Record>(clock: ClockView, events: Seq<EventView>)
    ensures
        scan::<R>(clock, events) is Ok ==> scan::<R>(clock, events)->Ok_0.len() <= events.len(),
    decreases events.len(),
{
    if events.len() > 0 {
        lemma_at_most_one_record_per_event::<R>(clock, events.drop_last());
    }
}

/// Whether a log is of none of the nine events of the pool.
pub open spec fn unknown(log: LogView) -> bool {
    &&& !Burn::matches(log)
    &&& !Collect::matches(log)
    &&& !CollectProtocol::matches(log)
    &&& !Flash::matches(log)
    &&& !IncreaseObservationCardinalityNext::matches(log)
    &&& !Initialize::matches(log)
    &&& !Mint::matches(log)
    &&& !SetFeeProtocol::matches(log)
    &&& !Swap::matches(log)
}

/// An event with an unknown log changes nothing in what a block yields.
pub proof fn lemma_unknown_log_is_dropped(
    clock: ClockView,
    events: Seq<EventView>,
    event: EventView,
)
    requires
        event.log is Some,
        unknown(event.log->Some_0),
    ensures
        found(clock, events.push(event)) == found(clock, events),
{
    lemma_other_log_is_dropped::<EthUsdcPoolBurn>(clock, events, event);
    lemma_other_log_is_dropped::<EthUsdcPoolCollect>(clock, events, event);
    lemma_other_log_is_dropped::<EthUsdcPoolCollectProtocol>(clock, events, event);
    lemma_other_log_is_dropped::<EthUsdcPoolFlash>(clock, events, event);
    lemma_other_log_is_dropped::<EthUsdcPoolIncreaseObservationCardinalityNext>(
        clock,
        events,
        event,
    );
    lemma_other_log_is_dropped::<EthUsdcPoolInitialize>(clock, events, event);
    lemma_other_log_is_dropped::<EthUsdcPoolMint>(clock, events, event);
    lemma_other_log_is_dropped::<EthUsdcPoolSetFeeProtocol>(clock, events, event);
    lemma_other_log_is_dropped::<EthUsdcPoolSwap>(clock, events, event);
}

/// An event without a log fails the block, whatever else is in it.
pub proof fn lemma_missing_log_fails<R: Record>(clock: ClockView, events: Seq<EventView>, i: int)
    requires
        0 <= i < events.len(),
        events[i].log is None,
    ensures
        scan::<R>(clock, events) is Err,
    decreases events.len(),
{
    if i < events.len() - 1 {
        lemma_missing_log_fails::<R>(clock, events.drop_last(), i);
    }
}

/// What a block adds to the lists of records: the records of each of the
/// nine events, in block order. The lists are made one after another, swaps
/// first and then in the order of the fields, and the first failure ends
/// the work.
pub open spec fn found(clock: ClockView, events: Seq<EventView>) -> Result<EventsView, MapError> {
    match scan::<EthUsdcPoolSwap>(clock, events) {
        Err(error) => Err(error),
        Ok(swaps) => match scan::<EthUsdcPoolBurn>(clock, events) {
            Err(error) => Err(error),
            Ok(burns) => match scan::<EthUsdcPoolCollect>(clock, events) {
                Err(error) => Err(error),
                Ok(collects) => match scan::<EthUsdcPoolCollectProtocol>(clock, events) {
                    Err(error) => Err(error),
                    Ok(collect_protocols) => match scan::<EthUsdcPoolFlash>(clock, events) {
                        Err(error) => Err(error),
                        Ok(flashes) => match scan::<EthUsdcPoolIncreaseObservationCardinalityNext>(
                            clock,
                            events,
                        ) {
                            Err(error) => Err(error),
                            Ok(nexts) => match scan::<EthUsdcPoolInitialize>(clock, events) {
                                Err(error) => Err(error),
                                Ok(initializes) => match scan::<EthUsdcPoolMint>(clock, events) {
                                    Err(error) => Err(error),
                                    Ok(mints) => match scan::<EthUsdcPoolSetFeeProtocol>(
                                        clock,
                                        events,
                                    ) {
                                        Err(error) => Err(error),
                                        Ok(set_fee_protocols) => Ok(
                                            EventsView {
                                                eth_usdc_pool_burns: burns,
                                                eth_usdc_pool_collects: collects,
                                                eth_usdc_pool_collect_protocols: collect_protocols,
                                                eth_usdc_pool_flashes: flashes,
                                                eth_usdc_pool_increase_observation_cardinality_nexts: nexts,
                                                eth_usdc_pool_initializes: initializes,
                                                eth_usdc_pool_mints: mints,
                                                eth_usdc_pool_set_fee_protocols: set_fee_protocols,
                                                eth_usdc_pool_swaps: swaps,
                                            },
                                        ),
                                    },
                                },
                            },
                        },
                    },
                },
            },
        },
    }
}

/// The lists `before` with the records of a block appended. Every list
/// grows by the block's records of its event; the list of swaps grows by
/// them twice, since swaps are gathered both first and last.
pub open spec fn extended(before: EventsView, block: EventsView) -> EventsView {
    EventsView {
        eth_usdc_pool_burns: before.eth_usdc_pool_burns + block.eth_usdc_pool_burns,
        eth_usdc_pool_collects: before.eth_usdc_pool_collects + block.eth_usdc_pool_collects,
        eth_usdc_pool_collect_protocols: before.eth_usdc_pool_collect_protocols
            + block.eth_usdc_pool_collect_protocols,
        eth_usdc_pool_flashes: before.eth_usdc_pool_flashes + block.eth_usdc_pool_flashes,
        eth_usdc_pool_increase_observation_cardinality_nexts:
            before.eth_usdc_pool_increase_observation_cardinality_nexts
            + block.eth_usdc_pool_increase_observation_cardinality_nexts,
        eth_usdc_pool_initializes: before.eth_usdc_pool_initializes
            + block.eth_usdc_pool_initializes,
        eth_usdc_pool_mints: before.eth_usdc_pool_mints + block.eth_usdc_pool_mints,
        eth_usdc_pool_set_fee_protocols: before.eth_usdc_pool_set_fee_protocols
            + block.eth_usdc_pool_set_fee_protocols,
        eth_usdc_pool_swaps: before.eth_usdc_pool_swaps + block.eth_usdc_pool_swaps
            + block.eth_usdc_pool_swaps,
    }
}

/// Appends `more` to `list`.
pub fn extend<R: View>(list: &mut Vec<R>, more: Vec<R>)
    ensures
        views(final(list)@) == views(old(list)@) + views(more@),
{
    let mut more = more;
    let ghost added = more@;
    list.append(&mut more);
    assert(views(list@) =~= views(old(list)@) + views(added));
}

/// Scans the events of a block for the nine events of the pool and appends
/// the records of each to its list in `events`. If the block fails, `events`
/// is left as it was.
pub fn map_eth_usdc_pool_events(clock: &Clock, input: &BlockEvents, events: &mut Events) -> (result:
    Result<(), MapError>)
    ensures
        result is Ok ==> found(clock@, input@) is Ok,
        result is Ok ==> final(events)@ == extended(old(events)@, found(clock@, input@)->Ok_0),
        result is Err ==> found(clock@, input@) == Err::<EventsView, MapError>(result->Err_0),
        result is Err ==> final(events)@ == old(events)@,
{
    let swaps = collect::<EthUsdcPoolSwap>(clock, input)?;
    let burns = collect::<EthUsdcPoolBurn>(clock, input)?;
    let collects = collect::<EthUsdcPoolCollect>(clock, input)?;
    let collect_protocols = collect::<EthUsdcPoolCollectProtocol>(clock, input)?;
    let flashes = collect::<EthUsdcPoolFlash>(clock, input)?;
    let nexts = collect::<EthUsdcPoolIncreaseObservationCardinalityNext>(clock, input)?;
    let initializes = collect::<EthUsdcPoolInitialize>(clock, input)?;
    let mints = collect::<EthUsdcPoolMint>(clock, input)?;
    let set_fee_protocols = collect::<EthUsdcPoolSetFeeProtocol>(clock, input)?;
    let swaps_again = collect::<EthUsdcPoolSwap>(clock, input)?;
    extend(&mut events.eth_usdc_pool_swaps, swaps);
    extend(&mut events.eth_usdc_pool_burns, burns);
    extend(&mut events.eth_usdc_pool_collects, collects);
    extend(&mut events.eth_usdc_pool_collect_protocols, collect_protocols);
    extend(&mut events.eth_usdc_pool_flashes, flashes);
    extend(&mut events.eth_usdc_pool_increase_observation_cardinality_nexts, nexts);
    extend(&mut events.eth_usdc_pool_initializes, initializes);
    extend(&mut events.eth_usdc_pool_mints, mints);
    extend(&mut events.eth_usdc_pool_set_fee_protocols, set_fee_protocols);
    extend(&mut events.eth_usdc_pool_swaps, swaps_again);
    Ok(())
}

/// Handles one block: the records of the pool's events in it.
pub fn map_events(clock: &Clock, input: &BlockEvents) -> (result: Result<Events, MapError>)
    ensures
        result is Ok ==> found(clock@, input@) is Ok,
        result is Ok ==> result->Ok_0@ == extended(EventsView::empty(), found(clock@, input@)->Ok_0),
        result is Err ==> found(clock@, input@) == Err::<EventsView, MapError>(result->Err_0),
{
    let mut events = Events::default();
    map_eth_usdc_pool_events(clock, input, &mut events)?;
    Ok(events)
}

} // verus!
