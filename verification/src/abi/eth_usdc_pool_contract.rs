//! The nine events of the ETH/USDC pool contract.

use vstd::prelude::*;
use crate::abi::{
    address, check_shape, data_address, data_int, data_uint, has_shape, topic_address, topic_int,
    word, DecodeError, Event,
};
use crate::bigint::{be_value, signed_be_value, BigInt};
use crate::ethereum::{Log, LogView};

verus! {

/// `Burn(address indexed owner, int24 indexed tickLower, int24 indexed tickUpper, uint128 amount, uint256 amount0, uint256 amount1)`.
#[derive(Clone, Debug, PartialEq, Eq)]
pub struct Burn {
    pub owner: Vec<u8>,
    pub tick_lower: BigInt,
    pub tick_upper: BigInt,
    pub amount: BigInt,
    pub amount0: BigInt,
    pub amount1: BigInt,
}

/// The parameters of a `Burn` event: addresses as bytes, numbers as
/// integers.
pub struct BurnView {
    pub owner: Seq<u8>,
    pub tick_lower: int,
    pub tick_upper: int,
    pub amount: int,
    pub amount0: int,
    pub amount1: int,
}

impl View for Burn {
    type V = BurnView;

    open spec fn view(&self) -> BurnView {
        BurnView {
            owner: self.owner@,
            tick_lower: self.tick_lower@,
            tick_upper: self.tick_upper@,
            amount: self.amount@,
            amount0: self.amount0@,
            amount1: self.amount1@,
        }
    }
}

/// The signature hash of `Burn`.
pub const BURN_TOPIC: [u8; 32] = [
    12, 57, 108, 217, 137, 163, 159, 68,
    89, 181, 250, 26, 237, 106, 154, 141,
    205, 188, 69, 144, 138, 207, 214, 126,
    2, 140, 213, 104, 218, 152, 152, 44,
];

impl Event for Burn {
    open spec fn matches(log: LogView) -> bool {
        has_shape(log, BURN_TOPIC@, 4, 96)
    }

    open spec fn decoded(log: LogView) -> Result<BurnView, DecodeError> {
        if log.topics[1].len() >= 32 {
            Ok(
                BurnView {
                    owner: address(log.topics[1]),
                    tick_lower: signed_be_value(log.topics[2]),
                    tick_upper: signed_be_value(log.topics[3]),
                    amount: be_value(word(log.data, 0)) as int,
                    amount0: be_value(word(log.data, 1)) as int,
                    amount1: be_value(word(log.data, 2)) as int,
                },
            )
        } else {
            Err(DecodeError::InvalidData)
        }
    }

    fn match_log(log: &Log) -> (matches: bool) {
        check_shape(log, &BURN_TOPIC, 4, 96)
    }

    fn decode(log: &Log) -> (result: Result<Self, DecodeError>) {
        Ok(
            Burn {
                owner: topic_address(&log.topics[1])?,
                tick_lower: topic_int(&log.topics[2]),
                tick_upper: topic_int(&log.topics[3]),
                amount: data_uint(&log.data, 0),
                amount0: data_uint(&log.data, 1),
                amount1: data_uint(&log.data, 2),
            },
        )
    }
}

/// `Collect(address indexed owner, address recipient, int24 indexed tickLower, int24 indexed tickUpper, uint128 amount0, uint128 amount1)`.
#[derive(Clone, Debug, PartialEq, Eq)]
pub struct Collect {
    pub owner: Vec<u8>,
    pub recipient: Vec<u8>,
    pub tick_lower: BigInt,
    pub tick_upper: BigInt,
    pub amount0: BigInt,
    pub amount1: BigInt,
}

/// The parameters of a `Collect` event: addresses as bytes, numbers as
/// integers.
pub struct CollectView {
    pub owner: Seq<u8>,
    pub recipient: Seq<u8>,
    pub tick_lower: int,
    pub tick_upper: int,
    pub amount0: int,
    pub amount1: int,
}

impl View for Collect {
    type V = CollectView;

    open spec fn view(&self) -> CollectView {
        CollectView {
            owner: self.owner@,
            recipient: self.recipient@,
            tick_lower: self.tick_lower@,
            tick_upper: self.tick_upper@,
            amount0: self.amount0@,
            amount1: self.amount1@,
        }
    }
}

/// The signature hash of `Collect`.
pub const COLLECT_TOPIC: [u8; 32] = [
    112, 147, 83, 56, 230, 151, 117, 69,
    106, 133, 221, 239, 34, 108, 57, 95,
    182, 104, 182, 63, 160, 17, 95, 95,
    32, 97, 11, 56, 142, 108, 169, 192,
];

impl Event for Collect {
    open spec fn matches(log: LogView) -> bool {
        has_shape(log, COLLECT_TOPIC@, 4, 96)
    }

    open spec fn decoded(log: LogView) -> Result<CollectView, DecodeError> {
        if log.topics[1].len() >= 32 {
            Ok(
                CollectView {
                    owner: address(log.topics[1]),
                    recipient: address(word(log.data, 0)),
                    tick_lower: signed_be_value(log.topics[2]),
                    tick_upper: signed_be_value(log.topics[3]),
                    amount0: be_value(word(log.data, 1)) as int,
                    amount1: be_value(word(log.data, 2)) as int,
                },
            )
        } else {
            Err(DecodeError::InvalidData)
        }
    }

    fn match_log(log: &Log) -> (matches: bool) {
        check_shape(log, &COLLECT_TOPIC, 4, 96)
    }

    fn decode(log: &Log) -> (result: Result<Self, DecodeError>) {
        Ok(
            Collect {
                owner: topic_address(&log.topics[1])?,
                recipient: data_address(&log.data, 0),
                tick_lower: topic_int(&log.topics[2]),
                tick_upper: topic_int(&log.topics[3]),
                amount0: data_uint(&log.data, 1),
                amount1: data_uint(&log.data, 2),
            },
        )
    }
}

/// `CollectProtocol(address indexed sender, address indexed recipient, uint128 amount0, uint128 amount1)`.
#[derive(Clone, Debug, PartialEq, Eq)]
pub struct CollectProtocol {
    pub sender: Vec<u8>,
    pub recipient: Vec<u8>,
    pub amount0: BigInt,
    pub amount1: BigInt,
}

/// The parameters of a `CollectProtocol` event: addresses as bytes, numbers as
/// integers.
pub struct CollectProtocolView {
    pub sender: Seq<u8>,
    pub recipient: Seq<u8>,
    pub amount0: int,
    pub amount1: int,
}

impl View for CollectProtocol {
    type V = CollectProtocolView;

    open spec fn view(&self) -> CollectProtocolView {
        CollectProtocolView {
            sender: self.sender@,
            recipient: self.recipient@,
            amount0: self.amount0@,
            amount1: self.amount1@,
        }
    }
}

/// The signature hash of `CollectProtocol`.
pub const COLLECT_PROTOCOL_TOPIC: [u8; 32] = [
    89, 107, 87, 57, 6, 33, 141, 52,
    17, 133, 11, 38, 166, 180, 55, 214,
    196, 82, 47, 219, 67, 210, 210, 56,
    98, 99, 248, 109, 80, 184, 177, 81,
];

impl Event for CollectProtocol {
    open spec fn matches(log: LogView) -> bool {
        has_shape(log, COLLECT_PROTOCOL_TOPIC@, 3, 64)
    }

    open spec fn decoded(log: LogView) -> Result<CollectProtocolView, DecodeError> {
        if log.topics[1].len() >= 32 && log.topics[2].len() >= 32 {
            Ok(
                CollectProtocolView {
                    sender: address(log.topics[1]),
                    recipient: address(log.topics[2]),
                    amount0: be_value(word(log.data, 0)) as int,
                    amount1: be_value(word(log.data, 1)) as int,
                },
            )
        } else {
            Err(DecodeError::InvalidData)
        }
    }

    fn match_log(log: &Log) -> (matches: bool) {
        check_shape(log, &COLLECT_PROTOCOL_TOPIC, 3, 64)
    }

    fn decode(log: &Log) -> (result: Result<Self, DecodeError>) {
        Ok(
            CollectProtocol {
                sender: topic_address(&log.topics[1])?,
                recipient: topic_address(&log.topics[2])?,
                amount0: data_uint(&log.data, 0),
                amount1: data_uint(&log.data, 1),
            },
        )
    }
}

/// `Flash(address indexed sender, address indexed recipient, uint256 amount0, uint256 amount1, uint256 paid0, uint256 paid1)`.
#[derive(Clone, Debug, PartialEq, Eq)]
pub struct Flash {
    pub sender: Vec<u8>,
    pub recipient: Vec<u8>,
    pub amount0: BigInt,
    pub amount1: BigInt,
    pub paid0: BigInt,
    pub paid1: BigInt,
}

/// The parameters of a `Flash` event: addresses as bytes, numbers as
/// integers.
pub struct FlashView {
    pub sender: Seq<u8>,
    pub recipient: Seq<u8>,
    pub amount0: int,
    pub amount1: int,
    pub paid0: int,
    pub paid1: int,
}

impl View for Flash {
    type V = FlashView;

    open spec fn view(&self) -> FlashView {
        FlashView {
            sender: self.sender@,
            recipient: self.recipient@,
            amount0: self.amount0@,
            amount1: self.amount1@,
            paid0: self.paid0@,
            paid1: self.paid1@,
        }
    }
}

/// The signature hash of `Flash`.
pub const FLASH_TOPIC: [u8; 32] = [
    189, 189, 183, 29, 120, 96, 55, 107,
    165, 43, 37, 165, 2, 139, 238, 162,
    53, 129, 54, 74, 64, 82, 47, 107,
    207, 184, 107, 177, 242, 220, 166, 51,
];

impl Event for Flash {
    open spec fn matches(log: LogView) -> bool {
        has_shape(log, FLASH_TOPIC@, 3, 128)
    }

    open spec fn decoded(log: LogView) -> Result<FlashView, DecodeError> {
        if log.topics[1].len() >= 32 && log.topics[2].len() >= 32 {
            Ok(
                FlashView {
                    sender: address(log.topics[1]),
                    recipient: address(log.topics[2]),
                    amount0: be_value(word(log.data, 0)) as int,
                    amount1: be_value(word(log.data, 1)) as int,
                    paid0: be_value(word(log.data, 2)) as int,
                    paid1: be_value(word(log.data, 3)) as int,
                },
            )
        } else {
            Err(DecodeError::InvalidData)
        }
    }

    fn match_log(log: &Log) -> (matches: bool) {
        check_shape(log, &FLASH_TOPIC, 3, 128)
    }

    fn decode(log: &Log) -> (result: Result<Self, DecodeError>) {
        Ok(
            Flash {
                sender: topic_address(&log.topics[1])?,
                recipient: topic_address(&log.topics[2])?,
                amount0: data_uint(&log.data, 0),
                amount1: data_uint(&log.data, 1),
                paid0: data_uint(&log.data, 2),
                paid1: data_uint(&log.data, 3),
            },
        )
    }
}

/// `IncreaseObservationCardinalityNext(uint16 observationCardinalityNextOld, uint16 observationCardinalityNextNew)`.
#[derive(Clone, Debug, PartialEq, Eq)]
pub struct IncreaseObservationCardinalityNext {
    pub observation_cardinality_next_old: BigInt,
    pub observation_cardinality_next_new: BigInt,
}

/// The parameters of a `IncreaseObservationCardinalityNext` event: addresses as bytes, numbers as
/// integers.
pub struct IncreaseObservationCardinalityNextView {
    pub observation_cardinality_next_old: int,
    pub observation_cardinality_next_new: int,
}

impl View for IncreaseObservationCardinalityNext {
    type V = IncreaseObservationCardinalityNextView;

    open spec fn view(&self) -> IncreaseObservationCardinalityNextView {
        IncreaseObservationCardinalityNextView {
            observation_cardinality_next_old: self.observation_cardinality_next_old@,
            observation_cardinality_next_new: self.observation_cardinality_next_new@,
        }
    }
}

/// The signature hash of `IncreaseObservationCardinalityNext`.
pub const INCREASE_OBSERVATION_CARDINALITY_NEXT_TOPIC: [u8; 32] = [
    172, 73, 229, 24, 249, 10, 53, 143,
    101, 46, 68, 0, 22, 79, 5, 165,
    216, 247, 227, 94, 119, 71, 39, 155,
    195, 169, 61, 191, 88, 78, 18, 90,
];

impl Event for IncreaseObservationCardinalityNext {
    open spec fn matches(log: LogView) -> bool {
        has_shape(log, INCREASE_OBSERVATION_CARDINALITY_NEXT_TOPIC@, 1, 64)
    }

    open spec fn decoded(log: LogView) -> Result<IncreaseObservationCardinalityNextView, DecodeError> {
        Ok(
            IncreaseObservationCardinalityNextView {
                observation_cardinality_next_old: be_value(word(log.data, 0)) as int,
                observation_cardinality_next_new: be_value(word(log.data, 1)) as int,
            },
        )
    }

    fn match_log(log: &Log) -> (matches: bool) {
        check_shape(log, &INCREASE_OBSERVATION_CARDINALITY_NEXT_TOPIC, 1, 64)
    }

    fn decode(log: &Log) -> (result: Result<Self, DecodeError>) {
        Ok(
            IncreaseObservationCardinalityNext {
                observation_cardinality_next_old: data_uint(&log.data, 0),
                observation_cardinality_next_new: data_uint(&log.data, 1),
            },
        )
    }
}

/// `Initialize(uint160 sqrtPriceX96, int24 tick)`.
#[derive(Clone, Debug, PartialEq, Eq)]
pub struct Initialize {
    pub sqrt_price_x96: BigInt,
    pub tick: BigInt,
}

/// The parameters of a `Initialize` event: addresses as bytes, numbers as
/// integers.
pub struct InitializeView {
    pub sqrt_price_x96: int,
    pub tick: int,
}

impl View for Initialize {
    type V = InitializeView;

    open spec fn view(&self) -> InitializeView {
        InitializeView {
            sqrt_price_x96: self.sqrt_price_x96@,
            tick: self.tick@,
        }
    }
}

/// The signature hash of `Initialize`.
pub const INITIALIZE_TOPIC: [u8; 32] = [
    152, 99, 96, 54, 203, 102, 169, 193,
    154, 55, 67, 94, 252, 30, 144, 20,
    33, 144, 33, 78, 138, 190, 184, 33,
    189, 186, 63, 41, 144, 221, 76, 149,
];

impl Event for Initialize {
    open spec fn matches(log: LogView) -> bool {
        has_shape(log, INITIALIZE_TOPIC@, 1, 64)
    }

    open spec fn decoded(log: LogView) -> Result<InitializeView, DecodeError> {
        Ok(
            InitializeView {
                sqrt_price_x96: be_value(word(log.data, 0)) as int,
                tick: signed_be_value(word(log.data, 1)),
            },
        )
    }

    fn match_log(log: &Log) -> (matches: bool) {
        check_shape(log, &INITIALIZE_TOPIC, 1, 64)
    }

    fn decode(log: &Log) -> (result: Result<Self, DecodeError>) {
        Ok(
            Initialize {
                sqrt_price_x96: data_uint(&log.data, 0),
                tick: data_int(&log.data, 1),
            },
        )
    }
}

/// `Mint(address sender, address indexed owner, int24 indexed tickLower, int24 indexed tickUpper, uint128 amount, uint256 amount0, uint256 amount1)`.
#[derive(Clone, Debug, PartialEq, Eq)]
pub struct Mint {
    pub sender: Vec<u8>,
    pub owner: Vec<u8>,
    pub tick_lower: BigInt,
    pub tick_upper: BigInt,
    pub amount: BigInt,
    pub amount0: BigInt,
    pub amount1: BigInt,
}

/// The parameters of a `Mint` event: addresses as bytes, numbers as
/// integers.
pub struct MintView {
    pub sender: Seq<u8>,
    pub owner: Seq<u8>,
    pub tick_lower: int,
    pub tick_upper: int,
    pub amount: int,
    pub amount0: int,
    pub amount1: int,
}

impl View for Mint {
    type V = MintView;

    open spec fn view(&self) -> MintView {
        MintView {
            sender: self.sender@,
            owner: self.owner@,
            tick_lower: self.tick_lower@,
            tick_upper: self.tick_upper@,
            amount: self.amount@,
            amount0: self.amount0@,
            amount1: self.amount1@,
        }
    }
}

/// The signature hash of `Mint`.
pub const MINT_TOPIC: [u8; 32] = [
    122, 83, 8, 11, 164, 20, 21, 139,
    231, 236, 105, 185, 135, 181, 251, 125,
    7, 222, 225, 1, 254, 133, 72, 143,
    8, 83, 174, 22, 35, 157, 11, 222,
];

impl Event for Mint {
    open spec fn matches(log: LogView) -> bool {
        has_shape(log, MINT_TOPIC@, 4, 128)
    }

    open spec fn decoded(log: LogView) -> Result<MintView, DecodeError> {
        if log.topics[1].len() >= 32 {
            Ok(
                MintView {
                    sender: address(word(log.data, 0)),
                    owner: address(log.topics[1]),
                    tick_lower: signed_be_value(log.topics[2]),
                    tick_upper: signed_be_value(log.topics[3]),
                    amount: be_value(word(log.data, 1)) as int,
                    amount0: be_value(word(log.data, 2)) as int,
                    amount1: be_value(word(log.data, 3)) as int,
                },
            )
        } else {
            Err(DecodeError::InvalidData)
        }
    }

    fn match_log(log: &Log) -> (matches: bool) {
        check_shape(log, &MINT_TOPIC, 4, 128)
    }

    fn decode(log: &Log) -> (result: Result<Self, DecodeError>) {
        Ok(
            Mint {
                sender: data_address(&log.data, 0),
                owner: topic_address(&log.topics[1])?,
                tick_lower: topic_int(&log.topics[2]),
                tick_upper: topic_int(&log.topics[3]),
                amount: data_uint(&log.data, 1),
                amount0: data_uint(&log.data, 2),
                amount1: data_uint(&log.data, 3),
            },
        )
    }
}

/// `SetFeeProtocol(uint8 feeProtocol0Old, uint8 feeProtocol1Old, uint8 feeProtocol0New, uint8 feeProtocol1New)`.
#[derive(Clone, Debug, PartialEq, Eq)]
pub struct SetFeeProtocol {
    pub fee_protocol0_old: BigInt,
    pub fee_protocol1_old: BigInt,
    pub fee_protocol0_new: BigInt,
    pub fee_protocol1_new: BigInt,
}

/// The parameters of a `SetFeeProtocol` event: addresses as bytes, numbers as
/// integers.
pub struct SetFeeProtocolView {
    pub fee_protocol0_old: int,
    pub fee_protocol1_old: int,
    pub fee_protocol0_new: int,
    pub fee_protocol1_new: int,
}

impl View for SetFeeProtocol {
    type V = SetFeeProtocolView;

    open spec fn view(&self) -> SetFeeProtocolView {
        SetFeeProtocolView {
            fee_protocol0_old: self.fee_protocol0_old@,
            fee_protocol1_old: self.fee_protocol1_old@,
            fee_protocol0_new: self.fee_protocol0_new@,
            fee_protocol1_new: self.fee_protocol1_new@,
        }
    }
}

/// The signature hash of `SetFeeProtocol`.
pub const SET_FEE_PROTOCOL_TOPIC: [u8; 32] = [
    151, 61, 141, 146, 187, 41, 159, 74,
    246, 206, 73, 181, 42, 138, 219, 133,
    174, 70, 185, 242, 20, 196, 196, 252,
    6, 172, 119, 64, 18, 55, 177, 51,
];

impl Event for SetFeeProtocol {
    open spec fn matches(log: LogView) -> bool {
        has_shape(log, SET_FEE_PROTOCOL_TOPIC@, 1, 128)
    }

    open spec fn decoded(log: LogView) -> Result<SetFeeProtocolView, DecodeError> {
        Ok(
            SetFeeProtocolView {
                fee_protocol0_old: be_value(word(log.data, 0)) as int,
                fee_protocol1_old: be_value(word(log.data, 1)) as int,
                fee_protocol0_new: be_value(word(log.data, 2)) as int,
                fee_protocol1_new: be_value(word(log.data, 3)) as int,
            },
        )
    }

    fn match_log(log: &Log) -> (matches: bool) {
        check_shape(log, &SET_FEE_PROTOCOL_TOPIC, 1, 128)
    }

    fn decode(log: &Log) -> (result: Result<Self, DecodeError>) {
        Ok(
            SetFeeProtocol {
                fee_protocol0_old: data_uint(&log.data, 0),
                fee_protocol1_old: data_uint(&log.data, 1),
                fee_protocol0_new: data_uint(&log.data, 2),
                fee_protocol1_new: data_uint(&log.data, 3),
            },
        )
    }
}

/// `Swap(address indexed sender, address indexed recipient, int256 amount0, int256 amount1, uint160 sqrtPriceX96, uint128 liquidity, int24 tick)`.
#[derive(Clone, Debug, PartialEq, Eq)]
pub struct Swap {
    pub sender: Vec<u8>,
    pub recipient: Vec<u8>,
    pub amount0: BigInt,
    pub amount1: BigInt,
    pub sqrt_price_x96: BigInt,
    pub liquidity: BigInt,
    pub tick: BigInt,
}

/// The parameters of a `Swap` event: addresses as bytes, numbers as
/// integers.
pub struct SwapView {
    pub sender: Seq<u8>,
    pub recipient: Seq<u8>,
    pub amount0: int,
    pub amount1: int,
    pub sqrt_price_x96: int,
    pub liquidity: int,
    pub tick: int,
}

impl View for Swap {
    type V = SwapView;

    open spec fn view(&self) -> SwapView {
        SwapView {
            sender: self.sender@,
            recipient: self.recipient@,
            amount0: self.amount0@,
            amount1: self.amount1@,
            sqrt_price_x96: self.sqrt_price_x96@,
            liquidity: self.liquidity@,
            tick: self.tick@,
        }
    }
}

/// The signature hash of `Swap`.
pub const SWAP_TOPIC: [u8; 32] = [
    196, 32, 121, 249, 74, 99, 80, 215,
    230, 35, 95, 41, 23, 73, 36, 249,
    40, 204, 42, 200, 24, 235, 100, 254,
    216, 0, 78, 17, 95, 188, 202, 103,
];

impl Event for Swap {
    open spec fn matches(log: LogView) -> bool {
        has_shape(log, SWAP_TOPIC@, 3, 160)
    }

    open spec fn decoded(log: LogView) -> Result<SwapView, DecodeError> {
        if log.topics[1].len() >= 32 && log.topics[2].len() >= 32 {
            Ok(
                SwapView {
                    sender: address(log.topics[1]),
                    recipient: address(log.topics[2]),
                    amount0: signed_be_value(word(log.data, 0)),
                    amount1: signed_be_value(word(log.data, 1)),
                    sqrt_price_x96: be_value(word(log.data, 2)) as int,
                    liquidity: be_value(word(log.data, 3)) as int,
                    tick: signed_be_value(word(log.data, 4)),
                },
            )
        } else {
            Err(DecodeError::InvalidData)
        }
    }

    fn match_log(log: &Log) -> (matches: bool) {
        check_shape(log, &SWAP_TOPIC, 3, 160)
    }

    fn decode(log: &Log) -> (result: Result<Self, DecodeError>) {
        Ok(
            Swap {
                sender: topic_address(&log.topics[1])?,
                recipient: topic_address(&log.topics[2])?,
                amount0: data_int(&log.data, 0),
                amount1: data_int(&log.data, 1),
                sqrt_price_x96: data_uint(&log.data, 2),
                liquidity: data_uint(&log.data, 3),
                tick: data_int(&log.data, 4),
            },
        )
    }
}

/// The nine signature hashes differ from one another, so a log is of at
/// most one event.
pub proof fn lemma_events_exclude_each_other(log: LogView)
    ensures
        Burn::matches(log) ==> !Collect::matches(log) && !CollectProtocol::matches(log)
            && !Flash::matches(log) && !IncreaseObservationCardinalityNext::matches(log)
            && !Initialize::matches(log) && !Mint::matches(log) && !SetFeeProtocol::matches(log)
            && !Swap::matches(log),
        Collect::matches(log) ==> !CollectProtocol::matches(log) && !Flash::matches(log)
            && !IncreaseObservationCardinalityNext::matches(log) && !Initialize::matches(log)
            && !Mint::matches(log) && !SetFeeProtocol::matches(log) && !Swap::matches(log),
        CollectProtocol::matches(log) ==> !Flash::matches(log)
            && !IncreaseObservationCardinalityNext::matches(log) && !Initialize::matches(log)
            && !Mint::matches(log) && !SetFeeProtocol::matches(log) && !Swap::matches(log),
        Flash::matches(log) ==> !IncreaseObservationCardinalityNext::matches(log)
            && !Initialize::matches(log) && !Mint::matches(log) && !SetFeeProtocol::matches(log)
            && !Swap::matches(log),
        IncreaseObservationCardinalityNext::matches(log) ==> !Initialize::matches(log)
            && !Mint::matches(log) && !SetFeeProtocol::matches(log) && !Swap::matches(log),
        Initialize::matches(log) ==> !Mint::matches(log) && !SetFeeProtocol::matches(log)
            && !Swap::matches(log),
        Mint::matches(log) ==> !SetFeeProtocol::matches(log) && !Swap::matches(log),
        SetFeeProtocol::matches(log) ==> !Swap::matches(log),
{
    assert(BURN_TOPIC@[0] == 12);
    assert(COLLECT_TOPIC@[0] == 112);
    assert(COLLECT_PROTOCOL_TOPIC@[0] == 89);
    assert(FLASH_TOPIC@[0] == 189);
    assert(INCREASE_OBSERVATION_CARDINALITY_NEXT_TOPIC@[0] == 172);
    assert(INITIALIZE_TOPIC@[0] == 152);
    assert(MINT_TOPIC@[0] == 122);
    assert(SET_FEE_PROTOCOL_TOPIC@[0] == 151);
    assert(SWAP_TOPIC@[0] == 196);
}

} // verus!
