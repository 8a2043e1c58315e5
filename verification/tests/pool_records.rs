use eth_handlers::abi::eth_usdc_pool_contract::{
    BURN_TOPIC, COLLECT_PROTOCOL_TOPIC, COLLECT_TOPIC, FLASH_TOPIC,
    INCREASE_OBSERVATION_CARDINALITY_NEXT_TOPIC, INITIALIZE_TOPIC, MINT_TOPIC,
    SET_FEE_PROTOCOL_TOPIC, SWAP_TOPIC,
};
use eth_handlers::bigint::BigInt;
use eth_handlers::contract::{
    EthUsdcPoolBurn, EthUsdcPoolCollect, EthUsdcPoolCollectProtocol, EthUsdcPoolFlash,
    EthUsdcPoolIncreaseObservationCardinalityNext, EthUsdcPoolInitialize, EthUsdcPoolMint,
    EthUsdcPoolSetFeeProtocol, EthUsdcPoolSwap, Events as Records,
};
use eth_handlers::ethereum::{Clock, Event, Events, Log};
use eth_handlers::pool::{
    collect, extend, map_eth_usdc_pool_events, map_events, narrow_i64, narrow_u64, record_of,
    MapError,
};
use eth_handlers::time::Timestamp;

const ALICE: [u8; 20] = [0xa1; 20];
const BOB: [u8; 20] = [0xb2; 20];

fn uint_word(value: u128) -> Vec<u8> {
    let mut word = vec![0u8; 16];
    word.extend_from_slice(&value.to_be_bytes());
    word
}

fn int_word(value: i128) -> Vec<u8> {
    let fill = if value < 0 { 0xffu8 } else { 0u8 };
    let mut word = vec![fill; 16];
    word.extend_from_slice(&value.to_be_bytes());
    word
}

fn address_word(address: &[u8; 20]) -> Vec<u8> {
    let mut word = vec![0u8; 12];
    word.extend_from_slice(address);
    word
}

fn words(words: Vec<Vec<u8>>) -> Vec<u8> {
    words.into_iter().flatten().collect()
}

fn clock() -> Clock {
    Clock {
        id: String::from("0xabc"),
        number: 17_000_000,
        timestamp: Some(Timestamp { seconds: 1_681_000_000, nanos: 0 }),
    }
}

fn event(tx: u8, index: u32, topics: Vec<Vec<u8>>, data: Vec<u8>) -> Event {
    Event { log: Some(Log { topics, data, block_index: index }), tx_hash: vec![tx; 32] }
}

fn swap(tx: u8, index: u32, tick: i128) -> Event {
    event(
        tx,
        index,
        vec![SWAP_TOPIC.to_vec(), address_word(&ALICE), address_word(&BOB)],
        words(vec![int_word(-5), int_word(6), uint_word(7), uint_word(8), int_word(tick)]),
    )
}

fn burn(tx: u8, index: u32, lower: Vec<u8>, upper: Vec<u8>) -> Event {
    event(
        tx,
        index,
        vec![BURN_TOPIC.to_vec(), address_word(&ALICE), lower, upper],
        words(vec![uint_word(1), uint_word(2), uint_word(3)]),
    )
}

fn transfer(tx: u8, index: u32) -> Event {
    let topic = vec![
        0xdd, 0xf2, 0x52, 0xad, 0x1b, 0xe2, 0xc8, 0x9b, 0x69, 0xc2, 0xb0, 0x68, 0xfc, 0x37, 0x8d,
        0xaa, 0x95, 0x2b, 0xa7, 0xf1, 0x63, 0xc4, 0xa1, 0x16, 0x28, 0xf5, 0x5a, 0x4d, 0xf5, 0x23,
        0xb3, 0xef,
    ];
    event(tx, index, vec![topic, address_word(&ALICE), address_word(&BOB)], uint_word(1))
}

fn swap_record(tx: u8, index: u32, tick: i64) -> EthUsdcPoolSwap {
    EthUsdcPoolSwap {
        evt_tx_hash: vec![tx; 32],
        evt_index: index,
        evt_block_time: Some(Timestamp { seconds: 1_681_000_000, nanos: 0 }),
        evt_block_number: 17_000_000,
        amount0: String::from("-5"),
        amount1: String::from("6"),
        liquidity: String::from("8"),
        recipient: BOB.to_vec(),
        sender: ALICE.to_vec(),
        sqrt_price_x96: String::from("7"),
        tick,
    }
}

fn no_records() -> Records {
    Records {
        eth_usdc_pool_burns: vec![],
        eth_usdc_pool_collects: vec![],
        eth_usdc_pool_collect_protocols: vec![],
        eth_usdc_pool_flashes: vec![],
        eth_usdc_pool_increase_observation_cardinality_nexts: vec![],
        eth_usdc_pool_initializes: vec![],
        eth_usdc_pool_mints: vec![],
        eth_usdc_pool_set_fee_protocols: vec![],
        eth_usdc_pool_swaps: vec![],
    }
}

#[test]
fn empty_block_has_no_records() {
    assert_eq!(map_events(&clock(), &Events { events: vec![] }), Ok(no_records()));
    assert_eq!(Records::new(), no_records());
    assert_eq!(Records::default(), no_records());
}

#[test]
fn swap_becomes_a_record_under_the_stated_conversions() {
    let input = Events { events: vec![swap(0x11, 3, -887_272)] };
    assert_eq!(
        collect::<EthUsdcPoolSwap>(&clock(), &input),
        Ok(vec![swap_record(0x11, 3, -887_272)])
    );
}

#[test]
fn swaps_are_recorded_twice_per_block() {
    let input = Events { events: vec![swap(0x11, 3, 10), swap(0x12, 9, -10)] };
    let records = map_events(&clock(), &input).unwrap();
    assert_eq!(
        records.eth_usdc_pool_swaps,
        vec![
            swap_record(0x11, 3, 10),
            swap_record(0x12, 9, -10),
            swap_record(0x11, 3, 10),
            swap_record(0x12, 9, -10),
        ]
    );
    assert!(records.eth_usdc_pool_burns.is_empty());
    assert!(records.eth_usdc_pool_mints.is_empty());
}

#[test]
fn every_event_lands_in_its_own_list() {
    let input = Events {
        events: vec![
            burn(1, 0, int_word(-60), int_word(60)),
            event(
                2,
                1,
                vec![COLLECT_TOPIC.to_vec(), address_word(&ALICE), int_word(-1), int_word(1)],
                words(vec![address_word(&BOB), uint_word(11), uint_word(12)]),
            ),
            event(
                3,
                2,
                vec![COLLECT_PROTOCOL_TOPIC.to_vec(), address_word(&ALICE), address_word(&BOB)],
                words(vec![uint_word(21), uint_word(22)]),
            ),
            event(
                4,
                3,
                vec![FLASH_TOPIC.to_vec(), address_word(&ALICE), address_word(&BOB)],
                words(vec![uint_word(31), uint_word(32), uint_word(33), uint_word(34)]),
            ),
            event(
                5,
                4,
                vec![INCREASE_OBSERVATION_CARDINALITY_NEXT_TOPIC.to_vec()],
                words(vec![uint_word(41), uint_word(42)]),
            ),
            event(6, 5, vec![INITIALIZE_TOPIC.to_vec()], words(vec![uint_word(51), int_word(-52)])),
            event(
                7,
                6,
                vec![MINT_TOPIC.to_vec(), address_word(&ALICE), int_word(-70), int_word(70)],
                words(vec![address_word(&BOB), uint_word(61), uint_word(62), uint_word(63)]),
            ),
            event(
                8,
                7,
                vec![SET_FEE_PROTOCOL_TOPIC.to_vec()],
                words(vec![uint_word(71), uint_word(72), uint_word(73), uint_word(74)]),
            ),
            swap(9, 8, 80),
        ],
    };
    let time = Some(Timestamp { seconds: 1_681_000_000, nanos: 0 });
    let number = 17_000_000;
    let expected = Records {
        eth_usdc_pool_burns: vec![EthUsdcPoolBurn {
            evt_tx_hash: vec![1; 32],
            evt_index: 0,
            evt_block_time: time,
            evt_block_number: number,
            amount: String::from("1"),
            amount0: String::from("2"),
            amount1: String::from("3"),
            owner: ALICE.to_vec(),
            tick_lower: -60,
            tick_upper: 60,
        }],
        eth_usdc_pool_collects: vec![EthUsdcPoolCollect {
            evt_tx_hash: vec![2; 32],
            evt_index: 1,
            evt_block_time: time,
            evt_block_number: number,
            amount0: String::from("11"),
            amount1: String::from("12"),
            owner: ALICE.to_vec(),
            recipient: BOB.to_vec(),
            tick_lower: -1,
            tick_upper: 1,
        }],
        eth_usdc_pool_collect_protocols: vec![EthUsdcPoolCollectProtocol {
            evt_tx_hash: vec![3; 32],
            evt_index: 2,
            evt_block_time: time,
            evt_block_number: number,
            amount0: String::from("21"),
            amount1: String::from("22"),
            recipient: BOB.to_vec(),
            sender: ALICE.to_vec(),
        }],
        eth_usdc_pool_flashes: vec![EthUsdcPoolFlash {
            evt_tx_hash: vec![4; 32],
            evt_index: 3,
            evt_block_time: time,
            evt_block_number: number,
            amount0: String::from("31"),
            amount1: String::from("32"),
            paid0: String::from("33"),
            paid1: String::from("34"),
            recipient: BOB.to_vec(),
            sender: ALICE.to_vec(),
        }],
        eth_usdc_pool_increase_observation_cardinality_nexts: vec![
            EthUsdcPoolIncreaseObservationCardinalityNext {
                evt_tx_hash: vec![5; 32],
                evt_index: 4,
                evt_block_time: time,
                evt_block_number: number,
                observation_cardinality_next_new: 42,
                observation_cardinality_next_old: 41,
            },
        ],
        eth_usdc_pool_initializes: vec![EthUsdcPoolInitialize {
            evt_tx_hash: vec![6; 32],
            evt_index: 5,
            evt_block_time: time,
            evt_block_number: number,
            sqrt_price_x96: String::from("51"),
            tick: -52,
        }],
        eth_usdc_pool_mints: vec![EthUsdcPoolMint {
            evt_tx_hash: vec![7; 32],
            evt_index: 6,
            evt_block_time: time,
            evt_block_number: number,
            amount: String::from("61"),
            amount0: String::from("62"),
            amount1: String::from("63"),
            owner: ALICE.to_vec(),
            sender: BOB.to_vec(),
            tick_lower: -70,
            tick_upper: 70,
        }],
        eth_usdc_pool_set_fee_protocols: vec![EthUsdcPoolSetFeeProtocol {
            evt_tx_hash: vec![8; 32],
            evt_index: 7,
            evt_block_time: time,
            evt_block_number: number,
            fee_protocol0_new: 73,
            fee_protocol0_old: 71,
            fee_protocol1_new: 74,
            fee_protocol1_old: 72,
        }],
        eth_usdc_pool_swaps: vec![swap_record(9, 8, 80), swap_record(9, 8, 80)],
    };
    assert_eq!(map_events(&clock(), &input), Ok(expected));
}

#[test]
fn logs_of_no_known_event_are_dropped() {
    let input = Events {
        events: vec![
            transfer(1, 0),
            swap(2, 1, 5),
            event(3, 2, vec![], vec![]),
            event(4, 3, vec![vec![0u8; 32]], vec![0u8; 64]),
            transfer(5, 4),
        ],
    };
    let records = map_events(&clock(), &input).unwrap();
    let mut expected = no_records();
    expected.eth_usdc_pool_swaps = vec![swap_record(2, 1, 5), swap_record(2, 1, 5)];
    assert_eq!(records, expected);
    let only_unknown = Events { events: vec![transfer(1, 0), transfer(5, 4)] };
    assert_eq!(map_events(&clock(), &only_unknown), Ok(no_records()));
}

#[test]
fn known_signature_with_another_shape_is_dropped() {
    let mut short = swap(1, 0, 5);
    short.log.as_mut().unwrap().data.truncate(128);
    let mut extra_topic = swap(2, 1, 5);
    extra_topic.log.as_mut().unwrap().topics.push(vec![0u8; 32]);
    let input = Events { events: vec![short, extra_topic] };
    assert_eq!(map_events(&clock(), &input), Ok(no_records()));
}

#[test]
fn log_that_fails_to_decode_is_dropped() {
    let mut broken = swap(1, 0, 5);
    broken.log.as_mut().unwrap().topics[1].truncate(20);
    let input = Events { events: vec![broken, swap(2, 1, 6)] };
    assert_eq!(
        collect::<EthUsdcPoolSwap>(&clock(), &input),
        Ok(vec![swap_record(2, 1, 6)])
    );
    assert_eq!(record_of::<EthUsdcPoolSwap>(&clock(), &input.events[0]), Ok(None));
}

#[test]
fn records_keep_block_order() {
    let input = Events {
        events: vec![swap(3, 30, 1), transfer(9, 31), swap(1, 32, 2), swap(2, 33, 3)],
    };
    assert_eq!(
        collect::<EthUsdcPoolSwap>(&clock(), &input),
        Ok(vec![swap_record(3, 30, 1), swap_record(1, 32, 2), swap_record(2, 33, 3)])
    );
}

#[test]
fn record_copies_the_clock() {
    let early = Clock { id: String::new(), number: 0, timestamp: None };
    let record = record_of::<EthUsdcPoolSwap>(&early, &swap(1, u32::MAX, 0)).unwrap().unwrap();
    assert_eq!(record.evt_block_time, None);
    assert_eq!(record.evt_block_number, 0);
    assert_eq!(record.evt_index, u32::MAX);
    let late = Clock {
        id: String::new(),
        number: u64::MAX,
        timestamp: Some(Timestamp { seconds: -5, nanos: 7 }),
    };
    let record = record_of::<EthUsdcPoolSwap>(&late, &swap(1, 0, 0)).unwrap().unwrap();
    assert_eq!(record.evt_block_time, Some(Timestamp { seconds: -5, nanos: 7 }));
    assert_eq!(record.evt_block_number, u64::MAX);
}

#[test]
fn event_without_log_fails_the_block() {
    let input = Events {
        events: vec![swap(1, 0, 5), Event { log: None, tx_hash: vec![2; 32] }, swap(3, 2, 5)],
    };
    assert_eq!(map_events(&clock(), &input), Err(MapError::MissingLog));
    assert_eq!(collect::<EthUsdcPoolBurn>(&clock(), &input), Err(MapError::MissingLog));
    assert_eq!(
        record_of::<EthUsdcPoolMint>(&clock(), &input.events[1]),
        Err(MapError::MissingLog)
    );
}

#[test]
fn tick_beyond_64_bits_fails_the_block() {
    let too_high = swap(1, 0, i64::MAX as i128 + 1);
    let too_low = swap(1, 0, i64::MIN as i128 - 1);
    assert_eq!(
        map_events(&clock(), &Events { events: vec![too_high] }),
        Err(MapError::Overflow)
    );
    assert_eq!(
        map_events(&clock(), &Events { events: vec![too_low] }),
        Err(MapError::Overflow)
    );
    let highest = swap(1, 0, i64::MAX as i128);
    let lowest = swap(2, 1, i64::MIN as i128);
    assert_eq!(
        collect::<EthUsdcPoolSwap>(&clock(), &Events { events: vec![highest, lowest] }),
        Ok(vec![swap_record(1, 0, i64::MAX), swap_record(2, 1, i64::MIN)])
    );
}

#[test]
fn tick_topic_of_any_length_is_narrowed() {
    let short = burn(1, 0, vec![0xff], vec![]);
    let records = collect::<EthUsdcPoolBurn>(&clock(), &Events { events: vec![short] }).unwrap();
    assert_eq!((records[0].tick_lower, records[0].tick_upper), (-1, 0));
    let mut long = vec![0x01];
    long.extend(vec![0u8; 32]);
    let wide = burn(1, 0, int_word(5), long);
    assert_eq!(
        collect::<EthUsdcPoolBurn>(&clock(), &Events { events: vec![wide] }),
        Err(MapError::Overflow)
    );
}

#[test]
fn small_number_beyond_64_bits_fails_the_block() {
    let fits = event(
        1,
        0,
        vec![INCREASE_OBSERVATION_CARDINALITY_NEXT_TOPIC.to_vec()],
        words(vec![uint_word(0), uint_word(u64::MAX as u128)]),
    );
    let records = collect::<EthUsdcPoolIncreaseObservationCardinalityNext>(
        &clock(),
        &Events { events: vec![fits] },
    )
    .unwrap();
    assert_eq!(records[0].observation_cardinality_next_new, u64::MAX);
    assert_eq!(records[0].observation_cardinality_next_old, 0);
    let wide = event(
        1,
        0,
        vec![INCREASE_OBSERVATION_CARDINALITY_NEXT_TOPIC.to_vec()],
        words(vec![uint_word(u64::MAX as u128 + 1), uint_word(1)]),
    );
    assert_eq!(map_events(&clock(), &Events { events: vec![wide] }), Err(MapError::Overflow));
    let fee = event(
        1,
        0,
        vec![SET_FEE_PROTOCOL_TOPIC.to_vec()],
        words(vec![uint_word(1), uint_word(2), uint_word(3), vec![0xff; 32]]),
    );
    assert_eq!(map_events(&clock(), &Events { events: vec![fee] }), Err(MapError::Overflow));
}

#[test]
fn swaps_are_gathered_before_the_other_events() {
    // The burn's tick overflows, but the scan for swaps meets the missing log first.
    let mut wide = vec![0x01];
    wide.extend(vec![0u8; 32]);
    let input = Events {
        events: vec![burn(1, 0, wide.clone(), int_word(0)), Event { log: None, tx_hash: vec![] }],
    };
    assert_eq!(map_events(&clock(), &input), Err(MapError::MissingLog));
    assert_eq!(collect::<EthUsdcPoolBurn>(&clock(), &input), Err(MapError::Overflow));
    // Within one scan the first failure in block order is the one returned.
    let input = Events {
        events: vec![swap(1, 0, i128::MAX), Event { log: None, tx_hash: vec![] }],
    };
    assert_eq!(map_events(&clock(), &input), Err(MapError::Overflow));
}

#[test]
fn records_are_appended_to_those_already_there() {
    let mut records = no_records();
    let first = Events { events: vec![swap(1, 0, 1), burn(2, 1, int_word(-1), int_word(1))] };
    let second = Events { events: vec![burn(3, 0, int_word(-2), int_word(2))] };
    assert_eq!(map_eth_usdc_pool_events(&clock(), &first, &mut records), Ok(()));
    assert_eq!(map_eth_usdc_pool_events(&clock(), &second, &mut records), Ok(()));
    assert_eq!(records.eth_usdc_pool_swaps, vec![swap_record(1, 0, 1), swap_record(1, 0, 1)]);
    assert_eq!(records.eth_usdc_pool_burns.len(), 2);
    assert_eq!(records.eth_usdc_pool_burns[0].evt_tx_hash, vec![2; 32]);
    assert_eq!(records.eth_usdc_pool_burns[1].evt_tx_hash, vec![3; 32]);
    assert_eq!(records.eth_usdc_pool_burns[1].tick_lower, -2);
}

#[test]
fn failed_block_leaves_the_records_as_they_were() {
    let mut records = no_records();
    let good = Events { events: vec![swap(1, 0, 1)] };
    map_eth_usdc_pool_events(&clock(), &good, &mut records).unwrap();
    let before = records.clone();
    let bad = Events {
        events: vec![swap(2, 0, 2), burn(3, 1, int_word(0), int_word(0)), Event { log: None, tx_hash: vec![] }],
    };
    assert_eq!(
        map_eth_usdc_pool_events(&clock(), &bad, &mut records),
        Err(MapError::MissingLog)
    );
    assert_eq!(records, before);
}

#[test]
fn narrowing_reports_overflow() {
    assert_eq!(narrow_i64(&BigInt::from_signed_bytes_be(&[0xfe])), Ok(-2));
    assert_eq!(narrow_i64(&BigInt::from_unsigned_bytes_be(&[0xff; 8])), Err(MapError::Overflow));
    assert_eq!(narrow_u64(&BigInt::from_unsigned_bytes_be(&[0xff; 8])), Ok(u64::MAX));
    assert_eq!(narrow_u64(&BigInt::from_signed_bytes_be(&[0xfe])), Err(MapError::Overflow));
}

#[test]
fn extend_appends_in_order() {
    let mut list = vec![swap_record(1, 0, 1)];
    extend(&mut list, vec![swap_record(2, 0, 2), swap_record(3, 0, 3)]);
    assert_eq!(list, vec![swap_record(1, 0, 1), swap_record(2, 0, 2), swap_record(3, 0, 3)]);
}
