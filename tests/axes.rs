use libreskop::axis::{pack, Accumulator};
use libreskop::event::{decode_event, RawEvent, EVENT_SIZE};

fn sync() -> RawEvent {
    RawEvent { kind: 0, code: 0, value: 0 }
}

fn data(code: u16, value: i32) -> RawEvent {
    RawEvent { kind: 3, code, value }
}

fn record(kind: u16, code: u16, value: i32) -> Vec<u8> {
    let mut b = vec![0xAAu8; 16];
    b.extend_from_slice(&kind.to_le_bytes());
    b.extend_from_slice(&code.to_le_bytes());
    b.extend_from_slice(&value.to_le_bytes());
    b
}

#[test]
fn sync_alone_publishes_zero() {
    let mut acc = Accumulator::new();
    assert_eq!(acc.apply(&sync()), Some(0));
    assert_eq!(acc.snapshot(), 0);
}

#[test]
fn sync_packs_latched_values() {
    let mut acc = Accumulator::new();
    assert_eq!(acc.apply(&data(0, 5)), None);
    assert_eq!(acc.apply(&data(1, 10)), None);
    assert_eq!(acc.apply(&sync()), Some(1290));
    assert_eq!(acc.snapshot(), 1290);
}

#[test]
fn large_x_wraps_around() {
    let mut acc = Accumulator::new();
    acc.apply(&data(0, 300));
    acc.apply(&data(1, 0));
    // (300 * 256) mod 65536 = 76800 - 65536
    assert_eq!(acc.apply(&sync()), Some(11264));
    assert_eq!(pack(300, 0), ((300u32 * 256) % 65536) as u16);
}

#[test]
fn pack_reduces_modulo_65536() {
    assert_eq!(pack(5, 10), 1290);
    assert_eq!(pack(255, 255), 65535);
    assert_eq!(pack(256, 0), 0);
    assert_eq!(pack(-1, 0), 65280);
    assert_eq!(pack(0, -1), 65535);
    assert_eq!(pack(i32::MAX, i32::MAX), 65279);
    assert_eq!(pack(i32::MIN, i32::MIN), 0);
}

#[test]
fn other_events_change_nothing() {
    let mut acc = Accumulator::new();
    acc.apply(&data(0, 7));
    assert_eq!(acc.apply(&RawEvent { kind: 1, code: 0, value: 99 }), None);
    assert_eq!(acc.apply(&data(2, 99)), None);
    assert_eq!(acc.apply(&RawEvent { kind: 3, code: 1, value: 4 }), None);
    assert_eq!(acc.x(), 7);
    assert_eq!(acc.y(), 4);
    assert_eq!(acc.snapshot(), 0);
    assert_eq!(acc.apply(&sync()), Some(7 * 256 + 4));
}

#[test]
fn later_sync_replaces_snapshot() {
    let mut acc = Accumulator::new();
    acc.apply(&data(0, 1));
    acc.apply(&sync());
    acc.apply(&data(0, 2));
    assert_eq!(acc.snapshot(), 256);
    assert_eq!(acc.apply(&sync()), Some(512));
    assert_eq!(acc.snapshot(), 512);
}

#[test]
fn decode_reads_fixed_offsets() {
    assert_eq!(EVENT_SIZE, 24);
    let b = record(3, 1, 1290);
    assert_eq!(b.len(), EVENT_SIZE);
    assert_eq!(decode_event(&b), Some(RawEvent { kind: 3, code: 1, value: 1290 }));
}

#[test]
fn decode_negative_and_extreme_values() {
    assert_eq!(decode_event(&record(3, 0, -1)), Some(data(0, -1)));
    assert_eq!(decode_event(&record(3, 0, i32::MIN)), Some(data(0, i32::MIN)));
    assert_eq!(decode_event(&record(0xFFFF, 0xFFFF, i32::MAX)),
        Some(RawEvent { kind: 0xFFFF, code: 0xFFFF, value: i32::MAX }));
}

#[test]
fn decode_byte_fixture() {
    let mut b = vec![0u8; 24];
    b[16] = 0x03;
    b[18] = 0x01;
    b[20] = 0x0A;
    b[21] = 0x05;
    assert_eq!(decode_event(&b), Some(RawEvent { kind: 3, code: 1, value: 0x050A }));
}

#[test]
fn decode_short_record_fails() {
    let b = record(0, 0, 0);
    assert_eq!(decode_event(&b[..23]), None);
    assert_eq!(decode_event(&[]), None);
}

#[test]
fn decode_ignores_bytes_past_the_record() {
    let mut b = record(3, 0, 42);
    b.extend_from_slice(&record(0, 0, 0));
    assert_eq!(decode_event(&b), Some(data(0, 42)));
}

#[test]
fn decoded_records_drive_accumulator() {
    let mut acc = Accumulator::new();
    let mut last = None;
    for b in [record(3, 0, 5), record(3, 1, 10), record(0, 0, 0)] {
        let e = decode_event(&b).unwrap();
        last = acc.apply(&e);
    }
    assert_eq!(last, Some(1290));
}
