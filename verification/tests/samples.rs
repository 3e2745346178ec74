use tracer::event::{
    consume, decode_event, decode_native, event_from_words, handle_delivery, handle_event,
    handle_event_in, handle_lost_events, queue_notice, read_word, DecodeFault, Delivery, Endian,
    Event, Notice,
};

#[test]
fn sixteen_bytes_decode_to_both_fields() {
    let data: [u8; 16] = [0, 0, 0, 0, 0, 0, 0, 0x2A, 0, 0, 0, 0, 0, 0, 0, 0x01];
    assert_eq!(
        decode_event(&data, Endian::Big),
        Ok(Event { event_head: 0x2A, queue_len: 1 })
    );
    assert_eq!(
        handle_event_in(1, &data, Endian::Big),
        Notice::Queue(Event { event_head: 0x2A, queue_len: 1 })
    );
}

#[test]
fn little_endian_sample_decodes_least_significant_byte_first() {
    let data: [u8; 16] = [0x2A, 0, 0, 0, 0, 0, 0, 0, 0x01, 0, 0, 0, 0, 0, 0, 0];
    assert_eq!(
        decode_event(&data, Endian::Little),
        Ok(Event { event_head: 0x2A, queue_len: 1 })
    );
}

#[test]
fn byte_order_changes_the_value() {
    let data: [u8; 16] = [0, 0, 0, 0, 0, 0, 0, 0x2A, 0, 0, 0, 0, 0, 0, 0, 0x01];
    assert_eq!(
        decode_event(&data, Endian::Little),
        Ok(Event { event_head: 0x2A00_0000_0000_0000, queue_len: 0x0100_0000_0000_0000 })
    );
}

#[test]
fn every_byte_has_its_weight() {
    let data: [u8; 8] = [0x01, 0x23, 0x45, 0x67, 0x89, 0xAB, 0xCD, 0xEF];
    assert_eq!(read_word(&data, Endian::Big), 0x0123_4567_89AB_CDEF);
    assert_eq!(read_word(&data, Endian::Little), 0xEFCD_AB89_6745_2301);
    assert_eq!(read_word(&data, Endian::Little), u64::from_le_bytes(data));
    assert_eq!(read_word(&data, Endian::Big), u64::from_be_bytes(data));
}

#[test]
fn word_is_read_from_the_front_of_a_longer_buffer() {
    let data: [u8; 10] = [0xFF, 0xFF, 0xFF, 0xFF, 0xFF, 0xFF, 0xFF, 0xFF, 0x11, 0x22];
    assert_eq!(read_word(&data, Endian::Little), u64::MAX);
    assert_eq!(read_word(&data, Endian::Big), u64::MAX);
}

#[test]
fn trailing_bytes_are_ignored() {
    let mut data = vec![0u8; 16];
    data[0] = 7;
    data[8] = 9;
    data.extend_from_slice(&[0xFF, 0xEE, 0xDD]);
    assert_eq!(
        decode_event(&data, Endian::Little),
        Ok(Event { event_head: 7, queue_len: 9 })
    );
}

#[test]
fn short_sample_is_a_decode_fault() {
    let data = [0u8; 15];
    assert_eq!(
        decode_event(&data, Endian::Little),
        Err(DecodeFault { channel: 1, expected: 16, actual: 15 })
    );
    assert_eq!(
        handle_event_in(1, &data, Endian::Little),
        Notice::Malformed(DecodeFault { channel: 1, expected: 16, actual: 15 })
    );
    assert_eq!(
        handle_event_in(1, &[], Endian::Big),
        Notice::Malformed(DecodeFault { channel: 1, expected: 16, actual: 0 })
    );
}

#[test]
fn sample_after_a_fault_is_still_processed() {
    let good: Vec<u8> = vec![5, 0, 0, 0, 0, 0, 0, 0, 6, 0, 0, 0, 0, 0, 0, 0];
    let deliveries = vec![
        Delivery::Sample { channel: 1, data: vec![1, 2, 3] },
        Delivery::Sample { channel: 1, data: good },
    ];
    assert_eq!(
        consume(&deliveries, Endian::Little),
        vec![
            Notice::Malformed(DecodeFault { channel: 1, expected: 16, actual: 3 }),
            Notice::Queue(Event { event_head: 5, queue_len: 6 }),
        ]
    );
}

#[test]
fn loss_gives_exactly_one_warning() {
    assert_eq!(handle_lost_events(0, 5), Notice::Lost { channel: 0, count: 5 });
    let deliveries = vec![
        Delivery::Lost { channel: 0, count: 5 },
        Delivery::Sample { channel: 0, data: b"hello".to_vec() },
    ];
    let notices = consume(&deliveries, Endian::Little);
    assert_eq!(
        notices,
        vec![Notice::Lost { channel: 0, count: 5 }, Notice::Text("hello".to_string())]
    );
    let warnings = notices.iter().filter(|n| matches!(n, Notice::Lost { .. })).count();
    assert_eq!(warnings, 1);
}

#[test]
fn text_channel_yields_the_text() {
    assert_eq!(
        handle_event_in(0, b"recvmsg: 12 bytes", Endian::Little),
        Notice::Text("recvmsg: 12 bytes".to_string())
    );
    assert_eq!(handle_event_in(0, b"", Endian::Little), Notice::Text(String::new()));
}

#[test]
fn invalid_text_is_replaced_not_rejected() {
    assert_eq!(
        handle_event_in(0, &[b'a', 0xFF, b'b'], Endian::Little),
        Notice::Text("a\u{FFFD}b".to_string())
    );
}

#[test]
fn other_channels_are_ignored() {
    assert_eq!(handle_event_in(2, &[1, 2, 3], Endian::Little), Notice::Ignored { channel: 2 });
    assert_eq!(handle_event_in(-1, &[], Endian::Big), Notice::Ignored { channel: -1 });
}

#[test]
fn delivery_is_handled_by_its_kind() {
    let sample = Delivery::Sample { channel: 7, data: vec![] };
    assert_eq!(handle_delivery(&sample, Endian::Little), Notice::Ignored { channel: 7 });
    let lost = Delivery::Lost { channel: 1, count: u64::MAX };
    assert_eq!(
        handle_delivery(&lost, Endian::Little),
        Notice::Lost { channel: 1, count: u64::MAX }
    );
}

#[test]
fn empty_run_yields_nothing() {
    assert_eq!(consume(&[], Endian::Little), Vec::<Notice>::new());
}

#[test]
fn native_sample_is_read_in_the_order_of_the_machine() {
    let data: [u8; 16] = [1, 2, 3, 4, 5, 6, 7, 8, 9, 10, 11, 12, 13, 14, 15, 16];
    let head = u64::from_ne_bytes([1, 2, 3, 4, 5, 6, 7, 8]);
    let len = u64::from_ne_bytes([9, 10, 11, 12, 13, 14, 15, 16]);
    assert_eq!(decode_native(&data), Ok(Event { event_head: head, queue_len: len }));
    assert_eq!(
        handle_event(1, &data),
        Notice::Queue(Event { event_head: head, queue_len: len })
    );
    let either = [decode_event(&data, Endian::Little), decode_event(&data, Endian::Big)];
    assert!(either.contains(&decode_native(&data)));
}

#[test]
fn native_sample_ignores_trailing_bytes() {
    let mut data = vec![0u8; 16];
    data[0] = 1;
    data[7] = 1;
    data.extend_from_slice(&[9, 9, 9, 9, 9, 9, 9, 9, 9]);
    assert_eq!(
        decode_native(&data),
        Ok(Event { event_head: 0x0100_0000_0000_0001, queue_len: 0 })
    );
}

#[test]
fn native_short_sample_is_a_decode_fault() {
    assert_eq!(
        decode_native(&[0u8; 15]),
        Err(DecodeFault { channel: 1, expected: 16, actual: 15 })
    );
    assert_eq!(
        handle_event(1, &[7, 7]),
        Notice::Malformed(DecodeFault { channel: 1, expected: 16, actual: 2 })
    );
}

#[test]
fn native_handler_treats_other_channels_alike() {
    assert_eq!(handle_event(0, b"text"), Notice::Text("text".to_string()));
    assert_eq!(handle_event(0, &[0xC0]), Notice::Text("\u{FFFD}".to_string()));
    assert_eq!(handle_event(5, &[1; 16]), Notice::Ignored { channel: 5 });
}

#[test]
fn words_become_head_and_length() {
    assert_eq!(event_from_words((0x2A, 1)), Event { event_head: 0x2A, queue_len: 1 });
    assert_eq!(queue_notice(Ok(event_from_words((3, 4)))), Notice::Queue(Event { event_head: 3, queue_len: 4 }));
    let fault = DecodeFault { channel: 1, expected: 16, actual: 0 };
    assert_eq!(queue_notice(Err(fault)), Notice::Malformed(fault));
}
