use beslink::checksum::{calculate_message_checksum, validate_packet_checksum};
use beslink::errors::BESLinkError;
use beslink::message::{BesMessage, MessageTypes};

#[test]
fn test_calculate_packet_checksum() {
    let test_messages: Vec<Vec<u8>> = vec![
        vec![0xBE, 0x50, 0x00, 0x03, 0x00, 0x00, 0x01, 0xED],
        vec![0xBE, 0x50, 0x00, 0x01, 0x01, 0xEF],
        vec![0xBE, 0x53, 0x00, 0x01, 0x00, 0xED],
        vec![0xBE, 0x65, 0x02, 0x01, 0x11, 0xC8],
        vec![0xBE, 0x65, 0x03, 0x01, 0x12, 0xC6],
        vec![
            0xBE, 0x62, 0xC1, 0x0B, 0x00, 0x80, 0x00, 0x00, 0xAB, 0x77, 0x7F, 0xF4, 0x00, 0x00,
            0x00, 0xFE,
        ],
        vec![
            0xBE, 0x62, 0xC2, 0x0B, 0x00, 0x80, 0x00, 0x00, 0x34, 0x90, 0x61, 0xF9, 0x01, 0x00,
            0x00, 0x73,
        ],
        vec![
            0xBE, 0x61, 0x07, 0x0C, 0x00, 0x00, 0x00, 0x3C, 0x00, 0x00, 0x0D, 0x00, 0x00, 0x80,
            0x00, 0x00, 0x04,
        ],
        vec![
            0xBE, 0x03, 0x06, 0x08, 0x00, 0xF0, 0x0F, 0x3C, 0x00, 0x10, 0x00, 0x00, 0xE5,
        ],
        vec![
            0xBE, 0x03, 0x05, 0x08, 0x00, 0xE0, 0x0F, 0x3C, 0x00, 0x10, 0x00, 0x00, 0xF6,
        ],
    ];
    for mut v in test_messages {
        let old_checksum = v.pop().unwrap();
        let new_checksum = calculate_message_checksum(&v);
        assert_eq!(old_checksum, new_checksum);
    }
}

#[test]
fn checksum_of_empty_input_is_ff() {
    assert_eq!(calculate_message_checksum(&vec![]), 0xFF);
}

#[test]
fn set_checksum_makes_frame_sum_to_ff() {
    let payloads: Vec<(MessageTypes, Vec<u8>)> = vec![
        (MessageTypes::Sync, vec![0x00, 0x03, 0x00, 0x00, 0x01]),
        (MessageTypes::StartProgrammer, vec![0x00, 0x01, 0x00]),
        (MessageTypes::FlashCommand, vec![0x02, 0x01, 0x11]),
        (MessageTypes::FlashRead, vec![]),
        (MessageTypes::EraseBurnStart, vec![0xFF, 0xFF, 0xFF]),
    ];
    for (type1, payload) in payloads {
        let mut msg = BesMessage {
            sync: 0xBE,
            type1,
            payload,
            checksum: 0x00,
        };
        msg.set_checksum();
        let frame = msg.to_vec();
        let sum: u32 = frame.iter().map(|b| *b as u32).sum();
        assert_eq!(sum % 256, 0xFF);
        assert!(validate_packet_checksum(&frame).is_ok());
    }
}

#[test]
fn set_checksum_reproduces_known_frame_checksums() {
    let mut msg = BesMessage {
        sync: 0xBE,
        type1: MessageTypes::Sync,
        payload: vec![0x00, 0x03, 0x00, 0x00, 0x01],
        checksum: 0x00,
    };
    msg.set_checksum();
    assert_eq!(msg.checksum, 0xED);
    assert_eq!(msg.to_vec(), vec![0xBE, 0x50, 0x00, 0x03, 0x00, 0x00, 0x01, 0xED]);

    let mut msg = BesMessage {
        sync: 0xBE,
        type1: MessageTypes::FlashCommand,
        payload: vec![0x02, 0x01, 0x11],
        checksum: 0x00,
    };
    msg.set_checksum();
    assert_eq!(msg.to_vec(), vec![0xBE, 0x65, 0x02, 0x01, 0x11, 0xC8]);
}

#[test]
fn validate_accepts_known_frames() {
    let frames: Vec<Vec<u8>> = vec![
        vec![0xBE, 0x50, 0x00, 0x03, 0x00, 0x00, 0x01, 0xED],
        vec![0xBE, 0x50, 0x00, 0x01, 0x01, 0xEF],
        vec![0xBE, 0x53, 0x00, 0x01, 0x00, 0xED],
        vec![0xBE, 0x65, 0x02, 0x01, 0x11, 0xC8],
        vec![0xBE, 0x65, 0x03, 0x01, 0x12, 0xC6],
    ];
    for frame in frames {
        assert!(validate_packet_checksum(&frame).is_ok());
    }
}

#[test]
fn single_bit_flip_is_detected_with_both_values_reported() {
    let frame = vec![0xBE, 0x50, 0x00, 0x03, 0x00, 0x00, 0x01, 0xED];
    assert!(validate_packet_checksum(&frame).is_ok());
    for i in 0..frame.len() {
        for k in 0..8u8 {
            let mut flipped = frame.clone();
            flipped[i] ^= 1u8 << k;
            match validate_packet_checksum(&flipped) {
                Err(BESLinkError::BadChecksumError {
                    failed_packet,
                    got,
                    wanted,
                }) => {
                    assert_eq!(failed_packet, flipped);
                    assert_eq!(got, flipped[flipped.len() - 1]);
                    let mut prefix = flipped.clone();
                    prefix.pop();
                    assert_eq!(wanted, calculate_message_checksum(&prefix));
                    assert_ne!(got, wanted);
                }
                _ => panic!("bit flip at byte {} bit {} was not detected", i, k),
            }
        }
    }
}
