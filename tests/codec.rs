use photo_moderation::codec::{CallbackData, CallbackOperation, DecodeError, MAX_PAYLOAD};

const ID: u128 = 0x550e8400_e29b_41d4_a716_446655440000;

const ALL: [CallbackOperation; 4] =
    [CallbackOperation::Approve, CallbackOperation::Decline, CallbackOperation::Ban, CallbackOperation::Cancel];

#[test]
fn encode_approve_payload() {
    let d = CallbackData { operation: CallbackOperation::Approve, document: Some(ID) };
    assert_eq!(d.encode(), "{\"operation\":\"A\",\"document\":\"550e8400e29b41d4a716446655440000\"}");
}

#[test]
fn encode_cancel_payload() {
    assert_eq!(CallbackData::new(CallbackOperation::Cancel).encode(), "{\"operation\":\"C\",\"document\":null}");
}

#[test]
fn payloads_fit_button_data_limit() {
    for op in ALL {
        let d = CallbackData { operation: op, document: Some(u128::MAX) };
        assert!(d.encode().len() <= MAX_PAYLOAD);
        assert_eq!(d.encode().len(), 63);
    }
}

#[test]
fn payloads_round_trip() {
    for op in ALL {
        for doc in [None, Some(ID), Some(0), Some(u128::MAX)] {
            let d = CallbackData { operation: op, document: doc };
            assert_eq!(CallbackData::decode(&d.encode()), Ok(d));
        }
    }
}

#[test]
fn malformed_payloads_are_rejected() {
    for s in [
        "",
        "{}",
        "approve",
        "{\"operation\":\"A\",\"document\":\"not-a-uuid\"}",
        "{\"operation\":\"A\",\"document\":nul}",
        "{\"operation\":\"X\",\"document\":null}",
        "{\"operation\": \"A\",\"document\":null}",
        "{\"operation\":\"Approve\",\"document\":null}",
        "{\"operation\":\"A\",\"document\":\"550E8400E29B41D4A716446655440000\"}",
        "{\"operation\":\"A\",\"document\":\"550e8400-e29b-41d4-a716-446655440000\"}",
    ] {
        assert_eq!(CallbackData::decode(s), Err(DecodeError::Malformed), "{}", s);
    }
}
