use vita49::{
    Ack, Cancellation, CommandPayload, Control, ControlAckMode, PayloadTypeError, QueryAck,
    VitaError,
};

/// CAM word of a well-formed validation ACK packet: the validation bit (20) is set.
const VALIDATION_ACK_CAM: u32 = 1 << 20;

/// Choose the payload for an ACK packet whose CAM word is `word`.
fn ack_payload(word: u32) -> Result<CommandPayload, PayloadTypeError<VitaError>> {
    CommandPayload::derive_type(&ControlAckMode::from_word(word), Ok(true), Ok(false))
}

#[test]
fn well_formed_validation_ack_round_trips() {
    let payload = ack_payload(VALIDATION_ACK_CAM).unwrap();
    assert!(payload.validation_ack().is_ok());
}

#[test]
fn ack_selecting_no_sub_type_is_a_parse_error() {
    // Clear validation (20), execution (19) and query state (18).
    assert!(ack_payload(VALIDATION_ACK_CAM & !(0b111 << 18)).is_err());
}

#[test]
fn ack_selecting_multiple_sub_types_is_a_parse_error() {
    // Set execution (19) alongside the validation bit already set.
    assert!(ack_payload(VALIDATION_ACK_CAM | (1 << 19)).is_err());
}

#[test]
fn serializing_an_ack_with_an_ambiguous_cam_is_an_error() {
    let mut cam = ControlAckMode::from_word(VALIDATION_ACK_CAM);
    cam.set_execution();
    assert!(CommandPayload::derive_type::<VitaError>(&cam, Ok(true), Ok(false)).is_err());
}

#[test]
fn ack_selection_errors_count_the_selected_kinds() {
    assert_eq!(ack_payload(0), Err(PayloadTypeError::AckSelection { selected: 0 }));
    assert_eq!(
        ack_payload(0b111 << 18),
        Err(PayloadTypeError::AckSelection { selected: 3 })
    );
}

#[test]
fn each_ack_bit_selects_its_payload() {
    assert_eq!(
        ack_payload(1 << 20),
        Ok(CommandPayload::ValidationAck(Ack::default()))
    );
    assert_eq!(ack_payload(1 << 19), Ok(CommandPayload::ExecAck(Ack::default())));
    assert_eq!(
        ack_payload(1 << 18),
        Ok(CommandPayload::QueryAck(QueryAck::default()))
    );
}

#[test]
fn non_ack_packets_are_control_or_cancellation() {
    let cam = ControlAckMode::from_word(0);
    assert_eq!(
        CommandPayload::derive_type::<VitaError>(&cam, Ok(false), Ok(true)),
        Ok(CommandPayload::Cancellation(Cancellation::default()))
    );
    assert_eq!(
        CommandPayload::derive_type::<VitaError>(&cam, Ok(false), Ok(false)),
        Ok(CommandPayload::Control(Control::default()))
    );
}

#[test]
fn header_errors_are_passed_on() {
    let cam = ControlAckMode::from_word(VALIDATION_ACK_CAM);
    assert_eq!(
        CommandPayload::derive_type(&cam, Err("not a command packet"), Ok(false)),
        Err(PayloadTypeError::Header("not a command packet"))
    );
    assert_eq!(
        CommandPayload::derive_type(&cam, Ok(false), Err("no indicator")),
        Err(PayloadTypeError::Header("no indicator"))
    );
    // An ACK packet's kind comes from the CAM alone.
    assert!(CommandPayload::derive_type(&cam, Ok(true), Err("unused")).is_ok());
}

#[test]
fn accessors_return_only_their_own_kind() {
    let control = CommandPayload::Control(Control::from_words(vec![1, 2, 3]));
    assert_eq!(control.control().unwrap().words(), &[1, 2, 3]);
    assert_eq!(control.cancellation(), Err(VitaError::CancellationOnly));
    assert_eq!(control.validation_ack(), Err(VitaError::ValidationAckOnly));
    assert_eq!(control.exec_ack(), Err(VitaError::ExecAckOnly));
    assert_eq!(control.query_ack(), Err(VitaError::QueryAckOnly));

    let cancel = CommandPayload::Cancellation(Cancellation::default());
    assert!(cancel.cancellation().is_ok());
    assert_eq!(cancel.control(), Err(VitaError::ControlOnly));

    let exec = CommandPayload::ExecAck(Ack::from_words(vec![5]));
    assert_eq!(exec.exec_ack().unwrap().words(), &[5]);
    assert_eq!(exec.validation_ack(), Err(VitaError::ValidationAckOnly));

    let query = CommandPayload::QueryAck(QueryAck::default());
    assert!(query.query_ack().is_ok());
    assert_eq!(query.exec_ack(), Err(VitaError::ExecAckOnly));
}

#[test]
fn mutable_accessors_edit_in_place() {
    let mut payload = CommandPayload::ValidationAck(Ack::default());
    *payload.validation_ack_mut().unwrap() = Ack::from_words(vec![7, 8]);
    assert_eq!(payload, CommandPayload::ValidationAck(Ack::from_words(vec![7, 8])));
    assert_eq!(payload.control_mut(), Err(VitaError::ControlOnly));
    assert_eq!(payload.exec_ack_mut(), Err(VitaError::ExecAckOnly));
    assert_eq!(payload.query_ack_mut(), Err(VitaError::QueryAckOnly));
    assert_eq!(payload.cancellation_mut(), Err(VitaError::CancellationOnly));
    assert_eq!(payload, CommandPayload::ValidationAck(Ack::from_words(vec![7, 8])));

    let mut payload = CommandPayload::Control(Control::default());
    *payload.control_mut().unwrap() = Control::from_words(vec![1]);
    assert_eq!(payload.size_words(), 1);
    let mut payload = CommandPayload::Cancellation(Cancellation::default());
    *payload.cancellation_mut().unwrap() = Cancellation::from_words(vec![1, 2]);
    assert_eq!(payload.size_words(), 2);
    let mut payload = CommandPayload::ExecAck(Ack::default());
    *payload.exec_ack_mut().unwrap() = Ack::from_words(vec![1, 2, 3]);
    assert_eq!(payload.size_words(), 3);
    let mut payload = CommandPayload::QueryAck(QueryAck::default());
    *payload.query_ack_mut().unwrap() = QueryAck::from_words(vec![1, 2, 3, 4]);
    assert_eq!(payload.size_words(), 4);
}

#[test]
fn size_words_counts_the_payload_words() {
    assert_eq!(CommandPayload::Control(Control::default()).size_words(), 0);
    let big = CommandPayload::QueryAck(QueryAck::from_words(vec![0; 0x10000 + 2]));
    assert_eq!(big.size_words(), 2);
}

#[test]
fn cam_bits_read_and_set() {
    let mut cam = ControlAckMode::from_word(0);
    assert!(!cam.validation() && !cam.execution() && !cam.state());
    cam.set_state();
    assert!(cam.state() && !cam.validation());
    assert_eq!(cam.as_word(), 1 << 18);
    cam.set_validation();
    cam.set_execution();
    assert_eq!(cam.as_word(), 0b111 << 18);
    assert!(cam.validation() && cam.execution());
}
