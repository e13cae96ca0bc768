use oidar::decoding::{decode_step, packet_step, select_track, DecodeStatus, FrameStep, PacketStatus, PacketStep, TrackInfo};

#[test]
fn first_track_with_codec_is_selected() {
    let tracks = [
        TrackInfo { id: 3, has_codec: false },
        TrackInfo { id: 5, has_codec: true },
        TrackInfo { id: 7, has_codec: true },
    ];
    assert_eq!(select_track(&tracks), Some(5));
}

#[test]
fn no_track_with_codec() {
    assert_eq!(select_track(&[TrackInfo { id: 1, has_codec: false }]), None);
    assert_eq!(select_track(&[]), None);
}

#[test]
fn packets_of_selected_track_are_decoded() {
    assert_eq!(packet_step(PacketStatus::Packet { track_id: 2 }, 2), PacketStep::Decode);
    assert_eq!(packet_step(PacketStatus::Packet { track_id: 1 }, 2), PacketStep::Skip);
}

#[test]
fn reset_restarts_and_other_errors_halt() {
    assert_eq!(packet_step(PacketStatus::ResetRequired, 0), PacketStep::Restart);
    assert_eq!(packet_step(PacketStatus::Unrecoverable, 0), PacketStep::Halt);
}

#[test]
fn decode_outcomes() {
    assert_eq!(decode_step(DecodeStatus::Decoded), FrameStep::Emit);
    assert_eq!(decode_step(DecodeStatus::IoError), FrameStep::EmitEmpty);
    assert_eq!(decode_step(DecodeStatus::InvalidData), FrameStep::EmitEmpty);
    assert_eq!(decode_step(DecodeStatus::Unrecoverable), FrameStep::Halt);
}
