use stsbr::block::MouseButton;
use stsbr::blocks::volume::{
    click_command, connect_progress, ConnectProgress, ContextState, MixerCommand, VolumeRecord,
    VolumeTable, VOLUME_MUTED, VOLUME_NORM, VOLUME_STEP,
};

fn record(raw: u32, muted: bool) -> VolumeRecord {
    VolumeRecord::from_sink("50%".to_string(), 2, raw, muted).unwrap()
}

#[test]
fn volume_constants() {
    assert_eq!(VOLUME_MUTED, 0);
    assert_eq!(VOLUME_NORM, 65536);
    assert_eq!(VOLUME_STEP, 3276);
}

#[test]
fn volume_scroll_saturates_at_full() {
    let mut table = VolumeTable::new();
    let sink = "@DEFAULT_SINK@".to_string();
    table.record(sink.clone(), record(VOLUME_NORM - VOLUME_STEP, false));
    let up = table.handle_click(&sink, MouseButton::ScrollUp).unwrap();
    assert_eq!(up, MixerCommand::SetVolume { channels: 2, volume: VOLUME_NORM });
    table.record(sink.clone(), record(VOLUME_NORM, false));
    let again = table.handle_click(&sink, MouseButton::ScrollUp).unwrap();
    assert_eq!(again, MixerCommand::SetVolume { channels: 2, volume: VOLUME_NORM });
}

#[test]
fn volume_scroll_saturates_at_silence() {
    assert_eq!(
        click_command(&record(0, false), MouseButton::ScrollDown),
        MixerCommand::SetVolume { channels: 2, volume: 0 }
    );
    assert_eq!(
        click_command(&record(100, false), MouseButton::ScrollDown),
        MixerCommand::SetVolume { channels: 2, volume: 0 }
    );
    assert_eq!(
        click_command(&record(10000, false), MouseButton::ScrollDown),
        MixerCommand::SetVolume { channels: 2, volume: 10000 - 3276 }
    );
}

#[test]
fn volume_other_buttons_keep_volume() {
    assert_eq!(
        click_command(&record(1234, true), MouseButton::Middle),
        MixerCommand::SetVolume { channels: 2, volume: 1234 }
    );
    assert_eq!(
        click_command(&record(1234, true), MouseButton::Right),
        MixerCommand::SetVolume { channels: 2, volume: 1234 }
    );
}

#[test]
fn volume_mute_toggle() {
    let mut table = VolumeTable::new();
    let sink = "alsa_output".to_string();
    table.record(sink.clone(), record(30000, false));
    assert_eq!(table.handle_click(&sink, MouseButton::Left), Some(MixerCommand::SetMute(true)));
    table.record(sink.clone(), record(30000, true));
    assert_eq!(table.handle_click(&sink, MouseButton::Left), Some(MixerCommand::SetMute(false)));
}

#[test]
fn volume_unknown_sink() {
    let mut table = VolumeTable::new();
    let sink = "a".to_string();
    assert!(table.current_state(&sink).is_err());
    assert_eq!(table.handle_click(&sink, MouseButton::Left), None);
    table.record("b".to_string(), record(1, false));
    assert!(table.current_state(&sink).is_err());
    assert_eq!(table.current_state(&"b".to_string()).unwrap().text(), "50%");
}

#[test]
fn volume_record_replaced() {
    let mut table = VolumeTable::new();
    let sink = "s".to_string();
    table.record(sink.clone(), VolumeRecord::from_sink("10%".to_string(), 1, 6554, false).unwrap());
    table.record("t".to_string(), VolumeRecord::from_sink("99%".to_string(), 1, 65000, false).unwrap());
    table.record(sink.clone(), VolumeRecord::from_sink("20%".to_string(), 1, 13107, false).unwrap());
    assert_eq!(table.current_state(&sink).unwrap().text(), "20%");
    assert_eq!(table.get(&sink).unwrap().raw, 13107);
    assert_eq!(table.current_state(&"t".to_string()).unwrap().text(), "99%");
}

#[test]
fn volume_record_ranges() {
    assert!(VolumeRecord::from_sink("x".to_string(), 0, 1, false).is_none());
    assert!(VolumeRecord::from_sink("x".to_string(), 33, 1, false).is_none());
    assert_eq!(VolumeRecord::from_sink("x".to_string(), 32, 1, false).unwrap().channels, 32);
    assert_eq!(VolumeRecord::from_sink("150%".to_string(), 2, 98304, false).unwrap().raw, VOLUME_NORM);
}

#[test]
fn mixer_connection_progress() {
    assert_eq!(connect_progress(ContextState::Ready), ConnectProgress::Ready);
    assert_eq!(connect_progress(ContextState::Failed), ConnectProgress::Failed);
    assert_eq!(connect_progress(ContextState::Terminated), ConnectProgress::Failed);
    assert_eq!(connect_progress(ContextState::Connecting), ConnectProgress::KeepWaiting);
    assert_eq!(connect_progress(ContextState::Unconnected), ConnectProgress::KeepWaiting);
}
