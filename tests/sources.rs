use stsbr::block::{Block, BlockError, BlockState, ClickEvent, Dimensions, Icon, MouseButton, Position};
use stsbr::blocks::date_time::{DateTime, LocalTime};
use stsbr::blocks::free_disk_space::{format_free_space, DiskSpace, FreeDiskSpace};
use stsbr::blocks::media_player::{
    click_request, now_playing_from, worker_step, MediaRequest, MediaState, NowPlaying, PlayerProbe,
    WorkerInput,
};
use stsbr::blocks::network_interface::{format_ipv4, InterfaceAddress, NetworkInterface};
use stsbr::blocks::system_load::SystemLoad;
use stsbr::i3bar::{samples_to_json, BarStream};
use stsbr::registry::{build_registry, ConfigSection, SourceSpec};

fn time(year: i32, month: u32, day: u32, hour: u32, minute: u32, second: u32, nanosecond: u32) -> LocalTime {
    LocalTime { year, month, day, hour, minute, second, nanosecond }
}

fn addr(name: &str, ipv4: Option<(u8, u8, u8, u8)>) -> InterfaceAddress {
    InterfaceAddress { name: name.to_string(), ipv4 }
}

fn track(artist: &str, title: &str) -> NowPlaying {
    NowPlaying { artist: artist.to_string(), title: title.to_string() }
}

#[test]
fn clock_only_stream() {
    let sections = vec![ConfigSection {
        name: "clock".to_string(),
        module: Some("date_time".to_string()),
        interface: None,
        sink: None,
    }];
    let specs = build_registry(&sections).unwrap();
    assert!(matches!(specs[0], SourceSpec::DateTime));
    let clock = DateTime::new();
    let mut stream = BarStream::new(true);
    let mut out = stream.start();
    for second in 0..2 {
        let sample = Ok(clock.render(&time(2024, 3, 5, 7, 8, second, 0)));
        out.push_str(&stream.tick(&samples_to_json(&vec![sample])));
    }
    assert_eq!(
        out,
        "{\"version\":1,\"click_events\":true}\n[\n\
         [{\"full_text\":\"\u{f133} 2024-03-05 07:08:00\",\"markup\":\"pango\",\"instance\":\"0\"}],\n\
         [{\"full_text\":\"\u{f133} 2024-03-05 07:08:01\",\"markup\":\"pango\",\"instance\":\"0\"}],\n"
    );
}

#[test]
fn live_clock_has_its_shape() {
    let mut clock = DateTime::new();
    let st = clock.current_state().unwrap();
    let text: Vec<char> = st.text().chars().collect();
    assert_eq!(text.len(), 21);
    assert_eq!(text[0], '\u{f133}');
    assert_eq!(text[6], '-');
    assert_eq!(text[9], '-');
    assert_eq!(text[12], ' ');
    assert_eq!(text[15], ':');
    assert_eq!(text[18], ':');
}

fn clock(t: LocalTime) -> String {
    DateTime::new().render(&t).text().clone()
}

#[test]
fn clock_years_and_leap_second() {
    assert_eq!(clock(time(812, 12, 31, 23, 59, 59, 1_500_000_000)), "\u{f133} 0812-12-31 23:59:60");
    assert_eq!(clock(time(12345, 1, 1, 0, 0, 0, 0)), "\u{f133} +12345-01-01 00:00:00");
    assert_eq!(clock(time(-5, 1, 1, 0, 0, 0, 0)), "\u{f133} -0005-01-01 00:00:00");
    assert_eq!(clock(time(2024, 2, 29, 9, 5, 7, 0)), "\u{f133} 2024-02-29 09:05:07");
}

#[test]
fn clock_text_shown_as_given() {
    assert_eq!(DateTime::new().render_text("2001-01-01 00:00:00").text(), "\u{f133} 2001-01-01 00:00:00");
}

#[test]
fn free_space_in_gibibytes() {
    let one = DiskSpace { blocks_available: 262144, block_size: 4096 };
    assert_eq!(format_free_space(&one), "1.00 GB");
    let some = DiskSpace { blocks_available: 3_000_000, block_size: 4096 };
    assert_eq!(format_free_space(&some), "11.44 GB");
    assert_eq!(FreeDiskSpace::new().render(&some).text(), "\u{f0a0} 11.44 GB");
}

#[test]
fn free_space_rounding() {
    assert_eq!(format_free_space(&DiskSpace { blocks_available: 134217728, block_size: 1 }), "0.12 GB");
    assert_eq!(format_free_space(&DiskSpace { blocks_available: 3 * 134217728, block_size: 1 }), "0.38 GB");
    assert_eq!(format_free_space(&DiskSpace { blocks_available: 5368709, block_size: 1 }), "0.00 GB");
    assert_eq!(format_free_space(&DiskSpace { blocks_available: 5368710, block_size: 1 }), "0.01 GB");
    assert_eq!(format_free_space(&DiskSpace { blocks_available: 0, block_size: 4096 }), "0.00 GB");
}

#[test]
fn free_space_largest() {
    let max = DiskSpace { blocks_available: u64::MAX, block_size: u64::MAX };
    let bytes = (u64::MAX as u128) * (u64::MAX as u128);
    let gib = bytes >> 30;
    let text = format_free_space(&max);
    assert!(text.starts_with(&format!("{}.", gib)));
    assert!(text.ends_with(" GB"));
}

#[test]
fn live_free_space_is_shown() {
    let st = FreeDiskSpace::new().current_state().unwrap();
    assert!(st.text().starts_with("\u{f0a0} "));
    assert!(st.text().ends_with(" GB"));
}

#[test]
fn interface_first_ipv4_address() {
    let iface = NetworkInterface::new("eno1".to_string());
    let addrs = vec![
        addr("eno1", None),
        addr("lo", Some((127, 0, 0, 1))),
        addr("eno1", Some((192, 168, 1, 20))),
        addr("eno1", Some((10, 0, 0, 1))),
    ];
    assert_eq!(iface.select(&addrs).unwrap().text(), "\u{f0ac} 192.168.1.20");
    assert_eq!(format_ipv4((0, 255, 9, 10)), "0.255.9.10");
}

#[test]
fn missing_interface_is_omitted() {
    let iface = NetworkInterface::new("nonexistent0".to_string());
    let addrs = vec![addr("eno1", Some((192, 168, 1, 20))), addr("nonexistent0", None)];
    let missing = iface.select(&addrs);
    assert!(missing.is_err());
    let clock = DateTime::new().render(&time(2024, 1, 2, 3, 4, 5, 0));
    let line = samples_to_json(&vec![Ok(clock), missing]);
    assert_eq!(
        line,
        "[{\"full_text\":\"\u{f133} 2024-01-02 03:04:05\",\"markup\":\"pango\",\"instance\":\"0\"}]"
    );
}

#[test]
fn live_missing_interface_fails() {
    let mut iface = NetworkInterface::new("nonexistent0".to_string());
    assert!(iface.current_state().is_err());
}

#[test]
fn load_needs_exactly_one_average() {
    let load = SystemLoad::new();
    assert_eq!(load.state_for(1, "0.42").unwrap().text(), "\u{f0e7} 0.42");
    assert!(load.state_for(0, "0.42").is_err());
    assert!(load.state_for(-1, "0.42").is_err());
}

#[test]
fn media_unknown_until_reported() {
    let mut media = MediaState::new();
    let first: Result<BlockState, BlockError> = media.current_state(Vec::new());
    assert_eq!(first.unwrap_err().message(), "Unknown state");
    let st = media.current_state(vec![track("X", "Y"), track("A", "B")]).unwrap();
    assert_eq!(st.text(), "\u{f001} A - B");
    let again = media.current_state(Vec::new()).unwrap();
    assert_eq!(again.text(), "\u{f001} A - B");
}

#[test]
fn media_pause_on_any_click() {
    let mut media = MediaState::new();
    media.current_state(vec![track("A", "B")]).unwrap();
    for button in [MouseButton::Left, MouseButton::Right, MouseButton::ScrollDown] {
        let ev = ClickEvent::new(button, Position(1, 1), Dimensions(10, 10), 0);
        assert_eq!(click_request(&ev), MediaRequest::TogglePause);
    }
    let step = worker_step(WorkerInput::Request(MediaRequest::TogglePause), PlayerProbe::Found(Some(track("A", "B"))));
    assert!(step.play_pause);
    assert!(!step.stop);
    assert_eq!(step.publish.unwrap().title, "B");
    let idle = worker_step(WorkerInput::Timeout, PlayerProbe::Found(None));
    assert!(!idle.play_pause && !idle.stop && idle.publish.is_none());
}

#[test]
fn media_worker_stops() {
    assert!(worker_step(WorkerInput::Request(MediaRequest::Quit), PlayerProbe::NotFound).stop);
    assert!(worker_step(WorkerInput::Disconnected, PlayerProbe::NotFound).stop);
    let lost = worker_step(WorkerInput::Request(MediaRequest::TogglePause), PlayerProbe::NotFound);
    assert!(!lost.play_pause && !lost.stop);
}

#[test]
fn media_metadata_joined() {
    let np = now_playing_from(Some(vec!["A".to_string(), "B".to_string(), "C".to_string()]), Some("T".to_string()));
    let np = np.unwrap();
    assert_eq!(np.artist, "A, B, C");
    assert_eq!(np.title, "T");
    assert!(now_playing_from(None, Some("T".to_string())).is_none());
    assert!(now_playing_from(Some(vec![]), None).is_none());
    assert_eq!(now_playing_from(Some(vec![]), Some("T".to_string())).unwrap().artist, "");
}

#[test]
fn icon_text() {
    assert_eq!(Icon::Calendar.to_string(), "\u{f133}");
    assert_eq!(Icon::VolumeMute.glyph(), '\u{f6a9}');
    assert_eq!(Icon::Globe.label("x"), "\u{f0ac} x");
}
