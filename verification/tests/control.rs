use dcamctl::cam_info::{Available, CamInfo, CurrentValues};
use dcamctl::config::Resolution;
use dcamctl::control::{
    fallback_command, setting_request, status_request, zoom_request, CamControl, Command,
    ControlError, Key, Reaction, Setting, VideoOrientationMethod,
};

fn values(zoom: u16, crop_x: u32, crop_y: u32, quality: u16) -> CurrentValues {
    CurrentValues {
        zoom,
        crop_x,
        crop_y,
        quality,
        video_size: Resolution { height: 480, width: 640 },
    }
}

fn steps(texts: &[&str]) -> Option<Available> {
    Some(Available { zoom: texts.iter().map(|t| t.to_string()).collect() })
}

fn control(zoom: u16, texts: &[&str]) -> CamControl {
    CamControl {
        port: 8080,
        cam_info: CamInfo { curvals: values(zoom, 0, 0, 50), avail: steps(texts) },
        flip_method: VideoOrientationMethod::Identity,
    }
}

fn request(url: &str) -> Result<Reaction, ControlError> {
    Ok(Reaction::Request(url.to_string()))
}

#[test]
fn keys_stand_for_commands() {
    assert_eq!(Command::from_key(Key::Char('q')), Command::Quit);
    assert_eq!(Command::from_key(Key::Char('z')), Command::ZoomIn);
    assert_eq!(Command::from_key(Key::Char('Z')), Command::ZoomOut);
    assert_eq!(Command::from_key(Key::Char('t')), Command::QualityUp);
    assert_eq!(Command::from_key(Key::Char('T')), Command::QualityDown);
    assert_eq!(Command::from_key(Key::Char('f')), Command::Flip);
    assert_eq!(Command::from_key(Key::Left), Command::PanLeft);
    assert_eq!(Command::from_key(Key::Right), Command::PanRight);
    assert_eq!(Command::from_key(Key::Up), Command::PanUp);
    assert_eq!(Command::from_key(Key::Down), Command::PanDown);
}

#[test]
fn other_keys_ask_for_nothing() {
    assert_eq!(Command::from_key(Key::Other), Command::Nothing);
    assert_eq!(Command::from_key(Key::Char('Q')), Command::Nothing);
    assert_eq!(Command::from_key(Key::Char('F')), Command::Nothing);
    assert_eq!(Command::from_key(Key::Char(' ')), Command::Nothing);
}

#[test]
fn zoom_index_is_the_place_of_the_current_zoom() {
    assert_eq!(control(10, &["10", "20", "30"]).zoom_index(), Some((0, 3)));
    assert_eq!(control(20, &["10", "20", "30"]).zoom_index(), Some((1, 3)));
    assert_eq!(control(30, &["10", "20", "30"]).zoom_index(), Some((2, 3)));
}

#[test]
fn zoom_index_compares_numbers_not_texts() {
    assert_eq!(control(20, &["10", "+20", "30"]).zoom_index(), Some((1, 3)));
    assert_eq!(control(20, &["10", "020", "20"]).zoom_index(), Some((1, 3)));
    assert_eq!(control(20, &["1.0", "2.0", "20"]).zoom_index(), Some((2, 3)));
}

#[test]
fn zoom_index_is_unknown_without_a_match() {
    assert_eq!(control(25, &["10", "20", "30"]).zoom_index(), None);
    assert_eq!(control(25, &[]).zoom_index(), None);
    assert_eq!(control(0, &["", "x", "70000"]).zoom_index(), None);
    let mut blind = control(20, &[]);
    blind.cam_info.avail = None;
    assert_eq!(blind.zoom_index(), None);
}

#[test]
fn zoom_in_asks_for_the_next_index() {
    assert_eq!(
        control(20, &["10", "20", "30"]).process_command(Command::ZoomIn),
        request("http://127.0.0.1:8080/ptz?zoom=2")
    );
    assert_eq!(control(20, &["10", "20", "30"]).increment_zoom_index(), Ok(2));
    assert_eq!(control(10, &["10", "20", "30"]).increment_zoom_index(), Ok(1));
}

#[test]
fn zoom_in_stays_on_the_last_step() {
    assert_eq!(control(30, &["10", "20", "30"]).increment_zoom_index(), Ok(2));
    assert_eq!(
        control(30, &["10", "20", "30"]).process_command(Command::ZoomIn),
        request("http://127.0.0.1:8080/ptz?zoom=2")
    );
    assert_eq!(control(10, &["10"]).increment_zoom_index(), Ok(0));
}

#[test]
fn zoom_out_asks_for_the_index_before() {
    assert_eq!(control(30, &["10", "20", "30"]).decrement_zoom_index(), Ok(1));
    assert_eq!(control(20, &["10", "20", "30"]).decrement_zoom_index(), Ok(0));
    assert_eq!(
        control(20, &["10", "20", "30"]).process_command(Command::ZoomOut),
        request("http://127.0.0.1:8080/ptz?zoom=0")
    );
}

#[test]
fn zoom_out_stays_on_the_first_step() {
    assert_eq!(control(10, &["10", "20", "30"]).decrement_zoom_index(), Ok(0));
    assert_eq!(
        control(10, &["10", "20", "30"]).process_command(Command::ZoomOut),
        request("http://127.0.0.1:8080/ptz?zoom=0")
    );
}

#[test]
fn zooming_fails_without_a_known_step() {
    let lost = control(25, &["10", "20", "30"]);
    assert_eq!(lost.increment_zoom_index(), Err(ControlError::ZoomIn));
    assert_eq!(lost.decrement_zoom_index(), Err(ControlError::ZoomOut));
    assert_eq!(lost.process_command(Command::ZoomIn), Err(ControlError::ZoomIn));
    assert_eq!(lost.process_command(Command::ZoomOut), Err(ControlError::ZoomOut));
}

#[test]
fn zoom_never_leaves_the_steps() {
    let texts = ["100", "150", "200", "300"];
    let mut state = control(100, &texts);
    let keys = "zzzzzzZZZZZZZzZzzZzzzzZZZZZZZZzzzzzzzzzzZ";
    for key in keys.chars() {
        let index = match state.process_command(Command::from_key(Key::Char(key))) {
            Ok(Reaction::Request(url)) => {
                let (head, number) = url.split_at("http://127.0.0.1:8080/ptz?zoom=".len());
                assert_eq!(head, "http://127.0.0.1:8080/ptz?zoom=");
                number.parse::<usize>().unwrap()
            }
            other => panic!("{:?}", other),
        };
        assert!(index < texts.len());
        state.cam_info.curvals.zoom = texts[index].parse().unwrap();
        assert_eq!(state.zoom_index(), Some((index, texts.len())));
    }
}

#[test]
fn pan_left_stops_at_zero() {
    let state = control(10, &["10"]);
    assert_eq!(state.cam_info.curvals.crop_x, 0);
    assert_eq!(
        state.process_command(Command::PanLeft),
        request("http://127.0.0.1:8080/settings/crop_x?set=0")
    );
    assert_eq!(
        state.process_command(Command::PanUp),
        request("http://127.0.0.1:8080/settings/crop_y?set=0")
    );
}

#[test]
fn panning_moves_the_crop_by_one() {
    let mut state = control(10, &["10"]);
    state.port = 4747;
    state.cam_info.curvals = values(10, 5, 9, 50);
    assert_eq!(
        state.process_command(Command::PanLeft),
        request("http://127.0.0.1:4747/settings/crop_x?set=4")
    );
    assert_eq!(
        state.process_command(Command::PanRight),
        request("http://127.0.0.1:4747/settings/crop_x?set=6")
    );
    assert_eq!(
        state.process_command(Command::PanUp),
        request("http://127.0.0.1:4747/settings/crop_y?set=8")
    );
    assert_eq!(
        state.process_command(Command::PanDown),
        request("http://127.0.0.1:4747/settings/crop_y?set=10")
    );
}

#[test]
fn quality_moves_by_one() {
    let state = control(10, &["10"]);
    assert_eq!(
        state.process_command(Command::QualityUp),
        request("http://127.0.0.1:8080/settings/quality?set=51")
    );
    assert_eq!(
        state.process_command(Command::QualityDown),
        request("http://127.0.0.1:8080/settings/quality?set=49")
    );
}

#[test]
fn settings_stay_within_their_range() {
    let mut state = control(10, &["10"]);
    state.cam_info.curvals = values(10, u32::MAX, u32::MAX, u16::MAX);
    assert_eq!(state.apply_delta(Setting::CropX, 1), u32::MAX);
    assert_eq!(state.apply_delta(Setting::CropY, 1), u32::MAX);
    assert_eq!(state.apply_delta(Setting::Quality, 1), 65535);
    assert_eq!(state.apply_delta(Setting::CropX, -1), u32::MAX - 1);
    state.cam_info.curvals = values(10, 0, 0, 0);
    assert_eq!(state.apply_delta(Setting::CropX, -1), 0);
    assert_eq!(state.apply_delta(Setting::CropY, i32::MIN), 0);
    assert_eq!(state.apply_delta(Setting::Quality, -1), 0);
    assert_eq!(state.apply_delta(Setting::Quality, i32::MAX), 65535);
    assert_eq!(state.apply_delta(Setting::CropX, i32::MAX), 2147483647);
    assert_eq!(
        state.process_command(Command::QualityDown),
        request("http://127.0.0.1:8080/settings/quality?set=0")
    );
}

#[test]
fn apply_delta_adds_to_the_current_value() {
    let mut state = control(10, &["10"]);
    state.cam_info.curvals = values(10, 100, 200, 30);
    assert_eq!(state.apply_delta(Setting::CropX, 5), 105);
    assert_eq!(state.apply_delta(Setting::CropY, -50), 150);
    assert_eq!(state.apply_delta(Setting::Quality, 0), 30);
}

#[test]
fn quit_and_nothing_ask_nothing_of_the_device() {
    let state = control(10, &["10"]);
    assert_eq!(state.process_command(Command::Quit), Ok(Reaction::Quit));
    assert_eq!(state.process_command(Command::Nothing), Ok(Reaction::Refresh));
}

#[test]
fn flip_goes_round() {
    assert_eq!(VideoOrientationMethod::Identity.toggled(), VideoOrientationMethod::Horiz);
    assert_eq!(VideoOrientationMethod::Horiz.toggled(), VideoOrientationMethod::Vert);
    assert_eq!(VideoOrientationMethod::Vert.toggled(), VideoOrientationMethod::Identity);
    assert_eq!(VideoOrientationMethod::_90r.toggled(), VideoOrientationMethod::Horiz);
    assert_eq!(VideoOrientationMethod::_180.toggled(), VideoOrientationMethod::Horiz);
    assert_eq!(VideoOrientationMethod::_90l.toggled(), VideoOrientationMethod::Horiz);
    assert_eq!(VideoOrientationMethod::UlLr.toggled(), VideoOrientationMethod::Identity);
    assert_eq!(VideoOrientationMethod::UrLl.toggled(), VideoOrientationMethod::Identity);
    assert_eq!(VideoOrientationMethod::Auto.toggled(), VideoOrientationMethod::Identity);
    assert_eq!(VideoOrientationMethod::Custom.toggled(), VideoOrientationMethod::Identity);
    assert_eq!(VideoOrientationMethod::Unknown(42).toggled(), VideoOrientationMethod::Identity);
}

#[test]
fn flip_command_sets_the_next_orientation() {
    let mut state = control(10, &["10"]);
    assert_eq!(
        state.process_command(Command::Flip),
        Ok(Reaction::SetFlip(VideoOrientationMethod::Horiz))
    );
    state.flip_method = VideoOrientationMethod::Horiz;
    assert_eq!(
        state.process_command(Command::Flip),
        Ok(Reaction::SetFlip(VideoOrientationMethod::Vert))
    );
}

#[test]
fn fallback_only_quits() {
    assert_eq!(fallback_command(Command::Quit), Some(Reaction::Quit));
    assert_eq!(fallback_command(Command::ZoomIn), None);
    assert_eq!(fallback_command(Command::Nothing), None);
    assert_eq!(fallback_command(Command::Flip), None);
}

#[test]
fn request_addresses() {
    assert_eq!(status_request(8080, true), "http://127.0.0.1:8080/status.json?show_avail=1");
    assert_eq!(status_request(8080, false), "http://127.0.0.1:8080/status.json?show_avail=0");
    assert_eq!(status_request(0, false), "http://127.0.0.1:0/status.json?show_avail=0");
    assert_eq!(zoom_request(65535, 12), "http://127.0.0.1:65535/ptz?zoom=12");
    assert_eq!(
        setting_request(1, Setting::Quality, 100),
        "http://127.0.0.1:1/settings/quality?set=100"
    );
    assert_eq!(
        setting_request(1, Setting::CropX, 4294967295),
        "http://127.0.0.1:1/settings/crop_x?set=4294967295"
    );
    assert_eq!(setting_request(1, Setting::CropY, 0), "http://127.0.0.1:1/settings/crop_y?set=0");
}

#[test]
fn status_line_shows_zoom_quality_and_flip() {
    let mut state = control(20, &["10", "20", "30"]);
    state.cam_info.curvals.quality = 80;
    assert_eq!(
        state.display_status(true),
        Some("Zoom: 33 %, Quality: 80 %         \r".to_string())
    );
    state.flip_method = VideoOrientationMethod::Horiz;
    assert_eq!(
        state.display_status(true),
        Some("Zoom: 33 %, Quality: 80 %, Flip: H\r".to_string())
    );
    state.flip_method = VideoOrientationMethod::Vert;
    assert_eq!(
        state.display_status(true),
        Some("Zoom: 33 %, Quality: 80 %, Flip: V\r".to_string())
    );
}

#[test]
fn status_line_pads_to_two_places() {
    let mut state = control(10, &["10", "20", "30"]);
    state.cam_info.curvals.quality = 5;
    assert_eq!(
        state.display_status(true),
        Some("Zoom:  0 %, Quality:  5 %         \r".to_string())
    );
    state.cam_info.curvals.zoom = 30;
    state.cam_info.curvals.quality = 100;
    assert_eq!(
        state.display_status(true),
        Some("Zoom: 66 %, Quality: 100 %         \r".to_string())
    );
}

#[test]
fn status_line_agrees_with_formatting() {
    let texts: Vec<String> = (0..7).map(|i| (i * 10).to_string()).collect();
    let refs: Vec<&str> = texts.iter().map(|t| t.as_str()).collect();
    for index in 0..7usize {
        for quality in [0u16, 9, 10, 99, 100, 65535] {
            let mut state = control((index * 10) as u16, &refs);
            state.cam_info.curvals.quality = quality;
            let expected = format!("Zoom: {:2} %, Quality: {:2} %{}\r", 100 * index / 7, quality, "         ");
            assert_eq!(state.display_status(true), Some(expected));
        }
    }
}

#[test]
fn no_status_line_when_hidden_or_unknown() {
    assert_eq!(control(20, &["10", "20", "30"]).display_status(false), None);
    assert_eq!(control(25, &["10", "20", "30"]).display_status(true), None);
    assert_eq!(control(25, &["10", "20", "30"]).display_status(false), None);
}

#[test]
fn new_needs_report_and_orientation() {
    let info = CamInfo { curvals: values(10, 1, 2, 3), avail: steps(&["10"]) };
    let made = CamControl::new(8080, Ok(info.clone()), Ok(VideoOrientationMethod::Vert));
    assert_eq!(
        made,
        Ok(CamControl { port: 8080, cam_info: info.clone(), flip_method: VideoOrientationMethod::Vert })
    );
    assert_eq!(
        CamControl::new(8080, Err("no report".to_string()), Ok(VideoOrientationMethod::Vert)),
        Err("no report".to_string())
    );
    assert_eq!(
        CamControl::new(8080, Ok(info), Err("no flip".to_string())),
        Err("no flip".to_string())
    );
    assert_eq!(
        CamControl::new(8080, Err("no report".to_string()), Err("no flip".to_string())),
        Err("no report".to_string())
    );
}

#[test]
fn refresh_keeps_the_zoom_steps() {
    let mut state = control(10, &["10", "20", "30"]);
    let fresh = CamInfo { curvals: values(30, 4, 5, 60), avail: None };
    assert_eq!(state.refresh(Ok(fresh), Ok(VideoOrientationMethod::Horiz)), Ok(()));
    assert_eq!(state.cam_info.curvals, values(30, 4, 5, 60));
    assert_eq!(state.cam_info.avail, steps(&["10", "20", "30"]));
    assert_eq!(state.flip_method, VideoOrientationMethod::Horiz);
    assert_eq!(state.port, 8080);
    assert_eq!(state.zoom_index(), Some((2, 3)));
}

#[test]
fn failed_refresh_changes_nothing() {
    let mut state = control(10, &["10", "20", "30"]);
    let before = state.clone();
    assert_eq!(
        state.refresh(Err("gone".to_string()), Ok(VideoOrientationMethod::Horiz)),
        Err("gone".to_string())
    );
    assert_eq!(state, before);
}

#[test]
fn refresh_without_orientation_keeps_the_new_values() {
    let mut state = control(10, &["10", "20", "30"]);
    let fresh = CamInfo { curvals: values(20, 1, 1, 1), avail: steps(&["1"]) };
    assert_eq!(state.refresh(Ok(fresh), Err("flip".to_string())), Err("flip".to_string()));
    assert_eq!(state.cam_info.curvals, values(20, 1, 1, 1));
    assert_eq!(state.cam_info.avail, steps(&["10", "20", "30"]));
    assert_eq!(state.flip_method, VideoOrientationMethod::Identity);
}

#[test]
fn everything_but_quitting_is_followed_by_a_refresh() {
    assert!(!Reaction::Quit.refreshes());
    assert!(Reaction::Refresh.refreshes());
    assert!(Reaction::Request("http://127.0.0.1:1/ptz?zoom=0".to_string()).refreshes());
    assert!(Reaction::SetFlip(VideoOrientationMethod::Horiz).refreshes());
}

#[test]
fn only_the_first_report_lists_the_zoom_steps() {
    assert_eq!(
        CamControl::first_request(8080),
        "http://127.0.0.1:8080/status.json?show_avail=1"
    );
    assert_eq!(
        control(10, &["10"]).refresh_request(),
        "http://127.0.0.1:8080/status.json?show_avail=0"
    );
}
