use dcamctl::cli::ProgramOptions;
use dcamctl::config::{ProgramConfig, Resolution, ResolutionError};

fn file() -> ProgramConfig {
    ProgramConfig {
        port: 8080,
        device: "/dev/video0".to_string(),
        resolution: None,
        no_audio: false,
        no_echo_cancel: true,
        flip: Some("vertical".to_string()),
    }
}

fn nothing() -> ProgramOptions {
    ProgramOptions {
        port: None,
        device: None,
        resolution: None,
        config: None,
        no_audio: false,
        no_echo_cancel: false,
        flip: None,
        serial: None,
        verbose: 0,
        quiet: 0,
    }
}

#[test]
fn no_options_leave_the_settings_alone() {
    assert_eq!(file().with_options(&nothing()), Ok(file()));
}

#[test]
fn options_replace_settings() {
    let options = ProgramOptions {
        port: Some(4747),
        device: Some("/dev/video7".to_string()),
        resolution: Some("1280x720".to_string()),
        flip: Some("horizontal".to_string()),
        no_audio: true,
        ..nothing()
    };
    assert_eq!(
        file().with_options(&options),
        Ok(ProgramConfig {
            port: 4747,
            device: "/dev/video7".to_string(),
            resolution: Some(Resolution { height: 720, width: 1280 }),
            no_audio: true,
            no_echo_cancel: true,
            flip: Some("horizontal".to_string()),
        })
    );
}

#[test]
fn switches_only_switch_off() {
    let mut settings = file();
    settings.no_audio = true;
    let merged = settings.with_options(&nothing()).unwrap();
    assert!(merged.no_audio);
    assert!(merged.no_echo_cancel);
    let mut loud = file();
    loud.no_echo_cancel = false;
    let options = ProgramOptions { no_echo_cancel: true, ..nothing() };
    assert!(loud.with_options(&options).unwrap().no_echo_cancel);
}

#[test]
fn auto_on_the_command_line_drops_a_fixed_resolution() {
    let mut settings = file();
    settings.resolution = Some(Resolution { height: 480, width: 640 });
    let options = ProgramOptions { resolution: Some("auto".to_string()), ..nothing() };
    assert_eq!(settings.with_options(&options).unwrap().resolution, None);
}

#[test]
fn a_bad_resolution_on_the_command_line_is_refused() {
    let options = ProgramOptions { resolution: Some("big".to_string()), ..nothing() };
    assert_eq!(file().with_options(&options), Err(ResolutionError::InvalidWidth));
    let options = ProgramOptions { resolution: Some("640".to_string()), ..nothing() };
    assert_eq!(file().with_options(&options), Err(ResolutionError::NoHeight));
    let options = ProgramOptions { resolution: Some("640x".to_string()), ..nothing() };
    assert_eq!(file().with_options(&options), Err(ResolutionError::InvalidHeight));
}
