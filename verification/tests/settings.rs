use spewcap::settings::{get_config, get_settings, Args, Config};

fn no_args() -> Args {
    Args {
        port: None,
        baud_rate: None,
        timestamps: false,
        log_on_start: false,
        log_folder: None,
        list: false,
    }
}

fn file_config() -> Config {
    Config {
        port: Some(String::from("/dev/ttyUSB0")),
        baud_rate: Some(9600),
        timestamps: Some(true),
        log_folder: Some(String::from("/tmp/logs")),
        log_on_start: Some(true),
        disable_welcome: Some(false),
    }
}

#[test]
fn arguments_override_the_file() {
    let mut config = file_config();
    let args = Args {
        port: Some(String::from("COM3")),
        baud_rate: Some(115200),
        timestamps: false,
        log_on_start: false,
        log_folder: None,
        list: false,
    };
    config.use_args(args);
    assert_eq!(config.port, Some(String::from("COM3")));
    assert_eq!(config.baud_rate, Some(115200));
    // The plain flags always come from the command line.
    assert_eq!(config.timestamps, Some(false));
    assert_eq!(config.log_on_start, Some(false));
    // An argument that was not given keeps the file's value.
    assert_eq!(config.log_folder, Some(String::from("/tmp/logs")));
    assert_eq!(config.disable_welcome, Some(false));
}

#[test]
fn select_missing_fills_only_the_gaps() {
    let mut config = Config::default();
    config.select_missing(String::from("COM7"), 19200);
    assert_eq!(config.port, Some(String::from("COM7")));
    assert_eq!(config.baud_rate, Some(19200));

    let mut configured = file_config();
    configured.select_missing(String::from("COM7"), 19200);
    assert_eq!(configured.port, Some(String::from("/dev/ttyUSB0")));
    assert_eq!(configured.baud_rate, Some(9600));
}

#[test]
fn the_first_config_found_wins() {
    let primary = file_config();
    let mut fallback = Config::default();
    fallback.port = Some(String::from("COM9"));

    let merged = get_config(Some(primary), Some(fallback.clone()), no_args());
    assert_eq!(merged.port, Some(String::from("/dev/ttyUSB0")));

    let merged = get_config(None, Some(fallback), no_args());
    assert_eq!(merged.port, Some(String::from("COM9")));

    let merged = get_config(None, None, no_args());
    assert_eq!(merged.port, None);
    assert_eq!(merged.timestamps, Some(false));
}

#[test]
fn settings_take_the_chosen_values() {
    let config = file_config();
    let settings = get_settings(&config);
    assert_eq!(settings.port, String::from("/dev/ttyUSB0"));
    assert_eq!(settings.baud_rate, 9600);
    assert!(settings.timestamps);
    assert_eq!(settings.log_folder, Some(String::from("/tmp/logs")));
}

#[test]
fn timestamps_default_to_off() {
    let mut config = Config::default();
    config.select_missing(String::from("COM1"), 4800);
    let settings = get_settings(&config);
    assert_eq!(settings.port, String::from("COM1"));
    assert_eq!(settings.baud_rate, 4800);
    assert!(!settings.timestamps);
    assert_eq!(settings.log_folder, None);
}
