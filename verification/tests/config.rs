use flickerled::config::{Config, ConfigError, FlickeringGpsLed, HomeAssistantConfig};
use flickerled::secure_string::SecureString;
use flickerled::supervisor::{AuthMethod, WifiNetwork};

fn ha() -> HomeAssistantConfig {
    HomeAssistantConfig {
        base_url: String::from("http://ha.local:8123"),
        access_token: SecureString::new(String::from("SECRET-REDACTED")),
    }
}

fn network() -> WifiNetwork {
    WifiNetwork {
        ssid: String::from("home"),
        auth_method: AuthMethod::Open,
        password: SecureString::new(String::new()),
    }
}

fn led(pin: i32, min: u64, max: u64) -> FlickeringGpsLed {
    FlickeringGpsLed {
        entity: String::from("device_tracker.phone"),
        gps_zone: String::from("home"),
        gpio_pin: pin,
        min_brightness: min,
        max_brightness: max,
    }
}

#[test]
fn valid_config_passes() {
    let cfg = Config {
        networks: vec![network()],
        home_assistant_config: ha(),
        flickering_gps_leds: vec![led(4, 1000, 9000), led(5, 0, 10000)],
    };
    assert!(cfg.validate().is_ok());
}

#[test]
fn no_indicators_is_still_valid() {
    let cfg = Config {
        networks: vec![network()],
        home_assistant_config: ha(),
        flickering_gps_leds: vec![],
    };
    assert!(cfg.validate().is_ok());
}

#[test]
fn empty_network_list_is_fatal() {
    let cfg = Config {
        networks: vec![],
        home_assistant_config: ha(),
        flickering_gps_leds: vec![],
    };
    assert_eq!(cfg.validate(), Err(ConfigError::NoNetworks));
}

#[test]
fn duplicate_pin_is_fatal() {
    let cfg = Config {
        networks: vec![network()],
        home_assistant_config: ha(),
        flickering_gps_leds: vec![led(4, 0, 100), led(5, 0, 100), led(4, 0, 100)],
    };
    assert_eq!(cfg.validate(), Err(ConfigError::DuplicateGpioPin(4)));
}

#[test]
fn unordered_brightness_bounds_are_fatal() {
    let cfg = Config {
        networks: vec![network()],
        home_assistant_config: ha(),
        flickering_gps_leds: vec![led(4, 9000, 1000)],
    };
    assert_eq!(cfg.validate(), Err(ConfigError::BadBrightnessBounds(4)));
}

#[test]
fn brightness_beyond_scale_is_fatal() {
    let cfg = Config {
        networks: vec![network()],
        home_assistant_config: ha(),
        flickering_gps_leds: vec![led(4, 0, 10001)],
    };
    assert_eq!(cfg.validate(), Err(ConfigError::BadBrightnessBounds(4)));
}
