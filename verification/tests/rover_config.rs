use maker_firmware::rover::config::Config;

#[test]
fn config_default_values() {
    let cfg = Config::default();
    assert_eq!(cfg.baud_rate(), 9600);
    assert_eq!(cfg.blink_interval(), 1000);
}
