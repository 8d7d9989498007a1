use gadgetdeck::{GadgetDeckConfig, StreamDeckModel};

#[test]
fn test_config_creation() {
    let config = GadgetDeckConfig::new(StreamDeckModel::Mini, "TEST123");
    assert_eq!(config.model, StreamDeckModel::Mini);
    assert_eq!(config.serial, "TEST123");
}

#[test]
fn test_config_mini() {
    let config = GadgetDeckConfig::mini("SERIAL");
    assert_eq!(config.model, StreamDeckModel::Mini);
}

#[test]
fn test_config_pedal() {
    let config = GadgetDeckConfig::pedal("SERIAL");
    assert_eq!(config.model, StreamDeckModel::Pedal);
}

#[test]
fn test_config_plus() {
    let config = GadgetDeckConfig::plus("SERIAL");
    assert_eq!(config.model, StreamDeckModel::Plus);
    assert_eq!(config.serial, "SERIAL");
}
