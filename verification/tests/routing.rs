//! Bus and send routing from parameter settings.

use mmlx::note::ParamValue;
use mmlx::routing::{clamp_unit_bits, BusState};

#[test]
fn bus_and_send_routing() {
    let mut state = BusState::new();
    assert_eq!(state.bus_of("lead"), "main");
    state.route_param("lead", "bus", &ParamValue::String("music".to_string()));
    assert_eq!(state.bus_of("lead"), "music");
    state.route_param("lead", "send_bus", &ParamValue::String("fx".to_string()));
    assert_eq!(state.send_of("lead"), Some(("fx", 0)));
    state.route_param("lead", "send", &ParamValue::Number(0.5f32.to_bits()));
    assert_eq!(state.send_of("lead"), Some(("fx", 0.5f32.to_bits())));
    assert_eq!(state.bus_of("drums"), "main");

    // Unset returns the voice to main with no send.
    state.route_param("lead", "bus", &ParamValue::Unset);
    state.route_param("lead", "send", &ParamValue::Unset);
    assert_eq!(state.bus_of("lead"), "main");
    assert_eq!(state.send_of("lead"), None);

    // Unknown keys are ignored.
    let mut state2 = BusState::new();
    state2.route_param("lead", "patch", &ParamValue::String("sine".to_string()));
    assert_eq!(state2.bus_of("lead"), "main");
}

#[test]
fn send_amount_defaults_to_fx_bus_and_clamps() {
    let mut state = BusState::new();
    state.route_param("pad", "send", &ParamValue::Number(3.0f32.to_bits()));
    assert_eq!(state.send_of("pad"), Some(("fx", 1.0f32.to_bits())));
    state.route_param("pad", "send_bus", &ParamValue::String("verb".to_string()));
    assert_eq!(state.send_of("pad"), Some(("verb", 1.0f32.to_bits())));
}

#[test]
fn clamp_matches_f32_clamp() {
    for x in [-2.0f32, -0.0, 0.0, 0.25, 1.0, 1.5, f32::INFINITY, f32::NEG_INFINITY, 1e-40, -1e-40] {
        assert_eq!(clamp_unit_bits(x.to_bits()), x.clamp(0.0, 1.0).to_bits(), "{x}");
    }
    assert!(f32::from_bits(clamp_unit_bits(f32::NAN.to_bits())).is_nan());
}
