use fan_light::light::Light;

#[test]
fn new_light_is_all_off() {
    let light = Light::new();
    assert!(!light.red);
    assert!(!light.yellow);
    assert!(!light.green);
}

#[test]
fn red_lights_only_red() {
    let mut light = Light::new();
    light.red();
    assert!(light.red);
    assert!(!light.yellow);
    assert!(!light.green);
}

#[test]
fn yellow_lights_only_yellow_from_any_state() {
    let mut light = Light::new();
    light.red();
    light.yellow();
    assert!(!light.red);
    assert!(light.yellow);
    assert!(!light.green);
}

#[test]
fn green_lights_only_green_from_any_state() {
    let mut light = Light::new();
    light.yellow();
    light.green();
    assert!(!light.red);
    assert!(!light.yellow);
    assert!(light.green);
}

#[test]
fn each_color_call_leaves_exactly_one_line_high() {
    let mut light = Light::new();
    light.red();
    light.green();
    light.red();
    light.yellow();
    let lit: u32 = light.red as u32 + light.yellow as u32 + light.green as u32;
    assert_eq!(lit, 1);
    assert!(light.yellow);
}

#[test]
fn set_off_clears_every_color() {
    let mut light = Light::new();
    light.green();
    light.set_off();
    assert!(!light.red);
    assert!(!light.yellow);
    assert!(!light.green);
}

#[test]
fn set_off_is_idempotent() {
    let mut light = Light::new();
    light.red();
    light.set_off();
    light.set_off();
    assert!(!light.red);
    assert!(!light.yellow);
    assert!(!light.green);
}
