use iot_fan::button::button_step;
use iot_fan::fan::{Fan, Speed};
use iot_fan::leds::{render_plan, Line, LineWrite};
use iot_fan::protocol::{
    decode, default_config, execute, execute_request, query_res, sync_res, tier_of, Command,
    ExecuteRequest, ExecuteRequestParams,
};
use iot_fan::shared::SharedFan;

fn fan(speed: Speed, on: bool) -> Fan {
    Fan { speed, on }
}

fn request(command: &str, fan_speed: Option<&str>, on: Option<bool>) -> ExecuteRequest {
    ExecuteRequest {
        id: "request-1".to_string(),
        command: command.to_string(),
        params: ExecuteRequestParams {
            fan_speed: fan_speed.map(|s| s.to_string()),
            on,
        },
    }
}

#[test]
fn advance_steps_through_the_cycle() {
    let mut f = Fan::new();
    assert_eq!(f, fan(Speed::Low, false));
    f.next_speed();
    assert_eq!(f, fan(Speed::Low, true));
    f.next_speed();
    assert_eq!(f, fan(Speed::Medium, true));
    f.next_speed();
    assert_eq!(f, fan(Speed::High, true));
    f.next_speed();
    assert_eq!(f, fan(Speed::Low, false));
}

#[test]
fn four_advances_close_the_cycle_from_every_state() {
    let states = [
        fan(Speed::Low, false),
        fan(Speed::Low, true),
        fan(Speed::Medium, true),
        fan(Speed::High, true),
    ];
    for start in states {
        let mut f = start;
        for _ in 0..4 {
            f.next_speed();
        }
        assert_eq!(f, start);
    }
}

#[test]
fn set_speed_never_changes_power() {
    for on in [false, true] {
        for tier in [Speed::Low, Speed::Medium, Speed::High] {
            let mut f = fan(Speed::Low, on);
            f.set_speed(tier);
            assert_eq!(f.is_on(), on);
            assert_eq!(f.get_speed(), tier);
        }
    }
}

#[test]
fn set_power_never_changes_speed() {
    for tier in [Speed::Low, Speed::Medium, Speed::High] {
        for on in [false, true] {
            let mut f = fan(tier, !on);
            f.set_on(on);
            assert_eq!(f.get_speed(), tier);
            assert_eq!(f.is_on(), on);
        }
    }
}

#[test]
fn button_press_while_off_turns_the_fan_on() {
    // a speed-set command while off leaves the tier remembered; the next
    // press must still visibly turn the fan on, at Low
    for tier in [Speed::Low, Speed::Medium, Speed::High] {
        let mut f = fan(tier, false);
        f.next_speed();
        assert_eq!(f, fan(Speed::Low, true));
    }
}

#[test]
fn held_button_counts_a_single_press() {
    // armed: the first high sample counts, holding does not
    let (released, pressed) = button_step(true, true);
    assert!(pressed);
    assert!(!released);
    let (released, pressed) = button_step(released, true);
    assert!(!pressed);
    assert!(!released);
    // a low sample re-arms
    let (released, pressed) = button_step(released, false);
    assert!(!pressed);
    assert!(released);
    // before any release, a high sample counts nothing
    let (released, pressed) = button_step(false, true);
    assert!(!pressed);
    assert!(!released);
}

#[test]
fn toggle_flips_power_and_keeps_speed() {
    let mut f = fan(Speed::Medium, false);
    f.toggle();
    assert_eq!(f, fan(Speed::Medium, true));
    f.toggle();
    assert_eq!(f, fan(Speed::Medium, false));
}

fn apply(levels: &mut [bool; 4], w: &LineWrite) {
    let i = match w.line {
        Line::OnOff => 0,
        Line::Speed1 => 1,
        Line::Speed2 => 2,
        Line::Speed3 => 3,
    };
    levels[i] = w.high;
}

fn tier_lines_asserted(levels: &[bool; 4]) -> usize {
    [levels[1], levels[2], levels[3]].iter().filter(|b| **b).count()
}

#[test]
fn render_reaches_the_target_levels() {
    let cases = [
        (fan(Speed::Low, false), [true, false, false, false]),
        (fan(Speed::Medium, false), [true, false, false, false]),
        (fan(Speed::High, false), [true, false, false, false]),
        (fan(Speed::Low, true), [false, true, false, false]),
        (fan(Speed::Medium, true), [false, false, true, false]),
        (fan(Speed::High, true), [false, false, false, true]),
    ];
    for (state, expected) in cases {
        // start from every possible prior level assignment
        for start in 0..16u32 {
            let mut levels = [
                start & 1 != 0,
                start & 2 != 0,
                start & 4 != 0,
                start & 8 != 0,
            ];
            for w in render_plan(&state) {
                apply(&mut levels, &w);
            }
            assert_eq!(levels, expected);
            assert!(tier_lines_asserted(&levels) <= 1);
            assert_eq!(levels[0], !state.is_on());
        }
    }
}

#[test]
fn render_never_shows_two_tier_lines() {
    let states = [
        fan(Speed::Low, false),
        fan(Speed::Low, true),
        fan(Speed::Medium, true),
        fan(Speed::High, true),
        fan(Speed::Medium, false),
        fan(Speed::High, false),
    ];
    // every prior state with at most one tier line asserted
    let starts = [
        [false, false, false, false],
        [true, false, false, false],
        [false, true, false, false],
        [false, false, true, false],
        [false, false, false, true],
        [true, true, false, false],
        [true, false, true, false],
        [true, false, false, true],
    ];
    for state in states {
        for start in starts {
            let mut levels = start;
            for w in render_plan(&state) {
                apply(&mut levels, &w);
                assert!(tier_lines_asserted(&levels) <= 1);
            }
        }
    }
}

#[test]
fn render_plan_orders_the_writes() {
    let plan = render_plan(&fan(Speed::Medium, true));
    assert_eq!(
        plan,
        vec![
            LineWrite { line: Line::OnOff, high: false },
            LineWrite { line: Line::Speed1, high: false },
            LineWrite { line: Line::Speed3, high: false },
            LineWrite { line: Line::Speed2, high: true },
        ]
    );
    let plan = render_plan(&fan(Speed::Medium, false));
    assert_eq!(
        plan,
        vec![
            LineWrite { line: Line::OnOff, high: true },
            LineWrite { line: Line::Speed1, high: false },
            LineWrite { line: Line::Speed2, high: false },
            LineWrite { line: Line::Speed3, high: false },
        ]
    );
}

#[test]
fn speed_keys_round_trip() {
    for tier in [Speed::Low, Speed::Medium, Speed::High] {
        assert_eq!(tier_of(&tier.to_string()), tier);
    }
    assert_eq!(tier_of("low_key"), Speed::Low);
    assert_eq!(tier_of("med_key"), Speed::Medium);
    assert_eq!(tier_of("high_key"), Speed::High);
}

#[test]
fn unrecognized_key_falls_back_to_low() {
    assert_eq!(tier_of("turbo"), Speed::Low);
    assert_eq!(tier_of(""), Speed::Low);
    assert_eq!(tier_of("LOW_KEY"), Speed::Low);
}

#[test]
fn status_snapshot_through_the_cycle() {
    let mut f = Fan::new();
    let expected = [
        "{\"12345\":{\"currentFanSpeedSetting\":\"low_key\",\"on\":false,\"online\":true,\"status\":\"SUCCESS\"}}",
        "{\"12345\":{\"currentFanSpeedSetting\":\"low_key\",\"on\":true,\"online\":true,\"status\":\"SUCCESS\"}}",
        "{\"12345\":{\"currentFanSpeedSetting\":\"med_key\",\"on\":true,\"online\":true,\"status\":\"SUCCESS\"}}",
        "{\"12345\":{\"currentFanSpeedSetting\":\"high_key\",\"on\":true,\"online\":true,\"status\":\"SUCCESS\"}}",
        "{\"12345\":{\"currentFanSpeedSetting\":\"low_key\",\"on\":false,\"online\":true,\"status\":\"SUCCESS\"}}",
    ];
    assert_eq!(query_res(&f, "12345"), expected[0]);
    for exp in &expected[1..] {
        f.next_speed();
        assert_eq!(&query_res(&f, "12345"), exp);
    }
}

#[test]
fn set_speed_command_while_off_keeps_the_fan_off() {
    let mut f = Fan::new();
    let req = request(
        "action.devices.commands.SetFanSpeed",
        Some("med_key"),
        None,
    );
    execute_request(&mut f, &req);
    assert_eq!(f, fan(Speed::Medium, false));
    assert_eq!(
        query_res(&f, "12345"),
        "{\"12345\":{\"currentFanSpeedSetting\":\"med_key\",\"on\":false,\"online\":true,\"status\":\"SUCCESS\"}}"
    );
}

#[test]
fn unrecognized_speed_key_resolves_to_low() {
    let mut f = fan(Speed::High, true);
    let req = request("action.devices.commands.SetFanSpeed", Some("turbo"), None);
    execute_request(&mut f, &req);
    assert_eq!(f, fan(Speed::Low, true));
}

#[test]
fn onoff_command_sets_the_power_flag() {
    let mut f = Fan::new();
    execute_request(&mut f, &request("action.devices.commands.OnOff", None, Some(true)));
    assert_eq!(f, fan(Speed::Low, true));
    execute_request(&mut f, &request("action.devices.commands.OnOff", None, Some(false)));
    assert_eq!(f, fan(Speed::Low, false));
}

#[test]
fn absent_parameters_are_a_no_op() {
    let mut f = fan(Speed::Medium, true);
    execute_request(&mut f, &request("action.devices.commands.OnOff", None, None));
    assert_eq!(f, fan(Speed::Medium, true));
    execute_request(&mut f, &request("action.devices.commands.SetFanSpeed", None, None));
    assert_eq!(f, fan(Speed::Medium, true));
}

#[test]
fn unknown_command_is_ignored() {
    let mut f = fan(Speed::High, true);
    let req = request("action.devices.commands.StartStop", Some("low_key"), Some(false));
    execute_request(&mut f, &req);
    assert_eq!(f, fan(Speed::High, true));
}

#[test]
fn decode_recognizes_the_two_commands() {
    let c = decode(&request("action.devices.commands.OnOff", None, Some(true)));
    assert_eq!(c, Command::OnOff { on: Some(true) });
    let c = decode(&request("action.devices.commands.SetFanSpeed", Some("high_key"), None));
    assert_eq!(c, Command::SetFanSpeed { speed: Some(Speed::High) });
    let c = decode(&request("action.devices.commands.Dock", None, None));
    assert_eq!(c, Command::Unrecognized);
    let mut f = fan(Speed::Low, true);
    execute(&mut f, &Command::SetFanSpeed { speed: Some(Speed::Medium) });
    assert_eq!(f, fan(Speed::Medium, true));
}

#[test]
fn capability_descriptor_matches_the_configuration() {
    let cfg = default_config();
    assert_eq!(
        sync_res(&cfg),
        "{\"attributes\":{\"availableFanSpeeds\":{\"ordered\":true,\"speeds\":[{\"speed_name\":\"low_key\",\"speed_values\":[{\"lang\":\"en\",\"speed_synonym\":[\"low\",\"slow\"]}]},{\"speed_name\":\"med_key\",\"speed_values\":[{\"lang\":\"en\",\"speed_synonym\":[\"medium\",\"normal\"]}]},{\"speed_name\":\"high_key\",\"speed_values\":[{\"lang\":\"en\",\"speed_synonym\":[\"high\",\"fast\"]}]}]},\"reversible\":false},\"deviceInfo\":{\"hwVersion\":\"1.0\",\"manufacturer\":\"BigGainAFisherman Inc.\",\"model\":\"Super Advanced IoT Fan\",\"swVersion\":\"1.0\"},\"id\":\"12345\",\"name\":{\"name\":\"Fan\"},\"traits\":[\"action.devices.traits.OnOff\",\"action.devices.traits.FanSpeed\"],\"type\":\"action.devices.types.FAN\",\"willReportState\":false}"
    );
}

#[test]
fn descriptor_and_snapshot_are_valid_json() {
    let cfg = default_config();
    let sync: serde_json::Value = serde_json::from_str(&sync_res(&cfg)).unwrap();
    assert_eq!(sync["id"], "12345");
    assert_eq!(sync["attributes"]["availableFanSpeeds"]["speeds"][1]["speed_name"], "med_key");
    let f = fan(Speed::Medium, true);
    let query: serde_json::Value = serde_json::from_str(&query_res(&f, "12345")).unwrap();
    assert_eq!(query["12345"]["on"], true);
    assert_eq!(query["12345"]["currentFanSpeedSetting"], "med_key");
    assert_eq!(query["12345"]["status"], "SUCCESS");
}

#[test]
fn embedded_strings_are_escaped() {
    let f = Fan::new();
    let out = query_res(&f, "a\"b\\c\nd\u{1}e");
    assert_eq!(
        out,
        "{\"a\\\"b\\\\c\\nd\\u0001e\":{\"currentFanSpeedSetting\":\"low_key\",\"on\":false,\"online\":true,\"status\":\"SUCCESS\"}}"
    );
    let parsed: serde_json::Value = serde_json::from_str(&out).unwrap();
    assert_eq!(parsed["a\"b\\c\nd\u{1}e"]["on"], false);
}

#[test]
fn shared_fan_serializes_mutations() {
    let shared = SharedFan::new(Fan::new());
    let (before, after) = shared.advance();
    assert_eq!(before, fan(Speed::Low, false));
    assert_eq!(after, fan(Speed::Low, true));
    let (before, after) = shared.execute(&Command::SetFanSpeed { speed: Some(Speed::Medium) });
    assert_eq!(before, fan(Speed::Low, true));
    assert_eq!(after, fan(Speed::Medium, true));
    let (_, after) = shared.set_on(false);
    assert_eq!(after, fan(Speed::Medium, false));
    let (_, after) = shared.set_speed(Speed::High);
    assert_eq!(after, fan(Speed::High, false));
    assert_eq!(shared.snapshot(), fan(Speed::High, false));
}
