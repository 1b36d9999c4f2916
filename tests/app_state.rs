use bart_core::app_state::AppState;
use bart_core::color::Rgb;
use bart_core::error::ControllerError;
use bart_core::led_pipeline::Pulse;
use std::time::Duration;

const LED_COLOR: Rgb = Rgb { r: 0x09, g: 0x09, b: 0x09 };
const BLACK: Rgb = Rgb { r: 0, g: 0, b: 0 };
const DARK: Pulse = Pulse { level: 0, opposite: 0 };

#[test]
fn test_two_rings_lit() {
    let mut app_state = AppState::new(launch_time());
    app_state.received_http_response(json_with_etd_3_trains("4", "15"));
    let led_buffer = app_state.get_current_led_buffer(0, DARK);

    let mut expected_buffer: [Rgb; 44] = [BLACK; 44];
    fill_inner_ring::<4>(&mut expected_buffer, LED_COLOR);
    fill_outer_ring::<15>(&mut expected_buffer, LED_COLOR);

    assert_eq!(expected_buffer, led_buffer.rgb_buffer);
}

#[test]
fn test_two_rings_lit_after_2_min() {
    let mut app_state = AppState::new(launch_time());
    app_state.received_http_response(json_with_etd_3_trains("4", "15"));
    let two_min_micro = 1000000 * 60 * 2;
    let led_buffer = app_state.get_current_led_buffer(two_min_micro, DARK);

    let mut expected_buffer: [Rgb; 44] = [BLACK; 44];
    fill_inner_ring::<2>(&mut expected_buffer, LED_COLOR);
    fill_outer_ring::<13>(&mut expected_buffer, LED_COLOR);

    assert_eq!(expected_buffer, led_buffer.rgb_buffer);
}

#[test]
fn test_two_rings_lit_first_train_left() {
    let mut app_state = AppState::new(launch_time());
    app_state.received_http_response(json_with_etd_3_trains("4", "15"));
    let five_min_micro = 1000000 * 60 * 5;
    let led_buffer = app_state.get_current_led_buffer(five_min_micro, DARK);

    let mut expected_buffer: [Rgb; 44] = [BLACK; 44];
    fill_inner_ring::<10>(&mut expected_buffer, LED_COLOR);
    fill_outer_ring::<18>(&mut expected_buffer, LED_COLOR);

    assert_eq!(expected_buffer, led_buffer.rgb_buffer);
}

#[test]
fn test_shortest_etd_too_long_for_inner_ring() {
    let mut app_state = AppState::new(launch_time());
    app_state.received_http_response(json_with_etd_3_trains("17", "20"));
    let led_buffer = app_state.get_current_led_buffer(0, DARK);

    let mut expected_buffer: [Rgb; 44] = [BLACK; 44];

    fill_outer_ring::<17>(&mut expected_buffer, LED_COLOR);

    assert_eq!(expected_buffer, led_buffer.rgb_buffer);
}

#[test]
fn test_etd_is_leaving() {
    let mut app_state = AppState::new(launch_time());
    app_state.received_http_response(json_with_etd_3_trains("Leaving", "15"));
    let led_buffer = app_state.get_current_led_buffer(0, DARK);

    let mut expected_buffer: [Rgb; 44] = [BLACK; 44];
    fill_inner_ring::<15>(&mut expected_buffer, LED_COLOR);
    fill_outer_ring::<23>(&mut expected_buffer, LED_COLOR);

    assert_eq!(expected_buffer, led_buffer.rgb_buffer);
}

#[test]
fn test_next_fetch_time_2_trains() {
    // We should fetch 2 min before next train leaves (4 - 2) * 60 = 120
    let mut app_state = AppState::new(launch_time());
    let next_fetch_sec = app_state.received_http_response(json_with_etd_2_trains("4", "15"));
    assert_eq!(next_fetch_sec, 120);
}

#[test]
fn test_next_fetch_time_2_trains_beyond_max() {
    // The most time we should wait between fetches is 10 min (600): clamp(13 - 2, 0, 10) * 60 = 600
    let mut app_state = AppState::new(launch_time());
    let next_fetch_sec = app_state.received_http_response(json_with_etd_2_trains("13", "15"));
    assert_eq!(next_fetch_sec, 600);
}

#[test]
fn test_next_fetch_time_1_train() {
    // If there's only 1 train scheduled, fetch in 5 min
    let mut app_state = AppState::new(launch_time());
    let next_fetch_sec = app_state.received_http_response(json_with_etd_1_train("4"));
    assert_eq!(next_fetch_sec, 300);
}

#[test]
fn test_next_fetch_time_3_train() {
    // If there's 3 or more trains, fetch in 10 min
    let mut app_state = AppState::new(launch_time());
    let next_fetch_sec = app_state.received_http_response(json_with_etd_3_trains("4", "15"));
    assert_eq!(next_fetch_sec, 600);
}

#[test]
fn test_should_allow_fetch_on_launch() {
    let app_state = AppState::new(launch_time());
    let one_min_duration = micros(Duration::new(60, 0));
    assert!(app_state.should_perform_fetch(one_min_duration));
}

#[test]
fn test_should_not_allow_fetch_after_10_min() {
    let app_state = AppState::new(launch_time());
    let ten_min_duration = micros(Duration::new(10 * 60, 0));
    assert!(!app_state.should_perform_fetch(ten_min_duration));
}

#[test]
fn test_should_allow_fetch_after_after_motion_sensed() {
    let mut app_state = AppState::new(launch_time());
    let eight_min_duration = micros(Duration::new(8 * 60, 0));
    app_state.motion_sensed(eight_min_duration);
    let ten_min_duration = micros(Duration::new(10 * 60, 0));
    assert!(app_state.should_perform_fetch(ten_min_duration));
}

fn fill_outer_ring<const N: usize>(buffer: &mut [Rgb; 44], color: Rgb) {
    buffer[..N].clone_from_slice(&[color; N]);
}

fn fill_inner_ring<const N: usize>(buffer: &mut [Rgb; 44], color: Rgb) {
    buffer[24..24 + N].clone_from_slice(&[color; N]);
}

fn micros(d: Duration) -> u64 {
    d.as_micros() as u64
}

fn launch_time() -> u64 {
    micros(Duration::new(0, 0))
}

pub fn json_with_etd_3_trains(first: &str, second:&str) -> Result<String, ControllerError> {
    Ok(format!(r##"{{
"?xml": {{
"@version": "1.0",
"@encoding": "utf-8"
}},
"root": {{
"@id": "1",
"uri": {{
"#cdata-section": "http://api.bart.gov/api/etd.aspx?cmd=etd&orig=ROCK&json=y"
}},
"date": "05/09/2024",
"time": "04:24:03 PM PDT",
"station": [
{{
"name": "Rockridge",
"abbr": "ROCK",
"etd": [
{{
"destination": "Antioch",
"abbreviation": "ANTC",
"limited": "0",
"estimate": [
{{
"minutes": "21",
"platform": "1",
"direction": "North",
"length": "8",
"color": "YELLOW",
"hexcolor": "#ffff33",
"bikeflag": "1",
"delay": "337",
"cancelflag": "0",
"dynamicflag": "0"
}},
{{
"minutes": "35",
"platform": "1",
"direction": "North",
"length": "8",
"color": "YELLOW",
"hexcolor": "#ffff33",
"bikeflag": "1",
"delay": "0",
"cancelflag": "0",
"dynamicflag": "0"
}},
{{
"minutes": "55",
"platform": "1",
"direction": "North",
"length": "8",
"color": "YELLOW",
"hexcolor": "#ffff33",
"bikeflag": "1",
"delay": "0",
"cancelflag": "0",
"dynamicflag": "0"
}}
]
}},
{{
"destination": "Pittsburg/Bay Point",
"abbreviation": "PITT",
"limited": "0",
"estimate": [
{{
"minutes": "11",
"platform": "1",
"direction": "North",
"length": "8",
"color": "YELLOW",
"hexcolor": "#ffff33",
"bikeflag": "1",
"delay": "403",
"cancelflag": "0",
"dynamicflag": "0"
}},
{{
"minutes": "26",
"platform": "1",
"direction": "North",
"length": "8",
"color": "YELLOW",
"hexcolor": "#ffff33",
"bikeflag": "1",
"delay": "91",
"cancelflag": "0",
"dynamicflag": "0"
}},
{{
"minutes": "45",
"platform": "1",
"direction": "North",
"length": "8",
"color": "YELLOW",
"hexcolor": "#ffff33",
"bikeflag": "1",
"delay": "0",
"cancelflag": "0",
"dynamicflag": "0"
}}
]
}},
{{
"destination": "SF Airport",
"abbreviation": "SFIA",
"limited": "0",
"estimate": [
{{
"minutes": "{}",
"platform": "2",
"direction": "South",
"length": "8",
"color": "YELLOW",
"hexcolor": "#ffff33",
"bikeflag": "1",
"delay": "0",
"cancelflag": "0",
"dynamicflag": "0"
}},
{{
"minutes": "{}",
"platform": "2",
"direction": "South",
"length": "8",
"color": "YELLOW",
"hexcolor": "#ffff33",
"bikeflag": "1",
"delay": "0",
"cancelflag": "0",
"dynamicflag": "0"
}},
{{
"minutes": "23",
"platform": "2",
"direction": "South",
"length": "8",
"color": "YELLOW",
"hexcolor": "#ffff33",
"bikeflag": "1",
"delay": "0",
"cancelflag": "0",
"dynamicflag": "0"
}}
]
}}
]
}}
],
"message": ""
}}
}}"##, first, second))
}


pub fn json_with_etd_2_trains(first: &str, second:&str) -> Result<String, ControllerError> {
    Ok(format!(r##"{{
"?xml": {{
"@version": "1.0",
"@encoding": "utf-8"
}},
"root": {{
"@id": "1",
"uri": {{
"#cdata-section": "http://api.bart.gov/api/etd.aspx?cmd=etd&orig=ROCK&json=y"
}},
"date": "05/09/2024",
"time": "04:24:03 PM PDT",
"station": [
{{
"name": "Rockridge",
"abbr": "ROCK",
"etd": [
{{
"destination": "Antioch",
"abbreviation": "ANTC",
"limited": "0",
"estimate": [
{{
"minutes": "21",
"platform": "1",
"direction": "North",
"length": "8",
"color": "YELLOW",
"hexcolor": "#ffff33",
"bikeflag": "1",
"delay": "337",
"cancelflag": "0",
"dynamicflag": "0"
}},
{{
"minutes": "35",
"platform": "1",
"direction": "North",
"length": "8",
"color": "YELLOW",
"hexcolor": "#ffff33",
"bikeflag": "1",
"delay": "0",
"cancelflag": "0",
"dynamicflag": "0"
}},
{{
"minutes": "55",
"platform": "1",
"direction": "North",
"length": "8",
"color": "YELLOW",
"hexcolor": "#ffff33",
"bikeflag": "1",
"delay": "0",
"cancelflag": "0",
"dynamicflag": "0"
}}
]
}},
{{
"destination": "Pittsburg/Bay Point",
"abbreviation": "PITT",
"limited": "0",
"estimate": [
{{
"minutes": "11",
"platform": "1",
"direction": "North",
"length": "8",
"color": "YELLOW",
"hexcolor": "#ffff33",
"bikeflag": "1",
"delay": "403",
"cancelflag": "0",
"dynamicflag": "0"
}},
{{
"minutes": "26",
"platform": "1",
"direction": "North",
"length": "8",
"color": "YELLOW",
"hexcolor": "#ffff33",
"bikeflag": "1",
"delay": "91",
"cancelflag": "0",
"dynamicflag": "0"
}},
{{
"minutes": "45",
"platform": "1",
"direction": "North",
"length": "8",
"color": "YELLOW",
"hexcolor": "#ffff33",
"bikeflag": "1",
"delay": "0",
"cancelflag": "0",
"dynamicflag": "0"
}}
]
}},
{{
"destination": "SF Airport",
"abbreviation": "SFIA",
"limited": "0",
"estimate": [
{{
"minutes": "{}",
"platform": "2",
"direction": "South",
"length": "8",
"color": "YELLOW",
"hexcolor": "#ffff33",
"bikeflag": "1",
"delay": "0",
"cancelflag": "0",
"dynamicflag": "0"
}},
{{
"minutes": "{}",
"platform": "2",
"direction": "South",
"length": "8",
"color": "YELLOW",
"hexcolor": "#ffff33",
"bikeflag": "1",
"delay": "0",
"cancelflag": "0",
"dynamicflag": "0"
}}
]
}}
]
}}
],
"message": ""
}}
}}"##, first, second))
}


pub fn json_with_etd_1_train(first: &str) -> Result<String, ControllerError> {
    Ok(format!(r##"{{
"?xml": {{
"@version": "1.0",
"@encoding": "utf-8"
}},
"root": {{
"@id": "1",
"uri": {{
"#cdata-section": "http://api.bart.gov/api/etd.aspx?cmd=etd&orig=ROCK&json=y"
}},
"date": "05/09/2024",
"time": "04:24:03 PM PDT",
"station": [
{{
"name": "Rockridge",
"abbr": "ROCK",
"etd": [
{{
"destination": "Antioch",
"abbreviation": "ANTC",
"limited": "0",
"estimate": [
{{
"minutes": "21",
"platform": "1",
"direction": "North",
"length": "8",
"color": "YELLOW",
"hexcolor": "#ffff33",
"bikeflag": "1",
"delay": "337",
"cancelflag": "0",
"dynamicflag": "0"
}},
{{
"minutes": "35",
"platform": "1",
"direction": "North",
"length": "8",
"color": "YELLOW",
"hexcolor": "#ffff33",
"bikeflag": "1",
"delay": "0",
"cancelflag": "0",
"dynamicflag": "0"
}},
{{
"minutes": "55",
"platform": "1",
"direction": "North",
"length": "8",
"color": "YELLOW",
"hexcolor": "#ffff33",
"bikeflag": "1",
"delay": "0",
"cancelflag": "0",
"dynamicflag": "0"
}}
]
}},
{{
"destination": "Pittsburg/Bay Point",
"abbreviation": "PITT",
"limited": "0",
"estimate": [
{{
"minutes": "11",
"platform": "1",
"direction": "North",
"length": "8",
"color": "YELLOW",
"hexcolor": "#ffff33",
"bikeflag": "1",
"delay": "403",
"cancelflag": "0",
"dynamicflag": "0"
}},
{{
"minutes": "26",
"platform": "1",
"direction": "North",
"length": "8",
"color": "YELLOW",
"hexcolor": "#ffff33",
"bikeflag": "1",
"delay": "91",
"cancelflag": "0",
"dynamicflag": "0"
}},
{{
"minutes": "45",
"platform": "1",
"direction": "North",
"length": "8",
"color": "YELLOW",
"hexcolor": "#ffff33",
"bikeflag": "1",
"delay": "0",
"cancelflag": "0",
"dynamicflag": "0"
}}
]
}},
{{
"destination": "SF Airport",
"abbreviation": "SFIA",
"limited": "0",
"estimate": [
{{
"minutes": "{}",
"platform": "2",
"direction": "South",
"length": "8",
"color": "YELLOW",
"hexcolor": "#ffff33",
"bikeflag": "1",
"delay": "0",
"cancelflag": "0",
"dynamicflag": "0"
}}
]
}}
]
}}
],
"message": ""
}}
}}"##, first))
}
