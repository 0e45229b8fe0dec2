use power_plan_manager::guid::{
    find_guid, generate_power_plan_guid, new_power_plan_guid, parse_guid,
};
use power_plan_manager::regexes::part_of_word;

#[test]
fn parses_guid_from_powercfg_output() {
    let text = "Power Scheme GUID: 381b4222-f694-41f0-9685-ff5bb260df2e  (Balanced) *";

    assert_eq!(
        parse_guid(text).as_deref(),
        Some("381b4222-f694-41f0-9685-ff5bb260df2e")
    );
}

#[test]
fn generates_valid_power_plan_guid() {
    let nanos = std::time::SystemTime::now()
        .duration_since(std::time::UNIX_EPOCH)
        .map(|duration| duration.as_nanos())
        .unwrap_or_default();
    let guid = generate_power_plan_guid(nanos, 4711);

    assert_eq!(parse_guid(&guid).as_deref(), Some(guid.as_str()));
}

#[test]
fn generated_guid_of_given_time_and_process() {
    assert_eq!(
        generate_power_plan_guid(0, 0),
        "00000000-0000-4000-8000-000000000000"
    );
    assert_eq!(
        generate_power_plan_guid(u128::MAX, 0),
        "ffffffff-ffff-4fff-bfff-ffffffffffff"
    );
    assert_eq!(
        generate_power_plan_guid(0x1234_5678_9abc_def0, 0x1234_abcd),
        "00000000-1234-4bcd-9234-56789abcdef0"
    );
}

#[test]
fn guid_is_found_in_either_case_and_given_in_lower_case() {
    assert_eq!(
        parse_guid("{381B4222-F694-41F0-9685-FF5BB260DF2E}").as_deref(),
        Some("381b4222-f694-41f0-9685-ff5bb260df2e")
    );
}

#[test]
fn the_first_of_two_guids_is_taken() {
    let text = "aaaaaaaa-bbbb-cccc-dddd-eeeeeeeeeeee 381b4222-f694-41f0-9685-ff5bb260df2e";
    assert_eq!(
        parse_guid(text).as_deref(),
        Some("aaaaaaaa-bbbb-cccc-dddd-eeeeeeeeeeee")
    );
}

#[test]
fn guid_inside_a_word_is_none() {
    assert_eq!(parse_guid("x381b4222-f694-41f0-9685-ff5bb260df2e"), None);
    assert_eq!(parse_guid("381b4222-f694-41f0-9685-ff5bb260df2e0"), None);
    assert_eq!(parse_guid("381b4222-f694-41f0-9685-ff5bb260df2"), None);
    assert_eq!(parse_guid("\u{5c71}381b4222-f694-41f0-9685-ff5bb260df2e"), None);
    assert_eq!(parse_guid(""), None);
}

#[test]
fn guid_ends_at_a_byte_offset() {
    let text = "\u{5c71}: 381b4222-f694-41f0-9685-ff5bb260df2e (Balanced)";
    let found = find_guid(text).unwrap();
    assert_eq!(found.guid, "381b4222-f694-41f0-9685-ff5bb260df2e");
    assert_eq!(found.end, 3 + 2 + 36);
    assert_eq!(&text[found.end..], " (Balanced)");
}

#[test]
fn new_guid_is_taken_from_what_windows_printed() {
    assert_eq!(
        new_power_plan_guid(" 381B4222-F694-41F0-9685-FF5BB260DF2E\r\n"),
        Ok("381b4222-f694-41f0-9685-ff5bb260df2e".to_owned())
    );
    assert_eq!(
        new_power_plan_guid("guid 381b4222-f694-41f0-9685-ff5bb260df2e"),
        Err(
            "Windows returned an invalid GUID: guid 381b4222-f694-41f0-9685-ff5bb260df2e"
                .to_owned()
        )
    );
    assert_eq!(
        new_power_plan_guid(""),
        Err("Windows returned an invalid GUID: ".to_owned())
    );
}

#[test]
fn generated_guids_say_that_they_are_random() {
    for nanos in [0, 1, 0xdead_beef, u128::MAX, 1 << 77, 3 << 61] {
        for process in [0, 7, u32::MAX] {
            let guid: Vec<char> = generate_power_plan_guid(nanos, process).chars().collect();
            assert_eq!(guid[14], '4');
            assert!(matches!(guid[19], '8' | '9' | 'a' | 'b'));
        }
    }
}

#[test]
fn words_hold_the_characters_that_guids_must_not_touch() {
    let guid = "381b4222-f694-41f0-9685-ff5bb260df2e";
    for code in (0..0x180_u32).chain([0x2010, 0x203f, 0x200d, 0x3000, 0x5c71, 0x1d7d8, 0x1f600]) {
        if let Some(c) = char::from_u32(code) {
            let word = part_of_word(c);
            if c.is_ascii() {
                assert_eq!(word, c.is_ascii_alphanumeric() || c == '_');
            }
            {
                assert_eq!(parse_guid(&format!("{c}{guid}")).is_none(), word, "{code:x}");
                assert_eq!(parse_guid(&format!("{guid}{c}")).is_none(), word, "{code:x}");
            }
        }
    }
    assert!(part_of_word('\u{5c71}'));
    assert!(!part_of_word('\u{3000}'));
}
