use qcli::prompt::{coalesce, prompt_for, update_at, PromptUpdate, TICK_MILLIS, TIME_FORMAT};

fn update(text: &str) -> PromptUpdate {
    PromptUpdate { text: text.to_string() }
}

#[test]
fn the_prompt_shows_the_time() {
    assert_eq!(
        prompt_for("Wed Oct 28 2026 01:06:00"),
        update("cli <Wed Oct 28 2026 01:06:00> ")
    );
    assert_eq!(prompt_for(""), update("cli <> "));
}

#[test]
fn the_tick_is_a_second() {
    assert_eq!(TICK_MILLIS, 1000);
}

#[test]
fn the_update_for_a_reading_shows_its_time() {
    assert_eq!(update_at(0, 0), Some(update("cli <Thu Jan  1 1970 00:00:00> ")));
    assert_eq!(update_at(1_000_000_000, 0), Some(update("cli <Sun Sep  9 2001 01:46:40> ")));
    assert_eq!(update_at(1_700_000_000, 0), Some(update("cli <Tue Nov 14 2023 22:13:20> ")));
    assert_eq!(update_at(-1, 0), Some(update("cli <Wed Dec 31 1969 23:59:59> ")));
}

#[test]
fn the_offset_moves_the_time_shown() {
    assert_eq!(update_at(1_000_000_000, 3600), Some(update("cli <Sun Sep  9 2001 02:46:40> ")));
    assert_eq!(update_at(1_000_000_000, -18_000), Some(update("cli <Sat Sep  8 2001 20:46:40> ")));
    assert_eq!(update_at(0, 86_399), Some(update("cli <Thu Jan  1 1970 23:59:59> ")));
    assert_eq!(update_at(0, -86_399), Some(update("cli <Wed Dec 31 1969 00:00:01> ")));
}

#[test]
fn an_offset_of_a_day_has_no_update() {
    assert_eq!(update_at(0, 86_400), None);
    assert_eq!(update_at(0, -86_400), None);
    assert_eq!(update_at(1_000_000_000, i32::MAX), None);
    assert_eq!(update_at(1_000_000_000, i32::MIN), None);
}

#[test]
fn a_moment_out_of_range_has_no_update() {
    assert_eq!(update_at(i64::MAX, 0), None);
    assert_eq!(update_at(i64::MIN, 0), None);
}

#[test]
fn every_time_text_has_the_same_shape() {
    let readings: [(i64, i32); 6] = [
        (0, 0),
        (1_000_000_000, 3600),
        (-62_167_219_200, 0),
        (253_402_300_800, 0),
        (-1_000_000_000_000, -86_399),
        (8_000_000_000_000, 86_399),
    ];
    for (secs, offset) in readings.iter() {
        let u = update_at(*secs, *offset).unwrap();
        assert!(u.text.starts_with("cli <"));
        assert!(u.text.ends_with("> "));
        let time = &u.text["cli <".len()..u.text.len() - "> ".len()];
        assert_ne!(time, TIME_FORMAT);
        let t: Vec<char> = time.chars().collect();
        assert!(t.len() >= 24);
        assert_eq!(t[3], ' ');
        assert_eq!(t[7], ' ');
        assert_eq!(t[10], ' ');
        assert_eq!(t[t.len() - 9], ' ');
        assert_eq!(t[t.len() - 6], ':');
        assert_eq!(t[t.len() - 3], ':');
    }
}

#[test]
fn the_first_and_last_moments_have_updates() {
    let first: i64 = -8_334_601_228_800;
    let last: i64 = 8_210_266_876_799;
    assert_eq!(update_at(first, 0), Some(update("cli <Thu Jan  1 -262143 00:00:00> ")));
    assert_eq!(update_at(last, 0), Some(update("cli <Mon Dec 31 +262142 23:59:59> ")));
    assert_eq!(update_at(first - 1, 0), None);
    assert_eq!(update_at(last + 1, 0), None);
    assert_eq!(update_at(first, -1), Some(update("cli <Wed Dec 31 -262144 23:59:59> ")));
    assert_eq!(update_at(last, 1), Some(update("cli <Tue Jan  1 +262143 00:00:00> ")));
}

#[test]
fn years_before_and_after_four_digits() {
    assert_eq!(update_at(-62_167_219_200, 0), Some(update("cli <Sat Jan  1 0000 00:00:00> ")));
    assert_eq!(update_at(253_402_300_800, 0), Some(update("cli <Sat Jan  1 +10000 00:00:00> ")));
}

#[test]
fn coalescing_keeps_the_newest() {
    assert_eq!(coalesce(vec![]), None);
    assert_eq!(coalesce(vec![update("a")]), Some(update("a")));
    assert_eq!(coalesce(vec![update("a"), update("b"), update("c")]), Some(update("c")));
}

#[test]
fn coalescing_twice_is_coalescing_once() {
    let batch = vec![update("a"), update("b"), update("c")];
    let once = coalesce(batch.clone());
    let twice = coalesce(vec![once.clone().unwrap()]);
    assert_eq!(once, twice);
}
