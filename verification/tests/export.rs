use standby::analytics::{tally, AnalyticsData};
use standby::events::ReminderRecord;
use standby::export::{
    analytics_csv, csv_file_name, csv_rows, decode_png_payload, export_analytics_csv,
    export_analytics_png, join_lines, png_bytes_from, png_file_name, ExportError,
    MIN_EXPORT_RECORDS,
};
use standby::state::AppState;
use standby::text::{decimal_string, starts_with, str_eq};

const NOW: i64 = 1_700_000_000;

fn sample(sedentary: usize, standups: usize) -> AnalyticsData {
    let reminders: Vec<ReminderRecord> =
        (0..sedentary).map(|i| ReminderRecord { ts: i as i64, duration_secs: 1000 }).collect();
    let stamps: Vec<i64> = (0..standups).map(|i| i as i64).collect();
    let reminder_hours: Vec<u32> = (0..sedentary).map(|i| 9 + i as u32).collect();
    let standup_hours: Vec<u32> = (0..standups).map(|_| 14).collect();
    tally(&reminders, &stamps, &reminder_hours, &standup_hours)
}

#[test]
fn export_with_three_records_is_refused() {
    let data = sample(2, 1);
    assert_eq!(data.record_count, 3);
    let result = analytics_csv(&data);
    assert!(matches!(result, Err(ExportError::NotEnoughData)));
    assert_eq!(result.unwrap_err().message(), "NOT_ENOUGH_DATA:5");
}

#[test]
fn export_with_four_records_is_refused() {
    assert!(matches!(analytics_csv(&sample(0, 4)), Err(ExportError::NotEnoughData)));
    assert!(matches!(analytics_csv(&sample(0, 0)), Err(ExportError::NotEnoughData)));
}

#[test]
fn export_with_five_records_has_twenty_seven_lines() {
    assert_eq!(MIN_EXPORT_RECORDS, 5);
    let data = sample(2, 3);
    assert_eq!(data.record_count, 5);
    let text = analytics_csv(&data).unwrap();
    let lines: Vec<&str> = text.split('\n').collect();
    assert_eq!(lines.len(), 27);
    assert_eq!(lines[0], "hour,sedentary_sessions,standup_sessions");
    assert_eq!(lines[1], "00:00,0,0");
    assert_eq!(lines[10], "09:00,1,0");
    assert_eq!(lines[11], "10:00,1,0");
    assert_eq!(lines[15], "14:00,0,3");
    assert_eq!(lines[24], "23:00,0,0");
    assert_eq!(lines[25], "totals,2,3");
    assert_eq!(lines[26], "total_sitting_minutes,33,");
    assert!(!text.ends_with('\n'));
}

#[test]
fn csv_rows_are_the_lines() {
    let data = sample(3, 12);
    let rows = csv_rows(&data);
    assert_eq!(rows.len(), 27);
    for hour in 0..24 {
        let expected = format!("{:02}:00,{},{}", hour, data.hourly_sedentary[hour], data.hourly_standup[hour]);
        assert_eq!(rows[hour + 1], expected);
    }
    assert_eq!(rows[15], "14:00,0,12");
    assert_eq!(rows[25], "totals,3,12");
    assert_eq!(rows[26], "total_sitting_minutes,50,");
    assert_eq!(join_lines(&rows), rows.join("\n"));
}

#[test]
fn lines_are_joined_by_line_feeds() {
    assert_eq!(join_lines(&Vec::new()), "");
    assert_eq!(join_lines(&vec!["a".to_string()]), "a");
    assert_eq!(join_lines(&vec!["a".to_string(), "".to_string(), "b".to_string()]), "a\n\nb");
}

#[test]
fn sitting_minutes_drop_the_rest() {
    let reminders = vec![ReminderRecord { ts: 1, duration_secs: 119 }; 5];
    let data = tally(&reminders, &Vec::new(), &vec![7; 5], &Vec::new());
    let text = analytics_csv(&data).unwrap();
    assert!(text.ends_with("\ntotals,5,0\ntotal_sitting_minutes,9,"));
    assert!(text.contains("\n07:00,5,0\n"));
}

#[test]
fn numbers_are_written_in_decimal() {
    assert_eq!(decimal_string(0), "0");
    assert_eq!(decimal_string(7), "7");
    assert_eq!(decimal_string(10), "10");
    assert_eq!(decimal_string(1905), "1905");
    assert_eq!(decimal_string(u64::MAX), "18446744073709551615");
}

#[test]
fn strings_compare_by_their_characters() {
    assert!(str_eq("", ""));
    assert!(str_eq("日本", "日本"));
    assert!(!str_eq("日本", "日本語"));
    assert!(!str_eq("ab", "ac"));
    assert!(starts_with("zh-CN", "zh"));
    assert!(starts_with("zh", "zh"));
    assert!(starts_with("z", ""));
    assert!(!starts_with("z", "zh"));
    assert!(!starts_with("en-zh", "zh"));
}

#[test]
fn every_error_has_its_text() {
    assert_eq!(ExportError::NotEnoughData.message(), "NOT_ENOUGH_DATA:5");
    assert_eq!(ExportError::InvalidPayload.message(), "invalid png payload");
    assert_eq!(ExportError::DecodeFailed("bad byte".to_string()).message(), "decode failed: bad byte");
    assert_eq!(ExportError::NoExportDir.message(), "cannot resolve export directory");
    assert_eq!(ExportError::WriteFailed("disk full".to_string()).message(), "write failed: disk full");
}

#[test]
fn image_without_the_marker_is_refused() {
    assert!(matches!(decode_png_payload("aGVsbG8="), Err(ExportError::InvalidPayload)));
    assert!(matches!(decode_png_payload(""), Err(ExportError::InvalidPayload)));
    assert!(matches!(decode_png_payload("data:image/jpeg;base64,aGVsbG8="), Err(ExportError::InvalidPayload)));
    assert!(matches!(decode_png_payload("data:image/png;base64"), Err(ExportError::InvalidPayload)));
    assert!(matches!(decode_png_payload(" data:image/png;base64,aGVsbG8="), Err(ExportError::InvalidPayload)));
}

#[test]
fn image_payload_is_decoded() {
    assert_eq!(decode_png_payload("data:image/png;base64,aGVsbG8=").unwrap(), b"hello".to_vec());
    assert_eq!(decode_png_payload("data:image/png;base64,").unwrap(), Vec::<u8>::new());
    assert_eq!(
        decode_png_payload("data:image/png;base64,iVBORw0KGgo=").unwrap(),
        vec![0x89, b'P', b'N', b'G', 0x0d, 0x0a, 0x1a, 0x0a]
    );
}

#[test]
fn image_that_is_not_base64_is_refused_with_the_reason() {
    let result = decode_png_payload("data:image/png;base64,!!!!");
    match result {
        Err(ExportError::DecodeFailed(why)) => {
            assert!(!why.is_empty());
            assert_ne!(why, "!!!!");
            assert!(ExportError::DecodeFailed(why.clone()).message().starts_with("decode failed: "));
        }
        _ => panic!("expected a decode failure"),
    }
    assert!(matches!(decode_png_payload("data:image/png;base64,aGVsbG8"), Err(ExportError::DecodeFailed(_))));
}

#[test]
fn decoder_outcome_is_passed_on() {
    assert_eq!(png_bytes_from(Ok(vec![1, 2, 3])).unwrap(), vec![1, 2, 3]);
    match png_bytes_from(Err("why".to_string())) {
        Err(ExportError::DecodeFailed(why)) => assert_eq!(why, "why"),
        _ => panic!("expected a decode failure"),
    }
}

#[test]
fn files_are_named_by_period_and_time() {
    assert_eq!(csv_file_name("weekly", "20240515_101500"), "standby_weekly_analytics_20240515_101500.csv");
    assert_eq!(csv_file_name("bogus", "20240515_101500"), "standby_daily_analytics_20240515_101500.csv");
    assert_eq!(png_file_name("20240515_101500"), "standby_24h_heatmap_20240515_101500.png");
}

#[test]
fn csv_export_of_a_short_log_is_refused() {
    let mut state = AppState::new();
    state.standup_events = vec![NOW, NOW, NOW];
    let result = export_analytics_csv(&state, Some("daily"), NOW, "20231114_221320");
    assert!(matches!(result, Err(ExportError::NotEnoughData)));
}

#[test]
fn csv_export_is_prepared_from_the_log() {
    let mut state = AppState::new();
    state.standup_events = vec![NOW, NOW, NOW, 5];
    state.reminder_events = vec![ReminderRecord { ts: NOW, duration_secs: 300 }; 2];
    let export = export_analytics_csv(&state, None, NOW, "20231114_221320").unwrap();
    assert_eq!(export.file_name, "standby_daily_analytics_20231114_221320.csv");
    let lines: Vec<&str> = export.contents.split('\n').collect();
    assert_eq!(lines.len(), 27);
    assert_eq!(lines[25], "totals,2,3");
    assert_eq!(lines[26], "total_sitting_minutes,10,");
    assert_eq!(state.standup_events, vec![NOW, NOW, NOW, 5]);
    let export = export_analytics_csv(&state, Some("monthly"), NOW, "x").unwrap();
    assert_eq!(export.file_name, "standby_monthly_analytics_x.csv");
}

#[test]
fn png_export_is_prepared_from_the_data_uri() {
    let export = export_analytics_png("data:image/png;base64,aGVsbG8=", "20231114_221320").unwrap();
    assert_eq!(export.file_name, "standby_24h_heatmap_20231114_221320.png");
    assert_eq!(export.bytes, b"hello".to_vec());
    assert!(matches!(export_analytics_png("hello", "s"), Err(ExportError::InvalidPayload)));
    assert!(matches!(export_analytics_png("data:image/png;base64,@", "s"), Err(ExportError::DecodeFailed(_))));
}
