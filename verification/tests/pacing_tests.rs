use restream::interface::TranscriptRecord;
use restream::pacing::{pacing_waits, wait_seconds};

fn records(codes: &[&str]) -> Vec<TranscriptRecord> {
    codes
        .iter()
        .map(|code| TranscriptRecord {
            time_code: code.to_string(),
            speaker: "s".to_string(),
            sentence: "t".to_string(),
        })
        .collect()
}

#[test]
fn waits_between_offsets_clamp_at_zero() {
    assert_eq!(pacing_waits(&records(&["0", "5", "5", "12"])), vec![0, 5, 0, 7]);
}

#[test]
fn waits_follow_mixed_formats() {
    assert_eq!(
        pacing_waits(&records(&["00:00:03", "00:10", "75", "01:00:00"])),
        vec![3, 7, 65, 3525]
    );
}

#[test]
fn backward_codes_wait_nothing_and_move_the_reference() {
    assert_eq!(pacing_waits(&records(&["10", "4", "6", "6", "20"])), vec![10, 0, 2, 0, 14]);
}

#[test]
fn damaged_code_is_delivered_at_once() {
    assert_eq!(pacing_waits(&records(&["5", "oops", "7"])), vec![5, 0, 7]);
}

#[test]
fn negative_codes_never_give_negative_waits() {
    assert_eq!(pacing_waits(&records(&["-5", "-2", "3"])), vec![0, 3, 5]);
}

#[test]
fn no_records_no_waits() {
    assert_eq!(pacing_waits(&records(&[])), Vec::<u64>::new());
}

#[test]
fn wait_seconds_is_the_distance_or_nothing() {
    assert_eq!(wait_seconds(0, 0), 0);
    assert_eq!(wait_seconds(0, 7), 7);
    assert_eq!(wait_seconds(7, 0), 0);
    assert_eq!(wait_seconds(-3, 4), 7);
    assert_eq!(wait_seconds(i64::MIN, i64::MAX), u64::MAX);
    assert_eq!(wait_seconds(i64::MAX, i64::MIN), 0);
}

#[test]
fn waits_of_ascending_codes_add_up_to_the_offsets() {
    let codes = ["0", "3", "3", "10", "01:00", "01:00:00"];
    let offsets = [0u64, 3, 3, 10, 60, 3600];
    let waits = pacing_waits(&records(&codes));
    let mut elapsed = 0u64;
    for (wait, offset) in waits.iter().zip(offsets.iter()) {
        elapsed += wait;
        assert_eq!(elapsed, *offset);
    }
}
