use branch_review::time::CommitTime;

#[test]
fn epoch_is_printed_as_midnight() {
    let time = CommitTime::from_git(0, 0).unwrap();
    assert_eq!(time.seconds(), 0);
    assert_eq!(time.text(), "1970-01-01 00:00:00");
}

#[test]
fn time_is_printed_as_date_and_clock() {
    let time = CommitTime::from_git(1_431_648_000, 0).unwrap();
    assert_eq!(time.seconds(), 1_431_648_000);
    assert_eq!(time.text(), "2015-05-15 00:00:00");
    let time = CommitTime::from_git(1_000_000_000, 0).unwrap();
    assert_eq!(time.text(), "2001-09-09 01:46:40");
}

#[test]
fn offset_moves_the_clock_by_minutes() {
    let east = CommitTime::from_git(1_431_648_000, 90).unwrap();
    assert_eq!(east.seconds(), 1_431_648_000 + 5_400);
    assert_eq!(east.text(), "2015-05-15 01:30:00");
    let west = CommitTime::from_git(1_431_648_000, -480).unwrap();
    assert_eq!(west.seconds(), 1_431_648_000 - 28_800);
    assert_eq!(west.text(), "2015-05-14 16:00:00");
}

#[test]
fn time_before_the_epoch_is_held() {
    let time = CommitTime::from_git(-1, 0).unwrap();
    assert_eq!(time.seconds(), -1);
    assert_eq!(time.text(), "1969-12-31 23:59:59");
}

#[test]
fn time_beyond_the_calendar_is_not_held() {
    assert_eq!(CommitTime::from_git(i64::MAX, 0), None);
    assert_eq!(CommitTime::from_git(i64::MIN, 0), None);
    assert_eq!(CommitTime::from_git(9_000_000_000_000, 0), None);
}

#[test]
fn time_that_overflows_with_its_offset_is_not_held() {
    assert_eq!(CommitTime::from_git(i64::MAX, 1), None);
    assert_eq!(CommitTime::from_git(i64::MIN, -1), None);
}

#[test]
fn cloned_time_is_equal() {
    let time = CommitTime::from_git(86_400, 60).unwrap();
    let copy = time.clone();
    assert_eq!(copy, time);
    assert_eq!(copy.seconds(), 90_000);
    assert_eq!(copy.text(), "1970-01-02 01:00:00");
}
