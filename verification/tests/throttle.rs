use vault42_authority::error::Error;
use vault42_authority::store::attempts::next_window;
use vault42_authority::throttle::{check_spent, LIMIT, WINDOW_SECS};

#[test]
fn five_attempts_an_hour_pass_and_the_sixth_is_refused() {
    let mut stored = None;
    for k in 0..5i64 {
        let counted = next_window(stored, 1_000 + k, WINDOW_SECS);
        assert_eq!(counted, (k + 1, 1_000));
        check_spent(counted.0).expect("within the limit");
        stored = Some(counted);
    }
    let sixth = next_window(stored, 1_500, WINDOW_SECS);
    assert_eq!(sixth.0, LIMIT + 1);
    assert!(matches!(check_spent(sixth.0), Err(Error::TooManyRequests)));
}

#[test]
fn the_window_decays_on_its_own() {
    let later = next_window(Some((9, 1_000)), 1_000 + WINDOW_SECS, WINDOW_SECS);
    assert_eq!(later, (1, 1_000 + WINDOW_SECS));
    assert_eq!(next_window(None, 7, WINDOW_SECS), (1, 7));
    assert_eq!(next_window(Some((2, 1_000)), 1_000 + WINDOW_SECS - 1, WINDOW_SECS), (3, 1_000));
}

#[test]
fn the_limit_reads_the_count() {
    assert_eq!(LIMIT, 5);
    assert_eq!(WINDOW_SECS, 3600);
    check_spent(5).expect("the fifth passes");
    assert!(check_spent(6).is_err());
}
