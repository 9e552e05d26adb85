use css_server::backfill::{backfill_report, mismatch_message, SealedRow};
use css_server::cli::{flag_value, has_flag, option_value};

fn args(xs: &[&str]) -> Vec<String> {
    xs.iter().map(|x| x.to_string()).collect()
}

#[test]
fn a_flag_takes_the_next_argument() {
    let a = args(&["toolpass_load", "--sqlite", "tp.db", "--database-url", "postgres://x"]);
    assert_eq!(flag_value(&a, "--sqlite").as_deref(), Some("tp.db"));
    assert_eq!(flag_value(&a, "--database-url").as_deref(), Some("postgres://x"));
    assert_eq!(flag_value(&a, "--missing"), None);
    assert_eq!(flag_value(&args(&["x", "--sqlite"]), "--sqlite"), None);
    assert_eq!(flag_value(&args(&["--sqlite", "a", "--sqlite", "b"]), "--sqlite").as_deref(), Some("a"));
}

#[test]
fn an_option_is_spaced_or_joined() {
    let a = args(&["--database-url=postgres://db", "--index-key", "abc", "--verify"]);
    assert_eq!(option_value(&a, "--database-url").as_deref(), Some("postgres://db"));
    assert_eq!(option_value(&a, "--index-key").as_deref(), Some("abc"));
    assert_eq!(option_value(&a, "--encryption-key"), None);
    assert_eq!(option_value(&args(&["--index-key"]), "--index-key"), None);
    assert_eq!(option_value(&args(&["--index-key=", "x"]), "--index-key").as_deref(), Some(""));
    assert!(has_flag(&a, "--verify"));
    assert!(!has_flag(&a, "--dry-run"));
}

#[test]
fn the_backfill_check_counts_and_names_bad_rows() {
    let rows = [
        SealedRow { id: 1, sealed: true, intact: true },
        SealedRow { id: 2, sealed: false, intact: false },
        SealedRow { id: 3, sealed: true, intact: false },
        SealedRow { id: 4, sealed: true, intact: false },
    ];
    let r = backfill_report(&rows);
    assert_eq!(r.checked, 3);
    assert_eq!(r.unsealed, 1);
    assert_eq!(r.bad, vec![3, 4]);
    assert_eq!(
        mismatch_message(&r.bad),
        "2 card(s) do not match their plaintext -- wrong key, or written by a different deployment. Ids: \
         [00000000-0000-0000-0000-000000000003, 00000000-0000-0000-0000-000000000004]"
    );
    assert!(backfill_report(&[]).bad.is_empty());
}
