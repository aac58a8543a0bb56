use genztools::GenZNestedOption;
use genztools::GenZOption;
use genztools::GenZResult;

#[test]
fn genzresult_works() {
    let x: Result<i32, &str> = Ok(-3);
    assert!(x.no_cap());
    assert!(!x.cap());
    assert_eq!(x.on_god(), -3);
    assert_eq!(x.bet(), Some(-3));
}

#[test]
fn genzoption_works() {
    let x: Option<i32> = Some(-3);
    assert!(x.no_cap());
    assert!(!x.cap());
    assert_eq!(x.on_god(), -3);
    assert_eq!(x.bet_or("Help"), Ok(-3));
}

#[test]
fn presence_negates_absence() {
    let present: Option<u32> = Some(7);
    let absent: Option<u32> = None;
    assert_eq!(present.no_cap(), !present.cap());
    assert_eq!(absent.no_cap(), !absent.cap());
}

#[test]
fn success_negates_failure() {
    let success: Result<u32, String> = Ok(7);
    let failure: Result<u32, String> = Err(String::from("nope"));
    assert_eq!(success.no_cap(), !success.cap());
    assert_eq!(failure.no_cap(), !failure.cap());
}

#[test]
fn present_option_extracts_and_transforms() {
    let x: Option<i64> = Some(11);
    assert_eq!(x.on_god(), 11);
    assert_eq!(x.on_god_or(99), 11);
    assert_eq!(x.glow_up(|v| v + 1), Some(12));
}

#[test]
fn absent_option_falls_back() {
    let x: Option<i64> = None;
    assert_eq!(x.on_god_or(99), 99);
    assert_eq!(x.glow_up(|v| v + 1), None);
}

#[test]
fn success_result_converts_and_keeps_error_shape() {
    let x: Result<i64, String> = Ok(11);
    assert_eq!(x.clone().bet(), Some(11));
    assert_eq!(x.vibe_check(|e: String| e.len()), Ok(11));
}

#[test]
fn failure_result_passes_through() {
    let x: Result<i64, String> = Err(String::from("broken"));
    assert_eq!(x.clone().bet(), None);
    assert_eq!(x.clone().glow_up(|v| v + 1), Err(String::from("broken")));
    assert_eq!(x.on_god_or(99), 99);
}

#[test]
fn flattening_collapses_one_level() {
    let doubly_present: Option<Option<u8>> = Some(Some(5));
    let present_empty: Option<Option<u8>> = Some(None);
    let absent: Option<Option<u8>> = None;
    assert_eq!(doubly_present.on_a_stack(), Some(5));
    assert_eq!(present_empty.on_a_stack(), None);
    assert_eq!(absent.on_a_stack(), None);
}

#[test]
fn option_predicate_checks() {
    let x: Option<i32> = Some(4);
    let y: Option<i32> = None;
    assert!(x.no_cap_and(|v| v % 2 == 0));
    assert!(!x.no_cap_and(|v| v < 0));
    assert!(!y.no_cap_and(|v| v % 2 == 0));
}

#[test]
fn result_predicate_checks() {
    let x: Result<i32, &str> = Ok(4);
    let y: Result<i32, &str> = Err("oops");
    assert!(x.no_cap_and(|v| v % 2 == 0));
    assert!(!x.cap_and(|e| e.is_empty()));
    assert!(!y.no_cap_and(|v| v % 2 == 0));
    assert!(y.cap_and(|e| e == "oops"));
}

#[test]
fn option_transform_with_defaults() {
    let x: Option<&str> = Some("genz");
    let y: Option<&str> = None;
    assert_eq!(x.glow_up_or(0, |s| s.len()), 4);
    assert_eq!(y.glow_up_or(7, |s| s.len()), 7);
    assert_eq!(x.glow_up_or_else(|| 0, |s| s.len()), 4);
    assert_eq!(y.glow_up_or_else(|| 7, |s| s.len()), 7);
}

#[test]
fn result_transform_with_defaults() {
    let x: Result<&str, u8> = Ok("genz");
    let y: Result<&str, u8> = Err(3);
    assert_eq!(x.glow_up_or(0, |s| s.len()), 4);
    assert_eq!(y.glow_up_or(7, |s| s.len()), 7);
    assert_eq!(x.glow_up_or_else(|e| e as usize, |s| s.len()), 4);
    assert_eq!(y.glow_up_or_else(|e| e as usize, |s| s.len()), 3);
}

#[test]
fn option_to_result_conversions() {
    let x: Option<i32> = Some(2);
    let y: Option<i32> = None;
    assert_eq!(x.bet_or("Help"), Ok(2));
    assert_eq!(y.bet_or("Help"), Err("Help"));
    assert_eq!(x.bet_or_else(|| String::from("late")), Ok(2));
    assert_eq!(y.bet_or_else(|| String::from("late")), Err(String::from("late")));
}

#[test]
fn option_expect_and_lazy_fallbacks() {
    let x: Option<i32> = Some(8);
    let y: Option<i32> = None;
    assert_eq!(x.based("should be here"), 8);
    assert_eq!(x.on_god_or_else(|| 1), 8);
    assert_eq!(y.on_god_or_else(|| 1), 1);
    assert_eq!(x.on_god_or_basic(), 8);
    assert_eq!(y.on_god_or_basic(), 0);
}

#[test]
fn result_expect_and_lazy_fallbacks() {
    let x: Result<i32, &str> = Ok(8);
    let y: Result<i32, &str> = Err("down bad");
    assert_eq!(x.based("should be here"), 8);
    assert_eq!(x.on_god_or_else(|_e| 1), 8);
    assert_eq!(y.on_god_or_else(|e| e.len() as i32), 8);
    assert_eq!(x.on_god_or_basic(), 8);
    assert_eq!(y.on_god_or_basic(), 0);
}

#[test]
fn result_error_extraction() {
    let y: Result<i32, &str> = Err("down bad");
    assert_eq!(y.out_of_pocket("expected a failure"), "down bad");
    assert_eq!(y.big_yikes(), "down bad");
}
