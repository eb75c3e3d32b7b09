use std::time::Duration;
use trekr::branding::{brand_build_date, brand_fallback_badge, startup_logo_animation_duration, startup_logo_reveal_step};

#[test]
fn startup_animation_lasts_the_sum_of_its_phases() {
    assert_eq!(startup_logo_animation_duration(), Duration::from_millis(2940));
}

#[test]
fn reveal_starts_at_the_centre_letter() {
    assert_eq!(startup_logo_reveal_step(2), 0);
    assert_eq!(startup_logo_reveal_step(1), 1);
    assert_eq!(startup_logo_reveal_step(3), 1);
    assert_eq!(startup_logo_reveal_step(0), 2);
    assert_eq!(startup_logo_reveal_step(4), 2);
}

#[test]
fn badge_shows_the_date_cut_to_ten_characters_and_the_hash() {
    assert_eq!(brand_build_date(Some("2024-05-17T10:00:00Z")), Some("2024-05-17"));
    assert_eq!(brand_fallback_badge(Some("2024-05-17T10:00:00Z"), "abc123"), "2024-05-17 abc123");
    assert_eq!(brand_fallback_badge(None, "dev"), "dev");
}
