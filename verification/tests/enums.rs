use rustodoist_rest2::color::Color;
use rustodoist_rest2::projects::ViewStyle;
use rustodoist_rest2::tasks::DurationUnit;
use rustodoist_rest2::comments::UploadState;

fn all_colors() -> Vec<Color> {
    vec![
        Color::BerryRed,
        Color::Red,
        Color::Orange,
        Color::Yellow,
        Color::OliveGreen,
        Color::LimeGreen,
        Color::Green,
        Color::MintGreen,
        Color::Teal,
        Color::SkyBlue,
        Color::LightBlue,
        Color::Blue,
        Color::Grape,
        Color::Violet,
        Color::Lavender,
        Color::Magenta,
        Color::Salmon,
        Color::Charcoal,
        Color::Grey,
        Color::Taupe,
    ]
}

#[test]
fn color_round_trip_all_variants() {
    for c in all_colors() {
        let s = c.to_str();
        assert_eq!(Color::from_str(s), Some(c));
    }
}

#[test]
fn color_strings_are_canonical() {
    assert_eq!(Color::BerryRed.to_str(), "berry_red");
    assert_eq!(Color::OliveGreen.to_str(), "olive_green");
    assert_eq!(Color::Taupe.to_str(), "taupe");
}

#[test]
fn color_from_str_rejects_unknown() {
    assert_eq!(Color::from_str(""), None);
    assert_eq!(Color::from_str("BERRY_RED"), None);
    assert_eq!(Color::from_str("berry red"), None);
    assert_eq!(Color::from_str("fuchsia"), None);
}

#[test]
fn color_from_id_defined_exactly_on_30_to_49() {
    for id in 0u8..=255u8 {
        let r = Color::from_id(id);
        if (30..=49).contains(&id) {
            assert!(r.is_some(), "id {} should map to a color", id);
        } else {
            assert!(r.is_none(), "id {} should not map to a color", id);
        }
    }
}

#[test]
fn color_from_id_is_bijective_on_range() {
    let mut seen: Vec<Color> = Vec::new();
    for id in 30u8..=49u8 {
        let c = Color::from_id(id).unwrap();
        assert!(!seen.contains(&c), "id {} repeats a color", id);
        seen.push(c);
    }
    assert_eq!(seen.len(), 20);
}

#[test]
fn color_from_id_matches_documented_endpoints() {
    assert_eq!(Color::from_id(30), Some(Color::BerryRed));
    assert_eq!(Color::from_id(49), Some(Color::Taupe));
    assert_eq!(Color::from_id(29), None);
    assert_eq!(Color::from_id(50), None);
}

#[test]
fn view_style_round_trip() {
    for v in [ViewStyle::List, ViewStyle::Board] {
        assert_eq!(ViewStyle::from_str(v.to_str()), Some(v));
    }
    assert_eq!(ViewStyle::List.to_str(), "list");
    assert_eq!(ViewStyle::Board.to_str(), "board");
}

#[test]
fn view_style_rejects_unknown() {
    assert_eq!(ViewStyle::from_str("grid"), None);
    assert_eq!(ViewStyle::from_str(""), None);
    assert_eq!(ViewStyle::from_str("List"), None);
}

#[test]
fn duration_unit_round_trip() {
    for u in [DurationUnit::Days, DurationUnit::Minutes] {
        assert_eq!(DurationUnit::from_str(u.to_str()), Some(u));
    }
    assert_eq!(DurationUnit::Days.to_str(), "days");
    assert_eq!(DurationUnit::Minutes.to_str(), "minutes");
}

#[test]
fn duration_unit_rejects_unknown() {
    assert_eq!(DurationUnit::from_str("hours"), None);
    assert_eq!(DurationUnit::from_str("day"), None);
}

#[test]
fn upload_state_round_trip() {
    for u in [UploadState::Pending, UploadState::Completed] {
        assert_eq!(UploadState::from_str(u.to_str()), Some(u));
    }
    assert_eq!(UploadState::Pending.to_str(), "pending");
    assert_eq!(UploadState::Completed.to_str(), "completed");
}

#[test]
fn upload_state_rejects_unknown() {
    assert_eq!(UploadState::from_str("done"), None);
    assert_eq!(UploadState::from_str(""), None);
}
