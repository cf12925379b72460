use diogen::direction::Direction;

#[test]
fn direction_keywords() {
    assert_eq!(Direction::Bottom.to_text(), "bottom");
    assert_eq!(Direction::BottomLeft.to_text(), "bottom-left");
    assert_eq!(Direction::BottomRight.to_text(), "bottom-right");
    assert_eq!(Direction::Top.to_text(), "top");
    assert_eq!(Direction::TopLeft.to_text(), "top-left");
    assert_eq!(Direction::TopRight.to_text(), "top-right");
    assert_eq!(Direction::Left.to_text(), "left");
    assert_eq!(Direction::Right.to_text(), "right");
    assert_eq!(Direction::TopRight.as_str(), "top-right");
}

#[test]
fn direction_default_is_bottom() {
    assert_eq!(Direction::default(), Direction::Bottom);
}

#[test]
fn direction_all_has_every_direction_once() {
    let all = Direction::all();
    assert_eq!(all.len(), Direction::COUNT);
    assert_eq!(Direction::COUNT, 8);
    assert_eq!(all[0], Direction::Bottom);
    assert_eq!(all[7], Direction::Right);
    for (i, a) in all.iter().enumerate() {
        for (j, b) in all.iter().enumerate() {
            assert_eq!(i == j, a == b);
        }
    }
}

#[test]
fn direction_keyword_round_trip() {
    for d in Direction::all() {
        assert_eq!(Direction::parse(d.as_str()), Some(d));
        assert_eq!(Direction::parse(&d.to_text()), Some(d));
    }
}

#[test]
fn direction_parse_is_exact() {
    assert_eq!(Direction::parse("top-left"), Some(Direction::TopLeft));
    assert_eq!(Direction::parse("Top"), None);
    assert_eq!(Direction::parse("TOP"), None);
    assert_eq!(Direction::parse("top "), None);
    assert_eq!(Direction::parse(""), None);
    assert_eq!(Direction::parse("top_left"), None);
    assert_eq!(Direction::parse("TopLeft"), None);
    assert_eq!(Direction::parse("to top"), None);
}

#[test]
fn direction_gradient_sides() {
    assert_eq!(Direction::Bottom.gradient_side_text(), "to bottom");
    assert_eq!(Direction::BottomLeft.gradient_side_text(), "to left bottom");
    assert_eq!(Direction::BottomRight.gradient_side_text(), "to bottom right");
    assert_eq!(Direction::Left.gradient_side_text(), "to left");
    assert_eq!(Direction::Right.gradient_side_text(), "to right");
    assert_eq!(Direction::Top.gradient_side_text(), "to top");
    assert_eq!(Direction::TopLeft.gradient_side_text(), "to top left");
    assert_eq!(Direction::TopRight.gradient_side_text(), "to top right");
}
