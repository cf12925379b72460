use diogen::color::Color;
use diogen::direction::Direction;
use diogen::typography::{
    Alignment, Decor, DecorStyle, Family, Gradient, OverflowWrap, Typography, TypographyProps,
    Weight, WhiteSpace,
};
use diogen::unit::Relative;

fn plain() -> TypographyProps {
    TypographyProps {
        size: None,
        family: String::from("serif"),
        weight: None,
        gradient: None,
        gradient_direction: None,
        colors: None,
        letter_spacing: None,
        word_spacing: None,
        decor: None,
        decor_color: None,
        decor_style: None,
        decor_thickness: None,
        white_space: None,
        overflow_wrap: None,
        alignment: None,
    }
}

fn style(parts: [&str; 10]) -> String {
    format!(
        r#"
                    font-size: {};
                    font-family: {};
                    font-weight: {};
                    background: {};
                    letter-spacing: {};
                    word-spacing: {};
                    text-decoration: {};
                    white-space: {};
                    overflow-wrap: {};
                    text-align: {};
                "#,
        parts[0], parts[1], parts[2], parts[3], parts[4], parts[5], parts[6], parts[7], parts[8], parts[9]
    )
}

#[test]
fn typography_keywords() {
    assert_eq!(Alignment::Left.to_text(), "left");
    assert_eq!(Alignment::Center.to_text(), "center");
    assert_eq!(Alignment::Justify.to_text(), "justify");
    assert_eq!(Alignment::Right.to_text(), "right");
    assert_eq!(Decor::Underline.to_text(), "underline");
    assert_eq!(Decor::Overline.to_text(), "overline");
    assert_eq!(Decor::LineThrough.to_text(), "line-through");
    assert_eq!(Decor::Blink.to_text(), "blink");
    assert_eq!(DecorStyle::Solid.to_text(), "solid");
    assert_eq!(DecorStyle::Double.to_text(), "double");
    assert_eq!(DecorStyle::Dotted.to_text(), "dotted");
    assert_eq!(DecorStyle::Dashed.to_text(), "dashed");
    assert_eq!(DecorStyle::Wavy.to_text(), "wavy");
    assert_eq!(Weight::Normal.to_text(), "normal");
    assert_eq!(Weight::Bold.to_text(), "bold");
    assert_eq!(Weight::Bolder.to_text(), "bolder");
    assert_eq!(Weight::Lighter.to_text(), "lighter");
    assert_eq!(WhiteSpace::Normal.to_text(), "normal");
    assert_eq!(WhiteSpace::NoWrap.to_text(), "nowrap");
    assert_eq!(WhiteSpace::Pre.to_text(), "pre");
    assert_eq!(WhiteSpace::PreWrap.to_text(), "pre-wrap");
    assert_eq!(WhiteSpace::PreLine.to_text(), "pre-line");
    assert_eq!(OverflowWrap::Normal.to_text(), "normal");
    assert_eq!(OverflowWrap::BreakWord.to_text(), "break-word");
    assert_eq!(OverflowWrap::Anywhere.to_text(), "anywhere");
    assert_eq!(Gradient::Linear.to_text(), "linear-gradient");
    assert_eq!(Gradient::Radial.to_text(), "radial-gradient");
    assert_eq!(Gradient::Conic.to_text(), "conic-gradient");
    assert_eq!(Gradient::Repeating.to_text(), "repeating-gradient");
    assert_eq!(Gradient::Conic.as_str(), "conic-gradient");
}

#[test]
fn typography_defaults() {
    assert_eq!(Alignment::default(), Alignment::Left);
    assert_eq!(DecorStyle::default(), DecorStyle::Solid);
    assert_eq!(Family::default(), Family::BrCobane);
    assert_eq!(Weight::default(), Weight::Normal);
    assert_eq!(WhiteSpace::default(), WhiteSpace::Normal);
    assert_eq!(OverflowWrap::default(), OverflowWrap::Normal);
    assert_eq!(Gradient::default(), Gradient::Linear);
}

#[test]
fn typography_with_nothing_given() {
    let expected = style([
        "1em",
        "serif",
        "normal",
        "linear-gradient(to bottom,#FFFFFF)",
        "1em",
        "1em",
        " solid #FFFFFF",
        "normal",
        "normal",
        "left",
    ]);
    assert_eq!(Typography(plain()), expected);
}

#[test]
fn typography_with_everything_given() {
    let red = Color::from_rgb((255, 0, 0));
    let veil = Color::from_rgba((0, 0, 255, 0.5f32.to_bits()));
    let props = TypographyProps {
        size: Some(Relative::Rem.into_unit(String::from("2"))),
        family: String::from("sans-serif"),
        weight: Some(Weight::Bolder),
        gradient: Some(Gradient::Radial),
        gradient_direction: Some(Direction::TopLeft),
        colors: Some(vec![
            Color::from_hex(0x202020).to_text(""),
            red.to_text(""),
            veil.to_text(&format!("{:.2}", f32::from_bits(veil.rgba().3))),
        ]),
        letter_spacing: Some(Relative::Ch.into_unit(String::from("0.1"))),
        word_spacing: Some(Relative::Percentage.into_unit(String::from("120"))),
        decor: Some(vec![Decor::Underline, Decor::LineThrough, Decor::Blink]),
        decor_color: Some(Color::from_hex(0x00ff00).to_text("")),
        decor_style: Some(DecorStyle::Wavy),
        decor_thickness: Some(Relative::Em.into_unit(String::from("9"))),
        white_space: Some(WhiteSpace::PreWrap),
        overflow_wrap: Some(OverflowWrap::BreakWord),
        alignment: Some(Alignment::Justify),
    };
    let expected = style([
        "2rem",
        "sans-serif",
        "bolder",
        "radial-gradient(to top left,#202020, rgb(255, 0, 0), rgba(0, 0, 255, 0.50))",
        "0.1ch",
        "120percentage",
        "underline, line-through, blink wavy #00FF00",
        "pre-wrap",
        "break-word",
        "justify",
    ]);
    assert_eq!(Typography(props), expected);
}

#[test]
fn typography_gradient_sides() {
    let side = |d| {
        let mut props = plain();
        props.gradient_direction = Some(d);
        props.gradient = Some(Gradient::Conic);
        props.colors = Some(vec![String::from("a"), String::from("b")]);
        Typography(props)
    };
    assert!(side(Direction::Bottom).contains("background: conic-gradient(to bottom,a, b);"));
    assert!(side(Direction::BottomLeft).contains("background: conic-gradient(to left bottom,a, b);"));
    assert!(side(Direction::BottomRight).contains("background: conic-gradient(to bottom right,a, b);"));
    assert!(side(Direction::Left).contains("background: conic-gradient(to left,a, b);"));
    assert!(side(Direction::Right).contains("background: conic-gradient(to right,a, b);"));
    assert!(side(Direction::Top).contains("background: conic-gradient(to top,a, b);"));
    assert!(side(Direction::TopLeft).contains("background: conic-gradient(to top left,a, b);"));
    assert!(side(Direction::TopRight).contains("background: conic-gradient(to top right,a, b);"));
}

#[test]
fn typography_with_no_colours_and_no_decoration() {
    let mut props = plain();
    props.colors = Some(vec![]);
    props.decor = Some(vec![]);
    props.gradient = Some(Gradient::Repeating);
    let text = Typography(props);
    assert!(text.contains("background: repeating-gradient(to bottom,);"));
    assert!(text.contains("text-decoration:  solid #FFFFFF;"));
}

#[test]
fn typography_with_one_decoration() {
    let mut props = plain();
    props.decor = Some(vec![Decor::Overline]);
    props.decor_style = Some(DecorStyle::Dotted);
    props.decor_color = Some(String::from("rgb(1, 2, 3)"));
    assert!(Typography(props).contains("text-decoration: overline dotted rgb(1, 2, 3);"));
}

#[test]
fn typography_that_does_not_wrap() {
    let mut props = plain();
    props.white_space = Some(WhiteSpace::NoWrap);
    assert!(Typography(props).contains("white-space: nowrap;"));
}

#[test]
fn typography_does_not_write_the_thickness() {
    let mut with = plain();
    with.decor_thickness = Some(Relative::Em.into_unit(String::from("3")));
    assert_eq!(Typography(with), Typography(plain()));
}
