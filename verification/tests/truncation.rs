use powermeter::geometry::Size;
use powermeter::graphics::GraphicUtils;
use powermeter::style::MonoFont;

fn font(width: u32) -> MonoFont {
    MonoFont { id: 0, character_size: Size { width, height: 20 } }
}

#[test]
fn truncates_to_the_visible_budget() {
    let shown = GraphicUtils::get_text_with_ellipsis_from_str(100, "HelloWorldExtra", &font(10));
    assert_eq!(shown, "HelloWo...");
    assert_eq!(shown.chars().count(), 10);
}

#[test]
fn keeps_a_text_that_fits() {
    assert_eq!(GraphicUtils::get_text_with_ellipsis_from_str(100, "Hello", &font(10)), "Hello");
    assert_eq!(GraphicUtils::get_text_with_ellipsis_from_str(100, "", &font(10)), "");
}

#[test]
fn keeps_a_text_that_fills_the_line_exactly() {
    assert_eq!(
        GraphicUtils::get_text_with_ellipsis_from_str(100, "HelloWorld", &font(10)),
        "HelloWorld"
    );
    assert_eq!(
        GraphicUtils::get_text_with_ellipsis_from_str(109, "HelloWorld!", &font(10)),
        "HelloWo..."
    );
}

#[test]
fn from_string_does_what_from_str_does() {
    for width in [0u32, 29, 30, 45, 100, 149, 150, 151] {
        assert_eq!(
            GraphicUtils::get_text_with_ellipsis_from_string(width, "HelloWorldExtra", &font(10)),
            GraphicUtils::get_text_with_ellipsis_from_str(width, "HelloWorldExtra", &font(10))
        );
    }
}

#[test]
fn truncating_twice_changes_nothing_more() {
    let texts = ["", "a", "abc", "abcd", "HelloWorldExtra", "a much longer line of text than fits"];
    for text in texts {
        for width in [0u32, 1, 9, 10, 29, 30, 31, 40, 100, 150, 1000] {
            for char_width in [0u32, 1, 7, 10] {
                let once = GraphicUtils::get_text_with_ellipsis_from_str(width, text, &font(char_width));
                let twice =
                    GraphicUtils::get_text_with_ellipsis_from_str(width, &once, &font(char_width));
                assert_eq!(once, twice, "{:?} in {} pixels of {}", text, width, char_width);
            }
        }
    }
}

#[test]
fn a_font_of_no_width_never_truncates() {
    assert_eq!(
        GraphicUtils::get_text_with_ellipsis_from_str(0, "HelloWorldExtra", &font(0)),
        "HelloWorldExtra"
    );
}

#[test]
fn leaves_only_the_marker_where_fewer_than_three_characters_fit() {
    assert_eq!(GraphicUtils::get_text_with_ellipsis_from_str(25, "Hello", &font(10)), "...");
    assert_eq!(GraphicUtils::get_text_with_ellipsis_from_str(0, "Hello", &font(10)), "...");
    assert_eq!(GraphicUtils::get_text_with_ellipsis_from_str(30, "Hello", &font(10)), "...");
    assert_eq!(GraphicUtils::get_text_with_ellipsis_from_str(40, "Hello", &font(10)), "H...");
}

#[test]
fn counts_characters_not_bytes() {
    // five characters of two bytes each
    assert_eq!(GraphicUtils::get_text_with_ellipsis_from_str(50, "äöüßé", &font(10)), "äöüßé");
    assert_eq!(GraphicUtils::get_text_with_ellipsis_from_str(49, "äöüßé", &font(10)), "ä...");
}

#[test]
fn the_button_size_is_fixed() {
    assert_eq!(GraphicUtils::get_button_size(), Size { width: 90, height: 50 });
}
