use spomo::feature::render::{
    agreed_layout, centering_padding, frame_content, frame_layout, gauge_ratio,
    inner_constraints, outer_constraints, place_regions, render, shrink, solved_layout,
    stacked_layout, Alignment, Border, Color, Constraint, FrameLayout, GaugeRatio, ReadoutLine, Rect, Span, Style, APP_NAME, FOOTER_HEIGHT,
    GAUGE_HEIGHT, MAIN_MIN_HEIGHT, READOUT_HEIGHT,
};

fn rect(x: u16, y: u16, width: u16, height: u16) -> Rect {
    Rect { x, y, width, height }
}

fn span(text: &str, fg: Option<Color>, bg: Option<Color>, bold: bool, italic: bool) -> Span {
    Span { text: text.to_string(), style: Style { fg, bg, bold, italic } }
}

#[test]
fn gauge_shows_the_part_that_remains() {
    assert_eq!(GaugeRatio { numerator: 1500, denominator: 1500 }, gauge_ratio(1500, 1500));
    assert_eq!(GaugeRatio { numerator: 750, denominator: 1500 }, gauge_ratio(750, 1500));
    assert_eq!(GaugeRatio { numerator: 1, denominator: 3 }, gauge_ratio(1, 3));
    assert_eq!(GaugeRatio { numerator: 0, denominator: 1500 }, gauge_ratio(0, 1500));
}

#[test]
fn gauge_is_full_without_a_total() {
    assert_eq!(GaugeRatio { numerator: 1, denominator: 1 }, gauge_ratio(0, 0));
    assert_eq!(GaugeRatio { numerator: 1, denominator: 1 }, gauge_ratio(7, 0));
}

#[test]
fn gauge_is_never_more_than_full() {
    assert_eq!(GaugeRatio { numerator: 10, denominator: 10 }, gauge_ratio(11, 10));
    assert_eq!(GaugeRatio { numerator: 10, denominator: 10 }, gauge_ratio(u64::MAX, 10));
}

#[test]
fn gauge_ratio_lies_between_zero_and_one() {
    for total in [0u64, 1, 2, 60, 1500, u64::MAX] {
        for remaining in [0u64, 1, 2, 59, 60, 1500, u64::MAX] {
            let ratio = gauge_ratio(remaining, total);
            assert!(ratio.denominator > 0);
            assert!(ratio.numerator <= ratio.denominator);
            let fill = ratio.numerator as f64 / ratio.denominator as f64;
            assert!((0.0..=1.0).contains(&fill));
        }
    }
}

#[test]
fn content_of_a_running_countdown() {
    let content = frame_content(745, 755, 1500);
    assert_eq!(Border::Thick, content.main_border);
    assert_eq!(Alignment::Center, content.title_alignment);
    assert_eq!(Border::Plain, content.footer_border);
    assert_eq!(Alignment::Center, content.hint_alignment);
    assert_eq!(Alignment::Center, content.readout_alignment);
    assert_eq!(span("spomo", None, None, true, false), content.title);
    assert_eq!(APP_NAME, content.title.text);
    assert_eq!(
        span("(q) Quit", Some(Color::LightYellow), None, false, false),
        content.keybindings_hint
    );
    assert_eq!(
        ReadoutLine {
            label: span("Remaining:", None, None, false, false),
            value: span("00:12:35", Some(Color::Red), None, true, false),
        },
        content.remaining_line
    );
    assert_eq!(
        ReadoutLine {
            label: span("Elapsed:", None, None, false, false),
            value: span("00:12:25", Some(Color::Green), None, false, false),
        },
        content.elapsed_line
    );
    assert_eq!(GaugeRatio { numerator: 755, denominator: 1500 }, content.gauge_ratio);
    assert_eq!(span("00:12:35", Some(Color::DarkGray), None, true, true), content.gauge_label);
    assert_eq!(
        Style { fg: Some(Color::Green), bg: Some(Color::Red), bold: false, italic: false },
        content.gauge_style
    );
}

#[test]
fn content_of_a_countdown_without_a_total() {
    let content = frame_content(0, 0, 0);
    assert_eq!("00:00:00", content.remaining_line.value.text);
    assert_eq!("00:00:00", content.elapsed_line.value.text);
    assert_eq!("00:00:00", content.gauge_label.text);
    assert_eq!(GaugeRatio { numerator: 1, denominator: 1 }, content.gauge_ratio);
}

#[test]
fn padding_centers_readout_and_gauge() {
    assert_eq!(3, READOUT_HEIGHT + GAUGE_HEIGHT);
    assert_eq!(0, centering_padding(0));
    assert_eq!(0, centering_padding(3));
    assert_eq!(0, centering_padding(4));
    assert_eq!(1, centering_padding(5));
    assert_eq!(1, centering_padding(6));
    assert_eq!(8, centering_padding(19));
    assert_eq!(32766, centering_padding(u16::MAX));
}

#[test]
fn area_inside_a_margin() {
    assert_eq!(rect(1, 1, 78, 19), shrink(rect(0, 0, 80, 21), 1));
    assert_eq!(rect(5, 7, 40, 20), shrink(rect(5, 7, 40, 20), 0));
    assert_eq!(rect(4, 5, 0, 0), shrink(rect(2, 3, 4, 4), 2));
    assert_eq!(rect(0, 0, 0, 0), shrink(rect(2, 3, 4, 3), 2));
    assert_eq!(rect(0, 0, 0, 0), shrink(rect(2, 3, 1, 9), 1));
    assert_eq!(rect(u16::MAX, u16::MAX, 8, 8), shrink(rect(u16::MAX, u16::MAX - 1, 10, 10), 1));
    assert_eq!(rect(0, 0, 0, 0), shrink(rect(0, 0, u16::MAX - 1, u16::MAX - 1), u16::MAX));
    assert_eq!(rect(40000, 40000, 0, 0), shrink(rect(0, 0, u16::MAX, u16::MAX), 40000));
}

#[test]
fn constraints_of_the_two_splits() {
    assert_eq!(vec![Constraint::Min(3), Constraint::Length(3)], outer_constraints());
    assert_eq!(
        vec![
            Constraint::Length(8),
            Constraint::Length(2),
            Constraint::Length(1),
            Constraint::Length(8)
        ],
        inner_constraints(8)
    );
}

#[test]
fn regions_are_picked_from_the_rows() {
    let outer = vec![rect(0, 0, 80, 21), rect(0, 21, 80, 3)];
    let inner =
        vec![rect(1, 1, 78, 8), rect(1, 9, 78, 2), rect(1, 11, 78, 1), rect(1, 12, 78, 8)];
    assert_eq!(
        FrameLayout {
            main_block: rect(0, 0, 80, 21),
            footer: rect(0, 21, 80, 3),
            readout: rect(1, 9, 78, 2),
            gauge: rect(1, 11, 78, 1),
        },
        place_regions(&outer, &inner)
    );
}

fn common_terminal() -> FrameLayout {
    FrameLayout {
        main_block: rect(0, 0, 80, 21),
        footer: rect(0, 21, 80, 3),
        readout: rect(1, 9, 78, 2),
        gauge: rect(1, 11, 78, 1),
    }
}

#[test]
fn layout_of_a_common_terminal() {
    assert_eq!(common_terminal(), frame_layout(rect(0, 0, 80, 24)));
    assert_eq!(common_terminal(), stacked_layout(rect(0, 0, 80, 24)));
}

#[test]
fn solver_settles_on_the_layout_of_a_common_terminal() {
    assert_eq!(Some(common_terminal()), solved_layout(rect(0, 0, 80, 24)));
}

#[test]
fn only_the_layout_of_the_model_is_agreed() {
    let area = rect(0, 0, 80, 24);
    assert_eq!(Some(common_terminal()), agreed_layout(common_terminal(), area));
    assert_eq!(None, agreed_layout(common_terminal(), rect(0, 0, 80, 25)));
    assert_eq!(None, agreed_layout(common_terminal(), rect(1, 0, 80, 24)));
    let mut other = common_terminal();
    other.gauge.height = 0;
    assert_eq!(None, agreed_layout(other, area));
    let mut other = common_terminal();
    other.readout.y = 10;
    assert_eq!(None, agreed_layout(other, area));
    let mut other = common_terminal();
    other.footer.width = 79;
    assert_eq!(None, agreed_layout(other, area));
    let mut other = common_terminal();
    other.main_block.x = 1;
    assert_eq!(None, agreed_layout(other, area));
}

#[test]
fn layout_of_an_area_off_the_origin() {
    let layout = FrameLayout {
        main_block: rect(5, 7, 40, 17),
        footer: rect(5, 24, 40, 3),
        readout: rect(6, 14, 38, 2),
        gauge: rect(6, 16, 38, 1),
    };
    assert_eq!(layout, frame_layout(rect(5, 7, 40, 20)));
    assert_eq!(Some(layout), solved_layout(rect(5, 7, 40, 20)));
}

#[test]
fn layout_keeps_the_footer_three_rows_high() {
    assert_eq!(3, FOOTER_HEIGHT);
    assert_eq!(3, MAIN_MIN_HEIGHT);
    for height in 6..60u16 {
        let layout = frame_layout(rect(0, 0, 100, height));
        assert_eq!(rect(0, 0, 100, height - 3), layout.main_block);
        assert_eq!(rect(0, height - 3, 100, 3), layout.footer);
    }
}

#[test]
fn layout_centers_readout_and_gauge_in_the_main_block() {
    for height in 8..60u16 {
        let layout = frame_layout(rect(0, 0, 100, height));
        let interior = shrink(layout.main_block, 1);
        assert_eq!(rect(1, 1, 98, height - 5), interior);
        let above = layout.readout.y - interior.y;
        let below = interior.y + interior.height - (layout.gauge.y + layout.gauge.height);
        assert_eq!(centering_padding(interior.height), above);
        assert!(below == above || below == above + 1);
        assert_eq!(rect(1, 1 + above, 98, 2), layout.readout);
        assert_eq!(rect(1, 3 + above, 98, 1), layout.gauge);
    }
}

#[test]
fn solver_settles_on_the_layout_wherever_there_is_room() {
    for height in 8..80u16 {
        for width in [2u16, 3, 20, 80, 300] {
            for (x, y) in [(0u16, 0u16), (3, 4), (1000, 2000)] {
                let area = rect(x, y, width, height);
                assert_eq!(Some(frame_layout(area)), solved_layout(area), "area {:?}", area);
            }
        }
    }
}

#[test]
fn main_block_comes_before_the_footer_in_a_cramped_area() {
    for (height, main_height) in [(0u16, 0u16), (1, 1), (2, 2), (3, 3), (4, 3), (5, 3), (6, 3)] {
        let layout = frame_layout(rect(4, 9, 10, height));
        assert_eq!(rect(4, 9, 10, main_height), layout.main_block);
        assert_eq!(rect(4, 9 + main_height, 10, height - main_height), layout.footer);
    }
}

#[test]
fn layout_of_a_cramped_area() {
    assert_eq!(
        FrameLayout {
            main_block: rect(0, 0, 10, 0),
            footer: rect(0, 0, 10, 0),
            readout: rect(0, 0, 0, 0),
            gauge: rect(0, 0, 0, 0),
        },
        frame_layout(rect(0, 0, 10, 0))
    );
    assert_eq!(
        FrameLayout {
            main_block: rect(4, 9, 10, 2),
            footer: rect(4, 11, 10, 0),
            readout: rect(5, 10, 8, 0),
            gauge: rect(5, 10, 8, 0),
        },
        frame_layout(rect(4, 9, 10, 2))
    );
    assert_eq!(
        FrameLayout {
            main_block: rect(0, 0, 10, 3),
            footer: rect(0, 3, 10, 3),
            readout: rect(1, 1, 8, 1),
            gauge: rect(1, 2, 8, 0),
        },
        frame_layout(rect(0, 0, 10, 6))
    );
    assert_eq!(
        FrameLayout {
            main_block: rect(0, 0, 10, 4),
            footer: rect(0, 4, 10, 3),
            readout: rect(1, 1, 8, 1),
            gauge: rect(1, 2, 8, 1),
        },
        frame_layout(rect(0, 0, 10, 7))
    );
    assert_eq!(
        FrameLayout {
            main_block: rect(0, 0, 1, 17),
            footer: rect(0, 17, 1, 3),
            readout: rect(0, 0, 0, 0),
            gauge: rect(0, 0, 0, 0),
        },
        frame_layout(rect(0, 0, 1, 20))
    );
}

#[test]
fn layout_of_an_area_that_runs_off_the_grid() {
    let layout = frame_layout(rect(0, u16::MAX - 10, 80, 24));
    assert_eq!(rect(0, u16::MAX - 10, 80, 7), layout.main_block);
    assert_eq!(rect(0, u16::MAX - 3, 80, 3), layout.footer);
    assert_eq!(rect(1, u16::MAX - 8, 78, 2), layout.readout);
    assert_eq!(rect(1, u16::MAX - 6, 78, 1), layout.gauge);
}

#[test]
fn layout_is_the_same_however_it_is_reached() {
    for height in 0..40u16 {
        for width in 0..6u16 {
            let area = rect(2, 3, width, height);
            let layout = frame_layout(area);
            assert_eq!(stacked_layout(area), layout);
            if let Some(solved) = solved_layout(area) {
                assert_eq!(layout, solved);
            }
        }
    }
}

#[test]
fn solver_settles_on_the_layout_of_cramped_areas_too() {
    for height in 0..8u16 {
        for width in [0u16, 1, 2, 3, 20, 80] {
            for (x, y) in [(0u16, 0u16), (3, 4)] {
                let area = rect(x, y, width, height);
                assert_eq!(Some(stacked_layout(area)), solved_layout(area), "area {:?}", area);
            }
        }
    }
}

#[test]
fn rendering_puts_content_and_layout_together() {
    let frame = render(10, 50, 60, rect(0, 0, 80, 24));
    assert_eq!(frame_content(10, 50, 60), frame.content);
    assert_eq!(frame_layout(rect(0, 0, 80, 24)), frame.layout);
}

#[test]
fn rendering_the_same_state_twice_gives_the_same_frame() {
    for (elapsed, remaining, total) in [(0u64, 0u64, 0u64), (0, 60, 60), (59, 1, 60), (61, 0, 60)]
    {
        for (width, height) in [(80u16, 24u16), (120, 40), (20, 8), (3, 3), (0, 0)] {
            let first = render(elapsed, remaining, total, rect(0, 0, width, height));
            let second = render(elapsed, remaining, total, rect(0, 0, width, height));
            assert_eq!(first, second);
        }
    }
}
