//! The render model: a pure projection of the countdown onto a frame of
//! styled text regions. Drawing the frame is the terminal backend's business.

use crate::common::{clock_text, format_time};
use crate::feature::countdown::{ClockModel, ClockState};
use vstd::prelude::*;
use vstd::string::*;

verus! {

/// The title shown on the frame of the main block.
pub const APP_NAME: &'static str = "spomo";

/// Rows taken by the time readout: one line for the remaining time, one for
/// the elapsed time.
pub const READOUT_HEIGHT: u16 = 2;

/// Rows taken by the gauge.
pub const GAUGE_HEIGHT: u16 = 1;

/// Rows taken by the footer, borders included.
pub const FOOTER_HEIGHT: u16 = 3;

/// The least number of rows asked for the main block.
pub const MAIN_MIN_HEIGHT: u16 = 3;

/// The foreground and background colors the frame uses.
#[derive(Clone, Copy, Debug, PartialEq, Eq)]
pub enum Color {
    Red,
    Green,
    LightYellow,
    DarkGray,
}

/// Where a line of text stands between the left and the right edge of its
/// region.
#[derive(Clone, Copy, Debug, PartialEq, Eq)]
pub enum Alignment {
    Left,
    Center,
    Right,
}

/// The line that borders a block on its four sides.
#[derive(Clone, Copy, Debug, PartialEq, Eq)]
pub enum Border {
    Plain,
    Thick,
}

/// How a run of text is drawn.
#[derive(Clone, Copy, Debug, PartialEq, Eq)]
pub struct Style {
    pub fg: Option<Color>,
    pub bg: Option<Color>,
    pub bold: bool,
    pub italic: bool,
}

/// A run of text with one style.
#[derive(Clone, Debug, PartialEq, Eq)]
pub struct Span {
    pub text: String,
    pub style: Style,
}

/// What a [`Span`] is to the contracts: its characters and its style.
pub ghost struct SpanModel {
    pub text: Seq<char>,
    pub style: Style,
}

impl View for Span {
    type V = SpanModel;

    open spec fn view(&self) -> SpanModel {
        SpanModel { text: self.text@, style: self.style }
    }
}

/// One line of the time readout: a plain label and the time beside it.
#[derive(Clone, Debug, PartialEq, Eq)]
pub struct ReadoutLine {
    pub label: Span,
    pub value: Span,
}

pub ghost struct ReadoutLineModel {
    pub label: SpanModel,
    pub value: SpanModel,
}

impl View for ReadoutLine {
    type V = ReadoutLineModel;

    open spec fn view(&self) -> ReadoutLineModel {
        ReadoutLineModel { label: self.label@, value: self.value@ }
    }
}

/// The fill of the gauge as an exact fraction.
#[derive(Clone, Copy, Debug, PartialEq, Eq)]
pub struct GaugeRatio {
    pub numerator: u64,
    pub denominator: u64,
}

impl GaugeRatio {
    /// A ratio is a fraction between zero and one.
    pub open spec fn wf(self) -> bool {
        0 < self.denominator && self.numerator <= self.denominator
    }
}

/// The style with nothing set.
pub open spec fn plain_style() -> Style {
    Style { fg: None, bg: None, bold: false, italic: false }
}

/// The fill of the gauge for a countdown: the part of the total that
/// remains, full when there is no total, never more than full.
pub open spec fn ratio_model(remaining: u64, total: u64) -> GaugeRatio {
    if total == 0 {
        GaugeRatio { numerator: 1, denominator: 1 }
    } else if remaining >= total {
        GaugeRatio { numerator: total, denominator: total }
    } else {
        GaugeRatio { numerator: remaining, denominator: total }
    }
}

/// Computes the fill of the gauge from the remaining and the total seconds.
pub fn gauge_ratio(remaining: u64, total: u64) -> (ratio: GaugeRatio)
    ensures
        ratio == ratio_model(remaining, total),
        ratio.wf(),
{
    if total == 0 {
        GaugeRatio { numerator: 1, denominator: 1 }
    } else if remaining >= total {
        GaugeRatio { numerator: total, denominator: total }
    } else {
        GaugeRatio { numerator: remaining, denominator: total }
    }
}

/// What a frame shows in its four regions, without their placement.
#[derive(Clone, Debug, PartialEq, Eq)]
pub struct FrameContent {
    /// The border of the main block.
    pub main_border: Border,
    /// Written on the top border of the main block.
    pub title: Span,
    pub title_alignment: Alignment,
    /// The border of the footer.
    pub footer_border: Border,
    /// Written inside the footer.
    pub keybindings_hint: Span,
    pub hint_alignment: Alignment,
    /// First line of the readout.
    pub remaining_line: ReadoutLine,
    /// Second line of the readout.
    pub elapsed_line: ReadoutLine,
    pub readout_alignment: Alignment,
    pub gauge_ratio: GaugeRatio,
    pub gauge_label: Span,
    pub gauge_style: Style,
}

pub ghost struct FrameContentModel {
    pub main_border: Border,
    pub title: SpanModel,
    pub title_alignment: Alignment,
    pub footer_border: Border,
    pub keybindings_hint: SpanModel,
    pub hint_alignment: Alignment,
    pub remaining_line: ReadoutLineModel,
    pub elapsed_line: ReadoutLineModel,
    pub readout_alignment: Alignment,
    pub gauge_ratio: GaugeRatio,
    pub gauge_label: SpanModel,
    pub gauge_style: Style,
}

impl View for FrameContent {
    type V = FrameContentModel;

    open spec fn view(&self) -> FrameContentModel {
        FrameContentModel {
            main_border: self.main_border,
            title: self.title@,
            title_alignment: self.title_alignment,
            footer_border: self.footer_border,
            keybindings_hint: self.keybindings_hint@,
            hint_alignment: self.hint_alignment,
            remaining_line: self.remaining_line@,
            elapsed_line: self.elapsed_line@,
            readout_alignment: self.readout_alignment,
            gauge_ratio: self.gauge_ratio,
            gauge_label: self.gauge_label@,
            gauge_style: self.gauge_style,
        }
    }
}

/// The content of the frame for a countdown that has `elapsed` seconds
/// behind it and `remaining` of `total` seconds before it.
///
/// The main block has a thick border with the name of the timer centered
/// on its top, the footer a plain border with the keybindings hint centered
/// inside. The two lines of the readout are centered; the gauge is filled
/// by the part of the total that remains and labelled with the remaining
/// time.
pub open spec fn content_model(elapsed: u64, remaining: u64, total: u64) -> FrameContentModel {
    FrameContentModel {
        main_border: Border::Thick,
        title: SpanModel {
            text: APP_NAME@,
            style: Style { fg: None, bg: None, bold: true, italic: false },
        },
        title_alignment: Alignment::Center,
        footer_border: Border::Plain,
        keybindings_hint: SpanModel {
            text: "(q) Quit"@,
            style: Style { fg: Some(Color::LightYellow), bg: None, bold: false, italic: false },
        },
        hint_alignment: Alignment::Center,
        remaining_line: ReadoutLineModel {
            label: SpanModel { text: "Remaining:"@, style: plain_style() },
            value: SpanModel {
                text: clock_text(remaining as nat),
                style: Style { fg: Some(Color::Red), bg: None, bold: true, italic: false },
            },
        },
        elapsed_line: ReadoutLineModel {
            label: SpanModel { text: "Elapsed:"@, style: plain_style() },
            value: SpanModel {
                text: clock_text(elapsed as nat),
                style: Style { fg: Some(Color::Green), bg: None, bold: false, italic: false },
            },
        },
        readout_alignment: Alignment::Center,
        gauge_ratio: ratio_model(remaining, total),
        gauge_label: SpanModel {
            text: clock_text(remaining as nat),
            style: Style { fg: Some(Color::DarkGray), bg: None, bold: true, italic: true },
        },
        gauge_style: Style {
            fg: Some(Color::Green),
            bg: Some(Color::Red),
            bold: false,
            italic: false,
        },
    }
}

/// Builds what the frame shows. The result depends on the three numbers
/// alone: the same numbers give the same content.
pub fn frame_content(elapsed: u64, remaining: u64, total: u64) -> (content: FrameContent)
    ensures
        content@ == content_model(elapsed, remaining, total),
{
    let plain = Style { fg: None, bg: None, bold: false, italic: false };
    FrameContent {
        main_border: Border::Thick,
        title: Span {
            text: APP_NAME.to_owned(),
            style: Style { fg: None, bg: None, bold: true, italic: false },
        },
        title_alignment: Alignment::Center,
        footer_border: Border::Plain,
        keybindings_hint: Span {
            text: "(q) Quit".to_owned(),
            style: Style { fg: Some(Color::LightYellow), bg: None, bold: false, italic: false },
        },
        hint_alignment: Alignment::Center,
        remaining_line: ReadoutLine {
            label: Span { text: "Remaining:".to_owned(), style: plain },
            value: Span {
                text: format_time(remaining),
                style: Style { fg: Some(Color::Red), bg: None, bold: true, italic: false },
            },
        },
        elapsed_line: ReadoutLine {
            label: Span { text: "Elapsed:".to_owned(), style: plain },
            value: Span {
                text: format_time(elapsed),
                style: Style { fg: Some(Color::Green), bg: None, bold: false, italic: false },
            },
        },
        readout_alignment: Alignment::Center,
        gauge_ratio: gauge_ratio(remaining, total),
        gauge_label: Span {
            text: format_time(remaining),
            style: Style { fg: Some(Color::DarkGray), bg: None, bold: true, italic: true },
        },
        gauge_style: Style {
            fg: Some(Color::Green),
            bg: Some(Color::Red),
            bold: false,
            italic: false,
        },
    }
}

/// A rectangle of terminal cells: its top-left corner and its size.
#[derive(Clone, Copy, Debug, PartialEq, Eq)]
pub struct Rect {
    pub x: u16,
    pub y: u16,
    pub width: u16,
    pub height: u16,
}

/// What a row of a split is asked to be.
#[derive(Clone, Copy, Debug, PartialEq, Eq)]
pub enum Constraint {
    /// At least this many rows; the row takes what the others leave.
    Min(u16),
    /// This many rows.
    Length(u16),
}

/// Where the four regions of a frame go.
#[derive(Clone, Copy, Debug, PartialEq, Eq)]
pub struct FrameLayout {
    /// The bordered main block, titled with the name of the timer.
    pub main_block: Rect,
    /// The bordered footer with the keybindings hint.
    pub footer: Rect,
    /// The two lines of the time readout.
    pub readout: Rect,
    /// The gauge, right below the readout.
    pub gauge: Rect,
}

/// `a + b`, stopping at the largest `u16`.
pub open spec fn saturating_sum(a: u16, b: u16) -> u16 {
    if a + b > u16::MAX {
        u16::MAX
    } else {
        (a + b) as u16
    }
}

/// `area` without a margin of `margin` cells on each of its four sides. An
/// area too small for the margin shrinks to the empty rectangle at the
/// origin.
pub open spec fn inner_area(area: Rect, margin: u16) -> Rect {
    let doubled = saturating_sum(margin, margin);
    if area.width < doubled || area.height < doubled {
        Rect { x: 0, y: 0, width: 0, height: 0 }
    } else {
        Rect {
            x: saturating_sum(area.x, margin),
            y: saturating_sum(area.y, margin),
            width: (area.width - doubled) as u16,
            height: (area.height - doubled) as u16,
        }
    }
}

/// Computes the area inside a margin.
pub fn shrink(area: Rect, margin: u16) -> (inner: Rect)
    ensures
        inner == inner_area(area, margin),
{
    let doubled: u16 = if margin > u16::MAX - margin {
        u16::MAX
    } else {
        margin + margin
    };
    if area.width < doubled || area.height < doubled {
        Rect { x: 0, y: 0, width: 0, height: 0 }
    } else {
        Rect {
            x: if area.x > u16::MAX - margin {
                u16::MAX
            } else {
                area.x + margin
            },
            y: if area.y > u16::MAX - margin {
                u16::MAX
            } else {
                area.y + margin
            },
            width: area.width - doubled,
            height: area.height - doubled,
        }
    }
}

/// Splits `area`, less a margin of `margin` cells on every side, into rows
/// stacked from the top, one for each constraint, by `Layout::split` of
/// ratatui.
///
/// The heights are what ratatui's constraint solver settles on, and nothing
/// is claimed of them. What is claimed is what `split` does around the
/// solver and demands of it: it hands back one rectangle for each
/// constraint, each spans the columns of the area inside the margin, and
/// each lies between the top and the bottom of that area. `split` gives its
/// solver no demand that cannot be met, so it does not fail.
#[verifier::external_body]
fn split_rows(area: Rect, constraints: &Vec<Constraint>, margin: u16) -> (rows: Vec<Rect>)
    ensures
        rows@.len() == constraints@.len(),
        forall|i: int|
            0 <= i < rows@.len() ==> (#[trigger] rows@[i]).x == inner_area(area, margin).x
                && rows@[i].width == inner_area(area, margin).width,
        forall|i: int|
            0 <= i < rows@.len() ==> inner_area(area, margin).y <= (#[trigger] rows@[i]).y
                && rows@[i].y + rows@[i].height <= saturating_sum(
                inner_area(area, margin).y,
                inner_area(area, margin).height,
            ),
{
    let constraints = constraints.iter().map(|c| match *c {
        Constraint::Min(rows) => ratatui::layout::Constraint::Min(rows),
        Constraint::Length(rows) => ratatui::layout::Constraint::Length(rows),
    });
    let layout = ratatui::layout::Layout::default()
        .direction(ratatui::layout::Direction::Vertical)
        .constraints(constraints)
        .margin(margin);
    let area = ratatui::layout::Rect { x: area.x, y: area.y, width: area.width, height: area.height };
    let rows = layout.split(area);
    rows.iter().map(|r| Rect { x: r.x, y: r.y, width: r.width, height: r.height }).collect()
}

/// The rows asked of the whole area: a main block that takes what is left
/// above a footer of fixed height.
pub open spec fn outer_rows() -> Seq<Constraint> {
    seq![Constraint::Min(MAIN_MIN_HEIGHT), Constraint::Length(FOOTER_HEIGHT)]
}

/// The rows asked inside the main block: the readout and the gauge between
/// two paddings of equal height.
pub open spec fn inner_rows(padding: u16) -> Seq<Constraint> {
    seq![
        Constraint::Length(padding),
        Constraint::Length(READOUT_HEIGHT),
        Constraint::Length(GAUGE_HEIGHT),
        Constraint::Length(padding),
    ]
}

/// Builds the rows asked of the whole area.
pub fn outer_constraints() -> (constraints: Vec<Constraint>)
    ensures
        constraints@ == outer_rows(),
{
    let mut constraints: Vec<Constraint> = Vec::new();
    constraints.push(Constraint::Min(MAIN_MIN_HEIGHT));
    constraints.push(Constraint::Length(FOOTER_HEIGHT));
    assert(constraints@ =~= outer_rows());
    constraints
}

/// Builds the rows asked inside the main block.
pub fn inner_constraints(padding: u16) -> (constraints: Vec<Constraint>)
    ensures
        constraints@ == inner_rows(padding),
{
    let mut constraints: Vec<Constraint> = Vec::new();
    constraints.push(Constraint::Length(padding));
    constraints.push(Constraint::Length(READOUT_HEIGHT));
    constraints.push(Constraint::Length(GAUGE_HEIGHT));
    constraints.push(Constraint::Length(padding));
    assert(constraints@ =~= inner_rows(padding));
    constraints
}

/// The padding that centers the readout and the gauge in so many rows:
/// half of the rows they leave empty, rounded down.
pub open spec fn padding_model(available_height: u16) -> u16 {
    if available_height <= READOUT_HEIGHT + GAUGE_HEIGHT {
        0
    } else {
        ((available_height - (READOUT_HEIGHT + GAUGE_HEIGHT)) / 2) as u16
    }
}

/// Computes the padding above the readout and below the gauge, given the
/// rows that the main block has inside its borders.
pub fn centering_padding(available_height: u16) -> (padding: u16)
    ensures
        padding == padding_model(available_height),
{
    let content_height: u16 = READOUT_HEIGHT + GAUGE_HEIGHT;
    let empty_space: u16 = if available_height <= content_height {
        0
    } else {
        available_height - content_height
    };
    empty_space / 2
}

/// The layout that two splits give: the main block and the footer are the
/// rows of the outer split, the readout and the gauge the two middle rows of
/// the inner one.
pub open spec fn placed(outer: Seq<Rect>, inner: Seq<Rect>) -> FrameLayout {
    FrameLayout { main_block: outer[0], footer: outer[1], readout: inner[1], gauge: inner[2] }
}

/// Picks the four regions of the frame out of the rows of the two splits.
pub fn place_regions(outer: &Vec<Rect>, inner: &Vec<Rect>) -> (layout: FrameLayout)
    requires
        outer@.len() == outer_rows().len(),
        inner@.len() == inner_rows(0).len(),
    ensures
        layout == placed(outer@, inner@),
{
    FrameLayout { main_block: outer[0], footer: outer[1], readout: inner[1], gauge: inner[2] }
}

/// The rows of `area` that lie on the grid of cells, whose rows and columns
/// are numbered up to the largest `u16`.
pub open spec fn visible_rows(area: Rect) -> u16 {
    if area.y + area.height > u16::MAX {
        (u16::MAX - area.y) as u16
    } else {
        area.height
    }
}

/// `rows`, or `available` where that is less.
pub open spec fn at_most(rows: u16, available: int) -> u16 {
    if rows <= available {
        rows
    } else if available <= 0 {
        0
    } else {
        available as u16
    }
}

/// The main block takes the rows above the footer. Where the area has not
/// the rows for both, the main block comes first: it takes its least three
/// rows, or all there are.
pub open spec fn main_block_model(area: Rect) -> Rect {
    let visible = visible_rows(area);
    Rect {
        x: area.x,
        y: area.y,
        width: area.width,
        height: if visible >= MAIN_MIN_HEIGHT + FOOTER_HEIGHT {
            (visible - FOOTER_HEIGHT) as u16
        } else {
            at_most(MAIN_MIN_HEIGHT, visible as int)
        },
    }
}

/// The footer takes the last three rows of the area, or what the main
/// block leaves of them.
pub open spec fn footer_model(area: Rect) -> Rect {
    let main_block = main_block_model(area);
    Rect {
        x: area.x,
        y: (area.y + main_block.height) as u16,
        width: area.width,
        height: (visible_rows(area) - main_block.height) as u16,
    }
}

/// What the main block has inside its borders.
pub open spec fn interior_model(area: Rect) -> Rect {
    inner_area(main_block_model(area), 1)
}

/// The gauge takes one row of the interior of the main block, wherever the
/// interior has two rows under the padding.
pub open spec fn gauge_height_model(area: Rect) -> u16 {
    let interior = interior_model(area);
    if interior.height - padding_model(interior.height) >= READOUT_HEIGHT {
        GAUGE_HEIGHT
    } else {
        0
    }
}

/// The readout takes two rows of the interior of the main block, under a
/// padding that centers it together with the gauge. In an interior of
/// fewer than three rows it takes what the gauge leaves.
pub open spec fn readout_model(area: Rect) -> Rect {
    let interior = interior_model(area);
    let padding = padding_model(interior.height);
    Rect {
        x: interior.x,
        y: (interior.y + padding) as u16,
        width: interior.width,
        height: at_most(READOUT_HEIGHT, interior.height - padding - gauge_height_model(area)),
    }
}

/// The gauge stands right below the readout.
pub open spec fn gauge_model(area: Rect) -> Rect {
    let interior = interior_model(area);
    let readout = readout_model(area);
    Rect {
        x: interior.x,
        y: (readout.y + readout.height) as u16,
        width: interior.width,
        height: gauge_height_model(area),
    }
}

/// The layout of the frame on `area`.
pub open spec fn layout_model(area: Rect) -> FrameLayout {
    FrameLayout {
        main_block: main_block_model(area),
        footer: footer_model(area),
        readout: readout_model(area),
        gauge: gauge_model(area),
    }
}

/// The rows of the area inside a margin of one cell lie on the grid if
/// those of the area do.
proof fn lemma_interior_on_grid(area: Rect)
    ensures
        interior_model(area).y + interior_model(area).height <= u16::MAX,
        padding_model(interior_model(area).height) <= interior_model(area).height,
{
}

/// Lays the frame out by hand: the regions are stacked from the top, each
/// with the rows it is meant to have, or with what there is of them.
pub fn stacked_layout(area: Rect) -> (layout: FrameLayout)
    ensures
        layout == layout_model(area),
{
    let visible: u16 = if area.height > u16::MAX - area.y {
        u16::MAX - area.y
    } else {
        area.height
    };
    let main_height: u16 = if visible >= MAIN_MIN_HEIGHT + FOOTER_HEIGHT {
        visible - FOOTER_HEIGHT
    } else if MAIN_MIN_HEIGHT <= visible {
        MAIN_MIN_HEIGHT
    } else {
        visible
    };
    let main_block = Rect { x: area.x, y: area.y, width: area.width, height: main_height };
    let footer = Rect {
        x: area.x,
        y: area.y + main_height,
        width: area.width,
        height: visible - main_height,
    };
    let interior = shrink(main_block, 1);
    proof {
        lemma_interior_on_grid(area);
    }
    let padding = centering_padding(interior.height);
    let below_padding: u16 = interior.height - padding;
    let gauge_height: u16 = if below_padding >= READOUT_HEIGHT {
        GAUGE_HEIGHT
    } else {
        0
    };
    let readout_height: u16 = if READOUT_HEIGHT <= below_padding - gauge_height {
        READOUT_HEIGHT
    } else {
        below_padding - gauge_height
    };
    let readout = Rect {
        x: interior.x,
        y: interior.y + padding,
        width: interior.width,
        height: readout_height,
    };
    let gauge = Rect {
        x: interior.x,
        y: interior.y + padding + readout_height,
        width: interior.width,
        height: gauge_height,
    };
    FrameLayout { main_block, footer, readout, gauge }
}

fn same_rect(left: Rect, right: Rect) -> (same: bool)
    ensures
        same == (left == right),
{
    left.x == right.x && left.y == right.y && left.width == right.width && left.height
        == right.height
}

/// Holds a layout against the model: the layout is handed on if it is the
/// one that the model gives for `area`, and not otherwise.
pub fn agreed_layout(solved: FrameLayout, area: Rect) -> (layout: Option<FrameLayout>)
    ensures
        layout == (if solved == layout_model(area) {
            Some(solved)
        } else {
            None
        }),
{
    let stacked = stacked_layout(area);
    if same_rect(solved.main_block, stacked.main_block) && same_rect(solved.footer, stacked.footer)
        && same_rect(solved.readout, stacked.readout) && same_rect(solved.gauge, stacked.gauge) {
        Some(solved)
    } else {
        None
    }
}

/// Lays the frame out with ratatui's solver, and hands the layout on where
/// the solver has settled on the layout of the model.
///
/// The area is split into the main block and the footer, and the main
/// block, inside a margin of one cell for its borders, into a padding, the
/// readout, the gauge and a padding. What the solver makes of that is its
/// own business; [`place_regions`] picks the regions out of its rows, and
/// [`agreed_layout`] holds them against the model: `None` says that the
/// solver has settled on other rows.
pub fn solved_layout(area: Rect) -> (layout: Option<FrameLayout>)
    ensures
        layout matches Some(solved) ==> solved == layout_model(area),
{
    let outer = split_rows(area, &outer_constraints(), 0);
    let padding = centering_padding(shrink(outer[0], 1).height);
    let inner = split_rows(outer[0], &inner_constraints(padding), 1);
    agreed_layout(place_regions(&outer, &inner), area)
}

/// Lays the frame out on `area`.
///
/// The footer takes the last three rows and the main block the rows above
/// it, its least three first where the area has not six; the readout and
/// the gauge stand inside the borders of the main block, centered between
/// its top and its bottom. The layout is the solver's where the solver
/// agrees with this, and is stacked by hand where it does not. Either way
/// it is a function of the area alone.
pub fn frame_layout(area: Rect) -> (layout: FrameLayout)
    ensures
        layout == layout_model(area),
{
    match solved_layout(area) {
        Some(layout) => layout,
        None => stacked_layout(area),
    }
}

/// A frame: what is shown and where.
#[derive(Clone, Debug, PartialEq, Eq)]
pub struct RenderFrame {
    pub content: FrameContent,
    pub layout: FrameLayout,
}

/// Projects a countdown onto a terminal area.
///
/// The frame is a function of the three numbers and the area alone: the
/// same countdown on the same terminal always gives the same frame.
pub fn render(elapsed: u64, remaining: u64, total: u64, area: Rect) -> (frame: RenderFrame)
    ensures
        frame.content@ == content_model(elapsed, remaining, total),
        frame.layout == layout_model(area),
{
    RenderFrame { content: frame_content(elapsed, remaining, total), layout: frame_layout(area) }
}

/// The main block begins at the top row of the area and spans its columns;
/// the footer lies right below it and spans them too; together they take
/// the rows of the area. Where the area has six rows or more, the footer
/// is its last three; where it has fewer, the main block takes its least
/// three before the footer takes any.
pub proof fn law_main_block_above_footer(area: Rect)
    ensures
        ({
            let layout = layout_model(area);
            &&& layout.main_block.x == area.x && layout.main_block.width == area.width
            &&& layout.footer.x == area.x && layout.footer.width == area.width
            &&& layout.main_block.y == area.y
            &&& layout.footer.y == layout.main_block.y + layout.main_block.height
            &&& layout.main_block.height + layout.footer.height == visible_rows(area)
            &&& area.y + area.height <= u16::MAX ==> visible_rows(area) == area.height
            &&& visible_rows(area) >= MAIN_MIN_HEIGHT + FOOTER_HEIGHT ==> layout.footer.height
                == FOOTER_HEIGHT && layout.main_block.height >= MAIN_MIN_HEIGHT
            &&& visible_rows(area) < MAIN_MIN_HEIGHT + FOOTER_HEIGHT ==> layout.footer.height
                < FOOTER_HEIGHT && (layout.footer.height > 0 ==> layout.main_block.height
                == MAIN_MIN_HEIGHT)
        }),
{
}

/// The gauge is right below the readout, and both lie inside the borders
/// of the main block and span the columns between them.
pub proof fn law_readout_and_gauge_inside_main_block(area: Rect)
    ensures
        ({
            let layout = layout_model(area);
            let interior = inner_area(layout.main_block, 1);
            &&& layout.readout.x == interior.x && layout.readout.width == interior.width
            &&& layout.gauge.x == interior.x && layout.gauge.width == interior.width
            &&& interior.y <= layout.readout.y
            &&& layout.gauge.y == layout.readout.y + layout.readout.height
            &&& layout.gauge.y + layout.gauge.height <= interior.y + interior.height
        }),
{
}

/// Where the main block has three rows or more inside its borders, the
/// readout has its two rows, the gauge its one, and the three are centered:
/// the rows left empty above them are the padding, and the rows left empty
/// below are as many, or one more.
pub proof fn law_readout_and_gauge_centered(area: Rect)
    requires
        area.width >= 2,
        visible_rows(area) >= FOOTER_HEIGHT + 2 + READOUT_HEIGHT + GAUGE_HEIGHT,
    ensures
        ({
            let layout = layout_model(area);
            let interior = inner_area(layout.main_block, 1);
            let above = layout.readout.y - interior.y;
            let below = interior.y + interior.height - (layout.gauge.y + layout.gauge.height);
            &&& interior.y == area.y + 1
            &&& interior.height == layout.main_block.height - 2
            &&& layout.readout.height == READOUT_HEIGHT
            &&& layout.gauge.height == GAUGE_HEIGHT
            &&& above == padding_model(interior.height)
            &&& below == above || below == above + 1
        }),
{
}

/// While the elapsed seconds are within the total, the remaining seconds
/// are exactly the total less the elapsed seconds, and the gauge is filled
/// by the remaining seconds over the total, or is full where the total is
/// zero. The fill is always a fraction between zero and one.
pub proof fn law_remaining_and_ratio(total: u64, elapsed: u64, state: ClockState)
    requires
        elapsed <= total,
    ensures
        ({
            let clock = ClockModel { total: total as nat, elapsed: elapsed as nat, state };
            let ratio = ratio_model(clock.remaining() as u64, total);
            &&& clock.remaining() == total - elapsed
            &&& total > 0 ==> ratio.numerator == total - elapsed && ratio.denominator == total
            &&& total == 0 ==> ratio.numerator == ratio.denominator
            &&& ratio.wf()
        }),
{
}

/// Whatever the remaining and the total seconds, the fill of the gauge is a
/// fraction between zero and one.
pub proof fn law_ratio_within_unit(remaining: u64, total: u64)
    ensures
        ratio_model(remaining, total).wf(),
{
}

} // verus!
