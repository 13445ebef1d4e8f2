//! Where the parts of the screen lie, and what lies at a position.

use crate::model::{ActiveTab, NetworkStateFilter};
use crate::window::{max_of, min_of};
use ratatui::layout::{Constraint, Direction, Layout};
use vstd::prelude::*;

verus! {

/// A rectangle of terminal cells.
#[derive(Debug, Clone, Copy, PartialEq, Eq, Structural)]
pub struct Rect {
    pub x: u16,
    pub y: u16,
    pub width: u16,
    pub height: u16,
}

/// A sum of two coordinates, held back at the greatest coordinate.
pub open spec fn plus(a: u16, b: u16) -> int {
    if a + b <= u16::MAX {
        a + b
    } else {
        u16::MAX as int
    }
}

impl Rect {
    /// The first column to the right of the rectangle.
    pub open spec fn right(self) -> int {
        plus(self.x, self.width)
    }

    /// The first row below the rectangle.
    pub open spec fn bottom(self) -> int {
        plus(self.y, self.height)
    }

    /// The rectangle at a corner with the given size, cut off at the greatest coordinates.
    pub open spec fn of(x: int, y: int, width: int, height: int) -> Rect {
        Rect {
            x: x as u16,
            y: y as u16,
            width: (if x + width <= u16::MAX {
                width
            } else {
                u16::MAX - x
            }) as u16,
            height: (if y + height <= u16::MAX {
                height
            } else {
                u16::MAX - y
            }) as u16,
        }
    }

    /// Makes the rectangle at a corner with the given size, cut off at the greatest
    /// coordinates.
    pub fn new(x: u16, y: u16, width: u16, height: u16) -> (r: Self)
        ensures
            r == Rect::of(x as int, y as int, width as int, height as int),
    {
        Rect {
            x,
            y,
            width: x.saturating_add(width) - x,
            height: y.saturating_add(height) - y,
        }
    }

    /// Whether a cell lies in the rectangle.
    pub open spec fn holds(self, x: int, y: int) -> bool {
        self.x <= x < self.right() && self.y <= y < self.bottom()
    }
}

/// The direction in which an area is split.
#[derive(Debug, Clone, Copy, PartialEq, Eq, Structural)]
pub enum Axis {
    Vertical,
    Horizontal,
}

/// How much of an area a part is to get.
#[derive(Debug, Clone, Copy, PartialEq, Eq, Structural)]
pub enum SizeRule {
    Length(u16),
    Min(u16),
    Percentage(u16),
}

/// Whether `part` is a piece of `area` that spans it across the axis.
pub open spec fn is_piece(area: Rect, axis: Axis, part: Rect) -> bool {
    match axis {
        Axis::Vertical => {
            &&& part.x == area.x && part.width == area.width
            &&& area.y <= part.y && part.y + part.height <= area.bottom()
        },
        Axis::Horizontal => {
            &&& part.y == area.y && part.height == area.height
            &&& area.x <= part.x && part.x + part.width <= area.right()
        },
    }
}

/// What a rule asks for of a length, in hundredths of a cell; `Min` asks for what is left.
pub open spec fn asked(rule: SizeRule, length: int) -> int {
    match rule {
        SizeRule::Length(n) => 100 * n,
        SizeRule::Min(_) => 0,
        SizeRule::Percentage(p) => p * length,
    }
}

/// What all rules but `Min` ask for of a length.
pub open spec fn asked_in_all(rules: Seq<SizeRule>, length: int) -> int
    decreases rules.len(),
{
    if rules.len() == 0 {
        0
    } else {
        asked_in_all(rules.drop_last(), length) + asked(rules.last(), length)
    }
}

/// Whether all rules can be met at once; at most one of them may be a `Min`.
pub open spec fn can_be_met(rules: Seq<SizeRule>, length: int) -> bool {
    &&& asked_in_all(rules, length) <= 100 * length
    &&& forall|i: int|
        0 <= i < rules.len() ==> match #[trigger] rules[i] {
            SizeRule::Min(m) => {
                &&& m <= 0x7fff
                &&& asked_in_all(rules, length) + 100 * m <= 100 * length
            },
            _ => true,
        }
    &&& forall|i: int, j: int|
        0 <= i < j < rules.len() ==> !(#[trigger] rules[i] is Min && #[trigger] rules[j] is Min)
}

/// How far the end of the first `count` parts lies from the start, in hundredths of a cell.
pub open spec fn reach(rules: Seq<SizeRule>, length: int, count: int) -> int
    decreases count,
{
    if count <= 0 {
        0
    } else {
        reach(rules, length, count - 1) + match rules[count - 1] {
            SizeRule::Min(_) => 100 * length - asked_in_all(rules, length),
            rule => asked(rule, length),
        }
    }
}

/// How far the end of the first `count` parts lies from the start, in whole cells.
pub open spec fn edge(rules: Seq<SizeRule>, length: int, count: int) -> int {
    (reach(rules, length, count) + 50) / 100
}

/// The length of an area along an axis.
pub open spec fn extent(area: Rect, axis: Axis) -> int {
    match axis {
        Axis::Vertical => area.bottom() - area.y,
        Axis::Horizontal => area.right() - area.x,
    }
}

/// The piece of an area between two distances from its start.
pub open spec fn piece(area: Rect, axis: Axis, from: int, to: int) -> Rect {
    match axis {
        Axis::Vertical => Rect {
            x: area.x,
            y: (area.y + from) as u16,
            width: area.width,
            height: (to - from) as u16,
        },
        Axis::Horizontal => Rect {
            x: (area.x + from) as u16,
            y: area.y,
            width: (to - from) as u16,
            height: area.height,
        },
    }
}

/// Where a rectangle begins and ends along an axis.
pub open spec fn span(area: Rect, axis: Axis) -> (int, int) {
    match axis {
        Axis::Vertical => (area.y as int, area.y + area.height),
        Axis::Horizontal => (area.x as int, area.x + area.width),
    }
}

/// Whether parts follow each other along an axis from the start of an area on, without gaps.
pub open spec fn follow_each_other(area: Rect, axis: Axis, parts: Seq<Rect>) -> bool {
    &&& parts.len() > 0 ==> span(parts[0], axis).0 == span(area, axis).0
    &&& forall|i: int|
        0 < i < parts.len() ==> span(#[trigger] parts[i], axis).0 == span(parts[i - 1], axis).1
}

/// Whether there are at most four rules, and none of them is a percentage.
pub open spec fn are_few_lengths(rules: Seq<SizeRule>) -> bool {
    rules.len() <= 4 && forall|i: int|
        0 <= i < rules.len() ==> !(#[trigger] rules[i] is Percentage)
}

/// Whether a rule is the only `Min` among the rules, and its bound fits in an `i16`, as which
/// the solver takes it.
pub open spec fn is_only_min(rules: Seq<SizeRule>, i: int) -> bool {
    &&& rules[i] matches SizeRule::Min(m) && m <= 0x7fff
    &&& forall|j: int| 0 <= j < rules.len() && j != i ==> !(#[trigger] rules[j] is Min)
}

/// Whether the rules are two equal lengths, a `Min` that is no smaller than any of the lengths,
/// and another length.
pub open spec fn is_page(rules: Seq<SizeRule>) -> bool {
    rules.len() == 4 && match (rules[0], rules[1], rules[2], rules[3]) {
        (
            SizeRule::Length(a),
            SizeRule::Length(b),
            SizeRule::Min(m),
            SizeRule::Length(c),
        ) => a == b && a <= m && c <= m && m <= 0x7fff,
        _ => false,
    }
}

/// Where the parts of a page begin and end that gets too little room: the `Min` is served
/// first, then the last length, and the first two share the rest.
pub open spec fn page_edges(least: int, last: int, length: int) -> Seq<int> {
    let page = min_of(length, least);
    let foot = min_of(length - page, last);
    let head = length - page - foot;
    seq![0, (head + 1) / 2, head, head + page, length]
}

/// `ratatui::layout::Layout::split` cuts an area into one part per rule, along the axis.
///
/// Every part spans the area across the axis and lies within it along the axis, as the
/// solver's required constraints demand. Where all rules can be met, they are: a length and
/// a percentage are weighed far above any wish to grow, the parts follow each other without
/// a gap, and one `Min` outweighs the room behind the last part. The edges are found in
/// hundredths of a cell and rounded.
///
/// Where the rules cannot all be met, the weights of the wishes decide. The following is stated
/// for a few rules in whole cells, whose edges cannot fall on the border between two roundings.
/// A gap or an overlap is weighed above every rule, so that the parts follow each other. Every
/// rule is weighed above the room behind the last part, so that the area is filled. A `Min` is
/// weighed ten times a length, so that it gets what it asks for before any length gets
/// something, and no more. Lengths are weighed alike; between them the wish of neighbours to be
/// equal decides. On a page the part behind the `Min` and the part before it both want to grow
/// towards it, and the first two parts towards each other. The least sum of differences is
/// reached only where the last part gets all it asks for and the first two are equal.
/// How other rows of lengths share too little room is not stated.
#[verifier::external_body]
fn split_area(area: Rect, axis: Axis, rules: &Vec<SizeRule>) -> (parts: Vec<Rect>)
    ensures
        parts.len() == rules.len(),
        forall|i: int| 0 <= i < parts.len() ==> is_piece(area, axis, #[trigger] parts@[i]),
        are_few_lengths(rules@) ==> follow_each_other(area, axis, parts@),
        are_few_lengths(rules@) ==> (!can_be_met(rules@, extent(area, axis)) ==> span(
            parts@.last(),
            axis,
        ).1 == span(area, axis).0 + extent(area, axis)),
        forall|i: int|
            0 <= i < parts.len() ==> (are_few_lengths(rules@) && is_only_min(rules@, i)
                && !can_be_met(rules@, extent(area, axis)) ==> extent(#[trigger] parts@[i], axis)
                == min_of(extent(area, axis), rules@[i]->Min_0 as int)),
        forall|i: int|
            0 <= i < parts.len() ==> (is_page(rules@) && !can_be_met(rules@, extent(area, axis))
                ==> #[trigger] parts@[i] == piece(
                area,
                axis,
                page_edges(
                    rules@[2]->Min_0 as int,
                    rules@[3]->Length_0 as int,
                    extent(area, axis),
                )[i],
                page_edges(
                    rules@[2]->Min_0 as int,
                    rules@[3]->Length_0 as int,
                    extent(area, axis),
                )[i + 1],
            )),
        can_be_met(rules@, extent(area, axis)) ==> forall|i: int|
            0 <= i < parts.len() ==> #[trigger] parts@[i] == piece(
                area,
                axis,
                edge(rules@, extent(area, axis), i),
                edge(rules@, extent(area, axis), i + 1),
            ),
{
    let to_rule = |rule: &SizeRule| match rule {
        SizeRule::Length(n) => Constraint::Length(*n),
        SizeRule::Min(n) => Constraint::Min(*n),
        SizeRule::Percentage(n) => Constraint::Percentage(*n),
    };
    let direction = match axis {
        Axis::Vertical => Direction::Vertical,
        Axis::Horizontal => Direction::Horizontal,
    };
    let Rect { x, y, width, height } = area;
    let layout = Layout::new(direction, rules.iter().map(to_rule));
    let parts = layout.split(ratatui::layout::Rect { x, y, width, height });
    parts.iter().map(|p| Rect { x: p.x, y: p.y, width: p.width, height: p.height }).collect()
}

/// The area inside a border of one cell.
pub open spec fn inside_border(area: Rect) -> Rect {
    Rect {
        x: (if plus(area.x, 1) <= area.right() {
            plus(area.x, 1)
        } else {
            area.right()
        }) as u16,
        y: (if plus(area.y, 1) <= area.bottom() {
            plus(area.y, 1)
        } else {
            area.bottom()
        }) as u16,
        width: (if area.width >= 2 {
            area.width - 2
        } else {
            0
        }) as u16,
        height: (if area.height >= 2 {
            area.height - 2
        } else {
            0
        }) as u16,
    }
}

/// `ratatui::widgets::Block::inner` of a block with all borders, no title, and no padding:
/// one cell less on each side, with the corner kept within the area and its far edges.
#[verifier::external_body]
fn bordered_inner(area: Rect) -> (inner: Rect)
    ensures
        inner == inside_border(area),
{
    let Rect { x, y, width, height } = area;
    let block = ratatui::widgets::Block::default().borders(ratatui::widgets::Borders::ALL);
    let inner = block.inner(ratatui::layout::Rect { x, y, width, height });
    Rect { x: inner.x, y: inner.y, width: inner.width, height: inner.height }
}

/// Whether a text is made of printable ASCII characters.
pub open spec fn is_printable_ascii(text: Seq<char>) -> bool {
    forall|i: int| 0 <= i < text.len() ==> ' ' <= #[trigger] text[i] <= '~'
}

/// `ratatui::text::Line::width` of a line of printable ASCII: one cell per character.
#[verifier::external_body]
fn line_width(text: &str) -> (width: usize)
    requires
        is_printable_ascii(text@),
    ensures
        width == text@.len(),
{
    ratatui::text::Line::from(text).width()
}

/// Where the bands of a screen begin and end: three rows for the summary, three for the tabs,
/// five for the footer, and the others for the body. Too low a screen keeps ten rows for the
/// body first, then five for the footer, and the summary and the tabs share the rest.
pub open spec fn band_edges(height: int) -> Seq<int> {
    if height >= 21 {
        seq![0, 3, 6, height - 5, height]
    } else {
        page_edges(10, 5, height)
    }
}

/// The four bands of the screen: summary, tabs, body, and footer.
pub fn root_sections(area: Rect) -> (r: [Rect; 4])
    ensures
        ({
            let edges = band_edges(extent(area, Axis::Vertical));
            &&& r@[0] == piece(area, Axis::Vertical, edges[0], edges[1])
            &&& r@[1] == piece(area, Axis::Vertical, edges[1], edges[2])
            &&& r@[2] == piece(area, Axis::Vertical, edges[2], edges[3])
            &&& r@[3] == piece(area, Axis::Vertical, edges[3], edges[4])
        }),
{
    let rules = vec![
        SizeRule::Length(3),
        SizeRule::Length(3),
        SizeRule::Min(10),
        SizeRule::Length(5),
    ];
    proof {
        reveal_with_fuel(asked_in_all, 5);
        reveal_with_fuel(reach, 5);
    }
    let parts = split_area(area, Axis::Vertical, &rules);
    [parts[0], parts[1], parts[2], parts[3]]
}

/// The two panes of a page: the list and the details.
pub fn body_sections(area: Rect) -> (r: [Rect; 2])
    ensures
        ({
            let width = extent(area, Axis::Horizontal);
            let middle = (64 * width + 50) / 100;
            &&& r@[0] == piece(area, Axis::Horizontal, 0, middle)
            &&& r@[1] == piece(area, Axis::Horizontal, middle, width)
        }),
{
    let rules = vec![SizeRule::Percentage(64), SizeRule::Percentage(36)];
    proof {
        reveal_with_fuel(asked_in_all, 3);
        reveal_with_fuel(reach, 3);
    }
    let parts = split_area(area, Axis::Horizontal, &rules);
    [parts[0], parts[1]]
}

/// The four cards of the summary, side by side.
pub fn summary_sections(area: Rect) -> (r: [Rect; 4])
    ensures
        ({
            let width = extent(area, Axis::Horizontal);
            let first = (25 * width + 50) / 100;
            let second = (50 * width + 50) / 100;
            let third = (75 * width + 50) / 100;
            &&& r@[0] == piece(area, Axis::Horizontal, 0, first)
            &&& r@[1] == piece(area, Axis::Horizontal, first, second)
            &&& r@[2] == piece(area, Axis::Horizontal, second, third)
            &&& r@[3] == piece(area, Axis::Horizontal, third, width)
        }),
{
    let rules = vec![
        SizeRule::Percentage(25),
        SizeRule::Percentage(25),
        SizeRule::Percentage(25),
        SizeRule::Percentage(25),
    ];
    proof {
        reveal_with_fuel(asked_in_all, 5);
        reveal_with_fuel(reach, 5);
    }
    let parts = split_area(area, Axis::Horizontal, &rules);
    [parts[0], parts[1], parts[2], parts[3]]
}

/// The parts of the performance page: two charts, one above the other, and the figures beside
/// them.
pub fn performance_sections(area: Rect) -> (r: [Rect; 3])
    ensures
        ({
            let width = extent(area, Axis::Horizontal);
            let middle = (65 * width + 50) / 100;
            let charts = piece(area, Axis::Horizontal, 0, middle);
            let height = extent(charts, Axis::Vertical);
            let half = (50 * height + 50) / 100;
            &&& r@[0] == piece(charts, Axis::Vertical, 0, half)
            &&& r@[1] == piece(charts, Axis::Vertical, half, height)
            &&& r@[2] == piece(area, Axis::Horizontal, middle, width)
        }),
{
    let columns = vec![SizeRule::Percentage(65), SizeRule::Percentage(35)];
    let rows = vec![SizeRule::Percentage(50), SizeRule::Percentage(50)];
    proof {
        reveal_with_fuel(asked_in_all, 3);
        reveal_with_fuel(reach, 3);
    }
    let panes = split_area(area, Axis::Horizontal, &columns);
    let charts: Rect = panes[0];
    let parts = split_area(charts, Axis::Vertical, &rows);
    [parts[0], parts[1], panes[1]]
}

/// The height of the filter bar over the list of endpoints: three rows, but the table keeps
/// five first.
pub open spec fn bar_height(height: int) -> int {
    max_of(min_of(height - 5, 3), 0)
}

/// The two parts of the list of endpoints: the filter bar and the table.
pub fn network_list_sections(area: Rect) -> (r: [Rect; 2])
    ensures
        ({
            let height = extent(area, Axis::Vertical);
            &&& r@[0] == piece(area, Axis::Vertical, 0, bar_height(height))
            &&& r@[1] == piece(area, Axis::Vertical, bar_height(height), height)
        }),
{
    let rules = vec![SizeRule::Length(3), SizeRule::Min(5)];
    proof {
        reveal_with_fuel(asked_in_all, 3);
        reveal_with_fuel(reach, 3);
    }
    let parts = split_area(area, Axis::Vertical, &rules);
    [parts[0], parts[1]]
}

/// Where the middle percentage of a length begins and ends.
pub open spec fn middle_from(length: int, percent: int) -> int {
    (((100 - percent) / 2) * length + 50) / 100
}

pub open spec fn middle_to(length: int, percent: int) -> int {
    (((100 - percent) / 2 + percent) * length + 50) / 100
}

/// The middle of an area, with the given percentages of its width and height.
pub open spec fn centered(area: Rect, width_percent: int, height_percent: int) -> Rect {
    let height = extent(area, Axis::Vertical);
    let band = piece(
        area,
        Axis::Vertical,
        middle_from(height, height_percent),
        middle_to(height, height_percent),
    );
    let width = extent(band, Axis::Horizontal);
    piece(
        band,
        Axis::Horizontal,
        middle_from(width, width_percent),
        middle_to(width, width_percent),
    )
}

/// The rules for the middle percentage can be met.
proof fn lemma_middle_can_be_met(rules: Seq<SizeRule>, length: int, percent: u16, gap: u16)
    requires
        0 <= length,
        percent <= 100,
        gap == (100 - percent) / 2,
        rules == seq![
            SizeRule::Percentage(gap),
            SizeRule::Percentage(percent),
            SizeRule::Percentage(gap),
        ],
    ensures
        can_be_met(rules, length),
        edge(rules, length, 1) == middle_from(length, percent as int),
        edge(rules, length, 2) == middle_to(length, percent as int),
{
    reveal_with_fuel(asked_in_all, 4);
    reveal_with_fuel(reach, 4);
    let total = gap + percent + gap;
    assert(total <= 100);
    assert(rules.drop_last() == seq![SizeRule::Percentage(gap), SizeRule::Percentage(percent)]);
    assert(rules.drop_last().drop_last() == seq![SizeRule::Percentage(gap)]);
    assert(asked_in_all(rules, length) == total * length) by (nonlinear_arith)
        requires
            total == gap + percent + gap,
            asked_in_all(rules, length) == gap * length + percent * length + gap * length,
    ;
    assert(total * length <= 100 * length) by (nonlinear_arith)
        requires
            total <= 100,
            0 <= length,
    ;
    assert(gap * length + percent * length == (gap + percent) * length) by (nonlinear_arith);
}

/// The middle of an area, with the given percentages of its width and height.
pub fn centered_rect(area: Rect, width_percent: u16, height_percent: u16) -> (r: Rect)
    requires
        width_percent <= 100,
        height_percent <= 100,
    ensures
        r == centered(area, width_percent as int, height_percent as int),
{
    let vertical_gap: u16 = (100 - height_percent) / 2;
    let rows = vec![
        SizeRule::Percentage(vertical_gap),
        SizeRule::Percentage(height_percent),
        SizeRule::Percentage(vertical_gap),
    ];
    let vertical = split_area(area, Axis::Vertical, &rows);
    let band: Rect = vertical[1];
    let horizontal_gap: u16 = (100 - width_percent) / 2;
    let columns = vec![
        SizeRule::Percentage(horizontal_gap),
        SizeRule::Percentage(width_percent),
        SizeRule::Percentage(horizontal_gap),
    ];
    let parts = split_area(band, Axis::Horizontal, &columns);
    proof {
        lemma_middle_can_be_met(
            rows@,
            extent(area, Axis::Vertical),
            height_percent,
            vertical_gap,
        );
        lemma_middle_can_be_met(
            columns@,
            extent(band, Axis::Horizontal),
            width_percent,
            horizontal_gap,
        );
    }
    parts[1]
}

/// The height of a context menu with the given number of entries, before it is fitted to
/// the screen.
pub open spec fn menu_height(items: int) -> int {
    let wanted = plus((items % 0x1_0000) as u16, 2);
    if wanted < 6 {
        6
    } else if wanted > 16 {
        16
    } else {
        wanted
    }
}

/// The place of a context menu: centred, 34 cells wide, cut to the screen.
pub open spec fn menu_area(area: Rect, items: int) -> Rect {
    let height = menu_height(items);
    let width = 34int;
    let spare_height = if area.height > height {
        area.height - height
    } else {
        0
    };
    let spare_width = if area.width > width {
        area.width - width
    } else {
        0
    };
    Rect::of(
        plus(area.x, (spare_width / 2) as u16),
        plus(area.y, (spare_height / 2) as u16),
        if width < area.width {
            width
        } else {
            area.width as int
        },
        if height < area.height {
            height
        } else {
            area.height as int
        },
    )
}

/// The place of a context menu with the given number of entries.
pub fn context_menu_area(area: Rect, items: usize) -> (r: Rect)
    ensures
        r == menu_area(area, items as int),
{
    let count: u16 = (items % 0x1_0000) as u16;
    let wanted: u16 = count.saturating_add(2);
    let height: u16 = if wanted < 6 {
        6
    } else if wanted > 16 {
        16
    } else {
        wanted
    };
    let width: u16 = 34;
    let y: u16 = area.y.saturating_add(area.height.saturating_sub(height) / 2);
    let x: u16 = area.x.saturating_add(area.width.saturating_sub(width) / 2);
    let fitted_width: u16 = if width < area.width {
        width
    } else {
        area.width
    };
    let fitted_height: u16 = if height < area.height {
        height
    } else {
        area.height
    };
    Rect::new(x, y, fitted_width, fitted_height)
}

/// A context menu lies on the screen.
pub proof fn menu_lies_on_screen(area: Rect, items: int)
    requires
        0 <= items,
        area.x + area.width <= u16::MAX,
        area.y + area.height <= u16::MAX,
    ensures
        ({
            let menu = menu_area(area, items);
            &&& area.x <= menu.x && menu.x + menu.width <= area.x + area.width
            &&& area.y <= menu.y && menu.y + menu.height <= area.y + area.height
        }),
{
}

/// Whether a cell lies in an area.
pub fn contains_point(area: Rect, x: u16, y: u16) -> (r: bool)
    ensures
        r == area.holds(x as int, y as int),
{
    x >= area.x && x < area.x.saturating_add(area.width) && y >= area.y && y
        < area.y.saturating_add(area.height)
}

/// The entry of a bordered list at a row of the screen; a table has a header row on top.
pub open spec fn bordered_index(area: Rect, row: int, has_header: bool) -> Option<usize> {
    let top = plus(
        area.y,
        if has_header {
            2
        } else {
            1
        },
    );
    let below = plus(
        area.y,
        (if area.height >= 1 {
            area.height - 1
        } else {
            0
        }) as u16,
    );
    if top <= row < below {
        Some((row - top) as usize)
    } else {
        None
    }
}

/// The entry of a bordered list at a row of the screen.
pub fn list_index_at_row(area: Rect, row: u16, has_header: bool) -> (r: Option<usize>)
    ensures
        r == bordered_index(area, row as int, has_header),
{
    let header: u16 = if has_header {
        2
    } else {
        1
    };
    let top: u16 = area.y.saturating_add(header);
    let below: u16 = area.y.saturating_add(area.height.saturating_sub(1));
    if row < top || row >= below {
        None
    } else {
        Some((row - top) as usize)
    }
}

/// The entry of a list without borders at a row of the screen.
pub open spec fn plain_index(area: Rect, row: int) -> Option<usize> {
    if area.y <= row < area.bottom() {
        Some((row - area.y) as usize)
    } else {
        None
    }
}

/// The entry of a list without borders at a row of the screen.
pub fn plain_list_index_at_row(area: Rect, row: u16) -> (r: Option<usize>)
    ensures
        r == plain_index(area, row as int),
{
    let below: u16 = area.y.saturating_add(area.height);
    if row < area.y || row >= below {
        None
    } else {
        Some((row - area.y) as usize)
    }
}

/// The width of a tab: its title with a space on either side.
pub open spec fn tab_width(index: int) -> int {
    if index == 0 {
        11
    } else if index == 1 {
        13
    } else if index == 2 {
        10
    } else {
        9
    }
}

/// How far a tab lies from the first one.
pub open spec fn tab_distance(index: int) -> int {
    if index <= 0 {
        0
    } else if index == 1 {
        11
    } else if index == 2 {
        24
    } else if index == 3 {
        34
    } else {
        43
    }
}

/// How many tabs there is room for, if only in part.
pub open spec fn tab_count(inner: Rect) -> int {
    let room = inner.right() - inner.x;
    if inner.width == 0 || inner.height == 0 || room <= 0 {
        0
    } else if room <= 11 {
        1
    } else if room <= 24 {
        2
    } else if room <= 34 {
        3
    } else {
        4
    }
}

/// The place of a tab inside the tab bar: beside the one before it, cut to the room left.
pub open spec fn tab_area(inner: Rect, index: int) -> Rect {
    let start = inner.x + tab_distance(index);
    let room = inner.right() - start;
    Rect::of(
        start,
        inner.y as int,
        if tab_width(index) <= room {
            tab_width(index)
        } else {
            room
        },
        inner.height as int,
    )
}

/// The titles of the tabs are printable, and as wide as `tab_width` says.
proof fn lemma_tab_titles(index: int)
    requires
        0 <= index < 4,
    ensures
        is_printable_ascii(ActiveTab::at_place(index).name()),
        ActiveTab::at_place(index).name().len() + 2 == tab_width(index),
{
    reveal_strlit("Processes");
    reveal_strlit("Performance");
    reveal_strlit("Services");
    reveal_strlit("Network");
}

/// The places of the tabs in the tab bar, as far as there is room.
pub fn tabs_hit_areas(area: Rect) -> (r: Vec<Rect>)
    ensures
        r.len() == tab_count(inside_border(area)),
        forall|i: int| 0 <= i < r.len() ==> #[trigger] r@[i] == tab_area(inside_border(area), i),
{
    let inner: Rect = bordered_inner(area);
    let mut areas: Vec<Rect> = Vec::new();
    if inner.width == 0 || inner.height == 0 {
        return areas;
    }
    let right: u16 = inner.x.saturating_add(inner.width);
    let mut cursor: u16 = inner.x;
    let mut index: usize = 0;
    while index < 4 && cursor < right
        invariant
            index <= 4,
            inner == inside_border(area),
            inner.width > 0 && inner.height > 0,
            right == inner.right(),
            inner.x <= cursor <= right,
            areas.len() == index,
            cursor == inner.x + tab_distance(index as int) || (cursor == right && inner.x
                + tab_distance(index as int) >= right),
            index > 0 ==> inner.x + tab_distance(index - 1) < right,
            forall|i: int| 0 <= i < areas.len() ==> #[trigger] areas@[i] == tab_area(inner, i),
        decreases 4 - index,
    {
        let tab: ActiveTab = ActiveTab::from_index(index);
        proof {
            lemma_tab_titles(index as int);
        }
        let width: u16 = (line_width(tab.title()) as u16).saturating_add(2);
        let remaining: u16 = right - cursor;
        let actual: u16 = if width < remaining {
            width
        } else {
            remaining
        };
        areas.push(Rect::new(cursor, inner.y, actual, inner.height));
        cursor = cursor.saturating_add(actual);
        index = index + 1;
    }
    areas
}

/// The tab at a column of the tab bar.
pub open spec fn tab_at(inner: Rect, x: int) -> Option<ActiveTab> {
    let from_left = x - inner.x;
    if inner.width == 0 || inner.height == 0 || x < inner.x || x >= inner.right() {
        None
    } else if from_left < 11 {
        Some(ActiveTab::Processes)
    } else if from_left < 24 {
        Some(ActiveTab::Performance)
    } else if from_left < 34 {
        Some(ActiveTab::Services)
    } else if from_left < 43 {
        Some(ActiveTab::Network)
    } else {
        None
    }
}

/// The tab at a column of the tab bar.
pub fn tab_at_position(area: Rect, x: u16) -> (r: Option<ActiveTab>)
    ensures
        r == tab_at(inside_border(area), x as int),
{
    let areas = tabs_hit_areas(area);
    let ghost inner = inside_border(area);
    let mut index: usize = 0;
    while index < areas.len()
        invariant
            index <= areas.len(),
            inner == inside_border(area),
            areas.len() == tab_count(inner),
            forall|i: int| 0 <= i < areas.len() ==> #[trigger] areas@[i] == tab_area(inner, i),
            x < inner.x || x >= inner.x + tab_distance(index as int) || x >= inner.right()
                || index == 0,
        decreases areas.len() - index,
    {
        let tab: Rect = areas[index];
        assert(tab == tab_area(inner, index as int));
        if x >= tab.x && x < tab.x.saturating_add(tab.width) {
            return Some(ActiveTab::from_index(index));
        }
        index = index + 1;
    }
    None
}

/// The rows of the two lists of the grouped processes, and of their headers.
///
/// The header of the apps comes first, then their list, then the header and the list of the
/// background processes; the lists share what the headers leave. An area that is too low for
/// both lists gets one header row and no rows for the lists. Of an area that reaches beyond
/// the greatest coordinate only pieces come out: there is not room for both lists.
pub fn grouped_process_sections(area: Rect) -> (r: (Rect, Rect, Rect, Rect))
    ensures
        ({
            let inner = inside_border(area);
            if inner.height < 4 {
                let empty = Rect::of(inner.x as int, plus(inner.y, 1), inner.width as int, 0);
                &&& r.0 == Rect::of(
                    inner.x as int,
                    inner.y as int,
                    inner.width as int,
                    if inner.height < 1 {
                        0
                    } else {
                        1
                    },
                )
                &&& r.1 == empty && r.2 == empty && r.3 == empty
            } else if inner.y + inner.height > u16::MAX {
                &&& is_piece(inner, Axis::Vertical, r.0) && is_piece(inner, Axis::Vertical, r.1)
                &&& is_piece(inner, Axis::Vertical, r.2) && is_piece(inner, Axis::Vertical, r.3)
                &&& follow_each_other(inner, Axis::Vertical, seq![r.0, r.1, r.2, r.3])
                &&& span(r.3, Axis::Vertical).1 == u16::MAX
            } else {
                let height = inner.height as int;
                let half = (height - 2) / 2;
                &&& r.0 == piece(inner, Axis::Vertical, 0, 1)
                &&& r.1 == piece(inner, Axis::Vertical, 1, 1 + half)
                &&& r.2 == piece(inner, Axis::Vertical, 1 + half, 2 + half)
                &&& r.3 == piece(inner, Axis::Vertical, 2 + half, height)
            }
        }),
{
    let inner: Rect = bordered_inner(area);
    if inner.height < 4 {
        let header: u16 = if inner.height < 1 {
            inner.height
        } else {
            1
        };
        let empty: Rect = Rect::new(inner.x, inner.y.saturating_add(1), inner.width, 0);
        return (Rect::new(inner.x, inner.y, inner.width, header), empty, empty, empty);
    }
    let remaining: u16 = inner.height - 2;
    let apps_height: u16 = remaining / 2;
    let background_height: u16 = remaining - apps_height;
    let rules = vec![
        SizeRule::Length(1),
        SizeRule::Length(apps_height),
        SizeRule::Length(1),
        SizeRule::Length(background_height),
    ];
    proof {
        reveal_with_fuel(asked_in_all, 5);
        reveal_with_fuel(reach, 5);
    }
    let parts = split_area(inner, Axis::Vertical, &rules);
    assert(parts@ =~= seq![parts[0], parts[1], parts[2], parts[3]]);
    (parts[0], parts[1], parts[2], parts[3])
}

/// The filter at a column of the filter bar: each of the three has a third of the room
/// inside the border.
pub open spec fn filter_at(area: Rect, x: int) -> Option<NetworkStateFilter> {
    let left = plus(area.x, 1);
    let right = plus(
        area.x,
        (if area.width >= 1 {
            area.width - 1
        } else {
            0
        }) as u16,
    );
    if area.width <= 2 || x < left || x >= right {
        None
    } else {
        let bucket = ((x - left) * 3) / (area.width - 2);
        if bucket == 0 {
            Some(NetworkStateFilter::All)
        } else if bucket == 1 {
            Some(NetworkStateFilter::Listening)
        } else {
            Some(NetworkStateFilter::Established)
        }
    }
}

/// The filter at a column of the filter bar.
pub fn network_filter_at_position(area: Rect, x: u16) -> (r: Option<NetworkStateFilter>)
    ensures
        r == filter_at(area, x as int),
{
    if area.width <= 2 || x < area.x.saturating_add(1) || x >= area.x.saturating_add(
        area.width - 1,
    ) {
        return None;
    }
    let inner: u32 = (area.width - 2) as u32;
    let relative: u32 = (x - area.x.saturating_add(1)) as u32;
    let bucket: u32 = (relative * 3) / inner;
    if bucket == 0 {
        Some(NetworkStateFilter::All)
    } else if bucket == 1 {
        Some(NetworkStateFilter::Listening)
    } else {
        Some(NetworkStateFilter::Established)
    }
}

/// Rectangles that end within the coordinates: the piece between two rows or columns lies there
/// and spans the area across, the length is the height or the width, a cell lies in an area if
/// its row and column do, and the inside of a border is one cell smaller on each side.
pub proof fn areas_are_measured_in_cells(area: Rect, from: int, to: int, x: int, y: int)
    requires
        area.x + area.width <= u16::MAX,
        area.y + area.height <= u16::MAX,
        0 <= from <= to,
    ensures
        extent(area, Axis::Vertical) == area.height,
        extent(area, Axis::Horizontal) == area.width,
        to <= area.height ==> {
            let part = piece(area, Axis::Vertical, from, to);
            part.x == area.x && part.width == area.width && part.y == area.y + from && part.height
                == to - from
        },
        to <= area.width ==> {
            let part = piece(area, Axis::Horizontal, from, to);
            part.y == area.y && part.height == area.height && part.x == area.x + from && part.width
                == to - from
        },
        area.holds(x, y) <==> area.x <= x < area.x + area.width && area.y <= y < area.y
            + area.height,
        area.width >= 2 && area.height >= 2 ==> inside_border(area) == (Rect {
            x: (area.x + 1) as u16,
            y: (area.y + 1) as u16,
            width: (area.width - 2) as u16,
            height: (area.height - 2) as u16,
        }),
        area.width < 2 ==> inside_border(area).width == 0,
        area.height < 2 ==> inside_border(area).height == 0,
        Rect::of(area.x as int, area.y as int, area.width as int, area.height as int) == area,
{
}

/// A screen of at least 21 rows gives three to the summary, three to the tabs, and five to the
/// footer, and the others to the body. A lower one gives the body up to ten rows, then the
/// footer up to five, and halves the rest between the summary and the tabs, with an odd row for
/// the summary. The filter bar has three rows, as far as five are left for the endpoints.
pub proof fn bands_have_their_heights(height: int)
    requires
        0 <= height,
    ensures
        ({
            let edges = band_edges(height);
            let summary = edges[1] - edges[0];
            let tabs = edges[2] - edges[1];
            let body = edges[3] - edges[2];
            let footer = edges[4] - edges[3];
            &&& edges[0] == 0 && summary + tabs + body + footer == height
            &&& height >= 21 ==> summary == 3 && tabs == 3 && footer == 5
            &&& 15 <= height < 21 ==> body == 10 && footer == 5 && (summary == tabs || summary
                == tabs + 1)
            &&& 10 <= height < 15 ==> body == 10 && summary == 0 && tabs == 0
            &&& height < 10 ==> body == height && summary == 0 && tabs == 0
        }),
        height >= 8 ==> bar_height(height) == 3,
        5 <= height < 8 ==> bar_height(height) == height - 5,
        height < 5 ==> bar_height(height) == 0,
{
}

/// A dialog lies in the middle of the screen: the room beside it is halved, rounded down to whole
/// percents, and its edges lie on the nearest cells.
pub proof fn dialogs_lie_in_the_middle(area: Rect, width_percent: int, height_percent: int)
    requires
        area.x + area.width <= u16::MAX,
        area.y + area.height <= u16::MAX,
        0 <= width_percent <= 100,
        0 <= height_percent <= 100,
    ensures
        ({
            let r = centered(area, width_percent, height_percent);
            let left = (100 - width_percent) / 2;
            let top = (100 - height_percent) / 2;
            &&& r.x == area.x + (left * area.width + 50) / 100
            &&& r.x + r.width == area.x + ((left + width_percent) * area.width + 50) / 100
            &&& r.y == area.y + (top * area.height + 50) / 100
            &&& r.y + r.height == area.y + ((top + height_percent) * area.height + 50) / 100
            &&& area.x <= r.x && r.x + r.width <= area.x + area.width
            &&& area.y <= r.y && r.y + r.height <= area.y + area.height
        }),
{
    let (w, h) = (area.width as int, area.height as int);
    let left = (100 - width_percent) / 2;
    let top = (100 - height_percent) / 2;
    assert(0 <= left * w <= (left + width_percent) * w <= 100 * w) by (nonlinear_arith)
        requires
            0 <= w,
            0 <= left,
            0 <= width_percent,
            left + width_percent <= 100,
    ;
    assert(0 <= top * h <= (top + height_percent) * h <= 100 * h) by (nonlinear_arith)
        requires
            0 <= h,
            0 <= top,
            0 <= height_percent,
            top + height_percent <= 100,
    ;
}

/// A context menu has two rows more than entries, but at least six and at most sixteen, and is 34
/// cells wide, as far as the screen is. It lies in the middle of the screen.
pub proof fn menus_lie_in_the_middle(area: Rect, items: int)
    requires
        0 <= items < 0x1_0000,
        area.x + area.width <= u16::MAX,
        area.y + area.height <= u16::MAX,
    ensures
        ({
            let menu = menu_area(area, items);
            let wanted = if items + 2 < 6 {
                6
            } else if items + 2 > 16 {
                16
            } else {
                items + 2
            };
            &&& menu.width == (if area.width < 34 {
                area.width as int
            } else {
                34
            })
            &&& menu.height == (if area.height < wanted {
                area.height as int
            } else {
                wanted
            })
            &&& menu.x == area.x + (area.width - menu.width) / 2
            &&& menu.y == area.y + (area.height - menu.height) / 2
        }),
{
}

/// The tabs lie beside each other from the left: eleven columns for the processes, thirteen for
/// the performance, ten for the services, and nine for the network, as many as their titles are
/// long and one on either side. What does not fit is cut off.
pub proof fn tabs_lie_beside_each_other(inner: Rect, x: int, index: int)
    requires
        inner.x + inner.width <= u16::MAX,
        0 <= index < 4,
    ensures
        ({
            let column = x - inner.x;
            let shown = inner.height > 0 && 0 <= column < inner.width;
            &&& tab_at(inner, x) == (if !shown || column >= 43 {
                None
            } else if column < 11 {
                Some(ActiveTab::Processes)
            } else if column < 24 {
                Some(ActiveTab::Performance)
            } else if column < 34 {
                Some(ActiveTab::Services)
            } else {
                Some(ActiveTab::Network)
            })
            &&& inner.y + inner.height <= u16::MAX && index < tab_count(inner) ==> {
                let tab = tab_area(inner, index);
                &&& tab.y == inner.y && tab.height == inner.height
                &&& tab.x <= x < tab.x + tab.width <==> tab_at(inner, x) == Some(
                    ActiveTab::at_place(index),
                )
            }
            &&& index >= tab_count(inner) ==> tab_at(inner, x) != Some(ActiveTab::at_place(index))
            &&& 0 <= tab_count(inner) <= 4
        }),
{
}

/// The three filters share the inside of the filter bar: a column belongs to the first, the
/// second, or the last third of its width. The border belongs to none.
pub proof fn filters_share_the_bar(area: Rect, x: int)
    requires
        area.x + area.width <= u16::MAX,
    ensures
        ({
            let column = x - area.x - 1;
            let width = area.width - 2;
            &&& !(0 <= column < width) ==> filter_at(area, x) is None
            &&& 0 <= column < width && 3 * column < width ==> filter_at(area, x) == Some(
                NetworkStateFilter::All,
            )
            &&& 0 <= column < width && width <= 3 * column < 2 * width ==> filter_at(area, x)
                == Some(NetworkStateFilter::Listening)
            &&& 0 <= column < width && 2 * width <= 3 * column ==> filter_at(area, x) == Some(
                NetworkStateFilter::Established,
            )
        }),
{
    let column = x - area.x - 1;
    let width = area.width - 2;
    if 0 <= column < width {
        let bucket = (column * 3) / width;
        assert(bucket * width <= 3 * column < (bucket + 1) * width) by (nonlinear_arith)
            requires
                width > 0,
                bucket == (column * 3) / width,
        ;
        assert(bucket >= 2 ==> 2 * width <= bucket * width) by (nonlinear_arith)
            requires
                width > 0,
        ;
        assert(bucket < 0 ==> (bucket + 1) * width <= 0) by (nonlinear_arith)
            requires
                width > 0,
        ;
        assert(bucket == 0 ==> (bucket + 1) * width == width) by (nonlinear_arith);
        assert(bucket == 1 ==> bucket * width == width && (bucket + 1) * width == 2 * width)
            by (nonlinear_arith);
        assert((x - plus(area.x, 1)) * 3 == column * 3);
    }
}

/// In a list with a border the first entry lies one row below the top, and in a table, which has
/// a header, two rows; the last row is the border. In a list without a border the first entry
/// lies on the first row.
pub proof fn entries_lie_below_their_headers(area: Rect, row: int)
    requires
        area.y + area.height <= u16::MAX,
    ensures
        ({
            let below = area.y + area.height - 1;
            &&& area.y + 1 <= row < below ==> bordered_index(area, row, false) == Some(
                (row - area.y - 1) as usize,
            )
            &&& area.y + 2 <= row < below ==> bordered_index(area, row, true) == Some(
                (row - area.y - 2) as usize,
            )
            &&& !(area.y + 1 <= row < below) ==> bordered_index(area, row, false) is None
            &&& !(area.y + 2 <= row < below) ==> bordered_index(area, row, true) is None
            &&& area.y <= row < area.y + area.height ==> plain_index(area, row) == Some(
                (row - area.y) as usize,
            )
            &&& !(area.y <= row < area.y + area.height) ==> plain_index(area, row) is None
        }),
{
}

} // verus!
