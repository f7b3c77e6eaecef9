//! What the plugin shows: the title, two lines that explain the chords, the
//! list of bookmarks and a help line, each as a text with its coloured
//! ranges, and where on the screen each goes.

use crate::keybinds::{decimal, decimal_text, shortcut_text, Keybinds, KeybindsView};
use crate::pane::PaneId;
use crate::plugin::{State, StateView};
use vstd::prelude::*;
use vstd::string::{StrSliceExecFns, StringExecFns};

verus! {

/// A range of characters of a text shown in one colour: the colour's level,
/// the first character, and the character after the last one, or none where
/// the range runs to the end of the text.
#[derive(Clone, Copy, Debug, PartialEq, Eq, Structural)]
pub struct ColorRange {
    pub level: usize,
    pub start: usize,
    pub end: Option<usize>,
}

/// A text to show: its characters, its coloured ranges in the order in which
/// they are laid on, and whether it is shown as selected.
#[derive(Clone, Debug, PartialEq, Eq)]
pub struct Text {
    pub text: String,
    pub color_ranges: Vec<ColorRange>,
    pub selected: bool,
}

/// A [`Text`] as mathematical values.
pub struct TextView {
    pub text: Seq<char>,
    pub color_ranges: Seq<ColorRange>,
    pub selected: bool,
}

impl View for Text {
    type V = TextView;

    open spec fn view(&self) -> TextView {
        TextView { text: self.text@, color_ranges: self.color_ranges@, selected: self.selected }
    }
}

/// The texts of a list as mathematical values.
pub open spec fn text_views(texts: Seq<Text>) -> Seq<TextView> {
    texts.map_values(|text: Text| text@)
}

/// The range of the whole text at `level`.
pub open spec fn whole(level: usize) -> ColorRange {
    ColorRange { level, start: 0, end: None }
}

/// The range at `level` from character `start` up to character `end`, which
/// is not part of it.
pub open spec fn span(level: usize, start: usize, end: usize) -> ColorRange {
    ColorRange { level, start, end: Some(end) }
}

/// The title: its whole text at level 2.
pub open spec fn title_text() -> TextView {
    TextView { text: "CAROUSEL"@, color_ranges: seq![whole(2)], selected: false }
}

/// The long help line, with the five key names at level 3.
pub open spec fn full_help() -> TextView {
    TextView {
        text: "Help: <ENTER> - focus selected, <0-9> - focus index, <\u{2193}\u{2191}> - navigate, <Del> - delete selected, <ESC> - hide"@,
        color_ranges: seq![
            span(3, 6, 13),
            span(3, 32, 37),
            span(3, 53, 57),
            span(3, 70, 75),
            span(3, 95, 101),
        ],
        selected: false,
    }
}

/// The short help line, with the three groups of key names at level 3.
pub open spec fn short_help() -> TextView {
    TextView {
        text: "<ENTER/0-9> - focus selected/index, <\u{2193}\u{2191}/ESC> - navigate/hide, <Del> - delete"@,
        color_ranges: seq![span(3, 0, 11), span(3, 36, 44), span(3, 62, 67)],
        selected: false,
    }
}

/// The help line for a screen `max_width` wide: the long one where it fits,
/// else the short one.
pub open spec fn help_text(max_width: usize) -> TextView {
    if full_help().text.len() <= max_width {
        full_help()
    } else {
        short_help()
    }
}

fn text_of(text: &str, color_ranges: Vec<ColorRange>) -> (shown: (Text, usize))
    ensures
        shown.0@ == (TextView { text: text@, color_ranges: color_ranges@, selected: false }),
        shown.1 == text@.len(),
{
    let width = text.unicode_len();
    (Text { text: String::from_str(text), color_ranges, selected: false }, width)
}

fn whole_range(level: usize) -> (range: ColorRange)
    ensures
        range == whole(level),
{
    ColorRange { level, start: 0, end: None }
}

fn span_range(level: usize, start: usize, end: usize) -> (range: ColorRange)
    ensures
        range == span(level, start, end),
{
    ColorRange { level, start, end: Some(end) }
}

/// The title and its width.
pub fn render_title() -> (shown: (Text, usize))
    ensures
        shown.0@ == title_text(),
        shown.1 == title_text().text.len(),
{
    let mut color_ranges = Vec::new();
    color_ranges.push(whole_range(2));
    text_of("CAROUSEL", color_ranges)
}

/// The help line for a screen `max_width` wide, and its width.
pub fn render_help_text(max_width: usize) -> (shown: (Text, usize))
    ensures
        shown.0@ == help_text(max_width),
        shown.1 == help_text(max_width).text.len(),
{
    let help_text_full =
        "Help: <ENTER> - focus selected, <0-9> - focus index, <\u{2193}\u{2191}> - navigate, <Del> - delete selected, <ESC> - hide";
    let help_text_short =
        "<ENTER/0-9> - focus selected/index, <\u{2193}\u{2191}/ESC> - navigate/hide, <Del> - delete";
    let mut color_ranges = Vec::new();
    if help_text_full.unicode_len() <= max_width {
        color_ranges.push(span_range(3, 6, 13));
        color_ranges.push(span_range(3, 32, 37));
        color_ranges.push(span_range(3, 53, 57));
        color_ranges.push(span_range(3, 70, 75));
        color_ranges.push(span_range(3, 95, 101));
        assert(color_ranges@ =~= full_help().color_ranges);
        text_of(help_text_full, color_ranges)
    } else {
        color_ranges.push(span_range(3, 0, 11));
        color_ranges.push(span_range(3, 36, 44));
        color_ranges.push(span_range(3, 62, 67));
        assert(color_ranges@ =~= short_help().color_ranges);
        text_of(help_text_short, color_ranges)
    }
}

/// One of the two lines that explain a chord. The long wording is shown
/// where it fits into `max_width`, else the short one; in both the chord
/// with its angle brackets stands at level 3.
pub open spec fn explanation_line(
    shortcut: Seq<char>,
    long_tail: Seq<char>,
    short_tail: Seq<char>,
    max_width: usize,
) -> TextView {
    let long = "Press <"@ + shortcut + long_tail;
    let short = "<"@ + shortcut + short_tail;
    if long.len() <= max_width {
        TextView {
            text: long,
            color_ranges: seq![span(3, 6, (shortcut.len() + 8) as usize)],
            selected: false,
        }
    } else {
        TextView {
            text: short,
            color_ranges: seq![span(3, 0, (shortcut.len() + 2) as usize)],
            selected: false,
        }
    }
}

/// The two lines that explain the chords: the one that bookmarks the
/// focused pane, then the one that shows the list.
pub open spec fn explanation_text(keybinds: KeybindsView, max_width: usize) -> Seq<TextView> {
    seq![
        explanation_line(
            shortcut_text(keybinds.mark_pane.0, keybinds.mark_pane.1),
            "> while focused on any pane to bookmark it."@,
            "> bookmark focused pane."@,
            max_width,
        ),
        explanation_line(
            shortcut_text(keybinds.show_self.0, keybinds.show_self.1),
            "> to show this list."@,
            "> show this list."@,
            max_width,
        ),
    ]
}

/// The greatest of `current` and the widths of `texts`.
pub open spec fn widest(current: nat, texts: Seq<TextView>) -> nat
    decreases texts.len(),
{
    if texts.len() == 0 {
        current
    } else {
        let before = widest(current, texts.drop_last());
        if texts.last().text.len() > before {
            texts.last().text.len()
        } else {
            before
        }
    }
}

/// The title of a bookmark as the list shows it: the pane's title, or a
/// stand-in where none is known. Where the title and eight characters more
/// (four for the bookmark's number, four to spare) do not fit into
/// `max_width`, the title is cut to `max_width` less eight characters and
/// ended by three dots.
pub open spec fn shown_title(title: Option<Seq<char>>, max_width: usize) -> Seq<char> {
    let known = match title {
        Some(title) => title,
        None => "<UNKNOWN>"@,
    };
    if known.len() + 8 > max_width {
        known.take(if max_width < 8 {
            0
        } else {
            max_width - 8
        }) + "..."@
    } else {
        known
    }
}

/// The line of the bookmark at place `i`: its number in angle brackets and
/// its title, all at level 0, the number then at level 3; shown as selected
/// where the cursor is on it.
pub open spec fn list_item(title: Option<Seq<char>>, max_width: usize, i: nat, selected: nat) -> TextView {
    TextView {
        text: "<"@ + decimal_text(i) + "> "@ + shown_title(title, max_width),
        color_ranges: seq![whole(0), span(3, 0, 4)],
        selected: i == selected,
    }
}

/// The title on record for `pane`, if there is one.
pub open spec fn title_of(titles: Map<PaneId, Seq<char>>, pane: PaneId) -> Option<Seq<char>> {
    if titles.contains_key(pane) {
        Some(titles[pane])
    } else {
        None
    }
}

/// The lines of the bookmarks, in the order of the list.
pub open spec fn list_items(state: StateView, max_width: usize) -> Seq<TextView> {
    Seq::new(
        state.bookmarks.panes.len(),
        |i: int|
            list_item(
                title_of(state.workspace.pane_titles, state.bookmarks.panes[i]),
                max_width,
                i as nat,
                state.bookmarks.selected,
            ),
    )
}

/// The line shown in place of an empty list.
pub open spec fn no_items_text() -> TextView {
    TextView { text: "NO ITEMS."@, color_ranges: seq![whole(0)], selected: false }
}

/// What is shown for the list: its lines, or one line that says that there
/// are none.
pub open spec fn marked_panes_text(state: StateView, max_width: usize) -> Seq<TextView> {
    if state.bookmarks.panes.len() == 0 {
        seq![no_items_text()]
    } else {
        list_items(state, max_width)
    }
}

/// One of the two lines that explain a chord, and its width.
fn render_explanation_line(
    shortcut: &str,
    long_tail: &str,
    short_tail: &str,
    max_width: usize,
) -> (shown: (Text, usize))
    requires
        long_tail@.len() >= 1,
        short_tail@.len() >= 1,
    ensures
        shown.0@ == explanation_line(shortcut@, long_tail@, short_tail@, max_width),
        shown.1 == shown.0@.text.len(),
{
    proof {
        reveal_strlit("Press <");
        reveal_strlit("<");
    }
    let shortcut_len = shortcut.unicode_len();
    let mut long = String::from_str("Press <");
    long.append(shortcut);
    long.append(long_tail);
    let long_width = long.as_str().unicode_len();
    let mut color_ranges = Vec::new();
    if long_width <= max_width {
        color_ranges.push(span_range(3, 6, shortcut_len + 8));
        (Text { text: long, color_ranges, selected: false }, long_width)
    } else {
        let mut short = String::from_str("<");
        short.append(shortcut);
        short.append(short_tail);
        let short_width = short.as_str().unicode_len();
        color_ranges.push(span_range(3, 0, shortcut_len + 2));
        (Text { text: short, color_ranges, selected: false }, short_width)
    }
}

/// The two lines that explain the chords, and the width of the wider one.
pub fn render_explanation_text(keybinds: &Keybinds, max_width: usize) -> (shown: (Vec<Text>, usize))
    ensures
        text_views(shown.0@) == explanation_text(keybinds@, max_width),
        shown.1 == widest(0, explanation_text(keybinds@, max_width)),
{
    proof {
        reveal_strlit("> while focused on any pane to bookmark it.");
        reveal_strlit("> bookmark focused pane.");
        reveal_strlit("> to show this list.");
        reveal_strlit("> show this list.");
    }
    let mark_pane_shortcut = keybinds.mark_pane_shortcut().label();
    let show_self_shortcut = keybinds.show_self_shortcut().label();
    let (first, first_width) = render_explanation_line(
        mark_pane_shortcut.as_str(),
        "> while focused on any pane to bookmark it.",
        "> bookmark focused pane.",
        max_width,
    );
    let (second, second_width) = render_explanation_line(
        show_self_shortcut.as_str(),
        "> to show this list.",
        "> show this list.",
        max_width,
    );
    let own_width = if second_width > first_width {
        second_width
    } else {
        first_width
    };
    let mut lines = Vec::new();
    lines.push(first);
    lines.push(second);
    proof {
        let texts = explanation_text(keybinds@, max_width);
        assert(text_views(lines@) =~= texts);
        assert(texts.drop_last() =~= seq![texts[0]]);
        assert(texts.drop_last().drop_last() =~= Seq::<TextView>::empty());
        assert(widest(0, texts.drop_last().drop_last()) == 0);
        assert(widest(0, texts.drop_last()) == texts[0].text.len());
    }
    (lines, own_width)
}

/// The line of the bookmark at place `i`, and its width.
pub fn render_list_item(
    title: Option<&str>,
    max_width: usize,
    i: usize,
    selected_index: usize,
) -> (shown: (Text, usize))
    ensures
        shown.0@ == list_item(
            match title {
                Some(title) => Some(title@),
                None => None,
            },
            max_width,
            i as nat,
            selected_index as nat,
        ),
        shown.1 == shown.0@.text.len(),
{
    let known = match title {
        Some(title) => title,
        None => "<UNKNOWN>",
    };
    let known_len = known.unicode_len();
    let mut list_item_text = String::from_str("<");
    list_item_text.append(decimal(i as u64).as_str());
    list_item_text.append("> ");
    if max_width < 8 || known_len > max_width - 8 {
        let kept = if max_width < 8 {
            0
        } else {
            max_width - 8
        };
        list_item_text.append(known.substring_char(0, kept));
        list_item_text.append("...");
        assert(known@.subrange(0, kept as int) == known@.take(kept as int));
    } else {
        list_item_text.append(known);
    }
    let width = list_item_text.as_str().unicode_len();
    let mut color_ranges = Vec::new();
    color_ranges.push(whole_range(0));
    color_ranges.push(span_range(3, 0, 4));
    proof {
        let shown = shown_title(
            match title {
                Some(title) => Some(title@),
                None => None,
            },
            max_width,
        );
        assert(list_item_text@ =~= "<"@ + decimal_text(i as nat) + "> "@ + shown);
        assert(color_ranges@ =~= seq![whole(0), span(3, 0, 4)]);
    }
    (Text { text: list_item_text, color_ranges, selected: i == selected_index }, width)
}

/// What is shown for the list, and the greatest of `current_width` and the
/// widths of the bookmarks' lines.
pub fn render_marked_panes(state: &State, current_width: usize, max_width: usize) -> (shown: (
    Vec<Text>,
    usize,
))
    ensures
        text_views(shown.0@) == marked_panes_text(state@, max_width),
        shown.1 == widest(current_width as nat, list_items(state@, max_width)),
{
    let panes = state.bookmarks().panes();
    let selected_index = state.bookmarks().selected_index();
    let mut longest_line_count = current_width;
    let mut text_items: Vec<Text> = Vec::new();
    let ghost items = list_items(state@, max_width);
    let mut i: usize = 0;
    assert(items.take(0) =~= Seq::<TextView>::empty());
    while i < panes.len()
        invariant
            i <= panes.len(),
            panes@ == state@.bookmarks.panes,
            selected_index == state@.bookmarks.selected,
            items == list_items(state@, max_width),
            text_views(text_items@) == items.take(i as int),
            longest_line_count == widest(current_width as nat, items.take(i as int)),
        decreases panes.len() - i,
    {
        let title = state.workspace_state().get_pane_title(&panes[i]);
        let (item, item_width) = render_list_item(title, max_width, i, selected_index);
        if item_width > longest_line_count {
            longest_line_count = item_width;
        }
        proof {
            assert(item@ == items[i as int]);
            assert(items.take(i + 1).drop_last() =~= items.take(i as int));
            assert(text_views(text_items@.push(item)) =~= items.take(i + 1));
        }
        text_items.push(item);
        i += 1;
    }
    assert(items.take(i as int) =~= items);
    if text_items.len() == 0 {
        let mut color_ranges = Vec::new();
        color_ranges.push(whole_range(0));
        let (nothing, _) = text_of("NO ITEMS.", color_ranges);
        let mut shown = Vec::new();
        shown.push(nothing);
        assert(text_views(shown@) =~= seq![no_items_text()]);
        (shown, longest_line_count)
    } else {
        (text_items, longest_line_count)
    }
}

/// A text and its place on the screen: the column and the row where it
/// starts, and the width it is given, if it is given one.
#[derive(Clone, Debug, PartialEq, Eq)]
pub struct PlacedText {
    pub text: Text,
    pub x: usize,
    pub y: usize,
    pub width: Option<usize>,
}

/// A [`PlacedText`] as mathematical values.
pub struct PlacedView {
    pub text: TextView,
    pub x: usize,
    pub y: usize,
    pub width: Option<usize>,
}

impl View for PlacedText {
    type V = PlacedView;

    open spec fn view(&self) -> PlacedView {
        PlacedView { text: self.text@, x: self.x, y: self.y, width: self.width }
    }
}

/// The placed texts of a list as mathematical values.
pub open spec fn placed_views(placed: Seq<PlacedText>) -> Seq<PlacedView> {
    placed.map_values(|text: PlacedText| text@)
}

/// The texts one below the other from row `y` on, each starting in column
/// `x` and given the width `width`.
pub open spec fn placed_lines(texts: Seq<TextView>, x: usize, y: usize, width: Option<usize>) -> Seq<
    PlacedView,
> {
    Seq::new(
        texts.len(),
        |i: int| PlacedView { text: texts[i], x, y: (y + i) as usize, width },
    )
}

/// Half of what `outer` has more than `inner`, and nothing where it has not
/// more: the margin that centres the one in the other.
pub open spec fn margin(outer: nat, inner: nat) -> nat {
    if outer > inner {
        ((outer - inner) / 2) as nat
    } else {
        0
    }
}

/// The width of the widest line of the screen, the line that stands in for
/// an empty list not counted.
pub open spec fn longest_line(state: StateView, cols: usize) -> nat {
    widest(
        0,
        seq![title_text()] + explanation_text(state.keybinds, cols) + seq![help_text(cols)]
            + list_items(state, cols),
    )
}

/// The whole screen for a pane of `rows` rows and `cols` columns: the
/// title, the two lines that explain the chords, the list and the help
/// line. The block is as wide as its widest line and is centred in the
/// pane; the title is centred in the block. Below the title come, after one
/// free row each, the explanation and then the list, and after the list the
/// help line.
pub open spec fn screen(state: StateView, rows: usize, cols: usize) -> Seq<PlacedView> {
    let longest = longest_line(state, cols);
    let marked = marked_panes_text(state, cols);
    let base_y = margin(rows as nat, marked.len() + 7);
    let base_x = margin(cols as nat, longest);
    seq![
        PlacedView {
            text: title_text(),
            x: (base_x + margin(longest, title_text().text.len())) as usize,
            y: base_y as usize,
            width: Some(cols),
        },
    ] + placed_lines(
        explanation_text(state.keybinds, cols),
        base_x as usize,
        (base_y + 2) as usize,
        None,
    ) + placed_lines(marked, base_x as usize, (base_y + 5) as usize, Some(longest as usize))
        + seq![
        PlacedView {
            text: help_text(cols),
            x: base_x as usize,
            y: (base_y + marked.len() + 6) as usize,
            width: None,
        },
    ]
}

/// The widest line of two runs of lines is the widest of the second run and
/// of what is widest in the first.
pub proof fn lemma_widest_of_both(current: nat, first: Seq<TextView>, second: Seq<TextView>)
    ensures
        widest(current, first + second) == widest(widest(current, first), second),
    decreases second.len(),
{
    if second.len() == 0 {
        assert(first + second =~= first);
    } else {
        assert((first + second).drop_last() =~= first + second.drop_last());
        assert((first + second).last() == second.last());
        lemma_widest_of_both(current, first, second.drop_last());
    }
}

/// The widest of one line and `current` is the greater of the two.
pub proof fn lemma_widest_of_one(current: nat, text: TextView)
    ensures
        widest(current, seq![text]) == if text.text.len() > current {
            text.text.len()
        } else {
            current
        },
{
    assert(seq![text].drop_last() =~= Seq::<TextView>::empty());
    assert(widest(current, Seq::<TextView>::empty()) == current);
}

fn centre(outer: usize, inner: usize) -> (space: usize)
    ensures
        space == margin(outer as nat, inner as nat),
{
    if outer > inner {
        (outer - inner) / 2
    } else {
        0
    }
}

fn larger(a: usize, b: usize) -> (max: usize)
    ensures
        max == if b > a {
            b
        } else {
            a
        },
{
    if b > a {
        b
    } else {
        a
    }
}

/// Puts the texts one below the other from row `y` on.
fn place_lines(
    placed: &mut Vec<PlacedText>,
    texts: Vec<Text>,
    x: usize,
    y: usize,
    width: Option<usize>,
)
    requires
        y + texts.len() <= usize::MAX,
    ensures
        placed_views(final(placed)@) == placed_views(old(placed)@) + placed_lines(
            text_views(texts@),
            x,
            y,
            width,
        ),
{
    let mut texts = texts;
    let ghost all = text_views(texts@);
    let ghost before = placed_views(placed@);
    let count = texts.len();
    let mut i: usize = 0;
    assert(placed_lines(all, x, y, width).take(0) =~= Seq::<PlacedView>::empty());
    assert(before + Seq::<PlacedView>::empty() =~= before);
    while i < count
        invariant
            i <= count,
            count == all.len(),
            y + count <= usize::MAX,
            text_views(texts@) == all.skip(i as int),
            placed_views(placed@) == before + placed_lines(all, x, y, width).take(i as int),
        decreases count - i,
    {
        let ghost rest = texts@;
        assert(text_views(rest).len() == rest.len());
        assert(text_views(rest)[0] == rest[0]@);
        let text = texts.remove(0);
        let line = PlacedText { text, x, y: y + i, width };
        proof {
            assert(line@ == placed_lines(all, x, y, width)[i as int]);
            assert forall|j: int| 0 <= j < texts@.len() implies text_views(texts@)[j] == all.skip(
                i + 1,
            )[j] by {
                assert(texts@[j] == rest[j + 1]);
                assert(text_views(rest)[j + 1] == rest[j + 1]@);
            }
            assert(text_views(texts@) =~= all.skip(i + 1));
            assert(placed_views(placed@.push(line)) =~= placed_views(placed@).push(line@));
            assert(placed_views(placed@).push(line@) =~= before + placed_lines(
                all,
                x,
                y,
                width,
            ).take(i + 1));
        }
        placed.push(line);
        i += 1;
    }
    assert(placed_lines(all, x, y, width).take(i as int) =~= placed_lines(all, x, y, width));
}

/// Lays out the whole screen for a pane of `rows` rows and `cols` columns.
pub fn render(state: &State, rows: usize, cols: usize) -> (placed: Vec<PlacedText>)
    requires
        state.wf(),
    ensures
        placed_views(placed@) == screen(state@, rows, cols),
{
    let (title, title_width) = render_title();
    let (explanation_text_lines, explanation_text_width) = render_explanation_text(
        state.keybinds(),
        cols,
    );
    let (help, help_text_width) = render_help_text(cols);
    let longest_line_count = larger(larger(title_width, explanation_text_width), help_text_width);
    let (marked_panes, longest_line_count) = render_marked_panes(state, longest_line_count, cols);
    let item_count = marked_panes.len();
    proof {
        let head = seq![title_text()];
        let lines = explanation_text(state@.keybinds, cols);
        let tail = seq![help_text(cols)];
        let items = list_items(state@, cols);
        lemma_widest_of_one(0, title_text());
        lemma_widest_of_both(0, head, lines);
        lemma_widest_of_both(0, head + lines, tail);
        lemma_widest_of_both(0, head + lines + tail, items);
        lemma_widest_of_one(widest(0, head + lines), help_text(cols));
        assert(lines =~= seq![lines[0]] + seq![lines[1]]);
        lemma_widest_of_both(0, seq![lines[0]], seq![lines[1]]);
        lemma_widest_of_both(widest(0, head), seq![lines[0]], seq![lines[1]]);
        lemma_widest_of_one(0, lines[0]);
        lemma_widest_of_one(widest(0, seq![lines[0]]), lines[1]);
        lemma_widest_of_one(widest(0, head), lines[0]);
        lemma_widest_of_one(widest(widest(0, head), seq![lines[0]]), lines[1]);
        assert(longest_line_count == longest_line(state@, cols));
        assert(text_views(marked_panes@).len() == marked_panes@.len());
    }
    let base_y = centre(rows, item_count + 7);
    let base_x = centre(cols, longest_line_count);
    let mut placed: Vec<PlacedText> = Vec::new();
    placed.push(
        PlacedText {
            text: title,
            x: base_x + centre(longest_line_count, title_width),
            y: base_y,
            width: Some(cols),
        },
    );
    assert(text_views(explanation_text_lines@).len() == explanation_text_lines@.len());
    place_lines(&mut placed, explanation_text_lines, base_x, base_y + 2, None);
    place_lines(&mut placed, marked_panes, base_x, base_y + 5, Some(longest_line_count));
    let last = PlacedText { text: help, x: base_x, y: base_y + item_count + 6, width: None };
    proof {
        assert(placed_views(placed@.push(last)) =~= placed_views(placed@).push(last@));
        assert(placed_views(placed@.push(last)) =~= screen(state@, rows, cols));
    }
    placed.push(last);
    placed
}

} // verus!
