//! Screen layout: which text goes where, in which style. Rendering the cells
//! is left to the terminal front end.
use vstd::prelude::*;
use crate::input::{InputMode, TerminalModifiers};
use crate::text::{decimal, format_decimal, spaces, spaces_spec, str_eq, trim_to_width, trimmed};
use crate::tracker::{mac_visual_for_ids, str_views, strongest_visual, KeyTracker, KeyVisual, TrackerView};

verus! {

/// How a cell is coloured.
#[derive(Clone, Copy, Debug, PartialEq, Eq, Structural)]
pub enum Style {
    /// Default colours.
    Plain,
    /// The title line.
    Title,
    /// The line that names the input protocol, coloured by the mode.
    Protocol(InputMode),
    /// The description of the last event.
    LastEvent,
    /// The closing note.
    Footnote,
    /// A key cap, coloured by its state.
    Key(KeyVisual),
}

/// A terminal colour.
#[derive(Clone, Copy, Debug, PartialEq, Eq, Structural)]
pub enum TermColor {
    DarkGrey,
    White,
    DarkBlue,
    Green,
    Black,
    Cyan,
    Yellow,
    Red,
}

/// The background and foreground colour of each style; `None` keeps the
/// terminal's default. Key caps follow the legend: grey when never pressed,
/// blue when released, green when down now. The input-mode line is green
/// for the kitty protocol, yellow for basic input and red when the protocol
/// is unavailable; the last event is yellow, the title cyan and the closing
/// note dark grey.
pub open spec fn style_colors_spec(style: Style) -> (Option<TermColor>, Option<TermColor>) {
    match style {
        Style::Plain => (None, None),
        Style::Title => (None, Some(TermColor::Cyan)),
        Style::Protocol(InputMode::Kitty) => (None, Some(TermColor::Green)),
        Style::Protocol(InputMode::Basic) => (None, Some(TermColor::Yellow)),
        Style::Protocol(InputMode::KittyUnavailable) => (None, Some(TermColor::Red)),
        Style::LastEvent => (None, Some(TermColor::Yellow)),
        Style::Footnote => (None, Some(TermColor::DarkGrey)),
        Style::Key(KeyVisual::Never) => (Some(TermColor::DarkGrey), Some(TermColor::White)),
        Style::Key(KeyVisual::Seen) => (Some(TermColor::DarkBlue), Some(TermColor::White)),
        Style::Key(KeyVisual::Down) => (Some(TermColor::Green), Some(TermColor::Black)),
    }
}

/// The background and foreground colour a cell of this style is written in.
pub fn style_colors(style: Style) -> (res: (Option<TermColor>, Option<TermColor>))
    ensures
        res == style_colors_spec(style),
{
    match style {
        Style::Plain => (None, None),
        Style::Title => (None, Some(TermColor::Cyan)),
        Style::Protocol(InputMode::Kitty) => (None, Some(TermColor::Green)),
        Style::Protocol(InputMode::Basic) => (None, Some(TermColor::Yellow)),
        Style::Protocol(InputMode::KittyUnavailable) => (None, Some(TermColor::Red)),
        Style::LastEvent => (None, Some(TermColor::Yellow)),
        Style::Footnote => (None, Some(TermColor::DarkGrey)),
        Style::Key(KeyVisual::Never) => (Some(TermColor::DarkGrey), Some(TermColor::White)),
        Style::Key(KeyVisual::Seen) => (Some(TermColor::DarkBlue), Some(TermColor::White)),
        Style::Key(KeyVisual::Down) => (Some(TermColor::Green), Some(TermColor::Black)),
    }
}

/// A piece of text at a screen position.
#[derive(Clone, Debug)]
pub struct Cell {
    pub x: u16,
    pub y: u16,
    pub text: String,
    pub style: Style,
}

/// The abstract content of a [`Cell`].
pub struct CellView {
    pub x: u16,
    pub y: u16,
    pub text: Seq<char>,
    pub style: Style,
}

impl View for Cell {
    type V = CellView;

    open spec fn view(&self) -> CellView {
        CellView { x: self.x, y: self.y, text: self.text@, style: self.style }
    }
}

pub open spec fn cells_view(cells: Seq<Cell>) -> Seq<CellView> {
    cells.map_values(|c: Cell| c@)
}

/// A row of key caps: each label with its width on screen.
pub open spec fn row_view(row: Seq<(&str, u16)>) -> Seq<(Seq<char>, u16)> {
    row.map_values(|p: (&str, u16)| (p.0@, p.1))
}

/// The text of a key cap of `width` columns: the label cut to the interior
/// (`width` less the two brackets), centred (an odd space goes right), in
/// brackets.
pub open spec fn key_text(label: Seq<char>, width: u16) -> Seq<char> {
    let interior: int = if width >= 2 { width - 2 } else { 0 };
    let shown = trimmed(label, interior);
    let padding: int = interior - shown.len();
    let left: int = padding / 2;
    seq!['['] + spaces_spec(left as nat) + shown + spaces_spec((padding - left) as nat) + seq![']']
}

pub open spec fn key_cell(x: u16, y: u16, width: u16, label: Seq<char>, visual: KeyVisual) -> CellView {
    CellView { x, y, text: key_text(label, width), style: Style::Key(visual) }
}

/// The cell of one key cap.
pub fn draw_key(x: u16, y: u16, width: u16, label: &str, visual: KeyVisual) -> (res: Cell)
    ensures
        res@ == key_cell(x, y, width, label@, visual),
{
    let interior = width.saturating_sub(2) as usize;
    let shown = trim_to_width(label, interior);
    let shown_len = shown.as_str().unicode_len();
    let padding = interior - shown_len;
    let left = padding / 2;
    let mut text = String::new();
    proof {
        reveal_strlit("[");
        reveal_strlit("]");
    }
    text.append("[");
    text.append(spaces(left).as_str());
    text.append(shown.as_str());
    text.append(spaces(padding - left).as_str());
    text.append("]");
    assert(text@ =~= key_text(label@, width));
    Cell { x, y, text, style: Style::Key(visual) }
}

/// The columns a row of key caps takes, one separating column after each.
pub open spec fn row_span(row: Seq<(Seq<char>, u16)>) -> int
    decreases row.len(),
{
    if row.len() == 0 {
        0
    } else {
        row[0].1 + 1 + row_span(row.drop_first())
    }
}

/// How the state of a key cap in a group is found from its label.
#[derive(Clone, Copy, Debug, PartialEq, Eq, Structural)]
pub enum KeyLookup {
    /// The XT main block: the identifier is [`xt_main_id`] of the label.
    XtMain,
    /// The XT keypad block: the identifier is [`xt_keypad_id`] of the label.
    XtKeypad,
    /// The MacBook keyboard: [`mac_visual`] of the label under these
    /// modifiers.
    Mac(TerminalModifiers),
}

/// The XT key identifier behind a main-block label.
pub open spec fn xt_main_id_spec(label: Seq<char>) -> Seq<char> {
    if label == "Esc"@ {
        "ESC"@
    } else if label == "Backspace"@ {
        "BACKSPACE"@
    } else if label == "Enter"@ {
        "ENTER"@
    } else if label == "Space"@ {
        "SPACE"@
    } else {
        label
    }
}

/// The XT key identifier behind a keypad-block label.
pub open spec fn xt_keypad_id_spec(label: Seq<char>) -> Seq<char> {
    if label == "NumLock"@ {
        "NUMLOCK"@
    } else if label == "Scroll"@ {
        "SCROLL"@
    } else if label == "7Home"@ {
        "KP_7"@
    } else if label == "8Up"@ {
        "KP_8"@
    } else if label == "9PgUp"@ {
        "KP_9"@
    } else if label == "KP -"@ {
        "KP_MINUS"@
    } else if label == "4Left"@ {
        "KP_4"@
    } else if label == "6Right"@ {
        "KP_6"@
    } else if label == "KP +"@ {
        "KP_PLUS"@
    } else if label == "1End"@ {
        "KP_1"@
    } else if label == "2Down"@ {
        "KP_2"@
    } else if label == "3PgDn"@ {
        "KP_3"@
    } else if label == "*Prt"@ {
        "PRINT"@
    } else if label == "0Ins"@ {
        "KP_INS"@
    } else if label == ".Del"@ {
        "KP_DEL"@
    } else {
        label
    }
}

/// The state of the key cap labelled `label` in a group looked up so.
pub open spec fn lookup_visual(lookup: KeyLookup, keys: TrackerView, label: Seq<char>) -> KeyVisual {
    match lookup {
        KeyLookup::XtMain => keys.visual(xt_main_id_spec(label)),
        KeyLookup::XtKeypad => keys.visual(xt_keypad_id_spec(label)),
        KeyLookup::Mac(m) => mac_visual_spec(keys, m, label),
    }
}

/// The XT key identifier for a label of the main block: the label itself but
/// for Esc, Backspace, Enter and Space.
pub fn xt_main_id(label: &str) -> (res: &str)
    ensures
        res@ == xt_main_id_spec(label@),
{
    if str_eq(label, "Esc") {
        "ESC"
    } else if str_eq(label, "Backspace") {
        "BACKSPACE"
    } else if str_eq(label, "Enter") {
        "ENTER"
    } else if str_eq(label, "Space") {
        "SPACE"
    } else {
        label
    }
}

/// The XT key identifier for a label of the keypad block.
pub fn xt_keypad_id(label: &str) -> (res: &str)
    ensures
        res@ == xt_keypad_id_spec(label@),
{
    if str_eq(label, "NumLock") {
        "NUMLOCK"
    } else if str_eq(label, "Scroll") {
        "SCROLL"
    } else if str_eq(label, "7Home") {
        "KP_7"
    } else if str_eq(label, "8Up") {
        "KP_8"
    } else if str_eq(label, "9PgUp") {
        "KP_9"
    } else if str_eq(label, "KP -") {
        "KP_MINUS"
    } else if str_eq(label, "4Left") {
        "KP_4"
    } else if str_eq(label, "6Right") {
        "KP_6"
    } else if str_eq(label, "KP +") {
        "KP_PLUS"
    } else if str_eq(label, "1End") {
        "KP_1"
    } else if str_eq(label, "2Down") {
        "KP_2"
    } else if str_eq(label, "3PgDn") {
        "KP_3"
    } else if str_eq(label, "*Prt") {
        "PRINT"
    } else if str_eq(label, "0Ins") {
        "KP_INS"
    } else if str_eq(label, ".Del") {
        "KP_DEL"
    } else {
        label
    }
}

fn lookup_key(lookup: KeyLookup, keys: &KeyTracker, label: &str) -> (res: KeyVisual)
    ensures
        res == lookup_visual(lookup, keys@, label@),
{
    match lookup {
        KeyLookup::XtMain => keys.visual(xt_main_id(label)),
        KeyLookup::XtKeypad => keys.visual(xt_keypad_id(label)),
        KeyLookup::Mac(m) => mac_visual(keys, m, label),
    }
}

/// The cells of a group of XT key caps laid out left to right from `x`,
/// one column apart, each in the state of the identifier its label stands
/// for.
pub open spec fn group_cells(
    x: int,
    y: u16,
    row: Seq<(Seq<char>, u16)>,
    keys: TrackerView,
    lookup: KeyLookup,
) -> Seq<CellView>
    decreases row.len(),
{
    if row.len() == 0 {
        Seq::empty()
    } else {
        seq![key_cell(x as u16, y, row[0].1, row[0].0, lookup_visual(lookup, keys, row[0].0))]
            + group_cells(x + row[0].1 + 1, y, row.drop_first(), keys, lookup)
    }
}

proof fn lemma_row_span_step(row: Seq<(Seq<char>, u16)>, i: int)
    requires
        0 <= i < row.len(),
    ensures
        row_span(row.skip(i)) == row[i].1 + 1 + row_span(row.skip(i + 1)),
{
    assert(row.skip(i).drop_first() =~= row.skip(i + 1));
}

proof fn lemma_row_span_nonneg(row: Seq<(Seq<char>, u16)>)
    ensures
        row_span(row) >= 0,
    decreases row.len(),
{
    if row.len() > 0 {
        lemma_row_span_nonneg(row.drop_first());
    }
}

proof fn lemma_group_cells_step(
    x: int,
    y: u16,
    row: Seq<(Seq<char>, u16)>,
    keys: TrackerView,
    lookup: KeyLookup,
    i: int,
)
    requires
        0 <= i < row.len(),
    ensures
        group_cells(x, y, row.skip(i), keys, lookup) == seq![
            key_cell(x as u16, y, row[i].1, row[i].0, lookup_visual(lookup, keys, row[i].0)),
        ] + group_cells(x + row[i].1 + 1, y, row.skip(i + 1), keys, lookup),
{
    assert(row.skip(i).drop_first() =~= row.skip(i + 1));
}

/// The cells of a group of XT key caps, left to right from `x`.
pub fn draw_key_group(
    x: u16,
    y: u16,
    row: &[(&str, u16)],
    keys: &KeyTracker,
    lookup: KeyLookup,
) -> (res: Vec<Cell>)
    requires
        x + row_span(row_view(row@)) <= u16::MAX,
    ensures
        cells_view(res@) == group_cells(x as int, y, row_view(row@), keys@, lookup),
{
    let ghost rv = row_view(row@);
    let ghost x0 = x;
    let mut cells: Vec<Cell> = Vec::new();
    let mut x = x;
    let mut i: usize = 0;
    proof {
        assert(rv.skip(0) =~= rv);
    }
    while i < row.len()
        invariant
            0 <= i <= row.len(),
            x0 + row_span(rv) <= u16::MAX,
            rv == row_view(row@),
            rv.len() == row@.len(),
            x + row_span(rv.skip(i as int)) <= u16::MAX,
            cells_view(cells@) + group_cells(x as int, y, rv.skip(i as int), keys@, lookup)
                == group_cells(x0 as int, y, rv, keys@, lookup),
        decreases row.len() - i,
    {
        let (label, width) = row[i];
        proof {
            lemma_row_span_step(rv, i as int);
            lemma_row_span_nonneg(rv.skip(i + 1));
            lemma_group_cells_step(x as int, y, rv, keys@, lookup, i as int);
        }
        let visual = lookup_key(lookup, keys, label);
        let cell = draw_key(x, y, width, label, visual);
        let ghost before = cells@;
        cells.push(cell);
        proof {
            assert(cells_view(cells@) =~= cells_view(before).push(cell@));
        }
        x = x + width + 1;
        i = i + 1;
    }
    proof {
        assert(rv.skip(row.len() as int) =~= Seq::<(Seq<char>, u16)>::empty());
        assert(cells_view(cells@) + Seq::<CellView>::empty() =~= cells_view(cells@));
    }
    cells
}


/// The left part of an XT row: two function keys, then one wide key with its
/// label, its identifier and its width, then the column where the main block
/// starts.
pub type XtRowPrefix = (&'static str, &'static str, &'static str, &'static str, u16, u16);

pub open spec fn prefix_view(
    p: XtRowPrefix,
) -> (Seq<char>, Seq<char>, Seq<char>, Seq<char>, u16, u16) {
    (p.0@, p.1@, p.2@, p.3@, p.4, p.5)
}

/// The column where the keypad block of every XT row starts.
pub const XT_KEYPAD_X: u16 = 103;

/// The cells of one XT row: the two function keys at columns 2 and 8, the
/// wide key at column 15, the main block from the prefix's column and the
/// keypad block from column 103.
pub open spec fn xt_row_cells(
    y: u16,
    keys: TrackerView,
    prefix: (Seq<char>, Seq<char>, Seq<char>, Seq<char>, u16, u16),
    main: Seq<(Seq<char>, u16)>,
    keypad: Seq<(Seq<char>, u16)>,
) -> Seq<CellView> {
    seq![
        key_cell(2, y, 5, prefix.0, keys.visual(prefix.0)),
        key_cell(8, y, 5, prefix.1, keys.visual(prefix.1)),
        key_cell(15, y, prefix.4, prefix.2, keys.visual(prefix.3)),
    ] + group_cells(prefix.5 as int, y, main, keys, KeyLookup::XtMain) + group_cells(
        XT_KEYPAD_X as int,
        y,
        keypad,
        keys,
        KeyLookup::XtKeypad,
    )
}

/// The cells of one row of the XT keyboard.
pub fn draw_xt_row(
    y: u16,
    keys: &KeyTracker,
    prefix: XtRowPrefix,
    main: &[(&str, u16)],
    keypad: &[(&str, u16)],
) -> (res: Vec<Cell>)
    requires
        prefix.5 + row_span(row_view(main@)) <= u16::MAX,
        XT_KEYPAD_X + row_span(row_view(keypad@)) <= u16::MAX,
    ensures
        cells_view(res@) == xt_row_cells(y, keys@, prefix_view(prefix), row_view(main@), row_view(keypad@)),
{
    let (left_a, left_b, prefix_label, prefix_id, prefix_width, main_x) = prefix;
    let mut cells: Vec<Cell> = Vec::new();
    cells.push(draw_key(2, y, 5, left_a, keys.visual(left_a)));
    cells.push(draw_key(8, y, 5, left_b, keys.visual(left_b)));
    cells.push(draw_key(15, y, prefix_width, prefix_label, keys.visual(prefix_id)));
    let ghost head = cells@;
    let mut main_cells = draw_key_group(main_x, y, main, keys, KeyLookup::XtMain);
    let mut keypad_cells = draw_key_group(XT_KEYPAD_X, y, keypad, keys, KeyLookup::XtKeypad);
    let ghost m = main_cells@;
    let ghost k = keypad_cells@;
    cells.append(&mut main_cells);
    cells.append(&mut keypad_cells);
    proof {
        assert(cells@ =~= head + m + k);
        assert(cells_view(cells@) =~= cells_view(head) + cells_view(m) + cells_view(k));
    }
    cells
}

pub const XT_PREFIX_1: XtRowPrefix = ("F1", "F6", "Esc", "ESC", 5, 21);

pub const XT_MAIN_1: [(&'static str, u16); 13] = [
    ("1", 4),
    ("2", 4),
    ("3", 4),
    ("4", 4),
    ("5", 4),
    ("6", 4),
    ("7", 4),
    ("8", 4),
    ("9", 4),
    ("0", 4),
    ("-", 4),
    ("=", 4),
    ("Backspace", 10),
];

pub const XT_KEYPAD_1: [(&'static str, u16); 2] = [("NumLock", 8), ("Scroll", 7)];

pub const XT_PREFIX_2: XtRowPrefix = ("F2", "F7", "Tab", "TAB", 7, 23);

pub const XT_MAIN_2: [(&'static str, u16); 13] = [
    ("Q", 4),
    ("W", 4),
    ("E", 4),
    ("R", 4),
    ("T", 4),
    ("Y", 4),
    ("U", 4),
    ("I", 4),
    ("O", 4),
    ("P", 4),
    ("[", 4),
    ("]", 4),
    ("\\", 4),
];

pub const XT_KEYPAD_2: [(&'static str, u16); 4] = [
    ("7Home", 7),
    ("8Up", 6),
    ("9PgUp", 7),
    ("KP -", 4),
];

pub const XT_PREFIX_3: XtRowPrefix = ("F3", "F8", "Ctrl", "CTRL", 7, 23);

pub const XT_MAIN_3: [(&'static str, u16); 12] = [
    ("A", 4),
    ("S", 4),
    ("D", 4),
    ("F", 4),
    ("G", 4),
    ("H", 4),
    ("J", 4),
    ("K", 4),
    ("L", 4),
    (";", 4),
    ("'", 4),
    ("Enter", 8),
];

pub const XT_KEYPAD_3: [(&'static str, u16); 4] = [
    ("4Left", 7),
    ("5", 4),
    ("6Right", 8),
    ("KP +", 4),
];

pub const XT_PREFIX_4: XtRowPrefix = ("F4", "F9", "L Shift", "L_SHIFT", 10, 26);

pub const XT_MAIN_4: [(&'static str, u16); 11] = [
    ("Z", 4),
    ("X", 4),
    ("C", 4),
    ("V", 4),
    ("B", 4),
    ("N", 4),
    ("M", 4),
    (",", 4),
    (".", 4),
    ("/", 4),
    ("R Shift", 10),
];

pub const XT_KEYPAD_4: [(&'static str, u16); 3] = [("1End", 6), ("2Down", 7), ("3PgDn", 7)];

pub const XT_PREFIX_5: XtRowPrefix = ("F5", "F10", "Alt", "ALT", 5, 21);

pub const XT_MAIN_5: [(&'static str, u16); 1] = [("Space", 38)];

pub const XT_KEYPAD_5: [(&'static str, u16); 3] = [("*Prt", 6), ("0Ins", 5), (".Del", 5)];

/// The cells of the 83-key XT keyboard: five rows, at lines 19 to 27.
pub open spec fn xt_cells(keys: TrackerView) -> Seq<CellView> {
    xt_row_cells(19, keys, prefix_view(XT_PREFIX_1), row_view(XT_MAIN_1@), row_view(XT_KEYPAD_1@))
        + xt_row_cells(21, keys, prefix_view(XT_PREFIX_2), row_view(XT_MAIN_2@), row_view(XT_KEYPAD_2@))
        + xt_row_cells(23, keys, prefix_view(XT_PREFIX_3), row_view(XT_MAIN_3@), row_view(XT_KEYPAD_3@))
        + xt_row_cells(25, keys, prefix_view(XT_PREFIX_4), row_view(XT_MAIN_4@), row_view(XT_KEYPAD_4@))
        + xt_row_cells(27, keys, prefix_view(XT_PREFIX_5), row_view(XT_MAIN_5@), row_view(XT_KEYPAD_5@))
}

/// One row of key caps of at most `w` columns each is at most this wide.
proof fn lemma_row_span_bound(row: Seq<(Seq<char>, u16)>, w: int)
    requires
        forall|i: int| 0 <= i < row.len() ==> #[trigger] row[i].1 <= w,
    ensures
        row_span(row) <= row.len() * (w + 1),
    decreases row.len(),
{
    if row.len() > 0 {
        lemma_row_span_bound(row.drop_first(), w);
        assert(row_span(row) <= row.len() * (w + 1)) by (nonlinear_arith)
            requires
                row_span(row) == row[0].1 + 1 + row_span(row.drop_first()),
                row[0].1 <= w,
                row_span(row.drop_first()) <= (row.len() - 1) * (w + 1),
        ;
    }
}

/// A row of at most 20 key caps, none wider than 40 columns, fits from
/// any column up to 200.
proof fn lemma_row_fits(row: Seq<(&str, u16)>, x: int)
    requires
        row.len() <= 20,
        forall|i: int| 0 <= i < row.len() ==> #[trigger] row[i].1 <= 40,
        x <= 200,
    ensures
        x + row_span(row_view(row)) <= u16::MAX,
{
    let rv = row_view(row);
    assert forall|i: int| 0 <= i < rv.len() implies #[trigger] rv[i].1 <= 40 by {
        assert(rv[i].1 == row[i].1);
    }
    lemma_row_span_bound(rv, 40);
    assert(rv.len() * 41 <= 20 * 41) by (nonlinear_arith)
        requires
            rv.len() <= 20,
    ;
}

/// The cells of the XT keyboard, in the state `keys` holds.
pub fn draw_xt(keys: &KeyTracker) -> (res: Vec<Cell>)
    ensures
        cells_view(res@) == xt_cells(keys@),
{
    proof {
        lemma_row_fits(XT_MAIN_1@, 21);
        lemma_row_fits(XT_KEYPAD_1@, 103);
        lemma_row_fits(XT_MAIN_2@, 23);
        lemma_row_fits(XT_KEYPAD_2@, 103);
        lemma_row_fits(XT_MAIN_3@, 23);
        lemma_row_fits(XT_KEYPAD_3@, 103);
        lemma_row_fits(XT_MAIN_4@, 26);
        lemma_row_fits(XT_KEYPAD_4@, 103);
        lemma_row_fits(XT_MAIN_5@, 21);
        lemma_row_fits(XT_KEYPAD_5@, 103);
    }
    let mut cells = draw_xt_row(19, keys, XT_PREFIX_1, &XT_MAIN_1, &XT_KEYPAD_1);
    let ghost c1 = cells@;
    let mut r2 = draw_xt_row(21, keys, XT_PREFIX_2, &XT_MAIN_2, &XT_KEYPAD_2);
    let ghost c2 = r2@;
    let mut r3 = draw_xt_row(23, keys, XT_PREFIX_3, &XT_MAIN_3, &XT_KEYPAD_3);
    let ghost c3 = r3@;
    let mut r4 = draw_xt_row(25, keys, XT_PREFIX_4, &XT_MAIN_4, &XT_KEYPAD_4);
    let ghost c4 = r4@;
    let mut r5 = draw_xt_row(27, keys, XT_PREFIX_5, &XT_MAIN_5, &XT_KEYPAD_5);
    let ghost c5 = r5@;
    cells.append(&mut r2);
    cells.append(&mut r3);
    cells.append(&mut r4);
    cells.append(&mut r5);
    proof {
        assert(cells@ =~= c1 + c2 + c3 + c4 + c5);
        assert(cells_view(cells@) =~= cells_view(c1) + cells_view(c2) + cells_view(c3)
            + cells_view(c4) + cells_view(c5));
    }
    cells
}


/// The MacBook key identifier behind a key-cap label, and whether the
/// terminal's modifier flags alone show the cap as held: both Shift caps by
/// Shift, Ctrl by Control, both Option caps by Alt, both Command caps by
/// Super.
pub open spec fn mac_key(label: Seq<char>, m: TerminalModifiers) -> (Seq<char>, bool) {
    if label == "Esc"@ {
        ("ESC"@, false)
    } else if label == "Backspace"@ {
        ("BACKSPACE"@, false)
    } else if label == "Tab"@ {
        ("TAB"@, false)
    } else if label == "Caps"@ {
        ("CAPS"@, false)
    } else if label == "Return"@ {
        ("RETURN"@, false)
    } else if label == "Space"@ {
        ("SPACE"@, false)
    } else if label == "L Shift"@ {
        ("L_SHIFT"@, m.shift)
    } else if label == "R Shift"@ {
        ("R_SHIFT"@, m.shift)
    } else if label == "Ctrl"@ {
        ("L_CTRL"@, m.control)
    } else if label == "LOpt"@ {
        ("L_OPT"@, m.alt)
    } else if label == "ROpt"@ {
        ("R_OPT"@, m.alt)
    } else if label == "LCmd"@ {
        ("L_CMD"@, m.super_key)
    } else if label == "RCmd"@ {
        ("R_CMD"@, m.super_key)
    } else if label == "←"@ {
        ("LEFT"@, false)
    } else if label == "→"@ {
        ("RIGHT"@, false)
    } else if label == "↑"@ {
        ("UP"@, false)
    } else if label == "↓"@ {
        ("DOWN"@, false)
    } else {
        (label, false)
    }
}

/// The state of a MacBook key cap. A held modifier shows its caps as down.
/// Backspace also stands for forward delete, and each arrow for the
/// navigation key it gives with Fn (Home, End, Page Up, Page Down); such a
/// cap shows the strongest state of its two identifiers.
pub open spec fn mac_visual_spec(keys: TrackerView, m: TerminalModifiers, label: Seq<char>) -> KeyVisual {
    if mac_key(label, m).1 {
        KeyVisual::Down
    } else if label == "Backspace"@ {
        strongest_visual(keys, seq!["BACKSPACE"@, "FORWARD_DELETE"@])
    } else if label == "←"@ {
        strongest_visual(keys, seq!["LEFT"@, "HOME"@])
    } else if label == "→"@ {
        strongest_visual(keys, seq!["RIGHT"@, "END"@])
    } else if label == "↑"@ {
        strongest_visual(keys, seq!["UP"@, "PGUP"@])
    } else if label == "↓"@ {
        strongest_visual(keys, seq!["DOWN"@, "PGDN"@])
    } else {
        keys.visual(mac_key(label, m).0)
    }
}

fn mac_id_and_modifier(label: &str, modifiers: TerminalModifiers) -> (res: (&str, bool))
    ensures
        res.0@ == mac_key(label@, modifiers).0,
        res.1 == mac_key(label@, modifiers).1,
{
    if str_eq(label, "Esc") {
        ("ESC", false)
    } else if str_eq(label, "Backspace") {
        ("BACKSPACE", false)
    } else if str_eq(label, "Tab") {
        ("TAB", false)
    } else if str_eq(label, "Caps") {
        ("CAPS", false)
    } else if str_eq(label, "Return") {
        ("RETURN", false)
    } else if str_eq(label, "Space") {
        ("SPACE", false)
    } else if str_eq(label, "L Shift") {
        ("L_SHIFT", modifiers.shift)
    } else if str_eq(label, "R Shift") {
        ("R_SHIFT", modifiers.shift)
    } else if str_eq(label, "Ctrl") {
        ("L_CTRL", modifiers.control)
    } else if str_eq(label, "LOpt") {
        ("L_OPT", modifiers.alt)
    } else if str_eq(label, "ROpt") {
        ("R_OPT", modifiers.alt)
    } else if str_eq(label, "LCmd") {
        ("L_CMD", modifiers.super_key)
    } else if str_eq(label, "RCmd") {
        ("R_CMD", modifiers.super_key)
    } else if str_eq(label, "←") {
        ("LEFT", false)
    } else if str_eq(label, "→") {
        ("RIGHT", false)
    } else if str_eq(label, "↑") {
        ("UP", false)
    } else if str_eq(label, "↓") {
        ("DOWN", false)
    } else {
        (label, false)
    }
}

fn strongest_of_two(keys: &KeyTracker, a: &str, b: &str) -> (res: KeyVisual)
    ensures
        res == strongest_visual(keys@, seq![a@, b@]),
{
    let ids = [a, b];
    let res = mac_visual_for_ids(keys, &ids);
    assert(str_views(ids@) =~= seq![a@, b@]);
    res
}

/// The state of the MacBook key cap labelled `label`.
pub fn mac_visual(keys: &KeyTracker, modifiers: TerminalModifiers, label: &str) -> (res: KeyVisual)
    ensures
        res == mac_visual_spec(keys@, modifiers, label@),
{
    let (id, active_modifier) = mac_id_and_modifier(label, modifiers);
    if active_modifier {
        return KeyVisual::Down;
    }
    if str_eq(label, "Backspace") {
        strongest_of_two(keys, "BACKSPACE", "FORWARD_DELETE")
    } else if str_eq(label, "←") {
        strongest_of_two(keys, "LEFT", "HOME")
    } else if str_eq(label, "→") {
        strongest_of_two(keys, "RIGHT", "END")
    } else if str_eq(label, "↑") {
        strongest_of_two(keys, "UP", "PGUP")
    } else if str_eq(label, "↓") {
        strongest_of_two(keys, "DOWN", "PGDN")
    } else {
        keys.visual(id)
    }
}


/// The cells of one MacBook row, left to right from column 2.
pub fn draw_mac_row(
    y: u16,
    row: &[(&str, u16)],
    keys: &KeyTracker,
    modifiers: TerminalModifiers,
) -> (res: Vec<Cell>)
    requires
        2 + row_span(row_view(row@)) <= u16::MAX,
    ensures
        cells_view(res@) == group_cells(2, y, row_view(row@), keys@, KeyLookup::Mac(modifiers)),
{
    draw_key_group(2, y, row, keys, KeyLookup::Mac(modifiers))
}

pub const MAC_ROW_1: [(&'static str, u16); 13] = [
    ("Esc", 6),
    ("F1", 5),
    ("F2", 5),
    ("F3", 5),
    ("F4", 5),
    ("F5", 5),
    ("F6", 5),
    ("F7", 5),
    ("F8", 5),
    ("F9", 5),
    ("F10", 5),
    ("F11", 5),
    ("F12", 5),
];

pub const MAC_ROW_2: [(&'static str, u16); 14] = [
    ("`", 5),
    ("1", 5),
    ("2", 5),
    ("3", 5),
    ("4", 5),
    ("5", 5),
    ("6", 5),
    ("7", 5),
    ("8", 5),
    ("9", 5),
    ("0", 5),
    ("-", 5),
    ("=", 5),
    ("Backspace", 11),
];

pub const MAC_ROW_3: [(&'static str, u16); 14] = [
    ("Tab", 8),
    ("Q", 5),
    ("W", 5),
    ("E", 5),
    ("R", 5),
    ("T", 5),
    ("Y", 5),
    ("U", 5),
    ("I", 5),
    ("O", 5),
    ("P", 5),
    ("[", 5),
    ("]", 5),
    ("\\", 5),
];

pub const MAC_ROW_4: [(&'static str, u16); 13] = [
    ("Caps", 9),
    ("A", 5),
    ("S", 5),
    ("D", 5),
    ("F", 5),
    ("G", 5),
    ("H", 5),
    ("J", 5),
    ("K", 5),
    ("L", 5),
    (";", 5),
    ("'", 5),
    ("Return", 10),
];

pub const MAC_ROW_5: [(&'static str, u16); 12] = [
    ("L Shift", 11),
    ("Z", 5),
    ("X", 5),
    ("C", 5),
    ("V", 5),
    ("B", 5),
    ("N", 5),
    ("M", 5),
    (",", 5),
    (".", 5),
    ("/", 5),
    ("R Shift", 11),
];

pub const MAC_ROW_6: [(&'static str, u16); 11] = [
    ("Fn", 5),
    ("Ctrl", 7),
    ("LOpt", 7),
    ("LCmd", 7),
    ("Space", 28),
    ("RCmd", 7),
    ("ROpt", 7),
    ("←", 5),
    ("↑", 5),
    ("↓", 5),
    ("→", 5),
];

/// The cells of the MacBook keyboard: six rows at lines 5 to 15.
pub open spec fn mac_cells(keys: TrackerView, m: TerminalModifiers) -> Seq<CellView> {
    group_cells(2, 5, row_view(MAC_ROW_1@), keys, KeyLookup::Mac(m))
        + group_cells(2, 7, row_view(MAC_ROW_2@), keys, KeyLookup::Mac(m))
        + group_cells(2, 9, row_view(MAC_ROW_3@), keys, KeyLookup::Mac(m))
        + group_cells(2, 11, row_view(MAC_ROW_4@), keys, KeyLookup::Mac(m))
        + group_cells(2, 13, row_view(MAC_ROW_5@), keys, KeyLookup::Mac(m))
        + group_cells(2, 15, row_view(MAC_ROW_6@), keys, KeyLookup::Mac(m))
}

/// The cells of the MacBook keyboard, in the state `keys` and the held
/// modifiers show.
pub fn draw_mac(keys: &KeyTracker, modifiers: TerminalModifiers) -> (res: Vec<Cell>)
    ensures
        cells_view(res@) == mac_cells(keys@, modifiers),
{
    proof {
        lemma_row_fits(MAC_ROW_1@, 2);
        lemma_row_fits(MAC_ROW_2@, 2);
        lemma_row_fits(MAC_ROW_3@, 2);
        lemma_row_fits(MAC_ROW_4@, 2);
        lemma_row_fits(MAC_ROW_5@, 2);
        lemma_row_fits(MAC_ROW_6@, 2);
    }
    let mut cells = draw_mac_row(5, &MAC_ROW_1, keys, modifiers);
    let ghost c1 = cells@;
    let mut r2 = draw_mac_row(7, &MAC_ROW_2, keys, modifiers);
    let ghost c2 = r2@;
    let mut r3 = draw_mac_row(9, &MAC_ROW_3, keys, modifiers);
    let ghost c3 = r3@;
    let mut r4 = draw_mac_row(11, &MAC_ROW_4, keys, modifiers);
    let ghost c4 = r4@;
    let mut r5 = draw_mac_row(13, &MAC_ROW_5, keys, modifiers);
    let ghost c5 = r5@;
    let mut r6 = draw_mac_row(15, &MAC_ROW_6, keys, modifiers);
    let ghost c6 = r6@;
    cells.append(&mut r2);
    cells.append(&mut r3);
    cells.append(&mut r4);
    cells.append(&mut r5);
    cells.append(&mut r6);
    proof {
        assert(cells@ =~= c1 + c2 + c3 + c4 + c5 + c6);
        assert(cells_view(cells@) =~= cells_view(c1) + cells_view(c2) + cells_view(c3)
            + cells_view(c4) + cells_view(c5) + cells_view(c6));
    }
    cells
}

/// The smallest terminal the full screen fits in.
pub const MIN_WIDTH: u16 = 132;

pub const MIN_HEIGHT: u16 = 31;

pub const TITLE: &'static str = "MacBook Pro → IBM PC/XT Model F keyboard tester";

pub const PROTOCOL_KITTY: &'static str =
    "Kitty keyboard protocol active: release and modifier events requested.";

pub const PROTOCOL_BASIC: &'static str = "Basic terminal input: press events use simulated releases.";

pub const PROTOCOL_UNAVAILABLE: &'static str =
    "Kitty keyboard protocol unavailable: using basic input and simulated releases.";

pub const LEGEND: &'static str =
    "Grey = never pressed   Blue = released/simulated release   Green = down now   Ctrl-Q exits.";

pub const MAC_HEADING: &'static str = "MacBook Pro (ANSI U.S.)";

pub const XT_HEADING: &'static str = "Virtual IBM PC/XT 83-key Model F — mapped key state";

pub const FOOTNOTE: &'static str =
    "Source grid shows physical MacBook keys. F13–F21, navigation, and keypad output exist only on the virtual XT.";

pub const RESIZE_PREFIX: &'static str = "Resize terminal to at least 132x31 (currently ";

pub const RESIZE_SUFFIX: &'static str = "). Ctrl-Q exits.";

/// The line that says how input is read.
pub open spec fn protocol_text(mode: InputMode) -> Seq<char> {
    match mode {
        InputMode::Kitty => PROTOCOL_KITTY@,
        InputMode::Basic => PROTOCOL_BASIC@,
        InputMode::KittyUnavailable => PROTOCOL_UNAVAILABLE@,
    }
}

fn protocol_line(mode: InputMode) -> (res: &'static str)
    ensures
        res@ == protocol_text(mode),
{
    match mode {
        InputMode::Kitty => PROTOCOL_KITTY,
        InputMode::Basic => PROTOCOL_BASIC,
        InputMode::KittyUnavailable => PROTOCOL_UNAVAILABLE,
    }
}

/// The request to enlarge a terminal of `width` by `height`.
pub open spec fn resize_text(width: u16, height: u16) -> Seq<char> {
    RESIZE_PREFIX@ + decimal(width as nat) + seq!['x'] + decimal(height as nat) + RESIZE_SUFFIX@
}

pub open spec fn text_cell(x: u16, y: u16, text: Seq<char>, style: Style) -> CellView {
    CellView { x, y, text, style }
}

/// The whole screen for a terminal of `width` by `height`: only a request to
/// enlarge it when it is smaller than 132 by 31; otherwise the title, the
/// input mode, the legend, the last event cut to `width - 4` columns, both
/// keyboards with their headings, and the closing note.
pub open spec fn frame_cells(
    width: u16,
    height: u16,
    mac_keys: TrackerView,
    xt_keys: TrackerView,
    modifiers: TerminalModifiers,
    mode: InputMode,
    last: Seq<char>,
) -> Seq<CellView> {
    if width < MIN_WIDTH || height < MIN_HEIGHT {
        seq![text_cell(2, 2, resize_text(width, height), Style::Plain)]
    } else {
        seq![
            text_cell(2, 0, TITLE@, Style::Title),
            text_cell(2, 1, protocol_text(mode), Style::Protocol(mode)),
            text_cell(2, 2, LEGEND@, Style::Plain),
            text_cell(2, 3, trimmed(last, width - 4), Style::LastEvent),
            text_cell(2, 4, MAC_HEADING@, Style::Plain),
        ] + mac_cells(mac_keys, modifiers) + seq![text_cell(2, 17, XT_HEADING@, Style::Plain)]
            + xt_cells(xt_keys) + seq![text_cell(2, 30, FOOTNOTE@, Style::Footnote)]
    }
}

fn text_at(x: u16, y: u16, text: &str, style: Style) -> (res: Cell)
    ensures
        res@ == text_cell(x, y, text@, style),
{
    Cell { x, y, text: text.to_owned(), style }
}

/// The screen to show: the terminal is cleared, then each cell is written
/// in order.
pub fn draw(
    width: u16,
    height: u16,
    mac_keys: &KeyTracker,
    xt_keys: &KeyTracker,
    modifiers: TerminalModifiers,
    input_mode: InputMode,
    last: &str,
) -> (res: Vec<Cell>)
    ensures
        cells_view(res@) == frame_cells(width, height, mac_keys@, xt_keys@, modifiers, input_mode, last@),
{
    if width < MIN_WIDTH || height < MIN_HEIGHT {
        let mut text = RESIZE_PREFIX.to_owned();
        text.append(format_decimal(width as u64).as_str());
        proof {
            reveal_strlit("x");
        }
        text.append("x");
        text.append(format_decimal(height as u64).as_str());
        text.append(RESIZE_SUFFIX);
        let cell = Cell { x: 2, y: 2, text, style: Style::Plain };
        let mut cells = Vec::new();
        cells.push(cell);
        proof {
            assert(cell@.text =~= resize_text(width, height));
            assert(cells_view(cells@) =~= seq![cell@]);
        }
        return cells;
    }
    let mut cells: Vec<Cell> = Vec::new();
    cells.push(text_at(2, 0, TITLE, Style::Title));
    cells.push(text_at(2, 1, protocol_line(input_mode), Style::Protocol(input_mode)));
    cells.push(text_at(2, 2, LEGEND, Style::Plain));
    let shown = trim_to_width(last, width.saturating_sub(4) as usize);
    cells.push(Cell { x: 2, y: 3, text: shown, style: Style::LastEvent });
    cells.push(text_at(2, 4, MAC_HEADING, Style::Plain));
    let ghost head = cells@;
    let mut mac = draw_mac(mac_keys, modifiers);
    let ghost mac_part = mac@;
    cells.append(&mut mac);
    let xt_heading = text_at(2, 17, XT_HEADING, Style::Plain);
    cells.push(xt_heading);
    let mut xt = draw_xt(xt_keys);
    let ghost xt_part = xt@;
    cells.append(&mut xt);
    let footnote = text_at(2, 30, FOOTNOTE, Style::Footnote);
    cells.push(footnote);
    proof {
        assert(cells@ =~= head + mac_part + seq![xt_heading] + xt_part + seq![footnote]);
        assert(cells_view(cells@) =~= cells_view(head) + cells_view(mac_part) + seq![xt_heading@]
            + cells_view(xt_part) + seq![footnote@]);
    }
    cells
}


/// Every key cap of at least two columns is drawn exactly as wide as it is,
/// so the caps of a row, one column apart, never overlap.
pub proof fn law_key_text_fills_width(label: Seq<char>, width: u16)
    requires
        width >= 2,
    ensures
        key_text(label, width).len() == width,
        key_text(label, width)[0] == '[',
        key_text(label, width)[width - 1] == ']',
{
}


/// Key caps are coloured as the legend says: grey on never pressed, blue on
/// released, green on down now.
pub proof fn law_key_caps_follow_legend(x: u16, y: u16, width: u16, label: Seq<char>, visual: KeyVisual)
    ensures
        style_colors_spec(key_cell(x, y, width, label, visual).style) == (match visual {
            KeyVisual::Never => (Some(TermColor::DarkGrey), Some(TermColor::White)),
            KeyVisual::Seen => (Some(TermColor::DarkBlue), Some(TermColor::White)),
            KeyVisual::Down => (Some(TermColor::Green), Some(TermColor::Black)),
        }),
{
}


/// A held modifier shows exactly its own caps as down: Shift both Shift caps,
/// Control the Ctrl cap, Alt both Option caps, Super both Command caps. When
/// its flag is not held, such a cap shows the state of its own source key.
pub proof fn law_modifier_caps_follow_their_flag(t: TrackerView, m: TerminalModifiers)
    ensures
        mac_visual_spec(t, m, "L Shift"@) == (if m.shift { KeyVisual::Down } else { t.visual("L_SHIFT"@) }),
        mac_visual_spec(t, m, "R Shift"@) == (if m.shift { KeyVisual::Down } else { t.visual("R_SHIFT"@) }),
        mac_visual_spec(t, m, "Ctrl"@) == (if m.control { KeyVisual::Down } else { t.visual("L_CTRL"@) }),
        mac_visual_spec(t, m, "LOpt"@) == (if m.alt { KeyVisual::Down } else { t.visual("L_OPT"@) }),
        mac_visual_spec(t, m, "ROpt"@) == (if m.alt { KeyVisual::Down } else { t.visual("R_OPT"@) }),
        mac_visual_spec(t, m, "LCmd"@) == (if m.super_key { KeyVisual::Down } else { t.visual("L_CMD"@) }),
        mac_visual_spec(t, m, "RCmd"@) == (if m.super_key { KeyVisual::Down } else { t.visual("R_CMD"@) }),
{
    lemma_mac_labels_differ();
}

/// The other MacBook caps show the state of their own source key, whatever
/// modifiers are held; Backspace also lights for forward delete, and each
/// arrow also for the navigation key it gives with Fn.
pub proof fn law_mac_caps_name_their_keys(t: TrackerView, m: TerminalModifiers)
    ensures
        mac_visual_spec(t, m, "Esc"@) == t.visual("ESC"@),
        mac_visual_spec(t, m, "Tab"@) == t.visual("TAB"@),
        mac_visual_spec(t, m, "Caps"@) == t.visual("CAPS"@),
        mac_visual_spec(t, m, "Return"@) == t.visual("RETURN"@),
        mac_visual_spec(t, m, "Space"@) == t.visual("SPACE"@),
        mac_visual_spec(t, m, "Backspace"@) == strongest_visual(t, seq!["BACKSPACE"@, "FORWARD_DELETE"@]),
        mac_visual_spec(t, m, "←"@) == strongest_visual(t, seq!["LEFT"@, "HOME"@]),
        mac_visual_spec(t, m, "→"@) == strongest_visual(t, seq!["RIGHT"@, "END"@]),
        mac_visual_spec(t, m, "↑"@) == strongest_visual(t, seq!["UP"@, "PGUP"@]),
        mac_visual_spec(t, m, "↓"@) == strongest_visual(t, seq!["DOWN"@, "PGDN"@]),
        forall|label: Seq<char>|
            #![trigger mac_visual_spec(t, m, label)]
            label != "Esc"@ && label != "Backspace"@ && label != "Tab"@ && label != "Caps"@ && label != "Return"@ && label != "Space"@ && label != "L Shift"@ && label != "R Shift"@ && label != "Ctrl"@ && label != "LOpt"@ && label != "ROpt"@ && label != "LCmd"@ && label != "RCmd"@ && label != "←"@ && label != "→"@ && label != "↑"@ && label != "↓"@ ==> mac_visual_spec(t, m, label) == t.visual(label),
{
    lemma_mac_labels_differ();
}


/// The lengths and first characters of the MacBook cap labels, which tell
/// them apart.
proof fn lemma_mac_labels_differ()
    ensures
        "Esc"@.len() == 3,
        "Esc"@[0] == 'E',
        "Esc"@[1] == 's',
        "Backspace"@.len() == 9,
        "Backspace"@[0] == 'B',
        "Backspace"@[1] == 'a',
        "Tab"@.len() == 3,
        "Tab"@[0] == 'T',
        "Tab"@[1] == 'a',
        "Caps"@.len() == 4,
        "Caps"@[0] == 'C',
        "Caps"@[1] == 'a',
        "Return"@.len() == 6,
        "Return"@[0] == 'R',
        "Return"@[1] == 'e',
        "Space"@.len() == 5,
        "Space"@[0] == 'S',
        "Space"@[1] == 'p',
        "L Shift"@.len() == 7,
        "L Shift"@[0] == 'L',
        "L Shift"@[1] == ' ',
        "R Shift"@.len() == 7,
        "R Shift"@[0] == 'R',
        "R Shift"@[1] == ' ',
        "Ctrl"@.len() == 4,
        "Ctrl"@[0] == 'C',
        "Ctrl"@[1] == 't',
        "LOpt"@.len() == 4,
        "LOpt"@[0] == 'L',
        "LOpt"@[1] == 'O',
        "ROpt"@.len() == 4,
        "ROpt"@[0] == 'R',
        "ROpt"@[1] == 'O',
        "LCmd"@.len() == 4,
        "LCmd"@[0] == 'L',
        "LCmd"@[1] == 'C',
        "RCmd"@.len() == 4,
        "RCmd"@[0] == 'R',
        "RCmd"@[1] == 'C',
        "←"@.len() == 1,
        "←"@[0] == '←',
        "→"@.len() == 1,
        "→"@[0] == '→',
        "↑"@.len() == 1,
        "↑"@[0] == '↑',
        "↓"@.len() == 1,
        "↓"@[0] == '↓',
{
    reveal_strlit("Esc");
    reveal_strlit("Backspace");
    reveal_strlit("Tab");
    reveal_strlit("Caps");
    reveal_strlit("Return");
    reveal_strlit("Space");
    reveal_strlit("L Shift");
    reveal_strlit("R Shift");
    reveal_strlit("Ctrl");
    reveal_strlit("LOpt");
    reveal_strlit("ROpt");
    reveal_strlit("LCmd");
    reveal_strlit("RCmd");
    reveal_strlit("←");
    reveal_strlit("→");
    reveal_strlit("↑");
    reveal_strlit("↓");
}


/// The characters of the XT cap labels, which tell them apart.
proof fn lemma_xt_labels_differ()
    ensures
        "NumLock"@.len() == 7,
        "NumLock"@[0] == 'N',
        "NumLock"@[1] == 'u',
        "NumLock"@[2] == 'm',
        "NumLock"@[3] == 'L',
        "NumLock"@[4] == 'o',
        "NumLock"@[5] == 'c',
        "NumLock"@[6] == 'k',
        "Scroll"@.len() == 6,
        "Scroll"@[0] == 'S',
        "Scroll"@[1] == 'c',
        "Scroll"@[2] == 'r',
        "Scroll"@[3] == 'o',
        "Scroll"@[4] == 'l',
        "Scroll"@[5] == 'l',
        "7Home"@.len() == 5,
        "7Home"@[0] == '7',
        "7Home"@[1] == 'H',
        "7Home"@[2] == 'o',
        "7Home"@[3] == 'm',
        "7Home"@[4] == 'e',
        "8Up"@.len() == 3,
        "8Up"@[0] == '8',
        "8Up"@[1] == 'U',
        "8Up"@[2] == 'p',
        "9PgUp"@.len() == 5,
        "9PgUp"@[0] == '9',
        "9PgUp"@[1] == 'P',
        "9PgUp"@[2] == 'g',
        "9PgUp"@[3] == 'U',
        "9PgUp"@[4] == 'p',
        "KP -"@.len() == 4,
        "KP -"@[0] == 'K',
        "KP -"@[1] == 'P',
        "KP -"@[2] == ' ',
        "KP -"@[3] == '-',
        "4Left"@.len() == 5,
        "4Left"@[0] == '4',
        "4Left"@[1] == 'L',
        "4Left"@[2] == 'e',
        "4Left"@[3] == 'f',
        "4Left"@[4] == 't',
        "6Right"@.len() == 6,
        "6Right"@[0] == '6',
        "6Right"@[1] == 'R',
        "6Right"@[2] == 'i',
        "6Right"@[3] == 'g',
        "6Right"@[4] == 'h',
        "6Right"@[5] == 't',
        "KP +"@.len() == 4,
        "KP +"@[0] == 'K',
        "KP +"@[1] == 'P',
        "KP +"@[2] == ' ',
        "KP +"@[3] == '+',
        "1End"@.len() == 4,
        "1End"@[0] == '1',
        "1End"@[1] == 'E',
        "1End"@[2] == 'n',
        "1End"@[3] == 'd',
        "2Down"@.len() == 5,
        "2Down"@[0] == '2',
        "2Down"@[1] == 'D',
        "2Down"@[2] == 'o',
        "2Down"@[3] == 'w',
        "2Down"@[4] == 'n',
        "3PgDn"@.len() == 5,
        "3PgDn"@[0] == '3',
        "3PgDn"@[1] == 'P',
        "3PgDn"@[2] == 'g',
        "3PgDn"@[3] == 'D',
        "3PgDn"@[4] == 'n',
        "*Prt"@.len() == 4,
        "*Prt"@[0] == '*',
        "*Prt"@[1] == 'P',
        "*Prt"@[2] == 'r',
        "*Prt"@[3] == 't',
        "0Ins"@.len() == 4,
        "0Ins"@[0] == '0',
        "0Ins"@[1] == 'I',
        "0Ins"@[2] == 'n',
        "0Ins"@[3] == 's',
        ".Del"@.len() == 4,
        ".Del"@[0] == '.',
        ".Del"@[1] == 'D',
        ".Del"@[2] == 'e',
        ".Del"@[3] == 'l',
        "Esc"@.len() == 3,
        "Esc"@[0] == 'E',
        "Esc"@[1] == 's',
        "Esc"@[2] == 'c',
        "Backspace"@.len() == 9,
        "Backspace"@[0] == 'B',
        "Backspace"@[1] == 'a',
        "Backspace"@[2] == 'c',
        "Backspace"@[3] == 'k',
        "Backspace"@[4] == 's',
        "Backspace"@[5] == 'p',
        "Backspace"@[6] == 'a',
        "Backspace"@[7] == 'c',
        "Backspace"@[8] == 'e',
        "Enter"@.len() == 5,
        "Enter"@[0] == 'E',
        "Enter"@[1] == 'n',
        "Enter"@[2] == 't',
        "Enter"@[3] == 'e',
        "Enter"@[4] == 'r',
        "Space"@.len() == 5,
        "Space"@[0] == 'S',
        "Space"@[1] == 'p',
        "Space"@[2] == 'a',
        "Space"@[3] == 'c',
        "Space"@[4] == 'e',
{
    reveal_strlit("NumLock");
    reveal_strlit("Scroll");
    reveal_strlit("7Home");
    reveal_strlit("8Up");
    reveal_strlit("9PgUp");
    reveal_strlit("KP -");
    reveal_strlit("4Left");
    reveal_strlit("6Right");
    reveal_strlit("KP +");
    reveal_strlit("1End");
    reveal_strlit("2Down");
    reveal_strlit("3PgDn");
    reveal_strlit("*Prt");
    reveal_strlit("0Ins");
    reveal_strlit(".Del");
    reveal_strlit("Esc");
    reveal_strlit("Backspace");
    reveal_strlit("Enter");
    reveal_strlit("Space");
}

/// Each keypad cap names its own guest key: NumLock and Scroll Lock by name,
/// each digit cap the keypad key of that digit, the minus and plus caps the
/// keypad minus and plus, *Prt the Print Screen key, .Del the keypad Delete;
/// any other label names the key of that name.
pub proof fn law_keypad_labels_name_their_keys(label: Seq<char>)
    ensures
        xt_keypad_id_spec("NumLock"@) == "NUMLOCK"@,
        xt_keypad_id_spec("Scroll"@) == "SCROLL"@,
        xt_keypad_id_spec("7Home"@) == "KP_7"@,
        xt_keypad_id_spec("8Up"@) == "KP_8"@,
        xt_keypad_id_spec("9PgUp"@) == "KP_9"@,
        xt_keypad_id_spec("KP -"@) == "KP_MINUS"@,
        xt_keypad_id_spec("4Left"@) == "KP_4"@,
        xt_keypad_id_spec("6Right"@) == "KP_6"@,
        xt_keypad_id_spec("KP +"@) == "KP_PLUS"@,
        xt_keypad_id_spec("1End"@) == "KP_1"@,
        xt_keypad_id_spec("2Down"@) == "KP_2"@,
        xt_keypad_id_spec("3PgDn"@) == "KP_3"@,
        xt_keypad_id_spec("*Prt"@) == "PRINT"@,
        xt_keypad_id_spec("0Ins"@) == "KP_INS"@,
        xt_keypad_id_spec(".Del"@) == "KP_DEL"@,
        (label != "NumLock"@ && label != "Scroll"@ && label != "7Home"@ && label != "8Up"@ && label != "9PgUp"@ && label != "KP -"@ && label != "4Left"@ && label != "6Right"@ && label != "KP +"@ && label != "1End"@ && label != "2Down"@ && label != "3PgDn"@ && label != "*Prt"@ && label != "0Ins"@ && label != ".Del"@) ==> xt_keypad_id_spec(label) == label,
{
    lemma_xt_labels_differ();
}

/// The main-block caps name their own guest keys: Esc, Backspace, Enter and
/// Space by their upper-case names, every other cap by its label.
pub proof fn law_main_labels_name_their_keys(label: Seq<char>)
    ensures
        xt_main_id_spec("Esc"@) == "ESC"@,
        xt_main_id_spec("Backspace"@) == "BACKSPACE"@,
        xt_main_id_spec("Enter"@) == "ENTER"@,
        xt_main_id_spec("Space"@) == "SPACE"@,
        (label != "Esc"@ && label != "Backspace"@ && label != "Enter"@ && label != "Space"@) ==> xt_main_id_spec(label) == label,
{
    lemma_xt_labels_differ();
}

} // verus!
