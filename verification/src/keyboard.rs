//! Keyboard types, their key tables and the layout of each keyboard as rows
//! of keys, blanks and gaps.
use vstd::prelude::*;
use crate::alice::{alice_gap, alice_placement, alice_rotation_entries, lookup_placement, TiltEntry};
use vstd::string::StringExecFns;

verus! {

/// The physical keyboards the heatmap can draw.
#[derive(Clone, Copy, PartialEq, Eq, Structural, Debug)]
pub enum KeyboardType {
    QwertyMac,
    Qwerty87,
    QwertyAliceWeikav,
}

/// The human-readable name of each keyboard type.
pub open spec fn spec_description(kt: KeyboardType) -> Seq<char> {
    match kt {
        KeyboardType::QwertyMac => "MacBook"@,
        KeyboardType::Qwerty87 => "87 Keys"@,
        KeyboardType::QwertyAliceWeikav => "Weikav Alice 68"@,
    }
}

impl KeyboardType {
    /// Name shown in the keyboard selector.
    pub fn description(&self) -> (r: &'static str)
        ensures
            r@ == spec_description(*self),
    {
        match self {
            KeyboardType::QwertyMac => "MacBook",
            KeyboardType::Qwerty87 => "87 Keys",
            KeyboardType::QwertyAliceWeikav => "Weikav Alice 68",
        }
    }
}

/// The keys the heatmap counts presses of; `Unknown` carries a raw code.
#[derive(Clone, Copy, PartialEq, Eq, Structural, Debug)]
pub enum Key {
    Escape,
    F1,
    F2,
    F3,
    F4,
    F5,
    F6,
    F7,
    F8,
    F9,
    F10,
    F11,
    F12,
    BackQuote,
    Num1,
    Num2,
    Num3,
    Num4,
    Num5,
    Num6,
    Num7,
    Num8,
    Num9,
    Num0,
    Minus,
    Equal,
    Backspace,
    Tab,
    KeyQ,
    KeyW,
    KeyE,
    KeyR,
    KeyT,
    KeyY,
    KeyU,
    KeyI,
    KeyO,
    KeyP,
    LeftBracket,
    RightBracket,
    BackSlash,
    CapsLock,
    KeyA,
    KeyS,
    KeyD,
    KeyF,
    KeyG,
    KeyH,
    KeyJ,
    KeyK,
    KeyL,
    SemiColon,
    Quote,
    Return,
    ShiftLeft,
    ShiftRight,
    KeyZ,
    KeyX,
    KeyC,
    KeyV,
    KeyB,
    KeyN,
    KeyM,
    Comma,
    Dot,
    Slash,
    Function,
    ControlLeft,
    ControlRight,
    Alt,
    AltGr,
    MetaLeft,
    MetaRight,
    Space,
    LeftArrow,
    RightArrow,
    UpArrow,
    DownArrow,
    PrintScreen,
    ScrollLock,
    Pause,
    Insert,
    Home,
    PageUp,
    Delete,
    End,
    PageDown,
    Unknown(u32),
}

/// How far a key is turned: not at all, or by the board's fixed angle one
/// way or the other (clockwise is the positive angle).
#[derive(Clone, Copy, PartialEq, Eq, Structural, Debug)]
pub enum Tilt {
    Level,
    Clockwise,
    CounterClockwise,
}

/// Turn and shift of a key relative to where the row puts it.
#[derive(Clone, Copy, PartialEq, Eq, Structural, Debug)]
pub struct Placement {
    pub tilt: Tilt,
    pub offset_x: i32,
    pub offset_y: i32,
}

/// An untilted, unshifted key.
pub open spec fn level() -> Placement {
    Placement { tilt: Tilt::Level, offset_x: 0, offset_y: 0 }
}

/// The labels printed on a key: one centred, or one above the other.
#[derive(Clone, Copy, Debug)]
pub enum Labels {
    Center(&'static str),
    TopBottom(&'static str, &'static str),
}

/// One key of a layout: its size, the key it counts, its labels and placement.
#[derive(Clone, Copy, Debug)]
pub struct KeySpec {
    pub width: u32,
    pub height: u32,
    pub key: Key,
    pub labels: Labels,
    pub placement: Placement,
}

/// One of the two halves of a vertical pair.
#[derive(Clone, Copy, Debug)]
pub enum Cell {
    Key(KeySpec),
    Blank(u32, u32),
}

/// What a row is made of, left to right: keys, blank key-sized places,
/// horizontal gaps and vertical pairs of half-height cells.
#[derive(Clone, Copy, Debug)]
pub enum LayoutItem {
    Key(KeySpec),
    Blank(u32, u32),
    Gap(u32),
    Stack(Cell, Cell),
}

/// A key with one centred label.
pub open spec fn spec_single(w: u32, h: u32, key: Key, label: &'static str, p: Placement) -> KeySpec {
    KeySpec { width: w, height: h, key, labels: Labels::Center(label), placement: p }
}

/// A key with an upper and a lower label.
pub open spec fn spec_double(
    w: u32,
    h: u32,
    key: Key,
    top: &'static str,
    bottom: &'static str,
    p: Placement,
) -> KeySpec {
    KeySpec { width: w, height: h, key, labels: Labels::TopBottom(top, bottom), placement: p }
}

/// An untilted key with one centred label.
pub open spec fn single(w: u32, h: u32, key: Key, label: &'static str) -> LayoutItem {
    LayoutItem::Key(spec_single(w, h, key, label, level()))
}

/// An untilted key with two labels.
pub open spec fn double(w: u32, h: u32, key: Key, top: &'static str, bottom: &'static str) -> LayoutItem {
    LayoutItem::Key(spec_double(w, h, key, top, bottom, level()))
}

fn single_key(w: u32, h: u32, key: Key, label: &'static str) -> (r: LayoutItem)
    returns
        single(w, h, key, label),
{
    LayoutItem::Key(
        KeySpec {
            width: w,
            height: h,
            key,
            labels: Labels::Center(label),
            placement: Placement { tilt: Tilt::Level, offset_x: 0, offset_y: 0 },
        },
    )
}

fn double_key(w: u32, h: u32, key: Key, top: &'static str, bottom: &'static str) -> (r: LayoutItem)
    returns
        double(w, h, key, top, bottom),
{
    LayoutItem::Key(
        KeySpec {
            width: w,
            height: h,
            key,
            labels: Labels::TopBottom(top, bottom),
            placement: Placement { tilt: Tilt::Level, offset_x: 0, offset_y: 0 },
        },
    )
}

/// How a run of keys taken from a table is spaced and placed.
#[derive(Clone, Copy, PartialEq, Eq, Structural, Debug)]
pub enum RunStyle {
    /// Keys side by side, untilted.
    Plain,
    /// Function keys in groups of four.
    FnBlocks,
    /// Keys of the Alice board in row `.0`, the first of them at column `.1`.
    Alice(usize, usize),
}

/// Width of the gap that follows a key of a run (zero: none).
pub open spec fn run_gap(style: RunStyle, label: Seq<char>, key: Key) -> u32 {
    match style {
        RunStyle::Plain => 0,
        RunStyle::FnBlocks => if key == Key::F4 || key == Key::F8 {
            25
        } else {
            0
        },
        RunStyle::Alice(row, _) => alice_gap(row as int, label, key),
    }
}

/// Placement of the key at index `i` of a run, looked up by `label`.
pub open spec fn run_placement(style: RunStyle, i: int, label: Seq<char>) -> Placement {
    match style {
        RunStyle::Alice(row, first) => alice_placement(row as int, first + i, label),
        _ => level(),
    }
}

/// A gap of width `g`, or nothing when `g` is zero.
pub open spec fn gap_item(g: u32) -> Seq<LayoutItem> {
    if g == 0 {
        seq![]
    } else {
        seq![LayoutItem::Gap(g)]
    }
}

/// The first `n` keys of a table of one-label keys, laid out in `style`.
pub open spec fn single_run(t: Seq<(&'static str, Key)>, style: RunStyle, w: u32, h: u32, n: int) -> Seq<
    LayoutItem,
>
    decreases n,
{
    if n <= 0 {
        seq![]
    } else {
        let e = t[n - 1];
        single_run(t, style, w, h, n - 1) + seq![
            LayoutItem::Key(spec_single(w, h, e.1, e.0, run_placement(style, n - 1, e.0@))),
        ] + gap_item(run_gap(style, e.0@, e.1))
    }
}

/// The first `n` keys of a table of two-label keys, laid out in `style`;
/// such a key is looked up by its lower label followed by its upper one.
pub open spec fn double_run(
    t: Seq<(&'static str, &'static str, Key)>,
    style: RunStyle,
    w: u32,
    h: u32,
    n: int,
) -> Seq<LayoutItem>
    decreases n,
{
    if n <= 0 {
        seq![]
    } else {
        let e = t[n - 1];
        double_run(t, style, w, h, n - 1) + seq![
            LayoutItem::Key(spec_double(w, h, e.2, e.0, e.1, run_placement(style, n - 1, e.1@ + e.0@))),
        ] + gap_item(run_gap(style, e.0@, e.2))
    }
}

/// A whole table of one-label keys in `style`.
pub open spec fn singles(t: Seq<(&'static str, Key)>, style: RunStyle, w: u32, h: u32) -> Seq<LayoutItem> {
    single_run(t, style, w, h, t.len() as int)
}

/// A whole table of two-label keys in `style`.
pub open spec fn doubles(t: Seq<(&'static str, &'static str, Key)>, style: RunStyle, w: u32, h: u32) -> Seq<
    LayoutItem,
> {
    double_run(t, style, w, h, t.len() as int)
}

fn gap_for(style: RunStyle, label: &str, key: Key) -> (g: u32)
    ensures
        g == run_gap(style, label@, key),
{
    match style {
        RunStyle::Plain => 0,
        RunStyle::FnBlocks => if key == Key::F4 || key == Key::F8 {
            25
        } else {
            0
        },
        RunStyle::Alice(row, _) => crate::alice::alice_gap_for(row, label, key),
    }
}

fn placement_for(style: RunStyle, config: &Vec<TiltEntry>, i: usize, label: &str) -> (p: Placement)
    requires
        style matches RunStyle::Alice(_, first) ==> first + i <= usize::MAX,
        style is Alice ==> config@ == alice_rotation_entries(),
    ensures
        p == run_placement(style, i as int, label@),
{
    match style {
        RunStyle::Alice(row, first) => lookup_placement(config, row, first + i, label),
        _ => Placement { tilt: Tilt::Level, offset_x: 0, offset_y: 0 },
    }
}

/// Appends every key of `t` to `row` in `style`.
fn push_singles(
    row: &mut Vec<LayoutItem>,
    config: &Vec<TiltEntry>,
    t: &Vec<(&'static str, Key)>,
    style: RunStyle,
    w: u32,
    h: u32,
)
    requires
        style matches RunStyle::Alice(_, first) ==> first + t@.len() <= usize::MAX,
        style is Alice ==> config@ == alice_rotation_entries(),
    ensures
        final(row)@ == old(row)@ + singles(t@, style, w, h),
{
    let mut i: usize = 0;
    while i < t.len()
        invariant
            style matches RunStyle::Alice(_, first) ==> first + t@.len() <= usize::MAX,
            style is Alice ==> config@ == alice_rotation_entries(),
            i <= t@.len(),
            row@ == old(row)@ + single_run(t@, style, w, h, i as int),
        decreases t@.len() - i,
    {
        let (label, key) = t[i];
        let p = placement_for(style, config, i, label);
        row.push(
            LayoutItem::Key(
                KeySpec { width: w, height: h, key, labels: Labels::Center(label), placement: p },
            ),
        );
        let g = gap_for(style, label, key);
        if g != 0 {
            row.push(LayoutItem::Gap(g));
        }
        i = i + 1;
        assert(row@ =~= old(row)@ + single_run(t@, style, w, h, i as int));
    }
}

/// Appends every key of `t` to `row` in `style`.
fn push_doubles(
    row: &mut Vec<LayoutItem>,
    config: &Vec<TiltEntry>,
    t: &Vec<(&'static str, &'static str, Key)>,
    style: RunStyle,
    w: u32,
    h: u32,
)
    requires
        style matches RunStyle::Alice(_, first) ==> first + t@.len() <= usize::MAX,
        style is Alice ==> config@ == alice_rotation_entries(),
    ensures
        final(row)@ == old(row)@ + doubles(t@, style, w, h),
{
    let mut i: usize = 0;
    while i < t.len()
        invariant
            style matches RunStyle::Alice(_, first) ==> first + t@.len() <= usize::MAX,
            style is Alice ==> config@ == alice_rotation_entries(),
            i <= t@.len(),
            row@ == old(row)@ + double_run(t@, style, w, h, i as int),
        decreases t@.len() - i,
    {
        let (top, bottom, key) = t[i];
        let p = match style {
            RunStyle::Alice(_, _) => {
                let mut label = String::from_str(bottom);
                label.append(top);
                placement_for(style, config, i, label.as_str())
            },
            _ => Placement { tilt: Tilt::Level, offset_x: 0, offset_y: 0 },
        };
        row.push(
            LayoutItem::Key(
                KeySpec {
                    width: w,
                    height: h,
                    key,
                    labels: Labels::TopBottom(top, bottom),
                    placement: p,
                },
            ),
        );
        let g = gap_for(style, top, key);
        if g != 0 {
            row.push(LayoutItem::Gap(g));
        }
        i = i + 1;
        assert(row@ =~= old(row)@ + double_run(t@, style, w, h, i as int));
    }
}

/// Function-key row: label and key.
pub open spec fn fn_keys_pairs() -> Seq<(&'static str, Key)> {
    seq![
        ("F1", Key::F1),
        ("F2", Key::F2),
        ("F3", Key::F3),
        ("F4", Key::F4),
        ("F5", Key::F5),
        ("F6", Key::F6),
        ("F7", Key::F7),
        ("F8", Key::F8),
        ("F9", Key::F9),
        ("F10", Key::F10),
        ("F11", Key::F11),
        ("F12", Key::F12),
    ]
}

/// The table `fn_keys_pairs` as a vector.
pub fn fn_keys_pairs_table() -> (t: Vec<(&'static str, Key)>)
    ensures
        t@ == fn_keys_pairs(),
{
    let t = vec![
        ("F1", Key::F1),
        ("F2", Key::F2),
        ("F3", Key::F3),
        ("F4", Key::F4),
        ("F5", Key::F5),
        ("F6", Key::F6),
        ("F7", Key::F7),
        ("F8", Key::F8),
        ("F9", Key::F9),
        ("F10", Key::F10),
        ("F11", Key::F11),
        ("F12", Key::F12),
    ];
    assert(t@ =~= fn_keys_pairs());
    t
}

/// Number row: upper label, lower label and key.
pub open spec fn num_key_line_pairs() -> Seq<(&'static str, &'static str, Key)> {
    seq![
        ("`", "~", Key::BackQuote),
        ("!", "1", Key::Num1),
        ("@", "2", Key::Num2),
        ("#", "3", Key::Num3),
        ("$", "4", Key::Num4),
        ("%", "5", Key::Num5),
        ("^", "6", Key::Num6),
        ("&", "7", Key::Num7),
        ("*", "8", Key::Num8),
        ("(", "9", Key::Num9),
        (")", "0", Key::Num0),
        ("-", "_", Key::Minus),
        ("+", "=", Key::Equal),
    ]
}

/// The table `num_key_line_pairs` as a vector.
pub fn num_key_line_pairs_table() -> (t: Vec<(&'static str, &'static str, Key)>)
    ensures
        t@ == num_key_line_pairs(),
{
    let t = vec![
        ("`", "~", Key::BackQuote),
        ("!", "1", Key::Num1),
        ("@", "2", Key::Num2),
        ("#", "3", Key::Num3),
        ("$", "4", Key::Num4),
        ("%", "5", Key::Num5),
        ("^", "6", Key::Num6),
        ("&", "7", Key::Num7),
        ("*", "8", Key::Num8),
        ("(", "9", Key::Num9),
        (")", "0", Key::Num0),
        ("-", "_", Key::Minus),
        ("+", "=", Key::Equal),
    ];
    assert(t@ =~= num_key_line_pairs());
    t
}

/// Letters of the Q row.
pub open spec fn first_alpha_line_pairs() -> Seq<(&'static str, Key)> {
    seq![
        ("Q", Key::KeyQ),
        ("W", Key::KeyW),
        ("E", Key::KeyE),
        ("R", Key::KeyR),
        ("T", Key::KeyT),
        ("Y", Key::KeyY),
        ("U", Key::KeyU),
        ("I", Key::KeyI),
        ("O", Key::KeyO),
        ("P", Key::KeyP),
    ]
}

/// The table `first_alpha_line_pairs` as a vector.
pub fn first_alpha_line_pairs_table() -> (t: Vec<(&'static str, Key)>)
    ensures
        t@ == first_alpha_line_pairs(),
{
    let t = vec![
        ("Q", Key::KeyQ),
        ("W", Key::KeyW),
        ("E", Key::KeyE),
        ("R", Key::KeyR),
        ("T", Key::KeyT),
        ("Y", Key::KeyY),
        ("U", Key::KeyU),
        ("I", Key::KeyI),
        ("O", Key::KeyO),
        ("P", Key::KeyP),
    ];
    assert(t@ =~= first_alpha_line_pairs());
    t
}

/// Letters of the A row.
pub open spec fn second_alpha_line_pairs() -> Seq<(&'static str, Key)> {
    seq![
        ("A", Key::KeyA),
        ("S", Key::KeyS),
        ("D", Key::KeyD),
        ("F", Key::KeyF),
        ("G", Key::KeyG),
        ("H", Key::KeyH),
        ("J", Key::KeyJ),
        ("K", Key::KeyK),
        ("L", Key::KeyL),
    ]
}

/// The table `second_alpha_line_pairs` as a vector.
pub fn second_alpha_line_pairs_table() -> (t: Vec<(&'static str, Key)>)
    ensures
        t@ == second_alpha_line_pairs(),
{
    let t = vec![
        ("A", Key::KeyA),
        ("S", Key::KeyS),
        ("D", Key::KeyD),
        ("F", Key::KeyF),
        ("G", Key::KeyG),
        ("H", Key::KeyH),
        ("J", Key::KeyJ),
        ("K", Key::KeyK),
        ("L", Key::KeyL),
    ];
    assert(t@ =~= second_alpha_line_pairs());
    t
}

/// Letters of the Z row.
pub open spec fn third_alpha_line_pairs() -> Seq<(&'static str, Key)> {
    seq![
        ("Z", Key::KeyZ),
        ("X", Key::KeyX),
        ("C", Key::KeyC),
        ("V", Key::KeyV),
        ("B", Key::KeyB),
        ("N", Key::KeyN),
        ("M", Key::KeyM),
    ]
}

/// The table `third_alpha_line_pairs` as a vector.
pub fn third_alpha_line_pairs_table() -> (t: Vec<(&'static str, Key)>)
    ensures
        t@ == third_alpha_line_pairs(),
{
    let t = vec![
        ("Z", Key::KeyZ),
        ("X", Key::KeyX),
        ("C", Key::KeyC),
        ("V", Key::KeyV),
        ("B", Key::KeyB),
        ("N", Key::KeyN),
        ("M", Key::KeyM),
    ];
    assert(t@ =~= third_alpha_line_pairs());
    t
}

/// Letters of the Z row of the split Alice board, whose B key is doubled.
pub open spec fn third_alpha_line_pairs_alice() -> Seq<(&'static str, Key)> {
    seq![
        ("Z", Key::KeyZ),
        ("X", Key::KeyX),
        ("C", Key::KeyC),
        ("V", Key::KeyV),
        ("B1", Key::KeyB),
        ("B2", Key::KeyB),
        ("N", Key::KeyN),
        ("M", Key::KeyM),
    ]
}

/// The table `third_alpha_line_pairs_alice` as a vector.
pub fn third_alpha_line_pairs_alice_table() -> (t: Vec<(&'static str, Key)>)
    ensures
        t@ == third_alpha_line_pairs_alice(),
{
    let t = vec![
        ("Z", Key::KeyZ),
        ("X", Key::KeyX),
        ("C", Key::KeyC),
        ("V", Key::KeyV),
        ("B1", Key::KeyB),
        ("B2", Key::KeyB),
        ("N", Key::KeyN),
        ("M", Key::KeyM),
    ];
    assert(t@ =~= third_alpha_line_pairs_alice());
    t
}

/// A key of the Alice board with one label, placed by the rotation
/// configuration at `row`, `col` under its label.
pub open spec fn alice_single(w: u32, h: u32, key: Key, label: &'static str, row: int, col: int) -> LayoutItem {
    LayoutItem::Key(spec_single(w, h, key, label, alice_placement(row, col, label@)))
}

/// A key of the Alice board with two labels, placed by the rotation
/// configuration at `row`, `col` under its lower label followed by its upper one.
pub open spec fn alice_double(
    w: u32,
    h: u32,
    key: Key,
    top: &'static str,
    bottom: &'static str,
    row: int,
    col: int,
) -> LayoutItem {
    LayoutItem::Key(spec_double(w, h, key, top, bottom, alice_placement(row, col, bottom@ + top@)))
}

fn alice_single_key(
    config: &Vec<TiltEntry>,
    w: u32,
    h: u32,
    key: Key,
    label: &'static str,
    row: usize,
    col: usize,
) -> (r: LayoutItem)
    requires
        config@ == alice_rotation_entries(),
    returns
        alice_single(w, h, key, label, row as int, col as int),
{
    let p = lookup_placement(config, row, col, label);
    LayoutItem::Key(KeySpec { width: w, height: h, key, labels: Labels::Center(label), placement: p })
}

fn alice_double_key(
    config: &Vec<TiltEntry>,
    w: u32,
    h: u32,
    key: Key,
    top: &'static str,
    bottom: &'static str,
    row: usize,
    col: usize,
) -> (r: LayoutItem)
    requires
        config@ == alice_rotation_entries(),
    returns
        alice_double(w, h, key, top, bottom, row as int, col as int),
{
    let mut label = String::from_str(bottom);
    label.append(top);
    let p = lookup_placement(config, row, col, label.as_str());
    LayoutItem::Key(
        KeySpec { width: w, height: h, key, labels: Labels::TopBottom(top, bottom), placement: p },
    )
}

fn level_cell(w: u32, h: u32, key: Key, label: &'static str) -> (c: Cell)
    returns
        Cell::Key(spec_single(w, h, key, label, level())),
{
    Cell::Key(
        KeySpec {
            width: w,
            height: h,
            key,
            labels: Labels::Center(label),
            placement: Placement { tilt: Tilt::Level, offset_x: 0, offset_y: 0 },
        },
    )
}

/// Escape, the function keys and power.
pub open spec fn mac_row_0() -> Seq<LayoutItem> {
    seq![
        single(70, 50, Key::Escape, "Esc"),
    ]
        + singles(fn_keys_pairs(), RunStyle::Plain, 50, 50)
        + seq![
        single(50, 50, Key::Unknown(0), "Power"),
    ]
}

fn mac_row_0_items() -> (r: Vec<LayoutItem>)
    ensures
        r@ == mac_row_0(),
{
    let empty: Vec<TiltEntry> = Vec::new();
    let config = &empty;
    let mut r: Vec<LayoutItem> = Vec::new();
    r.push(single_key(70, 50, Key::Escape, "Esc"));
    {
        let t = fn_keys_pairs_table();
        push_singles(&mut r, config, &t, RunStyle::Plain, 50, 50);
    }
    r.push(single_key(50, 50, Key::Unknown(0), "Power"));
    assert(r@ =~= mac_row_0());
    r
}

/// The number row and backspace.
pub open spec fn mac_row_1() -> Seq<LayoutItem> {
    doubles(num_key_line_pairs(), RunStyle::Plain, 50, 50)
        + seq![
        single(70, 50, Key::Backspace, "Back"),
    ]
}

fn mac_row_1_items() -> (r: Vec<LayoutItem>)
    ensures
        r@ == mac_row_1(),
{
    let empty: Vec<TiltEntry> = Vec::new();
    let config = &empty;
    let mut r: Vec<LayoutItem> = Vec::new();
    {
        let t = num_key_line_pairs_table();
        push_doubles(&mut r, config, &t, RunStyle::Plain, 50, 50);
    }
    r.push(single_key(70, 50, Key::Backspace, "Back"));
    assert(r@ =~= mac_row_1());
    r
}

/// Tab, the Q row and the bracket keys.
pub open spec fn mac_row_2() -> Seq<LayoutItem> {
    seq![
        single(70, 50, Key::Tab, "Tab"),
    ]
        + singles(first_alpha_line_pairs(), RunStyle::Plain, 50, 50)
        + seq![
        double(50, 50, Key::LeftBracket, "[", "{"),
        double(50, 50, Key::RightBracket, "]", "}"),
        double(50, 50, Key::BackSlash, "\\", "|"),
    ]
}

fn mac_row_2_items() -> (r: Vec<LayoutItem>)
    ensures
        r@ == mac_row_2(),
{
    let empty: Vec<TiltEntry> = Vec::new();
    let config = &empty;
    let mut r: Vec<LayoutItem> = Vec::new();
    r.push(single_key(70, 50, Key::Tab, "Tab"));
    {
        let t = first_alpha_line_pairs_table();
        push_singles(&mut r, config, &t, RunStyle::Plain, 50, 50);
    }
    r.push(double_key(50, 50, Key::LeftBracket, "[", "{"));
    r.push(double_key(50, 50, Key::RightBracket, "]", "}"));
    r.push(double_key(50, 50, Key::BackSlash, "\\", "|"));
    assert(r@ =~= mac_row_2());
    r
}

/// Caps lock, the A row and enter.
pub open spec fn mac_row_3() -> Seq<LayoutItem> {
    seq![
        single(85, 50, Key::CapsLock, "Caps\nLock"),
    ]
        + singles(second_alpha_line_pairs(), RunStyle::Plain, 50, 50)
        + seq![
        double(50, 50, Key::SemiColon, ":", ";"),
        double(50, 50, Key::Quote, "\"", "'"),
        single(93, 50, Key::Return, "Enter"),
    ]
}

fn mac_row_3_items() -> (r: Vec<LayoutItem>)
    ensures
        r@ == mac_row_3(),
{
    let empty: Vec<TiltEntry> = Vec::new();
    let config = &empty;
    let mut r: Vec<LayoutItem> = Vec::new();
    r.push(single_key(85, 50, Key::CapsLock, "Caps\nLock"));
    {
        let t = second_alpha_line_pairs_table();
        push_singles(&mut r, config, &t, RunStyle::Plain, 50, 50);
    }
    r.push(double_key(50, 50, Key::SemiColon, ":", ";"));
    r.push(double_key(50, 50, Key::Quote, "\"", "'"));
    r.push(single_key(93, 50, Key::Return, "Enter"));
    assert(r@ =~= mac_row_3());
    r
}

/// Both shift keys around the Z row.
pub open spec fn mac_row_4() -> Seq<LayoutItem> {
    seq![
        single(118, 50, Key::ShiftLeft, "Shift"),
    ]
        + singles(third_alpha_line_pairs(), RunStyle::Plain, 50, 50)
        + seq![
        double(50, 50, Key::Comma, "<", ","),
        double(50, 50, Key::Dot, ">", "."),
        double(50, 50, Key::Slash, "?", "/"),
        single(118, 50, Key::ShiftRight, "Shift"),
    ]
}

fn mac_row_4_items() -> (r: Vec<LayoutItem>)
    ensures
        r@ == mac_row_4(),
{
    let empty: Vec<TiltEntry> = Vec::new();
    let config = &empty;
    let mut r: Vec<LayoutItem> = Vec::new();
    r.push(single_key(118, 50, Key::ShiftLeft, "Shift"));
    {
        let t = third_alpha_line_pairs_table();
        push_singles(&mut r, config, &t, RunStyle::Plain, 50, 50);
    }
    r.push(double_key(50, 50, Key::Comma, "<", ","));
    r.push(double_key(50, 50, Key::Dot, ">", "."));
    r.push(double_key(50, 50, Key::Slash, "?", "/"));
    r.push(single_key(118, 50, Key::ShiftRight, "Shift"));
    assert(r@ =~= mac_row_4());
    r
}

/// Modifiers, space and the inverted-T arrow keys.
pub open spec fn mac_row_5() -> Seq<LayoutItem> {
    seq![
        single(50, 50, Key::Function, "Fn"),
        single(50, 50, Key::ControlLeft, "Ctrl"),
        single(50, 50, Key::Alt, "Opt"),
        single(61, 50, Key::MetaLeft, "Cmd"),
        single(280, 50, Key::Space, " "),
        single(61, 50, Key::MetaRight, "Cmd"),
        single(50, 50, Key::AltGr, "Opt"),
        LayoutItem::Stack(Cell::Blank(50, 24), Cell::Key(spec_single(50, 24, Key::LeftArrow, "←", level()))),
        LayoutItem::Stack(Cell::Key(spec_single(50, 24, Key::UpArrow, "↑", level())), Cell::Key(spec_single(50, 24, Key::DownArrow, "↓", level()))),
        LayoutItem::Stack(Cell::Blank(50, 25), Cell::Key(spec_single(50, 24, Key::RightArrow, "→", level()))),
    ]
}

fn mac_row_5_items() -> (r: Vec<LayoutItem>)
    ensures
        r@ == mac_row_5(),
{
    let empty: Vec<TiltEntry> = Vec::new();
    let config = &empty;
    let mut r: Vec<LayoutItem> = Vec::new();
    r.push(single_key(50, 50, Key::Function, "Fn"));
    r.push(single_key(50, 50, Key::ControlLeft, "Ctrl"));
    r.push(single_key(50, 50, Key::Alt, "Opt"));
    r.push(single_key(61, 50, Key::MetaLeft, "Cmd"));
    r.push(single_key(280, 50, Key::Space, " "));
    r.push(single_key(61, 50, Key::MetaRight, "Cmd"));
    r.push(single_key(50, 50, Key::AltGr, "Opt"));
    r.push(LayoutItem::Stack(Cell::Blank(50, 24), level_cell(50, 24, Key::LeftArrow, "←")));
    r.push(LayoutItem::Stack(level_cell(50, 24, Key::UpArrow, "↑"), level_cell(50, 24, Key::DownArrow, "↓")));
    r.push(LayoutItem::Stack(Cell::Blank(50, 25), level_cell(50, 24, Key::RightArrow, "→")));
    assert(r@ =~= mac_row_5());
    r
}

/// Escape, the function keys in groups of four, and print screen, scroll lock and pause.
pub open spec fn keys87_row_0() -> Seq<LayoutItem> {
    seq![
        single(50, 50, Key::Escape, "Esc"),
        LayoutItem::Blank(50, 50),
    ]
        + singles(fn_keys_pairs(), RunStyle::FnBlocks, 50, 50)
        + seq![
        LayoutItem::Gap(15),
        single(50, 50, Key::PrintScreen, "PrtSc"),
        single(50, 50, Key::ScrollLock, "ScrLk"),
        single(50, 50, Key::Pause, "Pause"),
    ]
}

fn keys87_row_0_items() -> (r: Vec<LayoutItem>)
    ensures
        r@ == keys87_row_0(),
{
    let empty: Vec<TiltEntry> = Vec::new();
    let config = &empty;
    let mut r: Vec<LayoutItem> = Vec::new();
    r.push(single_key(50, 50, Key::Escape, "Esc"));
    r.push(LayoutItem::Blank(50, 50));
    {
        let t = fn_keys_pairs_table();
        push_singles(&mut r, config, &t, RunStyle::FnBlocks, 50, 50);
    }
    r.push(LayoutItem::Gap(15));
    r.push(single_key(50, 50, Key::PrintScreen, "PrtSc"));
    r.push(single_key(50, 50, Key::ScrollLock, "ScrLk"));
    r.push(single_key(50, 50, Key::Pause, "Pause"));
    assert(r@ =~= keys87_row_0());
    r
}

/// The number row, backspace, and insert, home and page up.
pub open spec fn keys87_row_1() -> Seq<LayoutItem> {
    doubles(num_key_line_pairs(), RunStyle::Plain, 50, 50)
        + seq![
        single(100, 50, Key::Backspace, "Back"),
        LayoutItem::Gap(15),
        single(50, 50, Key::Insert, "Ins"),
        single(50, 50, Key::Home, "Home"),
        single(50, 50, Key::PageUp, "PgUp"),
    ]
}

fn keys87_row_1_items() -> (r: Vec<LayoutItem>)
    ensures
        r@ == keys87_row_1(),
{
    let empty: Vec<TiltEntry> = Vec::new();
    let config = &empty;
    let mut r: Vec<LayoutItem> = Vec::new();
    {
        let t = num_key_line_pairs_table();
        push_doubles(&mut r, config, &t, RunStyle::Plain, 50, 50);
    }
    r.push(single_key(100, 50, Key::Backspace, "Back"));
    r.push(LayoutItem::Gap(15));
    r.push(single_key(50, 50, Key::Insert, "Ins"));
    r.push(single_key(50, 50, Key::Home, "Home"));
    r.push(single_key(50, 50, Key::PageUp, "PgUp"));
    assert(r@ =~= keys87_row_1());
    r
}

/// Tab, the Q row, the bracket keys, and delete, end and page down.
pub open spec fn keys87_row_2() -> Seq<LayoutItem> {
    seq![
        single(70, 50, Key::Tab, "Tab"),
    ]
        + singles(first_alpha_line_pairs(), RunStyle::Plain, 50, 50)
        + seq![
        double(50, 50, Key::LeftBracket, "[", "{"),
        double(50, 50, Key::RightBracket, "]", "}"),
        double(80, 50, Key::BackSlash, "\\", "|"),
        LayoutItem::Gap(15),
        single(50, 50, Key::Delete, "Del"),
        single(50, 50, Key::End, "End"),
        single(50, 50, Key::PageDown, "PgDn"),
    ]
}

fn keys87_row_2_items() -> (r: Vec<LayoutItem>)
    ensures
        r@ == keys87_row_2(),
{
    let empty: Vec<TiltEntry> = Vec::new();
    let config = &empty;
    let mut r: Vec<LayoutItem> = Vec::new();
    r.push(single_key(70, 50, Key::Tab, "Tab"));
    {
        let t = first_alpha_line_pairs_table();
        push_singles(&mut r, config, &t, RunStyle::Plain, 50, 50);
    }
    r.push(double_key(50, 50, Key::LeftBracket, "[", "{"));
    r.push(double_key(50, 50, Key::RightBracket, "]", "}"));
    r.push(double_key(80, 50, Key::BackSlash, "\\", "|"));
    r.push(LayoutItem::Gap(15));
    r.push(single_key(50, 50, Key::Delete, "Del"));
    r.push(single_key(50, 50, Key::End, "End"));
    r.push(single_key(50, 50, Key::PageDown, "PgDn"));
    assert(r@ =~= keys87_row_2());
    r
}

/// Caps lock, the A row, enter and three blank places.
pub open spec fn keys87_row_3() -> Seq<LayoutItem> {
    seq![
        single(85, 50, Key::CapsLock, "Caps\nLock"),
    ]
        + singles(second_alpha_line_pairs(), RunStyle::Plain, 50, 50)
        + seq![
        double(50, 50, Key::SemiColon, ":", ";"),
        double(50, 50, Key::Quote, "\"", "'"),
        single(123, 50, Key::Return, "Enter"),
        LayoutItem::Gap(15),
        LayoutItem::Blank(50, 50),
        LayoutItem::Blank(50, 50),
        LayoutItem::Blank(50, 50),
    ]
}

fn keys87_row_3_items() -> (r: Vec<LayoutItem>)
    ensures
        r@ == keys87_row_3(),
{
    let empty: Vec<TiltEntry> = Vec::new();
    let config = &empty;
    let mut r: Vec<LayoutItem> = Vec::new();
    r.push(single_key(85, 50, Key::CapsLock, "Caps\nLock"));
    {
        let t = second_alpha_line_pairs_table();
        push_singles(&mut r, config, &t, RunStyle::Plain, 50, 50);
    }
    r.push(double_key(50, 50, Key::SemiColon, ":", ";"));
    r.push(double_key(50, 50, Key::Quote, "\"", "'"));
    r.push(single_key(123, 50, Key::Return, "Enter"));
    r.push(LayoutItem::Gap(15));
    r.push(LayoutItem::Blank(50, 50));
    r.push(LayoutItem::Blank(50, 50));
    r.push(LayoutItem::Blank(50, 50));
    assert(r@ =~= keys87_row_3());
    r
}

/// Both shift keys around the Z row, and the up arrow between two blanks.
pub open spec fn keys87_row_4() -> Seq<LayoutItem> {
    seq![
        single(118, 50, Key::ShiftLeft, "Shift"),
    ]
        + singles(third_alpha_line_pairs(), RunStyle::Plain, 50, 50)
        + seq![
        double(50, 50, Key::Comma, "<", ","),
        double(50, 50, Key::Dot, ">", "."),
        double(50, 50, Key::Slash, "?", "/"),
        single(148, 50, Key::ShiftRight, "Shift"),
        LayoutItem::Gap(15),
        LayoutItem::Blank(50, 50),
        single(50, 50, Key::UpArrow, "↑"),
        LayoutItem::Blank(50, 50),
    ]
}

fn keys87_row_4_items() -> (r: Vec<LayoutItem>)
    ensures
        r@ == keys87_row_4(),
{
    let empty: Vec<TiltEntry> = Vec::new();
    let config = &empty;
    let mut r: Vec<LayoutItem> = Vec::new();
    r.push(single_key(118, 50, Key::ShiftLeft, "Shift"));
    {
        let t = third_alpha_line_pairs_table();
        push_singles(&mut r, config, &t, RunStyle::Plain, 50, 50);
    }
    r.push(double_key(50, 50, Key::Comma, "<", ","));
    r.push(double_key(50, 50, Key::Dot, ">", "."));
    r.push(double_key(50, 50, Key::Slash, "?", "/"));
    r.push(single_key(148, 50, Key::ShiftRight, "Shift"));
    r.push(LayoutItem::Gap(15));
    r.push(LayoutItem::Blank(50, 50));
    r.push(single_key(50, 50, Key::UpArrow, "↑"));
    r.push(LayoutItem::Blank(50, 50));
    assert(r@ =~= keys87_row_4());
    r
}

/// Modifiers, space, menu and the arrow keys.
pub open spec fn keys87_row_5() -> Seq<LayoutItem> {
    seq![
        single(60, 50, Key::ControlLeft, "Ctrl"),
        single(60, 50, Key::MetaLeft, "Win"),
        single(60, 50, Key::Alt, "Alt"),
        single(378, 50, Key::Space, " "),
        single(60, 50, Key::AltGr, "Alt"),
        single(60, 50, Key::Function, "Fn"),
        single(60, 50, Key::Unknown(110), "Menu"),
        single(60, 50, Key::ControlRight, "Ctrl"),
        LayoutItem::Gap(15),
        single(50, 50, Key::LeftArrow, "←"),
        single(50, 50, Key::UpArrow, "↑"),
        single(50, 50, Key::RightArrow, "→"),
    ]
}

fn keys87_row_5_items() -> (r: Vec<LayoutItem>)
    ensures
        r@ == keys87_row_5(),
{
    let empty: Vec<TiltEntry> = Vec::new();
    let config = &empty;
    let mut r: Vec<LayoutItem> = Vec::new();
    r.push(single_key(60, 50, Key::ControlLeft, "Ctrl"));
    r.push(single_key(60, 50, Key::MetaLeft, "Win"));
    r.push(single_key(60, 50, Key::Alt, "Alt"));
    r.push(single_key(378, 50, Key::Space, " "));
    r.push(single_key(60, 50, Key::AltGr, "Alt"));
    r.push(single_key(60, 50, Key::Function, "Fn"));
    r.push(single_key(60, 50, Key::Unknown(110), "Menu"));
    r.push(single_key(60, 50, Key::ControlRight, "Ctrl"));
    r.push(LayoutItem::Gap(15));
    r.push(single_key(50, 50, Key::LeftArrow, "←"));
    r.push(single_key(50, 50, Key::UpArrow, "↑"));
    r.push(single_key(50, 50, Key::RightArrow, "→"));
    assert(r@ =~= keys87_row_5());
    r
}

/// Escape and the number row, split between 6 and 7.
pub open spec fn alice_row_0() -> Seq<LayoutItem> {
    seq![
        LayoutItem::Gap(20),
        alice_single(50, 50, Key::Escape, "Esc", 0, 0),
        LayoutItem::Gap(10),
    ]
        + doubles(num_key_line_pairs(), RunStyle::Alice(0, 1), 50, 50)
        + seq![
        alice_single(110, 50, Key::Backspace, "Back", 0, 14),
    ]
}

fn alice_row_0_items(config: &Vec<TiltEntry>) -> (r: Vec<LayoutItem>)
    requires
        config@ == alice_rotation_entries(),
    ensures
        r@ == alice_row_0(),
{
    let mut r: Vec<LayoutItem> = Vec::new();
    r.push(LayoutItem::Gap(20));
    r.push(alice_single_key(config, 50, 50, Key::Escape, "Esc", 0, 0));
    r.push(LayoutItem::Gap(10));
    {
        let t = num_key_line_pairs_table();
        push_doubles(&mut r, config, &t, RunStyle::Alice(0, 1), 50, 50);
    }
    r.push(alice_single_key(config, 110, 50, Key::Backspace, "Back", 0, 14));
    assert(r@ =~= alice_row_0());
    r
}

/// Escape, tab and the Q row, split between T and Y.
pub open spec fn alice_row_1() -> Seq<LayoutItem> {
    seq![
        LayoutItem::Gap(10),
        alice_single(50, 50, Key::Escape, "Esc", 1, 0),
        LayoutItem::Gap(10),
        alice_single(70, 50, Key::Tab, "Tab", 1, 1),
    ]
        + singles(first_alpha_line_pairs(), RunStyle::Alice(1, 2), 50, 50)
        + seq![
        alice_double(50, 50, Key::LeftBracket, "[", "{", 1, 12),
        alice_double(50, 50, Key::RightBracket, "]", "}", 1, 13),
        alice_double(80, 50, Key::BackSlash, "\\", "|", 1, 14),
    ]
}

fn alice_row_1_items(config: &Vec<TiltEntry>) -> (r: Vec<LayoutItem>)
    requires
        config@ == alice_rotation_entries(),
    ensures
        r@ == alice_row_1(),
{
    let mut r: Vec<LayoutItem> = Vec::new();
    r.push(LayoutItem::Gap(10));
    r.push(alice_single_key(config, 50, 50, Key::Escape, "Esc", 1, 0));
    r.push(LayoutItem::Gap(10));
    r.push(alice_single_key(config, 70, 50, Key::Tab, "Tab", 1, 1));
    {
        let t = first_alpha_line_pairs_table();
        push_singles(&mut r, config, &t, RunStyle::Alice(1, 2), 50, 50);
    }
    r.push(alice_double_key(config, 50, 50, Key::LeftBracket, "[", "{", 1, 12));
    r.push(alice_double_key(config, 50, 50, Key::RightBracket, "]", "}", 1, 13));
    r.push(alice_double_key(config, 80, 50, Key::BackSlash, "\\", "|", 1, 14));
    assert(r@ =~= alice_row_1());
    r
}

/// Escape, caps lock and the A row, split between G and H.
pub open spec fn alice_row_2() -> Seq<LayoutItem> {
    seq![
        alice_single(50, 50, Key::Escape, "Esc", 2, 0),
        LayoutItem::Gap(10),
        alice_single(85, 50, Key::CapsLock, "Caps\nLock", 2, 1),
    ]
        + singles(second_alpha_line_pairs(), RunStyle::Alice(2, 2), 50, 50)
        + seq![
        alice_double(50, 50, Key::SemiColon, ":", ";", 2, 11),
        alice_double(50, 50, Key::Quote, "\"", "'", 2, 12),
        alice_single(125, 50, Key::Return, "Enter", 2, 13),
    ]
}

fn alice_row_2_items(config: &Vec<TiltEntry>) -> (r: Vec<LayoutItem>)
    requires
        config@ == alice_rotation_entries(),
    ensures
        r@ == alice_row_2(),
{
    let mut r: Vec<LayoutItem> = Vec::new();
    r.push(alice_single_key(config, 50, 50, Key::Escape, "Esc", 2, 0));
    r.push(LayoutItem::Gap(10));
    r.push(alice_single_key(config, 85, 50, Key::CapsLock, "Caps\nLock", 2, 1));
    {
        let t = second_alpha_line_pairs_table();
        push_singles(&mut r, config, &t, RunStyle::Alice(2, 2), 50, 50);
    }
    r.push(alice_double_key(config, 50, 50, Key::SemiColon, ":", ";", 2, 11));
    r.push(alice_double_key(config, 50, 50, Key::Quote, "\"", "'", 2, 12));
    r.push(alice_single_key(config, 125, 50, Key::Return, "Enter", 2, 13));
    assert(r@ =~= alice_row_2());
    r
}

/// Both shift keys around the Z row, whose B key sits on both halves.
pub open spec fn alice_row_3() -> Seq<LayoutItem> {
    seq![
        LayoutItem::Blank(50, 50),
        alice_single(118, 50, Key::ShiftLeft, "Shift", 3, 0),
    ]
        + singles(third_alpha_line_pairs_alice(), RunStyle::Alice(3, 1), 50, 50)
        + seq![
        alice_double(50, 50, Key::Comma, "<", ",", 3, 9),
        LayoutItem::Gap(8),
        alice_double(50, 50, Key::Dot, ">", ".", 3, 10),
        alice_double(50, 50, Key::Slash, "?", "/", 3, 11),
        alice_single(50, 50, Key::UpArrow, "↑", 3, 12),
        alice_single(100, 50, Key::ShiftRight, "Shift", 3, 13),
    ]
}

fn alice_row_3_items(config: &Vec<TiltEntry>) -> (r: Vec<LayoutItem>)
    requires
        config@ == alice_rotation_entries(),
    ensures
        r@ == alice_row_3(),
{
    let mut r: Vec<LayoutItem> = Vec::new();
    r.push(LayoutItem::Blank(50, 50));
    r.push(alice_single_key(config, 118, 50, Key::ShiftLeft, "Shift", 3, 0));
    {
        let t = third_alpha_line_pairs_alice_table();
        push_singles(&mut r, config, &t, RunStyle::Alice(3, 1), 50, 50);
    }
    r.push(alice_double_key(config, 50, 50, Key::Comma, "<", ",", 3, 9));
    r.push(LayoutItem::Gap(8));
    r.push(alice_double_key(config, 50, 50, Key::Dot, ">", ".", 3, 10));
    r.push(alice_double_key(config, 50, 50, Key::Slash, "?", "/", 3, 11));
    r.push(alice_single_key(config, 50, 50, Key::UpArrow, "↑", 3, 12));
    r.push(alice_single_key(config, 100, 50, Key::ShiftRight, "Shift", 3, 13));
    assert(r@ =~= alice_row_3());
    r
}

/// Modifiers, the two halves of the space bar and the arrow keys.
pub open spec fn alice_row_4() -> Seq<LayoutItem> {
    seq![
        LayoutItem::Blank(50, 50),
        alice_single(65, 50, Key::ControlLeft, "Ctrl", 4, 0),
        alice_single(65, 50, Key::Function, "Fn", 4, 1),
        LayoutItem::Gap(65),
        alice_single(61, 50, Key::MetaLeft, "Cmd", 4, 2),
        alice_single(120, 50, Key::Alt, "Option", 4, 3),
        LayoutItem::Gap(50),
        alice_single(158, 50, Key::Space, " ", 4, 4),
        alice_single(65, 50, Key::MetaLeft, "Win", 4, 5),
        LayoutItem::Gap(35),
        alice_single(50, 50, Key::LeftArrow, "←", 4, 6),
        alice_single(50, 50, Key::DownArrow, "↓", 4, 7),
        alice_single(50, 50, Key::RightArrow, "→", 4, 8),
    ]
}

fn alice_row_4_items(config: &Vec<TiltEntry>) -> (r: Vec<LayoutItem>)
    requires
        config@ == alice_rotation_entries(),
    ensures
        r@ == alice_row_4(),
{
    let mut r: Vec<LayoutItem> = Vec::new();
    r.push(LayoutItem::Blank(50, 50));
    r.push(alice_single_key(config, 65, 50, Key::ControlLeft, "Ctrl", 4, 0));
    r.push(alice_single_key(config, 65, 50, Key::Function, "Fn", 4, 1));
    r.push(LayoutItem::Gap(65));
    r.push(alice_single_key(config, 61, 50, Key::MetaLeft, "Cmd", 4, 2));
    r.push(alice_single_key(config, 120, 50, Key::Alt, "Option", 4, 3));
    r.push(LayoutItem::Gap(50));
    r.push(alice_single_key(config, 158, 50, Key::Space, " ", 4, 4));
    r.push(alice_single_key(config, 65, 50, Key::MetaLeft, "Win", 4, 5));
    r.push(LayoutItem::Gap(35));
    r.push(alice_single_key(config, 50, 50, Key::LeftArrow, "←", 4, 6));
    r.push(alice_single_key(config, 50, 50, Key::DownArrow, "↓", 4, 7));
    r.push(alice_single_key(config, 50, 50, Key::RightArrow, "→", 4, 8));
    assert(r@ =~= alice_row_4());
    r
}

/// Horizontal space the window leaves between two items of a row.
pub const ITEM_SPACING: u32 = 8;

/// Width of a cell of a vertical pair.
pub open spec fn cell_width(c: Cell) -> int {
    match c {
        Cell::Key(k) => k.width as int,
        Cell::Blank(w, _) => w as int,
    }
}

/// Width an item takes in its row; a vertical pair is as wide as its wider cell.
pub open spec fn item_width(it: LayoutItem) -> int {
    match it {
        LayoutItem::Key(k) => k.width as int,
        LayoutItem::Blank(w, _) => w as int,
        LayoutItem::Gap(g) => g as int,
        LayoutItem::Stack(a, b) => if cell_width(a) >= cell_width(b) {
            cell_width(a)
        } else {
            cell_width(b)
        },
    }
}

/// Summed widths of the items of a row.
pub open spec fn total_width(s: Seq<LayoutItem>) -> int
    decreases s.len(),
{
    if s.len() == 0 {
        0
    } else {
        total_width(s.drop_last()) + item_width(s.last())
    }
}

/// Number of items of a row that are not gaps; the window puts item
/// spacing between each two of them.
pub open spec fn widget_count(s: Seq<LayoutItem>) -> int
    decreases s.len(),
{
    if s.len() == 0 {
        0
    } else {
        widget_count(s.drop_last()) + if s.last() is Gap {
            0int
        } else {
            1int
        }
    }
}

/// How far a row reaches from its left edge with `spacing` between items.
pub open spec fn row_extent(s: Seq<LayoutItem>, spacing: int) -> int {
    total_width(s) + spacing * (widget_count(s) - 1)
}

proof fn lemma_concat(a: Seq<LayoutItem>, b: Seq<LayoutItem>)
    ensures
        total_width(a + b) == total_width(a) + total_width(b),
        widget_count(a + b) == widget_count(a) + widget_count(b),
    decreases b.len(),
{
    if b.len() > 0 {
        lemma_concat(a, b.drop_last());
        assert((a + b).drop_last() =~= a + b.drop_last());
        assert((a + b).last() == b.last());
    } else {
        assert(a + b =~= a);
    }
}

proof fn lemma_gap_item(g: u32)
    ensures
        total_width(gap_item(g)) == g,
        widget_count(gap_item(g)) == 0,
{
    let e = Seq::<LayoutItem>::empty();
    assert(total_width(e) == 0 && widget_count(e) == 0);
    if g != 0 {
        assert(gap_item(g).drop_last() =~= e);
        assert(gap_item(g).last() == LayoutItem::Gap(g));
    } else {
        assert(gap_item(g) =~= e);
    }
}

proof fn lemma_one(x: LayoutItem)
    ensures
        total_width(seq![x]) == item_width(x),
        widget_count(seq![x]) == if x is Gap {
            0int
        } else {
            1int
        },
{
    let e = Seq::<LayoutItem>::empty();
    assert(total_width(e) == 0 && widget_count(e) == 0);
    assert(seq![x].drop_last() =~= e);
    assert(seq![x].last() == x);
}

/// Summed gap widths of the first `n` keys of a run of one-label keys.
pub open spec fn single_gaps(t: Seq<(&'static str, Key)>, style: RunStyle, n: int) -> int
    decreases n,
{
    if n <= 0 {
        0
    } else {
        single_gaps(t, style, n - 1) + run_gap(style, t[n - 1].0@, t[n - 1].1)
    }
}

/// Summed gap widths of the first `n` keys of a run of two-label keys.
pub open spec fn double_gaps(t: Seq<(&'static str, &'static str, Key)>, style: RunStyle, n: int) -> int
    decreases n,
{
    if n <= 0 {
        0
    } else {
        double_gaps(t, style, n - 1) + run_gap(style, t[n - 1].0@, t[n - 1].2)
    }
}

proof fn lemma_single_run(t: Seq<(&'static str, Key)>, style: RunStyle, w: u32, h: u32, n: int)
    requires
        0 <= n <= t.len(),
    ensures
        total_width(single_run(t, style, w, h, n)) == n * w + single_gaps(t, style, n),
        widget_count(single_run(t, style, w, h, n)) == n,
    decreases n,
{
    if n > 0 {
        lemma_single_run(t, style, w, h, n - 1);
        let e = t[n - 1];
        let k = LayoutItem::Key(spec_single(w, h, e.1, e.0, run_placement(style, n - 1, e.0@)));
        let g = run_gap(style, e.0@, e.1);
        lemma_concat(single_run(t, style, w, h, n - 1), seq![k]);
        lemma_concat(single_run(t, style, w, h, n - 1) + seq![k], gap_item(g));
        lemma_one(k);
        lemma_gap_item(g);
        assert(n * w == (n - 1) * w + w) by (nonlinear_arith);
    }
}

proof fn lemma_double_run(t: Seq<(&'static str, &'static str, Key)>, style: RunStyle, w: u32, h: u32, n: int)
    requires
        0 <= n <= t.len(),
    ensures
        total_width(double_run(t, style, w, h, n)) == n * w + double_gaps(t, style, n),
        widget_count(double_run(t, style, w, h, n)) == n,
    decreases n,
{
    if n > 0 {
        lemma_double_run(t, style, w, h, n - 1);
        let e = t[n - 1];
        let k = LayoutItem::Key(
            spec_double(w, h, e.2, e.0, e.1, run_placement(style, n - 1, e.1@ + e.0@)),
        );
        let g = run_gap(style, e.0@, e.2);
        lemma_concat(double_run(t, style, w, h, n - 1), seq![k]);
        lemma_concat(double_run(t, style, w, h, n - 1) + seq![k], gap_item(g));
        lemma_one(k);
        lemma_gap_item(g);
        assert(n * w == (n - 1) * w + w) by (nonlinear_arith);
    }
}

proof fn lemma_plain_gaps(t1: Seq<(&'static str, Key)>, t2: Seq<(&'static str, &'static str, Key)>, n: int)
    ensures
        single_gaps(t1, RunStyle::Plain, n) == 0,
        double_gaps(t2, RunStyle::Plain, n) == 0,
    decreases n,
{
    if n > 0 {
        lemma_plain_gaps(t1, t2, n - 1);
    }
}

proof fn lemma_fn_block_gaps()
    ensures
        single_gaps(fn_keys_pairs(), RunStyle::FnBlocks, 12) == 50,
{
    reveal_with_fuel(single_gaps, 13);
}

proof fn lemma_runs()
    ensures
        total_width(singles(fn_keys_pairs(), RunStyle::Plain, 50, 50)) == 600,
        widget_count(singles(fn_keys_pairs(), RunStyle::Plain, 50, 50)) == 12,
        total_width(singles(fn_keys_pairs(), RunStyle::FnBlocks, 50, 50)) == 650,
        widget_count(singles(fn_keys_pairs(), RunStyle::FnBlocks, 50, 50)) == 12,
        total_width(doubles(num_key_line_pairs(), RunStyle::Plain, 50, 50)) == 650,
        widget_count(doubles(num_key_line_pairs(), RunStyle::Plain, 50, 50)) == 13,
        total_width(singles(first_alpha_line_pairs(), RunStyle::Plain, 50, 50)) == 500,
        widget_count(singles(first_alpha_line_pairs(), RunStyle::Plain, 50, 50)) == 10,
        total_width(singles(second_alpha_line_pairs(), RunStyle::Plain, 50, 50)) == 450,
        widget_count(singles(second_alpha_line_pairs(), RunStyle::Plain, 50, 50)) == 9,
        total_width(singles(third_alpha_line_pairs(), RunStyle::Plain, 50, 50)) == 350,
        widget_count(singles(third_alpha_line_pairs(), RunStyle::Plain, 50, 50)) == 7,
{
    let e: Seq<(&'static str, &'static str, Key)> = seq![];
    lemma_single_run(fn_keys_pairs(), RunStyle::Plain, 50, 50, 12);
    lemma_plain_gaps(fn_keys_pairs(), e, 12);
    lemma_single_run(fn_keys_pairs(), RunStyle::FnBlocks, 50, 50, 12);
    lemma_fn_block_gaps();
    lemma_double_run(num_key_line_pairs(), RunStyle::Plain, 50, 50, 13);
    lemma_plain_gaps(fn_keys_pairs(), num_key_line_pairs(), 13);
    lemma_single_run(first_alpha_line_pairs(), RunStyle::Plain, 50, 50, 10);
    lemma_plain_gaps(first_alpha_line_pairs(), e, 10);
    lemma_single_run(second_alpha_line_pairs(), RunStyle::Plain, 50, 50, 9);
    lemma_plain_gaps(second_alpha_line_pairs(), e, 9);
    lemma_single_run(third_alpha_line_pairs(), RunStyle::Plain, 50, 50, 7);
    lemma_plain_gaps(third_alpha_line_pairs(), e, 7);
}
proof fn lemma_empty()
    ensures
        total_width(Seq::<LayoutItem>::empty()) == 0,
        widget_count(Seq::<LayoutItem>::empty()) == 0,
{
}

proof fn lemma_prefix(s: Seq<LayoutItem>, j: int)
    requires
        0 <= j < s.len(),
    ensures
        total_width(s.take(j + 1)) == total_width(s.take(j)) + item_width(s[j]),
        widget_count(s.take(j + 1)) == widget_count(s.take(j)) + if s[j] is Gap {
            0int
        } else {
            1int
        },
{
    assert(s.take(j + 1).drop_last() =~= s.take(j));
}

proof fn lemma_extent_mac_row_0()
    ensures
        total_width(mac_row_0()) == 720,
        widget_count(mac_row_0()) == 14,
{
    lemma_runs();
    lemma_empty();
    let s0 = seq![
        single(70, 50, Key::Escape, "Esc"),
    ];
    lemma_prefix(s0, 0);
    assert(s0.take(1) =~= s0);
    let s1 = singles(fn_keys_pairs(), RunStyle::Plain, 50, 50);
    let s2 = seq![
        single(50, 50, Key::Unknown(0), "Power"),
    ];
    lemma_prefix(s2, 0);
    assert(s2.take(1) =~= s2);
    lemma_concat(s0, s1);
    lemma_concat(s0 + s1, s2);
    assert(mac_row_0() == s0 + s1 + s2);
}

proof fn lemma_extent_mac_row_1()
    ensures
        total_width(mac_row_1()) == 720,
        widget_count(mac_row_1()) == 14,
{
    lemma_runs();
    lemma_empty();
    let s0 = doubles(num_key_line_pairs(), RunStyle::Plain, 50, 50);
    let s1 = seq![
        single(70, 50, Key::Backspace, "Back"),
    ];
    lemma_prefix(s1, 0);
    assert(s1.take(1) =~= s1);
    lemma_concat(s0, s1);
    assert(mac_row_1() == s0 + s1);
}

proof fn lemma_extent_mac_row_2()
    ensures
        total_width(mac_row_2()) == 720,
        widget_count(mac_row_2()) == 14,
{
    lemma_runs();
    lemma_empty();
    let s0 = seq![
        single(70, 50, Key::Tab, "Tab"),
    ];
    lemma_prefix(s0, 0);
    assert(s0.take(1) =~= s0);
    let s1 = singles(first_alpha_line_pairs(), RunStyle::Plain, 50, 50);
    let s2 = seq![
        double(50, 50, Key::LeftBracket, "[", "{"),
        double(50, 50, Key::RightBracket, "]", "}"),
        double(50, 50, Key::BackSlash, "\\", "|"),
    ];
    lemma_prefix(s2, 0);
    lemma_prefix(s2, 1);
    lemma_prefix(s2, 2);
    assert(s2.take(3) =~= s2);
    lemma_concat(s0, s1);
    lemma_concat(s0 + s1, s2);
    assert(mac_row_2() == s0 + s1 + s2);
}

proof fn lemma_extent_mac_row_3()
    ensures
        total_width(mac_row_3()) == 728,
        widget_count(mac_row_3()) == 13,
{
    lemma_runs();
    lemma_empty();
    let s0 = seq![
        single(85, 50, Key::CapsLock, "Caps\nLock"),
    ];
    lemma_prefix(s0, 0);
    assert(s0.take(1) =~= s0);
    let s1 = singles(second_alpha_line_pairs(), RunStyle::Plain, 50, 50);
    let s2 = seq![
        double(50, 50, Key::SemiColon, ":", ";"),
        double(50, 50, Key::Quote, "\"", "'"),
        single(93, 50, Key::Return, "Enter"),
    ];
    lemma_prefix(s2, 0);
    lemma_prefix(s2, 1);
    lemma_prefix(s2, 2);
    assert(s2.take(3) =~= s2);
    lemma_concat(s0, s1);
    lemma_concat(s0 + s1, s2);
    assert(mac_row_3() == s0 + s1 + s2);
}

proof fn lemma_extent_mac_row_4()
    ensures
        total_width(mac_row_4()) == 736,
        widget_count(mac_row_4()) == 12,
{
    lemma_runs();
    lemma_empty();
    let s0 = seq![
        single(118, 50, Key::ShiftLeft, "Shift"),
    ];
    lemma_prefix(s0, 0);
    assert(s0.take(1) =~= s0);
    let s1 = singles(third_alpha_line_pairs(), RunStyle::Plain, 50, 50);
    let s2 = seq![
        double(50, 50, Key::Comma, "<", ","),
        double(50, 50, Key::Dot, ">", "."),
        double(50, 50, Key::Slash, "?", "/"),
        single(118, 50, Key::ShiftRight, "Shift"),
    ];
    lemma_prefix(s2, 0);
    lemma_prefix(s2, 1);
    lemma_prefix(s2, 2);
    lemma_prefix(s2, 3);
    assert(s2.take(4) =~= s2);
    lemma_concat(s0, s1);
    lemma_concat(s0 + s1, s2);
    assert(mac_row_4() == s0 + s1 + s2);
}

proof fn lemma_extent_mac_row_5()
    ensures
        total_width(mac_row_5()) == 752,
        widget_count(mac_row_5()) == 10,
{
    lemma_runs();
    lemma_empty();
    let s0 = seq![
        single(50, 50, Key::Function, "Fn"),
        single(50, 50, Key::ControlLeft, "Ctrl"),
        single(50, 50, Key::Alt, "Opt"),
        single(61, 50, Key::MetaLeft, "Cmd"),
        single(280, 50, Key::Space, " "),
        single(61, 50, Key::MetaRight, "Cmd"),
        single(50, 50, Key::AltGr, "Opt"),
        LayoutItem::Stack(Cell::Blank(50, 24), Cell::Key(spec_single(50, 24, Key::LeftArrow, "←", level()))),
        LayoutItem::Stack(Cell::Key(spec_single(50, 24, Key::UpArrow, "↑", level())), Cell::Key(spec_single(50, 24, Key::DownArrow, "↓", level()))),
        LayoutItem::Stack(Cell::Blank(50, 25), Cell::Key(spec_single(50, 24, Key::RightArrow, "→", level()))),
    ];
    lemma_prefix(s0, 0);
    lemma_prefix(s0, 1);
    lemma_prefix(s0, 2);
    lemma_prefix(s0, 3);
    lemma_prefix(s0, 4);
    lemma_prefix(s0, 5);
    lemma_prefix(s0, 6);
    lemma_prefix(s0, 7);
    lemma_prefix(s0, 8);
    lemma_prefix(s0, 9);
    assert(s0.take(10) =~= s0);
    assert(mac_row_5() == s0);
}

proof fn lemma_extent_keys87_row_0()
    ensures
        total_width(keys87_row_0()) == 915,
        widget_count(keys87_row_0()) == 17,
{
    lemma_runs();
    lemma_empty();
    let s0 = seq![
        single(50, 50, Key::Escape, "Esc"),
        LayoutItem::Blank(50, 50),
    ];
    lemma_prefix(s0, 0);
    lemma_prefix(s0, 1);
    assert(s0.take(2) =~= s0);
    let s1 = singles(fn_keys_pairs(), RunStyle::FnBlocks, 50, 50);
    let s2 = seq![
        LayoutItem::Gap(15),
        single(50, 50, Key::PrintScreen, "PrtSc"),
        single(50, 50, Key::ScrollLock, "ScrLk"),
        single(50, 50, Key::Pause, "Pause"),
    ];
    lemma_prefix(s2, 0);
    lemma_prefix(s2, 1);
    lemma_prefix(s2, 2);
    lemma_prefix(s2, 3);
    assert(s2.take(4) =~= s2);
    lemma_concat(s0, s1);
    lemma_concat(s0 + s1, s2);
    assert(keys87_row_0() == s0 + s1 + s2);
}

proof fn lemma_extent_keys87_row_1()
    ensures
        total_width(keys87_row_1()) == 915,
        widget_count(keys87_row_1()) == 17,
{
    lemma_runs();
    lemma_empty();
    let s0 = doubles(num_key_line_pairs(), RunStyle::Plain, 50, 50);
    let s1 = seq![
        single(100, 50, Key::Backspace, "Back"),
        LayoutItem::Gap(15),
        single(50, 50, Key::Insert, "Ins"),
        single(50, 50, Key::Home, "Home"),
        single(50, 50, Key::PageUp, "PgUp"),
    ];
    lemma_prefix(s1, 0);
    lemma_prefix(s1, 1);
    lemma_prefix(s1, 2);
    lemma_prefix(s1, 3);
    lemma_prefix(s1, 4);
    assert(s1.take(5) =~= s1);
    lemma_concat(s0, s1);
    assert(keys87_row_1() == s0 + s1);
}

proof fn lemma_extent_keys87_row_2()
    ensures
        total_width(keys87_row_2()) == 915,
        widget_count(keys87_row_2()) == 17,
{
    lemma_runs();
    lemma_empty();
    let s0 = seq![
        single(70, 50, Key::Tab, "Tab"),
    ];
    lemma_prefix(s0, 0);
    assert(s0.take(1) =~= s0);
    let s1 = singles(first_alpha_line_pairs(), RunStyle::Plain, 50, 50);
    let s2 = seq![
        double(50, 50, Key::LeftBracket, "[", "{"),
        double(50, 50, Key::RightBracket, "]", "}"),
        double(80, 50, Key::BackSlash, "\\", "|"),
        LayoutItem::Gap(15),
        single(50, 50, Key::Delete, "Del"),
        single(50, 50, Key::End, "End"),
        single(50, 50, Key::PageDown, "PgDn"),
    ];
    lemma_prefix(s2, 0);
    lemma_prefix(s2, 1);
    lemma_prefix(s2, 2);
    lemma_prefix(s2, 3);
    lemma_prefix(s2, 4);
    lemma_prefix(s2, 5);
    lemma_prefix(s2, 6);
    assert(s2.take(7) =~= s2);
    lemma_concat(s0, s1);
    lemma_concat(s0 + s1, s2);
    assert(keys87_row_2() == s0 + s1 + s2);
}

proof fn lemma_extent_keys87_row_3()
    ensures
        total_width(keys87_row_3()) == 923,
        widget_count(keys87_row_3()) == 16,
{
    lemma_runs();
    lemma_empty();
    let s0 = seq![
        single(85, 50, Key::CapsLock, "Caps\nLock"),
    ];
    lemma_prefix(s0, 0);
    assert(s0.take(1) =~= s0);
    let s1 = singles(second_alpha_line_pairs(), RunStyle::Plain, 50, 50);
    let s2 = seq![
        double(50, 50, Key::SemiColon, ":", ";"),
        double(50, 50, Key::Quote, "\"", "'"),
        single(123, 50, Key::Return, "Enter"),
        LayoutItem::Gap(15),
        LayoutItem::Blank(50, 50),
        LayoutItem::Blank(50, 50),
        LayoutItem::Blank(50, 50),
    ];
    lemma_prefix(s2, 0);
    lemma_prefix(s2, 1);
    lemma_prefix(s2, 2);
    lemma_prefix(s2, 3);
    lemma_prefix(s2, 4);
    lemma_prefix(s2, 5);
    lemma_prefix(s2, 6);
    assert(s2.take(7) =~= s2);
    lemma_concat(s0, s1);
    lemma_concat(s0 + s1, s2);
    assert(keys87_row_3() == s0 + s1 + s2);
}

proof fn lemma_extent_keys87_row_4()
    ensures
        total_width(keys87_row_4()) == 931,
        widget_count(keys87_row_4()) == 15,
{
    lemma_runs();
    lemma_empty();
    let s0 = seq![
        single(118, 50, Key::ShiftLeft, "Shift"),
    ];
    lemma_prefix(s0, 0);
    assert(s0.take(1) =~= s0);
    let s1 = singles(third_alpha_line_pairs(), RunStyle::Plain, 50, 50);
    let s2 = seq![
        double(50, 50, Key::Comma, "<", ","),
        double(50, 50, Key::Dot, ">", "."),
        double(50, 50, Key::Slash, "?", "/"),
        single(148, 50, Key::ShiftRight, "Shift"),
        LayoutItem::Gap(15),
        LayoutItem::Blank(50, 50),
        single(50, 50, Key::UpArrow, "↑"),
        LayoutItem::Blank(50, 50),
    ];
    lemma_prefix(s2, 0);
    lemma_prefix(s2, 1);
    lemma_prefix(s2, 2);
    lemma_prefix(s2, 3);
    lemma_prefix(s2, 4);
    lemma_prefix(s2, 5);
    lemma_prefix(s2, 6);
    lemma_prefix(s2, 7);
    assert(s2.take(8) =~= s2);
    lemma_concat(s0, s1);
    lemma_concat(s0 + s1, s2);
    assert(keys87_row_4() == s0 + s1 + s2);
}

proof fn lemma_extent_keys87_row_5()
    ensures
        total_width(keys87_row_5()) == 963,
        widget_count(keys87_row_5()) == 11,
{
    lemma_runs();
    lemma_empty();
    let s0 = seq![
        single(60, 50, Key::ControlLeft, "Ctrl"),
        single(60, 50, Key::MetaLeft, "Win"),
        single(60, 50, Key::Alt, "Alt"),
        single(378, 50, Key::Space, " "),
        single(60, 50, Key::AltGr, "Alt"),
        single(60, 50, Key::Function, "Fn"),
        single(60, 50, Key::Unknown(110), "Menu"),
        single(60, 50, Key::ControlRight, "Ctrl"),
        LayoutItem::Gap(15),
        single(50, 50, Key::LeftArrow, "←"),
        single(50, 50, Key::UpArrow, "↑"),
        single(50, 50, Key::RightArrow, "→"),
    ];
    lemma_prefix(s0, 0);
    lemma_prefix(s0, 1);
    lemma_prefix(s0, 2);
    lemma_prefix(s0, 3);
    lemma_prefix(s0, 4);
    lemma_prefix(s0, 5);
    lemma_prefix(s0, 6);
    lemma_prefix(s0, 7);
    lemma_prefix(s0, 8);
    lemma_prefix(s0, 9);
    lemma_prefix(s0, 10);
    lemma_prefix(s0, 11);
    assert(s0.take(12) =~= s0);
    assert(keys87_row_5() == s0);
}

/// With the window's item spacing every row of the MacBook keyboard reaches
/// equally far: the board is drawn as a rectangle.
pub proof fn law_mac_rows_equal_width(i: int, j: int)
    requires
        0 <= i < mac_rows().len(),
        0 <= j < mac_rows().len(),
    ensures
        row_extent(mac_rows()[i], ITEM_SPACING as int) == row_extent(mac_rows()[j], ITEM_SPACING as int),
        row_extent(mac_rows()[i], ITEM_SPACING as int) == 824,
{
    lemma_extent_mac_row_0();
    lemma_extent_mac_row_1();
    lemma_extent_mac_row_2();
    lemma_extent_mac_row_3();
    lemma_extent_mac_row_4();
    lemma_extent_mac_row_5();
}

/// With the window's item spacing every row of the 87-key keyboard reaches
/// equally far: the board is drawn as a rectangle.
pub proof fn law_87_rows_equal_width(i: int, j: int)
    requires
        0 <= i < keys87_rows().len(),
        0 <= j < keys87_rows().len(),
    ensures
        row_extent(keys87_rows()[i], ITEM_SPACING as int) == row_extent(keys87_rows()[j], ITEM_SPACING as int),
        row_extent(keys87_rows()[i], ITEM_SPACING as int) == 1043,
{
    lemma_extent_keys87_row_0();
    lemma_extent_keys87_row_1();
    lemma_extent_keys87_row_2();
    lemma_extent_keys87_row_3();
    lemma_extent_keys87_row_4();
    lemma_extent_keys87_row_5();
}

/// The rows of a layout, each as a sequence of items.
pub open spec fn rows_view(rows: Seq<Vec<LayoutItem>>) -> Seq<Seq<LayoutItem>> {
    rows.map_values(|r: Vec<LayoutItem>| r@)
}

/// The MacBook keyboard, top row first.
pub open spec fn mac_rows() -> Seq<Seq<LayoutItem>> {
    seq![mac_row_0(), mac_row_1(), mac_row_2(), mac_row_3(), mac_row_4(), mac_row_5()]
}

/// The 87-key keyboard, top row first.
pub open spec fn keys87_rows() -> Seq<Seq<LayoutItem>> {
    seq![keys87_row_0(), keys87_row_1(), keys87_row_2(), keys87_row_3(), keys87_row_4(), keys87_row_5()]
}

/// The Weikav Alice keyboard, top row first.
pub open spec fn alice_rows() -> Seq<Seq<LayoutItem>> {
    seq![alice_row_0(), alice_row_1(), alice_row_2(), alice_row_3(), alice_row_4()]
}

/// The layout drawn for each keyboard type.
pub open spec fn layout_of(kt: KeyboardType) -> Seq<Seq<LayoutItem>> {
    match kt {
        KeyboardType::QwertyMac => mac_rows(),
        KeyboardType::Qwerty87 => keys87_rows(),
        KeyboardType::QwertyAliceWeikav => alice_rows(),
    }
}

/// Vertical space between two rows of keys.
pub const ROW_SPACING: u32 = 3;

/// The MacBook keyboard.
pub fn mac_keyboard() -> (rows: Vec<Vec<LayoutItem>>)
    ensures
        rows_view(rows@) == mac_rows(),
{
    let rows = vec![
        mac_row_0_items(),
        mac_row_1_items(),
        mac_row_2_items(),
        mac_row_3_items(),
        mac_row_4_items(),
        mac_row_5_items(),
    ];
    assert(rows_view(rows@) =~= mac_rows());
    rows
}

/// The 87-key keyboard.
pub fn keyboard_87() -> (rows: Vec<Vec<LayoutItem>>)
    ensures
        rows_view(rows@) == keys87_rows(),
{
    let rows = vec![
        keys87_row_0_items(),
        keys87_row_1_items(),
        keys87_row_2_items(),
        keys87_row_3_items(),
        keys87_row_4_items(),
        keys87_row_5_items(),
    ];
    assert(rows_view(rows@) =~= keys87_rows());
    rows
}

/// The Weikav Alice keyboard, each key turned and shifted as the rotation
/// configuration says for its row, column and label.
pub fn alice_keyboard() -> (rows: Vec<Vec<LayoutItem>>)
    ensures
        rows_view(rows@) == alice_rows(),
{
    let config = crate::alice::get_alice_rotation_config();
    let rows = vec![
        alice_row_0_items(&config),
        alice_row_1_items(&config),
        alice_row_2_items(&config),
        alice_row_3_items(&config),
        alice_row_4_items(&config),
    ];
    assert(rows_view(rows@) =~= alice_rows());
    rows
}

/// `it` is a key of width `w` counting `key`.
pub open spec fn is_key_of(it: LayoutItem, w: u32, key: Key) -> bool {
    match it {
        LayoutItem::Key(k) => k.width == w && k.key == key,
        _ => false,
    }
}

proof fn lemma_plain_single_run_items(t: Seq<(&'static str, Key)>, w: u32, h: u32, n: int)
    requires
        0 <= n <= t.len(),
    ensures
        single_run(t, RunStyle::Plain, w, h, n).len() == n,
        forall|i: int|
            0 <= i < n ==> #[trigger] single_run(t, RunStyle::Plain, w, h, n)[i] == LayoutItem::Key(
                spec_single(w, h, t[i].1, t[i].0, level()),
            ),
    decreases n,
{
    if n > 0 {
        lemma_plain_single_run_items(t, w, h, n - 1);
        let e = t[n - 1];
        let k = LayoutItem::Key(spec_single(w, h, e.1, e.0, level()));
        assert(gap_item(0) =~= Seq::<LayoutItem>::empty());
        assert(single_run(t, RunStyle::Plain, w, h, n) =~= single_run(t, RunStyle::Plain, w, h, n - 1).push(k));
    }
}

/// Choosing the MacBook draws the MacBook board: six rows that all reach
/// 824 with the window's item spacing, the top one being escape (70 wide),
/// the twelve function keys in order and the power key; the 87-key board
/// is six rows reaching 1043 each, and the Alice board has five rows. So the
/// three keyboard types draw three different boards.
pub proof fn law_keyboard_rows_follow_type()
    ensures
        layout_of(KeyboardType::QwertyMac).len() == 6,
        forall|i: int|
            0 <= i < 6 ==> row_extent(#[trigger] layout_of(KeyboardType::QwertyMac)[i], ITEM_SPACING as int) == 824,
        layout_of(KeyboardType::QwertyMac)[0].len() == 14,
        layout_of(KeyboardType::QwertyMac)[0][0] == LayoutItem::Key(
            KeySpec { width: 70, height: 50, key: Key::Escape, labels: Labels::Center("Esc"), placement: level() },
        ),
        forall|i: int|
            0 <= i < 12 ==> is_key_of(#[trigger] layout_of(KeyboardType::QwertyMac)[0][i + 1], 50, seq![
                Key::F1,
                Key::F2,
                Key::F3,
                Key::F4,
                Key::F5,
                Key::F6,
                Key::F7,
                Key::F8,
                Key::F9,
                Key::F10,
                Key::F11,
                Key::F12,
            ][i]),
        is_key_of(layout_of(KeyboardType::QwertyMac)[0][13], 50, Key::Unknown(0)),
        layout_of(KeyboardType::Qwerty87).len() == 6,
        forall|i: int|
            0 <= i < 6 ==> row_extent(#[trigger] layout_of(KeyboardType::Qwerty87)[i], ITEM_SPACING as int) == 1043,
        layout_of(KeyboardType::QwertyAliceWeikav).len() == 5,
        forall|a: KeyboardType, b: KeyboardType| a != b ==> layout_of(a) != layout_of(b),
{
    assert forall|i: int| 0 <= i < 6 implies row_extent(#[trigger] layout_of(KeyboardType::QwertyMac)[i], ITEM_SPACING as int) == 824 by {
        law_mac_rows_equal_width(i, 0);
    }
    assert forall|i: int| 0 <= i < 6 implies row_extent(#[trigger] layout_of(KeyboardType::Qwerty87)[i], ITEM_SPACING as int) == 1043 by {
        law_87_rows_equal_width(i, 0);
    }
    let run = singles(fn_keys_pairs(), RunStyle::Plain, 50, 50);
    lemma_plain_single_run_items(fn_keys_pairs(), 50, 50, 12);
    let a = seq![single(70, 50, Key::Escape, "Esc")];
    let c = seq![single(50, 50, Key::Unknown(0), "Power")];
    assert(mac_row_0() == a + run + c);
    assert((a + run + c).len() == 14);
    assert forall|i: int| 0 <= i < 12 implies is_key_of(#[trigger] layout_of(KeyboardType::QwertyMac)[0][i + 1], 50, seq![
        Key::F1,
        Key::F2,
        Key::F3,
        Key::F4,
        Key::F5,
        Key::F6,
        Key::F7,
        Key::F8,
        Key::F9,
        Key::F10,
        Key::F11,
        Key::F12,
    ][i]) by {
        assert((a + run + c)[i + 1] == run[i]);
    }
    assert((a + run + c)[13] == c[0]);
    law_mac_rows_equal_width(0, 0);
    law_87_rows_equal_width(0, 0);
    assert(layout_of(KeyboardType::QwertyMac) != layout_of(KeyboardType::Qwerty87)) by {
        assert(layout_of(KeyboardType::QwertyMac)[0] != layout_of(KeyboardType::Qwerty87)[0]);
    }
}

/// The rows to draw for a keyboard type.
pub fn keyboard_rows(kt: KeyboardType) -> (rows: Vec<Vec<LayoutItem>>)
    ensures
        rows_view(rows@) == layout_of(kt),
{
    match kt {
        KeyboardType::QwertyMac => mac_keyboard(),
        KeyboardType::Qwerty87 => keyboard_87(),
        KeyboardType::QwertyAliceWeikav => alice_keyboard(),
    }
}

} // verus!
