//! What a single key box decides without drawing: its label texts, the
//! heat value of its press count, when its colours must be recomputed, its
//! text colour and the triangles of its rotated outline.
use vstd::prelude::*;
use crate::keyboard::{KeySpec, Labels};
use vstd::string::StringExecFns;

verus! {

/// Layout in a key box: how to display the key contents.
#[derive(Debug)]
pub enum KeyTextsLayout {
    TopBottom((String, String)),
    Center1(String),
}

/// The characters of a key box's texts.
pub enum TextsView {
    TopBottom(Seq<char>, Seq<char>),
    Center1(Seq<char>),
}

impl View for KeyTextsLayout {
    type V = TextsView;

    open spec fn view(&self) -> TextsView {
        match self {
            KeyTextsLayout::TopBottom(pair) => TextsView::TopBottom(pair.0@, pair.1@),
            KeyTextsLayout::Center1(s) => TextsView::Center1(s@),
        }
    }
}

impl Clone for KeyTextsLayout {
    fn clone(&self) -> (r: Self)
        ensures
            r@ == self@,
    {
        match self {
            KeyTextsLayout::TopBottom(pair) => KeyTextsLayout::TopBottom((pair.0.clone(), pair.1.clone())),
            KeyTextsLayout::Center1(s) => KeyTextsLayout::Center1(s.clone()),
        }
    }
}

/// The texts a key of a layout shows.
pub open spec fn labels_view(labels: Labels) -> TextsView {
    match labels {
        Labels::Center(s) => TextsView::Center1(s@),
        Labels::TopBottom(top, bottom) => TextsView::TopBottom(top@, bottom@),
    }
}

impl KeySpec {
    /// The texts to print on this key.
    pub fn texts(&self) -> (r: KeyTextsLayout)
        ensures
            r@ == labels_view(self.labels),
    {
        match self.labels {
            Labels::Center(s) => KeyTextsLayout::Center1(String::from_str(s)),
            Labels::TopBottom(top, bottom) => KeyTextsLayout::TopBottom(
                (String::from_str(top), String::from_str(bottom)),
            ),
        }
    }
}

/// A colour with red, green, blue and alpha channels.
#[derive(Clone, Copy, PartialEq, Eq, Structural, Debug)]
pub struct Rgba {
    pub r: u8,
    pub g: u8,
    pub b: u8,
    pub a: u8,
}

/// An opaque colour.
pub open spec fn opaque(r: u8, g: u8, b: u8) -> Rgba {
    Rgba { r, g, b, a: 255 }
}

/// Colour of the labels on a key: dark grey on the dark theme, dark purple
/// on the light one.
pub fn key_text_color(dark_mode: bool) -> (c: Rgba)
    ensures
        c == (if dark_mode {
            opaque(100, 100, 100)
        } else {
            opaque(32, 5, 64)
        }),
{
    if dark_mode {
        Rgba { r: 100, g: 100, b: 100, a: 255 }
    } else {
        Rgba { r: 32, g: 5, b: 64, a: 255 }
    }
}

/// Colour of the press count shown when hovering a key: light grey on the
/// dark theme, dark grey on the light one.
pub fn tooltip_text_color(dark_mode: bool) -> (c: Rgba)
    ensures
        c == (if dark_mode {
            opaque(220, 220, 220)
        } else {
            opaque(50, 50, 50)
        }),
{
    if dark_mode {
        Rgba { r: 220, g: 220, b: 220, a: 255 }
    } else {
        Rgba { r: 50, g: 50, b: 50, a: 255 }
    }
}

/// The heat value of a key: its press count scaled so that a key pressed
/// as often as the average key gets 32.
pub open spec fn spec_normalized(press_times: int, average_times: int) -> int {
    (press_times * 32) / average_times
}

/// Computes `spec_normalized` in `u32`.
pub fn normalized_press_times(press_times: u32, average_times: u32) -> (n: u32)
    requires
        average_times > 0,
        press_times * 32 <= u32::MAX,
    ensures
        n == spec_normalized(press_times as int, average_times as int),
{
    press_times * 32 / average_times
}

/// A key pressed more often is never shown cooler.
pub proof fn law_normalized_monotonic(p1: int, p2: int, average_times: int)
    requires
        0 <= p1 <= p2,
        average_times > 0,
    ensures
        spec_normalized(p1, average_times) <= spec_normalized(p2, average_times),
{
    assert(p1 * 32 <= p2 * 32);
    vstd::arithmetic::div_mod::lemma_div_is_ordered(p1 * 32, p2 * 32, average_times);
}

/// The heat value is the whole number of times the average count fits into
/// 32 times the press count: `n * average <= press * 32 < (n + 1) * average`.
/// So each further `average` presses add exactly 32, without any cap.
pub proof fn law_normalized_is_quotient(press_times: int, average_times: int)
    requires
        0 <= press_times,
        average_times > 0,
    ensures
        spec_normalized(press_times, average_times) * average_times <= press_times * 32,
        press_times * 32 < (spec_normalized(press_times, average_times) + 1) * average_times,
        spec_normalized(press_times + average_times, average_times) == spec_normalized(
            press_times,
            average_times,
        ) + 32,
{
    let x = press_times * 32;
    let a = average_times;
    let q = x / a;
    let r = x % a;
    vstd::arithmetic::div_mod::lemma_fundamental_div_mod(x, a);
    vstd::arithmetic::div_mod::lemma_mod_pos_bound(x, a);
    assert(q * a <= x && x < (q + 1) * a) by (nonlinear_arith)
        requires
            x == a * q + r,
            0 <= r < a,
    ;
    assert((press_times + a) * 32 == (q + 32) * a + r) by (nonlinear_arith)
        requires
            x == a * q + r,
            x == press_times * 32,
    ;
    vstd::arithmetic::div_mod::lemma_fundamental_div_mod_converse_div((press_times + a) * 32, a, q + 32, r);
}

/// The fill and stroke colours last computed for a key, and the counts they
/// were computed from.
#[derive(Clone, Copy, Debug)]
pub struct ColorCache {
    pub colors: Option<(Rgba, Rgba)>,
    pub press_times: u32,
    pub average_times: u32,
}

/// Whether a cache must be recomputed for these counts.
pub open spec fn spec_needs_update(c: ColorCache, press_times: u32, average_times: u32) -> bool {
    c.colors is None || c.press_times != press_times || c.average_times != average_times
}

impl ColorCache {
    /// A cache holding nothing yet.
    pub fn new() -> (c: Self)
        ensures
            c.colors is None,
            c.press_times == 0,
            c.average_times == 0,
    {
        ColorCache { colors: None, press_times: 0, average_times: 0 }
    }

    /// The colours must be computed again when none are cached or either
    /// count differs from the one they were computed from.
    pub fn needs_update(&self, press_times: u32, average_times: u32) -> (r: bool)
        ensures
            r == spec_needs_update(*self, press_times, average_times),
    {
        self.colors.is_none() || self.press_times != press_times || self.average_times
            != average_times
    }

    /// Remembers the colours computed for these counts.
    pub fn store(&mut self, fill: Rgba, stroke: Rgba, press_times: u32, average_times: u32)
        ensures
            final(self).colors == Some((fill, stroke)),
            final(self).press_times == press_times,
            final(self).average_times == average_times,
    {
        self.colors = Some((fill, stroke));
        self.press_times = press_times;
        self.average_times = average_times;
    }

    /// The cached fill and stroke colours.
    pub fn cached(&self) -> (r: (Rgba, Rgba))
        requires
            self.colors is Some,
        ensures
            self.colors == Some(r),
    {
        match self.colors {
            Some(pair) => pair,
            None => (Rgba { r: 0, g: 0, b: 0, a: 0 }, Rgba { r: 0, g: 0, b: 0, a: 0 }),
        }
    }
}

/// Right after storing colours for some counts, asking again with the same
/// counts finds them, and they are the ones stored.
pub proof fn law_cache_hit_after_store(
    fill: Rgba,
    stroke: Rgba,
    press_times: u32,
    average_times: u32,
)
    ensures
        !spec_needs_update(
            ColorCache { colors: Some((fill, stroke)), press_times, average_times },
            press_times,
            average_times,
        ),
{
}

/// Number of straight pieces each rounded corner of a turned key is drawn with.
pub const CORNER_SEGMENTS: usize = 8;

/// Triangle `i` of a fan over `n` outline points and a centre point stored
/// after them: point `i`, the next point round the outline, and the centre.
pub open spec fn fan_triangle(i: int, n: int) -> (u32, u32, u32) {
    (i as u32, ((i + 1) % n) as u32, n as u32)
}

/// The triangles filling a turned key: a fan from the centre over its
/// outline points.
pub fn fan_triangles(n: u32) -> (t: Vec<(u32, u32, u32)>)
    ensures
        t@.len() == n,
        forall|i: int| 0 <= i < n ==> #[trigger] t@[i] == fan_triangle(i, n as int),
{
    let mut t: Vec<(u32, u32, u32)> = Vec::new();
    let mut i: u32 = 0;
    while i < n
        invariant
            i <= n,
            t@.len() == i,
            forall|j: int| 0 <= j < i ==> #[trigger] t@[j] == fan_triangle(j, n as int),
        decreases n - i,
    {
        let next = if i + 1 == n {
            0
        } else {
            i + 1
        };
        assert(next as int == (i + 1) % (n as int)) by {
            if i + 1 < n {
                vstd::arithmetic::div_mod::lemma_small_mod((i + 1) as nat, n as nat);
            } else {
                vstd::arithmetic::div_mod::lemma_mod_self_0(n as int);
            }
        }
        t.push((i, next, n));
        i = i + 1;
    }
    t
}

/// The edges of a turned key's outline: each point to the next, the last
/// back to the first.
pub fn outline_segments(n: usize) -> (s: Vec<(usize, usize)>)
    ensures
        s@.len() == n,
        forall|i: int| 0 <= i < n ==> #[trigger] s@[i] == (i as usize, ((i + 1) % (n as int)) as usize),
{
    let mut s: Vec<(usize, usize)> = Vec::new();
    let mut i: usize = 0;
    while i < n
        invariant
            i <= n,
            s@.len() == i,
            forall|j: int| 0 <= j < i ==> #[trigger] s@[j] == (j as usize, ((j + 1) % (n as int)) as usize),
        decreases n - i,
    {
        let next = if i + 1 == n {
            0
        } else {
            i + 1
        };
        assert(next as int == (i + 1) % (n as int)) by {
            if i + 1 < n {
                vstd::arithmetic::div_mod::lemma_small_mod((i + 1) as nat, n as nat);
            } else {
                vstd::arithmetic::div_mod::lemma_mod_self_0(n as int);
            }
        }
        s.push((i, next));
        i = i + 1;
    }
    s
}

} // verus!
