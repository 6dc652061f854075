//! Settings the window offers besides the keyboard: the font family, the
//! theme, and the searchable font selector with its keyboard navigation.
use vstd::prelude::*;
use crate::key_box::{opaque, Rgba};
use crate::text::{chars_of, contains_chars, lowercase_of, seq_contains, to_lowercase};
use vstd::string::StringExecFns;

verus! {

/// The family the chosen font is registered under.
#[derive(Clone, Copy, PartialEq, Eq, Structural, Debug)]
pub enum FontFamily {
    Monospace,
    Proportional,
}

impl FontFamily {
    /// Name shown in the family selector.
    pub fn name(&self) -> (r: &'static str)
        ensures
            r@ == (match *self {
                FontFamily::Monospace => "Monospace"@,
                FontFamily::Proportional => "Proportional"@,
            }),
    {
        match self {
            FontFamily::Monospace => "Monospace",
            FontFamily::Proportional => "Proportional",
        }
    }
}

/// Window background: warm dark grey on the dark theme, white on the light one.
pub fn background_color(dark_mode: bool) -> (c: Rgba)
    ensures
        c == (if dark_mode {
            opaque(0x3A, 0x38, 0x37)
        } else {
            opaque(255, 255, 255)
        }),
{
    if dark_mode {
        Rgba { r: 0x3A, g: 0x38, b: 0x37, a: 255 }
    } else {
        Rgba { r: 255, g: 255, b: 255, a: 255 }
    }
}

/// Caption of the theme button: it offers the theme not in use.
pub fn theme_button_text(dark_mode: bool) -> (r: &'static str)
    ensures
        r@ == (if dark_mode {
            "☀ Light"@
        } else {
            "🌙 Dark"@
        }),
{
    if dark_mode {
        "☀ Light"
    } else {
        "🌙 Dark"
    }
}

/// The characters of each string of a sequence.
pub open spec fn names_view(s: Seq<String>) -> Seq<Seq<char>> {
    s.map_values(|x: String| x@)
}

/// Of the first `n` fonts, those whose lower-cased name (`lowered[i]` for
/// `fonts[i]`) contains `query`, in their order.
pub open spec fn keep_matching(fonts: Seq<Seq<char>>, lowered: Seq<Seq<char>>, query: Seq<char>, n: int) -> Seq<
    Seq<char>,
>
    decreases n,
{
    if n <= 0 {
        seq![]
    } else {
        keep_matching(fonts, lowered, query, n - 1) + if seq_contains(lowered[n - 1], query) {
            seq![fonts[n - 1]]
        } else {
            seq![]
        }
    }
}

/// The fonts a search shows: all of them when the lower-cased search is
/// empty, else those whose lower-cased name contains the lower-cased search.
pub open spec fn filter_spec(fonts: Seq<Seq<char>>, search: Seq<char>) -> Seq<Seq<char>> {
    let query = lowercase_of(search);
    if query.len() == 0 {
        fonts
    } else {
        keep_matching(fonts, fonts.map_values(|f: Seq<char>| lowercase_of(f)), query, fonts.len() as int)
    }
}

/// A copy of a list of strings.
fn copy_strings(v: &Vec<String>) -> (r: Vec<String>)
    ensures
        names_view(r@) == names_view(v@),
{
    let mut r: Vec<String> = Vec::new();
    let mut i: usize = 0;
    while i < v.len()
        invariant
            i <= v@.len(),
            r@.len() == i,
            forall|j: int| 0 <= j < i ==> #[trigger] r@[j]@ == v@[j]@,
        decreases v@.len() - i,
    {
        r.push(v[i].clone());
        i = i + 1;
    }
    assert(names_view(r@) =~= names_view(v@));
    r
}

/// The fonts whose lower-cased name, given in `lowered`, contains `query`.
pub fn matching_fonts(fonts: &Vec<String>, lowered: &Vec<String>, query: &str) -> (r: Vec<String>)
    requires
        fonts@.len() == lowered@.len(),
    ensures
        names_view(r@) == keep_matching(
            names_view(fonts@),
            names_view(lowered@),
            query@,
            fonts@.len() as int,
        ),
{
    let needle = chars_of(query);
    let mut r: Vec<String> = Vec::new();
    let mut i: usize = 0;
    while i < fonts.len()
        invariant
            fonts@.len() == lowered@.len(),
            needle@ == query@,
            i <= fonts@.len(),
            names_view(r@) == keep_matching(
                names_view(fonts@),
                names_view(lowered@),
                query@,
                i as int,
            ),
        decreases fonts@.len() - i,
    {
        let hay = chars_of(lowered[i].as_str());
        if contains_chars(&hay, &needle) {
            r.push(fonts[i].clone());
        }
        i = i + 1;
        assert(names_view(r@) =~= keep_matching(
            names_view(fonts@),
            names_view(lowered@),
            query@,
            i as int,
        ));
    }
    r
}

/// The fonts shown for a search: all of them when the lower-cased search is
/// empty, else those whose lower-cased name contains the lower-cased search.
pub fn filter_fonts(fonts: &Vec<String>, search: &str) -> (r: Vec<String>)
    ensures
        names_view(r@) == filter_spec(names_view(fonts@), search@),
{
    let query = to_lowercase(search);
    if query.as_str().is_empty() {
        return copy_strings(fonts);
    }
    let mut lowered: Vec<String> = Vec::new();
    let mut i: usize = 0;
    while i < fonts.len()
        invariant
            i <= fonts@.len(),
            lowered@.len() == i,
            forall|j: int| 0 <= j < i ==> #[trigger] lowered@[j]@ == lowercase_of(fonts@[j]@),
        decreases fonts@.len() - i,
    {
        lowered.push(to_lowercase(fonts[i].as_str()));
        i = i + 1;
    }
    assert(names_view(lowered@) =~= names_view(fonts@).map_values(
        |f: Seq<char>| lowercase_of(f),
    ));
    matching_fonts(fonts, &lowered, query.as_str())
}

spec fn matching_indices(lowered: Seq<Seq<char>>, query: Seq<char>, n: int) -> Seq<int>
    decreases n,
{
    if n <= 0 {
        seq![]
    } else {
        matching_indices(lowered, query, n - 1) + if seq_contains(lowered[n - 1], query) {
            seq![n - 1]
        } else {
            seq![]
        }
    }
}

proof fn lemma_matching_indices(fonts: Seq<Seq<char>>, lowered: Seq<Seq<char>>, query: Seq<char>, n: int)
    requires
        0 <= n <= fonts.len(),
        lowered.len() == fonts.len(),
    ensures
        ({
            let km = keep_matching(fonts, lowered, query, n);
            let idx = matching_indices(lowered, query, n);
            &&& idx.len() == km.len()
            &&& forall|j: int|
                0 <= j < idx.len() ==> 0 <= #[trigger] idx[j] < n && km[j] == fonts[idx[j]]
                    && seq_contains(lowered[idx[j]], query)
            &&& forall|j: int, k: int| 0 <= j < k < idx.len() ==> #[trigger] idx[j] < #[trigger] idx[k]
            &&& forall|i: int|
                0 <= i < n && seq_contains(#[trigger] lowered[i], query) ==> idx.contains(i)
        }),
    decreases n,
{
    if n > 0 {
        lemma_matching_indices(fonts, lowered, query, n - 1);
        let idx0 = matching_indices(lowered, query, n - 1);
        let idx = matching_indices(lowered, query, n);
        assert forall|i: int|
            0 <= i < n && seq_contains(#[trigger] lowered[i], query) implies idx.contains(i) by {
            if i < n - 1 {
                assert(idx0.contains(i));
                let j = choose|j: int| 0 <= j < idx0.len() && idx0[j] == i;
                assert(idx[j] == i);
            } else {
                assert(idx[idx.len() - 1] == i);
            }
        }
    }
}

/// `idx` are the positions in `fonts` of the `kept` fonts, strictly
/// increasing, each font at them matching `query`, and every position whose
/// lower-cased name matches among them.
pub open spec fn chosen_positions(
    fonts: Seq<Seq<char>>,
    lowered: Seq<Seq<char>>,
    query: Seq<char>,
    kept: Seq<Seq<char>>,
    idx: Seq<int>,
) -> bool {
    &&& idx.len() == kept.len()
    &&& forall|j: int|
        0 <= j < idx.len() ==> 0 <= #[trigger] idx[j] < fonts.len() && kept[j] == fonts[idx[j]]
            && seq_contains(lowered[idx[j]], query)
    &&& forall|j: int, k: int| 0 <= j < k < idx.len() ==> #[trigger] idx[j] < #[trigger] idx[k]
    &&& forall|i: int|
        0 <= i < fonts.len() && seq_contains(#[trigger] lowered[i], query) ==> idx.contains(i)
}

/// The kept fonts are exactly the fonts whose lower-cased name contains the
/// query, in list order: there is a strictly increasing choice of positions
/// of the list whose fonts are the kept ones, each of those fonts matches,
/// and every matching position is chosen.
pub proof fn law_matching_keeps_exactly_matches(
    fonts: Seq<Seq<char>>,
    lowered: Seq<Seq<char>>,
    query: Seq<char>,
)
    requires
        lowered.len() == fonts.len(),
    ensures
        exists|idx: Seq<int>|
            #[trigger] chosen_positions(
                fonts,
                lowered,
                query,
                keep_matching(fonts, lowered, query, fonts.len() as int),
                idx,
            ),
{
    lemma_matching_indices(fonts, lowered, query, fonts.len() as int);
    let idx = matching_indices(lowered, query, fonts.len() as int);
    assert(chosen_positions(
        fonts,
        lowered,
        query,
        keep_matching(fonts, lowered, query, fonts.len() as int),
        idx,
    ));
}

/// When the lower-cased search is not empty, every font shown has a
/// lower-cased name containing it, and every font whose lower-cased name
/// contains it is shown.
pub proof fn law_filter_matches_search(fonts: Seq<Seq<char>>, search: Seq<char>)
    requires
        lowercase_of(search).len() > 0,
    ensures
        forall|j: int|
            0 <= j < filter_spec(fonts, search).len() ==> seq_contains(
                lowercase_of(#[trigger] filter_spec(fonts, search)[j]),
                lowercase_of(search),
            ),
        forall|i: int|
            0 <= i < fonts.len() && seq_contains(lowercase_of(#[trigger] fonts[i]), lowercase_of(search))
                ==> filter_spec(fonts, search).contains(fonts[i]),
{
    let q = lowercase_of(search);
    let lowered = fonts.map_values(|f: Seq<char>| lowercase_of(f));
    let n = fonts.len() as int;
    lemma_matching_indices(fonts, lowered, q, n);
    let km = keep_matching(fonts, lowered, q, n);
    let idx = matching_indices(lowered, q, n);
    assert forall|j: int| 0 <= j < km.len() implies seq_contains(lowercase_of(#[trigger] km[j]), q) by {
        assert(lowered[idx[j]] == lowercase_of(fonts[idx[j]]));
    }
    assert forall|i: int|
        0 <= i < fonts.len() && seq_contains(lowercase_of(#[trigger] fonts[i]), q) implies km.contains(fonts[i]) by {
        assert(lowered[i] == lowercase_of(fonts[i]));
        assert(idx.contains(i));
        let j = choose|j: int| 0 <= j < idx.len() && idx[j] == i;
        assert(km[j] == fonts[i]);
    }
}

/// A search whose lower-cased form is empty shows every font, in order.
pub proof fn law_empty_search_shows_all(fonts: Seq<Seq<char>>, search: Seq<char>)
    requires
        lowercase_of(search).len() == 0,
    ensures
        filter_spec(fonts, search) == fonts,
{
}

/// Every font a search shows is one of the fonts searched.
pub proof fn law_filter_shows_only_listed_fonts(fonts: Seq<Seq<char>>, search: Seq<char>, i: int)
    requires
        0 <= i < filter_spec(fonts, search).len(),
    ensures
        fonts.contains(filter_spec(fonts, search)[i]),
{
    let query = lowercase_of(search);
    if query.len() != 0 {
        lemma_keep_matching_listed(
            fonts,
            fonts.map_values(|f: Seq<char>| lowercase_of(f)),
            query,
            fonts.len() as int,
            i,
        );
    } else {
        assert(fonts[i] == filter_spec(fonts, search)[i]);
    }
}

proof fn lemma_keep_matching_listed(
    fonts: Seq<Seq<char>>,
    lowered: Seq<Seq<char>>,
    query: Seq<char>,
    n: int,
    i: int,
)
    requires
        n <= fonts.len(),
        0 <= i < keep_matching(fonts, lowered, query, n).len(),
    ensures
        fonts.contains(keep_matching(fonts, lowered, query, n)[i]),
    decreases n,
{
    if n > 0 {
        let prev = keep_matching(fonts, lowered, query, n - 1);
        if i < prev.len() {
            lemma_keep_matching_listed(fonts, lowered, query, n - 1, i);
        } else {
            assert(keep_matching(fonts, lowered, query, n)[i] == fonts[n - 1]);
        }
    }
}

/// State of the font selector: the fonts of the system, the search typed
/// into it, the font in use, the highlighted entry of the shown list, and
/// whether the popup is open or was opened this frame.
#[derive(Debug)]
pub struct FontSelector {
    pub system_fonts: Vec<String>,
    pub font_search: String,
    pub selected_font: String,
    pub font_selector_index: usize,
    pub font_selector_open: bool,
    pub font_selector_just_opened: bool,
}

/// A font selector as values.
pub struct SelectorView {
    pub fonts: Seq<Seq<char>>,
    pub search: Seq<char>,
    pub selected: Seq<char>,
    pub index: int,
    pub open: bool,
    pub just_opened: bool,
}

impl View for FontSelector {
    type V = SelectorView;

    open spec fn view(&self) -> SelectorView {
        SelectorView {
            fonts: names_view(self.system_fonts@),
            search: self.font_search@,
            selected: self.selected_font@,
            index: self.font_selector_index as int,
            open: self.font_selector_open,
            just_opened: self.font_selector_just_opened,
        }
    }
}

/// A navigation key pressed while the selector is open.
#[derive(Clone, Copy, PartialEq, Eq, Structural, Debug)]
pub enum NavKey {
    Down,
    Up,
    Enter,
    Escape,
}

/// What the window must do after a selector event.
#[derive(Debug)]
pub enum SelectorAction {
    /// Nothing.
    Nothing,
    /// Load the font to preview it; the choice is not saved.
    Preview(String),
    /// Save the settings with the font now chosen.
    Apply(String),
    /// Load the font now chosen and save the settings.
    Choose(String),
}

/// A selector action as values.
pub enum ActionView {
    Nothing,
    Preview(Seq<char>),
    Apply(Seq<char>),
    Choose(Seq<char>),
}

impl View for SelectorAction {
    type V = ActionView;

    open spec fn view(&self) -> ActionView {
        match self {
            SelectorAction::Nothing => ActionView::Nothing,
            SelectorAction::Preview(f) => ActionView::Preview(f@),
            SelectorAction::Apply(f) => ActionView::Apply(f@),
            SelectorAction::Choose(f) => ActionView::Choose(f@),
        }
    }
}

/// The first index at which `fonts` holds `name`, if any.
pub open spec fn first_index(fonts: Seq<Seq<char>>, name: Seq<char>) -> Option<int> {
    if exists|i: int| 0 <= i < fonts.len() && fonts[i] == name {
        Some(
            choose|i: int|
                0 <= i < fonts.len() && fonts[i] == name && forall|j: int|
                    0 <= j < i ==> fonts[j] != name,
        )
    } else {
        None
    }
}

/// Opening or closing the popup with its button. Opening highlights the
/// font in use when it is a system font and asks to scroll to it.
pub open spec fn toggle_spec(s: SelectorView) -> SelectorView {
    if !s.open {
        SelectorView {
            open: true,
            just_opened: true,
            index: match first_index(s.fonts, s.selected) {
                Some(i) => i,
                None => s.index,
            },
            ..s
        }
    } else {
        SelectorView { open: false, ..s }
    }
}

/// Editing the search text: the highlight goes back to the first entry.
pub open spec fn edit_search_spec(s: SelectorView, text: Seq<char>) -> SelectorView {
    SelectorView { search: text, index: 0, ..s }
}

/// The last index a downward move may leave: one before the end of the
/// shown list, or zero for an empty list.
pub open spec fn last_index(len: int) -> int {
    if len > 0 {
        len - 1
    } else {
        0
    }
}

/// A navigation key on the shown list `shown`: the new state, whether the
/// highlight moved, and the action asked for.
pub open spec fn navigate_spec(s: SelectorView, key: NavKey, shown: Seq<Seq<char>>) -> (
    SelectorView,
    bool,
    ActionView,
) {
    match key {
        NavKey::Down => if s.index < last_index(shown.len() as int) {
            let t = SelectorView { index: s.index + 1, ..s };
            (t, true, ActionView::Preview(shown[s.index + 1]))
        } else {
            (s, false, ActionView::Nothing)
        },
        NavKey::Up => if s.index > 0 {
            let t = SelectorView { index: s.index - 1, ..s };
            (
                t,
                true,
                if s.index - 1 < shown.len() {
                    ActionView::Preview(shown[s.index - 1])
                } else {
                    ActionView::Nothing
                },
            )
        } else {
            (s, false, ActionView::Nothing)
        },
        NavKey::Enter => if s.index < shown.len() {
            let t = SelectorView { selected: shown[s.index], search: seq![], open: false, ..s };
            (t, false, ActionView::Apply(shown[s.index]))
        } else {
            (s, false, ActionView::Nothing)
        },
        NavKey::Escape => (SelectorView { open: false, search: seq![], ..s }, false, ActionView::Nothing),
    }
}

/// Clicking entry `idx`, showing `font`, of the list.
pub open spec fn click_item_spec(s: SelectorView, idx: int, font: Seq<char>) -> SelectorView {
    SelectorView { selected: font, index: idx, search: seq![], open: false, ..s }
}

/// Hovering entry `idx`: it is highlighted unless a key moved the
/// highlight this frame.
pub open spec fn hover_item_spec(s: SelectorView, idx: int, moved_by_key: bool) -> SelectorView {
    if moved_by_key {
        s
    } else {
        SelectorView { index: idx, ..s }
    }
}

/// A click outside the popup and its button closes it and clears the search.
pub open spec fn click_outside_spec(s: SelectorView) -> SelectorView {
    SelectorView { open: false, search: seq![], ..s }
}

/// Where `name` first occurs in `fonts`.
pub fn position_of(fonts: &Vec<String>, name: &String) -> (r: Option<usize>)
    ensures
        r matches Some(k) ==> first_index(names_view(fonts@), name@) == Some(k as int),
        r is None ==> first_index(names_view(fonts@), name@) is None,
{
    let ghost v = names_view(fonts@);
    let mut i: usize = 0;
    while i < fonts.len()
        invariant
            v == names_view(fonts@),
            i <= v.len(),
            forall|j: int| 0 <= j < i ==> v[j] != name@,
        decreases v.len() - i,
    {
        if fonts[i] == *name {
            proof {
                assert(v[i as int] == name@);
                let k = choose|k: int|
                    0 <= k < v.len() && v[k] == name@ && forall|j: int| 0 <= j < k ==> v[j] != name@;
                assert(0 <= k < v.len() && v[k] == name@ && forall|j: int|
                    0 <= j < k ==> v[j] != name@);
                assert(k == i as int) by {
                    if k < i {
                        assert(v[k] != name@);
                    } else if k > i {
                        assert(v[i as int] != name@);
                    }
                }
            }
            return Some(i);
        }
        i = i + 1;
    }
    None
}

impl FontSelector {
    /// A closed selector over the system fonts with `selected_font` in use.
    pub fn new(system_fonts: Vec<String>, selected_font: String) -> (r: Self)
        ensures
            r.system_fonts@ == system_fonts@,
            r@.selected == selected_font@,
            r@.search == Seq::<char>::empty(),
            r@.index == 0,
            !r@.open,
            !r@.just_opened,
    {
        FontSelector {
            system_fonts,
            font_search: String::new(),
            selected_font,
            font_selector_index: 0,
            font_selector_open: false,
            font_selector_just_opened: false,
        }
    }

    /// A closed selector with the font saved in the settings in use, or
    /// Menlo when none was saved.
    pub fn with_saved_font(system_fonts: Vec<String>, saved_font: Option<String>) -> (r: Self)
        ensures
            r.system_fonts@ == system_fonts@,
            r@.selected == (match saved_font {
                Some(f) => f@,
                None => "Menlo"@,
            }),
            r@.search == Seq::<char>::empty(),
            r@.index == 0,
            !r@.open,
            !r@.just_opened,
    {
        let selected = match saved_font {
            Some(f) => f,
            None => String::from_str("Menlo"),
        };
        FontSelector::new(system_fonts, selected)
    }

    /// Caption of the selector button: the font in use, or "Select Font"
    /// while none is.
    pub fn button_text(&self) -> (r: String)
        ensures
            r@ == (if self@.selected.len() == 0 {
                "Select Font"@
            } else {
                self@.selected
            }),
    {
        if self.selected_font.as_str().is_empty() {
            String::from_str("Select Font")
        } else {
            self.selected_font.clone()
        }
    }

    /// The selector button was clicked.
    pub fn toggle(&mut self)
        ensures
            final(self)@ == toggle_spec(old(self)@),
            final(self).system_fonts@ == old(self).system_fonts@,
    {
        self.font_selector_open = !self.font_selector_open;
        if self.font_selector_open {
            self.font_selector_just_opened = true;
            if let Some(i) = position_of(&self.system_fonts, &self.selected_font) {
                self.font_selector_index = i;
            }
        }
    }

    /// The search text was edited to `text`.
    pub fn edit_search(&mut self, text: String)
        ensures
            final(self)@ == edit_search_spec(old(self)@, text@),
            final(self).system_fonts@ == old(self).system_fonts@,
    {
        self.font_search = text;
        self.font_selector_index = 0;
    }

    /// The fonts the current search shows.
    pub fn filtered(&self) -> (r: Vec<String>)
        ensures
            names_view(r@) == filter_spec(self@.fonts, self@.search),
    {
        filter_fonts(&self.system_fonts, self.font_search.as_str())
    }

    /// A navigation key on the shown list; tells whether the highlight
    /// moved and what the window must do.
    pub fn navigate(&mut self, key: NavKey, shown: &Vec<String>) -> (r: (bool, SelectorAction))
        ensures
            (final(self)@, r.0, r.1@) == navigate_spec(old(self)@, key, names_view(shown@)),
            final(self).system_fonts@ == old(self).system_fonts@,
    {
        let len = shown.len();
        match key {
            NavKey::Down => {
                let last = if len > 0 {
                    len - 1
                } else {
                    0
                };
                if self.font_selector_index < last {
                    self.font_selector_index = self.font_selector_index + 1;
                    let font = shown[self.font_selector_index].clone();
                    (true, SelectorAction::Preview(font))
                } else {
                    (false, SelectorAction::Nothing)
                }
            },
            NavKey::Up => {
                if self.font_selector_index > 0 {
                    self.font_selector_index = self.font_selector_index - 1;
                    if self.font_selector_index < len {
                        let font = shown[self.font_selector_index].clone();
                        (true, SelectorAction::Preview(font))
                    } else {
                        (true, SelectorAction::Nothing)
                    }
                } else {
                    (false, SelectorAction::Nothing)
                }
            },
            NavKey::Enter => {
                if self.font_selector_index < len {
                    let font = shown[self.font_selector_index].clone();
                    self.selected_font = font.clone();
                    self.font_search = String::new();
                    self.font_selector_open = false;
                    (false, SelectorAction::Apply(font))
                } else {
                    (false, SelectorAction::Nothing)
                }
            },
            NavKey::Escape => {
                self.font_selector_open = false;
                self.font_search = String::new();
                (false, SelectorAction::Nothing)
            },
        }
    }

    /// Hands out, once, the request to scroll to the highlighted entry that
    /// opening the popup made.
    pub fn take_scroll_request(&mut self) -> (r: bool)
        ensures
            r == old(self)@.just_opened,
            final(self)@ == (SelectorView { just_opened: false, ..old(self)@ }),
            final(self).system_fonts@ == old(self).system_fonts@,
    {
        let r = self.font_selector_just_opened;
        self.font_selector_just_opened = false;
        r
    }

    /// Entry `idx` of the shown list, `font`, was clicked: it becomes the
    /// font in use, to be loaded and saved.
    pub fn click_item(&mut self, idx: usize, font: &String) -> (r: SelectorAction)
        ensures
            final(self)@ == click_item_spec(old(self)@, idx as int, font@),
            r@ == ActionView::Choose(font@),
            final(self).system_fonts@ == old(self).system_fonts@,
    {
        self.selected_font = font.clone();
        self.font_selector_index = idx;
        self.font_search = String::new();
        self.font_selector_open = false;
        SelectorAction::Choose(font.clone())
    }

    /// Entry `idx` is under the pointer.
    pub fn hover_item(&mut self, idx: usize, moved_by_key: bool)
        ensures
            final(self)@ == hover_item_spec(old(self)@, idx as int, moved_by_key),
            final(self).system_fonts@ == old(self).system_fonts@,
    {
        if !moved_by_key {
            self.font_selector_index = idx;
        }
    }

    /// A click landed outside the popup and its button.
    pub fn click_outside(&mut self)
        ensures
            final(self)@ == click_outside_spec(old(self)@),
            final(self).system_fonts@ == old(self).system_fonts@,
    {
        self.font_selector_open = false;
        self.font_search = String::new();
    }
}

/// Moving the highlight down and then up again returns the selector to
/// where it was.
pub proof fn law_down_then_up_restores(s: SelectorView, shown: Seq<Seq<char>>)
    requires
        0 <= s.index,
        navigate_spec(s, NavKey::Down, shown).1,
    ensures
        navigate_spec(navigate_spec(s, NavKey::Down, shown).0, NavKey::Up, shown).0 == s,
{
}

/// Moving down keeps a highlight that is inside the shown list inside it,
/// and moving up never moves it down.
pub proof fn law_navigation_stays_in_list(s: SelectorView, shown: Seq<Seq<char>>)
    requires
        0 <= s.index < shown.len(),
    ensures
        0 <= navigate_spec(s, NavKey::Down, shown).0.index < shown.len(),
        0 <= navigate_spec(s, NavKey::Up, shown).0.index <= s.index,
{
}

/// Escape closes the popup and clears the search, keeping the font in use.
pub proof fn law_escape_closes(s: SelectorView, shown: Seq<Seq<char>>)
    ensures
        !navigate_spec(s, NavKey::Escape, shown).0.open,
        navigate_spec(s, NavKey::Escape, shown).0.search == Seq::<char>::empty(),
        navigate_spec(s, NavKey::Escape, shown).0.selected == s.selected,
        navigate_spec(s, NavKey::Escape, shown).2 == ActionView::Nothing,
{
}

/// A font chosen with Enter from the list the search shows is one of the
/// system fonts, and becomes the font in use.
pub proof fn law_enter_chooses_system_font(s: SelectorView)
    requires
        0 <= s.index,
        navigate_spec(s, NavKey::Enter, filter_spec(s.fonts, s.search)).2 is Apply,
    ensures
        ({
            let shown = filter_spec(s.fonts, s.search);
            let (t, _, a) = navigate_spec(s, NavKey::Enter, shown);
            &&& s.fonts.contains(t.selected)
            &&& a == ActionView::Apply(t.selected)
            &&& !t.open
        }),
{
    let shown = filter_spec(s.fonts, s.search);
    law_filter_shows_only_listed_fonts(s.fonts, s.search, s.index);
}

/// A font chosen by clicking an entry of the list the search shows is one
/// of the system fonts.
pub proof fn law_click_chooses_system_font(s: SelectorView, idx: int)
    requires
        0 <= idx < filter_spec(s.fonts, s.search).len(),
    ensures
        s.fonts.contains(click_item_spec(s, idx, filter_spec(s.fonts, s.search)[idx]).selected),
{
    law_filter_shows_only_listed_fonts(s.fonts, s.search, idx);
}

/// Opening the popup highlights the font in use when it is a system font.
pub proof fn law_opening_highlights_font_in_use(s: SelectorView)
    requires
        !s.open,
        s.fonts.contains(s.selected),
    ensures
        toggle_spec(s).open,
        toggle_spec(s).just_opened,
        0 <= toggle_spec(s).index < s.fonts.len(),
        s.fonts[toggle_spec(s).index] == s.selected,
{
    let i = choose|i: int| 0 <= i < s.fonts.len() && s.fonts[i] == s.selected;
    lemma_first_exists(s.fonts, s.selected, i);
}

proof fn lemma_first_exists(fonts: Seq<Seq<char>>, name: Seq<char>, i: int)
    requires
        0 <= i < fonts.len(),
        fonts[i] == name,
    ensures
        first_index(fonts, name) is Some,
        0 <= first_index(fonts, name)->0 < fonts.len(),
        fonts[first_index(fonts, name)->0] == name,
    decreases i,
{
    if exists|j: int| 0 <= j < i && fonts[j] == name {
        let j = choose|j: int| 0 <= j < i && fonts[j] == name;
        lemma_first_exists(fonts, name, j);
    } else {
        assert(forall|j: int| 0 <= j < i ==> fonts[j] != name);
    }
}

/// Pressing the selector button twice leaves the popup as it was.
pub proof fn law_toggle_twice(s: SelectorView)
    ensures
        toggle_spec(toggle_spec(s)).open == s.open,
        toggle_spec(toggle_spec(s)).selected == s.selected,
        toggle_spec(toggle_spec(s)).search == s.search,
{
}

/// After the search text is edited the first entry of the new list is
/// highlighted, whatever was before: Enter then chooses that entry, and Up
/// has nowhere to go.
pub proof fn law_edit_search_highlights_first(s: SelectorView, text: Seq<char>, shown: Seq<Seq<char>>)
    requires
        shown.len() > 0,
    ensures
        ({
            let t = edit_search_spec(s, text);
            let (u, _, a) = navigate_spec(t, NavKey::Enter, shown);
            &&& a == ActionView::Apply(shown[0])
            &&& u.selected == shown[0]
            &&& !navigate_spec(t, NavKey::Up, shown).1
            &&& t.search == text
            &&& t.selected == s.selected
            &&& t.fonts == s.fonts
        }),
{
}

/// Clicking entry `idx` of the shown list makes it the font in use, closes
/// the popup and clears the search; the clicked entry stays highlighted, so
/// Enter would choose it again.
pub proof fn law_click_item_chooses_entry(s: SelectorView, idx: int, shown: Seq<Seq<char>>)
    requires
        0 <= idx < shown.len(),
    ensures
        ({
            let t = click_item_spec(s, idx, shown[idx]);
            &&& t.selected == shown[idx]
            &&& !t.open
            &&& t.search == Seq::<char>::empty()
            &&& t.fonts == s.fonts
            &&& navigate_spec(t, NavKey::Enter, shown).2 == ActionView::Apply(shown[idx])
        }),
{
}

/// Hovering an entry highlights it unless a key moved the highlight this
/// frame, in which case nothing changes.
pub proof fn law_hover_highlights_entry(s: SelectorView, idx: int, shown: Seq<Seq<char>>)
    requires
        0 <= idx < shown.len(),
    ensures
        navigate_spec(hover_item_spec(s, idx, false), NavKey::Enter, shown).2 == ActionView::Apply(
            shown[idx],
        ),
        hover_item_spec(s, idx, false).selected == s.selected,
        hover_item_spec(s, idx, true) == s,
{
}

/// A click outside closes the popup and clears the search, keeping the font
/// in use, the highlight and the fonts.
pub proof fn law_click_outside_closes(s: SelectorView)
    ensures
        !click_outside_spec(s).open,
        click_outside_spec(s).search == Seq::<char>::empty(),
        click_outside_spec(s).selected == s.selected,
        click_outside_spec(s).index == s.index,
        click_outside_spec(s).fonts == s.fonts,
{
}

} // verus!
