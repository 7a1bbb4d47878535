//! The view builder: assembles a widget-tree model from the current state.
//!
//! The model is pure data — the GUI toolkit walks it to build the real widget
//! tree. Top to bottom it holds: a title block, three fixed category tag
//! buttons, a text input bound to the current query with a submit button
//! whose style depends on whether the trimmed query is blank, and the
//! history panel, which shows a placeholder message exactly when the history
//! is empty and otherwise one row per entry in the history's own order. The
//! input's prompt text is drawn at random from a fixed set of three, the one
//! non-deterministic choice of a render.

use vstd::prelude::*;

use crate::state::{App, Message};
use crate::style::{ModernButton, ModernColor, ModernContainer};
use crate::trim::{spec_trim, trim};

verus! {

/// A glyph from the icon font, at a text size.
#[derive(Clone, Copy, PartialEq, Eq, Structural, Debug)]
pub struct Icon {
    pub glyph: char,
    pub size: u32,
}

/// Builds an icon: a single glyph of the icon font, centered, at the given
/// size.
pub fn icon(unicode: char, size: u32) -> (i: Icon)
    ensures
        i == (Icon { glyph: unicode, size }),
{
    Icon { glyph: unicode, size }
}

/// A tag button with a text label, styled with the caller's accent color.
#[derive(Debug, Clone)]
pub struct TagButton {
    pub content: String,
    pub style: ModernButton,
    pub message: Message,
}

/// A tag button showing a bitmap image, styled with the caller's accent
/// color.
#[derive(Debug, Clone)]
pub struct ImageTagButton {
    pub image_path: String,
    pub style: ModernButton,
    pub message: Message,
}

/// Builds a text-labelled tag button: the label, a `Tag` style carrying the
/// accent color, and the message it fires.
pub fn tag(content: &str, color: (u8, u8, u8), message: Message) -> (t: TagButton)
    ensures
        t.content@ == content@,
        t.style == ModernButton::Tag(color.0, color.1, color.2),
        t.message == message,
{
    TagButton { content: content.to_owned(), style: ModernButton::Tag(color.0, color.1, color.2), message }
}

/// Builds an image tag button: the path of its bitmap, a `Tag` style
/// carrying the accent color, and the message it fires. Reading the bitmap
/// itself is the renderer's business.
pub fn itag(path: &str, color: (u8, u8, u8), message: Message) -> (t: ImageTagButton)
    ensures
        t.image_path@ == path@,
        t.style == ModernButton::Tag(color.0, color.1, color.2),
        t.message == message,
{
    ImageTagButton {
        image_path: path.to_owned(),
        style: ModernButton::Tag(color.0, color.1, color.2),
        message,
    }
}

/// One row of the history panel: the trimmed query text and a remove button
/// tagged with the row's position.
#[derive(Debug, Clone)]
pub struct HistoryRow {
    pub text: String,
    pub text_color: ModernColor,
    pub remove_icon: Icon,
    pub remove_icon_color: ModernColor,
    pub remove_style: ModernButton,
    pub id: usize,
}

/// Whether a history row shows the given source text (trimmed) with the
/// remove button for the given position, in the fixed row styling.
pub open spec fn spec_row_matches(row: HistoryRow, source: Seq<char>, id: int) -> bool {
    &&& row.text@ == spec_trim(source)
    &&& row.text_color == ModernColor::Custom(160, 160, 160)
    &&& row.remove_icon == (Icon { glyph: '\u{F62A}', size: 18 })
    &&& row.remove_icon_color == ModernColor::Custom(160, 160, 160)
    &&& row.remove_style == ModernButton::Text
    &&& row.id == id
}

/// Builds one history row for an already-trimmed query text and its
/// position.
pub fn historial_text(query: &str, id: usize) -> (row: HistoryRow)
    ensures
        row.text@ == query@,
        row.text_color == ModernColor::Custom(160, 160, 160),
        row.remove_icon == (Icon { glyph: '\u{F62A}', size: 18 }),
        row.remove_icon_color == ModernColor::Custom(160, 160, 160),
        row.remove_style == ModernButton::Text,
        row.id == id,
{
    HistoryRow {
        text: query.to_owned(),
        text_color: ModernColor::Custom(160, 160, 160),
        remove_icon: icon('\u{F62A}', 18),
        remove_icon_color: ModernColor::Custom(160, 160, 160),
        remove_style: ModernButton::Text,
        id,
    }
}

/// Builds the history rows: one per query, in the given order, each showing
/// the trimmed text and carrying its position.
pub fn show_historial(queries: &Vec<String>) -> (rows: Vec<HistoryRow>)
    ensures
        rows@.len() == queries@.len(),
        forall|i: int|
            0 <= i < queries@.len() ==> spec_row_matches(rows@[i], queries@[i]@, i),
{
    let mut rows: Vec<HistoryRow> = Vec::new();
    let mut id: usize = 0;
    while id < queries.len()
        invariant
            id <= queries@.len(),
            rows@.len() == id,
            forall|i: int| 0 <= i < id ==> spec_row_matches(rows@[i], queries@[i]@, i),
        decreases queries@.len() - id,
    {
        let trimmed = trim(queries[id].as_str());
        let row = historial_text(trimmed.as_str(), id);
        rows.push(row);
        id += 1;
    }
    rows
}

/// The placeholder message of an empty history panel.
#[derive(Debug, Clone)]
pub struct EmptyHistorial {
    pub message: String,
    pub color: ModernColor,
    pub container: ModernContainer,
}

/// Builds the empty-history placeholder: the message, centered, in the fixed
/// muted color, on the history panel's container style.
pub fn empty_message(msg: &str) -> (e: EmptyHistorial)
    ensures
        e.message@ == msg@,
        e.color == ModernColor::Custom(82, 81, 90),
        e.container == ModernContainer::Historial,
{
    EmptyHistorial {
        message: msg.to_owned(),
        color: ModernColor::Custom(82, 81, 90),
        container: ModernContainer::Historial,
    }
}

/// The history panel: the placeholder message exactly when the history is
/// empty, otherwise the scrollable list of rows.
#[derive(Debug, Clone)]
pub enum HistorialView {
    EmptyMessage(EmptyHistorial),
    Historial(Vec<HistoryRow>),
}

/// Builds the history panel from the history list: the placeholder if and
/// only if the list is empty, otherwise exactly one row per entry, in the
/// list's own order (most recent first).
pub fn historial_view(searches: &Vec<String>) -> (h: HistorialView)
    ensures
        searches@.len() == 0 ==> (h matches HistorialView::EmptyMessage(e)
            && e.message@ == "You didn't searched anything yet..."@
            && e.color == ModernColor::Custom(82, 81, 90)
            && e.container == ModernContainer::Historial),
        searches@.len() > 0 ==> (h matches HistorialView::Historial(rows)
            && rows@.len() == searches@.len()
            && (forall|i: int|
                0 <= i < searches@.len() ==> spec_row_matches(rows@[i], searches@[i]@, i))),
{
    if searches.is_empty() {
        HistorialView::EmptyMessage(empty_message("You didn't searched anything yet..."))
    } else {
        HistorialView::Historial(show_historial(searches))
    }
}

/// The submit button's variant for a query: muted `Secondary` while the
/// trimmed query is blank, `Principal` as soon as it is not.
pub open spec fn spec_submit_style(query: Seq<char>) -> ModernButton {
    if spec_trim(query).len() == 0 {
        ModernButton::Secondary
    } else {
        ModernButton::Principal
    }
}

/// Picks the submit button's style for the current query.
pub fn submit_button_style(query: &str) -> (s: ModernButton)
    ensures
        s == spec_submit_style(query@),
{
    let trimmed = trim(query);
    if trimmed.as_str().is_empty() {
        ModernButton::Secondary
    } else {
        ModernButton::Principal
    }
}

/// The fixed prompt texts one of which is shown in the empty search box.
pub open spec fn spec_placeholder(i: int) -> Seq<char> {
    if i == 0 {
        "Search anything..."@
    } else if i == 1 {
        "Give me your question..."@
    } else {
        "Let step on that errors..."@
    }
}

/// Relies on `rand::Rng::gen_range` over `rand::thread_rng`: a draw from the
/// half-open range below `n` returns a value below `n`. Nothing more is
/// assumed of the draw.
#[verifier::external_body]
fn pick_index(n: usize) -> (r: usize)
    requires
        n > 0,
    ensures
        r < n,
{
    rand::Rng::gen_range(&mut rand::thread_rng(), 0..n)
}

/// Draws one of the three fixed prompt texts at random: cosmetic variety,
/// chosen once per render.
pub fn choose_placeholder() -> (p: String)
    ensures
        exists|i: int| 0 <= i < 3 && p@ == spec_placeholder(i),
{
    let pick = pick_index(3);
    let text = if pick == 0 {
        "Search anything..."
    } else if pick == 1 {
        "Give me your question..."
    } else {
        "Let step on that errors..."
    };
    proof {
        if pick == 0 {
            assert(text@ == spec_placeholder(0));
        } else if pick == 1 {
            assert(text@ == spec_placeholder(1));
        } else {
            assert(text@ == spec_placeholder(2));
        }
    }
    text.to_owned()
}

/// The title block: heading and subtitle with their fixed sizes and the
/// heading's accent color.
#[derive(Debug, Clone)]
pub struct TitleView {
    pub heading: String,
    pub heading_color: ModernColor,
    pub heading_size: u32,
    pub subtitle: String,
    pub subtitle_size: u32,
}

/// The widget-tree model of one render: everything the toolkit needs to draw
/// the window, top to bottom.
#[derive(Debug, Clone)]
pub struct ViewModel {
    pub title: TitleView,
    pub tags: Vec<ImageTagButton>,
    pub placeholder: String,
    pub query: String,
    pub submit_icon: Icon,
    pub submit_style: ModernButton,
    pub historial: HistorialView,
}

/// Whether an image tag button shows the given bitmap with the given accent
/// color and fires a selection of the given tag name.
pub open spec fn spec_tag_matches(
    t: ImageTagButton,
    path: Seq<char>,
    color: ModernButton,
    name: Seq<char>,
) -> bool {
    &&& t.image_path@ == path
    &&& t.style == color
    &&& t.message matches Message::TagSelected(n) && n@ == name
}

impl App {
    /// Builds the view model of the current state: the fixed title block,
    /// the three fixed category tags, the input row bound to the current
    /// query — submit button muted exactly while the trimmed query is blank
    /// — and the history panel with the placeholder if and only if the
    /// history is empty, otherwise one row per entry in order. Only the
    /// prompt text is drawn at random, from the fixed set of three.
    pub fn view(&self) -> (v: ViewModel)
        ensures
            v.title.heading@ == "Capy"@,
            v.title.heading_color == ModernColor::Custom(252, 187, 150),
            v.title.heading_size == 75,
            v.title.subtitle@ == "Programmer search engine"@,
            v.title.subtitle_size == 18,
            v.tags@.len() == 3,
            spec_tag_matches(
                v.tags@[0],
                "images/stack-overflow.png"@,
                ModernButton::Tag(252, 187, 150),
                "overflow"@,
            ),
            spec_tag_matches(
                v.tags@[1],
                "images/stack-exchange.png"@,
                ModernButton::Tag(175, 197, 226),
                "exchange"@,
            ),
            spec_tag_matches(
                v.tags@[2],
                "images/geek-for-geeks.png"@,
                ModernButton::Tag(96, 177, 121),
                "geeks"@,
            ),
            exists|i: int| 0 <= i < 3 && v.placeholder@ == spec_placeholder(i),
            v.query@ == self.inputs.query@,
            v.submit_icon == (Icon { glyph: '\u{F144}', size: 16 }),
            v.submit_style == spec_submit_style(self.inputs.query@),
            self.searches@.len() == 0 ==> (v.historial matches HistorialView::EmptyMessage(e)
                && e.message@ == "You didn't searched anything yet..."@),
            self.searches@.len() > 0 ==> (v.historial matches HistorialView::Historial(rows)
                && rows@.len() == self.searches@.len()
                && (forall|i: int|
                    0 <= i < self.searches@.len() ==> spec_row_matches(
                        rows@[i],
                        self.searches@[i]@,
                        i,
                    ))),
    {
        let placeholder = choose_placeholder();
        let tags = vec![
            itag(
                "images/stack-overflow.png",
                (252, 187, 150),
                Message::TagSelected("overflow".to_owned()),
            ),
            itag(
                "images/stack-exchange.png",
                (175, 197, 226),
                Message::TagSelected("exchange".to_owned()),
            ),
            itag(
                "images/geek-for-geeks.png",
                (96, 177, 121),
                Message::TagSelected("geeks".to_owned()),
            ),
        ];
        ViewModel {
            title: TitleView {
                heading: "Capy".to_owned(),
                heading_color: ModernColor::Custom(252, 187, 150),
                heading_size: 75,
                subtitle: "Programmer search engine".to_owned(),
                subtitle_size: 18,
            },
            tags,
            placeholder,
            query: self.inputs.query.clone(),
            submit_icon: icon('\u{F144}', 16),
            submit_style: submit_button_style(self.inputs.query.as_str()),
            historial: historial_view(&self.searches),
        }
    }
}

} // verus!
