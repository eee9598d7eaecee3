//! What the library reads of an HTML page: the elements that a selector finds.

use crate::error::Error;
use crate::text::{byte_len, fits_in};
use scraper::{ElementRef, Html, Selector};
use vstd::prelude::*;

verus! {

/// What is read of one element.
#[derive(Debug, Clone, PartialEq, Eq)]
pub struct Element {
    /// The value of each attribute that was asked for, in the order asked.
    pub attrs: Vec<Option<String>>,
    /// The first text node below the element.
    pub text: Option<String>,
}

/// An element together with what further selectors find below it.
#[derive(Debug, Clone, PartialEq, Eq)]
pub struct Row {
    /// The element itself.
    pub element: Element,
    /// For each cell selector, in the order given, the elements it finds below.
    pub cells: Vec<Vec<Element>>,
}

/// The mathematical value of an [`Element`].
pub struct ElementView {
    pub attrs: Seq<Option<Seq<char>>>,
    pub text: Option<Seq<char>>,
}

/// The mathematical value of a [`Row`].
pub struct RowView {
    pub element: ElementView,
    pub cells: Seq<Seq<ElementView>>,
}

impl DeepView for Element {
    type V = ElementView;

    open spec fn deep_view(&self) -> ElementView {
        ElementView { attrs: self.attrs.deep_view(), text: self.text.deep_view() }
    }
}

impl DeepView for Row {
    type V = RowView;

    open spec fn deep_view(&self) -> RowView {
        RowView { element: self.element.deep_view(), cells: self.cells.deep_view() }
    }
}

/// The longest page, in bytes, that is handed to the parser. The parser keeps
/// text in buffers whose length and capacity are 32-bit numbers; the bound
/// leaves room for a text that grows while it is read, as where a character
/// is replaced by a longer one.
pub const PAGE_LIMIT: usize = 0x1000_0000;

/// Whether the page `html` is short enough to be handed to the parser.
pub open spec fn page_fits(html: Seq<char>) -> bool {
    byte_len(html) <= PAGE_LIMIT
}

/// What reading the page `html` gives: `read`, where the page is short
/// enough to be handed to the parser at all.
pub open spec fn on_page<T>(html: Seq<char>, read: Result<T, Error>) -> Result<T, Error> {
    if page_fits(html) {
        read
    } else {
        Err(Error::PageTooLong)
    }
}

/// Whether the page `html` is short enough to be handed to the parser.
pub fn check_page_fits(html: &str) -> (fits: bool)
    ensures
        fits == page_fits(html@),
{
    fits_in(html, PAGE_LIMIT)
}

/// The longest selector, in bytes, that is handed to the selector parser,
/// which descends once for each level of nesting in a selector.
pub const SELECTOR_LIMIT: usize = 0x400;

/// Whether `selector` is short enough to be handed to the selector parser.
pub open spec fn selector_fits(selector: Seq<char>) -> bool {
    byte_len(selector) <= SELECTOR_LIMIT
}

/// Whether each of `selectors` is short enough to be handed to the selector
/// parser.
pub open spec fn selectors_fit(selectors: Seq<Seq<char>>) -> bool {
    forall|i: int| 0 <= i < selectors.len() ==> selector_fits(#[trigger] selectors[i])
}

/// Whether each of `elements` holds `attrs` attribute values.
pub open spec fn elements_shaped(elements: Seq<ElementView>, attrs: nat) -> bool {
    forall|i: int| 0 <= i < elements.len() ==> (#[trigger] elements[i]).attrs.len() == attrs
}

/// Whether each of `rows` holds `attrs` attribute values and `cells` lists of
/// cells whose elements do too.
pub open spec fn rows_shaped(rows: Seq<RowView>, cells: nat, attrs: nat) -> bool {
    forall|i: int|
        0 <= i < rows.len() ==> {
            &&& (#[trigger] rows[i]).element.attrs.len() == attrs
            &&& rows[i].cells.len() == cells
            &&& forall|j: int|
                0 <= j < cells ==> elements_shaped(#[trigger] rows[i].cells[j], attrs)
        }
}

/// What `scraper` finds in the document `html`: the elements that match the
/// selector `row`, in the order in which it yields them, each with the
/// elements below it that match each selector of `cells`; of every element the
/// values of the attributes named in `attrs` and its first text. `None` where
/// `scraper` refuses one of the selectors.
pub uninterp spec fn document_rows(
    html: Seq<char>,
    row: Seq<char>,
    cells: Seq<Seq<char>>,
    attrs: Seq<Seq<char>>,
) -> Option<Seq<RowView>>;

/// What `scraper` finds in the fragment `html`: the elements that match
/// `selector`, read as in [`document_rows`].
pub uninterp spec fn fragment_elements(
    html: Seq<char>,
    selector: Seq<char>,
    attrs: Seq<Seq<char>>,
) -> Option<Seq<ElementView>>;

/// Parses `html` with `scraper::Html::parse_document` and the selectors with
/// `scraper::Selector::parse`, then walks `Html::select` and, below each
/// element found, `ElementRef::select`. Of each element it keeps what
/// `ElementRef::attr` gives for each name in `attrs` and the first item of
/// `ElementRef::text`.
///
/// The bounds keep the page below the length at which the parser's buffers
/// give up, and the selectors so short that their parser stays shallow.
///
/// Trusted: the result depends on the arguments alone, it is `None` exactly
/// where a selector is refused, and it holds one list of cells for each cell
/// selector and one attribute value for each name.
#[verifier::external_body]
fn select_rows(html: &str, row: &str, cells: &Vec<&str>, attrs: &Vec<&str>) -> (found:
    Option<Vec<Row>>)
    requires
        page_fits(html@),
        selector_fits(row@),
        selectors_fit(cells.deep_view()),
    ensures
        found.deep_view() == document_rows(html@, row@, cells.deep_view(), attrs.deep_view()),
        found matches Some(rows) ==> rows_shaped(rows.deep_view(), cells@.len(), attrs@.len()),
{
    let row = Selector::parse(row).ok()?;
    let cells = cells.iter().map(|c| Selector::parse(c).ok()).collect::<Option<Vec<_>>>()?;
    let read = |e: ElementRef| Element {
        attrs: attrs.iter().map(|a| e.attr(a).map(String::from)).collect(),
        text: e.text().next().map(String::from),
    };
    let rows = Html::parse_document(html).select(&row).map(|r| Row {
        element: read(r),
        cells: cells.iter().map(|c| r.select(c).map(read).collect()).collect(),
    }).collect();
    Some(rows)
}

/// Parses `html` with `scraper::Html::parse_fragment` and `selector` with
/// `scraper::Selector::parse`, then walks `Html::select`, keeping of each
/// element what [`select_rows`] keeps. The bounds are those of [`select_rows`].
///
/// Trusted: the result depends on the arguments alone, it is `None` exactly
/// where the selector is refused, and it holds one attribute value for each
/// name.
#[verifier::external_body]
fn select_in_fragment(html: &str, selector: &str, attrs: &Vec<&str>) -> (found: Option<
    Vec<Element>,
>)
    requires
        page_fits(html@),
        selector_fits(selector@),
    ensures
        found.deep_view() == fragment_elements(html@, selector@, attrs.deep_view()),
        found matches Some(elements) ==> elements_shaped(elements.deep_view(), attrs@.len()),
{
    let selector = Selector::parse(selector).ok()?;
    let read = |e: ElementRef| Element {
        attrs: attrs.iter().map(|a| e.attr(a).map(String::from)).collect(),
        text: e.text().next().map(String::from),
    };
    let elements = Html::parse_fragment(html).select(&selector).map(read).collect();
    Some(elements)
}

/// What is found in the document `html`: [`document_rows`], where every
/// selector is short enough to be handed to the selector parser; a selector
/// that is too long counts as refused.
pub open spec fn found_rows(
    html: Seq<char>,
    row: Seq<char>,
    cells: Seq<Seq<char>>,
    attrs: Seq<Seq<char>>,
) -> Option<Seq<RowView>> {
    if selector_fits(row) && selectors_fit(cells) {
        document_rows(html, row, cells, attrs)
    } else {
        None
    }
}

/// What is found in the fragment `html`: [`fragment_elements`], where the
/// selector is short enough to be handed to the selector parser.
pub open spec fn found_in_fragment(
    html: Seq<char>,
    selector: Seq<char>,
    attrs: Seq<Seq<char>>,
) -> Option<Seq<ElementView>> {
    if selector_fits(selector) {
        fragment_elements(html, selector, attrs)
    } else {
        None
    }
}

/// The rows that the selector `row` finds in the document `html`, each with
/// what the selectors of `cells` find below it.
pub(crate) fn find_rows(html: &str, row: &str, cells: &Vec<&str>, attrs: &Vec<&str>) -> (found:
    Option<Vec<Row>>)
    requires
        page_fits(html@),
    ensures
        found.deep_view() == found_rows(html@, row@, cells.deep_view(), attrs.deep_view()),
        found matches Some(rows) ==> rows_shaped(rows.deep_view(), cells@.len(), attrs@.len()),
{
    if !fits_in(row, SELECTOR_LIMIT) {
        return None;
    }
    let mut checked: usize = 0;
    while checked < cells.len()
        invariant
            checked <= cells.len(),
            forall|i: int| 0 <= i < checked ==> selector_fits(#[trigger] cells.deep_view()[i]),
        decreases cells.len() - checked,
    {
        proof {
            assert(cells.deep_view()[checked as int] == cells@[checked as int]@);
        }
        if !fits_in(cells[checked], SELECTOR_LIMIT) {
            return None;
        }
        checked = checked + 1;
    }
    select_rows(html, row, cells, attrs)
}

/// The elements that `selector` finds in the fragment `html`.
pub(crate) fn find_in_fragment(html: &str, selector: &str, attrs: &Vec<&str>) -> (found: Option<
    Vec<Element>,
>)
    requires
        page_fits(html@),
    ensures
        found.deep_view() == found_in_fragment(html@, selector@, attrs.deep_view()),
        found matches Some(elements) ==> elements_shaped(elements.deep_view(), attrs@.len()),
{
    if fits_in(selector, SELECTOR_LIMIT) {
        select_in_fragment(html, selector, attrs)
    } else {
        None
    }
}

/// The value of the attribute that was asked for at place `index`, where the
/// element has it.
pub open spec fn attr_at(element: ElementView, index: int) -> Option<Seq<char>> {
    if 0 <= index < element.attrs.len() {
        element.attrs[index]
    } else {
        None
    }
}

/// The first element that the cell selector at place `index` found below `row`.
pub open spec fn first_cell(row: RowView, index: int) -> Option<ElementView> {
    if 0 <= index < row.cells.len() && row.cells[index].len() > 0 {
        Some(row.cells[index][0])
    } else {
        None
    }
}

/// All the elements that the cell selector at place `index` found below `row`.
pub open spec fn cells_at(row: RowView, index: int) -> Seq<ElementView> {
    if 0 <= index < row.cells.len() {
        row.cells[index]
    } else {
        Seq::empty()
    }
}

impl Element {
    /// The value of the attribute that was asked for at place `index`.
    pub fn attr(&self, index: usize) -> (value: Option<&str>)
        ensures
            value.deep_view() == attr_at(self.deep_view(), index as int),
    {
        if index < self.attrs.len() {
            match &self.attrs[index] {
                Some(value) => Some(value.as_str()),
                None => None,
            }
        } else {
            None
        }
    }

    /// The element's first text.
    pub fn first_text(&self) -> (text: Option<&str>)
        ensures
            text.deep_view() == self.deep_view().text,
    {
        match &self.text {
            Some(text) => Some(text.as_str()),
            None => None,
        }
    }
}

impl Row {
    /// All the elements that the cell selector at place `index` found; `None`
    /// where no selector stood at that place.
    pub fn cells(&self, index: usize) -> (cells: Option<&Vec<Element>>)
        ensures
            match cells {
                Some(found) => found.deep_view() == cells_at(self.deep_view(), index as int),
                None => cells_at(self.deep_view(), index as int) == Seq::<ElementView>::empty(),
            },
    {
        if index < self.cells.len() {
            Some(&self.cells[index])
        } else {
            None
        }
    }

    /// The first element that the cell selector at place `index` found.
    pub fn first_cell(&self, index: usize) -> (cell: Option<&Element>)
        ensures
            cell.deep_view() == first_cell(self.deep_view(), index as int),
    {
        if index < self.cells.len() && self.cells[index].len() > 0 {
            Some(&self.cells[index][0])
        } else {
            None
        }
    }
}

} // verus!
