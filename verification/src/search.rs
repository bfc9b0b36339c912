//! The entries of a search result page.
//!
//! The page is a run of entry blocks, each with a link to a series and a
//! heading with its title. The HTML is parsed by `scraper`; what is decided
//! here is what each block must hold and what becomes of a page on which one
//! does not.

use vstd::prelude::*;

use crate::error::ExtractionError;
use crate::site::{check_reference, is_reference};
use crate::text::strings_view;

verus! {

/// Selects the entry blocks of a result page.
pub const BLOCK_SELECTOR: &'static str = "article";

/// Selects, inside a block, the link to the series.
pub const LINK_SELECTOR: &'static str = "a";

/// The attribute of the link that holds the reference.
pub const LINK_ATTRIBUTE: &'static str = "href";

/// Selects, inside a block, the heading with the title.
pub const HEADING_SELECTOR: &'static str = "h3";

/// What one entry block holds, as read from the parsed page.
#[derive(Debug, Clone, PartialEq, Eq)]
pub struct EntryBlock {
    /// Of the first link in the block, the value of its reference attribute:
    /// `None` without a link, `Some(None)` where the link lacks the attribute.
    pub link: Option<Option<String>>,
    /// Of the first heading in the block, its first run of text: `None`
    /// without a heading, `Some(None)` where the heading holds no text.
    pub heading: Option<Option<String>>,
}

/// An [`EntryBlock`] as the contracts see it.
pub struct EntryBlockView {
    pub link: Option<Option<Seq<char>>>,
    pub heading: Option<Option<Seq<char>>>,
}

/// A field of a block as characters.
pub open spec fn field_view(field: Option<Option<String>>) -> Option<Option<Seq<char>>> {
    match field {
        Some(Some(s)) => Some(Some(s@)),
        Some(None) => Some(None),
        None => None,
    }
}

impl View for EntryBlock {
    type V = EntryBlockView;

    open spec fn view(&self) -> EntryBlockView {
        EntryBlockView { link: field_view(self.link), heading: field_view(self.heading) }
    }
}

/// One result of a search: the title to show and the path of the series.
#[derive(Debug, Clone, PartialEq, Eq)]
pub struct SearchResultEntry {
    pub title: String,
    pub reference: String,
}

/// A [`SearchResultEntry`] as the contracts see it.
pub struct SearchResultEntryView {
    pub title: Seq<char>,
    pub reference: Seq<char>,
}

impl View for SearchResultEntry {
    type V = SearchResultEntryView;

    open spec fn view(&self) -> SearchResultEntryView {
        SearchResultEntryView { title: self.title@, reference: self.reference@ }
    }
}

/// The blocks as the contracts see them, in their order.
pub open spec fn blocks_view(blocks: Seq<EntryBlock>) -> Seq<EntryBlockView> {
    blocks.map_values(|b: EntryBlock| b@)
}

/// The entries as the contracts see them, in their order.
pub open spec fn entries_view(entries: Seq<SearchResultEntry>) -> Seq<SearchResultEntryView> {
    entries.map_values(|e: SearchResultEntry| e@)
}

/// The entry blocks that `scraper` finds in `page`: the elements that match
/// the selector `block`, in the order in which it yields them, each with the
/// attribute `attribute` of its first descendant matching `link` and the
/// first text of its first descendant matching `heading`. `None` where one
/// of the three is no selector.
pub uninterp spec fn page_blocks(
    page: Seq<char>,
    block: Seq<char>,
    link: Seq<char>,
    attribute: Seq<char>,
    heading: Seq<char>,
) -> Option<Seq<EntryBlockView>>;

/// Parses `page` with `scraper::Html::parse_document` and the three selectors
/// with `scraper::Selector::parse`, then walks `Html::select` for the blocks
/// and, in each, `ElementRef::select`, `ElementRef::attr` and
/// `ElementRef::text` for the two fields. Nothing is claimed of what the
/// parser finds but that it depends on the five texts alone.
#[verifier::external_body]
fn scan_blocks(page: &str, block: &str, link: &str, attribute: &str, heading: &str) -> (r: Option<
    Vec<EntryBlock>,
>)
    ensures
        match r {
            Some(v) => page_blocks(page@, block@, link@, attribute@, heading@) == Some(
                blocks_view(v@),
            ),
            None => page_blocks(page@, block@, link@, attribute@, heading@) is None,
        },
{
    let blocks = scraper::Selector::parse(block).ok()?;
    let links = scraper::Selector::parse(link).ok()?;
    let headings = scraper::Selector::parse(heading).ok()?;
    let document = scraper::Html::parse_document(page);
    let found = document.select(&blocks).map(|b| EntryBlock {
        link: b.select(&links).next().map(|a| a.attr(attribute).map(String::from)),
        heading: b.select(&headings).next().map(|h| h.text().next().map(String::from)),
    });
    Some(found.collect())
}

/// The entry that a block stands for: it needs a link whose reference is a
/// path below the series prefix, and a heading with text.
pub open spec fn block_entry(block: EntryBlockView) -> Option<SearchResultEntryView> {
    match (block.link, block.heading) {
        (Some(Some(reference)), Some(Some(title))) => if is_reference(reference) {
            Some(SearchResultEntryView { title, reference })
        } else {
            None
        },
        _ => None,
    }
}

/// Every block has its link to a series and its title.
pub open spec fn all_well_formed(blocks: Seq<EntryBlockView>) -> bool {
    forall|i: int| 0 <= i < blocks.len() ==> (#[trigger] block_entry(blocks[i])) is Some
}

/// The entries of a page's blocks, one for each and in their order;
/// `MissingField` as soon as one block lacks its link or its heading.
pub open spec fn blocks_entries(blocks: Seq<EntryBlockView>) -> Result<
    Seq<SearchResultEntryView>,
    ExtractionError,
> {
    if all_well_formed(blocks) {
        Ok(Seq::new(blocks.len(), |i: int| block_entry(blocks[i])->0))
    } else {
        Err(ExtractionError::MissingField)
    }
}

/// The entries of a result page under the given selectors; `MissingMarker`
/// where the blocks cannot be looked for at all.
pub open spec fn page_entries_with(
    page: Seq<char>,
    block: Seq<char>,
    link: Seq<char>,
    attribute: Seq<char>,
    heading: Seq<char>,
) -> Result<Seq<SearchResultEntryView>, ExtractionError> {
    match page_blocks(page, block, link, attribute, heading) {
        Some(blocks) => blocks_entries(blocks),
        None => Err(ExtractionError::MissingMarker),
    }
}

/// The entries of a result page of the site.
pub open spec fn page_entries(page: Seq<char>) -> Result<
    Seq<SearchResultEntryView>,
    ExtractionError,
> {
    page_entries_with(page, BLOCK_SELECTOR@, LINK_SELECTOR@, LINK_ATTRIBUTE@, HEADING_SELECTOR@)
}

/// The result of a stage, seen through the views of its entries.
pub open spec fn entries_result(r: Result<Vec<SearchResultEntry>, ExtractionError>) -> Result<
    Seq<SearchResultEntryView>,
    ExtractionError,
> {
    match r {
        Ok(v) => Ok(entries_view(v@)),
        Err(e) => Err(e),
    }
}

fn entry_from_block(block: &EntryBlock) -> (r: Option<SearchResultEntry>)
    ensures
        match r {
            Some(e) => block_entry(block@) == Some(e@),
            None => block_entry(block@) is None,
        },
{
    match (&block.link, &block.heading) {
        (Some(Some(reference)), Some(Some(title))) => {
            if check_reference(reference.as_str()) {
                Some(SearchResultEntry { title: title.clone(), reference: reference.clone() })
            } else {
                None
            }
        },
        _ => None,
    }
}

/// Turns the blocks of a page into its entries, in the order of the blocks.
///
/// A block without a link to a series, or without a title, fails the whole
/// page with `MissingField`: none is skipped.
pub fn entries_from_blocks(blocks: &Vec<EntryBlock>) -> (r: Result<
    Vec<SearchResultEntry>,
    ExtractionError,
>)
    ensures
        entries_result(r) == blocks_entries(blocks_view(blocks@)),
{
    let ghost views = blocks_view(blocks@);
    let mut out: Vec<SearchResultEntry> = Vec::new();
    let mut i: usize = 0;
    while i < blocks.len()
        invariant
            i <= blocks.len(),
            views == blocks_view(blocks@),
            out.len() == i,
            forall|k: int| 0 <= k < i ==> #[trigger] block_entry(views[k]) == Some(out@[k]@),
        decreases blocks.len() - i,
    {
        match entry_from_block(&blocks[i]) {
            Some(e) => out.push(e),
            None => {
                assert(block_entry(views[i as int]) is None);
                return Err(ExtractionError::MissingField);
            },
        }
        i += 1;
    }
    assert(all_well_formed(views));
    assert(entries_view(out@) =~= Seq::new(views.len(), |k: int| block_entry(views[k])->0));
    Ok(out)
}

/// The entries of a result page, its blocks, links and headings found by the
/// given selectors.
///
/// Fails with `MissingMarker` where one of the three is not a valid selector.
pub fn parse_entries(page: &str, block: &str, link: &str, attribute: &str, heading: &str) -> (r:
    Result<Vec<SearchResultEntry>, ExtractionError>)
    ensures
        entries_result(r) == page_entries_with(page@, block@, link@, attribute@, heading@),
{
    match scan_blocks(page, block, link, attribute, heading) {
        Some(blocks) => entries_from_blocks(&blocks),
        None => Err(ExtractionError::MissingMarker),
    }
}

/// The entries of a result page of the site, in the order of the page.
pub fn parse_search_page(page: &str) -> (r: Result<Vec<SearchResultEntry>, ExtractionError>)
    ensures
        entries_result(r) == page_entries(page@),
{
    parse_entries(page, BLOCK_SELECTOR, LINK_SELECTOR, LINK_ATTRIBUTE, HEADING_SELECTOR)
}

/// A page whose blocks are all well formed gives one entry for each block,
/// in the order of the blocks.
pub proof fn lemma_well_formed_blocks_give_entries(blocks: Seq<EntryBlockView>)
    requires
        all_well_formed(blocks),
    ensures
        blocks_entries(blocks) is Ok,
        blocks_entries(blocks)->Ok_0.len() == blocks.len(),
        forall|i: int|
            0 <= i < blocks.len() ==> Some(#[trigger] blocks_entries(blocks)->Ok_0[i])
                == block_entry(blocks[i]),
{
}

/// The titles of the entries, in their order.
pub open spec fn titles_of(entries: Seq<SearchResultEntryView>) -> Seq<Seq<char>> {
    entries.map_values(|e: SearchResultEntryView| e.title)
}

/// The titles of the entries, in their order.
pub fn titles(entries: &Vec<SearchResultEntry>) -> (r: Vec<String>)
    ensures
        strings_view(r@) == titles_of(entries_view(entries@)),
        r.len() == entries.len(),
{
    let mut out: Vec<String> = Vec::new();
    let mut i: usize = 0;
    while i < entries.len()
        invariant
            i <= entries.len(),
            out.len() == i,
            forall|k: int| 0 <= k < i ==> (#[trigger] out@[k])@ == entries@[k]@.title,
        decreases entries.len() - i,
    {
        out.push(entries[i].title.clone());
        i += 1;
    }
    assert(strings_view(out@) =~= titles_of(entries_view(entries@)));
    out
}


} // verus!
