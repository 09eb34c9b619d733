//! The content of web pages.
//!
//! A browser's page is read over its debug port where that answers. Where it does not, and the
//! accessibility tree shows nothing of the page either, the page is read off the screen, tile by
//! tile.

use vstd::prelude::*;

use crate::geometry::{clamp32, overlap, rects_overlap, saturating_add32, Rect};
use crate::ieee::Real32;
use crate::m1::observation::{AccessibleNode, CdpDiagnostics, CdpStatus, ElementId, ElementIdView,
    ObservationInput, SensorStatus, WebPerceptionPath};
use crate::numerals::{decimal, decimal_text, hex_padded, hex_padded_text};
use crate::text::{ascii_lower, blank, cat2, is_blank, optional_view, text_equal,
    text_starts_with, to_ascii_lower, trim, trimmed};

verus! {

// ---------------------------------------------------------------------------------------------
// The debug port
// ---------------------------------------------------------------------------------------------

/// What to ask of a browser's debug port.
#[derive(Debug, PartialEq, Eq)]
pub struct CdpRequest {
    pub endpoint: String,
    pub hwnd: i64,
    pub title: String,
    pub max_nodes: usize,
}

/// Why a page could not be read over the debug port.
#[derive(Debug, PartialEq, Eq)]
pub struct CdpFailure {
    pub code: String,
    pub detail: String,
}

/// Whether a page can be asked for over the debug port.
pub open spec fn can_attach<C>(cdp: Option<CdpDiagnostics<C>>) -> bool {
    cdp matches Some(d) && d.status is Reachable && d.endpoint is Some
}

/// Decides whether to ask for a page, and for what.
pub fn cdp_request<N, C>(input: &ObservationInput<N, C>, max_nodes: usize) -> (r: Option<
    CdpRequest,
>)
    ensures
        match r {
            Some(request) => {
                &&& can_attach(input.cdp)
                &&& request.endpoint == input.cdp->Some_0.endpoint->Some_0
                &&& request.hwnd == input.foreground.hwnd
                &&& request.title == input.foreground.window_title
                &&& request.max_nodes == max_nodes
            },
            None => !can_attach(input.cdp),
        },
{
    let cdp: &CdpDiagnostics<C> = match &input.cdp {
        Some(cdp) => cdp,
        None => {
            return None;
        },
    };
    if cdp.status != CdpStatus::Reachable {
        return None;
    }
    match &cdp.endpoint {
        Some(endpoint) => Some(
            CdpRequest {
                endpoint: endpoint.clone(),
                hwnd: input.foreground.hwnd,
                title: input.foreground.window_title.clone(),
                max_nodes,
            },
        ),
        None => None,
    }
}

/// A web node as it joins the elements: no deeper than the observation goes.
pub open spec fn at_depth(node: AccessibleNode, max_depth: u32) -> AccessibleNode {
    AccessibleNode {
        depth: if node.depth <= max_depth {
            node.depth
        } else {
            max_depth
        },
        ..node
    }
}

/// The web nodes as they join the elements.
pub open spec fn nodes_at_depth(nodes: Seq<AccessibleNode>, max_depth: u32) -> Seq<AccessibleNode> {
    Seq::new(nodes.len(), |i: int| at_depth(nodes[i], max_depth))
}

/// A count as a `u32`, cut off at its bound.
pub open spec fn node_count(n: nat) -> u32 {
    if n <= u32::MAX {
        n as u32
    } else {
        u32::MAX
    }
}

/// Folds what the debug port gave into an input that could be asked for: the page's nodes join the
/// elements, or the failure is noted. An input that could not is left as it is.
pub fn enrich_input_with_cdp<N, C>(
    input: &mut ObservationInput<N, C>,
    max_depth: u32,
    snapshot: Result<Vec<AccessibleNode>, CdpFailure>,
)
    ensures
        if !can_attach(old(input).cdp) {
            *final(input) == *old(input)
        } else {
            match snapshot {
                Ok(nodes) => {
                    &&& final(input).elements@ == old(input).elements@ + nodes_at_depth(
                        nodes@,
                        max_depth,
                    )
                    &&& *final(input) == (ObservationInput {
                        elements: final(input).elements,
                        web_path: Some(WebPerceptionPath::Cdp),
                        cdp: Some(
                            CdpDiagnostics {
                                attached_node_count: Some(node_count(nodes@.len())),
                                ..old(input).cdp->Some_0
                            },
                        ),
                        ..*old(input)
                    })
                },
                Err(failure) => *final(input) == (ObservationInput {
                    cdp: Some(
                        CdpDiagnostics {
                            status: CdpStatus::AttachFailed,
                            reason_code: Some(failure.code),
                            detail: Some(failure.detail),
                            ..old(input).cdp->Some_0
                        },
                    ),
                    ..*old(input)
                }),
            }
        },
{
    let attachable: bool = match &input.cdp {
        Some(cdp) => cdp.status == CdpStatus::Reachable && cdp.endpoint.is_some(),
        None => false,
    };
    if !attachable {
        return;
    }
    let mut cdp: CdpDiagnostics<C> = match input.cdp.take() {
        Some(cdp) => cdp,
        None => {
            return;
        },
    };
    match snapshot {
        Ok(nodes) => {
            let count: u32 = if nodes.len() as u64 <= u32::MAX as u64 {
                nodes.len() as u32
            } else {
                u32::MAX
            };
            let ghost before = input.elements@;
            let ghost all = nodes@;
            let mut elements: Vec<AccessibleNode> = Vec::new();
            std::mem::swap(&mut input.elements, &mut elements);
            for node in it: nodes
                invariant
                    it.seq() == all,
                    elements@ == before + nodes_at_depth(
                        all.subrange(0, it.index() as int),
                        max_depth,
                    ),
            {
                let ghost i = it.index() as int;
                let mut node = node;
                if node.depth > max_depth {
                    node.depth = max_depth;
                }
                proof {
                    assert(nodes_at_depth(all.subrange(0, i + 1), max_depth) =~= nodes_at_depth(
                        all.subrange(0, i),
                        max_depth,
                    ).push(at_depth(all[i], max_depth)));
                }
                elements.push(node);
            }
            assert(all.subrange(0, all.len() as int) =~= all);
            input.elements = elements;
            input.web_path = Some(WebPerceptionPath::Cdp);
            cdp.attached_node_count = Some(count);
            input.cdp = Some(cdp);
        },
        Err(failure) => {
            cdp.status = CdpStatus::AttachFailed;
            cdp.reason_code = Some(failure.code);
            cdp.detail = Some(failure.detail);
            input.cdp = Some(cdp);
        },
    }
}

// ---------------------------------------------------------------------------------------------
// The part of the window that shows the page
// ---------------------------------------------------------------------------------------------

/// Height of the browser's own frame above a page.
pub const BROWSER_OCR_CHROME_TOP_PX: i32 = 96;

/// Height of one tile.
pub const BROWSER_OCR_TILE_HEIGHT_PX: i32 = 600;

/// Most tiles that are read.
pub const BROWSER_OCR_MAX_TILES: usize = 8;

/// What the ids of words read off the screen begin with.
pub const OCR_RUNTIME_PREFIX: &'static str = "0c0c";

/// How much of a window's height is left out at the top.
pub open spec fn top_inset(h: int) -> int {
    if h > 240 {
        if h / 3 < BROWSER_OCR_CHROME_TOP_PX {
            h / 3
        } else {
            BROWSER_OCR_CHROME_TOP_PX as int
        }
    } else {
        0
    }
}

/// The part of a window that shows the page, where the window has an area.
pub open spec fn content_region(bounds: Rect) -> Option<Rect> {
    if bounds.has_area() {
        Some(
            Rect {
                x: bounds.x,
                y: clamp32(bounds.y + top_inset(bounds.h as int)),
                w: bounds.w,
                h: (bounds.h - top_inset(bounds.h as int)) as i32,
            },
        )
    } else {
        None
    }
}

/// The part of a window that shows the page.
pub fn browser_content_region(window_bounds: Rect) -> (r: Option<Rect>)
    ensures
        r == content_region(window_bounds),
{
    if window_bounds.w <= 0 || window_bounds.h <= 0 {
        return None;
    }
    let inset: i32 = if window_bounds.h > 240 {
        if window_bounds.h / 3 < BROWSER_OCR_CHROME_TOP_PX {
            window_bounds.h / 3
        } else {
            BROWSER_OCR_CHROME_TOP_PX
        }
    } else {
        0
    };
    Some(
        Rect {
            x: window_bounds.x,
            y: saturating_add32(window_bounds.y, inset),
            w: window_bounds.w,
            h: window_bounds.h - inset,
        },
    )
}

/// The number of tiles that a region is read in.
pub open spec fn tile_count(region: Rect) -> nat {
    if region.has_area() {
        let needed = (region.bottom() - region.y + 599) / 600;
        if needed < 8 {
            needed as nat
        } else {
            8
        }
    } else {
        0
    }
}

/// One tile of a region: its rows from `600 i` on, at most 600 of them.
pub open spec fn tile(region: Rect, i: int) -> Rect {
    let y = region.y + 600 * i;
    Rect {
        x: region.x,
        y: y as i32,
        w: region.w,
        h: if region.bottom() - y < BROWSER_OCR_TILE_HEIGHT_PX {
            (region.bottom() - y) as i32
        } else {
            BROWSER_OCR_TILE_HEIGHT_PX
        },
    }
}

/// The tiles that a region is read in.
pub open spec fn tiles(region: Rect) -> Seq<Rect> {
    Seq::new(tile_count(region), |i: int| tile(region, i))
}

/// Cuts a region into tiles.
pub fn browser_ocr_tiles(content_region: Rect) -> (r: Vec<Rect>)
    ensures
        r@ == tiles(content_region),
{
    let mut out: Vec<Rect> = Vec::new();
    if content_region.w <= 0 || content_region.h <= 0 {
        assert(out@ =~= tiles(content_region));
        return out;
    }
    let bottom: i32 = saturating_add32(content_region.y, content_region.h);
    let mut y: i32 = content_region.y;
    while y < bottom && out.len() < BROWSER_OCR_MAX_TILES
        invariant
            content_region.has_area(),
            bottom == content_region.bottom(),
            out@.len() <= tile_count(content_region),
            out@.len() <= 8,
            forall|i: int| 0 <= i < out@.len() ==> #[trigger] out@[i] == tile(content_region, i),
            y <= bottom,
            y == content_region.y + 600 * out@.len() || (y == bottom && out@.len() == tile_count(
                content_region,
            )),
            y < bottom ==> y == content_region.y + 600 * out@.len(),
        decreases bottom - y,
    {
        let rest: i32 = bottom - y;
        let height: i32 = if rest < BROWSER_OCR_TILE_HEIGHT_PX {
            rest
        } else {
            BROWSER_OCR_TILE_HEIGHT_PX
        };
        out.push(Rect { x: content_region.x, y, w: content_region.w, h: height });
        y = y + height;
    }
    assert(out@ =~= tiles(content_region));
    out
}

// ---------------------------------------------------------------------------------------------
// When the page is read off the screen
// ---------------------------------------------------------------------------------------------

/// Whether a role is one of those that a page's content has.
pub open spec fn is_content_role(role: Seq<char>) -> bool {
    ||| role == "button"@
    ||| role == "document"@
    ||| role == "edit"@
    ||| role == "heading"@
    ||| role == "hyperlink"@
    ||| role == "link"@
    ||| role == "text"@
}

/// Whether a node shows some of the page: it was not read off the screen, it has an area that
/// overlaps the page, a role that content has, and something to it.
pub open spec fn shows_content(node: AccessibleNode, region: Rect) -> bool {
    let role = ascii_lower(node.role@);
    &&& !(node.automation_id matches Some(id) && "ocr:"@.is_prefix_of(id@))
    &&& node.bbox.has_area()
    &&& overlap(node.bbox, region)
    &&& is_content_role(role)
    &&& {
        ||| !is_blank(node.name@)
        ||| node.value matches Some(value) && !is_blank(value@)
        ||| node.patterns@.len() > 0
        ||| role == "document"@
    }
}

/// Whether the accessibility tree of a Chromium browser shows some of the page.
pub open spec fn has_content(
    chromium: bool,
    bounds: Rect,
    nodes: Seq<AccessibleNode>,
) -> bool {
    &&& chromium
    &&& content_region(bounds) is Some
    &&& exists|i: int|
        0 <= i < nodes.len() && shows_content(#[trigger] nodes[i], content_region(bounds)->Some_0)
}

fn content_role(role: &str) -> (r: bool)
    ensures
        r == is_content_role(role@),
{
    text_equal(role, "button") || text_equal(role, "document") || text_equal(role, "edit")
        || text_equal(role, "heading") || text_equal(role, "hyperlink") || text_equal(role, "link")
        || text_equal(role, "text")
}

fn node_shows_content(node: &AccessibleNode, region: Rect) -> (r: bool)
    ensures
        r == shows_content(*node, region),
{
    if let Some(automation_id) = &node.automation_id {
        if text_starts_with(automation_id.as_str(), "ocr:") {
            return false;
        }
    }
    if node.bbox.w <= 0 || node.bbox.h <= 0 || !rects_overlap(node.bbox, region) {
        return false;
    }
    let role = to_ascii_lower(node.role.as_str());
    let has_value: bool = match &node.value {
        Some(value) => !blank(value.as_str()),
        None => false,
    };
    content_role(role.as_str()) && (!blank(node.name.as_str()) || has_value || node.patterns.len()
        > 0 || text_equal(role.as_str(), "document"))
}

/// Says whether the accessibility tree shows some of the page. `chromium` says whether the
/// foreground is a Chromium browser.
pub fn has_chromium_renderer_uia_content<N, C>(
    input: &ObservationInput<N, C>,
    chromium: bool,
) -> (r: bool)
    ensures
        r == has_content(chromium, input.foreground.window_bounds, input.elements@),
{
    if !chromium {
        return false;
    }
    let region: Rect = match browser_content_region(input.foreground.window_bounds) {
        Some(region) => region,
        None => {
            return false;
        },
    };
    let mut i: usize = 0;
    while i < input.elements.len()
        invariant
            i <= input.elements@.len(),
            forall|k: int| 0 <= k < i ==> !shows_content(#[trigger] input.elements@[k], region),
            chromium,
            content_region(input.foreground.window_bounds) == Some(region),
        decreases input.elements@.len() - i,
    {
        if node_shows_content(&input.elements[i], region) {
            assert(shows_content(input.elements@[i as int], region));
            return true;
        }
        i += 1;
    }
    false
}

/// Whether the page is to be read off the screen: nothing but the accessibility tree has been read,
/// that shows nothing of the page, and the debug port failed.
pub open spec fn wants_ocr<N, C>(input: ObservationInput<N, C>, chromium: bool) -> bool {
    &&& input.web_path == Some(WebPerceptionPath::UiaOnly)
    &&& !has_content(chromium, input.foreground.window_bounds, input.elements@)
    &&& input.cdp matches Some(d) && (d.status is Unreachable || d.status is AttachFailed)
}

/// Says whether the page is to be read off the screen.
pub fn should_attempt_browser_ocr<N, C>(input: &ObservationInput<N, C>, chromium: bool) -> (r: bool)
    ensures
        r == wants_ocr(*input, chromium),
{
    let uia_only: bool = match input.web_path {
        Some(path) => path == WebPerceptionPath::UiaOnly,
        None => false,
    };
    if !uia_only {
        return false;
    }
    if has_chromium_renderer_uia_content(input, chromium) {
        return false;
    }
    match &input.cdp {
        Some(diagnostics) => diagnostics.status == CdpStatus::Unreachable || diagnostics.status
            == CdpStatus::AttachFailed,
        None => false,
    }
}

// ---------------------------------------------------------------------------------------------
// Words read off the screen
// ---------------------------------------------------------------------------------------------

/// A text read off the screen.
#[derive(Debug, PartialEq, Eq)]
pub struct TextRegion {
    pub text: String,
    pub bbox: Rect,
    pub confidence: Real32,
}

/// Whether a word can become an element: it is not blank and has an area.
pub open spec fn is_usable(word: TextRegion) -> bool {
    !is_blank(word.text@) && word.bbox.has_area()
}

/// The words that can become elements, in order.
pub open spec fn usable(words: Seq<TextRegion>) -> Seq<TextRegion>
    decreases words.len(),
{
    if words.len() == 0 {
        Seq::empty()
    } else if is_usable(words.last()) {
        usable(words.drop_last()).push(words.last())
    } else {
        usable(words.drop_last())
    }
}

/// The id of the word at an index.
pub open spec fn ocr_id(hwnd: i64, index: nat) -> ElementIdView {
    ElementIdView { hwnd, runtime_id_hex: OCR_RUNTIME_PREFIX@ + hex_padded(index, 12) }
}

/// The id of the word at an index.
pub fn browser_ocr_element_id(hwnd: i64, index: usize) -> (r: ElementId)
    ensures
        r@ == ocr_id(hwnd, index as nat),
{
    let digits = hex_padded_text(index as u64, 12);
    ElementId { hwnd, runtime_id_hex: cat2(OCR_RUNTIME_PREFIX, digits.as_str()) }
}

/// A node is the word at an index.
pub open spec fn is_ocr_node(
    node: AccessibleNode,
    hwnd: i64,
    index: nat,
    word: TextRegion,
) -> bool {
    &&& node.element_id@ == ocr_id(hwnd, index)
    &&& node.parent is None
    &&& node.name@ == trimmed(word.text@)
    &&& node.role@ == "text"@
    &&& optional_view(node.automation_id) == Some("ocr:word:"@ + decimal(index))
    &&& node.value is None
    &&& node.bbox == word.bbox
    &&& node.enabled
    &&& !node.focused
    &&& node.patterns@.len() == 0
    &&& node.children_count == 0
    &&& node.depth == 1
}

/// The smaller of two numbers.
pub open spec fn at_most(n: nat, max: nat) -> nat {
    if n <= max {
        n
    } else {
        max
    }
}

/// The nodes are the first usable words, at most `max_nodes` of them.
pub open spec fn are_ocr_nodes(
    nodes: Seq<AccessibleNode>,
    hwnd: i64,
    words: Seq<TextRegion>,
    max_nodes: usize,
) -> bool {
    &&& nodes.len() == at_most(usable(words).len(), max_nodes as nat)
    &&& forall|i: int|
        0 <= i < nodes.len() ==> is_ocr_node(
            #[trigger] nodes[i],
            hwnd,
            i as nat,
            usable(words)[i],
        )
}

fn ocr_node(hwnd: i64, index: usize, word: TextRegion) -> (r: AccessibleNode)
    ensures
        is_ocr_node(r, hwnd, index as nat, word),
{
    let number = decimal_text(index as u64);
    AccessibleNode {
        element_id: browser_ocr_element_id(hwnd, index),
        parent: None,
        name: trim(word.text.as_str()),
        role: "text".to_owned(),
        automation_id: Some(cat2("ocr:word:", number.as_str())),
        value: None,
        bbox: word.bbox,
        enabled: true,
        focused: false,
        patterns: Vec::new(),
        children_count: 0,
        depth: 1,
    }
}

/// Turns words into nodes.
pub fn browser_ocr_nodes(hwnd: i64, words: Vec<TextRegion>, max_nodes: usize) -> (r: Vec<
    AccessibleNode,
>)
    ensures
        are_ocr_nodes(r@, hwnd, words@, max_nodes),
{
    let ghost all = words@;
    let mut nodes: Vec<AccessibleNode> = Vec::new();
    for word in it: words
        invariant
            it.seq() == all,
            are_ocr_nodes(nodes@, hwnd, all.subrange(0, it.index() as int), max_nodes),
    {
        proof {
            let i = it.index() as int;
            assert(all.subrange(0, i + 1).drop_last() =~= all.subrange(0, i));
            assert(all.subrange(0, i + 1).last() == all[i]);
        }
        if !blank(word.text.as_str()) && word.bbox.non_empty() && nodes.len() < max_nodes {
            let index: usize = nodes.len();
            nodes.push(ocr_node(hwnd, index, word));
        }
    }
    assert(all.subrange(0, all.len() as int) =~= all);
    nodes
}

/// The input with words added to its elements: after those that were there, and where there is none
/// to add, nothing changes. `added` is how many were added.
pub open spec fn has_words_added<N, C>(
    before: ObservationInput<N, C>,
    after: ObservationInput<N, C>,
    words: Seq<TextRegion>,
    max_nodes: usize,
    added: usize,
) -> bool {
    &&& added == at_most(usable(words).len(), max_nodes as nat)
    &&& if added == 0 {
        after == before
    } else {
        &&& after.elements@.len() == before.elements@.len() + added
        &&& after.elements@.subrange(0, before.elements@.len() as int) == before.elements@
        &&& are_ocr_nodes(
            after.elements@.skip(before.elements@.len() as int),
            before.foreground.hwnd,
            words,
            max_nodes,
        )
        &&& after == (ObservationInput {
            elements: after.elements,
            web_path: Some(WebPerceptionPath::Ocr),
            ..before
        })
    }
}

/// Adds words to the elements; with the first of them the input comes off the screen.
pub fn apply_browser_ocr_words<N, C>(
    input: &mut ObservationInput<N, C>,
    words: Vec<TextRegion>,
    max_nodes: usize,
) -> (r: usize)
    ensures
        has_words_added(*old(input), *final(input), words@, max_nodes, r),
{
    let mut nodes = browser_ocr_nodes(input.foreground.hwnd, words, max_nodes);
    let added: usize = nodes.len();
    if added == 0 {
        return 0;
    }
    let ghost before = input.elements@;
    let ghost more = nodes@;
    input.elements.append(&mut nodes);
    input.web_path = Some(WebPerceptionPath::Ocr);
    proof {
        assert(input.elements@ == before + more);
        assert(input.elements@.subrange(0, before.len() as int) =~= before);
        assert(input.elements@.skip(before.len() as int) =~= more);
    }
    added
}

// ---------------------------------------------------------------------------------------------
// Reading tile by tile
// ---------------------------------------------------------------------------------------------

/// Why the page is not read off the screen.
#[derive(Clone, Copy, Debug, PartialEq, Eq, Structural)]
pub enum BrowserOcrSkip {
    /// There is no need, or no room.
    NotWanted,
    CaptureUnavailable,
    EmptyRegion,
}

/// A page as it is being read.
#[derive(Debug)]
pub struct BrowserOcrRun {
    pub region: Rect,
    pub tiles: Vec<Rect>,
    pub max_nodes: usize,
    pub words: Vec<TextRegion>,
    /// The tiles that were read.
    pub attempted_tiles: usize,
    /// The tiles that gave no text.
    pub failed_tiles: usize,
}

/// Why the page is not read off the screen, if it is not.
pub open spec fn ocr_skip<N, C>(
    input: ObservationInput<N, C>,
    chromium: bool,
    max_nodes: usize,
) -> Option<BrowserOcrSkip> {
    if max_nodes == 0 || !wants_ocr(input, chromium) {
        Some(BrowserOcrSkip::NotWanted)
    } else if input.capture_status is Unavailable {
        Some(BrowserOcrSkip::CaptureUnavailable)
    } else if content_region(input.foreground.window_bounds) is None {
        Some(BrowserOcrSkip::EmptyRegion)
    } else {
        None
    }
}

impl BrowserOcrRun {
    /// The counters keep within the tiles.
    pub open spec fn wf(self) -> bool {
        &&& self.attempted_tiles <= self.tiles@.len()
        &&& self.failed_tiles <= self.attempted_tiles
    }

    /// Begins to read the page.
    pub fn begin<N, C>(input: &ObservationInput<N, C>, chromium: bool, max_nodes: usize) -> (r: Result<
        BrowserOcrRun,
        BrowserOcrSkip,
    >)
        ensures
            match ocr_skip(*input, chromium, max_nodes) {
                Some(skip) => r == Err::<BrowserOcrRun, BrowserOcrSkip>(skip),
                None => {
                    &&& r matches Ok(run)
                    &&& run.wf()
                    &&& content_region(input.foreground.window_bounds) == Some(run.region)
                    &&& run.tiles@ == tiles(run.region)
                    &&& run.max_nodes == max_nodes
                    &&& run.words@.len() == 0
                    &&& run.attempted_tiles == 0
                    &&& run.failed_tiles == 0
                },
            },
    {
        if max_nodes == 0 || !should_attempt_browser_ocr(input, chromium) {
            return Err(BrowserOcrSkip::NotWanted);
        }
        if input.capture_status == SensorStatus::Unavailable {
            return Err(BrowserOcrSkip::CaptureUnavailable);
        }
        let region: Rect = match browser_content_region(input.foreground.window_bounds) {
            Some(region) => region,
            None => {
                return Err(BrowserOcrSkip::EmptyRegion);
            },
        };
        Ok(
            BrowserOcrRun {
                region,
                tiles: browser_ocr_tiles(region),
                max_nodes,
                words: Vec::new(),
                attempted_tiles: 0,
                failed_tiles: 0,
            },
        )
    }

    /// The tile to read next: none once there are words enough.
    pub open spec fn next(self) -> Option<Rect> {
        if self.attempted_tiles < self.tiles@.len() && self.words@.len() < self.max_nodes {
            Some(self.tiles@[self.attempted_tiles as int])
        } else {
            None
        }
    }

    /// The tile to read next.
    pub fn next_tile(&self) -> (r: Option<Rect>)
        ensures
            r == self.next(),
    {
        if self.attempted_tiles < self.tiles.len() && self.words.len() < self.max_nodes {
            Some(self.tiles[self.attempted_tiles])
        } else {
            None
        }
    }

    /// Takes what a tile gave.
    pub fn absorb(&mut self, read: Option<Vec<TextRegion>>)
        requires
            old(self).wf(),
            old(self).next() is Some,
        ensures
            final(self).wf(),
            final(self).attempted_tiles == old(self).attempted_tiles + 1,
            final(self).failed_tiles == old(self).failed_tiles + (if read is None {
                1int
            } else {
                0
            }),
            final(self).words@ == (match read {
                Some(words) => old(self).words@ + words@,
                None => old(self).words@,
            }),
            *final(self) == (BrowserOcrRun {
                words: final(self).words,
                attempted_tiles: final(self).attempted_tiles,
                failed_tiles: final(self).failed_tiles,
                ..*old(self)
            }),
    {
        let tile_total: usize = self.tiles.len();
        assert(self.attempted_tiles < tile_total);
        self.attempted_tiles = self.attempted_tiles + 1;
        match read {
            Some(words) => {
                let mut words = words;
                self.words.append(&mut words);
            },
            None => {
                self.failed_tiles = self.failed_tiles + 1;
            },
        }
    }

    /// Adds what was read to the input.
    pub fn enrich_input_with_browser_ocr<N, C>(self, input: &mut ObservationInput<N, C>) -> (r: usize)
        ensures
            r == at_most(usable(self.words@).len(), self.max_nodes as nat),
            if r == 0 {
                *final(input) == *old(input)
            } else {
                &&& final(input).elements@.len() == old(input).elements@.len() + r
                &&& final(input).elements@.subrange(0, old(input).elements@.len() as int) == old(input).elements@
                &&& are_ocr_nodes(
                    final(input).elements@.skip(old(input).elements@.len() as int),
                    old(input).foreground.hwnd,
                    self.words@,
                    self.max_nodes,
                )
                &&& *final(input) == (ObservationInput {
                    elements: final(input).elements,
                    web_path: Some(WebPerceptionPath::Ocr),
                    ..*old(input)
                })
            },
    {
        apply_browser_ocr_words(input, self.words, self.max_nodes)
    }
}

// ---------------------------------------------------------------------------------------------
// Laws
// ---------------------------------------------------------------------------------------------

/// The tiles are at most eight, each has an area, and they follow one another from the top of the
/// region without gap or overlap. A region of at most 4800 rows is covered to its end.
pub proof fn law_tiles_follow_one_another(region: Rect, i: int)
    requires
        0 <= i < tiles(region).len(),
    ensures
        tiles(region).len() <= 8,
        tiles(region)[0].y == region.y,
        tiles(region)[i].x == region.x && tiles(region)[i].w == region.w,
        1 <= tiles(region)[i].h <= 600,
        i + 1 < tiles(region).len() ==> tiles(region)[i + 1].y == tiles(region)[i].y + tiles(
            region,
        )[i].h,
        region.bottom() - region.y <= 4800 ==> tiles(region).last().y + tiles(region).last().h
            == region.bottom(),
{
}

/// The part of a window that shows the page has an area, ends where the window ends, and leaves out
/// at most the browser's own band.
pub proof fn law_content_region_lies_in_the_window(bounds: Rect)
    requires
        bounds.has_area(),
        bounds.y + bounds.h <= i32::MAX,
    ensures
        content_region(bounds) matches Some(region) && region.has_area() && region.bottom()
            == bounds.bottom() && bounds.y <= region.y <= bounds.y + 96,
{
}

proof fn lemma_none_usable(words: Seq<TextRegion>)
    requires
        forall|i: int| 0 <= i < words.len() ==> !is_usable(#[trigger] words[i]),
    ensures
        usable(words).len() == 0,
    decreases words.len(),
{
    if words.len() > 0 {
        assert(!is_usable(words.last())) by {
            assert(words[words.len() - 1] == words.last());
        }
        assert forall|i: int| 0 <= i < words.drop_last().len() implies !is_usable(
            #[trigger] words.drop_last()[i],
        ) by {
            assert(words.drop_last()[i] == words[i]);
        }
        lemma_none_usable(words.drop_last());
    }
}

/// Reading words off the screen keeps every element that was there, in its place; and an input is left
/// as it is where no word is usable.
pub proof fn law_words_keep_what_was_there<N, C>(
    before: ObservationInput<N, C>,
    after: ObservationInput<N, C>,
    words: Seq<TextRegion>,
    max_nodes: usize,
    added: usize,
)
    requires
        has_words_added(before, after, words, max_nodes, added),
    ensures
        before.elements@.is_prefix_of(after.elements@),
        (forall|i: int| 0 <= i < words.len() ==> !is_usable(#[trigger] words[i])) ==> after
            == before,
{
    assert(before.elements@.subrange(0, before.elements@.len() as int) =~= before.elements@);
    if forall|i: int| 0 <= i < words.len() ==> !is_usable(#[trigger] words[i]) {
        lemma_none_usable(words);
    }
}

/// The id of a word names the word's window, and begins as the ids of all words do.
pub proof fn law_word_ids_begin_with_the_prefix(hwnd: i64, index: nat)
    ensures
        OCR_RUNTIME_PREFIX@.is_prefix_of(ocr_id(hwnd, index).runtime_id_hex),
        ocr_id(hwnd, index).hwnd == hwnd,
{
    let id = ocr_id(hwnd, index).runtime_id_hex;
    assert(id.subrange(0, OCR_RUNTIME_PREFIX@.len() as int) =~= OCR_RUNTIME_PREFIX@);
}

/// A browser is attached to exactly if its endpoint is known and can be reached; it is asked for the
/// window in front, by handle and title, and for as many nodes as are wanted.
pub proof fn law_reachable_browsers_are_asked<N, C>(
    input: &ObservationInput<N, C>,
    max_nodes: usize,
    r: Option<CdpRequest>,
)
    requires
        call_ensures(cdp_request::<N, C>, (input, max_nodes), r),
    ensures
        r is Some <==> input.cdp is Some && input.cdp->Some_0.status is Reachable
            && input.cdp->Some_0.endpoint is Some,
        r matches Some(request) ==> Some(request.endpoint) == input.cdp->Some_0.endpoint
            && request.hwnd == input.foreground.hwnd && request.title
            == input.foreground.window_title && request.max_nodes == max_nodes,
{
}

/// The nodes of a browser are put behind those that are there, each as it came but for a depth beyond
/// the limit, which becomes the limit; a failure is noted, and a browser that was not to be attached
/// to leaves everything as it is.
pub proof fn law_browser_nodes_are_added<N, C>(
    input: &mut ObservationInput<N, C>,
    max_depth: u32,
    snapshot: Result<Vec<AccessibleNode>, CdpFailure>,
)
    requires
        call_ensures(enrich_input_with_cdp::<N, C>, (input, max_depth, snapshot), ()),
    ensures
        (old(input).cdp is None || old(input).cdp->Some_0.status !is Reachable || old(input).cdp->Some_0.endpoint is None) ==> *final(input) == *old(input),
        old(input).cdp is Some && old(input).cdp->Some_0.status is Reachable && old(input).cdp->Some_0.endpoint is Some ==> {
            &&& final(input).foreground == old(input).foreground
            &&& final(input).focused == old(input).focused
            &&& final(input).entities == old(input).entities
            &&& final(input).mode_override == old(input).mode_override
            &&& final(input).capture_status == old(input).capture_status
            &&& final(input).cdp is Some
            &&& final(input).cdp->Some_0.endpoint == old(input).cdp->Some_0.endpoint
            &&& final(input).cdp->Some_0.process_name == old(input).cdp->Some_0.process_name
            &&& (snapshot matches Ok(nodes) ==> {
                &&& final(input).elements@.len() == old(input).elements@.len() + nodes@.len()
                &&& (forall|i: int|
                    0 <= i < old(input).elements@.len() ==> #[trigger] final(input).elements@[i]
                        == old(input).elements@[i])
                &&& (forall|i: int|
                    0 <= i < nodes@.len() ==> {
                        let node = #[trigger] nodes@[i];
                        let added = final(input).elements@[old(input).elements@.len() + i];
                        &&& (node.depth <= max_depth ==> added == node)
                        &&& (node.depth > max_depth ==> added == (AccessibleNode {
                            depth: max_depth,
                            ..node
                        }))
                    })
                &&& final(input).web_path == Some(WebPerceptionPath::Cdp)
                &&& final(input).cdp->Some_0.status is Reachable
                &&& (nodes@.len() <= u32::MAX
                    ==> final(input).cdp->Some_0.attached_node_count is Some
                    && final(input).cdp->Some_0.attached_node_count->Some_0 == nodes@.len())
            })
            &&& (snapshot matches Err(failure) ==> final(input).elements == old(input).elements
                && final(input).web_path == old(input).web_path
                && final(input).cdp->Some_0.status is AttachFailed
                && final(input).cdp->Some_0.reason_code == Some(failure.code)
                && final(input).cdp->Some_0.detail == Some(failure.detail))
        },
{
}

/// The page is the window without the browser's own band at its top: none for a window of at most
/// 240 rows, a third of the window below 288 rows, and 96 rows above.
pub proof fn law_page_is_the_window_below_the_band(window_bounds: Rect, r: Option<Rect>)
    requires
        call_ensures(browser_content_region, (window_bounds,), r),
        window_bounds.y + window_bounds.h <= i32::MAX,
    ensures
        r is Some <==> window_bounds.w > 0 && window_bounds.h > 0,
        r is Some ==> r->Some_0.x == window_bounds.x && r->Some_0.w == window_bounds.w
            && r->Some_0.y + r->Some_0.h == window_bounds.y + window_bounds.h,
        r is Some && window_bounds.h <= 240 ==> r->Some_0.y == window_bounds.y,
        r is Some && 240 < window_bounds.h < 288 ==> 3 * (r->Some_0.y - window_bounds.y)
            <= window_bounds.h < 3 * (r->Some_0.y - window_bounds.y) + 3,
        r is Some && window_bounds.h >= 288 ==> r->Some_0.y == window_bounds.y + 96,
{
}

/// The tiles of a region are 600 rows each but for the last, one behind the other from its top, and
/// cover it to its end or as far as eight tiles go.
pub proof fn law_pages_are_read_in_tiles(region: Rect, r: Vec<Rect>)
    requires
        call_ensures(browser_ocr_tiles, (region,), r),
        region.y + region.h <= i32::MAX,
    ensures
        r@.len() == 0 <==> region.w <= 0 || region.h <= 0,
        r@.len() <= 8,
        forall|i: int|
            0 <= i < r@.len() ==> (#[trigger] r@[i]).x == region.x && r@[i].w == region.w && r@[i].y
                == region.y + 600 * i && 1 <= r@[i].h <= 600 && r@[i].y + r@[i].h <= region.y
                + region.h,
        forall|i: int| 0 <= i < r@.len() - 1 ==> (#[trigger] r@[i]).h == 600,
        0 < r@.len() < 8 ==> r@.last().y + r@.last().h == region.y + region.h,
        r@.len() == 8 && region.h >= 4800 ==> r@.last().h == 600,
        r@.len() == 8 && region.h <= 4800 ==> r@.last().y + r@.last().h == region.y + region.h,
{
    assert forall|i: int| 0 <= i < r@.len() implies (#[trigger] r@[i]).x == region.x && r@[i].w
        == region.w && r@[i].y == region.y + 600 * i && 1 <= r@[i].h <= 600 && r@[i].y + r@[i].h
        <= region.y + region.h by {
        assert(r@[i] == tile(region, i));
    }
}

/// A page shows content where the window is a browser's and some element within the page is a button,
/// a document, a field, a heading, a link or a text, was not itself read off the screen, has an area,
/// and has a name, a value or a pattern or is a document.
pub proof fn law_pages_show_content_by_an_element<N, C>(
    input: &ObservationInput<N, C>,
    chromium: bool,
    page: Rect,
    r: bool,
    i: int,
)
    requires
        call_ensures(has_chromium_renderer_uia_content::<N, C>, (input, chromium), r),
        call_ensures(browser_content_region, (input.foreground.window_bounds,), Some(page)),
        0 <= i < input.elements@.len(),
    ensures
        !chromium ==> !r,
        ({
            let node = input.elements@[i];
            let role = ascii_lower(node.role@);
            &&& chromium
            &&& node.bbox.w > 0 && node.bbox.h > 0
            &&& node.bbox.x < page.right() && node.bbox.right() > page.x
            &&& node.bbox.y < page.bottom() && node.bbox.bottom() > page.y
            &&& (node.automation_id is None || !"ocr:"@.is_prefix_of(node.automation_id->Some_0@))
            &&& (role == "button"@ || role == "document"@ || role == "edit"@ || role == "heading"@
                || role == "hyperlink"@ || role == "link"@ || role == "text"@)
            &&& (!is_blank(node.name@) || (node.value is Some && !is_blank(node.value->Some_0@))
                || node.patterns@.len() > 0 || role == "document"@)
        }) ==> r,
        input.elements@.len() == 1 && r ==> {
            let node = input.elements@[0];
            let role = ascii_lower(node.role@);
            &&& node.bbox.w > 0 && node.bbox.h > 0
            &&& node.bbox.x < page.right() && node.bbox.right() > page.x
            &&& node.bbox.y < page.bottom() && node.bbox.bottom() > page.y
            &&& (node.automation_id is None || !"ocr:"@.is_prefix_of(node.automation_id->Some_0@))
            &&& (role == "button"@ || role == "document"@ || role == "edit"@ || role == "heading"@
                || role == "hyperlink"@ || role == "link"@ || role == "text"@)
            &&& (!is_blank(node.name@) || (node.value is Some && !is_blank(node.value->Some_0@))
                || node.patterns@.len() > 0 || role == "document"@)
        },
{
}

/// The screen is read where nothing else can tell of the page: only the window's own elements are
/// known, none of them shows content, and the browser cannot be reached or attached to.
pub proof fn law_screen_is_read_where_nothing_else_tells<N, C>(
    input: &ObservationInput<N, C>,
    chromium: bool,
    content: bool,
    r: bool,
)
    requires
        call_ensures(has_chromium_renderer_uia_content::<N, C>, (input, chromium), content),
        call_ensures(should_attempt_browser_ocr::<N, C>, (input, chromium), r),
    ensures
        r <==> input.web_path == Some(WebPerceptionPath::UiaOnly) && !content && input.cdp is Some
            && (input.cdp->Some_0.status is Unreachable || input.cdp->Some_0.status
            is AttachFailed),
{
}

proof fn lemma_usable_is_a_filter(words: Seq<TextRegion>)
    ensures
        usable(words) == words.filter(
            |word: TextRegion| !is_blank(word.text@) && word.bbox.w > 0 && word.bbox.h > 0,
        ),
    decreases words.len(),
{
    reveal(Seq::filter);
    if words.len() > 0 {
        lemma_usable_is_a_filter(words.drop_last());
    }
}

/// Every word that has text and an area becomes an element, in order and up to the number wanted, and
/// is told as it was read: its text without the space round it, at its place.
pub proof fn law_words_become_elements(
    hwnd: i64,
    words: Vec<TextRegion>,
    max_nodes: usize,
    r: Vec<AccessibleNode>,
)
    requires
        call_ensures(browser_ocr_nodes, (hwnd, words, max_nodes), r),
    ensures
        ({
            let kept = words@.filter(
                |word: TextRegion| !is_blank(word.text@) && word.bbox.w > 0 && word.bbox.h > 0,
            );
            &&& (kept.len() <= max_nodes ==> r@.len() == kept.len())
            &&& (kept.len() > max_nodes ==> r@.len() == max_nodes)
            &&& forall|i: int|
                0 <= i < r@.len() ==> {
                    &&& (#[trigger] r@[i]).name@ == trimmed(kept[i].text@)
                    &&& r@[i].bbox == kept[i].bbox
                    &&& r@[i].element_id.hwnd == hwnd
                    &&& r@[i].element_id.runtime_id_hex@ == OCR_RUNTIME_PREFIX@ + hex_padded(
                        i as nat,
                        12,
                    )
                    &&& r@[i].role@ == "text"@
                    &&& r@[i].automation_id is Some
                    &&& r@[i].automation_id->Some_0@ == "ocr:word:"@ + decimal(i as nat)
                    &&& r@[i].parent is None && r@[i].value is None
                    &&& r@[i].enabled && !r@[i].focused
                    &&& r@[i].patterns@.len() == 0 && r@[i].children_count == 0
                    &&& r@[i].depth == 1
                }
        }),
{
    lemma_usable_is_a_filter(words@);
}

/// The words that were read are put behind the elements that are there, as many as have text and an
/// area, and no more than are wanted; the input is then marked as read off the screen. With no such
/// word it stays as it is.
pub proof fn law_read_words_are_added<N, C>(
    input: &mut ObservationInput<N, C>,
    words: Vec<TextRegion>,
    max_nodes: usize,
    added: usize,
)
    requires
        call_ensures(apply_browser_ocr_words::<N, C>, (input, words, max_nodes), added),
    ensures
        ({
            let kept = words@.filter(
                |word: TextRegion| !is_blank(word.text@) && word.bbox.w > 0 && word.bbox.h > 0,
            );
            &&& (kept.len() <= max_nodes ==> added == kept.len())
            &&& (kept.len() > max_nodes ==> added == max_nodes)
            &&& (added == 0 ==> *final(input) == *old(input))
            &&& (added > 0 ==> {
                &&& final(input).web_path == Some(WebPerceptionPath::Ocr)
                &&& final(input).elements@.len() == old(input).elements@.len() + added
                &&& final(input).foreground == old(input).foreground
                &&& final(input).focused == old(input).focused
                &&& final(input).entities == old(input).entities
                &&& final(input).cdp == old(input).cdp
                &&& final(input).capture_status == old(input).capture_status
            })
            &&& forall|i: int|
                0 <= i < old(input).elements@.len() ==> #[trigger] final(input).elements@[i] == old(input).elements@[i]
            &&& forall|i: int|
                0 <= i < added ==> {
                    let node = #[trigger] final(input).elements@.skip(
                        old(input).elements@.len() as int,
                    )[i];
                    &&& node.name@ == trimmed(kept[i].text@)
                    &&& node.bbox == kept[i].bbox
                    &&& node.element_id.hwnd == old(input).foreground.hwnd
                }
        }),
{
    lemma_usable_is_a_filter(words@);
    if added > 0 {
        let before = old(input).elements@;
        let after = final(input).elements@;
        assert forall|i: int| 0 <= i < before.len() implies #[trigger] after[i] == before[i] by {
            assert(after.subrange(0, before.len() as int)[i] == before[i]);
        }
    }
}

/// A reading begins where the screen is to be read, there is room for a word, the screen can be
/// captured and the page has an area; and otherwise says which of these is wanting.
pub proof fn law_readings_begin_where_they_can<N, C>(
    input: &ObservationInput<N, C>,
    chromium: bool,
    max_nodes: usize,
    wanted: bool,
    page: Option<Rect>,
    r: Result<BrowserOcrRun, BrowserOcrSkip>,
)
    requires
        call_ensures(should_attempt_browser_ocr::<N, C>, (input, chromium), wanted),
        call_ensures(browser_content_region, (input.foreground.window_bounds,), page),
        call_ensures(BrowserOcrRun::begin::<N, C>, (input, chromium, max_nodes), r),
    ensures
        r == Err::<BrowserOcrRun, BrowserOcrSkip>(BrowserOcrSkip::NotWanted) <==> max_nodes == 0
            || !wanted,
        r == Err::<BrowserOcrRun, BrowserOcrSkip>(BrowserOcrSkip::CaptureUnavailable) <==> max_nodes
            > 0 && wanted && input.capture_status is Unavailable,
        r == Err::<BrowserOcrRun, BrowserOcrSkip>(BrowserOcrSkip::EmptyRegion) <==> max_nodes > 0
            && wanted && input.capture_status !is Unavailable && page is None,
        r is Ok <==> max_nodes > 0 && wanted && input.capture_status !is Unavailable && page is Some,
        r matches Ok(run) ==> Some(run.region) == page && run.max_nodes == max_nodes
            && run.words@.len() == 0 && run.attempted_tiles == 0 && run.failed_tiles == 0,
{
}

/// A reading goes through the tiles in order, until they are used up or enough words were read; it
/// keeps every word in the order it came, and counts the tiles that gave none.
pub proof fn law_readings_go_through_the_tiles(
    run: &mut BrowserOcrRun,
    asked: Option<Rect>,
    read: Option<Vec<TextRegion>>,
)
    requires
        call_ensures(BrowserOcrRun::next_tile, (&*old(run),), asked),
        asked is Some,
        old(run).attempted_tiles <= old(run).tiles@.len(),
        old(run).failed_tiles <= old(run).attempted_tiles,
        call_ensures(BrowserOcrRun::absorb, (run, read), ()),
    ensures
        asked->Some_0 == old(run).tiles@[old(run).attempted_tiles as int],
        old(run).words@.len() < old(run).max_nodes,
        final(run).attempted_tiles == old(run).attempted_tiles + 1,
        read is None ==> final(run).failed_tiles == old(run).failed_tiles + 1 && final(run).words@
            == old(run).words@,
        read is Some ==> final(run).failed_tiles == old(run).failed_tiles && final(run).words@
            == old(run).words@ + read->Some_0@,
        final(run).tiles == old(run).tiles,
        final(run).region == old(run).region,
        final(run).max_nodes == old(run).max_nodes,
{
}

/// A reading ends exactly if its tiles are used up or it has enough words.
pub proof fn law_readings_end_for_a_reason(run: &BrowserOcrRun, asked: Option<Rect>)
    requires
        call_ensures(BrowserOcrRun::next_tile, (run,), asked),
    ensures
        asked is None <==> run.attempted_tiles >= run.tiles@.len() || run.words@.len()
            >= run.max_nodes,
{
}

/// A finished reading hands its words over as any words are added: to the window in front, and no more
/// than it was begun for.
pub proof fn law_readings_hand_their_words_over<N, C>(
    run: BrowserOcrRun,
    input: &mut ObservationInput<N, C>,
    added: usize,
)
    requires
        call_ensures(BrowserOcrRun::enrich_input_with_browser_ocr::<N, C>, (run, input), added),
    ensures
        ({
            let kept = run.words@.filter(
                |word: TextRegion| !is_blank(word.text@) && word.bbox.w > 0 && word.bbox.h > 0,
            );
            &&& (kept.len() <= run.max_nodes ==> added == kept.len())
            &&& (kept.len() > run.max_nodes ==> added == run.max_nodes)
            &&& (added == 0 ==> *final(input) == *old(input))
            &&& (added > 0 ==> final(input).web_path == Some(WebPerceptionPath::Ocr) && final(input).elements@.len() == old(input).elements@.len() + added && final(input).foreground
                == old(input).foreground && final(input).cdp == old(input).cdp)
            &&& forall|i: int|
                0 <= i < old(input).elements@.len() ==> #[trigger] final(input).elements@[i] == old(input).elements@[i]
            &&& forall|i: int|
                0 <= i < added ==> {
                    let node = #[trigger] final(input).elements@.skip(
                        old(input).elements@.len() as int,
                    )[i];
                    &&& node.name@ == trimmed(kept[i].text@)
                    &&& node.bbox == kept[i].bbox
                    &&& node.element_id.hwnd == old(input).foreground.hwnd
                }
        }),
{
    lemma_usable_is_a_filter(run.words@);
    if added > 0 {
        let before = old(input).elements@;
        let after = final(input).elements@;
        assert forall|i: int| 0 <= i < before.len() implies #[trigger] after[i] == before[i] by {
            assert(after.subrange(0, before.len() as int)[i] == before[i]);
        }
    }
}

} // verus!
