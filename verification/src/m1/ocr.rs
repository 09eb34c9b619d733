//! Reading text off the screen.

use vstd::prelude::*;

use crate::error::{mcp_error, ErrorView, ToolError, OCR_BACKEND_UNAVAILABLE, OCR_NO_TEXT};
use crate::geometry::{clamp32, saturating_add32, Rect};
use crate::ieee::{Real32, ONE_32};
use crate::m1::browser::TextRegion;
use crate::m1::capture::{bbox_text, print_bbox};
use crate::m1::observation::{find_element, holds_element, AccessibleNode, ElementId,
    ElementIdView, ObservationInput};
use crate::m1::{current_input, forced_error, is_synthetic_input, M1State};
use crate::numerals::{decimal, decimal_text};
use crate::text::{cat2, cat3, clone_optional, trim, trimmed};

verus! {

/// What recognises text.
#[derive(Clone, Copy, Debug, PartialEq, Eq, Structural)]
pub enum OcrBackend {
    Winrt,
    Crnn,
    Auto,
}

/// What to read.
#[derive(Debug)]
pub struct ReadTextParams {
    pub region: Option<Rect>,
    pub element_id: Option<ElementId>,
    pub backend: OcrBackend,
    pub lang_hint: Option<String>,
}

/// A request to read text, with nothing left to decide.
#[derive(Debug, PartialEq, Eq)]
pub struct ResolvedReadTextRequest {
    pub region: Rect,
    pub requested_backend: OcrBackend,
    pub effective_backend: OcrBackend,
    pub lang_hint: Option<String>,
    pub synthetic: bool,
}

/// One word that was read.
#[derive(Debug, PartialEq, Eq)]
pub struct OcrWord {
    pub text: String,
    pub bbox: Rect,
    pub confidence: Real32,
}

/// What was read.
#[derive(Debug, PartialEq, Eq)]
pub struct OcrResult {
    pub full_text: String,
    pub words: Vec<OcrWord>,
    pub confidence: Real32,
    pub region: Rect,
    pub lang: String,
}

/// The language of a request: the hint without the blanks around it, `und` where nothing is left.
pub open spec fn lang_of(hint: Option<String>) -> Seq<char> {
    match hint {
        Some(lang) => if trimmed(lang@).len() > 0 {
            trimmed(lang@)
        } else {
            "und"@
        },
        None => "und"@,
    }
}

impl ResolvedReadTextRequest {
    /// The language of the request.
    pub fn lang(&self) -> (r: String)
        ensures
            r@ == lang_of(self.lang_hint),
    {
        if let Some(hint) = &self.lang_hint {
            let lang = trim(hint.as_str());
            if lang.as_str().unicode_len() > 0 {
                return lang;
            }
        }
        "und".to_owned()
    }
}

// ---------------------------------------------------------------------------------------------
// Resolving a request
// ---------------------------------------------------------------------------------------------

/// An error that says that there is no text.
pub open spec fn no_text(message: Seq<char>) -> ErrorView {
    ErrorView { code: OCR_NO_TEXT@, message }
}

/// The position of the first node with an id.
pub open spec fn is_first_with_id(
    nodes: Seq<AccessibleNode>,
    id: ElementIdView,
    at: int,
) -> bool {
    &&& 0 <= at < nodes.len()
    &&& nodes[at].element_id@ == id
    &&& forall|j: int| 0 <= j < at ==> (#[trigger] nodes[j]).element_id@ != id
}

/// The region that a request asks for, where it is known what is on the screen: the region it names,
/// the element it names, or the element with the focus.
pub open spec fn is_text_region<D, N, C>(
    state: M1State<D>,
    params: ReadTextParams,
    bounds: Result<Rect, String>,
    read: Result<ObservationInput<N, C>, ToolError>,
    r: Result<Rect, ToolError>,
) -> bool {
    if params.region is Some {
        r == Ok::<Rect, ToolError>(params.region->Some_0)
    } else if params.element_id is Some && !state.synthetic {
        match bounds {
            Ok(rect) => r == Ok::<Rect, ToolError>(rect),
            Err(detail) => r matches Err(e) && e@ == no_text(
                "element_id has no live visible OCR region: "@ + detail@,
            ),
        }
    } else if forced_error(state) is Some {
        r matches Err(e) && forced_error(state) == Some(e@)
    } else if read is Err {
        r == Err::<Rect, ToolError>(read->Err_0)
    } else {
        exists|input: ObservationInput<N, C>|
            {
                &&& #[trigger] is_current_input(input, read->Ok_0, state)
                &&& if params.element_id is Some {
                    is_element_region(input, params.element_id->Some_0@, r)
                } else {
                    is_focused_region(input, r)
                }
            }
    }
}

/// The input of the current screen, down to the depth at which text is looked for.
pub open spec fn is_current_input<D, N, C>(
    input: ObservationInput<N, C>,
    read: ObservationInput<N, C>,
    state: M1State<D>,
) -> bool {
    if state.synthetic {
        is_synthetic_input(input, read, state, 2)
    } else {
        crate::m1::is_platform_input(input, read, state)
    }
}

/// The region of the element with an id.
pub open spec fn is_element_region<N, C>(
    input: ObservationInput<N, C>,
    id: ElementIdView,
    r: Result<Rect, ToolError>,
) -> bool {
    match r {
        Ok(rect) => exists|at: int| #[trigger]
            is_first_with_id(input.elements@, id, at) && input.elements@[at].bbox == rect,
        Err(e) => !holds_element(input.elements@, id) && e@ == no_text(
            "element_id has no visible OCR region"@,
        ),
    }
}

/// The region of the element with the focus.
pub open spec fn is_focused_region<N, C>(
    input: ObservationInput<N, C>,
    r: Result<Rect, ToolError>,
) -> bool {
    match input.focused {
        Some(focused) => r == Ok::<Rect, ToolError>(focused.bbox),
        None => r matches Err(e) && e@ == no_text(
            "read_text requires region, element_id, or a focused element with a visible OCR region"@,
        ),
    }
}

/// Finds the region that a request asks for. `bounds` is what was read of the element's rectangle,
/// `read` what was read of the screen; each counts only where the request needs it.
pub fn text_region<D, N, C>(
    state: &M1State<D>,
    params: &ReadTextParams,
    bounds: Result<Rect, String>,
    read: Result<ObservationInput<N, C>, ToolError>,
) -> (r: Result<Rect, ToolError>)
    ensures
        is_text_region(*state, *params, bounds, read, r),
{
    if let Some(region) = params.region {
        return Ok(region);
    }
    if let Some(element_id) = &params.element_id {
        if !state.synthetic {
            return match bounds {
                Ok(rect) => Ok(rect),
                Err(detail) => Err(
                    mcp_error(
                        OCR_NO_TEXT,
                        cat2("element_id has no live visible OCR region: ", detail.as_str()),
                    ),
                ),
            };
        }
        let input = match current_input(state, 2, read) {
            Ok(input) => input,
            Err(e) => {
                return Err(e);
            },
        };
        assert(is_current_input(input, read->Ok_0, *state));
        return match find_element(&input.elements, element_id) {
            Some(at) => {
                let rect: Rect = input.elements[at].bbox;
                assert(is_first_with_id(input.elements@, element_id@, at as int));
                Ok(rect)
            },
            None => Err(
                mcp_error(OCR_NO_TEXT, "element_id has no visible OCR region".to_owned()),
            ),
        };
    }
    let input = match current_input(state, 2, read) {
        Ok(input) => input,
        Err(e) => {
            return Err(e);
        },
    };
    assert(is_current_input(input, read->Ok_0, *state));
    match &input.focused {
        Some(focused) => Ok(focused.bbox),
        None => Err(
            mcp_error(
                OCR_NO_TEXT,
                "read_text requires region, element_id, or a focused element with a visible OCR region".to_owned(),
            ),
        ),
    }
}

/// Refuses a region without an area.
pub fn validate_ocr_region(region: Rect) -> (r: Result<(), ToolError>)
    ensures
        match r {
            Ok(_) => region.has_area(),
            Err(e) => !region.has_area() && e@ == empty_region(region),
        },
{
    if region.w <= 0 || region.h <= 0 {
        let bbox = print_bbox(region);
        return Err(
            mcp_error(
                OCR_NO_TEXT,
                cat3("read_text OCR region must be non-empty: bbox=(", bbox.as_str(), ")"),
            ),
        );
    }
    Ok(())
}

/// Why a region without an area is refused.
pub open spec fn empty_region(region: Rect) -> ErrorView {
    no_text("read_text OCR region must be non-empty: bbox=("@ + bbox_text(region) + ")"@)
}

/// Why the neural recogniser is refused.
pub open spec fn crnn_unavailable() -> ErrorView {
    ErrorView {
        code: OCR_BACKEND_UNAVAILABLE@,
        message:
            "CRNN OCR backend is declared in schema but no CRNN runtime/model provider is wired on this host; request backend=winrt or backend=auto"@,
    }
}

/// The refusal of the neural recogniser.
pub fn crnn_unavailable_error() -> (r: ToolError)
    ensures
        r@ == crnn_unavailable(),
{
    mcp_error(
        OCR_BACKEND_UNAVAILABLE,
        "CRNN OCR backend is declared in schema but no CRNN runtime/model provider is wired on this host; request backend=winrt or backend=auto".to_owned(),
    )
}

/// Picks the recogniser that does the work.
pub fn effective_ocr_backend(backend: OcrBackend) -> (r: Result<OcrBackend, ToolError>)
    ensures
        match backend {
            OcrBackend::Crnn => r matches Err(e) && e@ == crnn_unavailable(),
            _ => r == Ok::<OcrBackend, ToolError>(OcrBackend::Winrt),
        },
{
    match backend {
        OcrBackend::Winrt => Ok(OcrBackend::Winrt),
        OcrBackend::Auto => Ok(OcrBackend::Winrt),
        OcrBackend::Crnn => Err(crnn_unavailable_error()),
    }
}

/// A request is resolved once its region is known.
pub open spec fn is_resolved<D>(
    state: M1State<D>,
    params: ReadTextParams,
    region: Result<Rect, ToolError>,
    r: Result<ResolvedReadTextRequest, ToolError>,
) -> bool {
    match region {
        Err(e) => r == Err::<ResolvedReadTextRequest, ToolError>(e),
        Ok(region) => if !region.has_area() {
            r matches Err(e) && e@ == empty_region(region)
        } else if params.backend is Crnn {
            r matches Err(e) && e@ == crnn_unavailable()
        } else {
            r == Ok::<ResolvedReadTextRequest, ToolError>(
                ResolvedReadTextRequest {
                    region,
                    requested_backend: params.backend,
                    effective_backend: OcrBackend::Winrt,
                    lang_hint: params.lang_hint,
                    synthetic: state.synthetic,
                },
            )
        },
    }
}

/// Resolves a request: finds its region and the recogniser that does the work.
pub fn resolve_read_text_request<D, N, C>(
    state: &M1State<D>,
    params: &ReadTextParams,
    bounds: Result<Rect, String>,
    read: Result<ObservationInput<N, C>, ToolError>,
) -> (r: Result<ResolvedReadTextRequest, ToolError>)
    ensures
        exists|region: Result<Rect, ToolError>|
            {
                &&& #[trigger] is_text_region(*state, *params, bounds, read, region)
                &&& is_resolved(*state, *params, region, r)
            },
{
    let found = text_region(state, params, bounds, read);
    let ghost asked = found;
    assert(is_text_region(*state, *params, bounds, read, asked));
    let region: Rect = match found {
        Ok(region) => region,
        Err(e) => {
            let out: Result<ResolvedReadTextRequest, ToolError> = Err(e);
            assert(is_resolved(*state, *params, asked, out));
            return out;
        },
    };
    if let Err(e) = validate_ocr_region(region) {
        let out: Result<ResolvedReadTextRequest, ToolError> = Err(e);
        assert(is_resolved(*state, *params, asked, out));
        return out;
    }
    let effective_backend: OcrBackend = match effective_ocr_backend(params.backend) {
        Ok(backend) => backend,
        Err(e) => {
            let out: Result<ResolvedReadTextRequest, ToolError> = Err(e);
            assert(is_resolved(*state, *params, asked, out));
            return out;
        },
    };
    let out: Result<ResolvedReadTextRequest, ToolError> = Ok(
        ResolvedReadTextRequest {
            region,
            requested_backend: params.backend,
            effective_backend,
            lang_hint: clone_optional(&params.lang_hint),
            synthetic: state.synthetic,
        },
    );
    assert(is_resolved(*state, *params, asked, out));
    out
}

// ---------------------------------------------------------------------------------------------
// Reading
// ---------------------------------------------------------------------------------------------

/// A confidence as it is reported: a number between zero and one.
pub open spec fn normalized(confidence: Real32) -> Real32 {
    if !confidence.is_finite() || confidence.is_less(Real32 { bits: 0 }) {
        Real32 { bits: 0 }
    } else if (Real32 { bits: ONE_32 }).is_less(confidence) {
        Real32 { bits: ONE_32 }
    } else {
        confidence
    }
}

/// A confidence as it is reported.
pub fn normalize_confidence(confidence: Real32) -> (r: Real32)
    ensures
        r == normalized(confidence),
{
    let zero = Real32::from_bits(0);
    let one = Real32::from_bits(ONE_32);
    if !confidence.finite() || confidence.less(zero) {
        zero
    } else if one.less(confidence) {
        one
    } else {
        confidence
    }
}

/// The texts one after another, with a blank between any two.
pub open spec fn joined(regions: Seq<TextRegion>) -> Seq<char>
    decreases regions.len(),
{
    if regions.len() == 0 {
        Seq::empty()
    } else if regions.len() == 1 {
        regions[0].text@
    } else {
        joined(regions.drop_last()) + " "@ + regions.last().text@
    }
}

/// A word that was read, as it is reported.
pub open spec fn word_of(region: TextRegion) -> OcrWord {
    OcrWord { text: region.text, bbox: region.bbox, confidence: normalized(region.confidence) }
}

/// The words that were read, as they are reported.
pub open spec fn words_of(regions: Seq<TextRegion>) -> Seq<OcrWord> {
    Seq::new(regions.len(), |i: int| word_of(regions[i]))
}

/// What is reported of the texts that were read.
pub open spec fn is_ocr_result(
    result: OcrResult,
    regions: Seq<TextRegion>,
    confidence: Real32,
    region: Rect,
    lang_hint: Option<String>,
) -> bool {
    &&& result.full_text@ == joined(regions)
    &&& result.words@ == words_of(regions)
    &&& result.confidence == confidence
    &&& result.region == region
    &&& result.lang@ == lang_of(lang_hint)
}

/// Reports the texts that were read. `confidence` is the mean of their confidences.
pub fn ocr_result_from_text_regions(
    regions: Vec<TextRegion>,
    confidence: Real32,
    request: &ResolvedReadTextRequest,
) -> (r: OcrResult)
    ensures
        is_ocr_result(r, regions@, confidence, request.region, request.lang_hint),
{
    let ghost all = regions@;
    let mut full_text = String::new();
    let mut words: Vec<OcrWord> = Vec::new();
    assert(full_text@ =~= joined(all.subrange(0, 0)));
    for region in it: regions
        invariant
            it.seq() == all,
            full_text@ == joined(all.subrange(0, it.index() as int)),
            words@ == words_of(all.subrange(0, it.index() as int)),
    {
        proof {
            let i = it.index() as int;
            assert(all.subrange(0, i + 1).drop_last() =~= all.subrange(0, i));
            assert(all.subrange(0, i + 1).last() == all[i]);
            assert(words_of(all.subrange(0, i + 1)) =~= words_of(all.subrange(0, i)).push(
                word_of(all[i]),
            ));
        }
        if words.len() > 0 {
            full_text = cat3(full_text.as_str(), " ", region.text.as_str());
        } else {
            full_text = region.text.clone();
        }
        words.push(
            OcrWord {
                text: region.text,
                bbox: region.bbox,
                confidence: normalize_confidence(region.confidence),
            },
        );
    }
    assert(all.subrange(0, all.len() as int) =~= all);
    OcrResult { full_text, words, confidence, region: request.region, lang: request.lang() }
}

/// Where the words of a request come from.
#[derive(Debug)]
pub enum TextSource {
    /// The synthetic recogniser, which gives this word.
    Synthetic(TextRegion),
    /// The recogniser of the platform.
    Platform,
}

/// The bits of the confidence of the synthetic recogniser, 0.99.
pub const SYNTHETIC_CONFIDENCE: u32 = 0x3f7d_70a4;

/// The word that the synthetic recogniser reads in a region.
pub open spec fn is_synthetic_word(word: TextRegion, region: Rect) -> bool {
    &&& word.text@ == "Synapse"@
    &&& word.bbox == (Rect { x: clamp32(region.x + 4), y: clamp32(region.y + 4), w: 72, h: 18 })
    &&& word.confidence.bits == SYNTHETIC_CONFIDENCE
}

/// The word that the synthetic recogniser reads in a region.
pub fn synthetic_word(region: Rect) -> (r: TextRegion)
    ensures
        is_synthetic_word(r, region),
{
    TextRegion {
        text: "Synapse".to_owned(),
        bbox: Rect {
            x: saturating_add32(region.x, 4),
            y: saturating_add32(region.y, 4),
            w: 72,
            h: 18,
        },
        confidence: Real32::from_bits(SYNTHETIC_CONFIDENCE),
    }
}

/// Why a request without a recogniser is refused.
pub open spec fn unresolved_backend() -> ErrorView {
    ErrorView {
        code: OCR_BACKEND_UNAVAILABLE@,
        message:
            "internal OCR backend resolution left backend=auto after request validation"@,
    }
}

/// Why a request cannot be read, if it cannot.
pub open spec fn unreadable(request: ResolvedReadTextRequest) -> Option<ErrorView> {
    if request.synthetic {
        None
    } else {
        match request.effective_backend {
            OcrBackend::Winrt => None,
            OcrBackend::Crnn => Some(crnn_unavailable()),
            OcrBackend::Auto => Some(unresolved_backend()),
        }
    }
}

/// Decides where the words of a request come from.
pub fn text_source(request: &ResolvedReadTextRequest) -> (r: Result<TextSource, ToolError>)
    ensures
        match r {
            Ok(TextSource::Synthetic(word)) => request.synthetic && is_synthetic_word(
                word,
                request.region,
            ),
            Ok(TextSource::Platform) => !request.synthetic && request.effective_backend is Winrt,
            Err(e) => unreadable(*request) == Some(e@),
        },
{
    if request.synthetic {
        return Ok(TextSource::Synthetic(synthetic_word(request.region)));
    }
    match request.effective_backend {
        OcrBackend::Winrt => Ok(TextSource::Platform),
        OcrBackend::Crnn => Err(crnn_unavailable_error()),
        OcrBackend::Auto => Err(
            mcp_error(
                OCR_BACKEND_UNAVAILABLE,
                "internal OCR backend resolution left backend=auto after request validation".to_owned(),
            ),
        ),
    }
}

/// Answers a request. `words` is what its recogniser read, with the mean of the confidences.
pub fn read_text_request_uncached(
    request: &ResolvedReadTextRequest,
    words: Result<(Vec<TextRegion>, Real32), ToolError>,
) -> (r: Result<OcrResult, ToolError>)
    ensures
        if unreadable(*request) is Some {
            r matches Err(e) && unreadable(*request) == Some(e@)
        } else {
            match words {
                Err(e) => r == Err::<OcrResult, ToolError>(e),
                Ok(read) => r matches Ok(result) && is_ocr_result(
                    result,
                    read.0@,
                    read.1,
                    request.region,
                    request.lang_hint,
                ),
            }
        },
{
    if let Err(e) = text_source(request) {
        return Err(e);
    }
    match words {
        Ok((regions, confidence)) => Ok(
            ocr_result_from_text_regions(regions, confidence, request),
        ),
        Err(e) => Err(e),
    }
}

/// Answers a request whose region was captured as a bitmap. `words` is what its recogniser read in the
/// bitmap, with the mean of the confidences.
pub fn read_text_request_from_bgra(
    request: &ResolvedReadTextRequest,
    words: Result<(Vec<TextRegion>, Real32), ToolError>,
) -> (r: Result<OcrResult, ToolError>)
    ensures
        if unreadable(*request) is Some {
            r matches Err(e) && unreadable(*request) == Some(e@)
        } else {
            match words {
                Err(e) => r == Err::<OcrResult, ToolError>(e),
                Ok(read) => r matches Ok(result) && is_ocr_result(
                    result,
                    read.0@,
                    read.1,
                    request.region,
                    request.lang_hint,
                ),
            }
        },
{
    read_text_request_uncached(request, words)
}

/// Why a bitmap is too large, if it is.
pub open spec fn bitmap_error(width: u32, height: u32) -> Option<ErrorView> {
    if width > i32::MAX {
        Some(
            no_text("web element OCR bitmap width "@ + decimal(width as nat) + " exceeds i32"@),
        )
    } else if height > i32::MAX {
        Some(
            no_text("web element OCR bitmap height "@ + decimal(height as nat) + " exceeds i32"@),
        )
    } else {
        None
    }
}

/// The region of a bitmap: the whole of it.
pub fn web_bitmap_region(width: u32, height: u32) -> (r: Result<Rect, ToolError>)
    ensures
        match r {
            Ok(region) => {
                &&& bitmap_error(width, height) is None
                &&& region == (Rect { x: 0, y: 0, w: width as i32, h: height as i32 })
            },
            Err(e) => bitmap_error(width, height) == Some(e@),
        },
{
    if width > i32::MAX as u32 {
        let number = decimal_text(width as u64);
        return Err(
            mcp_error(
                OCR_NO_TEXT,
                cat3("web element OCR bitmap width ", number.as_str(), " exceeds i32"),
            ),
        );
    }
    if height > i32::MAX as u32 {
        let number = decimal_text(height as u64);
        return Err(
            mcp_error(
                OCR_NO_TEXT,
                cat3("web element OCR bitmap height ", number.as_str(), " exceeds i32"),
            ),
        );
    }
    Ok(Rect { x: 0, y: 0, w: width as i32, h: height as i32 })
}

/// Answers for the bitmap of a web element. `words` is what was read in it, with the mean of the
/// confidences.
pub fn ocr_result_from_web_bitmap(
    width: u32,
    height: u32,
    words: Result<(Vec<TextRegion>, Real32), ToolError>,
    lang_hint: Option<String>,
) -> (r: Result<OcrResult, ToolError>)
    ensures
        if bitmap_error(width, height) is Some {
            r matches Err(e) && bitmap_error(width, height) == Some(e@)
        } else {
            match words {
                Err(e) => r == Err::<OcrResult, ToolError>(e),
                Ok(read) => r matches Ok(result) && is_ocr_result(
                    result,
                    read.0@,
                    read.1,
                    (Rect { x: 0, y: 0, w: width as i32, h: height as i32 }),
                    lang_hint,
                ),
            }
        },
{
    let region: Rect = match web_bitmap_region(width, height) {
        Ok(region) => region,
        Err(e) => {
            return Err(e);
        },
    };
    let (regions, confidence) = match words {
        Ok(read) => read,
        Err(e) => {
            return Err(e);
        },
    };
    let request = ResolvedReadTextRequest {
        region,
        requested_backend: OcrBackend::Auto,
        effective_backend: OcrBackend::Winrt,
        lang_hint,
        synthetic: false,
    };
    Ok(ocr_result_from_text_regions(regions, confidence, &request))
}

// ---------------------------------------------------------------------------------------------
// Laws
// ---------------------------------------------------------------------------------------------

/// A reported confidence is a number between zero and one, and reporting it again changes nothing.
pub proof fn law_confidence_is_normalized(confidence: Real32)
    ensures
        normalized(confidence).is_finite(),
        0 <= normalized(confidence).rank() <= ONE_32,
        normalized(normalized(confidence)) == normalized(confidence),
{
}

/// A resolved request can be read: it has an area and a recogniser.
pub proof fn law_resolved_requests_are_readable<D>(
    state: M1State<D>,
    params: ReadTextParams,
    region: Result<Rect, ToolError>,
    r: Result<ResolvedReadTextRequest, ToolError>,
)
    requires
        is_resolved(state, params, region, r),
        r is Ok,
    ensures
        (r->Ok_0).region.has_area(),
        unreadable(r->Ok_0) is None,
{
}

/// Text is read where the caller says: in the region that is named, or else of the element that is
/// named, as it is found on the screen, or else of the element that has the focus. Without a region the
/// reading fails where the element is not found.
pub proof fn law_text_is_read_where_asked<D, N, C>(
    state: &M1State<D>,
    params: &ReadTextParams,
    bounds: Result<Rect, String>,
    read: Result<ObservationInput<N, C>, ToolError>,
    r: Result<Rect, ToolError>,
)
    requires
        call_ensures(text_region::<D, N, C>, (state, params, bounds, read), r),
    ensures
        params.region is Some ==> r == Ok::<Rect, ToolError>(params.region->Some_0),
        params.region is None && params.element_id is Some && !state.synthetic && bounds is Ok ==> r
            == Ok::<Rect, ToolError>(bounds->Ok_0),
        params.region is None && params.element_id is Some && !state.synthetic && bounds is Err
            ==> r is Err && (r->Err_0)@.code == OCR_NO_TEXT@ && (r->Err_0)@.message
            == "element_id has no live visible OCR region: "@ + bounds->Err_0@,
        params.region is None && (params.element_id is None || state.synthetic) && (
        state.force_observe_internal || state.force_no_perception || read is Err) ==> r is Err,
        params.region is None && params.element_id is None && !state.synthetic
            && !state.force_observe_internal && !state.force_no_perception && read is Ok ==> (match (
        read->Ok_0).focused {
            Some(focused) => r == Ok::<Rect, ToolError>(focused.bbox),
            None => r is Err && (r->Err_0)@.code == OCR_NO_TEXT@,
        }),
{
}

/// Of a fixture, the region of an element is that of the first node with its id among those two levels
/// deep, and none where no such node is there.
pub proof fn law_fixture_elements_are_read_where_they_are<D, N, C>(
    state: &M1State<D>,
    params: &ReadTextParams,
    bounds: Result<Rect, String>,
    read: ObservationInput<N, C>,
    r: Result<Rect, ToolError>,
)
    requires
        call_ensures(
            text_region::<D, N, C>,
            (state, params, bounds, Ok::<ObservationInput<N, C>, ToolError>(read)),
            r,
        ),
        params.region is None,
        params.element_id is Some,
        state.synthetic,
        !state.force_observe_internal,
        !state.force_no_perception,
    ensures
        ({
            let nodes = read.elements@.filter(|node: AccessibleNode| node.depth <= 2);
            &&& (r is Ok <==> exists|i: int|
                0 <= i < nodes.len() && (#[trigger] nodes[i]).element_id@
                    == params.element_id->Some_0@)
            &&& (r is Ok ==> exists|i: int|
                0 <= i < nodes.len() && (#[trigger] nodes[i]).element_id@
                    == params.element_id->Some_0@ && nodes[i].bbox == r->Ok_0)
            &&& (r is Err ==> (r->Err_0)@.code == OCR_NO_TEXT@)
        }),
{
    crate::m1::observation::lemma_depth_is_a_filter(read.elements@, 2);
    let nodes = read.elements@.filter(|node: AccessibleNode| node.depth <= 2);
    let id = params.element_id->Some_0@;
    let input = choose|input: ObservationInput<N, C>|
        #[trigger] is_current_input(input, read, *state) && is_element_region(input, id, r);
    assert(input.elements@ == nodes);
    if r is Ok {
        let at = choose|at: int| #[trigger]
            is_first_with_id(nodes, id, at) && nodes[at].bbox == r->Ok_0;
        assert(nodes[at].element_id@ == id);
    }
}

/// A request is made for the region that was found, by the recogniser of the platform, in the language
/// that was asked for; it is refused where no region was found, where the region is empty, and where
/// the other recogniser is asked for.
pub proof fn law_requests_are_as_asked<D, N, C>(
    state: &M1State<D>,
    params: &ReadTextParams,
    bounds: Result<Rect, String>,
    read: Result<ObservationInput<N, C>, ToolError>,
    r: Result<ResolvedReadTextRequest, ToolError>,
)
    requires
        call_ensures(resolve_read_text_request::<D, N, C>, (state, params, bounds, read), r),
    ensures
        r is Ok ==> {
            &&& (r->Ok_0).requested_backend == params.backend
            &&& (r->Ok_0).effective_backend is Winrt
            &&& (r->Ok_0).lang_hint == params.lang_hint
            &&& (r->Ok_0).synthetic == state.synthetic
            &&& (r->Ok_0).region.w > 0 && (r->Ok_0).region.h > 0
            &&& params.backend !is Crnn
        },
        params.region is Some ==> (r is Ok <==> params.region->Some_0.w > 0
            && params.region->Some_0.h > 0 && params.backend !is Crnn),
        params.region is Some && r is Ok ==> (r->Ok_0).region == params.region->Some_0,
        params.region is Some && (params.region->Some_0.w <= 0 || params.region->Some_0.h <= 0) ==> (
        r->Err_0)@.code == OCR_NO_TEXT@,
        params.region is Some && params.region->Some_0.w > 0 && params.region->Some_0.h > 0
            && params.backend is Crnn ==> (r->Err_0)@.code == OCR_BACKEND_UNAVAILABLE@,
        params.region is None && params.element_id is Some && !state.synthetic && bounds is Ok
            && bounds->Ok_0.w > 0 && bounds->Ok_0.h > 0 && params.backend !is Crnn ==> r is Ok && (
        r->Ok_0).region == bounds->Ok_0,
        params.region is None && params.element_id is Some && !state.synthetic && bounds is Err
            ==> r is Err,
{
    let region = choose|region: Result<Rect, ToolError>|
        #[trigger] is_text_region(*state, *params, bounds, read, region) && is_resolved(
            *state,
            *params,
            region,
            r,
        );
    assert(is_resolved(*state, *params, region, r));
}

/// A region can be read exactly if it has an area.
pub proof fn law_regions_with_an_area_are_read(region: Rect, r: Result<(), ToolError>)
    requires
        call_ensures(validate_ocr_region, (region,), r),
    ensures
        r is Ok <==> region.w > 0 && region.h > 0,
        r is Err ==> (r->Err_0)@.code == OCR_NO_TEXT@,
{
}

/// A confidence between zero and one is reported as it is, one that is above as one, and anything else
/// as zero.
pub proof fn law_confidence_is_cut_off(confidence: Real32, r: Real32)
    requires
        call_ensures(normalize_confidence, (confidence,), r),
    ensures
        confidence.bits <= 0x3f80_0000 ==> r == confidence,
        0x3f80_0000 < confidence.bits < 0x7f80_0000 ==> r.bits == 0x3f80_0000,
        0x7f80_0000 <= confidence.bits <= 0x7fff_ffff ==> r.bits == 0,
        0x8000_0000 < confidence.bits ==> r.bits == 0,
{
}

/// The text of a result is the words in order, with a space between any two.
proof fn lemma_joined_by_spaces(regions: Seq<TextRegion>)
    ensures
        joined(regions) == crate::text::joined_with(
            regions.map_values(|region: TextRegion| region.text@),
            seq![' '],
        ),
    decreases regions.len(),
{
    reveal_strlit(" ");
    assert(" "@ =~= seq![' ']);
    let texts = regions.map_values(|region: TextRegion| region.text@);
    if regions.len() > 1 {
        lemma_joined_by_spaces(regions.drop_last());
        assert(regions.drop_last().map_values(|region: TextRegion| region.text@)
            =~= texts.drop_last());
    }
}

/// A result has a word for every region that was read, with its text, its place and its confidence;
/// its text is the words in order with a space between any two; and its region, overall confidence and
/// language are those that came with the request.
pub proof fn law_results_tell_what_was_read(
    regions: Vec<TextRegion>,
    confidence: Real32,
    request: &ResolvedReadTextRequest,
    r: OcrResult,
    i: int,
)
    requires
        call_ensures(ocr_result_from_text_regions, (regions, confidence, request), r),
    ensures
        r.words@.len() == regions@.len(),
        0 <= i < regions@.len() ==> r.words@[i].text == regions@[i].text && r.words@[i].bbox
            == regions@[i].bbox,
        0 <= i < regions@.len() && regions@[i].confidence.bits <= 0x3f80_0000
            ==> r.words@[i].confidence == regions@[i].confidence,
        0 <= i < regions@.len() && 0x3f80_0000 < regions@[i].confidence.bits < 0x7f80_0000
            ==> r.words@[i].confidence.bits == 0x3f80_0000,
        r.full_text@ == crate::text::joined_with(
            regions@.map_values(|region: TextRegion| region.text@),
            seq![' '],
        ),
        r.confidence == confidence,
        r.region == request.region,
        request.lang_hint is Some && trimmed(request.lang_hint->Some_0@).len() > 0 ==> r.lang@
            == trimmed(request.lang_hint->Some_0@),
        (request.lang_hint is None || trimmed(request.lang_hint->Some_0@).len() == 0) ==> r.lang@
            == "und"@,
{
    lemma_joined_by_spaces(regions@);
    if 0 <= i < regions@.len() {
        assert(r.words@[i] == word_of(regions@[i]));
    }
}

/// The synthetic recogniser reads one word at the region's upper left corner; the platform's is asked
/// where it is the one in effect, and no other is.
pub proof fn law_sources_are_those_in_effect(
    request: &ResolvedReadTextRequest,
    r: Result<TextSource, ToolError>,
)
    requires
        call_ensures(text_source, (request,), r),
    ensures
        request.synthetic <==> r matches Ok(TextSource::Synthetic(_)),
        r matches Ok(TextSource::Platform) <==> !request.synthetic && request.effective_backend
            is Winrt,
        r is Err <==> !request.synthetic && request.effective_backend !is Winrt,
        r is Err ==> (r->Err_0)@.code == OCR_BACKEND_UNAVAILABLE@,
        r matches Ok(TextSource::Synthetic(word)) ==> word.text@ == "Synapse"@ && word.bbox.w == 72
            && word.bbox.h == 18,
        (r matches Ok(TextSource::Synthetic(word)) && request.region.x + 4 <= i32::MAX
            && request.region.y + 4 <= i32::MAX) ==> ((r->Ok_0)->Synthetic_0).bbox.x
            == request.region.x + 4 && ((r->Ok_0)->Synthetic_0).bbox.y == request.region.y + 4,
{
}

/// What was read is told, and a failure to read is passed on; a request that no recogniser can serve
/// fails whatever was read.
pub proof fn law_readings_are_passed_on(
    request: &ResolvedReadTextRequest,
    words: Result<(Vec<TextRegion>, Real32), ToolError>,
    r: Result<OcrResult, ToolError>,
)
    requires
        call_ensures(read_text_request_uncached, (request, words), r) || call_ensures(
            read_text_request_from_bgra,
            (request, words),
            r,
        ),
    ensures
        r is Ok <==> (request.synthetic || request.effective_backend is Winrt) && words is Ok,
        !request.synthetic && request.effective_backend !is Winrt ==> (r->Err_0)@.code
            == OCR_BACKEND_UNAVAILABLE@,
        (request.synthetic || request.effective_backend is Winrt) && words is Err ==> r->Err_0
            == words->Err_0,
        r is Ok ==> {
            &&& (r->Ok_0).words@.len() == (words->Ok_0).0@.len()
            &&& (r->Ok_0).confidence == (words->Ok_0).1
            &&& (r->Ok_0).region == request.region
            &&& (r->Ok_0).full_text@ == crate::text::joined_with(
                (words->Ok_0).0@.map_values(|region: TextRegion| region.text@),
                seq![' '],
            )
            &&& forall|i: int|
                0 <= i < (r->Ok_0).words@.len() ==> (#[trigger] (r->Ok_0).words@[i]).text == (
                words->Ok_0).0@[i].text && (r->Ok_0).words@[i].bbox == (words->Ok_0).0@[i].bbox
        },
{
    if words is Ok {
        lemma_joined_by_spaces((words->Ok_0).0@);
    }
}

/// The bitmap of a page's element is read as a whole; it is refused where a side is longer than a
/// coordinate can tell.
pub proof fn law_bitmaps_are_read_whole(
    width: u32,
    height: u32,
    words: Result<(Vec<TextRegion>, Real32), ToolError>,
    lang_hint: Option<String>,
    region: Result<Rect, ToolError>,
    r: Result<OcrResult, ToolError>,
)
    requires
        call_ensures(web_bitmap_region, (width, height), region),
        call_ensures(ocr_result_from_web_bitmap, (width, height, words, lang_hint), r),
    ensures
        region is Ok <==> width <= 0x7fff_ffff && height <= 0x7fff_ffff,
        region matches Ok(rect) ==> rect.x == 0 && rect.y == 0 && rect.w == width && rect.h
            == height,
        region is Err ==> (region->Err_0)@.code == OCR_NO_TEXT@,
        r is Ok <==> region is Ok && words is Ok,
        region is Ok && words is Err ==> r->Err_0 == words->Err_0,
        region is Err ==> (r->Err_0)@ == (region->Err_0)@,
        r is Ok ==> (r->Ok_0).region == region->Ok_0 && (r->Ok_0).confidence == (words->Ok_0).1 && (
        r->Ok_0).words@.len() == (words->Ok_0).0@.len(),
        r is Ok && lang_hint is Some && trimmed(lang_hint->Some_0@).len() > 0 ==> (r->Ok_0).lang@
            == trimmed(lang_hint->Some_0@),
{
}

/// The recogniser in effect is that of the platform, unless the other is asked for, which is refused; and
/// the synthetic one reads its word at the upper left of the region.
pub proof fn law_recognisers_are_those_at_hand(
    backend: OcrBackend,
    region: Rect,
    r: Result<OcrBackend, ToolError>,
    word: TextRegion,
)
    requires
        call_ensures(effective_ocr_backend, (backend,), r),
        call_ensures(synthetic_word, (region,), word),
    ensures
        r is Ok <==> backend !is Crnn,
        r is Ok ==> r->Ok_0 is Winrt,
        r is Err ==> (r->Err_0)@.code == OCR_BACKEND_UNAVAILABLE@,
        word.text@ == "Synapse"@,
        word.bbox.w == 72 && word.bbox.h == 18,
        region.x + 4 <= i32::MAX ==> word.bbox.x == region.x + 4,
        region.y + 4 <= i32::MAX ==> word.bbox.y == region.y + 4,
{
}

} // verus!
