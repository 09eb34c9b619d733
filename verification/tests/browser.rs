use synapse_mcp::geometry::Rect;
use synapse_mcp::ieee::Real32;
use synapse_mcp::m1::browser::{
    apply_browser_ocr_words, browser_content_region, browser_ocr_element_id, browser_ocr_tiles,
    cdp_request, enrich_input_with_cdp, has_chromium_renderer_uia_content,
    should_attempt_browser_ocr, BrowserOcrRun, BrowserOcrSkip, CdpFailure, TextRegion,
    BROWSER_OCR_TILE_HEIGHT_PX, OCR_RUNTIME_PREFIX,
};
use synapse_mcp::m1::observation::{
    AccessibleNode, CdpDiagnostics, CdpStatus, ElementId, ForegroundContext, ObservationInput,
    SensorStatus, UiaPattern, WebPerceptionPath,
};

const A11Y_CDP_UNREACHABLE: &str = "A11Y_CDP_UNREACHABLE";

fn diagnostics(status: CdpStatus, endpoint: Option<&str>) -> CdpDiagnostics<&'static str> {
    CdpDiagnostics {
        process_name: "chrome.exe".to_owned(),
        status,
        endpoint: endpoint.map(str::to_owned),
        reason_code: None,
        detail: None,
        attached_node_count: None,
        capabilities: Vec::new(),
    }
}

fn unreachable_diagnostics() -> CdpDiagnostics<&'static str> {
    CdpDiagnostics {
        reason_code: Some(A11Y_CDP_UNREACHABLE.to_owned()),
        ..diagnostics(CdpStatus::Unreachable, None)
    }
}

fn chromium_ocr_input() -> ObservationInput<u8, &'static str> {
    let mut input = ObservationInput::new(ForegroundContext {
        hwnd: 0x2200,
        pid: 7777,
        process_name: "chrome.exe".to_owned(),
        process_path: "C:\\Program Files\\Google\\Chrome\\Application\\chrome.exe".to_owned(),
        window_title: "Example - Google Chrome".to_owned(),
        window_bounds: Rect { x: 0, y: 0, w: 1280, h: 900 },
    });
    input.capture_status = SensorStatus::Healthy;
    input.cdp = Some(unreachable_diagnostics());
    input.web_path = Some(WebPerceptionPath::UiaOnly);
    input
}

fn region(text: &str, bbox: Rect, confidence: f32) -> TextRegion {
    TextRegion {
        text: text.to_owned(),
        bbox,
        confidence: Real32::from_bits(confidence.to_bits()),
    }
}

fn button(bbox: Rect) -> AccessibleNode {
    AccessibleNode {
        element_id: ElementId { hwnd: 0x2200, runtime_id_hex: "0000002a00000042".to_owned() },
        parent: None,
        name: "Force Renderer Complete Button".to_owned(),
        role: "button".to_owned(),
        automation_id: Some("probe-button".to_owned()),
        value: None,
        bbox,
        enabled: true,
        focused: false,
        patterns: vec![UiaPattern::Invoke],
        children_count: 0,
        depth: 2,
    }
}

#[test]
fn browser_ocr_words_upgrade_uia_only_to_queryable_ocr_nodes() {
    let mut input = chromium_ocr_input();
    let added = apply_browser_ocr_words(
        &mut input,
        vec![
            region(" Checkout ", Rect { x: 120, y: 180, w: 92, h: 24 }, 0.95),
            region("now", Rect { x: 218, y: 180, w: 44, h: 24 }, 0.93),
        ],
        8,
    );

    assert_eq!(added, 2);
    assert_eq!(input.web_path, Some(WebPerceptionPath::Ocr));
    assert_eq!(input.elements[0].name, "Checkout");
    assert_eq!(input.elements[0].role, "text");
    assert_eq!(input.elements[0].automation_id.as_deref(), Some("ocr:word:0"));
    assert!(input.elements[0].element_id.runtime_id_hex.starts_with(OCR_RUNTIME_PREFIX));
}

#[test]
fn browser_ocr_words_keep_uia_only_when_ocr_has_no_usable_text() {
    let mut input = chromium_ocr_input();

    let added = apply_browser_ocr_words(
        &mut input,
        vec![
            region("   ", Rect { x: 1, y: 2, w: 30, h: 12 }, 0.5),
            region("Hidden", Rect { x: 1, y: 2, w: 0, h: 12 }, 0.5),
        ],
        8,
    );

    assert_eq!(added, 0);
    assert_eq!(input.web_path, Some(WebPerceptionPath::UiaOnly));
    assert!(input.elements.is_empty());
}

#[test]
fn browser_ocr_guard_only_allows_cdp_failures_on_uia_only_path() {
    let mut input = chromium_ocr_input();
    assert!(should_attempt_browser_ocr(&input, true));

    input.cdp = Some(diagnostics(CdpStatus::Reachable, Some("http://127.0.0.1:9222")));
    assert!(!should_attempt_browser_ocr(&input, true));

    input.cdp = Some(unreachable_diagnostics());
    input.web_path = Some(WebPerceptionPath::Cdp);
    assert!(!should_attempt_browser_ocr(&input, true));
}

#[test]
fn browser_ocr_skips_when_renderer_uia_content_is_present() {
    let mut input = chromium_ocr_input();
    input.elements.push(button(Rect { x: 40, y: 180, w: 320, h: 34 }));

    assert!(has_chromium_renderer_uia_content(&input, true));
    assert!(!should_attempt_browser_ocr(&input, true));
}

#[test]
fn browser_content_tiles_skip_chrome_band_and_bound_tile_count() {
    let content = browser_content_region(Rect { x: 10, y: 20, w: 1200, h: 1600 })
        .expect("large browser window has content region");
    let tiles = browser_ocr_tiles(content);

    assert_eq!(content.y, 116);
    assert_eq!(content.h, 1504);
    assert_eq!(tiles.len(), 3);
    assert_eq!(tiles[0].h, BROWSER_OCR_TILE_HEIGHT_PX);
    assert_eq!(tiles[2].h, 304);
    assert!(browser_content_region(Rect { x: 0, y: 0, w: 10, h: 0 }).is_none());
}

#[test]
fn tiles_end_at_eight_and_at_the_coordinates() {
    let long = browser_ocr_tiles(Rect { x: 3, y: -100, w: 7, h: 10_000 });
    assert_eq!(long.len(), 8);
    for (index, tile) in long.iter().enumerate() {
        assert_eq!(tile.x, 3);
        assert_eq!(tile.w, 7);
        assert_eq!(tile.y, -100 + 600 * index as i32);
        assert_eq!(tile.h, 600);
    }
    assert_eq!(
        browser_ocr_tiles(Rect { x: 0, y: i32::MAX - 5, w: 1, h: 100 }),
        vec![Rect { x: 0, y: i32::MAX - 5, w: 1, h: 5 }]
    );
    assert!(browser_ocr_tiles(Rect { x: 0, y: i32::MAX, w: 1, h: 100 }).is_empty());
    assert!(browser_ocr_tiles(Rect { x: 0, y: 0, w: 0, h: 100 }).is_empty());
    assert_eq!(
        browser_content_region(Rect { x: 0, y: 0, w: 5, h: 240 }),
        Some(Rect { x: 0, y: 0, w: 5, h: 240 })
    );
    assert_eq!(
        browser_content_region(Rect { x: 0, y: 0, w: 5, h: 270 }),
        Some(Rect { x: 0, y: 90, w: 5, h: 180 })
    );
}

#[test]
fn content_must_lie_in_the_page_and_be_something() {
    let seen = |change: fn(&mut AccessibleNode)| {
        let mut input = chromium_ocr_input();
        let mut node = button(Rect { x: 40, y: 180, w: 320, h: 34 });
        change(&mut node);
        input.elements.push(node);
        has_chromium_renderer_uia_content(&input, true)
    };
    assert!(seen(|_| {}));
    assert!(!seen(|node| node.automation_id = Some("ocr:word:3".to_owned())));
    assert!(!seen(|node| node.bbox.w = 0));
    assert!(!seen(|node| node.bbox.y = -500));
    assert!(!seen(|node| node.bbox = Rect { x: 0, y: 0, w: 100, h: 96 }));
    assert!(seen(|node| node.bbox = Rect { x: 0, y: 0, w: 100, h: 97 }));
    assert!(!seen(|node| node.role = "pane".to_owned()));
    assert!(seen(|node| node.role = "HyperLink".to_owned()));
    assert!(!seen(|node| {
        node.name = "  ".to_owned();
        node.patterns.clear();
    }));
    assert!(seen(|node| {
        node.name = String::new();
        node.patterns.clear();
        node.value = Some("x".to_owned());
    }));
    assert!(seen(|node| {
        node.name = String::new();
        node.patterns.clear();
        node.role = "Document".to_owned();
    }));
    let mut other = chromium_ocr_input();
    other.elements.push(button(Rect { x: 40, y: 180, w: 320, h: 34 }));
    assert!(!has_chromium_renderer_uia_content(&other, false));
}

#[test]
fn word_ids_are_padded_hexadecimal() {
    let id = browser_ocr_element_id(-1, 0x2a);
    assert_eq!(id.runtime_id_hex, "0c0c00000000002a");
    assert_eq!(id.to_text(), "0xffffffffffffffff:0c0c00000000002a");
}

#[test]
fn debug_port_nodes_join_the_elements() {
    let mut input = chromium_ocr_input();
    assert_eq!(cdp_request(&input, 7), None);
    input.cdp = Some(CdpDiagnostics {
        capabilities: vec!["dom"],
        ..diagnostics(CdpStatus::Reachable, Some("http://127.0.0.1:9222"))
    });
    input.entities = vec![5];
    let request = cdp_request(&input, 7).expect("reachable");
    assert_eq!(request.endpoint, "http://127.0.0.1:9222");
    assert_eq!(request.hwnd, 0x2200);
    assert_eq!(request.title, "Example - Google Chrome");
    assert_eq!(request.max_nodes, 7);

    let mut deep = button(Rect { x: 1, y: 1, w: 1, h: 1 });
    deep.depth = 9;
    let shallow = button(Rect { x: 1, y: 1, w: 1, h: 1 });
    enrich_input_with_cdp(&mut input, 3, Ok(vec![deep, shallow]));
    assert_eq!(input.elements.len(), 2);
    assert_eq!(input.elements[0].depth, 3);
    assert_eq!(input.elements[1].depth, 2);
    assert_eq!(input.web_path, Some(WebPerceptionPath::Cdp));
    assert_eq!(input.entities, [5]);
    let cdp = input.cdp.expect("cdp");
    assert_eq!(cdp.attached_node_count, Some(2));
    assert_eq!(cdp.capabilities, ["dom"]);
}

#[test]
fn debug_port_failures_are_noted() {
    let mut input = chromium_ocr_input();
    input.cdp = Some(diagnostics(CdpStatus::Reachable, Some("http://127.0.0.1:9222")));
    let failure = || CdpFailure { code: "A11Y_CDP_ATTACH".to_owned(), detail: "closed".to_owned() };
    enrich_input_with_cdp(&mut input, 3, Err(failure()));
    let cdp = input.cdp.as_ref().expect("cdp");
    assert_eq!(cdp.status, CdpStatus::AttachFailed);
    assert_eq!(cdp.reason_code.as_deref(), Some("A11Y_CDP_ATTACH"));
    assert_eq!(cdp.detail.as_deref(), Some("closed"));
    assert_eq!(input.web_path, Some(WebPerceptionPath::UiaOnly));
    assert!(should_attempt_browser_ocr(&input, true));

    let mut untouched = chromium_ocr_input();
    enrich_input_with_cdp(&mut untouched, 3, Err(failure()));
    assert_eq!(untouched, chromium_ocr_input());
}

#[test]
fn pages_are_read_tile_by_tile_until_there_are_words_enough() {
    let mut input = chromium_ocr_input();
    let mut run = BrowserOcrRun::begin(&input, true, 2).expect("wanted");
    assert_eq!(run.region, Rect { x: 0, y: 96, w: 1280, h: 804 });
    assert_eq!(run.next_tile(), Some(Rect { x: 0, y: 96, w: 1280, h: 600 }));
    run.absorb(None);
    assert_eq!(run.failed_tiles, 1);
    assert_eq!(run.next_tile(), Some(Rect { x: 0, y: 696, w: 1280, h: 204 }));
    let bbox = Rect { x: 1, y: 1, w: 1, h: 1 };
    run.absorb(Some(vec![
        region("a", bbox, 1.0),
        region("b", bbox, 1.0),
        region("c", bbox, 1.0),
    ]));
    assert_eq!(run.next_tile(), None);
    assert_eq!(run.attempted_tiles, 2);
    assert_eq!(run.enrich_input_with_browser_ocr(&mut input), 2);
    assert_eq!(input.elements.len(), 2);
    assert_eq!(input.elements[1].automation_id.as_deref(), Some("ocr:word:1"));

    let mut early = BrowserOcrRun::begin(&chromium_ocr_input(), true, 1).expect("wanted");
    early.absorb(Some(vec![region("a", bbox, 1.0)]));
    assert_eq!(early.next_tile(), None);
}

#[test]
fn pages_are_not_read_where_there_is_no_need_or_no_way() {
    let skip = |input: &ObservationInput<u8, &'static str>, max_nodes: usize| {
        BrowserOcrRun::begin(input, true, max_nodes).err()
    };
    assert_eq!(skip(&chromium_ocr_input(), 0), Some(BrowserOcrSkip::NotWanted));
    let mut blind = chromium_ocr_input();
    blind.capture_status = SensorStatus::Unavailable;
    assert_eq!(skip(&blind, 4), Some(BrowserOcrSkip::CaptureUnavailable));
    let mut slow = chromium_ocr_input();
    slow.capture_status = SensorStatus::DegradedLatency;
    assert_eq!(skip(&slow, 4), None);
    let mut small = chromium_ocr_input();
    small.foreground.window_bounds.h = 0;
    assert_eq!(skip(&small, 4), Some(BrowserOcrSkip::EmptyRegion));
    let mut read = chromium_ocr_input();
    read.web_path = Some(WebPerceptionPath::Ocr);
    assert_eq!(skip(&read, 4), Some(BrowserOcrSkip::NotWanted));
}
