//! What the perception tools see of the screen.

use vstd::prelude::*;

use crate::geometry::Rect;
use crate::m1::capture::{CaptureRuntimeReadback, ObservationCaptureConfig};
use crate::numerals::{hex_text, hexadecimal};
use crate::text::{cat4, clone_optional, text_equal};

verus! {

/// The identity of an element: its window, and its id within the window.
#[derive(Debug, PartialEq, Eq)]
pub struct ElementId {
    pub hwnd: i64,
    pub runtime_id_hex: String,
}

/// An element's identity with its text as a sequence of characters.
#[verifier::ext_equal]
pub struct ElementIdView {
    pub hwnd: i64,
    pub runtime_id_hex: Seq<char>,
}

impl View for ElementId {
    type V = ElementIdView;

    open spec fn view(&self) -> ElementIdView {
        ElementIdView { hwnd: self.hwnd, runtime_id_hex: self.runtime_id_hex@ }
    }
}

impl Clone for ElementId {
    fn clone(&self) -> (r: Self)
        ensures
            r == *self,
    {
        ElementId { hwnd: self.hwnd, runtime_id_hex: self.runtime_id_hex.clone() }
    }
}

/// The bits of a window handle as an unsigned number.
pub open spec fn handle_bits(hwnd: i64) -> nat {
    if hwnd >= 0 {
        hwnd as nat
    } else {
        (hwnd + 0x1_0000_0000_0000_0000) as nat
    }
}

/// Prints a window handle in hexadecimal form.
pub fn handle_hex(hwnd: i64) -> (r: String)
    ensures
        r@ == hexadecimal(handle_bits(hwnd)),
{
    let bits: u64 = if hwnd >= 0 {
        hwnd as u64
    } else {
        (hwnd as i128 + 0x1_0000_0000_0000_0000) as u64
    };
    hex_text(bits)
}

impl ElementId {
    /// The identity as text: the window in hexadecimal form, a colon, the id within the window.
    pub open spec fn text(self) -> Seq<char> {
        "0x"@ + hexadecimal(handle_bits(self.hwnd)) + ":"@ + self.runtime_id_hex@
    }

    /// The identity as text.
    pub fn to_text(&self) -> (r: String)
        ensures
            r@ == self.text(),
    {
        let digits = handle_hex(self.hwnd);
        cat4("0x", digits.as_str(), ":", self.runtime_id_hex.as_str())
    }
}

/// Compares two identities.
pub fn element_ids_equal(a: &ElementId, b: &ElementId) -> (r: bool)
    ensures
        r == (a@ == b@),
{
    a.hwnd == b.hwnd && text_equal(a.runtime_id_hex.as_str(), b.runtime_id_hex.as_str())
}

/// An interaction that an element offers.
#[derive(Clone, Copy, Debug, PartialEq, Eq, Structural)]
pub enum UiaPattern {
    Invoke,
    Other,
}

/// One node of the accessibility tree.
#[derive(Debug, PartialEq, Eq)]
pub struct AccessibleNode {
    pub element_id: ElementId,
    pub parent: Option<ElementId>,
    pub name: String,
    pub role: String,
    pub automation_id: Option<String>,
    pub value: Option<String>,
    pub bbox: Rect,
    pub enabled: bool,
    pub focused: bool,
    pub patterns: Vec<UiaPattern>,
    pub children_count: u32,
    pub depth: u32,
}

/// The element with the keyboard focus.
#[derive(Debug, PartialEq, Eq)]
pub struct FocusedElement {
    pub element_id: ElementId,
    pub name: String,
    pub role: String,
    pub automation_id: Option<String>,
    pub bbox: Rect,
    pub enabled: bool,
    pub patterns: Vec<UiaPattern>,
    pub value: Option<String>,
    pub selected_text: Option<String>,
}

/// The window in the foreground.
#[derive(Debug, PartialEq, Eq)]
pub struct ForegroundContext {
    pub hwnd: i64,
    pub pid: u32,
    pub process_name: String,
    pub process_path: String,
    pub window_title: String,
    pub window_bounds: Rect,
}

/// How the screen is perceived.
#[derive(Clone, Copy, Debug, PartialEq, Eq, Structural)]
pub enum PerceptionMode {
    Auto,
    A11yOnly,
    PixelOnly,
    Hybrid,
}

/// How screen capture is doing.
#[derive(Clone, Copy, Debug, PartialEq, Eq, Structural)]
pub enum SensorStatus {
    Healthy,
    DegradedLatency,
    Unavailable,
}

/// Whether a browser's debug port answers.
#[derive(Clone, Copy, Debug, PartialEq, Eq, Structural)]
pub enum CdpStatus {
    Reachable,
    Unreachable,
    AttachFailed,
    NotApplicable,
}

/// What is known of a browser's debug port. Its capabilities are carried along as `C`s.
#[derive(Debug, PartialEq, Eq)]
pub struct CdpDiagnostics<C> {
    pub process_name: String,
    pub status: CdpStatus,
    pub endpoint: Option<String>,
    pub reason_code: Option<String>,
    pub detail: Option<String>,
    pub attached_node_count: Option<u32>,
    pub capabilities: Vec<C>,
}

/// Where the content of a web page comes from.
#[derive(Clone, Copy, Debug, PartialEq, Eq, Structural)]
pub enum WebPerceptionPath {
    UiaOnly,
    Cdp,
    Ocr,
}

/// A copy of a list of patterns.
pub fn copy_patterns(patterns: &Vec<UiaPattern>) -> (r: Vec<UiaPattern>)
    ensures
        r@ == patterns@,
{
    let mut out: Vec<UiaPattern> = Vec::new();
    let mut i: usize = 0;
    while i < patterns.len()
        invariant
            i <= patterns@.len(),
            out@ == patterns@.subrange(0, i as int),
        decreases patterns@.len() - i,
    {
        proof {
            assert(patterns@.subrange(0, i as int).push(patterns@[i as int])
                =~= patterns@.subrange(0, i + 1));
        }
        out.push(patterns[i]);
        i += 1;
    }
    assert(patterns@.subrange(0, patterns@.len() as int) =~= patterns@);
    out
}

/// The focused element is the given node.
pub open spec fn focuses(f: FocusedElement, node: AccessibleNode) -> bool {
    &&& f.element_id == node.element_id
    &&& f.name == node.name
    &&& f.role == node.role
    &&& f.automation_id == node.automation_id
    &&& f.bbox == node.bbox
    &&& f.enabled == node.enabled
    &&& f.patterns@ == node.patterns@
    &&& f.value == node.value
    &&& f.selected_text is None
}

/// A node as the focused element.
pub fn focused_from_accessible_node(node: &AccessibleNode) -> (r: FocusedElement)
    ensures
        focuses(r, *node),
{
    FocusedElement {
        element_id: node.element_id.clone(),
        name: node.name.clone(),
        role: node.role.clone(),
        automation_id: clone_optional(&node.automation_id),
        bbox: node.bbox,
        enabled: node.enabled,
        patterns: copy_patterns(&node.patterns),
        value: clone_optional(&node.value),
        selected_text: None,
    }
}

/// What one look at the screen gathered. The detected entities are carried along as `N`s.
#[derive(Debug, PartialEq, Eq)]
pub struct ObservationInput<N, C> {
    pub foreground: ForegroundContext,
    pub elements: Vec<AccessibleNode>,
    pub focused: Option<FocusedElement>,
    pub entities: Vec<N>,
    pub mode_override: Option<PerceptionMode>,
    pub capture_config: Option<ObservationCaptureConfig>,
    pub capture_runtime: Option<CaptureRuntimeReadback>,
    pub capture_status: SensorStatus,
    pub cdp: Option<CdpDiagnostics<C>>,
    pub web_path: Option<WebPerceptionPath>,
}

impl<N, C> ObservationInput<N, C> {
    /// An input of which only the foreground is known.
    pub fn new(foreground: ForegroundContext) -> (r: ObservationInput<N, C>)
        ensures
            r.foreground == foreground,
            r.elements@.len() == 0,
            r.focused is None,
            r.entities@.len() == 0,
            r.mode_override is None,
            r.capture_config is None,
            r.capture_runtime is None,
            r.capture_status is Unavailable,
            r.cdp is None,
            r.web_path is None,
    {
        ObservationInput {
            foreground,
            elements: Vec::new(),
            focused: None,
            entities: Vec::new(),
            mode_override: None,
            capture_config: None,
            capture_runtime: None,
            capture_status: SensorStatus::Unavailable,
            cdp: None,
            web_path: None,
        }
    }
}

/// The nodes down to a depth, in order.
pub open spec fn nodes_to_depth(nodes: Seq<AccessibleNode>, depth: u32) -> Seq<AccessibleNode>
    decreases nodes.len(),
{
    if nodes.len() == 0 {
        Seq::empty()
    } else if nodes.last().depth <= depth {
        nodes_to_depth(nodes.drop_last(), depth).push(nodes.last())
    } else {
        nodes_to_depth(nodes.drop_last(), depth)
    }
}

/// Whether a node of the list is the given element.
pub open spec fn holds_element(nodes: Seq<AccessibleNode>, id: ElementIdView) -> bool {
    exists|i: int| 0 <= i < nodes.len() && (#[trigger] nodes[i]).element_id@ == id
}

/// The focus of a limited input: the element that had it where it is still there, otherwise the
/// first element, where there is one.
pub open spec fn limited_focus(
    before: Option<FocusedElement>,
    nodes: Seq<AccessibleNode>,
    after: Option<FocusedElement>,
) -> bool {
    if before is Some && holds_element(nodes, before->Some_0.element_id@) {
        after == before
    } else if nodes.len() > 0 {
        after is Some && focuses(after->Some_0, nodes[0])
    } else {
        after is None
    }
}

/// Finds the position of an element.
pub fn find_element(nodes: &Vec<AccessibleNode>, id: &ElementId) -> (r: Option<usize>)
    ensures
        match r {
            Some(i) => i < nodes@.len() && nodes@[i as int].element_id@ == id@ && forall|j: int|
                0 <= j < i ==> (#[trigger] nodes@[j]).element_id@ != id@,
            None => !holds_element(nodes@, id@),
        },
{
    let mut i: usize = 0;
    while i < nodes.len()
        invariant
            i <= nodes@.len(),
            forall|j: int| 0 <= j < i ==> (#[trigger] nodes@[j]).element_id@ != id@,
        decreases nodes@.len() - i,
    {
        if element_ids_equal(&nodes[i].element_id, id) {
            return Some(i);
        }
        i += 1;
    }
    None
}

/// Limits an input to the elements down to a depth.
pub fn input_limited_to_depth<N, C>(input: ObservationInput<N, C>, depth: u32) -> (r:
    ObservationInput<N, C>)
    ensures
        r.elements@ == nodes_to_depth(input.elements@, depth),
        limited_focus(input.focused, r.elements@, r.focused),
        r.entities == input.entities,
        r.foreground == input.foreground,
        r.mode_override == input.mode_override,
        r.capture_config == input.capture_config,
        r.capture_runtime == input.capture_runtime,
        r.capture_status == input.capture_status,
        r.cdp == input.cdp,
        r.web_path == input.web_path,
{
    let mut input = input;
    let ghost all = input.elements@;
    let mut nodes: Vec<AccessibleNode> = Vec::new();
    let mut kept: Vec<AccessibleNode> = Vec::new();
    std::mem::swap(&mut input.elements, &mut nodes);
    assert(all.subrange(0, 0) =~= Seq::empty());
    for node in it: nodes
        invariant
            it.seq() == all,
            kept@ == nodes_to_depth(all.subrange(0, it.index() as int), depth),
    {
        proof {
            let i = it.index() as int;
            assert(all.subrange(0, i + 1).drop_last() =~= all.subrange(0, i));
            assert(all.subrange(0, i + 1).last() == all[i]);
        }
        if node.depth <= depth {
            kept.push(node);
        }
    }
    assert(all.subrange(0, all.len() as int) =~= all);
    input.elements = kept;
    if let Some(focused) = &input.focused {
        if find_element(&input.elements, &focused.element_id).is_some() {
            return input;
        }
    }
    let focused: Option<FocusedElement> = if input.elements.len() > 0 {
        Some(focused_from_accessible_node(&input.elements[0]))
    } else {
        None
    };
    input.focused = focused;
    input
}

/// Limiting picks the elements down to the depth, in order, and limiting twice is limiting once.
pub proof fn law_limiting_is_idempotent(nodes: Seq<AccessibleNode>, depth: u32)
    ensures
        nodes_to_depth(nodes, depth) == nodes.filter(|node: AccessibleNode| node.depth <= depth),
        nodes_to_depth(nodes_to_depth(nodes, depth), depth) == nodes_to_depth(nodes, depth),
        nodes_to_depth(nodes, depth).len() <= nodes.len(),
    decreases nodes.len(),
{
    reveal(Seq::filter);
    if nodes.len() > 0 {
        let rest = nodes_to_depth(nodes.drop_last(), depth);
        law_limiting_is_idempotent(nodes.drop_last(), depth);
        if nodes.last().depth <= depth {
            assert(rest.push(nodes.last()).drop_last() =~= rest);
        }
    }
}

/// Keeping the nodes down to a depth keeps exactly those that are no deeper, in their order.
pub proof fn lemma_depth_is_a_filter(nodes: Seq<AccessibleNode>, depth: u32)
    ensures
        nodes_to_depth(nodes, depth) == nodes.filter(|node: AccessibleNode| node.depth <= depth),
    decreases nodes.len(),
{
    reveal(Seq::filter);
    if nodes.len() > 0 {
        lemma_depth_is_a_filter(nodes.drop_last(), depth);
    }
}

/// Limiting an input to a depth keeps the nodes that are no deeper, in their order, and everything
/// else as it was; and the focus stays on its element while that is among them.
pub proof fn law_limiting_keeps_what_is_no_deeper<N, C>(
    input: ObservationInput<N, C>,
    depth: u32,
    r: ObservationInput<N, C>,
)
    requires
        call_ensures(input_limited_to_depth::<N, C>, (input, depth), r),
    ensures
        r.elements@ == input.elements@.filter(|node: AccessibleNode| node.depth <= depth),
        input.focused is Some && (exists|i: int|
            0 <= i < r.elements@.len() && (#[trigger] r.elements@[i]).element_id@
                == input.focused->Some_0.element_id@) ==> r.focused == input.focused,
        (input.focused is None || (forall|i: int|
            0 <= i < r.elements@.len() ==> (#[trigger] r.elements@[i]).element_id@
                != input.focused->Some_0.element_id@)) && r.elements@.len() > 0 ==> r.focused
            is Some && r.focused->Some_0.element_id == r.elements@[0].element_id
            && r.focused->Some_0.name == r.elements@[0].name && r.focused->Some_0.role
            == r.elements@[0].role && r.focused->Some_0.bbox == r.elements@[0].bbox
            && r.focused->Some_0.automation_id == r.elements@[0].automation_id
            && r.focused->Some_0.enabled == r.elements@[0].enabled && r.focused->Some_0.value
            == r.elements@[0].value && r.focused->Some_0.patterns@ == r.elements@[0].patterns@
            && r.focused->Some_0.selected_text is None,
        r.elements@.len() == 0 ==> r.focused is None,
        r.entities == input.entities,
        r.foreground == input.foreground,
        r.mode_override == input.mode_override,
        r.capture_status == input.capture_status,
        r.cdp == input.cdp,
        r.web_path == input.web_path,
{
    lemma_depth_is_a_filter(input.elements@, depth);
}

/// An element is found where one of the nodes has its id, and then it is the first of those.
pub proof fn law_elements_are_found_by_their_id(
    nodes: &Vec<AccessibleNode>,
    id: &ElementId,
    r: Option<usize>,
)
    requires
        call_ensures(find_element, (nodes, id), r),
    ensures
        r is Some <==> exists|i: int|
            0 <= i < nodes@.len() && (#[trigger] nodes@[i]).element_id@ == id@,
        r is Some ==> r->Some_0 < nodes@.len() && nodes@[r->Some_0 as int].element_id.hwnd
            == id.hwnd && nodes@[r->Some_0 as int].element_id.runtime_id_hex@ == id.runtime_id_hex@,
        r is Some ==> forall|j: int|
            0 <= j < r->Some_0 ==> (#[trigger] nodes@[j]).element_id@ != id@,
{
}

/// Two ids are equal exactly if both of their parts are.
pub proof fn law_ids_are_equal_by_their_parts(a: &ElementId, b: &ElementId, r: bool)
    requires
        call_ensures(element_ids_equal, (a, b), r),
    ensures
        r <==> a.hwnd == b.hwnd && a.runtime_id_hex@ == b.runtime_id_hex@,
{
}

/// The text of an id begins with the handle in hexadecimal and ends with the runtime id; a negative
/// handle is written by its bits.
pub proof fn law_ids_are_written_by_their_parts(id: &ElementId, r: String)
    requires
        call_ensures(ElementId::to_text, (id,), r),
    ensures
        id.hwnd >= 0 ==> r@ == "0x"@ + hexadecimal(id.hwnd as nat) + ":"@ + id.runtime_id_hex@,
        id.hwnd < 0 ==> r@ == "0x"@ + hexadecimal((id.hwnd + 0x1_0000_0000_0000_0000) as nat) + ":"@
            + id.runtime_id_hex@,
{
}

} // verus!
