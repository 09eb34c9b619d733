use synapse_mcp::geometry::Rect;
use synapse_mcp::ieee::Real32;
use synapse_mcp::m1::{match_find_input, FindParams, FindResult, FindResultKind, FindScope};

fn found(kind: FindResultKind, name: &str, score: f32) -> FindResult {
    FindResult {
        kind,
        element_id: None,
        entity_id: None,
        name: Some(name.to_owned()),
        role: None,
        automation_id: None,
        class_label: None,
        bbox: Rect { x: 0, y: 0, w: 1, h: 1 },
        score: Real32::from_bits(score.to_bits()),
    }
}

fn names(params: &FindParams) -> Vec<String> {
    let elements = vec![
        Some(found(FindResultKind::Element, "low", 0.25)),
        None,
        Some(found(FindResultKind::Element, "tie-first", 0.5)),
        Some(found(FindResultKind::Element, "nan", f32::NAN)),
    ];
    let entities = vec![
        Some(found(FindResultKind::Entity, "tie-second", 0.5)),
        Some(found(FindResultKind::Entity, "best", 0.75)),
        Some(found(FindResultKind::Entity, "negative", -1.0)),
        None,
    ];
    match_find_input(params, elements, entities)
        .results
        .into_iter()
        .map(|result| result.name.expect("named"))
        .collect()
}

#[test]
fn best_matches_come_first_and_equals_keep_their_order() {
    assert_eq!(
        names(&FindParams { limit: Some(20), ..FindParams::default() }),
        ["nan", "best", "tie-first", "tie-second", "low", "negative"]
    );
}

#[test]
fn scope_picks_elements_entities_or_both() {
    let scoped = |scope: FindScope| {
        names(&FindParams { scope: Some(scope), limit: Some(20), ..FindParams::default() })
    };
    assert_eq!(scoped(FindScope::Elements), ["nan", "tie-first", "low"]);
    assert_eq!(scoped(FindScope::Entities), ["best", "tie-second", "negative"]);
    assert_eq!(scoped(FindScope::Both).len(), 6);
    assert_eq!(FindScope::default(), FindScope::Both);
}

#[test]
fn limits_are_five_by_default_and_between_one_and_twenty() {
    assert_eq!(names(&FindParams::default()).len(), 5);
    assert_eq!(names(&FindParams { limit: Some(0), ..FindParams::default() }), ["nan"]);
    let many: Vec<Option<FindResult>> = (0..30)
        .map(|index| Some(found(FindResultKind::Element, "x", index as f32)))
        .collect();
    let response = match_find_input(
        &FindParams { limit: Some(1000), ..FindParams::default() },
        many,
        Vec::new(),
    );
    assert_eq!(response.results.len(), 20);
    assert_eq!(response.results[0].score, Real32::from_bits(29.0f32.to_bits()));
}
