use video_to_text::aggregate::aggregate;
use video_to_text::transcript::Alternative;
use video_to_text::transcript::ResultGroup;
use video_to_text::transcript::TranscriptResult;

fn alt(text: &str) -> Alternative {
    Alternative { transcript: text.to_string() }
}

#[test]
fn aggregating_an_absent_result_yields_nothing() {
    let out = aggregate(&None);
    assert_eq!(out, Vec::<String>::new());
}

#[test]
fn aggregating_an_empty_result_yields_nothing() {
    let out = aggregate(&Some(TranscriptResult { groups: vec![] }));
    assert_eq!(out, Vec::<String>::new());
}

#[test]
fn aggregation_preserves_group_and_alternative_order() {
    let result = TranscriptResult {
        groups: vec![
            ResultGroup { alternatives: vec![alt("first"), alt("second")] },
            ResultGroup { alternatives: vec![alt("third")] },
        ],
    };
    let out = aggregate(&Some(result));
    assert_eq!(out, vec!["first", "second", "third"]);
}

#[test]
fn aggregation_emits_every_alternative_not_only_the_top_one() {
    let result = TranscriptResult {
        groups: vec![ResultGroup { alternatives: vec![alt("best"), alt("runner up")] }],
    };
    let out = aggregate(&Some(result));
    assert_eq!(out, vec!["best", "runner up"]);
}

#[test]
fn aggregation_skips_a_group_with_no_alternatives() {
    let result = TranscriptResult {
        groups: vec![
            ResultGroup { alternatives: vec![] },
            ResultGroup { alternatives: vec![alt("only")] },
        ],
    };
    let out = aggregate(&Some(result));
    assert_eq!(out, vec!["only"]);
}
