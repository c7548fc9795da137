use helix_client::{
    assert_all_ids_positive, assert_descending_sort, assert_row_count,
    assert_top_score_non_negative, ContractViolation, FilmHit, Score,
};

fn score(x: f64) -> Score {
    Score::from_bits(x.to_bits())
}

fn hit(id: i64, s: f64) -> FilmHit {
    FilmHit {
        id,
        title: format!("Film {id}"),
        content: "fixture".into(),
        source: "Comedy".into(),
        score: score(s),
    }
}

#[test]
fn row_count_matches_expected() {
    let hits = vec![hit(1, 0.9), hit(2, 0.8)];
    assert!(assert_row_count(&hits, 2).is_ok());
}

#[test]
fn row_count_too_few_violates() {
    let hits = vec![hit(1, 0.9)];
    assert_eq!(
        assert_row_count(&hits, 5),
        Err(ContractViolation::RowCount {
            expected: 5,
            actual: 1
        })
    );
}

#[test]
fn row_count_too_many_violates() {
    let hits = vec![hit(1, 0.9), hit(2, 0.8), hit(3, 0.7)];
    assert_eq!(
        assert_row_count(&hits, 2),
        Err(ContractViolation::RowCount {
            expected: 2,
            actual: 3,
        })
    );
}

#[test]
fn top_score_zero_passes() {
    let hits = vec![hit(1, 0.0)];
    assert!(assert_top_score_non_negative(&hits).is_ok());
}

#[test]
fn top_score_positive_passes() {
    let hits = vec![hit(1, 0.42)];
    assert!(assert_top_score_non_negative(&hits).is_ok());
}

#[test]
fn top_score_empty_passes_vacuously() {
    let hits: Vec<FilmHit> = Vec::new();
    assert!(assert_top_score_non_negative(&hits).is_ok());
}

#[test]
fn top_score_negative_violates() {
    let hits = vec![hit(1, -0.001)];
    assert_eq!(
        assert_top_score_non_negative(&hits),
        Err(ContractViolation::TopScoreNegative(score(-0.001)))
    );
}

#[test]
fn ids_all_positive_passes() {
    let hits = vec![hit(1, 0.9), hit(2, 0.8)];
    assert!(assert_all_ids_positive(&hits).is_ok());
}

#[test]
fn ids_empty_passes_vacuously() {
    let hits: Vec<FilmHit> = Vec::new();
    assert!(assert_all_ids_positive(&hits).is_ok());
}

#[test]
fn ids_zero_violates() {
    let hits = vec![hit(1, 0.9), hit(0, 0.8)];
    assert_eq!(
        assert_all_ids_positive(&hits),
        Err(ContractViolation::IdNonPositive { index: 1, id: 0 })
    );
}

#[test]
fn ids_negative_violates() {
    let hits = vec![hit(-7, 0.9)];
    assert_eq!(
        assert_all_ids_positive(&hits),
        Err(ContractViolation::IdNonPositive { index: 0, id: -7 })
    );
}

#[test]
fn descending_strict_passes() {
    let hits = vec![hit(1, 0.9), hit(2, 0.8), hit(3, 0.5)];
    assert!(assert_descending_sort(&hits).is_ok());
}

#[test]
fn descending_equal_passes() {
    let hits = vec![hit(1, 0.5), hit(2, 0.5)];
    assert!(assert_descending_sort(&hits).is_ok());
}

#[test]
fn descending_empty_passes_vacuously() {
    let hits: Vec<FilmHit> = Vec::new();
    assert!(assert_descending_sort(&hits).is_ok());
}

#[test]
fn descending_single_passes_vacuously() {
    let hits = vec![hit(1, 0.42)];
    assert!(assert_descending_sort(&hits).is_ok());
}

#[test]
fn descending_violation_at_first_pair() {
    let hits = vec![hit(1, 0.5), hit(2, 0.9)];
    assert_eq!(
        assert_descending_sort(&hits),
        Err(ContractViolation::NotDescending {
            index: 0,
            lhs: score(0.5),
            rhs: score(0.9),
        })
    );
}

#[test]
fn descending_violation_in_middle() {
    let hits = vec![hit(1, 0.9), hit(2, 0.5), hit(3, 0.8)];
    assert_eq!(
        assert_descending_sort(&hits),
        Err(ContractViolation::NotDescending {
            index: 1,
            lhs: score(0.5),
            rhs: score(0.8),
        })
    );
}

#[test]
fn top_score_negative_zero_passes() {
    let hits = vec![hit(1, -0.0)];
    assert!(assert_top_score_non_negative(&hits).is_ok());
}

#[test]
fn top_score_nan_violates() {
    let hits = vec![hit(1, f64::NAN)];
    match assert_top_score_non_negative(&hits) {
        Err(ContractViolation::TopScoreNegative(s)) => assert!(s.is_nan()),
        other => panic!("unexpected {other:?}"),
    }
}

#[test]
fn top_score_only_looks_at_first_hit() {
    let hits = vec![hit(1, 0.3), hit(2, -0.5)];
    assert!(assert_top_score_non_negative(&hits).is_ok());
}

#[test]
fn ids_first_offender_is_reported() {
    let hits = vec![hit(3, 0.9), hit(-1, 0.8), hit(0, 0.7)];
    assert_eq!(
        assert_all_ids_positive(&hits),
        Err(ContractViolation::IdNonPositive { index: 1, id: -1 })
    );
}

#[test]
fn descending_first_offending_pair_is_reported() {
    let hits = vec![hit(1, 0.1), hit(2, 0.2), hit(3, 0.3)];
    assert_eq!(
        assert_descending_sort(&hits),
        Err(ContractViolation::NotDescending {
            index: 0,
            lhs: score(0.1),
            rhs: score(0.2),
        })
    );
}

#[test]
fn descending_negative_scores_compare_as_floats() {
    let hits = vec![hit(1, -0.1), hit(2, -0.5), hit(3, f64::NEG_INFINITY)];
    assert!(assert_descending_sort(&hits).is_ok());
    let hits = vec![hit(1, -0.5), hit(2, -0.1)];
    assert!(assert_descending_sort(&hits).is_err());
    let hits = vec![hit(1, -0.0), hit(2, 0.0)];
    assert!(assert_descending_sort(&hits).is_ok());
}

#[test]
fn descending_nan_score_violates() {
    let hits = vec![hit(1, 0.1), hit(2, f64::NAN), hit(3, 0.9)];
    match assert_descending_sort(&hits) {
        Err(ContractViolation::NotDescending { index, lhs, rhs }) => {
            assert_eq!(index, 0);
            assert_eq!(lhs, score(0.1));
            assert!(rhs.is_nan());
        }
        other => panic!("unexpected {other:?}"),
    }
    let hits = vec![hit(1, f64::NAN), hit(2, 0.5)];
    match assert_descending_sort(&hits) {
        Err(ContractViolation::NotDescending { index, lhs, rhs }) => {
            assert_eq!(index, 0);
            assert!(lhs.is_nan());
            assert_eq!(rhs, score(0.5));
        }
        other => panic!("unexpected {other:?}"),
    }
}

#[test]
fn violation_messages_include_indices() {
    let row = ContractViolation::RowCount {
        expected: 5,
        actual: 3,
    };
    assert!(row.to_string_with_scores("", "").contains("expected 5"));
    assert!(row.to_string_with_scores("", "").contains("got 3"));

    let top = ContractViolation::TopScoreNegative(score(-0.5));
    assert!(top
        .to_string_with_scores(&(-0.5f64).to_string(), "")
        .contains("-0.5"));

    let id = ContractViolation::IdNonPositive { index: 2, id: -1 };
    assert!(id.to_string_with_scores("", "").contains("index 2"));
    assert!(id.to_string_with_scores("", "").contains("-1"));

    let nd = ContractViolation::NotDescending {
        index: 1,
        lhs: score(0.3),
        rhs: score(0.7),
    };
    let msg = nd.to_string_with_scores(&0.3f64.to_string(), &0.7f64.to_string());
    assert!(msg.contains("hits[1]"));
    assert!(msg.contains("hits[2]"));
}

#[test]
fn violation_messages_are_exact() {
    assert_eq!(
        ContractViolation::RowCount { expected: 10, actual: 0 }.to_string_with_scores("", ""),
        "row count contract: expected 10 hits, got 0"
    );
    assert_eq!(
        ContractViolation::TopScoreNegative(score(-0.25)).to_string_with_scores("-0.25", ""),
        "top score contract: top score is negative (-0.25)"
    );
    assert_eq!(
        ContractViolation::IdNonPositive { index: 0, id: i64::MIN }.to_string_with_scores("", ""),
        "id positivity contract: hit at index 0 has non-positive id -9223372036854775808"
    );
    assert_eq!(
        ContractViolation::IdNonPositive { index: 7, id: 0 }.to_string_with_scores("", ""),
        "id positivity contract: hit at index 7 has non-positive id 0"
    );
    assert_eq!(
        ContractViolation::NotDescending { index: 9, lhs: score(0.1), rhs: score(0.2) }
            .to_string_with_scores("0.1", "0.2"),
        "descending sort contract: hits[9].score (0.1) < hits[10].score (0.2)"
    );
}
