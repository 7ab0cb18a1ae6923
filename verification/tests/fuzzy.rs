use ortholinear::fuzzy::filter_items;

#[derive(Clone, Debug, PartialEq)]
struct Ticket {
    id: String,
    title: String,
}

#[test]
fn empty_query_returns_all_items() {
    let items = vec!["apple", "banana", "cherry"];
    let results = filter_items(&items, "", |s| s.to_string());

    assert_eq!(results.len(), 3);
    assert_eq!(results[0].item, "apple");
    assert_eq!(results[0].original_index, 0);
    assert_eq!(results[1].item, "banana");
    assert_eq!(results[1].original_index, 1);
    assert_eq!(results[2].item, "cherry");
    assert_eq!(results[2].original_index, 2);
}

#[test]
fn filters_matching_items() {
    let items = vec!["apple", "banana", "apricot", "cherry"];
    let results = filter_items(&items, "ap", |s| s.to_string());

    assert_eq!(results.len(), 2);
    let matched: Vec<_> = results.iter().map(|r| r.item).collect();
    assert!(matched.contains(&"apple"));
    assert!(matched.contains(&"apricot"));
}

#[test]
fn no_matches_returns_empty() {
    let items = vec!["apple", "banana", "cherry"];
    let results = filter_items(&items, "xyz", |s| s.to_string());

    assert!(results.is_empty());
}

#[test]
fn case_insensitive_matching() {
    let items = vec!["Apple", "BANANA", "cherry"];
    let results = filter_items(&items, "apple", |s| s.to_string());

    assert_eq!(results.len(), 1);
    assert_eq!(results[0].item, "Apple");
}

#[test]
fn fuzzy_matching_works() {
    let items = vec!["user_service", "user_repository", "product_service"];
    let results = filter_items(&items, "usvc", |s| s.to_string());

    assert!(!results.is_empty());
    assert_eq!(results[0].item, "user_service");
}

#[test]
fn preserves_original_indices() {
    let items = vec!["aaa", "bbb", "aab", "ccc"];
    let results = filter_items(&items, "aa", |s| s.to_string());

    assert_eq!(results.len(), 2);

    let indices: Vec<_> = results.iter().map(|r| r.original_index).collect();
    assert!(indices.contains(&0));
    assert!(indices.contains(&2));
}

#[test]
fn sorts_by_score_descending() {
    let items = vec!["zzz_test_zzz", "test", "a_test"];
    let results = filter_items(&items, "test", |s| s.to_string());

    assert_eq!(results.len(), 3);

    for i in 1..results.len() {
        assert!(
            results[i - 1].score >= results[i].score,
            "Results should be sorted by score descending"
        );
    }
}

#[test]
fn works_with_custom_text_extractor() {
    let items = vec![
        Ticket {
            id: "ENG-1".to_string(),
            title: "Fix bug".to_string(),
        },
        Ticket {
            id: "ENG-2".to_string(),
            title: "Add feature".to_string(),
        },
        Ticket {
            id: "ENG-3".to_string(),
            title: "Fix login".to_string(),
        },
    ];

    let results = filter_items(&items, "fix", |issue| format!("{} {}", issue.id, issue.title));

    assert_eq!(results.len(), 2);
    let ids: Vec<_> = results.iter().map(|r| r.item.id.as_str()).collect();
    assert!(ids.contains(&"ENG-1"));
    assert!(ids.contains(&"ENG-3"));
}

#[test]
fn empty_items_returns_empty() {
    let items: Vec<String> = vec![];
    let results = filter_items(&items, "test", |s| s.clone());

    assert!(results.is_empty());
}

#[test]
fn matching_items_keep_scores_and_ties_keep_order() {
    // Identical texts score the same, so they keep their list order.
    let items = vec!["test", "other", "test"];
    let results = filter_items(&items, "test", |s| s.to_string());

    assert_eq!(results.len(), 2);
    assert_eq!(results[0].original_index, 0);
    assert_eq!(results[1].original_index, 2);
    assert_eq!(results[0].score, results[1].score);
    assert!(results[0].score > 0);
}

#[test]
fn empty_query_gives_score_zero() {
    let items = vec!["x", "y"];
    let results = filter_items(&items, "", |s| s.to_string());
    assert!(results.iter().all(|r| r.score == 0));
}

#[test]
fn filter_uses_the_extracted_text_not_the_item() {
    let items = vec![1u32, 2, 3];
    let results = filter_items(&items, "two", |n| {
        if *n == 2 { "two".to_string() } else { "none".to_string() }
    });
    assert_eq!(results.len(), 1);
    assert_eq!(results[0].item, 2);
    assert_eq!(results[0].original_index, 1);
}
