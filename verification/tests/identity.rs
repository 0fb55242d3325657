use desktop_node::identity::{
    client_id, generate_node_name, judge_candidate, NameSearch, NodeNameError,
    NODE_NAME_MAX_ATTEMPTS, NODE_NAME_MAX_LENGTH,
};

#[test]
fn client_id_joins_name_and_version() {
    assert_eq!(client_id("Subspace-desktop", "1.2.3"), "Subspace-desktop/v1.2.3");
}

#[test]
fn client_id_of_empty_parts_is_the_separator() {
    assert_eq!(client_id("", ""), "/v");
    assert_eq!(client_id("node", ""), "node/v");
    assert_eq!(client_id("", "0.1.0"), "/v0.1.0");
}

#[test]
fn generated_node_name_is_shorter_than_the_limit() {
    for _ in 0..200 {
        let name = generate_node_name().expect("a name is generated");
        assert!(name.chars().count() < NODE_NAME_MAX_LENGTH);
        assert!(!name.is_empty());
    }
}

#[test]
fn generated_node_names_vary() {
    let first = generate_node_name().expect("a name is generated");
    let mut differs = false;
    for _ in 0..50 {
        if generate_node_name().expect("a name is generated") != first {
            differs = true;
        }
    }
    assert!(differs);
}

#[test]
fn generated_node_name_is_adjective_noun_number() {
    for _ in 0..100 {
        let name = generate_node_name().expect("a name is generated");
        let characters: Vec<char> = name.chars().collect();
        assert!(characters.len() >= 5);
        assert_eq!(characters[characters.len() - 5], '-');
        assert!(characters[characters.len() - 4..].iter().all(|c| c.is_ascii_digit()));
        let parts: Vec<&str> = name.split('-').collect();
        assert!(parts.len() >= 3);
        let number: u32 = parts[parts.len() - 1].parse().expect("the name ends in a number");
        assert!((1..10000).contains(&number));
        assert!(parts[..parts.len() - 1].iter().all(|word| !word.is_empty()));
    }
}

#[test]
fn candidate_of_63_characters_is_the_name() {
    let name = "a".repeat(63);
    for attempt in [0usize, 1, 998, 999] {
        match judge_candidate(attempt, name.clone()) {
            NameSearch::Found(found) => assert_eq!(found, name),
            other => panic!("unexpected verdict {:?}", other),
        }
    }
}

#[test]
fn candidate_of_64_characters_is_drawn_again() {
    assert!(matches!(judge_candidate(0, "a".repeat(64)), NameSearch::Retry));
    assert!(matches!(judge_candidate(1, "a".repeat(200)), NameSearch::Retry));
    assert!(matches!(judge_candidate(998, "a".repeat(64)), NameSearch::Retry));
}

#[test]
fn last_attempt_that_is_too_long_ends_the_search() {
    assert!(matches!(
        judge_candidate(999, "a".repeat(64)),
        NameSearch::Failed(NodeNameError::AttemptsExhausted)
    ));
    assert!(matches!(
        judge_candidate(1000, "a".repeat(64)),
        NameSearch::Failed(NodeNameError::AttemptsExhausted)
    ));
    assert!(matches!(
        judge_candidate(usize::MAX, "a".repeat(64)),
        NameSearch::Failed(NodeNameError::AttemptsExhausted)
    ));
}

#[test]
fn candidate_length_counts_characters_not_bytes() {
    // 63 characters of two bytes each
    let name = "\u{e9}".repeat(63);
    assert_eq!(name.len(), 126);
    assert!(matches!(judge_candidate(0, name), NameSearch::Found(_)));
    assert!(matches!(judge_candidate(0, "\u{e9}".repeat(64)), NameSearch::Retry));
}

#[test]
fn empty_candidate_is_the_name() {
    assert!(matches!(judge_candidate(0, String::new()), NameSearch::Found(_)));
}

#[test]
fn node_name_limits() {
    assert_eq!(NODE_NAME_MAX_LENGTH, 64);
    assert_eq!(NODE_NAME_MAX_ATTEMPTS, 1000);
}
