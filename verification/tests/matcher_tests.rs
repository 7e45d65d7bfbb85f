use grf::matcher::{contains_str, get_containers, match_mode, ContainerInfo, MatchMode};

fn container(id: &str, image: &str) -> ContainerInfo {
    ContainerInfo { id: id.to_owned(), image: image.to_owned() }
}

#[test]
fn empty_version_selects_the_widened_mode() {
    assert_eq!(match_mode(""), MatchMode::AnyWithBaseName);
    assert_eq!(match_mode("latest"), MatchMode::ExactImage);
    assert_eq!(match_mode("9.0.0"), MatchMode::ExactImage);
}

#[test]
fn substring_found() {
    assert!(contains_str("grafana/grafana:latest", "grafana"));
    assert!(contains_str("my-grafana-fork:1.0", "grafana"));
    assert!(contains_str("abc", "abc"));
    assert!(contains_str("abc", ""));
    assert!(contains_str("", ""));
}

#[test]
fn substring_search_counts_characters_not_bytes() {
    assert!(contains_str("grafaña:latest", "aña"));
    assert!(!contains_str("grafaña", "ana"));
}

#[test]
fn substring_absent() {
    assert!(!contains_str("postgres:14", "grafana"));
    assert!(!contains_str("", "grafana"));
    assert!(!contains_str("graf", "grafana"));
    assert!(!contains_str("grafan_a", "grafana"));
}

#[test]
fn exact_match_keeps_only_the_resolved_image() {
    let listed = vec![
        container("a", "grafana/grafana:latest"),
        container("b", "grafana/grafana:9.0.0"),
        container("c", "postgres:14"),
    ];
    let matched = get_containers(false, "latest", listed);
    assert_eq!(matched.len(), 1);
    assert_eq!(matched[0].id, "a");
}

#[test]
fn loose_match_keeps_anything_with_the_base_name() {
    let listed = vec![
        container("a", "grafana/grafana:latest"),
        container("b", "grafana/grafana-enterprise:9.0.0"),
        container("c", "my-grafana-fork:1.0"),
        container("d", "postgres:14"),
    ];
    let matched = get_containers(false, "", listed);
    let ids: Vec<&str> = matched.iter().map(|c| c.id.as_str()).collect();
    assert_eq!(ids, ["a", "b", "c"]);
}

#[test]
fn loose_mode_is_a_superset_of_exact_latest() {
    let listed = vec![
        container("a", "grafana/grafana:latest"),
        container("b", "grafana/grafana:9.0.0"),
        container("c", "postgres:14"),
    ];
    let exact = get_containers(false, "latest", listed.clone());
    let loose = get_containers(false, "", listed);
    for c in &exact {
        assert!(loose.iter().any(|l| l.id == c.id && l.image == c.image));
    }
}

#[test]
fn no_match_is_empty_not_an_error() {
    let listed = vec![container("c", "postgres:14")];
    let matched = get_containers(true, "9.0.0", listed);
    assert!(matched.is_empty());
}

#[test]
fn order_of_the_listing_is_preserved() {
    let listed = vec![
        container("z", "grafana/grafana:latest"),
        container("y", "grafana/grafana:latest"),
        container("x", "grafana/grafana:latest"),
    ];
    let matched = get_containers(false, "latest", listed);
    let ids: Vec<&str> = matched.iter().map(|c| c.id.as_str()).collect();
    assert_eq!(ids, ["z", "y", "x"]);
}
