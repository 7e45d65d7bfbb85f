use grf::errors::Error;
use grf::image::{get_image, get_image_tags};

#[test]
fn standard_latest() {
    assert_eq!(get_image(false, "latest"), "grafana/grafana:latest");
}

#[test]
fn enterprise_versioned() {
    assert_eq!(get_image(true, "9.0.0"), "grafana/grafana-enterprise:9.0.0");
}

#[test]
fn standard_versioned() {
    assert_eq!(get_image(false, "8.5.2"), "grafana/grafana:8.5.2");
}

#[test]
fn empty_version_gives_trailing_colon() {
    assert_eq!(get_image(false, ""), "grafana/grafana:");
    assert_eq!(get_image(true, ""), "grafana/grafana-enterprise:");
}

#[test]
fn deterministic() {
    assert_eq!(get_image(true, "9.0.0"), get_image(true, "9.0.0"));
    assert_eq!(get_image(false, "latest"), get_image(false, "latest"));
}

#[test]
fn tag_query_passes_tags_through() {
    let tags = vec!["latest".to_owned(), "9.0.0".to_owned()];
    assert_eq!(get_image_tags(Ok(tags.clone())).unwrap(), tags);
}

#[test]
fn failed_tag_query_is_a_recoverable_query_error() {
    match get_image_tags(Err("no such image".to_owned())) {
        Err(Error::RuntimeQueryError { message }) => assert_eq!(message, "no such image"),
        _ => panic!("expected a runtime query error"),
    }
}

#[test]
fn injective_on_concrete_pairs() {
    let refs = [
        get_image(false, "latest"),
        get_image(true, "latest"),
        get_image(false, "9.0.0"),
        get_image(true, "9.0.0"),
    ];
    for i in 0..refs.len() {
        for j in 0..refs.len() {
            if i != j {
                assert_ne!(refs[i], refs[j]);
            }
        }
    }
}
