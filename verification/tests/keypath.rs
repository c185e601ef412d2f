use rlottie::{Error, KeyPath};

#[test]
fn accepts_plain_paths() {
    let k = KeyPath::try_from("layer.shape.fill").unwrap();
    assert_eq!(k.as_str(), "layer.shape.fill");
}

#[test]
fn accepts_the_empty_path() {
    let k = KeyPath::try_from("").unwrap();
    assert_eq!(k.as_str(), "");
}

#[test]
fn accepts_wildcards_and_unicode() {
    assert!(KeyPath::try_from("**.Stroke 1").is_ok());
    assert!(KeyPath::try_from("ebene.füllung.☂").is_ok());
}

#[test]
fn accepts_long_paths() {
    let long = "segment.".repeat(10_000);
    let k = KeyPath::try_from(&long).unwrap();
    assert_eq!(k.as_str(), long);
}

#[test]
fn rejects_embedded_terminators() {
    assert!(KeyPath::try_from("\0").is_err());
    assert!(KeyPath::try_from("\0layer").is_err());
    assert!(KeyPath::try_from("lay\0er").is_err());
    assert!(KeyPath::try_from("layer\0").is_err());
}

#[test]
fn rejection_is_a_boundary_error() {
    let e = KeyPath::try_from("a\0b").unwrap_err();
    assert!(matches!(e, Error::FFI(_)));
}
