use oxidize::config::{determine_target, ConfigError};
use oxidize::target::{Target, TargetParseError};

#[test]
fn reads_a_known_triple() {
    let t = Target::from_str("x86_64-unknown-linux-gnu").unwrap();
    assert_eq!(t.to_string(), "x86_64-unknown-linux-gnu");
}

#[test]
fn an_unknown_architecture_is_an_error() {
    let r = Target::from_str("nonsense-unknown-linux-gnu");
    assert!(matches!(r, Err(TargetParseError::UnrecognizedArchitecture(m)) if m == "nonsense"));
}

#[test]
fn an_unknown_vendor_is_an_error() {
    let r = Target::from_str("x86_64-Nonsense");
    assert!(matches!(r, Err(TargetParseError::UnrecognizedVendor(m)) if m == "Nonsense"));
}

#[test]
fn the_configured_target_is_read_and_the_host_is_the_default() {
    assert!(matches!(determine_target(Some(String::from("bad"))), Err(ConfigError::TargetParseError(_))));
    let t = determine_target(Some(String::from("aarch64-apple-darwin"))).unwrap();
    assert_eq!(t.to_string(), "aarch64-apple-darwin");
    let host = determine_target(None).unwrap();
    assert_eq!(host.to_string(), Target::host().to_string());
}
