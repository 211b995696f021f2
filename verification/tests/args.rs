use canctl::args::{Canister, Network};
use canctl::principal::Principal;

const CID: &str = "ntyui-iatoh-pfi3f-27wnk-vgdqt-mq3cl-ld7jh-743kl-sde6i-tbm7g-tqe";

#[test]
fn canister_by_name() {
    assert_eq!(
        Canister::from("my-canister"),
        Canister::Name("my-canister".to_string()),
    );
}

#[test]
fn canister_by_principal() {
    assert_eq!(
        Canister::from(CID),
        Canister::Principal(Principal::from_text(CID).expect("failed to parse principal")),
    );
}

#[test]
fn network_by_name() {
    assert_eq!(
        Network::from("my-network"),
        Network::Name("my-network".to_string()),
    );
}

#[test]
fn network_by_url_http() {
    let url = "http://www.example.com";

    assert_eq!(
        Network::from(url),
        Network::Url("http://www.example.com".to_string()),
    );
}

#[test]
fn network_by_url_https() {
    let url = "https://www.example.com";

    assert_eq!(
        Network::from(url),
        Network::Url("https://www.example.com".to_string()),
    );
}

#[test]
fn network_prefix_must_lead() {
    // The scheme must stand at the front of the text for it to be a URL.
    assert_eq!(
        Network::from("see http://www.example.com"),
        Network::Name("see http://www.example.com".to_string()),
    );
}

#[test]
fn principal_text_is_decoded() {
    // A well-formed principal parses; near misses fall back to `None`.
    assert!(Principal::from_text(CID).is_some());
    assert!(Principal::from_text("my-canister").is_none());
    assert!(Principal::from_text("").is_none());
}

#[test]
fn principal_equality_is_by_identifier() {
    let a = Principal::from_text(CID).expect("failed to parse principal");
    let b = Principal::from_text(CID).expect("failed to parse principal");
    assert!(a == b);
    assert!(a != Principal::anonymous());
}

#[test]
fn anonymous_principal_parses_round() {
    // "2vxsx-fae" is the textual form of the anonymous principal.
    let parsed = Principal::from_text("2vxsx-fae").expect("failed to parse principal");
    assert!(parsed == Principal::anonymous());
}
