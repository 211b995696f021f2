use canctl::args::{Canister, Network};
use canctl::lifecycle::{StartArgs, StopArgs};
use canctl::mode::Mode;
use canctl::principal::Principal;
use canctl::validations::{
    Validate, ValidateError, DIAG_NAME_REQUIRED, DIAG_NOT_BOTH, DIAG_NO_ENVIRONMENT_IN_GLOBAL,
    DIAG_PRINCIPAL_REQUIRED, DIAG_URL_REQUIRED,
};

const CID: &str = "ntyui-iatoh-pfi3f-27wnk-vgdqt-mq3cl-ld7jh-743kl-sde6i-tbm7g-tqe";

fn principal_target() -> Canister {
    Canister::Principal(Principal::from_text(CID).expect("failed to parse principal"))
}

#[test]
fn args_valid() {
    let args = [
        (
            // A symbolic name resolves inside a project.
            StartArgs {
                canister: Canister::Name("my-canister".to_string()),
                network: None,
                environment: None,
            },
            vec![Mode::Project("dir".into())],
        ),
        (
            // A principal target needs no project.
            StartArgs {
                canister: principal_target(),
                network: None,
                environment: None,
            },
            vec![Mode::Global, Mode::Project("dir".into())],
        ),
        (
            // In global mode an explicit URL is the accepted network shape.
            StartArgs {
                canister: principal_target(),
                network: Some(Network::Url("http://www.example.com".to_string())),
                environment: None,
            },
            vec![Mode::Global],
        ),
        (
            // In project mode a symbolic network name is the accepted shape.
            StartArgs {
                canister: Canister::Name("my-canister".to_string()),
                network: Some(Network::Name("my-network".to_string())),
                environment: None,
            },
            vec![Mode::Project("dir".into())],
        ),
        (
            // An environment alone is fine inside a project.
            StartArgs {
                canister: Canister::Name("my-canister".to_string()),
                network: None,
                environment: Some("my-environment".to_string()),
            },
            vec![Mode::Project("dir".into())],
        ),
    ];

    for (v, ms) in args {
        for m in ms {
            v.validate(&m).expect("expected valid args");
        }
    }
}

#[test]
fn args_invalid() {
    let args = [
        (
            DIAG_URL_REQUIRED,
            StartArgs {
                canister: Canister::Name("my-canister".to_string()),
                network: Some(Network::Name("my-network".to_string())),
                environment: None,
            },
            vec![Mode::Global],
        ),
        (
            DIAG_NAME_REQUIRED,
            StartArgs {
                canister: Canister::Name("my-canister".to_string()),
                network: Some(Network::Url("http://www.example.com".to_string())),
                environment: None,
            },
            vec![Mode::Project("dir".into())],
        ),
        (
            DIAG_NOT_BOTH,
            StartArgs {
                canister: Canister::Name("my-canister".to_string()),
                network: Some(Network::Url("http://www.example.com".to_string())),
                environment: Some("my-environment".to_string()),
            },
            vec![Mode::Global, Mode::Project("dir".into())],
        ),
        (
            DIAG_NO_ENVIRONMENT_IN_GLOBAL,
            StartArgs {
                canister: principal_target(),
                network: None,
                environment: Some("my-environment".to_string()),
            },
            vec![Mode::Global],
        ),
        (
            DIAG_PRINCIPAL_REQUIRED,
            StartArgs {
                canister: Canister::Name("my-canister".to_string()),
                network: None,
                environment: None,
            },
            vec![Mode::Global],
        ),
    ];

    for (msg, v, ms) in args {
        for m in ms {
            match v.validate(&m) {
                Ok(_) => panic!("expected invalid args: {msg}"),
                Err(err) => assert_eq!(err.text(), msg),
            };
        }
    }
}

#[test]
fn stop_args_share_the_pipeline() {
    // The stop command's bundle is judged exactly as the start command's.
    let stop = StopArgs {
        canister: Canister::Name("my-canister".to_string()),
        network: Some(Network::Name("my-network".to_string())),
        environment: None,
    };
    match stop.validate(&Mode::Global) {
        Ok(_) => panic!("expected invalid args"),
        Err(err) => assert_eq!(err.text(), DIAG_URL_REQUIRED),
    }
    stop.validate(&Mode::Project("dir".into())).expect("expected valid args");
}

#[test]
fn validate_is_pure() {
    // Two runs on the same bundle and mode report the same result.
    let args = StartArgs {
        canister: Canister::Name("my-canister".to_string()),
        network: Some(Network::Name("my-network".to_string())),
        environment: Some("my-environment".to_string()),
    };
    for m in [Mode::Global, Mode::Project("dir".into())] {
        let first = args.validate(&m);
        let second = args.validate(&m);
        assert_eq!(first.is_ok(), second.is_ok());
        if let (Err(ValidateError::Invalid(a)), Err(ValidateError::Invalid(b))) = (first, second) {
            assert_eq!(a, b);
        }
    }
}
