use hardware_keys::types::DuplicateLabelPolicy;
use hardware_keys::{
    delete_key, discover, generate_key, list_keys, sign_hash, Backend, DeleteRequest, Error,
    GenerateRequest, HardwareKeyInfo, ListRequest, Platform, SignRequest,
};

fn s(text: &str) -> String {
    text.to_string()
}

fn unknown(name: &str) -> Error {
    Error::Reason { reason: format!("Unknown backend: {}", name) }
}

fn info(backend: &str, device_id: &str) -> HardwareKeyInfo {
    HardwareKeyInfo {
        backend: s(backend),
        description: s("..."),
        algorithms: vec![s("ES256")],
        device_id: s(device_id),
    }
}

#[test]
fn discovery_lists_the_yubikey_first() {
    let both = discover(
        Platform::Macos,
        Some(info("yubikey-piv", "9570775")),
        Some(info("secure-enclave", "local")),
    );
    assert_eq!(both, vec![info("yubikey-piv", "9570775"), info("secure-enclave", "local")]);
}

#[test]
fn discovery_leaves_out_what_is_missing() {
    assert_eq!(discover(Platform::Macos, None, None), vec![]);
    assert_eq!(
        discover(Platform::Macos, None, Some(info("secure-enclave", "local"))),
        vec![info("secure-enclave", "local")]
    );
    assert_eq!(
        discover(Platform::Other, Some(info("yubikey-piv", "1")), None),
        vec![info("yubikey-piv", "1")]
    );
}

#[test]
fn discovery_finds_an_enclave_on_macos_only() {
    assert_eq!(discover(Platform::Other, None, Some(info("secure-enclave", "local"))), vec![]);
}

#[test]
fn discovered_backends_are_known_and_distinct() {
    for platform in [Platform::Macos, Platform::Other] {
        let backends = discover(
            platform,
            Some(info("yubikey-piv", "9570775")),
            Some(info("secure-enclave", "local")),
        );
        let mut seen = Vec::new();
        for backend in backends {
            let name = backend.backend;
            assert!(sign_hash(platform, name.clone(), s("k"), vec![]).is_ok());
            assert!(list_keys(platform, name.clone(), None).is_ok());
            assert!(delete_key(platform, name.clone(), s("k")).is_ok());
            assert!(
                generate_key(platform, name.clone(), s("ES256"), Some(s("l")), None, None).is_ok()
            );
            assert!(!seen.contains(&name));
            seen.push(name);
        }
    }
}

#[test]
fn yubikey_ignores_the_options() {
    for platform in [Platform::Macos, Platform::Other] {
        assert_eq!(
            generate_key(platform, s("yubikey-piv"), s("RS256"), None, None, None),
            Ok(GenerateRequest::YubikeyPiv { algorithm: s("RS256") })
        );
        assert_eq!(
            generate_key(
                platform,
                s("yubikey-piv"),
                s("RS256"),
                Some(s("label")),
                Some(true),
                Some(true),
            ),
            Ok(GenerateRequest::YubikeyPiv { algorithm: s("RS256") })
        );
    }
}

#[test]
fn enclave_needs_a_label() {
    assert_eq!(
        generate_key(
            Platform::Macos,
            s("secure-enclave"),
            s("ES256"),
            None,
            Some(true),
            Some(true),
        ),
        Err(Error::Reason { reason: s("'label' is required for the secure-enclave backend") })
    );
}

#[test]
fn enclave_options_default_to_no() {
    let ask = |permanent, replace| {
        generate_key(
            Platform::Macos,
            s("secure-enclave"),
            s("ES256"),
            Some(s("com.myapp.signing-key")),
            permanent,
            replace,
        )
    };
    let asked = |permanent, policy| {
        Ok(GenerateRequest::SecureEnclave {
            label: s("com.myapp.signing-key"),
            algorithm: s("ES256"),
            permanent,
            policy,
        })
    };
    assert_eq!(ask(None, None), asked(false, DuplicateLabelPolicy::Error));
    assert_eq!(ask(Some(false), Some(false)), asked(false, DuplicateLabelPolicy::Error));
    assert_eq!(ask(Some(true), None), asked(true, DuplicateLabelPolicy::Error));
    assert_eq!(ask(Some(false), Some(true)), asked(false, DuplicateLabelPolicy::Replace));
}

#[test]
fn enclave_is_unknown_elsewhere() {
    assert_eq!(
        generate_key(
            Platform::Other,
            s("secure-enclave"),
            s("ES256"),
            Some(s("label")),
            None,
            None,
        ),
        Err(unknown("secure-enclave"))
    );
    assert_eq!(
        sign_hash(Platform::Other, s("secure-enclave"), s("k"), vec![1]),
        Err(unknown("secure-enclave"))
    );
    assert_eq!(
        list_keys(Platform::Other, s("secure-enclave"), None),
        Err(unknown("secure-enclave"))
    );
    assert_eq!(
        delete_key(Platform::Other, s("secure-enclave"), s("k")),
        Err(unknown("secure-enclave"))
    );
}

#[test]
fn other_names_are_unknown() {
    for platform in [Platform::Macos, Platform::Other] {
        for name in ["", "yubikey", "yubikey-piv ", "YUBIKEY-PIV", "windows-tpm", "schlüssel"] {
            assert_eq!(
                generate_key(platform, s(name), s("ES256"), None, None, None),
                Err(unknown(name))
            );
            assert_eq!(sign_hash(platform, s(name), s("k"), vec![]), Err(unknown(name)));
            assert_eq!(list_keys(platform, s(name), None), Err(unknown(name)));
            assert_eq!(delete_key(platform, s(name), s("k")), Err(unknown(name)));
        }
    }
}

#[test]
fn signing_passes_key_and_hash_on() {
    assert_eq!(
        sign_hash(Platform::Other, s("yubikey-piv"), s("9e"), vec![1, 2, 3]),
        Ok(SignRequest { backend: Backend::YubikeyPiv, key_id: s("9e"), hash: vec![1, 2, 3] })
    );
    assert_eq!(
        sign_hash(Platform::Macos, s("secure-enclave"), s("com.myapp.key"), vec![]),
        Ok(SignRequest {
            backend: Backend::SecureEnclave,
            key_id: s("com.myapp.key"),
            hash: vec![],
        })
    );
}

#[test]
fn listing_passes_the_prefix_to_the_enclave_only() {
    assert_eq!(
        list_keys(Platform::Macos, s("yubikey-piv"), Some(s("com.myapp."))),
        Ok(ListRequest::YubikeyPiv)
    );
    assert_eq!(
        list_keys(Platform::Macos, s("secure-enclave"), Some(s("com.myapp."))),
        Ok(ListRequest::SecureEnclave { prefix: Some(s("com.myapp.")) })
    );
    assert_eq!(
        list_keys(Platform::Macos, s("secure-enclave"), None),
        Ok(ListRequest::SecureEnclave { prefix: None })
    );
}

#[test]
fn deletion_passes_the_label_on() {
    assert_eq!(
        delete_key(Platform::Other, s("yubikey-piv"), s("9e")),
        Ok(DeleteRequest { backend: Backend::YubikeyPiv, label: s("9e") })
    );
    assert_eq!(
        delete_key(Platform::Macos, s("secure-enclave"), s("com.myapp.key")),
        Ok(DeleteRequest { backend: Backend::SecureEnclave, label: s("com.myapp.key") })
    );
}
