use hardware_keys::hello::{
    Availability, AvailabilityReport, ConsentAnswer, ConsentReport, ConsentResult,
};
use hardware_keys::protocol::{Call, Machine, Progress, Reply, Resource};
use hardware_keys::windows_tpm::names::make_key_name;
use hardware_keys::windows_tpm::{
    delete_key, discover, generate_key, list_keys, sign_hash, DuplicateLabelPolicy,
    PLATFORM_PROVIDER,
};
use hardware_keys::{Error, GeneratedKey, HardwareKeyInfo, SignatureResult};

/// What an operation does between its start and its end.
#[derive(Debug, PartialEq)]
enum Event {
    Frees(Resource),
    Calls(Call),
}

/// How an operation ended.
#[derive(Debug, PartialEq)]
enum End<T> {
    Waits,
    Yields(T),
    Fails(Error),
}

/// Runs an operation against a system that gives the replies in turn.
fn run<M: Machine>(
    start: Progress<M, M::Output>,
    replies: Vec<Reply>,
) -> (Vec<Event>, End<M::Output>) {
    let mut events = Vec::new();
    let mut replies = replies.into_iter();
    let mut progress = start;
    loop {
        match progress {
            Progress::Pending { release, call, machine } => {
                events.extend(release.into_iter().map(Event::Frees));
                events.push(Event::Calls(call));
                match replies.next() {
                    Some(reply) => {
                        assert!(machine.accepts(&reply));
                        progress = machine.step(reply);
                    }
                    None => return (events, End::Waits),
                }
            }
            Progress::Done { release, output } => {
                assert!(replies.next().is_none());
                events.extend(release.into_iter().map(Event::Frees));
                return (events, End::Yields(output));
            }
            Progress::Failed { release, error } => {
                assert!(replies.next().is_none());
                events.extend(release.into_iter().map(Event::Frees));
                return (events, End::Fails(error));
            }
        }
    }
}

fn s(text: &str) -> String {
    text.to_string()
}

fn reason(text: &str) -> Error {
    Error::Reason { reason: s(text) }
}

fn opens_provider() -> Event {
    let mut wide_name: Vec<u16> = "Microsoft Platform Crypto Provider".encode_utf16().collect();
    wide_name.push(0);
    Event::Calls(Call::OpenProvider { wide_name })
}

fn opens_key(provider: usize, name: &str) -> Event {
    Event::Calls(Call::OpenKey { provider, name: s(name) })
}

fn creates_key(provider: usize, name: &str) -> Event {
    Event::Calls(Call::CreateKey { provider, algorithm: s("ECDSA_P256"), name: s(name) })
}

fn asks_export_size(key: usize) -> Event {
    Event::Calls(Call::ExportSize { key, blob_type: s("ECCPUBLICBLOB") })
}

fn exports(key: usize, capacity: u32) -> Event {
    Event::Calls(Call::Export { key, blob_type: s("ECCPUBLICBLOB"), capacity })
}

fn frees(handle: usize) -> Event {
    Event::Frees(Resource::Object { handle })
}

fn frees_buffer(address: usize) -> Event {
    Event::Frees(Resource::Buffer { address })
}

fn handle(handle: usize) -> Reply {
    Reply::Handle { handle }
}

fn failed(message: &str) -> Reply {
    Reply::Failed { message: s(message) }
}

fn size(size: u32) -> Reply {
    Reply::Size { size }
}

/// The blob of a key with coordinates of one byte.
fn blob(x: u8, y: u8) -> Reply {
    Reply::Data { bytes: vec![0x45, 0x43, 0x53, 0x31, 1, 0, 0, 0, x, y], written: 10 }
}

fn named(cursor: usize, address: usize, name: &str) -> Reply {
    Reply::Named { cursor, address, name: Some(s(name)) }
}

fn checked(availability: Availability) -> Reply {
    Reply::Availability { availability: AvailabilityReport::Reported { availability } }
}

fn prompted(result: ConsentResult) -> Reply {
    Reply::Consent {
        consent: ConsentReport::Prompted { answer: ConsentAnswer::Answered { result } },
    }
}

fn key(name: &str, x: &str, y: &str) -> GeneratedKey {
    GeneratedKey {
        backend: s("windows-tpm"),
        key_id: s(name),
        algorithm: s("ES256"),
        public_jwk: format!(
            "{{\"kty\":\"EC\",\"crv\":\"P-256\",\"x\":\"{}\",\"y\":\"{}\",\"alg\":\"ES256\",\"use\":\"sig\"}}",
            x, y
        ),
    }
}

// Names

#[test]
fn names_carry_the_label_behind_the_prefix() {
    assert_eq!(make_key_name("signing-key", false), "hwkey-signing-key");
    assert_eq!(make_key_name("signing-key", true), "hwkey-bio-signing-key");
    assert_eq!(make_key_name("", false), "hwkey-");
    assert_eq!(make_key_name("ключ", true), "hwkey-bio-ключ");
}

#[test]
fn names_of_both_sorts_meet_only_behind_bio() {
    assert_ne!(make_key_name("a", false), make_key_name("b", false));
    assert_ne!(make_key_name("a", false), make_key_name("a", true));
    assert_eq!(make_key_name("bio-a", false), make_key_name("a", true));
}

// Discovery

#[test]
fn provider_name_is_that_of_the_platform() {
    assert_eq!(PLATFORM_PROVIDER, "Microsoft Platform Crypto Provider");
    match discover() {
        Progress::Pending { call: Call::OpenProvider { wide_name }, .. } => {
            assert_eq!(wide_name.len(), 35);
            assert_eq!(wide_name[0], 77);
            assert_eq!(wide_name[33], 114);
            assert_eq!(wide_name[34], 0);
        }
        _ => panic!("discovery opens the provider"),
    }
}

#[test]
fn discovery_describes_the_backend() {
    let (events, end) = run(discover(), vec![handle(5)]);
    assert_eq!(events, vec![opens_provider(), frees(5)]);
    assert_eq!(
        end,
        End::Yields(Some(HardwareKeyInfo {
            backend: s("windows-tpm"),
            description: s("Windows TPM 2.0 (Microsoft Platform Crypto Provider)"),
            algorithms: vec![s("ES256")],
            device_id: s("local"),
        }))
    );
}

#[test]
fn discovery_finds_nothing_without_a_provider() {
    let (events, end) = run(discover(), vec![failed("not supported")]);
    assert_eq!(events, vec![opens_provider()]);
    assert_eq!(end, End::Yields(None));
}

#[test]
fn zero_handle_is_not_freed() {
    let (events, _) = run(discover(), vec![handle(0)]);
    assert_eq!(events, vec![opens_provider()]);
}

// Generation

fn generate(require_biometric: bool, policy: DuplicateLabelPolicy, replies: Vec<Reply>) -> (
    Vec<Event>,
    End<GeneratedKey>,
) {
    run(generate_key("signing-key", "ES256", require_biometric, policy), replies)
}

#[test]
fn other_algorithms_are_refused_without_a_call() {
    for algorithm in ["RS256", "es256", "ES256 ", ""] {
        let start = generate_key("k", algorithm, true, DuplicateLabelPolicy::Replace);
        let (events, end) = run(start, vec![]);
        assert_eq!(events, vec![]);
        assert_eq!(end, End::Fails(reason("TPM Windows backend only supports ES256 (P-256)")));
    }
}

#[test]
fn new_key_is_created_finalized_and_exported() {
    let (events, end) = generate(
        false,
        DuplicateLabelPolicy::Error,
        vec![
            handle(1),
            failed("no such key"),
            handle(2),
            handle(3),
            Reply::Success,
            size(10),
            blob(0xff, 0xfb),
        ],
    );
    assert_eq!(
        events,
        vec![
            opens_provider(),
            opens_key(1, "hwkey-signing-key"),
            frees(1),
            opens_provider(),
            creates_key(2, "hwkey-signing-key"),
            Event::Calls(Call::FinalizeKey { key: 3 }),
            asks_export_size(3),
            exports(3, 10),
            frees(3),
            frees(2),
        ]
    );
    assert_eq!(end, End::Yields(key("hwkey-signing-key", "_w", "-w")));
}

#[test]
fn biometric_key_is_created_after_the_check() {
    let (events, end) = generate(
        true,
        DuplicateLabelPolicy::Error,
        vec![
            checked(Availability::Available),
            failed("no provider yet"),
            handle(2),
            handle(3),
            Reply::Success,
            size(10),
            blob(1, 2),
        ],
    );
    assert_eq!(
        events,
        vec![
            Event::Calls(Call::CheckHello),
            opens_provider(),
            opens_provider(),
            creates_key(2, "hwkey-bio-signing-key"),
            Event::Calls(Call::FinalizeKey { key: 3 }),
            asks_export_size(3),
            exports(3, 10),
            frees(3),
            frees(2),
        ]
    );
    assert_eq!(end, End::Yields(key("hwkey-bio-signing-key", "AQ", "Ag")));
}

#[test]
fn no_biometric_key_without_hello() {
    let missing = "Windows Hello is not configured for this user. Set up a PIN or biometric in \
                   Windows Settings before creating a biometric-gated key.";
    for reply in [
        checked(Availability::NotConfiguredForUser),
        checked(Availability::DeviceBusy),
        Reply::Availability { availability: AvailabilityReport::ThreadDied },
        Reply::Availability { availability: AvailabilityReport::CheckFailed },
        Reply::Availability { availability: AvailabilityReport::WaitFailed },
    ] {
        let (events, end) = generate(true, DuplicateLabelPolicy::Replace, vec![reply]);
        assert_eq!(events, vec![Event::Calls(Call::CheckHello)]);
        assert_eq!(end, End::Fails(reason(missing)));
    }
}

#[test]
fn existing_key_is_returned_as_it_is() {
    let (events, end) = generate(
        false,
        DuplicateLabelPolicy::Error,
        vec![handle(1), handle(2), handle(3), handle(4), size(10), blob(3, 4)],
    );
    assert_eq!(
        events,
        vec![
            opens_provider(),
            opens_key(1, "hwkey-signing-key"),
            frees(1),
            frees(2),
            opens_provider(),
            opens_key(3, "hwkey-signing-key"),
            frees(3),
            asks_export_size(4),
            exports(4, 10),
            frees(4),
        ]
    );
    assert_eq!(end, End::Yields(key("hwkey-signing-key", "Aw", "BA")));
}

#[test]
fn existing_key_is_deleted_before_it_is_replaced() {
    let (events, end) = generate(
        true,
        DuplicateLabelPolicy::Replace,
        vec![
            checked(Availability::Available),
            handle(1),
            handle(2),
            handle(3),
            handle(4),
            Reply::Success,
            handle(5),
            handle(6),
            Reply::Success,
            size(10),
            blob(0, 0),
        ],
    );
    assert_eq!(
        events,
        vec![
            Event::Calls(Call::CheckHello),
            opens_provider(),
            opens_key(1, "hwkey-bio-signing-key"),
            frees(1),
            frees(2),
            opens_provider(),
            opens_key(3, "hwkey-bio-signing-key"),
            frees(3),
            Event::Calls(Call::DeleteKey { key: 4 }),
            opens_provider(),
            creates_key(5, "hwkey-bio-signing-key"),
            Event::Calls(Call::FinalizeKey { key: 6 }),
            asks_export_size(6),
            exports(6, 10),
            frees(6),
            frees(5),
        ]
    );
    assert_eq!(end, End::Yields(key("hwkey-bio-signing-key", "AA", "AA")));
}

#[test]
fn key_that_cannot_be_deleted_is_not_replaced() {
    let (events, end) = generate(
        false,
        DuplicateLabelPolicy::Replace,
        vec![handle(1), handle(2), handle(3), handle(4), failed("denied")],
    );
    assert_eq!(events.last(), Some(&Event::Calls(Call::DeleteKey { key: 4 })));
    assert_eq!(end, End::Fails(reason("NCryptDeleteKey failed: denied")));

    let (events, end) = generate(
        false,
        DuplicateLabelPolicy::Replace,
        vec![handle(1), handle(2), handle(3), failed("gone")],
    );
    assert_eq!(events.last(), Some(&frees(3)));
    assert_eq!(end, End::Fails(reason("Key not found for key_id: 'hwkey-signing-key'")));
}

#[test]
fn existing_key_that_cannot_be_read_is_an_error() {
    let (events, end) = generate(
        false,
        DuplicateLabelPolicy::Error,
        vec![handle(1), handle(2), handle(3), failed("busy")],
    );
    assert_eq!(events.last(), Some(&frees(3)));
    assert_eq!(end, End::Fails(reason("NCryptOpenKey failed for 'hwkey-signing-key': busy")));
}

#[test]
fn failures_of_creation_are_reported() {
    let missing = || vec![handle(1), failed("no such key")];
    let attempt = |more: Vec<Reply>| {
        let mut replies = missing();
        replies.extend(more);
        generate(false, DuplicateLabelPolicy::Error, replies)
    };

    let (events, end) = attempt(vec![failed("no tpm")]);
    assert_eq!(events.last(), Some(&opens_provider()));
    assert_eq!(end, End::Fails(reason("NCryptOpenStorageProvider failed: no tpm")));

    let (events, end) = attempt(vec![handle(2), failed("exists")]);
    assert_eq!(events.last(), Some(&frees(2)));
    assert_eq!(end, End::Fails(reason("NCryptCreatePersistedKey failed: exists")));

    let (events, end) = attempt(vec![handle(2), handle(3), failed("silent")]);
    assert_eq!(events[events.len() - 2..], [frees(3), frees(2)]);
    assert_eq!(end, End::Fails(reason("NCryptFinalizeKey failed: silent")));

    let (events, end) = attempt(vec![handle(2), handle(3), Reply::Success, failed("no")]);
    assert_eq!(events[events.len() - 2..], [frees(3), frees(2)]);
    assert_eq!(end, End::Fails(reason("NCryptExportKey (size) failed: no")));

    let (_, end) = attempt(vec![handle(2), handle(3), Reply::Success, size(10), failed("no")]);
    assert_eq!(end, End::Fails(reason("NCryptExportKey failed: no")));

    let (_, end) = attempt(vec![
        handle(2),
        handle(3),
        Reply::Success,
        size(10),
        Reply::Data { bytes: vec![0; 10], written: 7 },
    ]);
    assert_eq!(end, End::Fails(reason("ECCPUBLIC blob too short")));

    let (_, end) = attempt(vec![
        handle(2),
        handle(3),
        Reply::Success,
        size(10),
        Reply::Data { bytes: vec![0, 0, 0, 0, 2, 0, 0, 0, 1, 2, 3], written: 11 },
    ]);
    assert_eq!(end, End::Fails(reason("ECCPUBLIC blob truncated")));
}

// Signing

#[test]
fn plain_key_signs_at_once() {
    let (events, end) = run(
        sign_hash("hwkey-signing-key", &[1, 2, 3]),
        vec![
            handle(1),
            handle(2),
            size(4),
            Reply::Data { bytes: vec![9, 8, 7, 6], written: 4 },
        ],
    );
    assert_eq!(
        events,
        vec![
            opens_provider(),
            opens_key(1, "hwkey-signing-key"),
            frees(1),
            Event::Calls(Call::SignSize { key: 2, hash: vec![1, 2, 3] }),
            Event::Calls(Call::Sign { key: 2, hash: vec![1, 2, 3], capacity: 4 }),
            frees(2),
        ]
    );
    assert_eq!(
        end,
        End::Yields(SignatureResult { signature: vec![9, 8, 7, 6], algorithm: s("ES256") })
    );
}

#[test]
fn biometric_key_signs_after_consent() {
    let (events, end) = run(
        sign_hash("hwkey-bio-signing-key", &[5]),
        vec![
            prompted(ConsentResult::Verified),
            handle(1),
            handle(2),
            size(64),
            Reply::Data { bytes: vec![4; 64], written: 64 },
        ],
    );
    assert_eq!(
        events[0],
        Event::Calls(Call::RequestConsent {
            reason: s("Authenticate to sign with key 'hwkey-bio-signing-key'"),
        })
    );
    assert_eq!(events[1..3], [opens_provider(), opens_key(1, "hwkey-bio-signing-key")]);
    assert_eq!(
        end,
        End::Yields(SignatureResult { signature: vec![4; 64], algorithm: s("ES256") })
    );
}

#[test]
fn refused_consent_ends_signing() {
    let (events, end) =
        run(sign_hash("hwkey-bio-k", &[5]), vec![prompted(ConsentResult::Canceled)]);
    assert_eq!(events.len(), 1);
    assert_eq!(
        end,
        End::Fails(Error::KeyOperation {
            operation: s("hello_request_verification"),
            detail: s("User cancelled Windows Hello verification"),
        })
    );

    let (events, end) = run(
        sign_hash("hwkey-bio-k", &[5]),
        vec![Reply::Consent { consent: ConsentReport::ThreadDied }],
    );
    assert_eq!(events.len(), 1);
    assert_eq!(end, End::Fails(reason("STA thread died")));
}

#[test]
fn consent_goes_by_the_name_of_the_key() {
    let asks = |key_id: &str| match sign_hash(key_id, &[]) {
        Progress::Pending { call: Call::RequestConsent { .. }, .. } => true,
        Progress::Pending { call: Call::OpenProvider { .. }, .. } => false,
        _ => panic!("signing starts with the prompt or the provider"),
    };
    assert!(asks("hwkey-bio-"));
    assert!(asks("hwkey-bio-hwkey-"));
    assert!(asks(&make_key_name("bio-a", false)));
    assert!(!asks("hwkey-bio"));
    assert!(!asks("hwkey-signing-key"));
    assert!(!asks("HWKEY-BIO-k"));
    assert!(!asks("xhwkey-bio-k"));
    assert!(!asks(""));
}

/// How often an operation asks Windows Hello.
fn prompts(events: &[Event]) -> usize {
    events
        .iter()
        .filter(|event| {
            matches!(event, Event::Calls(Call::CheckHello | Call::RequestConsent { .. }))
        })
        .count()
}

#[test]
fn signing_prompts_once_for_a_biometric_key_and_never_for_another() {
    let granted = || {
        vec![
            handle(1),
            handle(2),
            size(2),
            Reply::Data { bytes: vec![1, 2], written: 2 },
        ]
    };
    let (events, plain) = run(sign_hash("hwkey-k", &[1]), granted());
    assert_eq!(prompts(&events), 0);

    let mut replies = vec![prompted(ConsentResult::Verified)];
    replies.extend(granted());
    let (events, guarded) = run(sign_hash("hwkey-bio-k", &[1]), replies);
    assert_eq!(prompts(&events), 1);
    assert_eq!(plain, guarded);
}

#[test]
fn long_hashes_are_handed_on() {
    let hash = vec![7; 100_000];
    let (events, end) = run(sign_hash("hwkey-k", &hash), vec![handle(1), handle(2)]);
    assert_eq!(events.last(), Some(&Event::Calls(Call::SignSize { key: 2, hash })));
    assert_eq!(end, End::Waits);
}

#[test]
fn generated_key_signs_by_its_identifier() {
    let (_, end) = generate(
        false,
        DuplicateLabelPolicy::Error,
        vec![handle(1), handle(2), handle(3), handle(4), size(10), blob(1, 1)],
    );
    let key = match end {
        End::Yields(key) => key,
        _ => panic!("the existing key is read"),
    };
    let (events, end) = run(
        sign_hash(&key.key_id, &[5, 6]),
        vec![handle(8), handle(9), size(1), Reply::Data { bytes: vec![3], written: 1 }],
    );
    assert_eq!(events[1], opens_key(8, "hwkey-signing-key"));
    assert_eq!(
        events[4],
        Event::Calls(Call::Sign { key: 9, hash: vec![5, 6], capacity: 1 })
    );
    match end {
        End::Yields(result) => assert_eq!(result.algorithm, key.algorithm),
        _ => panic!("signing succeeds"),
    }
}

#[test]
fn generated_biometric_key_asks_when_it_signs() {
    let (_, end) = generate(
        true,
        DuplicateLabelPolicy::Error,
        vec![
            checked(Availability::Available),
            handle(1),
            handle(2),
            handle(3),
            handle(4),
            size(10),
            blob(1, 1),
        ],
    );
    match end {
        End::Yields(key) => {
            let (events, _) = run(sign_hash(&key.key_id, &[1]), vec![]);
            assert_eq!(
                events,
                vec![Event::Calls(Call::RequestConsent {
                    reason: s("Authenticate to sign with key 'hwkey-bio-signing-key'"),
                })]
            );
        }
        _ => panic!("the existing key is read"),
    }
}

#[test]
fn signature_is_cut_to_what_was_written() {
    let sign = |bytes: Vec<u8>, written: u32| {
        let (_, end) = run(
            sign_hash("hwkey-k", &[1]),
            vec![handle(1), handle(2), size(3), Reply::Data { bytes, written }],
        );
        match end {
            End::Yields(result) => result.signature,
            _ => panic!("signing succeeds"),
        }
    };
    assert_eq!(sign(vec![1, 2, 3], 2), vec![1, 2]);
    assert_eq!(sign(vec![1, 2, 3], 0), vec![]);
    assert_eq!(sign(vec![1, 2, 3], 4), vec![1, 2, 3]);
}

#[test]
fn failures_of_signing_are_reported() {
    let (events, end) = run(sign_hash("hwkey-k", &[1]), vec![failed("no tpm")]);
    assert_eq!(events, vec![opens_provider()]);
    assert_eq!(end, End::Fails(reason("NCryptOpenStorageProvider failed: no tpm")));

    let (events, end) = run(sign_hash("hwkey-k", &[1]), vec![handle(1), failed("no key")]);
    assert_eq!(events, vec![opens_provider(), opens_key(1, "hwkey-k"), frees(1)]);
    assert_eq!(end, End::Fails(reason("NCryptOpenKey failed for 'hwkey-k': no key")));

    let (events, end) =
        run(sign_hash("hwkey-k", &[1]), vec![handle(1), handle(2), failed("bad hash")]);
    assert_eq!(events.last(), Some(&frees(2)));
    assert_eq!(end, End::Fails(reason("NCryptSignHash (size query) failed: bad hash")));

    let (events, end) =
        run(sign_hash("hwkey-k", &[1]), vec![handle(1), handle(2), size(64), failed("locked")]);
    assert_eq!(events.last(), Some(&frees(2)));
    assert_eq!(end, End::Fails(reason("NCryptSignHash failed: locked")));
}

// Listing

fn enumerates(provider: usize, cursor: usize) -> Event {
    Event::Calls(Call::EnumKeys { provider, cursor })
}

#[test]
fn managed_keys_are_listed_in_order() {
    let (events, end) = run(
        list_keys(),
        vec![
            handle(1),
            named(70, 71, "hwkey-a"),
            handle(2),
            handle(3),
            size(10),
            blob(1, 2),
            named(72, 73, "hwkey-bio-b"),
            handle(4),
            handle(5),
            size(10),
            blob(3, 4),
            Reply::Ended { cursor: 74 },
        ],
    );
    assert_eq!(
        events,
        vec![
            opens_provider(),
            enumerates(1, 0),
            frees_buffer(71),
            opens_provider(),
            opens_key(2, "hwkey-a"),
            frees(2),
            asks_export_size(3),
            exports(3, 10),
            frees(3),
            enumerates(1, 70),
            frees_buffer(73),
            opens_provider(),
            opens_key(4, "hwkey-bio-b"),
            frees(4),
            asks_export_size(5),
            exports(5, 10),
            frees(5),
            enumerates(1, 72),
            frees_buffer(74),
            frees(1),
        ]
    );
    assert_eq!(
        end,
        End::Yields(vec![key("hwkey-a", "AQ", "Ag"), key("hwkey-bio-b", "Aw", "BA")])
    );
}

#[test]
fn keys_of_others_are_passed_over() {
    let (events, end) = run(
        list_keys(),
        vec![
            handle(1),
            named(70, 71, "someone-else"),
            named(70, 72, "HWKEY-a"),
            named(70, 73, "hwkey"),
            named(70, 74, ""),
            Reply::Named { cursor: 70, address: 75, name: None },
            Reply::Named { cursor: 70, address: 0, name: None },
            Reply::Named { cursor: 70, address: 0, name: Some(s("hwkey-a")) },
            Reply::Ended { cursor: 70 },
        ],
    );
    assert_eq!(
        events,
        vec![
            opens_provider(),
            enumerates(1, 0),
            frees_buffer(71),
            enumerates(1, 70),
            frees_buffer(72),
            enumerates(1, 70),
            frees_buffer(73),
            enumerates(1, 70),
            frees_buffer(74),
            enumerates(1, 70),
            frees_buffer(75),
            enumerates(1, 70),
            enumerates(1, 70),
            enumerates(1, 70),
            frees_buffer(70),
            frees(1),
        ]
    );
    assert_eq!(end, End::Yields(vec![]));
}

#[test]
fn keys_that_cannot_be_read_are_passed_over() {
    let (_, end) = run(
        list_keys(),
        vec![
            handle(1),
            named(70, 71, "hwkey-a"),
            failed("no provider"),
            named(70, 71, "hwkey-b"),
            handle(2),
            failed("no key"),
            named(70, 71, "hwkey-c"),
            handle(2),
            handle(3),
            size(3),
            Reply::Data { bytes: vec![1, 2, 3], written: 3 },
            named(70, 71, "hwkey-d"),
            handle(2),
            handle(3),
            size(10),
            blob(5, 6),
            Reply::Ended { cursor: 0 },
        ],
    );
    assert_eq!(end, End::Yields(vec![key("hwkey-d", "BQ", "Bg")]));
}

#[test]
fn enumeration_that_ends_at_once_lists_nothing() {
    let (events, end) = run(list_keys(), vec![handle(1), Reply::Ended { cursor: 0 }]);
    assert_eq!(events, vec![opens_provider(), enumerates(1, 0), frees(1)]);
    assert_eq!(end, End::Yields(vec![]));
}

#[test]
fn listing_fails_without_a_provider() {
    let (events, end) = run(list_keys(), vec![failed("no tpm")]);
    assert_eq!(events, vec![opens_provider()]);
    assert_eq!(end, End::Fails(reason("NCryptOpenStorageProvider failed: no tpm")));
}

// Deletion

#[test]
fn deleted_handle_is_not_freed() {
    let (events, end) =
        run(delete_key("hwkey-signing-key"), vec![handle(1), handle(2), Reply::Success]);
    let made = vec![
        opens_provider(),
        opens_key(1, "hwkey-signing-key"),
        frees(1),
        Event::Calls(Call::DeleteKey { key: 2 }),
    ];
    assert_eq!(events, made);
    assert_eq!(end, End::Yields(()));

    let (events, end) =
        run(delete_key("hwkey-signing-key"), vec![handle(1), handle(2), failed("denied")]);
    assert_eq!(events, made);
    assert_eq!(end, End::Fails(reason("NCryptDeleteKey failed: denied")));
}

#[test]
fn key_that_cannot_be_opened_is_not_found() {
    let not_found = || End::Fails(reason("Key not found for key_id: 'hwkey-k'"));

    let (events, end) = run(delete_key("hwkey-k"), vec![failed("no tpm")]);
    assert_eq!(events, vec![opens_provider()]);
    assert_eq!(end, not_found());

    let (events, end) = run(delete_key("hwkey-k"), vec![handle(1), failed("no key")]);
    assert_eq!(events, vec![opens_provider(), opens_key(1, "hwkey-k"), frees(1)]);
    assert_eq!(end, not_found());
}

// The conversation

#[test]
fn calls_that_might_show_a_dialog_are_silent() {
    let name = || s("hwkey-k");
    assert!(Call::OpenKey { provider: 1, name: name() }.is_silent());
    assert!(Call::CreateKey { provider: 1, algorithm: s("ECDSA_P256"), name: name() }.is_silent());
    assert!(Call::FinalizeKey { key: 1 }.is_silent());
    assert!(Call::EnumKeys { provider: 1, cursor: 0 }.is_silent());
    assert!(!Call::OpenProvider { wide_name: vec![0] }.is_silent());
    assert!(!Call::ExportSize { key: 1, blob_type: s("ECCPUBLICBLOB") }.is_silent());
    assert!(!Call::Export { key: 1, blob_type: s("ECCPUBLICBLOB"), capacity: 1 }.is_silent());
    assert!(!Call::SignSize { key: 1, hash: vec![] }.is_silent());
    assert!(!Call::Sign { key: 1, hash: vec![], capacity: 1 }.is_silent());
    assert!(!Call::DeleteKey { key: 1 }.is_silent());
    assert!(!Call::CheckHello.is_silent());
    assert!(!Call::RequestConsent { reason: s("") }.is_silent());
}

#[test]
fn replies_of_the_wrong_kind_are_not_accepted() {
    match list_keys() {
        Progress::Pending { machine, .. } => {
            assert!(machine.accepts(&handle(1)));
            assert!(machine.accepts(&failed("no")));
            assert!(!machine.accepts(&Reply::Success));
            assert!(!machine.accepts(&size(1)));
            assert!(!machine.accepts(&blob(1, 2)));
            assert!(!machine.accepts(&named(1, 2, "hwkey-k")));
            assert!(!machine.accepts(&Reply::Ended { cursor: 0 }));
            assert!(!machine.accepts(&checked(Availability::Available)));
            assert!(!machine.accepts(&prompted(ConsentResult::Verified)));
            match machine.step(handle(1)) {
                Progress::Pending { machine, .. } => {
                    assert!(machine.accepts(&named(1, 2, "hwkey-k")));
                    assert!(machine.accepts(&Reply::Ended { cursor: 0 }));
                    assert!(!machine.accepts(&failed("no")));
                    assert!(!machine.accepts(&handle(1)));
                }
                _ => panic!("the enumeration starts"),
            }
        }
        _ => panic!("listing opens the provider"),
    }
}
