use hardware_keys::hello::{
    hello_available, hello_verify, prompt_user_consent, Availability, AvailabilityReport,
    ConsentAnswer, ConsentReport, ConsentResult,
};
use hardware_keys::Error;

fn refused(detail: &str) -> Result<(), Error> {
    Err(Error::KeyOperation {
        operation: "hello_request_verification".to_string(),
        detail: detail.to_string(),
    })
}

fn answered(result: ConsentResult) -> Result<(), Error> {
    prompt_user_consent(ConsentAnswer::Answered { result })
}

#[test]
fn hello_is_available_only_when_it_says_so() {
    let reported = |availability| hello_available(AvailabilityReport::Reported { availability });
    assert!(reported(Availability::Available));
    assert!(!reported(Availability::DeviceNotPresent));
    assert!(!reported(Availability::NotConfiguredForUser));
    assert!(!reported(Availability::DisabledByPolicy));
    assert!(!reported(Availability::DeviceBusy));
    assert!(!reported(Availability::Other { code: 17 }));
}

#[test]
fn hello_check_that_fails_counts_as_unavailable() {
    assert!(!hello_available(AvailabilityReport::ThreadDied));
    assert!(!hello_available(AvailabilityReport::CheckFailed));
    assert!(!hello_available(AvailabilityReport::WaitFailed));
}

#[test]
fn only_a_verified_user_passes_the_prompt() {
    assert_eq!(answered(ConsentResult::Verified), Ok(()));
    assert_eq!(
        answered(ConsentResult::DeviceNotPresent),
        refused("Windows Hello is not configured for this user (DeviceNotPresent)")
    );
    assert_eq!(
        answered(ConsentResult::NotConfiguredForUser),
        refused("Windows Hello is not configured for this user (NotConfiguredForUser)")
    );
    assert_eq!(
        answered(ConsentResult::DisabledByPolicy),
        refused("Windows Hello is disabled by policy")
    );
    assert_eq!(
        answered(ConsentResult::DeviceBusy),
        refused("Windows Hello device is busy; try again")
    );
    assert_eq!(
        answered(ConsentResult::RetriesExhausted),
        refused("Windows Hello retries exhausted; user could not be verified")
    );
    assert_eq!(
        answered(ConsentResult::Canceled),
        refused("User cancelled Windows Hello verification")
    );
    assert_eq!(
        answered(ConsentResult::Other { debug: "UserConsentVerificationResult(9)".to_string() }),
        refused(
            "UserConsentVerifier returned unexpected result UserConsentVerificationResult(9)"
        )
    );
}

#[test]
fn prompt_that_cannot_be_shown_is_refused() {
    assert_eq!(
        prompt_user_consent(ConsentAnswer::RequestFailed { message: "no window".to_string() }),
        refused("UserConsentVerifier::RequestVerificationAsync: no window")
    );
}

#[test]
fn prompt_that_cannot_be_awaited_is_refused() {
    assert_eq!(
        prompt_user_consent(ConsentAnswer::WaitFailed { message: "lost".to_string() }),
        Err(Error::KeyOperation {
            operation: "hello_await_result".to_string(),
            detail: "UserConsentVerifier async wait: lost".to_string(),
        })
    );
}

#[test]
fn dead_thread_is_no_consent() {
    assert_eq!(
        hello_verify(ConsentReport::ThreadDied),
        Err(Error::Reason { reason: "STA thread died".to_string() })
    );
}

#[test]
fn report_of_the_prompt_is_passed_on() {
    assert_eq!(
        hello_verify(ConsentReport::Prompted {
            answer: ConsentAnswer::Answered { result: ConsentResult::Verified },
        }),
        Ok(())
    );
    assert_eq!(
        hello_verify(ConsentReport::Prompted {
            answer: ConsentAnswer::Answered { result: ConsentResult::Canceled },
        }),
        refused("User cancelled Windows Hello verification")
    );
}
