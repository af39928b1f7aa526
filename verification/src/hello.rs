//! Windows Hello: what the availability check and the consent prompt decide.
use vstd::prelude::*;

use crate::types::{Error, ErrorView};

verus! {

/// What `UserConsentVerifier` says about Windows Hello for the current user.
#[derive(Clone, Copy, Debug, PartialEq, Eq, Structural)]
pub enum Availability {
    Available,
    DeviceNotPresent,
    NotConfiguredForUser,
    DisabledByPolicy,
    DeviceBusy,
    Other { code: i32 },
}

/// How the availability check went.
#[derive(Clone, Copy, Debug, PartialEq, Eq, Structural)]
pub enum AvailabilityReport {
    /// The thread that ran the check ended without an answer.
    ThreadDied,
    /// The check could not be started.
    CheckFailed,
    /// The check was started and its result could not be awaited.
    WaitFailed,
    /// The check gave a result.
    Reported { availability: Availability },
}

/// Check whether Windows Hello (PIN or biometric) is configured for the current user.
/// A check that fails counts as unavailable.
pub fn hello_available(report: AvailabilityReport) -> (available: bool)
    ensures
        available == (report == AvailabilityReport::Reported {
            availability: Availability::Available,
        }),
{
    match report {
        AvailabilityReport::Reported { availability } => match availability {
            Availability::Available => true,
            _ => false,
        },
        _ => false,
    }
}

/// What the user made of the consent prompt.
#[derive(Debug, PartialEq, Eq)]
pub enum ConsentResult {
    Verified,
    DeviceNotPresent,
    NotConfiguredForUser,
    DisabledByPolicy,
    DeviceBusy,
    RetriesExhausted,
    Canceled,
    /// A result that has no name of its own, as it is printed for debugging.
    Other { debug: String },
}

/// The contents of a [`ConsentResult`].
pub enum ConsentResultView {
    Verified,
    DeviceNotPresent,
    NotConfiguredForUser,
    DisabledByPolicy,
    DeviceBusy,
    RetriesExhausted,
    Canceled,
    Other { debug: Seq<char> },
}

impl DeepView for ConsentResult {
    type V = ConsentResultView;

    open spec fn deep_view(&self) -> ConsentResultView {
        match self {
            ConsentResult::Verified => ConsentResultView::Verified,
            ConsentResult::DeviceNotPresent => ConsentResultView::DeviceNotPresent,
            ConsentResult::NotConfiguredForUser => ConsentResultView::NotConfiguredForUser,
            ConsentResult::DisabledByPolicy => ConsentResultView::DisabledByPolicy,
            ConsentResult::DeviceBusy => ConsentResultView::DeviceBusy,
            ConsentResult::RetriesExhausted => ConsentResultView::RetriesExhausted,
            ConsentResult::Canceled => ConsentResultView::Canceled,
            ConsentResult::Other { debug } => ConsentResultView::Other { debug: debug@ },
        }
    }
}

/// How the consent prompt went.
#[derive(Debug, PartialEq, Eq)]
pub enum ConsentAnswer {
    /// The prompt could not be shown.
    RequestFailed { message: String },
    /// The prompt was shown and its result could not be awaited.
    WaitFailed { message: String },
    /// The prompt gave a result.
    Answered { result: ConsentResult },
}

/// The contents of a [`ConsentAnswer`].
pub enum ConsentAnswerView {
    RequestFailed { message: Seq<char> },
    WaitFailed { message: Seq<char> },
    Answered { result: ConsentResultView },
}

impl DeepView for ConsentAnswer {
    type V = ConsentAnswerView;

    open spec fn deep_view(&self) -> ConsentAnswerView {
        match self {
            ConsentAnswer::RequestFailed { message } => ConsentAnswerView::RequestFailed {
                message: message@,
            },
            ConsentAnswer::WaitFailed { message } => ConsentAnswerView::WaitFailed {
                message: message@,
            },
            ConsentAnswer::Answered { result } => ConsentAnswerView::Answered {
                result: result.deep_view(),
            },
        }
    }
}

/// What came back from the thread that shows the prompt.
#[derive(Debug, PartialEq, Eq)]
pub enum ConsentReport {
    /// The thread ended without an answer.
    ThreadDied,
    /// The thread answered.
    Prompted { answer: ConsentAnswer },
}

/// The contents of a [`ConsentReport`].
pub enum ConsentReportView {
    ThreadDied,
    Prompted { answer: ConsentAnswerView },
}

impl DeepView for ConsentReport {
    type V = ConsentReportView;

    open spec fn deep_view(&self) -> ConsentReportView {
        match self {
            ConsentReport::ThreadDied => ConsentReportView::ThreadDied,
            ConsentReport::Prompted { answer } => ConsentReportView::Prompted {
                answer: answer.deep_view(),
            },
        }
    }
}

/// The failure of the prompt itself.
pub open spec fn prompt_failure(detail: Seq<char>) -> ErrorView {
    ErrorView::KeyOperation { operation: "hello_request_verification"@, detail }
}

/// Why an answer to the prompt is no consent; `None` where the user was verified.
pub open spec fn refusal(answer: ConsentAnswerView) -> Option<ErrorView> {
    match answer {
        ConsentAnswerView::RequestFailed { message } => Some(
            prompt_failure("UserConsentVerifier::RequestVerificationAsync: "@ + message),
        ),
        ConsentAnswerView::WaitFailed { message } => Some(
            ErrorView::KeyOperation {
                operation: "hello_await_result"@,
                detail: "UserConsentVerifier async wait: "@ + message,
            },
        ),
        ConsentAnswerView::Answered { result } => match result {
            ConsentResultView::Verified => None,
            ConsentResultView::DeviceNotPresent => Some(
                prompt_failure(
                    "Windows Hello is not configured for this user (DeviceNotPresent)"@,
                ),
            ),
            ConsentResultView::NotConfiguredForUser => Some(
                prompt_failure(
                    "Windows Hello is not configured for this user (NotConfiguredForUser)"@,
                ),
            ),
            ConsentResultView::DisabledByPolicy => Some(
                prompt_failure("Windows Hello is disabled by policy"@),
            ),
            ConsentResultView::DeviceBusy => Some(
                prompt_failure("Windows Hello device is busy; try again"@),
            ),
            ConsentResultView::RetriesExhausted => Some(
                prompt_failure("Windows Hello retries exhausted; user could not be verified"@),
            ),
            ConsentResultView::Canceled => Some(
                prompt_failure("User cancelled Windows Hello verification"@),
            ),
            ConsentResultView::Other { debug } => Some(
                prompt_failure("UserConsentVerifier returned unexpected result "@ + debug),
            ),
        },
    }
}

/// Why a report is no consent; `None` where the user was verified.
pub open spec fn report_refusal(report: ConsentReportView) -> Option<ErrorView> {
    match report {
        ConsentReportView::ThreadDied => Some(ErrorView::because("STA thread died"@)),
        ConsentReportView::Prompted { answer } => refusal(answer),
    }
}

/// The report of a prompt that the user passed.
pub open spec fn verified() -> ConsentReportView {
    ConsentReportView::Prompted {
        answer: ConsentAnswerView::Answered { result: ConsentResultView::Verified },
    }
}

fn fail_prompt(detail: String) -> (error: Error)
    ensures
        error.deep_view() == prompt_failure(detail@),
{
    Error::KeyOperation { operation: "hello_request_verification".to_owned(), detail }
}

/// Read the answer to the Hello biometric/PIN prompt. Returns `Ok(())`
/// on `Verified`; otherwise returns an `Error::KeyOperation` describing
/// why the verification did not succeed (user cancelled, device busy,
/// disabled by policy, etc.).
pub fn prompt_user_consent(answer: ConsentAnswer) -> (res: Result<(), Error>)
    ensures
        match res {
            Ok(_) => refusal(answer.deep_view()) is None,
            Err(error) => refusal(answer.deep_view()) == Some(error.deep_view()),
        },
{
    let detail: String = match answer {
        ConsentAnswer::RequestFailed { message } => {
            "UserConsentVerifier::RequestVerificationAsync: ".to_owned().concat(message.as_str())
        },
        ConsentAnswer::WaitFailed { message } => {
            return Err(
                Error::KeyOperation {
                    operation: "hello_await_result".to_owned(),
                    detail: "UserConsentVerifier async wait: ".to_owned().concat(message.as_str()),
                },
            );
        },
        ConsentAnswer::Answered { result } => match result {
            ConsentResult::Verified => {
                return Ok(());
            },
            ConsentResult::DeviceNotPresent => {
                "Windows Hello is not configured for this user (DeviceNotPresent)".to_owned()
            },
            ConsentResult::NotConfiguredForUser => {
                "Windows Hello is not configured for this user (NotConfiguredForUser)".to_owned()
            },
            ConsentResult::DisabledByPolicy => "Windows Hello is disabled by policy".to_owned(),
            ConsentResult::DeviceBusy => "Windows Hello device is busy; try again".to_owned(),
            ConsentResult::RetriesExhausted => {
                "Windows Hello retries exhausted; user could not be verified".to_owned()
            },
            ConsentResult::Canceled => "User cancelled Windows Hello verification".to_owned(),
            ConsentResult::Other { debug } => {
                "UserConsentVerifier returned unexpected result ".to_owned().concat(debug.as_str())
            },
        },
    };
    Err(fail_prompt(detail))
}

/// Read what came back from the prompt. Returns `Ok(())` on `Verified`,
/// `Err` on cancellation, device not present, policy disabled, or retries exhausted.
pub fn hello_verify(report: ConsentReport) -> (res: Result<(), Error>)
    ensures
        match res {
            Ok(_) => report_refusal(report.deep_view()) is None,
            Err(error) => report_refusal(report.deep_view()) == Some(error.deep_view()),
        },
{
    match report {
        ConsentReport::ThreadDied => Err(Error::from_reason("STA thread died")),
        ConsentReport::Prompted { answer } => prompt_user_consent(answer),
    }
}

/// Only a verified user counts as consent.
pub proof fn law_only_verified_is_consent(report: ConsentReportView)
    ensures
        report_refusal(report) is None <==> report == verified(),
{
}

/// The contents of a report are what came back.
pub proof fn law_report_shows_the_answer(report: ConsentReport)
    ensures
        match report {
            ConsentReport::ThreadDied => report.deep_view() == ConsentReportView::ThreadDied,
            ConsentReport::Prompted {
                answer: ConsentAnswer::RequestFailed { message },
            } => report.deep_view() == (ConsentReportView::Prompted {
                answer: ConsentAnswerView::RequestFailed { message: message@ },
            }),
            ConsentReport::Prompted {
                answer: ConsentAnswer::WaitFailed { message },
            } => report.deep_view() == (ConsentReportView::Prompted {
                answer: ConsentAnswerView::WaitFailed { message: message@ },
            }),
            ConsentReport::Prompted {
                answer: ConsentAnswer::Answered { result },
            } => report.deep_view() == (ConsentReportView::Prompted {
                answer: ConsentAnswerView::Answered { result: result.deep_view() },
            }),
        },
{
}

/// The contents of a result are the result.
pub proof fn law_result_is_shown(result: ConsentResult)
    ensures
        result.deep_view() is Verified <==> result is Verified,
        result.deep_view() is DeviceNotPresent <==> result is DeviceNotPresent,
        result.deep_view() is NotConfiguredForUser <==> result is NotConfiguredForUser,
        result.deep_view() is DisabledByPolicy <==> result is DisabledByPolicy,
        result.deep_view() is DeviceBusy <==> result is DeviceBusy,
        result.deep_view() is RetriesExhausted <==> result is RetriesExhausted,
        result.deep_view() is Canceled <==> result is Canceled,
        match result {
            ConsentResult::Other { debug } => result.deep_view() == (ConsentResultView::Other {
                debug: debug@,
            }),
            _ => true,
        },
{
}

/// A dead thread, and a prompt that could not be shown or awaited, are no consent; the error
/// names the step and ends with the message of the system.
pub proof fn law_failed_prompt_is_no_consent(message: Seq<char>)
    ensures
        report_refusal(ConsentReportView::ThreadDied) == Some(
            ErrorView::Reason { reason: "STA thread died"@ },
        ),
        report_refusal(
            ConsentReportView::Prompted { answer: ConsentAnswerView::RequestFailed { message } },
        ) == Some(
            ErrorView::KeyOperation {
                operation: "hello_request_verification"@,
                detail: "UserConsentVerifier::RequestVerificationAsync: "@ + message,
            },
        ),
        report_refusal(
            ConsentReportView::Prompted { answer: ConsentAnswerView::WaitFailed { message } },
        ) == Some(
            ErrorView::KeyOperation {
                operation: "hello_await_result"@,
                detail: "UserConsentVerifier async wait: "@ + message,
            },
        ),
{
}

/// Whether an answer is refused with a detail.
pub open spec fn is_refused_with(result: ConsentResultView, detail: Seq<char>) -> bool {
    report_refusal(
        ConsentReportView::Prompted { answer: ConsentAnswerView::Answered { result } },
    ) == Some(ErrorView::KeyOperation { operation: "hello_request_verification"@, detail })
}

/// A verified user has consented, and each other result is refused for its own reason.
pub proof fn law_each_result_has_its_reason(debug: Seq<char>)
    ensures
        report_refusal(
            ConsentReportView::Prompted {
                answer: ConsentAnswerView::Answered { result: ConsentResultView::Verified },
            },
        ) is None,
        is_refused_with(
            ConsentResultView::DeviceNotPresent,
            "Windows Hello is not configured for this user (DeviceNotPresent)"@,
        ),
        is_refused_with(
            ConsentResultView::NotConfiguredForUser,
            "Windows Hello is not configured for this user (NotConfiguredForUser)"@,
        ),
        is_refused_with(
            ConsentResultView::DisabledByPolicy,
            "Windows Hello is disabled by policy"@,
        ),
        is_refused_with(
            ConsentResultView::DeviceBusy,
            "Windows Hello device is busy; try again"@,
        ),
        is_refused_with(
            ConsentResultView::RetriesExhausted,
            "Windows Hello retries exhausted; user could not be verified"@,
        ),
        is_refused_with(
            ConsentResultView::Canceled,
            "User cancelled Windows Hello verification"@,
        ),
        is_refused_with(
            ConsentResultView::Other { debug },
            "UserConsentVerifier returned unexpected result "@ + debug,
        ),
{
}

/// What the thread that shows the prompt answered decides, and nothing else.
pub proof fn law_answer_of_the_thread_decides(answer: ConsentAnswerView)
    ensures
        report_refusal(ConsentReportView::Prompted { answer }) == refusal(answer),
{
}

} // verus!
