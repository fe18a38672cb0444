use localauthentication_rs::LAPolicy;
use localauthentication_rs::can_evaluate_outcome;
use localauthentication_rs::can_evaluate_request;
use localauthentication_rs::evaluate_outcome;
use localauthentication_rs::evaluate_request;

#[test]
fn capability_query_sends_the_policy_code() {
    assert_eq!(
        can_evaluate_request(LAPolicy::DeviceOwnerAuthenticationWithBiometrics),
        1
    );
    assert_eq!(can_evaluate_request(LAPolicy::DeviceOwnerAuthentication), 2);
    assert_eq!(
        can_evaluate_request(LAPolicy::DeviceOwnerAuthenticationWithWatch),
        3
    );
    assert_eq!(
        can_evaluate_request(LAPolicy::DeviceOwnerAuthenticationWithBiometricsOrWatch),
        4
    );
}

#[test]
fn challenge_request_sends_the_policy_code() {
    let request = evaluate_request(
        LAPolicy::DeviceOwnerAuthenticationWithBiometrics,
        String::from("authenticate your user"),
    );
    assert_eq!(request.policy_code, 1);
}

#[test]
fn challenge_request_keeps_the_reason_byte_identical() {
    let reason = "authenticate your user";
    let request = evaluate_request(LAPolicy::DeviceOwnerAuthentication, reason.to_string());
    assert_eq!(request.reason, reason);
    assert_eq!(request.reason.as_bytes(), reason.as_bytes());
}

#[test]
fn challenge_request_keeps_an_empty_reason() {
    let request = evaluate_request(LAPolicy::DeviceOwnerAuthenticationWithWatch, String::new());
    assert_eq!(request.reason, "");
    assert_eq!(request.policy_code, 3);
}

#[test]
fn challenge_request_keeps_a_non_ascii_reason() {
    let reason = "déverrouiller votre coffre";
    let request = evaluate_request(
        LAPolicy::DeviceOwnerAuthenticationWithBiometricsOrWatch,
        reason.to_string(),
    );
    assert_eq!(request.reason, reason);
    assert_eq!(request.policy_code, 4);
}

#[test]
fn capability_answer_true_passes_through() {
    assert!(can_evaluate_outcome(true));
}

#[test]
fn capability_answer_false_passes_through() {
    assert!(!can_evaluate_outcome(false));
}

#[test]
fn challenge_result_true_passes_through() {
    assert!(evaluate_outcome(true));
}

#[test]
fn challenge_result_false_passes_through() {
    assert!(!evaluate_outcome(false));
}
