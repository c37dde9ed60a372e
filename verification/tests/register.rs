use usque_rs::account::{
    Account, AccountData, Addresses, ApiError, Endpoint, ErrorInfo, Interface, Peer, WarpConfig,
};
use usque_rs::clock::{cf_time_string, cf_time_text, UtcTime};
use usque_rs::failure::{rejection_message, ApiFailure, Operation};
use usque_rs::headers::default_headers;
use usque_rs::register::{
    accepted, after_send, enrollment_request, prepare_enrollment, prepare_registration,
    refusal_text, refused, registration_of, registration_request, Method, ReplyPart,
};

fn account() -> AccountData {
    AccountData {
        id: "t.1234".to_string(),
        token: "tok-5678".to_string(),
        account: Account {
            id: "acc".to_string(),
            license: None,
        },
        config: WarpConfig {
            peers: vec![Peer {
                public_key: "pk".to_string(),
                endpoint: Endpoint {
                    v4: "162.159.198.1:0".to_string(),
                    v6: "[2606:4700:103::1]:0".to_string(),
                },
            }],
            interface: Interface {
                addresses: Addresses {
                    v4: "172.16.0.2".to_string(),
                    v6: "2606:4700:110::2".to_string(),
                },
            },
        },
    }
}

fn time(year: i32, second: u32, nanosecond: u32) -> UtcTime {
    UtcTime {
        year,
        month: 2,
        day: 9,
        hour: 3,
        minute: 4,
        second,
        nanosecond,
    }
}

#[test]
fn default_headers_are_the_four_of_the_client() {
    let headers = default_headers();
    assert_eq!(headers.len(), 4);
    assert_eq!(headers.get("User-Agent").unwrap(), "WARP for Android");
    assert_eq!(headers.get("cf-client-version").unwrap(), "a-6.35-4471");
    assert_eq!(
        headers.get("content-type").unwrap(),
        "application/json; charset=UTF-8"
    );
    assert_eq!(headers.get("connection").unwrap(), "Keep-Alive");
}

#[test]
fn acceptance_time_is_written_in_utc_with_milliseconds() {
    assert_eq!(
        cf_time_text(&time(2024, 5, 42_999_999)),
        "2024-02-09T03:04:05.042+00:00"
    );
    assert_eq!(
        cf_time_text(&time(33, 0, 0)),
        "0033-02-09T03:04:00.000+00:00"
    );
}

#[test]
fn acceptance_time_of_a_leap_second_has_second_sixty() {
    assert_eq!(
        cf_time_text(&time(2016, 59, 1_500_000_000)),
        "2016-02-09T03:04:60.500+00:00"
    );
}

#[test]
fn acceptance_time_outside_four_digits_has_a_sign() {
    assert_eq!(
        cf_time_text(&time(12024, 5, 0)),
        "+12024-02-09T03:04:05.000+00:00"
    );
    assert_eq!(
        cf_time_text(&time(-4, 5, 0)),
        "-0004-02-09T03:04:05.000+00:00"
    );
}

#[test]
fn acceptance_times_sort_as_they_follow_each_other() {
    let times = [
        time(33, 0, 0),
        time(2024, 5, 42_000_000),
        time(2024, 5, 43_000_000),
        time(2024, 6, 0),
        time(2024, 59, 999_000_000),
        time(2024, 59, 1_000_000_000),
        time(9999, 0, 0),
    ];
    for pair in times.windows(2) {
        assert!(cf_time_text(&pair[0]) < cf_time_text(&pair[1]));
    }
}

#[test]
fn acceptance_times_are_told_apart_by_the_millisecond() {
    let text = cf_time_text(&time(2024, 5, 42_000_000));
    assert_eq!(text, cf_time_text(&time(2024, 5, 42_999_999)));
    assert_ne!(text, cf_time_text(&time(2024, 5, 43_000_000)));
    assert_ne!(text, cf_time_text(&time(2023, 5, 42_000_000)));
}

#[test]
fn acceptance_time_reads_back() {
    for (year, shown) in [(1970, "1970"), (31999, "+31999"), (-12, "-0012")] {
        let text = cf_time_text(&time(year, 5, 42_999_999));
        let rest = text.len() - 25;
        assert_eq!(&text[..rest], shown);
        assert_eq!(text[..rest].parse::<i32>().unwrap(), year);
        assert_eq!(text[rest + 1..rest + 3].parse::<u32>().unwrap(), 2);
        assert_eq!(text[rest + 4..rest + 6].parse::<u32>().unwrap(), 9);
        assert_eq!(text[rest + 7..rest + 9].parse::<u32>().unwrap(), 3);
        assert_eq!(text[rest + 10..rest + 12].parse::<u32>().unwrap(), 4);
        assert_eq!(text[rest + 13..rest + 15].parse::<u32>().unwrap(), 5);
        assert_eq!(text[rest + 16..rest + 19].parse::<u32>().unwrap(), 42);
    }
}

#[test]
fn present_acceptance_time_has_the_form_of_one() {
    let text = cf_time_string();
    assert_eq!(text.len(), 29);
    assert!(text.ends_with("+00:00"));
    assert_eq!(&text[4..5], "-");
    assert_eq!(&text[10..11], "T");
    assert!(text[..4].parse::<u32>().unwrap() >= 2024);
}

#[test]
fn registration_request_holds_what_was_given() {
    let request = registration_request(
        "key".to_string(),
        "serial".to_string(),
        "tos".to_string(),
        "Pixel",
        "en_US",
        None,
    );
    assert_eq!(request.method, Method::Post);
    assert_eq!(
        request.url,
        "https://api.cloudflareclient.com/v0a4471/reg"
    );
    assert!(request.header.is_none());
    let body = request.body;
    assert_eq!(body.key, "key");
    assert_eq!(body.install_id, "");
    assert_eq!(body.fcm_token, "");
    assert_eq!(body.tos, "tos");
    assert_eq!(body.model, "Pixel");
    assert_eq!(body.serial_number, "serial");
    assert_eq!(body.os_version, "");
    assert_eq!(body.key_type, "curve25519");
    assert_eq!(body.tunnel_type, "wireguard");
    assert_eq!(body.locale, "en_US");
}

#[test]
fn registration_request_carries_the_assertion_that_was_given() {
    let request = registration_request(
        String::new(),
        String::new(),
        String::new(),
        "PC",
        "de_DE",
        Some("ey.J"),
    );
    let header = request.header.unwrap();
    assert_eq!(header.name, "CF-Access-Jwt-Assertion");
    assert_eq!(header.value, "ey.J");
}

#[test]
fn prepared_registrations_have_fresh_keys_and_serials() {
    let a = prepare_registration(true, "PC", "en_US", None).unwrap();
    let b = prepare_registration(true, "PC", "en_US", Some("jwt")).unwrap();
    assert_eq!(a.url, b.url);
    assert!(a.header.is_none());
    assert_eq!(b.header.unwrap().value, "jwt");
    for body in [&a.body, &b.body] {
        assert_eq!(body.key.len(), 44);
        assert!(body.key.ends_with('='));
        assert_eq!(body.serial_number.len(), 16);
        assert!(body
            .serial_number
            .chars()
            .all(|c| c.is_ascii_digit() || ('a'..='f').contains(&c)));
        assert_eq!(body.tos.len(), 29);
        assert_eq!(body.model, "PC");
    }
    assert_ne!(a.body.key, b.body.key);
    assert_ne!(a.body.serial_number, b.body.serial_number);
}

#[test]
fn registration_of_given_draws_holds_their_texts() {
    let request = registration_of(
        true,
        Some([255; 32]),
        Some([0x0a; 8]),
        &time(2024, 5, 0),
        "PC",
        "en_US",
        Some("jwt"),
    )
    .unwrap();
    assert_eq!(
        request.body.key,
        "//////////////////////////////////////////8="
    );
    assert_eq!(request.body.serial_number, "0a0a0a0a0a0a0a0a");
    assert_eq!(request.body.tos, "2024-02-09T03:04:05.000+00:00");
    assert_eq!(request.header.unwrap().value, "jwt");
}

#[test]
fn registration_needs_a_client_and_both_draws() {
    let message = |client_built: bool, key: Option<[u8; 32]>, serial: Option<[u8; 8]>| {
        registration_of(
            client_built,
            key,
            serial,
            &time(2024, 5, 0),
            "PC",
            "en_US",
            None,
        )
        .unwrap_err()
        .message()
    };
    assert_eq!(
        message(false, Some([0; 32]), Some([0; 8])),
        "failed to build HTTP client"
    );
    assert_eq!(message(false, None, None), "failed to build HTTP client");
    assert_eq!(message(true, None, Some([0; 8])), "RNG failure");
    assert_eq!(message(true, Some([0; 32]), None), "RNG failure");
    assert_eq!(message(true, None, None), "RNG failure");
}

#[test]
fn nothing_is_prepared_without_a_client() {
    assert_eq!(
        prepare_registration(false, "PC", "en_US", None)
            .unwrap_err()
            .message(),
        "failed to build HTTP client"
    );
    assert_eq!(
        prepare_enrollment(false, &account(), &[1], None)
            .unwrap_err()
            .message(),
        "failed to build HTTP client"
    );
}

#[test]
fn prepared_enrollment_is_the_enrollment_request() {
    let request = prepare_enrollment(true, &account(), &[0, 0, 0], Some("laptop")).unwrap();
    assert_eq!(request.method, Method::Patch);
    assert_eq!(request.body.key, "AAAA");
    assert_eq!(request.body.name.as_deref(), Some("laptop"));
}

#[test]
fn enrollment_request_names_the_device_and_its_key() {
    let request = enrollment_request(&account(), b"\x30\x59\x30\x13", Some("laptop"));
    assert_eq!(request.method, Method::Patch);
    assert_eq!(
        request.url,
        "https://api.cloudflareclient.com/v0a4471/reg/t.1234"
    );
    let header = request.header.unwrap();
    assert_eq!(header.name, "Authorization");
    assert_eq!(header.value, "Bearer tok-5678");
    assert_eq!(request.body.key, "MFkwEw==");
    assert_eq!(request.body.key_type, "secp256r1");
    assert_eq!(request.body.tunnel_type, "masque");
    assert_eq!(request.body.name.as_deref(), Some("laptop"));
}

#[test]
fn enrollment_request_without_a_name_has_none() {
    let request = enrollment_request(&account(), &[], None);
    assert_eq!(request.body.name, None);
    assert_eq!(request.body.key, "");
}

#[test]
fn only_the_two_hundreds_are_successes() {
    for status in [200, 204, 299] {
        assert_eq!(
            after_send(Operation::Register, Some(status)).unwrap(),
            ReplyPart::Account
        );
    }
    for status in [100, 199, 300, 404, 503, 999] {
        assert_eq!(
            after_send(Operation::Enroll, Some(status)).unwrap(),
            ReplyPart::Refusal
        );
    }
}

#[test]
fn request_that_was_not_sent_fails() {
    let failure = after_send(Operation::Register, None).unwrap_err();
    assert_eq!(failure.message(), "registration request failed");
    let failure = after_send(Operation::Enroll, None).unwrap_err();
    assert_eq!(failure.message(), "enrollment request failed");
}

#[test]
fn account_of_a_reply_is_passed_on() {
    let outcome = accepted(Operation::Enroll, Some(account())).unwrap();
    assert_eq!(outcome.id, "t.1234");
    assert_eq!(outcome.config.interface.addresses.v4, "172.16.0.2");
}

#[test]
fn reply_without_an_account_fails() {
    let failure = accepted(Operation::Register, None).unwrap_err();
    assert_eq!(failure.message(), "failed to parse registration response");
    let failure = accepted(Operation::Enroll, None).unwrap_err();
    assert_eq!(failure.message(), "failed to parse enrollment response");
}

fn api_error(messages: &[&str]) -> ApiError {
    ApiError {
        errors: messages
            .iter()
            .map(|message| ErrorInfo {
                code: 1001,
                message: message.to_string(),
            })
            .collect(),
    }
}

#[test]
fn refused_registration_is_answered_with_status_and_body() {
    let failure = refused(
        Operation::Register,
        404,
        "no such thing".to_string(),
        Some(api_error(&["unread"])),
    );
    assert_eq!(
        failure.message(),
        "registration failed: 404 Not Found - no such thing"
    );
}

#[test]
fn refused_enrollment_is_answered_with_the_messages_of_the_api() {
    let body = "{}".to_string();
    let failure = refused(
        Operation::Enroll,
        403,
        body.clone(),
        Some(api_error(&["bad token", "bad key", "bad luck"])),
    );
    assert_eq!(
        failure.message(),
        "enrollment failed: 403 Forbidden - bad token; bad key; bad luck"
    );
    let failure = refused(Operation::Enroll, 403, body, Some(api_error(&["one"])));
    assert_eq!(failure.message(), "enrollment failed: 403 Forbidden - one");
}

#[test]
fn refused_enrollment_without_messages_says_nothing() {
    let failure = refused(
        Operation::Enroll,
        500,
        "body".to_string(),
        Some(api_error(&[])),
    );
    assert_eq!(
        failure.message(),
        "enrollment failed: 500 Internal Server Error - "
    );
}

#[test]
fn refused_enrollment_without_an_error_reply_is_answered_with_the_body() {
    let failure = refused(Operation::Enroll, 599, "oops".to_string(), None);
    assert_eq!(
        failure.message(),
        "enrollment failed: 599 <unknown status code> - oops"
    );
}

#[test]
fn refusal_that_cannot_be_read_is_empty() {
    assert_eq!(refusal_text(None), "");
    assert_eq!(refusal_text(Some("why".to_string())), "why");
}

#[test]
fn rejection_message_joins_its_parts() {
    assert_eq!(
        rejection_message(Operation::Register, "1 a", "b"),
        "registration failed: 1 a - b"
    );
}

#[test]
fn failures_before_a_request_have_their_messages() {
    assert_eq!(ApiFailure::Rng.message(), "RNG failure");
    assert_eq!(ApiFailure::Client.message(), "failed to build HTTP client");
}
