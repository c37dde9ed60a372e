//! Registration of a device and enrolment of its key: the requests, and what
//! becomes of the replies.
use crate::account::{AccountData, ApiError, ErrorInfo};
use crate::base64::{
    base64, base64_is_injective, base64_shows_all_bits, encode_block, shows_all_bits,
};
use crate::clock::{
    cf_time_string, cf_time_text, is_clock_reading, is_in_calendar, shows_moment,
    time_text_shows_moment, tos_text, UtcTime,
};
use crate::failure::{rejection_text, ApiFailure, Operation};
use crate::identity::{
    android_serial_of, hex, hex_shows_bytes, is_draw, is_pubkey_of, is_serial_of,
    random_android_serial, random_wg_pubkey, shows_bytes, wg_pubkey_of,
};
use crate::status::{is_status, is_success, status_display};
use crate::text::{joined, joined_lists, lists};
use vstd::prelude::*;
use vstd::string::StringExecFns;

verus! {

/// The host of the API.
pub const API_URL: &'static str = "https://api.cloudflareclient.com";

/// The version of the API that this client speaks.
pub const API_VERSION: &'static str = "v0a4471";

/// The body of a registration request.
#[derive(Debug, Clone)]
pub struct Registration {
    pub key: String,
    pub install_id: String,
    pub fcm_token: String,
    pub tos: String,
    pub model: String,
    pub serial_number: String,
    pub os_version: String,
    pub key_type: String,
    pub tunnel_type: String,
    pub locale: String,
}

/// The body of an enrolment request. Without a name the field is left out.
#[derive(Debug, Clone)]
pub struct DeviceUpdate {
    pub key: String,
    pub key_type: String,
    pub tunnel_type: String,
    pub name: Option<String>,
}

/// The method of a request.
#[derive(Debug, Clone, Copy, PartialEq, Eq, Structural)]
pub enum Method {
    Post,
    Patch,
}

/// A header that one request carries besides the default ones.
#[derive(Debug, Clone)]
pub struct Header {
    pub name: String,
    pub value: String,
}

/// A request to the API, with the body that is sent as JSON.
#[derive(Debug, Clone)]
pub struct ApiRequest<B> {
    pub method: Method,
    pub url: String,
    pub header: Option<Header>,
    pub body: B,
}

/// The body of the registration of a device with the given key, serial number,
/// acceptance time, model and locale.
pub open spec fn registers(
    body: Registration,
    key: Seq<char>,
    serial: Seq<char>,
    tos: Seq<char>,
    model: Seq<char>,
    locale: Seq<char>,
) -> bool {
    &&& body.key@ == key
    &&& body.install_id@.len() == 0
    &&& body.fcm_token@.len() == 0
    &&& body.tos@ == tos
    &&& body.model@ == model
    &&& body.serial_number@ == serial
    &&& body.os_version@.len() == 0
    &&& body.key_type@ == "curve25519"@
    &&& body.tunnel_type@ == "wireguard"@
    &&& body.locale@ == locale
}

/// Whether the header is there with this name and value.
pub open spec fn carries(header: Option<Header>, name: Seq<char>, value: Seq<char>) -> bool {
    header matches Some(header) && header.name@ == name && header.value@ == value
}

/// Where devices are registered.
pub open spec fn reg_url() -> Seq<char> {
    "https://api.cloudflareclient.com/v0a4471/reg"@
}

fn registration_url() -> (url: String)
    ensures
        url@ == reg_url(),
{
    proof {
        reveal_strlit("https://api.cloudflareclient.com/v0a4471/reg");
        reveal_strlit("https://api.cloudflareclient.com");
        reveal_strlit("v0a4471");
        reveal_strlit("/");
        reveal_strlit("/reg");
    }
    let mut url = API_URL.to_owned();
    url.append("/");
    url.append(API_VERSION);
    url.append("/reg");
    proof {
        assert(url@ =~= reg_url());
    }
    url
}

/// Whether `request` registers a device with the given texts, and with the
/// assertion `jwt` where there is one.
pub open spec fn asks_registration(
    request: ApiRequest<Registration>,
    key: Seq<char>,
    serial: Seq<char>,
    tos: Seq<char>,
    model: Seq<char>,
    locale: Seq<char>,
    jwt: Option<&str>,
) -> bool {
    &&& request.method == Method::Post
    &&& request.url@ == reg_url()
    &&& match jwt {
        Some(jwt) => carries(request.header, "CF-Access-Jwt-Assertion"@, jwt@),
        None => request.header is None,
    }
    &&& registers(request.body, key, serial, tos, model, locale)
}

/// The registration request for a device whose key, serial number and
/// acceptance time are given.
pub fn registration_request(
    key: String,
    serial: String,
    tos: String,
    model: &str,
    locale: &str,
    jwt: Option<&str>,
) -> (request: ApiRequest<Registration>)
    ensures
        asks_registration(request, key@, serial@, tos@, model@, locale@, jwt),
{
    let header = match jwt {
        Some(jwt) => Some(
            Header { name: "CF-Access-Jwt-Assertion".to_owned(), value: jwt.to_owned() },
        ),
        None => None,
    };
    let body = Registration {
        key,
        install_id: String::new(),
        fcm_token: String::new(),
        tos,
        model: model.to_owned(),
        serial_number: serial,
        os_version: String::new(),
        key_type: "curve25519".to_owned(),
        tunnel_type: "wireguard".to_owned(),
        locale: locale.to_owned(),
    };
    ApiRequest { method: Method::Post, url: registration_url(), header, body }
}

/// What comes of the preparation of a registration, given whether the HTTP client
/// could be built, what came of the draws of a key and of a serial number, and the
/// acceptance time. Without a client, or where a draw failed, there is no request.
pub open spec fn is_registration_of(
    client_built: bool,
    key: Option<[u8; 32]>,
    serial: Option<[u8; 8]>,
    time: UtcTime,
    model: Seq<char>,
    locale: Seq<char>,
    jwt: Option<&str>,
    request: Result<ApiRequest<Registration>, ApiFailure>,
) -> bool {
    if !client_built {
        request matches Err(failure) && failure == ApiFailure::Client
    } else {
        match (key, serial) {
            (Some(key), Some(serial)) => request matches Ok(request) && asks_registration(
                request,
                base64(key@),
                hex(serial@),
                tos_text(time),
                model,
                locale,
                jwt,
            ),
            _ => request matches Err(failure) && failure == ApiFailure::Rng,
        }
    }
}

/// The registration request of a device, or the failure that keeps it from being
/// made.
pub fn registration_of(
    client_built: bool,
    key: Option<[u8; 32]>,
    serial: Option<[u8; 8]>,
    time: &UtcTime,
    model: &str,
    locale: &str,
    jwt: Option<&str>,
) -> (request: Result<ApiRequest<Registration>, ApiFailure>)
    requires
        time.valid(),
    ensures
        is_registration_of(client_built, key, serial, *time, model@, locale@, jwt, request),
{
    if !client_built {
        return Err(ApiFailure::Client);
    }
    let key = match wg_pubkey_of(key) {
        Ok(key) => key,
        Err(failure) => return Err(failure),
    };
    let serial = match android_serial_of(serial) {
        Ok(serial) => serial,
        Err(failure) => return Err(failure),
    };
    Ok(registration_request(key, serial, cf_time_text(time), model, locale, jwt))
}

/// The registration request of this device, with a random key and serial number
/// and with the present moment as the acceptance time. `client_built` says whether
/// there is an HTTP client to send it. Without one, or where the random number
/// generator fails, there is no request.
pub fn prepare_registration(
    client_built: bool,
    model: &str,
    locale: &str,
    jwt: Option<&str>,
) -> (request: Result<ApiRequest<Registration>, ApiFailure>)
    ensures
        !client_built ==> (request matches Err(failure) && failure == ApiFailure::Client),
        client_built ==> exists|key: Option<[u8; 32]>, serial: Option<[u8; 8]>, now: UtcTime|
            {
                &&& is_draw(key)
                &&& key is Some ==> is_draw(serial)
                &&& key is Some && serial is Some ==> {
                    &&& is_clock_reading(now)
                    &&& now.valid()
                    &&& now.year >= 1970
                }
                &&& #[trigger] is_registration_of(
                    true,
                    key,
                    serial,
                    now,
                    model@,
                    locale@,
                    jwt,
                    request,
                )
            },
{
    if !client_built {
        return Err(ApiFailure::Client);
    }
    let key = random_wg_pubkey();
    let ghost drawn_key: Option<[u8; 32]> = choose|drawn: Option<[u8; 32]>| #[trigger]
        is_draw(drawn) && is_pubkey_of(drawn, key);
    let key = match key {
        Ok(key) => key,
        Err(failure) => {
            let request = Err(failure);
            proof {
                assert(is_registration_of(
                    true,
                    drawn_key,
                    None,
                    arbitrary(),
                    model@,
                    locale@,
                    jwt,
                    request,
                ));
            }
            return request;
        },
    };
    let serial = random_android_serial();
    let ghost drawn_serial: Option<[u8; 8]> = choose|drawn: Option<[u8; 8]>| #[trigger]
        is_draw(drawn) && is_serial_of(drawn, serial);
    let serial = match serial {
        Ok(serial) => serial,
        Err(failure) => {
            let request = Err(failure);
            proof {
                assert(is_registration_of(
                    true,
                    drawn_key,
                    drawn_serial,
                    arbitrary(),
                    model@,
                    locale@,
                    jwt,
                    request,
                ));
            }
            return request;
        },
    };
    let tos = cf_time_string();
    let ghost now: UtcTime = choose|now: UtcTime| #[trigger]
        is_clock_reading(now) && now.valid() && now.year >= 1970 && tos@ == tos_text(now);
    let request = Ok(registration_request(key, serial, tos, model, locale, jwt));
    proof {
        assert(is_registration_of(
            true,
            drawn_key,
            drawn_serial,
            now,
            model@,
            locale@,
            jwt,
            request,
        ));
    }
    request
}

/// Whether `request` enrolls the public key `pub_key_der` for the device of
/// `account`, under a new device name where one is given.
pub open spec fn asks_enrollment(
    request: ApiRequest<DeviceUpdate>,
    account: AccountData,
    pub_key_der: Seq<u8>,
    device_name: Option<&str>,
) -> bool {
    &&& request.method == Method::Patch
    &&& request.url@ == reg_url() + "/"@ + account.id@
    &&& carries(request.header, "Authorization"@, "Bearer "@ + account.token@)
    &&& request.body.key@ == base64(pub_key_der)
    &&& request.body.key_type@ == "secp256r1"@
    &&& request.body.tunnel_type@ == "masque"@
    &&& match device_name {
        Some(name) => request.body.name matches Some(given) && given@ == name@,
        None => request.body.name is None,
    }
}

/// The request that enrolls the public key `pub_key_der` for the device of
/// `account`, under a new device name where one is given.
pub fn enrollment_request(
    account: &AccountData,
    pub_key_der: &[u8],
    device_name: Option<&str>,
) -> (request: ApiRequest<DeviceUpdate>)
    ensures
        asks_enrollment(request, *account, pub_key_der@, device_name),
{
    let body = DeviceUpdate {
        key: encode_block(pub_key_der),
        key_type: "secp256r1".to_owned(),
        tunnel_type: "masque".to_owned(),
        name: match device_name {
            Some(name) => Some(name.to_owned()),
            None => None,
        },
    };
    let mut url = registration_url();
    url.append("/");
    url.append(account.id.as_str());
    let mut bearer = "Bearer ".to_owned();
    bearer.append(account.token.as_str());
    let header = Some(Header { name: "Authorization".to_owned(), value: bearer });
    ApiRequest { method: Method::Patch, url, header, body }
}

/// The enrolment request. Without an HTTP client to send it there is none.
pub fn prepare_enrollment(
    client_built: bool,
    account: &AccountData,
    pub_key_der: &[u8],
    device_name: Option<&str>,
) -> (request: Result<ApiRequest<DeviceUpdate>, ApiFailure>)
    ensures
        match request {
            Ok(request) => client_built && asks_enrollment(
                request,
                *account,
                pub_key_der@,
                device_name,
            ),
            Err(failure) => !client_built && failure == ApiFailure::Client,
        },
{
    if client_built {
        Ok(enrollment_request(account, pub_key_der, device_name))
    } else {
        Err(ApiFailure::Client)
    }
}

/// What to read of a reply.
#[derive(Debug, Clone, Copy, PartialEq, Eq, Structural)]
pub enum ReplyPart {
    /// The account, from the JSON of the body.
    Account,
    /// The text of the body, which says why the request was refused.
    Refusal,
}

/// What is to be read of the reply with the status `sent`: the account where the
/// status says success, else the refusal. There is nothing to read where no reply
/// came.
pub open spec fn part_to_read(operation: Operation, sent: Option<u16>) -> Result<
    ReplyPart,
    ApiFailure,
> {
    match sent {
        None => Err(ApiFailure::Request(operation)),
        Some(status) => if 200 <= status <= 299 {
            Ok(ReplyPart::Account)
        } else {
            Ok(ReplyPart::Refusal)
        },
    }
}

/// What to do after a request was sent: `sent` is the status of the reply, or
/// `None` where none came.
pub fn after_send(operation: Operation, sent: Option<u16>) -> (part: Result<ReplyPart, ApiFailure>)
    requires
        sent matches Some(status) ==> is_status(status),
    ensures
        part == part_to_read(operation, sent),
{
    match sent {
        None => Err(ApiFailure::Request(operation)),
        Some(status) => if is_success(status) {
            Ok(ReplyPart::Account)
        } else {
            Ok(ReplyPart::Refusal)
        },
    }
}

/// The outcome of a successful reply: the account, where the body held one.
pub open spec fn account_outcome(operation: Operation, account: Option<AccountData>) -> Result<
    AccountData,
    ApiFailure,
> {
    match account {
        Some(account) => Ok(account),
        None => Err(ApiFailure::Parse(operation)),
    }
}

/// The outcome of a successful reply: the account, where the body held one.
pub fn accepted(operation: Operation, account: Option<AccountData>) -> (outcome: Result<
    AccountData,
    ApiFailure,
>)
    ensures
        outcome == account_outcome(operation, account),
{
    match account {
        Some(account) => Ok(account),
        None => Err(ApiFailure::Parse(operation)),
    }
}

/// The text of a refusal: empty where it could not be read.
pub fn refusal_text(body: Option<String>) -> (text: String)
    ensures
        match body {
            Some(body) => text == body,
            None => text@.len() == 0,
        },
{
    match body {
        Some(body) => body,
        None => String::new(),
    }
}

/// The messages of an error reply, in order.
pub open spec fn messages(error: ApiError) -> Seq<Seq<char>> {
    error.errors@.map_values(|info: ErrorInfo| info.message@)
}

fn join_messages(error: &ApiError) -> (text: String)
    ensures
        text@ == joined(messages(*error), "; "@),
{
    let mut text = String::new();
    let mut i: usize = 0;
    let ghost all = messages(*error);
    while i < error.errors.len()
        invariant
            i <= error.errors@.len(),
            all == messages(*error),
            text@ == joined(all.take(i as int), "; "@),
        decreases error.errors@.len() - i,
    {
        proof {
            assert(all.take(i + 1).drop_last() == all.take(i as int));
            assert(all[i as int] == error.errors@[i as int].message@);
        }
        if i > 0 {
            text.append("; ");
        }
        text.append(error.errors[i].message.as_str());
        proof {
            assert(text@ =~= joined(all.take(i + 1), "; "@));
        }
        i = i + 1;
    }
    proof {
        assert(all.take(i as int) == all);
    }
    text
}

/// What a refusal has to say: the messages of the error reply that an
/// enrolment got, else the text of the body. The text of a refused
/// registration stands as it is.
pub open spec fn refusal_detail(
    operation: Operation,
    body: Seq<char>,
    error: Option<ApiError>,
) -> Seq<char> {
    match (operation, error) {
        (Operation::Enroll, Some(error)) => joined(messages(error), "; "@),
        _ => body,
    }
}

/// Whether `failure` reports that a request was refused with this status, body
/// and error reply.
pub open spec fn reports_refusal(
    failure: ApiFailure,
    operation: Operation,
    status: u16,
    body: Seq<char>,
    error: Option<ApiError>,
) -> bool {
    failure matches ApiFailure::Rejected { operation: refused, status: code, detail }
        && refused == operation && code == status
        && detail@ == refusal_detail(operation, body, error)
}

/// The outcome of a refused request. `error` is the error reply that the body
/// held, where it could be read as one.
pub fn refused(
    operation: Operation,
    status: u16,
    body: String,
    error: Option<ApiError>,
) -> (failure: ApiFailure)
    ensures
        reports_refusal(failure, operation, status, body@, error),
{
    let detail = match (operation, error) {
        (Operation::Enroll, Some(error)) => join_messages(&error),
        _ => body,
    };
    ApiFailure::Rejected { operation, status, detail }
}

/// A request ends with an account exactly where a reply came whose status says
/// success and whose body holds one; it is that account.
pub proof fn account_comes_only_of_success(
    operation: Operation,
    sent: Option<u16>,
    held: Option<AccountData>,
    account: AccountData,
)
    ensures
        part_to_read(operation, sent) == Ok::<ReplyPart, ApiFailure>(ReplyPart::Account)
            && account_outcome(operation, held) == Ok::<AccountData, ApiFailure>(account) <==> (
        sent matches Some(status) && 200 <= status <= 299) && held == Some(account),
{
}

/// A refused request is answered with what was refused, the status of the reply
/// and what the reply had to say.
pub proof fn refusal_is_answered(
    failure: ApiFailure,
    operation: Operation,
    status: u16,
    body: Seq<char>,
    error: Option<ApiError>,
)
    requires
        reports_refusal(failure, operation, status, body, error),
    ensures
        failure.text() == rejection_text(
            operation,
            status_display(status),
            refusal_detail(operation, body, error),
        ),
{
}

/// A registration request goes to the place where devices are registered and holds,
/// character for character, each text that it was given, in the field of its own.
/// What is not given is empty, and the kind of key and of tunnel is always the same.
/// It carries the assertion that was given, and no header where none was.
pub proof fn registration_holds_what_was_given(
    key: String,
    serial: String,
    tos: String,
    model: &str,
    locale: &str,
    jwt: Option<&str>,
    request: ApiRequest<Registration>,
)
    requires
        call_ensures(registration_request, (key, serial, tos, model, locale, jwt), request),
    ensures
        request.method is Post,
        request.url@ == "https://api.cloudflareclient.com/v0a4471/reg"@,
        request.body.key@ == key@,
        request.body.serial_number@ == serial@,
        request.body.tos@ == tos@,
        request.body.model@ == model@,
        request.body.locale@ == locale@,
        request.body.install_id@ == Seq::<char>::empty(),
        request.body.fcm_token@ == Seq::<char>::empty(),
        request.body.os_version@ == Seq::<char>::empty(),
        request.body.key_type@ == "curve25519"@,
        request.body.tunnel_type@ == "wireguard"@,
        request.header is Some <==> jwt is Some,
        request.header matches Some(header) ==> header.name@ == "CF-Access-Jwt-Assertion"@
            && header.value@ == jwt->0@,
{
}

/// Two registration requests differ in a field exactly where they were given
/// different texts for it, whatever the other texts are.
pub proof fn registrations_differ_as_their_texts(
    a: (String, String, String, &str, &str, Option<&str>),
    b: (String, String, String, &str, &str, Option<&str>),
    first: ApiRequest<Registration>,
    second: ApiRequest<Registration>,
)
    requires
        call_ensures(registration_request, a, first),
        call_ensures(registration_request, b, second),
    ensures
        first.body.key@ == second.body.key@ <==> a.0@ == b.0@,
        first.body.serial_number@ == second.body.serial_number@ <==> a.1@ == b.1@,
        first.body.tos@ == second.body.tos@ <==> a.2@ == b.2@,
        first.body.model@ == second.body.model@ <==> a.3@ == b.3@,
        first.body.locale@ == second.body.locale@ <==> a.4@ == b.4@,
        a.5 is Some && b.5 is Some ==> (first.header->0.value@ == second.header->0.value@
            <==> a.5->0@ == b.5->0@),
        first.url@ == second.url@,
{
}

/// Whether the body registers a device with all the bytes of this key and serial
/// number, at this moment, for this model and locale.
pub open spec fn registers_bytes(
    body: Registration,
    key: Seq<u8>,
    serial: Seq<u8>,
    time: UtcTime,
    model: Seq<char>,
    locale: Seq<char>,
) -> bool {
    &&& shows_all_bits(body.key@, key)
    &&& shows_bytes(body.serial_number@, serial)
    &&& shows_moment(body.tos@, time)
    &&& body.model@ == model
    &&& body.locale@ == locale
    &&& body.install_id@.len() == 0 && body.fcm_token@.len() == 0 && body.os_version@.len() == 0
    &&& body.key_type@ == "curve25519"@ && body.tunnel_type@ == "wireguard"@
}

/// Whether the request goes to the place where devices are registered, and carries
/// the assertion that was given, or no header where none was.
pub open spec fn goes_to_registration(
    request: ApiRequest<Registration>,
    jwt: Option<&str>,
) -> bool {
    &&& request.method is Post
    &&& request.url@ == "https://api.cloudflareclient.com/v0a4471/reg"@
    &&& request.header is Some <==> jwt is Some
    &&& request.header matches Some(header) ==> header.name@ == "CF-Access-Jwt-Assertion"@
        && header.value@ == jwt->0@
}

/// There is a registration request exactly where there is a client and both draws
/// succeeded. It holds all bytes of what was drawn, the moment, and the texts that were
/// given. Without a client that is the failure, whatever came of the draws; else it
/// is the one of the generator.
pub proof fn registration_holds_what_was_drawn(
    client_built: bool,
    key: Option<[u8; 32]>,
    serial: Option<[u8; 8]>,
    time: &UtcTime,
    model: &str,
    locale: &str,
    jwt: Option<&str>,
    outcome: Result<ApiRequest<Registration>, ApiFailure>,
)
    requires
        is_in_calendar(*time),
        call_ensures(
            registration_of,
            (client_built, key, serial, time, model, locale, jwt),
            outcome,
        ),
    ensures
        call_requires(registration_of, (client_built, key, serial, time, model, locale, jwt)),
        outcome is Ok <==> client_built && key is Some && serial is Some,
        outcome matches Err(failure) ==> if client_built {
            failure is Rng
        } else {
            failure is Client
        },
        outcome matches Ok(request) ==> goes_to_registration(request, jwt) && registers_bytes(
            request.body,
            key->0@,
            serial->0@,
            *time,
            model@,
            locale@,
        ),
{
    assert(time.valid());
    if outcome is Ok {
        base64_shows_all_bits(key->0@);
        hex_shows_bytes(serial->0@);
        time_text_shows_moment(*time);
    }
}

/// A prepared registration holds all bytes of a key and of a serial number that the
/// generator can have drawn, a moment that the clock can have shown, and the texts
/// that were given. There is none without a client; with one there is none only where
/// the generator can have failed.
pub proof fn prepared_registration_is_fresh(
    client_built: bool,
    model: &str,
    locale: &str,
    jwt: Option<&str>,
    outcome: Result<ApiRequest<Registration>, ApiFailure>,
)
    requires
        call_ensures(prepare_registration, (client_built, model, locale, jwt), outcome),
    ensures
        match outcome {
            Ok(request) => {
                &&& client_built
                &&& goes_to_registration(request, jwt)
                &&& request.body.model@ == model@
                &&& request.body.locale@ == locale@
                &&& exists|key: [u8; 32], serial: [u8; 8], now: UtcTime| #[trigger]
                    is_draw(Some(key)) && #[trigger] is_draw(Some(serial)) && #[trigger]
                    is_clock_reading(now) && now.year >= 1970 && registers_bytes(
                        request.body,
                        key@,
                        serial@,
                        now,
                        model@,
                        locale@,
                    )
            },
            Err(failure) => if client_built {
                failure is Rng && (is_draw(None::<[u8; 32]>) || is_draw(None::<[u8; 8]>))
            } else {
                failure is Client
            },
        },
{
    if client_built {
        let (key, serial, now) = choose|
            key: Option<[u8; 32]>,
            serial: Option<[u8; 8]>,
            now: UtcTime,
        |
            {
                &&& is_draw(key)
                &&& key is Some ==> is_draw(serial)
                &&& key is Some && serial is Some ==> {
                    &&& is_clock_reading(now)
                    &&& now.valid()
                    &&& now.year >= 1970
                }
                &&& #[trigger] is_registration_of(
                    true,
                    key,
                    serial,
                    now,
                    model@,
                    locale@,
                    jwt,
                    outcome,
                )
            };
        if let (Some(key), Some(serial)) = (key, serial) {
            base64_shows_all_bits(key@);
            hex_shows_bytes(serial@);
            time_text_shows_moment(now);
            assert(is_draw(Some(key)) && is_draw(Some(serial)) && is_clock_reading(now));
            assert(outcome is Ok);
            assert(registers_bytes(
                outcome->Ok_0.body,
                key@,
                serial@,
                now,
                model@,
                locale@,
            ));
        }
    }
}

/// An enrolment request goes to the device of the account, under its token, and
/// gives back all bytes of the public key, whatever their number. It has a name
/// exactly where one was given, and that one.
pub proof fn enrollment_holds_what_was_given(
    account: &AccountData,
    pub_key_der: &[u8],
    device_name: Option<&str>,
    request: ApiRequest<DeviceUpdate>,
)
    requires
        call_ensures(enrollment_request, (account, pub_key_der, device_name), request),
    ensures
        enrolls(request, *account, pub_key_der@, device_name),
{
    enrollment_enrolls(request, *account, pub_key_der@, device_name);
}

/// Whether the request enrolls all bytes of this key for the device of the account,
/// under its token and with the name that was given, if any.
pub open spec fn enrolls(
    request: ApiRequest<DeviceUpdate>,
    account: AccountData,
    pub_key_der: Seq<u8>,
    device_name: Option<&str>,
) -> bool {
    &&& request.method is Patch
    &&& request.url@ == "https://api.cloudflareclient.com/v0a4471/reg/"@ + account.id@
    &&& request.header matches Some(header) && header.name@ == "Authorization"@
        && header.value@ == "Bearer "@ + account.token@
    &&& shows_all_bits(request.body.key@, pub_key_der)
    &&& request.body.key@.len() == (pub_key_der.len() + 2) / 3 * 4
    &&& request.body.key_type@ == "secp256r1"@
    &&& request.body.tunnel_type@ == "masque"@
    &&& request.body.name is Some <==> device_name is Some
    &&& request.body.name matches Some(name) ==> name@ == device_name->0@
}

proof fn enrollment_enrolls(
    request: ApiRequest<DeviceUpdate>,
    account: AccountData,
    pub_key_der: Seq<u8>,
    device_name: Option<&str>,
)
    requires
        asks_enrollment(request, account, pub_key_der, device_name),
    ensures
        enrolls(request, account, pub_key_der, device_name),
{
    base64_shows_all_bits(pub_key_der);
    reveal_strlit("https://api.cloudflareclient.com/v0a4471/reg");
    reveal_strlit("/");
    reveal_strlit("https://api.cloudflareclient.com/v0a4471/reg/");
    assert("https://api.cloudflareclient.com/v0a4471/reg"@ + "/"@
        =~= "https://api.cloudflareclient.com/v0a4471/reg/"@);
}

/// Two enrolments have the same key text only for the same public key, go to the same
/// place only for the same device, and carry the same header only for the same token.
pub proof fn enrollments_differ_as_what_was_given(
    a: (&AccountData, &[u8], Option<&str>),
    b: (&AccountData, &[u8], Option<&str>),
    first: ApiRequest<DeviceUpdate>,
    second: ApiRequest<DeviceUpdate>,
)
    requires
        call_ensures(enrollment_request, a, first),
        call_ensures(enrollment_request, b, second),
    ensures
        first.body.key@ == second.body.key@ <==> a.1@ == b.1@,
        first.url@ == second.url@ <==> a.0.id@ == b.0.id@,
        first.header->0.value@ == second.header->0.value@ <==> a.0.token@ == b.0.token@,
{
    enrollment_enrolls(first, *a.0, a.1@, a.2);
    enrollment_enrolls(second, *b.0, b.1@, b.2);
    if first.body.key@ == second.body.key@ {
        base64_is_injective(a.1@, b.1@);
    }
    let place = "https://api.cloudflareclient.com/v0a4471/reg/"@;
    assert((place + a.0.id@).skip(place.len() as int) =~= a.0.id@);
    assert((place + b.0.id@).skip(place.len() as int) =~= b.0.id@);
    let bearer = "Bearer "@;
    assert((bearer + a.0.token@).skip(bearer.len() as int) =~= a.0.token@);
    assert((bearer + b.0.token@).skip(bearer.len() as int) =~= b.0.token@);
}

/// There is an enrolment request exactly where there is a client to send it.
pub proof fn prepared_enrollment_needs_only_a_client(
    client_built: bool,
    account: &AccountData,
    pub_key_der: &[u8],
    device_name: Option<&str>,
    outcome: Result<ApiRequest<DeviceUpdate>, ApiFailure>,
)
    requires
        call_ensures(
            prepare_enrollment,
            (client_built, account, pub_key_der, device_name),
            outcome,
        ),
    ensures
        outcome is Ok <==> client_built,
        outcome matches Ok(request) ==> enrolls(request, *account, pub_key_der@, device_name),
        outcome matches Err(failure) ==> failure is Client,
{
    if let Ok(request) = outcome {
        enrollment_enrolls(request, *account, pub_key_der@, device_name);
    }
}

/// The reply to a request, once sent, decides alone what is read of it: the account
/// where the hundreds of its status are two, else the refusal. For every status that a
/// reply can have that is settled. Where no reply came, the failure names the request.
pub proof fn replies_are_read_by_their_status(
    operation: Operation,
    sent: Option<u16>,
    part: Result<ReplyPart, ApiFailure>,
)
    requires
        sent matches Some(status) ==> 100 <= status <= 999,
        call_ensures(after_send, (operation, sent), part),
    ensures
        call_requires(after_send, (operation, sent)),
        part is Ok <==> sent is Some,
        part matches Err(failure) ==> failure == ApiFailure::Request(operation),
        part matches Ok(read) ==> (read is Account <==> sent->0 / 100 == 2),
{
}

/// A request ends with an account exactly where its reply has a status that says
/// success and holds an account, and it ends with that account, unchanged; a reply
/// that holds none fails, and the failure names the request.
pub proof fn accounts_are_passed_on(
    operation: Operation,
    held: Option<AccountData>,
    outcome: Result<AccountData, ApiFailure>,
)
    requires
        call_ensures(accepted, (operation, held), outcome),
    ensures
        outcome is Ok <==> held is Some,
        outcome matches Ok(account) ==> held == Some(account),
        outcome matches Err(failure) ==> failure == ApiFailure::Parse(operation),
{
}

/// The text of a refusal is kept as it is, and empty where it could not be read.
pub proof fn refusal_text_is_kept(body: Option<String>, text: String)
    requires
        call_ensures(refusal_text, (body,), text),
    ensures
        body matches Some(body) ==> text@ == body@,
        body is None ==> text@ == Seq::<char>::empty(),
{
}

/// A refused request is answered with its own name and status. The detail is the
/// whole body, but for an enrolment that got an error reply: there it lists the message
/// of every error, whole and in order, and the body is left out.
pub proof fn refusals_keep_what_the_reply_said(
    operation: Operation,
    status: u16,
    body: String,
    error: Option<ApiError>,
    failure: ApiFailure,
)
    requires
        call_ensures(refused, (operation, status, body, error), failure),
    ensures
        failure matches ApiFailure::Rejected { operation: refused, status: code, detail }
            && refused == operation && code == status
            && if operation is Enroll && error is Some {
            let errors = error->0.errors@;
            lists(
                detail@,
                Seq::new(errors.len(), |k: int| errors[k].message@),
            )
        } else {
            detail@ == body@
        },
{
    if operation is Enroll && error is Some {
        let errors = error->0.errors@;
        let parts = Seq::new(errors.len(), |k: int| errors[k].message@);
        assert(messages(error->0) =~= parts);
        joined_lists(parts);
    }
}

} // verus!
