//! Door routes and the exchange with the buzzer.
use vstd::prelude::*;
use crate::crypto::{buzzer_code, calculate_hash};
use crate::models::Door;
use crate::responses::{error_body, StatusBody};
use crate::text::{concat_str, int_decimal, push_i64_decimal, push_str};

verus! {

/// A door to create.
#[derive(Debug)]
pub struct NewDoor {
    pub name: String,
    pub address: String,
}

/// What the buzzer answers: a status and a message.
#[derive(Debug)]
pub struct ResponseData {
    pub status: i32,
    pub message: String,
}

/// A status the buzzer reports as an error.
pub open spec fn is_error_status(status: int) -> bool {
    400 <= status <= 500
}

/// The buzzer's error statuses are exactly 400 through 500: every 2xx and
/// 3xx status, and every status above 500, is a success.
pub proof fn lemma_buzzer_error_statuses(status: int)
    ensures
        is_error_status(status) <==> (400 <= status && status <= 500),
        200 <= status < 400 ==> !is_error_status(status),
        status > 500 ==> !is_error_status(status),
{
}

/// "Got error code: ..."
pub open spec fn error_code_detail(status: int) -> Seq<char> {
    "Got error code: "@ + int_decimal(status)
}

fn error_code_message(status: i32) -> (res: String)
    ensures
        res@ == error_code_detail(status as int),
{
    let mut s = String::from_str("Got error code: ");
    push_i64_decimal(&mut s, status as i64);
    s
}

/// Where to ask the buzzer for a challenge.
pub fn challenge_url(buzzer_url: &str) -> (res: String)
    ensures
        res@ == buzzer_url@ + "/challenge"@,
{
    concat_str(buzzer_url, "/challenge")
}

/// The challenge in the buzzer's answer, unless its status is an error.
pub fn get_challenge(response: ResponseData) -> (res: Result<String, String>)
    ensures
        is_error_status(response.status as int) ==> (res matches Err(e) && e@ == error_code_detail(
            response.status as int,
        )),
        !is_error_status(response.status as int) ==> res == Ok::<String, String>(response.message),
        (response.status < 400 || response.status > 500) ==> res == Ok::<String, String>(
            response.message,
        ),
        400 <= response.status <= 500 ==> res is Err,
{
    if 400 <= response.status && response.status <= 500 {
        Err(error_code_message(response.status))
    } else {
        Ok(response.message)
    }
}

/// A request to the buzzer: where to post, and the message to send.
#[derive(Debug)]
pub struct BuzzRequest {
    pub url: String,
    pub message: String,
}

/// The buzz request answering a challenge: it is posted to
/// `<buzzer>/buzz1/<code>` with the challenge as message.
pub fn buzz_request(buzzer_url: &str, challenge: String) -> (res: BuzzRequest)
    ensures
        res.url@ == buzzer_url@ + "/buzz1/"@ + buzzer_code(),
        res.message == challenge,
{
    let code = calculate_hash(challenge.clone());
    let mut url = concat_str(buzzer_url, "/buzz1/");
    push_str(&mut url, code.as_str());
    BuzzRequest { url: url, message: challenge }
}

/// The result of a buzz, from the buzzer's answer: `success` unless its
/// status is an error.
pub fn buzz(response: ResponseData) -> (res: Result<String, String>)
    ensures
        is_error_status(response.status as int) ==> (res matches Err(e) && e@ == error_code_detail(
            response.status as int,
        )),
        !is_error_status(response.status as int) ==> (res matches Ok(m) && m@ == "success"@),
        (response.status < 400 || response.status > 500) ==> (res matches Ok(m) && m@
            == "success"@),
        400 <= response.status <= 500 ==> res is Err,
{
    if 400 <= response.status && response.status <= 500 {
        Err(error_code_message(response.status))
    } else {
        Ok(String::from_str("success"))
    }
}

/// "Could not find record for door_id=...: ..."
pub open spec fn missing_door_detail(door_id: int, err: Seq<char>) -> Seq<char> {
    "Could not find record for door_id="@ + int_decimal(door_id) + ": "@ + err
}

fn missing_door(door_id: i32, err: &str) -> (res: StatusBody)
    ensures
        res.status@ == "error"@,
        res.detail@ == missing_door_detail(door_id as int, err@),
{
    let mut detail = String::from_str("Could not find record for door_id=");
    push_i64_decimal(&mut detail, door_id as i64);
    push_str(&mut detail, ": ");
    push_str(&mut detail, err);
    assert(detail@ =~= missing_door_detail(door_id as int, err@));
    error_body(detail)
}

/// The door detail route, once the door was looked up (a failure holds the
/// error's debug text): the door (200), or a bad request (400).
pub fn get_door(door_id: i32, lookup: Result<Door, String>) -> (res: Result<Door, StatusBody>)
    ensures
        lookup matches Ok(d) ==> res == Ok::<Door, StatusBody>(d),
        lookup matches Err(e) ==> (res matches Err(b) && b.status@ == "error"@ && b.detail@
            == missing_door_detail(door_id as int, e@)),
{
    match lookup {
        Ok(door) => Ok(door),
        Err(err) => Err(missing_door(door_id, err.as_str())),
    }
}

/// The buzz route, once the door was looked up: a missing door is a bad
/// request (400); a found one is buzzed next.
pub fn buzz_door(door_id: i32, lookup: Result<Door, String>) -> (res: Result<Door, StatusBody>)
    ensures
        lookup matches Ok(d) ==> res == Ok::<Door, StatusBody>(d),
        lookup matches Err(e) ==> (res matches Err(b) && b.status@ == "error"@ && b.detail@
            == missing_door_detail(door_id as int, e@)),
{
    match lookup {
        Ok(door) => Ok(door),
        Err(err) => Err(missing_door(door_id, err.as_str())),
    }
}

/// "Buzzing door ...: ..."
pub open spec fn buzzed_detail(door_id: int, result: Seq<char>) -> Seq<char> {
    "Buzzing door "@ + int_decimal(door_id) + ": "@ + result
}

/// The answer of a buzzed door (201).
pub fn buzz_door_done(door: &Door, buzz_result: &str) -> (res: StatusBody)
    ensures
        res.status@ == "OK"@,
        res.detail@ == buzzed_detail(door.id as int, buzz_result@),
{
    let mut detail = String::from_str("Buzzing door ");
    push_i64_decimal(&mut detail, door.id as i64);
    push_str(&mut detail, ": ");
    push_str(&mut detail, buzz_result);
    assert(detail@ =~= buzzed_detail(door.id as int, buzz_result@));
    StatusBody { status: String::from_str("OK"), detail: detail }
}

} // verus!
