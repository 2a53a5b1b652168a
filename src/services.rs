//! The check-in message: its quotation, its text, and the mail that
//! carries it.
use vstd::prelude::*;
use vstd::string::*;

use lettre::message::header::ContentType;
use lettre::message::Mailbox;
use lettre::Message;

use crate::models::{EmailConfig, HitokotoResponse, Quote};

verus! {

#[verifier::external_type_specification]
#[verifier::external_body]
pub struct ExMailbox(Mailbox);

#[verifier::external_type_specification]
#[verifier::external_body]
pub struct ExMessage(Message);

/// The quotation used when none can be fetched.
pub fn get_fallback_quote() -> (r: Quote)
    ensures
        r.text@ == "今天的签到已完成，继续加油！"@,
        r.author@ == "系统"@,
{
    Quote { text: String::from_str("今天的签到已完成，继续加油！"), author: String::from_str("系统") }
}

/// The quotation that a quote service response carries: its text, credited
/// to the person it names, or else to the work it comes from.
pub fn quote_from_response(response: HitokotoResponse) -> (r: Quote)
    ensures
        r.text == response.hitokoto,
        r.author == match response.from_who {
            Some(who) => who,
            None => response.from,
        },
{
    let author = match response.from_who {
        Some(who) => who,
        None => response.from,
    };
    Quote { text: response.hitokoto, author }
}

/// The decimal digits of a natural number.
pub open spec fn digits_of(n: nat) -> Seq<char>
    decreases n,
{
    let d = seq!['0', '1', '2', '3', '4', '5', '6', '7', '8', '9'][(n % 10) as int];
    if n < 10 {
        seq![d]
    } else {
        digits_of(n / 10).push(d)
    }
}

/// The decimal text of an integer, with a leading `-` when it is negative.
pub open spec fn decimal_text(n: int) -> Seq<char> {
    if n < 0 {
        seq!['-'] + digits_of((-n) as nat)
    } else {
        digits_of(n as nat)
    }
}

/// The text of one decimal digit.
fn digit_text(d: u32) -> (r: &'static str)
    requires
        d < 10,
    ensures
        r@ == seq![seq!['0', '1', '2', '3', '4', '5', '6', '7', '8', '9'][d as int]],
{
    proof {
        reveal_strlit("0");
        reveal_strlit("1");
        reveal_strlit("2");
        reveal_strlit("3");
        reveal_strlit("4");
        reveal_strlit("5");
        reveal_strlit("6");
        reveal_strlit("7");
        reveal_strlit("8");
        reveal_strlit("9");
    }
    let r = match d {
        0 => "0",
        1 => "1",
        2 => "2",
        3 => "3",
        4 => "4",
        5 => "5",
        6 => "6",
        7 => "7",
        8 => "8",
        _ => "9",
    };
    assert(r@ =~= seq![seq!['0', '1', '2', '3', '4', '5', '6', '7', '8', '9'][d as int]]);
    r
}

/// The decimal digits of `m`.
fn digits_text(m: u32) -> (r: String)
    ensures
        r@ == digits_of(m as nat),
    decreases m,
{
    if m < 10 {
        let r = String::from_str(digit_text(m));
        assert(r@ =~= digits_of(m as nat));
        r
    } else {
        let r = digits_text(m / 10).concat(digit_text(m % 10));
        assert(r@ =~= digits_of(m as nat));
        r
    }
}

/// The decimal text of `n`, with a leading `-` when it is negative.
pub fn int_text(n: i32) -> (r: String)
    ensures
        r@ == decimal_text(n as int),
{
    if n < 0 {
        let magnitude: u32 = if n == i32::MIN {
            2147483648u32
        } else {
            (-n) as u32
        };
        let r = String::from_str("-").concat(digits_text(magnitude).as_str());
        proof {
            reveal_strlit("-");
        }
        assert(r@ =~= decimal_text(n as int));
        r
    } else {
        digits_text(n as u32)
    }
}

/// The subject line of a check-in message.
pub open spec fn subject_text(name: Seq<char>, streak: int) -> Seq<char> {
    "🔥 "@ + name + " 签到成功！连续签到 "@ + decimal_text(streak) + " 天"@
}

/// The body of a check-in message.
pub open spec fn body_text(name: Seq<char>, streak: int, text: Seq<char>, author: Seq<char>) -> Seq<
    char,
> {
    "Hi "@ + name + ",\n\n恭喜你今天成功签到！🎉\n\n当前连续签到天数："@ + decimal_text(streak)
        + " 天 🔥\n\n每日一言：\n\""@ + text + "\"\n- "@ + author
        + "\n\n继续保持，加油！💪\n\n--\nAre You OK?"@
}

/// The subject line of the message sent when `name` has checked in with a
/// streak of `streak` days.
pub fn build_email_subject(name: &str, streak: i32) -> (r: String)
    ensures
        r@ == subject_text(name@, streak as int),
{
    let digits = int_text(streak);
    let r = String::from_str("🔥 ").concat(name).concat(" 签到成功！连续签到 ").concat(
        digits.as_str(),
    ).concat(" 天");
    assert(r@ =~= subject_text(name@, streak as int));
    r
}

/// The body of the message sent when `name` has checked in with a streak of
/// `streak` days, with the quotation `quote`.
pub fn build_email_body(name: &str, streak: i32, quote: &Quote) -> (r: String)
    ensures
        r@ == body_text(name@, streak as int, quote.text@, quote.author@),
{
    let digits = int_text(streak);
    let r = String::from_str("Hi ").concat(name).concat(
        ",\n\n恭喜你今天成功签到！🎉\n\n当前连续签到天数：",
    ).concat(digits.as_str()).concat(" 天 🔥\n\n每日一言：\n\"").concat(quote.text.as_str()).concat(
        "\"\n- ",
    ).concat(quote.author.as_str()).concat("\n\n继续保持，加油！💪\n\n--\nAre You OK?");
    assert(r@ =~= body_text(name@, streak as int, quote.text@, quote.author@));
    r
}

/// The text reads as a mailbox: an address, with or without a display name.
pub uninterp spec fn is_mailbox_text(s: Seq<char>) -> bool;

/// Reads a mailbox such as `Name <user@example.com>`.
///
/// Relies on lettre's `FromStr` for `Mailbox`: whether the text reads
/// depends on the text alone. The error is rendered as text.
#[verifier::external_body]
fn read_mailbox(email: &str) -> (r: Result<Mailbox, String>)
    ensures
        r is Ok <==> is_mailbox_text(email@),
{
    match email.parse::<Mailbox>() {
        Ok(m) => Ok(m),
        Err(e) => Err(e.to_string()),
    }
}

/// `s` begins with `prefix`.
pub open spec fn starts_with(s: Seq<char>, prefix: Seq<char>) -> bool {
    prefix.len() <= s.len() && s.subrange(0, prefix.len() as int) == prefix
}

/// Reads the address of the `field_name` field of a message.
pub fn parse_email_address(email: &str, field_name: &str) -> (r: Result<Mailbox, String>)
    ensures
        r is Ok <==> is_mailbox_text(email@),
        r matches Err(e) ==> starts_with(e@, "Invalid "@ + field_name@ + " email: "@),
{
    match read_mailbox(email) {
        Ok(m) => Ok(m),
        Err(detail) => {
            let e = String::from_str("Invalid ").concat(field_name).concat(" email: ").concat(
                detail.as_str(),
            );
            assert(e@.subrange(0, ("Invalid "@ + field_name@ + " email: "@).len() as int)
                =~= "Invalid "@ + field_name@ + " email: "@);
            Err(e)
        },
    }
}

/// A plain-text message from `from` to `to`.
///
/// Relies on lettre's `Message::builder` with `from`, `to`, `subject`, a
/// plain-text `Content-Type` header and `body`. Building fails only without
/// a `From`, with several `From` and no `Sender`, or without a recipient;
/// here there is exactly one `From` and one `To`, so it always succeeds.
/// The message is stamped with the current date. The error arm renders
/// lettre's error as text.
#[verifier::external_body]
fn compose_message(from: Mailbox, to: Mailbox, subject: &str, body: String) -> (r: Result<
    Message,
    String,
>)
    ensures
        r is Ok,
{
    match Message::builder().from(from).to(to).subject(subject).header(ContentType::TEXT_PLAIN).body(
        body,
    ) {
        Ok(m) => Ok(m),
        Err(e) => Err(e.to_string()),
    }
}

/// The message that a check-in sends, ready for delivery; with one sender
/// and one recipient it always builds.
pub fn build_email_message(from: Mailbox, to: Mailbox, subject: &str, body: String) -> (r: Result<
    Message,
    String,
>)
    ensures
        r is Ok,
{
    match compose_message(from, to, subject, body) {
        Ok(m) => Ok(m),
        Err(detail) => Err(String::from_str("Failed to build email: ").concat(detail.as_str())),
    }
}

/// Mail is wanted: it is switched on and has a recipient.
pub open spec fn mail_wanted(config: EmailConfig) -> bool {
    config.enabled && config.to_email@.len() > 0
}

/// A check-in message ready for delivery, with the subject and body it was
/// built from.
#[derive(Debug)]
pub struct SigninEmail {
    pub subject: String,
    pub body: String,
    pub message: Message,
}

/// The message to mail after `name` checks in with a streak of `streak`
/// days, if mail is wanted: none when it is switched off or has no
/// recipient; an error when an address does not read; else one message
/// from the configured sender to the configured recipient.
pub fn build_signin_email(name: &str, streak: i32, quote: &Quote, config: &EmailConfig) -> (r:
    Result<Option<SigninEmail>, String>)
    ensures
        !mail_wanted(*config) <==> r matches Ok(None),
        mail_wanted(*config) && !is_mailbox_text(config.from_email@) ==> (r matches Err(e)
            && starts_with(e@, "Invalid from email: "@)),
        mail_wanted(*config) && is_mailbox_text(config.from_email@) && !is_mailbox_text(
            config.to_email@,
        ) ==> (r matches Err(e) && starts_with(e@, "Invalid to email: "@)),
        mail_wanted(*config) && is_mailbox_text(config.from_email@) && is_mailbox_text(
            config.to_email@,
        ) ==> r matches Ok(Some(_)),
        r matches Ok(Some(m)) ==> m.subject@ == subject_text(name@, streak as int) && m.body@
            == body_text(name@, streak as int, quote.text@, quote.author@),
{
    if !config.enabled || config.to_email.as_str().is_empty() {
        return Ok(None);
    }
    let from = match parse_email_address(config.from_email.as_str(), "from") {
        Ok(m) => m,
        Err(e) => {
            assert("Invalid "@ + "from"@ + " email: "@ =~= "Invalid from email: "@) by {
                reveal_strlit("Invalid ");
                reveal_strlit("from");
                reveal_strlit(" email: ");
                reveal_strlit("Invalid from email: ");
            }
            return Err(e);
        },
    };
    let to = match parse_email_address(config.to_email.as_str(), "to") {
        Ok(m) => m,
        Err(e) => {
            assert("Invalid "@ + "to"@ + " email: "@ =~= "Invalid to email: "@) by {
                reveal_strlit("Invalid ");
                reveal_strlit("to");
                reveal_strlit(" email: ");
                reveal_strlit("Invalid to email: ");
            }
            return Err(e);
        },
    };
    let subject = build_email_subject(name, streak);
    let body = build_email_body(name, streak, quote);
    match build_email_message(from, to, subject.as_str(), body.clone()) {
        Ok(message) => Ok(Some(SigninEmail { subject, body, message })),
        Err(e) => Err(e),
    }
}

} // verus!
