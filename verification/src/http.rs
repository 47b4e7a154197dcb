use vstd::prelude::*;

use crate::text::{decimal, push_decimal};

verus! {

/// The message flag that shows a response to its recipient only.
pub const EPHEMERAL_FLAG: u64 = 64;

/// The message flag that marks a message built of components.
pub const COMPONENTS_V2_FLAG: u64 = 32768;

/// The flags of a plain interaction response.
pub open spec fn plain_flags(ephemeral: bool) -> u64 {
    if ephemeral {
        64
    } else {
        0
    }
}

pub open spec fn plain_body(flags: u64, message: Seq<char>) -> Seq<char> {
    "{ \"type\": 4, \"data\": { \"flags\": "@ + decimal(flags as nat) + ", \"content\": \""@ + message
        + "\", \"allowed_mentions\": { \"parse\": [] } } }"@
}

pub open spec fn components_response_body(flags: u64, components: Seq<char>) -> Seq<char> {
    "{ \"type\": 4, \"data\": { \"flags\": "@ + decimal(flags as nat)
        + ", \"allowed_mentions\": { \"parse\": [] }, \"components\": "@ + components + " } }"@
}

pub open spec fn message_reply_body(flags: u64, message_id: u64, components: Seq<char>) -> Seq<char> {
    "{ \"flags\": "@ + decimal(flags as nat) + ", \"message_reference\": { \"message_id\": \""@ + decimal(
        message_id as nat,
    ) + "\" }, \"components\": "@ + components + " }"@
}

pub open spec fn followup_body(flags: u64, components: Seq<char>) -> Seq<char> {
    "{ \"flags\": "@ + decimal(flags as nat) + ", \"allowed_mentions\": { \"parse\": [] }, \"components\": "@
        + components + " }"@
}

/// The body of an interaction response that posts `message` as plain text,
/// with no mentions, to the user alone where `ephemeral`. The message goes
/// into the JSON as it is.
pub fn send_plain_body(message: &str, ephemeral: bool) -> (r: String)
    ensures
        r@ == plain_body(plain_flags(ephemeral), message@),
{
    let flags: u64 = if ephemeral { EPHEMERAL_FLAG } else { 0 };
    let mut s = String::from_str("{ \"type\": 4, \"data\": { \"flags\": ");
    push_decimal(&mut s, flags);
    s.append(", \"content\": \"");
    s.append(message);
    s.append("\", \"allowed_mentions\": { \"parse\": [] } } }");
    s
}

/// The body of an interaction response that posts the components JSON
/// `components`, with no mentions.
pub fn respond_components_body(components: &str) -> (r: String)
    ensures
        r@ == components_response_body(32768, components@),
{
    let mut s = String::from_str("{ \"type\": 4, \"data\": { \"flags\": ");
    push_decimal(&mut s, COMPONENTS_V2_FLAG);
    s.append(", \"allowed_mentions\": { \"parse\": [] }, \"components\": ");
    s.append(components);
    s.append(" } }");
    s
}

/// The body of a message that replies to the message `message_id` with the
/// components JSON `components`.
pub fn reply_to_message_body(message_id: u64, components: &str) -> (r: String)
    ensures
        r@ == message_reply_body(32768, message_id, components@),
{
    let mut s = String::from_str("{ \"flags\": ");
    push_decimal(&mut s, COMPONENTS_V2_FLAG);
    s.append(", \"message_reference\": { \"message_id\": \"");
    push_decimal(&mut s, message_id);
    s.append("\" }, \"components\": ");
    s.append(components);
    s.append(" }");
    s
}

/// The body that a command posts the components JSON `components` with,
/// seen by the user alone and with no mentions.
pub fn command_components_body(components: &str) -> (r: String)
    ensures
        r@ == followup_body(32832, components@),
{
    let mut s = String::from_str("{ \"flags\": ");
    push_decimal(&mut s, EPHEMERAL_FLAG | COMPONENTS_V2_FLAG);
    assert(EPHEMERAL_FLAG | COMPONENTS_V2_FLAG == 32832u64) by (bit_vector);
    s.append(", \"allowed_mentions\": { \"parse\": [] }, \"components\": ");
    s.append(components);
    s.append(" }");
    s
}

/// Where a command's components go: a follow-up message of the application
/// once the interaction has been answered, else the interaction's answer.
#[derive(Clone, Copy, Debug, PartialEq, Eq, Structural)]
pub enum ResponseRoute {
    Followup { application_id: u64 },
    InitialResponse,
}

/// Picks the route of a command's components. A follow-up needs the
/// application's id; without it the command fails.
pub fn response_route(has_sent_initial_response: bool, application_id: Option<u64>) -> (r: Result<ResponseRoute, String>)
    ensures
        !has_sent_initial_response ==> r == Ok::<ResponseRoute, String>(ResponseRoute::InitialResponse),
        has_sent_initial_response ==> match application_id {
            Some(a) => r == Ok::<ResponseRoute, String>(ResponseRoute::Followup { application_id: a }),
            None => r matches Err(e) && e@ == "No ApplicationId"@,
        },
{
    if has_sent_initial_response {
        match application_id {
            Some(a) => Ok(ResponseRoute::Followup { application_id: a }),
            None => Err(String::from_str("No ApplicationId")),
        }
    } else {
        Ok(ResponseRoute::InitialResponse)
    }
}

/// How a request to Discord went, by its HTTP status.
#[derive(Clone, Copy, Debug, PartialEq, Eq, Structural)]
pub enum RequestOutcome {
    /// Succeeded with "204 No Content", as an interaction response should.
    Done,
    /// Succeeded with some other status: worth a warning.
    DoneUnexpectedStatus,
    /// Failed: the response becomes the error.
    Failed,
}

pub open spec fn is_success(status: u16) -> bool {
    200 <= status <= 299
}

/// Reads the status of a response to a request that expects no content.
pub fn request_outcome(status: u16) -> (r: RequestOutcome)
    ensures
        r == if !is_success(status) {
            RequestOutcome::Failed
        } else if status != 204 {
            RequestOutcome::DoneUnexpectedStatus
        } else {
            RequestOutcome::Done
        },
{
    if !(200 <= status && status <= 299) {
        RequestOutcome::Failed
    } else if status != 204 {
        RequestOutcome::DoneUnexpectedStatus
    } else {
        RequestOutcome::Done
    }
}

} // verus!
