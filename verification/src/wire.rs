//! The network verdict protocol between a central arbiter and its remote
//! callers: one request for each check, with the dimension and the proposed
//! value in its path, answered by the text `true` or `false`. Whatever else
//! comes back is a denial.

use vstd::prelude::*;
use vstd::string::*;
use crate::request::{
    ClaimDimension,
    ClaimDimensionView,
    PermissionRequest,
    PermissionRequestView,
    PermissionVerdict,
};

verus! {

/// The character of a decimal digit.
pub open spec fn digit(d: nat) -> char {
    if d == 0 {
        '0'
    } else if d == 1 {
        '1'
    } else if d == 2 {
        '2'
    } else if d == 3 {
        '3'
    } else if d == 4 {
        '4'
    } else if d == 5 {
        '5'
    } else if d == 6 {
        '6'
    } else if d == 7 {
        '7'
    } else if d == 8 {
        '8'
    } else {
        '9'
    }
}

/// `n` in decimal notation, without leading zeros.
pub open spec fn decimal(n: nat) -> Seq<char>
    decreases n,
{
    if n < 10 {
        seq![digit(n)]
    } else {
        decimal(n / 10).push(digit(n % 10))
    }
}

/// The path of the request that asks for `request`.
pub open spec fn path_of(request: PermissionRequestView) -> Seq<char> {
    match request.dimension {
        ClaimDimensionView::Slot => "/authorize/slot/"@ + decimal(request.proposed_value as nat),
        ClaimDimensionView::Round => "/authorize/round/"@ + decimal(request.proposed_value as nat),
        ClaimDimensionView::Session => "/authorize/session/"@ + decimal(
            request.proposed_value as nat,
        ),
        ClaimDimensionView::RotationSeat(identity) => "/authorize_fix_order/"@ + identity,
    }
}

/// The text that answers a check.
pub open spec fn verdict_text(granted: bool) -> Seq<char> {
    if granted {
        "true"@
    } else {
        "false"@
    }
}

/// The verdict that a text spells, if it spells one.
pub open spec fn read_verdict(body: Seq<char>) -> Option<bool> {
    if body == "true"@ {
        Some(true)
    } else if body == "false"@ {
        Some(false)
    } else {
        None
    }
}

/// Whether `status` reports success.
pub open spec fn is_success(status: u16) -> bool {
    200 <= status < 300
}

/// What came back for one check: the status and the body.
#[derive(PartialEq, Eq, Debug)]
pub struct Reply {
    pub status: u16,
    pub body: String,
}

/// A `Reply` with its body as a sequence of characters.
pub struct ReplyView {
    pub status: u16,
    pub body: Seq<char>,
}

impl View for Reply {
    type V = ReplyView;

    open spec fn view(&self) -> ReplyView {
        ReplyView { status: self.status, body: self.body@ }
    }
}

/// The one reply that grants: success, with the body `true`.
pub open spec fn grants(reply: ReplyView) -> bool {
    is_success(reply.status) && read_verdict(reply.body) == Some(true)
}

/// The text that answers a check is read back as the verdict that it was
/// written for.
pub proof fn lemma_verdict_text_is_read_back(granted: bool)
    ensures
        read_verdict(verdict_text(granted)) == Some(granted),
{
    reveal_strlit("true");
    reveal_strlit("false");
    assert("true"@.len() != "false"@.len());
}

fn digit_str(d: u64) -> (text: &'static str)
    requires
        d < 10,
    ensures
        text@ == seq![digit(d as nat)],
{
    proof {
        reveal_strlit("0");
        reveal_strlit("1");
        reveal_strlit("2");
        reveal_strlit("3");
        reveal_strlit("4");
        reveal_strlit("5");
        reveal_strlit("6");
        reveal_strlit("7");
        reveal_strlit("8");
        reveal_strlit("9");
    }
    let text = if d == 0 {
        "0"
    } else if d == 1 {
        "1"
    } else if d == 2 {
        "2"
    } else if d == 3 {
        "3"
    } else if d == 4 {
        "4"
    } else if d == 5 {
        "5"
    } else if d == 6 {
        "6"
    } else if d == 7 {
        "7"
    } else if d == 8 {
        "8"
    } else {
        "9"
    };
    text
}

fn push_decimal(text: &mut String, n: u64)
    ensures
        final(text)@ == old(text)@ + decimal(n as nat),
    decreases n,
{
    if n >= 10 {
        push_decimal(text, n / 10);
    }
    text.append(digit_str(n % 10));
}

/// The path of the request that asks for `request`. An identity is put into
/// the path as it is.
pub fn request_path(request: &PermissionRequest) -> (path: String)
    ensures
        path@ == path_of(request@),
{
    match &request.dimension {
        ClaimDimension::Slot => {
            let mut path = String::from_str("/authorize/slot/");
            push_decimal(&mut path, request.proposed_value);
            path
        },
        ClaimDimension::Round => {
            let mut path = String::from_str("/authorize/round/");
            push_decimal(&mut path, request.proposed_value);
            path
        },
        ClaimDimension::Session => {
            let mut path = String::from_str("/authorize/session/");
            push_decimal(&mut path, request.proposed_value);
            path
        },
        ClaimDimension::RotationSeat(identity) => String::from_str("/authorize_fix_order/").concat(
            identity.as_str(),
        ),
    }
}

/// The text with which the arbiter answers a check.
pub fn verdict_body(granted: bool) -> (body: String)
    ensures
        body@ == verdict_text(granted),
{
    if granted {
        String::from_str("true")
    } else {
        String::from_str("false")
    }
}

/// Reads the answer to a check: `true` and `false` are verdicts, every other
/// text is none.
pub fn parse_verdict(body: &str) -> (verdict: Option<bool>)
    ensures
        verdict == read_verdict(body@),
{
    let body = body.to_owned();
    if body == String::from_str("true") {
        Some(true)
    } else if body == String::from_str("false") {
        Some(false)
    } else {
        None
    }
}

/// The verdict of one round trip. `outcome` is the reply, or the text of the
/// failure where none came back. Only a reply that reports success and whose
/// body is `true` grants; a failed round trip, another status, `false` and
/// every other body deny.
pub fn verdict_of_reply(outcome: &Result<Reply, String>) -> (verdict: PermissionVerdict)
    ensures
        verdict.granted == (outcome matches Ok(reply) && grants(reply@)),
{
    let granted = match outcome {
        Ok(reply) => {
            if 200 <= reply.status && reply.status < 300 {
                match parse_verdict(reply.body.as_str()) {
                    Some(granted) => granted,
                    None => false,
                }
            } else {
                false
            }
        },
        Err(_) => false,
    };
    PermissionVerdict { granted }
}

} // verus!
