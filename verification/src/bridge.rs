use vstd::prelude::*;

verus! {

// The bridge drains one shared bus topic that carries both inbound commands
// and the bridge's own state reports. An out-of-band attachment tag
// classifies each message; the bridge reacts only to command tags, which is
// what keeps it from being retriggered by its own echoes.
/// The two meaningful attachment tags on the shared horn topic: a command
/// carrying the desired state, and a report carrying the confirmed state.
#[derive(Clone, Copy, PartialEq, Eq, Structural, Debug)]
pub enum MessageTag {
    Target,
    Current,
}

/// The shared topic that carries both horn commands and horn state reports.
pub fn horn_status_topic() -> (r: &'static str)
    ensures
        r@ == "Vehicle/Body/Horn/IsActive"@,
{
    "Vehicle/Body/Horn/IsActive"
}

/// What a tag means, or `None` for any unrecognized tag text.
pub open spec fn spec_parse_tag(s: Seq<char>) -> Option<MessageTag> {
    if s == "targetValue"@ {
        Some(MessageTag::Target)
    } else if s == "currentValue"@ {
        Some(MessageTag::Current)
    } else {
        None
    }
}

/// The exact attachment text that announces a tag.
pub open spec fn spec_tag_label(t: MessageTag) -> Seq<char> {
    match t {
        MessageTag::Target => "targetValue"@,
        MessageTag::Current => "currentValue"@,
    }
}

/// Renders a tag as the attachment text the bus carries for it.
pub fn tag_label(t: MessageTag) -> (r: &'static str)
    ensures
        r@ == spec_tag_label(t),
{
    match t {
        MessageTag::Target => "targetValue",
        MessageTag::Current => "currentValue",
    }
}

/// Whether a text equals a given literal.
fn text_is(s: &String, lit: &str) -> (r: bool)
    ensures
        r == (s@ == lit@),
{
    *s == lit.to_owned()
}

/// Classifies an attachment text; any text other than the two known tags is
/// unrecognized and yields `None`.
pub fn parse_tag(s: &String) -> (r: Option<MessageTag>)
    ensures
        r == spec_parse_tag(s@),
{
    if text_is(s, "targetValue") {
        Some(MessageTag::Target)
    } else if text_is(s, "currentValue") {
        Some(MessageTag::Current)
    } else {
        None
    }
}

/// Whether a message's attachment (if any) marks it as an inbound command.
pub open spec fn spec_is_target_command(attachment: Option<String>) -> bool {
    match attachment {
        Some(s) => spec_parse_tag(s@) == Some(MessageTag::Target),
        None => false,
    }
}

/// Whether a message carrying this attachment is an inbound command. An
/// absent attachment, a report tag, or unrecognized text all say no.
pub fn contains_target_value(attachment: &Option<String>) -> (r: bool)
    ensures
        r == spec_is_target_command(*attachment),
{
    match attachment {
        Some(s) => match parse_tag(s) {
            Some(MessageTag::Target) => true,
            _ => false,
        },
        None => false,
    }
}

/// The boolean a message body denotes: exactly the texts "true" and "false"
/// parse; anything else is malformed.
pub open spec fn spec_parse_bool(s: Seq<char>) -> Option<bool> {
    if s == "true"@ {
        Some(true)
    } else if s == "false"@ {
        Some(false)
    } else {
        None
    }
}

/// Parses a message body as a boolean target state. Malformed text is
/// reported as `None` and the caller discards the message: an unparseable
/// command is never coerced to an implicit deactivation.
pub fn payload_as_bool(s: &String) -> (r: Option<bool>)
    ensures
        r == spec_parse_bool(s@),
{
    if text_is(s, "true") {
        Some(true)
    } else if text_is(s, "false") {
        Some(false)
    } else {
        None
    }
}

/// The textual form a state is reported under.
pub open spec fn spec_bool_label(b: bool) -> Seq<char> {
    if b {
        "true"@
    } else {
        "false"@
    }
}

/// The textual form of a confirmed state, as republished on the bus.
pub fn bool_label(b: bool) -> (r: &'static str)
    ensures
        r@ == spec_bool_label(b),
{
    if b {
        "true"
    } else {
        "false"
    }
}

/// What the bridge does with one inbound message.
#[derive(Clone, PartialEq, Eq, Debug)]
pub enum BridgeAction {
    /// The message is not an inbound command (no attachment, a report tag,
    /// or unrecognized tag text): leave it alone.
    Ignore,
    /// The message is a command but its body is not a boolean (or not text
    /// at all): log the malformed command and discard it.
    RejectMalformed,
    /// The message is a well-formed command: report the confirmed state
    /// `status` by publishing `body` on the same topic under the report tag.
    Publish { status: bool, body: String, tag: MessageTag },
}

/// Decides, from a message's attachment and its body text (`None` when the
/// body is not text), how the bridge reacts: only messages tagged as
/// commands are considered, a malformed boolean is discarded with an error,
/// and a well-formed command is echoed as a report of the confirmed state.
pub fn bridge_step(attachment: &Option<String>, body: &Option<String>) -> (a: BridgeAction)
    ensures
        !spec_is_target_command(*attachment) ==> a == BridgeAction::Ignore,
        spec_is_target_command(*attachment) ==> (match *body {
            Some(s) => (match spec_parse_bool(s@) {
                Some(b) => a matches BridgeAction::Publish { status, body: out, tag }
                    && status == b && tag == MessageTag::Current && out@ == spec_bool_label(b),
                None => a == BridgeAction::RejectMalformed,
            }),
            None => a == BridgeAction::RejectMalformed,
        }),
{
    if !contains_target_value(attachment) {
        return BridgeAction::Ignore;
    }
    match body {
        Some(text) => match payload_as_bool(text) {
            Some(status) => BridgeAction::Publish {
                status,
                body: bool_label(status).to_owned(),
                tag: MessageTag::Current,
            },
            None => BridgeAction::RejectMalformed,
        },
        None => BridgeAction::RejectMalformed,
    }
}

} // verus!
