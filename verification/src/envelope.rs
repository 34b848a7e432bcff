use vstd::prelude::*;
use vstd::slice::slice_subrange;
use vstd::string::StringExecFns;

verus! {

/// One chat message as the relay's collaborators exchange it: the wall-clock
/// send time, the sender-chosen display name, and the raw text. The relay
/// itself never inspects these fields — it forwards serialized bytes
/// verbatim; only the participants encode and decode them.
pub struct Envelope {
    pub time: String,
    pub nick: String,
    pub text: String,
}

/// What the black-box serializer produces for one `{time, nick, text}`
/// record: a function of the three field values alone.
pub uninterp spec fn json_of(time: Seq<char>, nick: Seq<char>, text: Seq<char>) -> Seq<char>;

/// What the black-box parser reads out of one serialized payload: the three
/// displayed fields, or nothing when the payload is not well-formed JSON. A
/// function of the payload alone.
pub uninterp spec fn envelope_of(s: Seq<char>) -> Option<(Seq<char>, Seq<char>, Seq<char>)>;

/// Relies on json::stringify (json 0.12): serializes the three-field object;
/// the output depends on the field values alone.
#[verifier::external_body]
fn encode_fields(time: &str, nick: &str, text: &str) -> (r: String)
    ensures
        r@ == json_of(time@, nick@, text@),
{
    let mut obj = json::object::Object::new();
    obj.insert("time", json::JsonValue::from(time));
    obj.insert("nick", json::JsonValue::from(nick));
    obj.insert("text", json::JsonValue::from(text));
    json::stringify(json::JsonValue::Object(obj))
}

/// Relies on json::parse (json 0.12): a payload parses exactly when it is
/// well-formed JSON, and each displayed field is a function of the payload
/// alone (an absent field displays the way JSON null does).
#[verifier::external_body]
fn parse_fields(s: &str) -> (r: Option<(String, String, String)>)
    ensures
        r is Some <==> envelope_of(s@) is Some,
        r matches Some(f) ==> envelope_of(s@) == Some((f.0@, f.1@, f.2@)),
{
    match json::parse(s) {
        Ok(v) => Some(
            (format!("{}", v["time"]), format!("{}", v["nick"]), format!("{}", v["text"])),
        ),
        Err(_) => None,
    }
}

/// Relies on std's str::from_utf8: succeeds exactly on valid UTF-8 and
/// decodes the bytes.
#[verifier::external_body]
fn bytes_to_str(b: &[u8]) -> (r: Option<&str>)
    ensures
        r is Some <==> vstd::utf8::valid_utf8(b@),
        r matches Some(s) ==> s@ == vstd::utf8::decode_utf8(b@),
{
    core::str::from_utf8(b).ok()
}

/// The display line of one decoded message: `[time]<nick>: text`.
pub open spec fn rendered(time: Seq<char>, nick: Seq<char>, text: Seq<char>) -> Seq<char> {
    "["@ + time + "]<"@ + nick + ">: "@ + text
}

/// The display of one received payload: its rendered message, or a fixed
/// notice when the bytes are not UTF-8 or not a well-formed envelope.
pub open spec fn shown_message(b: Seq<u8>) -> Seq<char> {
    if !vstd::utf8::valid_utf8(b) {
        "[invalid message encoding]"@
    } else {
        match envelope_of(vstd::utf8::decode_utf8(b)) {
            Some(f) => rendered(f.0, f.1, f.2),
            None => "[unreadable message]"@,
        }
    }
}

impl Envelope {
    /// Serializes this envelope through the black-box codec, ready to send.
    pub fn to_wire(&self) -> (r: String)
        ensures
            r@ == json_of(self.time@, self.nick@, self.text@),
    {
        encode_fields(self.time.as_str(), self.nick.as_str(), self.text.as_str())
    }

    /// Reads one serialized payload back into an envelope.
    pub fn from_wire(s: &str) -> (r: Option<Envelope>)
        ensures
            r is Some <==> envelope_of(s@) is Some,
            r matches Some(e) ==> envelope_of(s@) == Some((e.time@, e.nick@, e.text@)),
    {
        match parse_fields(s) {
            Some(f) => Some(Envelope { time: f.0, nick: f.1, text: f.2 }),
            None => None,
        }
    }
}

/// Formats one decoded envelope for display.
pub fn render_message(e: &Envelope) -> (r: String)
    ensures
        r@ == rendered(e.time@, e.nick@, e.text@),
{
    let mut out = String::from_str("[");
    out.append(e.time.as_str());
    out.append("]<");
    out.append(e.nick.as_str());
    out.append(">: ");
    out.append(e.text.as_str());
    out
}

/// Decodes and formats the first `size` bytes of one received payload for
/// display.
pub fn show_msg(buff: &[u8], size: usize) -> (r: String)
    requires
        size <= buff@.len(),
    ensures
        r@ == shown_message(buff@.take(size as int)),
{
    let frame = slice_subrange(buff, 0, size);
    proof {
        assert(frame@ =~= buff@.take(size as int));
    }
    match bytes_to_str(frame) {
        None => String::from_str("[invalid message encoding]"),
        Some(s) => {
            match Envelope::from_wire(s) {
                None => String::from_str("[unreadable message]"),
                Some(e) => render_message(&e),
            }
        },
    }
}

} // verus!
