//! The inbound side of a session: turning each frame the service sends into
//! at most one transcript notification, and deciding when the pump stops.
use vstd::prelude::*;

verus! {

#[verifier::external_type_specification]
#[verifier::external_body]
pub struct ExJsonValue(serde_json::Value);

/// A JSON document as a value: what the relay reads of a parsed frame.
pub enum JsonModel {
    Null,
    Bool(bool),
    Number,
    Str(Seq<char>),
    Array(Seq<JsonModel>),
    Object(Map<Seq<char>, JsonModel>),
}

/// The document that `serde_json::from_str::<Value>` makes of a text, or
/// `None` where it rejects the text.
pub uninterp spec fn json_parse(s: Seq<char>) -> Option<JsonModel>;

/// The document that a `serde_json::Value` holds.
pub uninterp spec fn json_model(v: serde_json::Value) -> JsonModel;

/// The member of an object under `key`.
pub open spec fn member_of(j: JsonModel, key: Seq<char>) -> Option<JsonModel> {
    match j {
        JsonModel::Object(m) => if m.contains_key(key) {
            Some(m[key])
        } else {
            None
        },
        _ => None,
    }
}

/// The element of an array at position `i`.
pub open spec fn element_of(j: JsonModel, i: int) -> Option<JsonModel> {
    match j {
        JsonModel::Array(a) => if 0 <= i < a.len() {
            Some(a[i])
        } else {
            None
        },
        _ => None,
    }
}

/// Relies on `serde_json::Value::as_bool`: the flag of a boolean, else `None`.
pub assume_specification[ serde_json::Value::as_bool ](v: &serde_json::Value) -> (r: Option<bool>)
    ensures
        match json_model(*v) {
            JsonModel::Bool(b) => r == Some(b),
            _ => r is None,
        },
;

/// Relies on `serde_json::Value::as_str`: the text of a string, else `None`.
pub assume_specification<'a>[ serde_json::Value::as_str ](v: &'a serde_json::Value) -> (r: Option<
    &'a str,
>)
    ensures
        match json_model(*v) {
            JsonModel::Str(t) => r is Some && r->0@ == t,
            _ => r is None,
        },
;

/// Relies on `serde_json::from_str::<Value>`: `None` where the text is not
/// a JSON document, else the document it parsed.
#[verifier::external_body]
fn parse_json(text: &str) -> (r: Option<serde_json::Value>)
    ensures
        r is Some <==> json_parse(text@) is Some,
        r matches Some(v) ==> json_model(v) == json_parse(text@)->0,
{
    serde_json::from_str::<serde_json::Value>(text).ok()
}

/// Relies on `serde_json::Value::get` with a key: the member of an object
/// under that key, if there is one.
#[verifier::external_body]
fn member<'a>(v: &'a serde_json::Value, key: &str) -> (r: Option<&'a serde_json::Value>)
    ensures
        r is Some <==> member_of(json_model(*v), key@) is Some,
        r matches Some(x) ==> json_model(*x) == member_of(json_model(*v), key@)->0,
{
    v.get(key)
}

/// Relies on `serde_json::Value::get` with a position: the element of an
/// array at that position, if there is one.
#[verifier::external_body]
fn element(v: &serde_json::Value, index: usize) -> (r: Option<&serde_json::Value>)
    ensures
        r is Some <==> element_of(json_model(*v), index as int) is Some,
        r matches Some(x) ==> json_model(*x) == element_of(json_model(*v), index as int)->0,
{
    v.get(index)
}

/// A character of Unicode's White_Space property.
pub open spec fn white_space(c: char) -> bool {
    let u = c as u32;
    (0x09 <= u <= 0x0d) || u == 0x20 || u == 0x85 || u == 0xa0 || u == 0x1680 || (0x2000 <= u
        <= 0x200a) || u == 0x2028 || u == 0x2029 || u == 0x202f || u == 0x205f || u == 0x3000
}

/// How many white space characters `s` starts with.
pub open spec fn leading_space(s: Seq<char>) -> nat
    decreases s.len(),
{
    if s.len() > 0 && white_space(s[0]) {
        1 + leading_space(s.drop_first())
    } else {
        0
    }
}

/// How many white space characters `s` ends with.
pub open spec fn trailing_space(s: Seq<char>) -> nat
    decreases s.len(),
{
    if s.len() > 0 && white_space(s.last()) {
        1 + trailing_space(s.drop_last())
    } else {
        0
    }
}

/// `s` without its leading and trailing white space.
pub open spec fn trimmed(s: Seq<char>) -> Seq<char> {
    let t = s.subrange(leading_space(s) as int, s.len() as int);
    t.subrange(0, t.len() - trailing_space(t))
}

proof fn lemma_leading_space_all(s: Seq<char>)
    requires
        forall|i: int| 0 <= i < s.len() ==> white_space(#[trigger] s[i]),
    ensures
        leading_space(s) == s.len(),
    decreases s.len(),
{
    if s.len() > 0 {
        let t = s.drop_first();
        assert forall|i: int| 0 <= i < t.len() implies white_space(#[trigger] t[i]) by {
            assert(t[i] == s[i + 1]);
        }
        lemma_leading_space_all(t);
    }
}

/// Text of white space only trims to nothing.
pub proof fn lemma_blank_trims_to_empty(s: Seq<char>)
    requires
        forall|i: int| 0 <= i < s.len() ==> white_space(#[trigger] s[i]),
    ensures
        trimmed(s).len() == 0,
{
    lemma_leading_space_all(s);
}

/// Text that neither starts nor ends with white space is left as it is.
pub proof fn lemma_trim_keeps_bare_text(s: Seq<char>)
    requires
        s.len() > 0,
        !white_space(s[0]),
        !white_space(s.last()),
    ensures
        trimmed(s) == s,
{
    assert(leading_space(s) == 0);
    let t = s.subrange(0, s.len() as int);
    assert(t == s);
    assert(trailing_space(t) == 0);
    assert(t.subrange(0, t.len() as int) == t);
}

/// Relies on `str::trim`: the text without leading and trailing characters
/// of the White_Space property.
#[verifier::external_body]
fn trim_text(s: &str) -> (r: &str)
    ensures
        r@ == trimmed(s@),
{
    s.trim()
}

/// The transcript at `channel.alternatives[0].transcript`, if it is a string.
pub open spec fn transcript_of(doc: JsonModel) -> Option<Seq<char>> {
    match member_of(doc, "channel"@) {
        Some(channel) => match member_of(channel, "alternatives"@) {
            Some(alternatives) => match element_of(alternatives, 0) {
                Some(best) => match member_of(best, "transcript"@) {
                    Some(JsonModel::Str(t)) => Some(t),
                    _ => None,
                },
                None => None,
            },
            None => None,
        },
        None => None,
    }
}

/// Whether the document is marked final: only a `true` under `is_final`.
pub open spec fn final_of(doc: JsonModel) -> bool {
    member_of(doc, "is_final"@) == Some(JsonModel::Bool(true))
}

/// The notification that a parsed frame calls for, as its text and final
/// flag: none without a document, without a transcript string, or with a
/// transcript of white space only.
pub open spec fn frame_event(doc: Option<JsonModel>) -> Option<(Seq<char>, bool)> {
    match doc {
        None => None,
        Some(d) => match transcript_of(d) {
            None => None,
            Some(t) => if trimmed(t).len() == 0 {
                None
            } else {
                Some((t, final_of(d)))
            },
        },
    }
}

/// One transcript notification for the consumer.
#[derive(Debug, Clone, PartialEq, Eq)]
pub struct TranscriptEvent {
    /// The transcript as the service sent it, untrimmed.
    pub text: String,
    /// Whether this is the final recognition of the current utterance.
    pub is_final: bool,
}

/// The notification for a transcript whose trimmed form is `trimmed`: none
/// when nothing but white space was sent, else the untrimmed text with the
/// final flag, which counts as false when absent.
pub fn event_from_parts(transcript: &str, trimmed: &str, is_final: Option<bool>) -> (r: Option<
    TranscriptEvent,
>)
    ensures
        r is Some <==> trimmed@.len() > 0,
        r matches Some(e) ==> e.text@ == transcript@ && e.is_final == (is_final == Some(true)),
{
    if trimmed.is_empty() {
        None
    } else {
        let flag = match is_final {
            Some(b) => b,
            None => false,
        };
        Some(TranscriptEvent { text: transcript.to_owned(), is_final: flag })
    }
}

/// The notification for the fields read from a frame: none without a
/// transcript or with one of white space only.
pub fn accept_transcript(is_final: Option<bool>, transcript: Option<&str>) -> (r: Option<
    TranscriptEvent,
>)
    ensures
        transcript is None ==> r is None,
        transcript matches Some(t) ==> (r is Some <==> trimmed(t@).len() > 0),
        r matches Some(e) ==> e.text@ == transcript->0@ && e.is_final == (is_final == Some(true)),
{
    match transcript {
        None => None,
        Some(t) => event_from_parts(t, trim_text(t), is_final),
    }
}

/// The transcript at `channel.alternatives[0].transcript`, if it is a string.
fn transcript_field(doc: &serde_json::Value) -> (r: Option<&str>)
    ensures
        r is Some <==> transcript_of(json_model(*doc)) is Some,
        r matches Some(t) ==> t@ == transcript_of(json_model(*doc))->0,
{
    let channel = member(doc, "channel")?;
    let alternatives = member(channel, "alternatives")?;
    let best = element(alternatives, 0)?;
    let transcript = member(best, "transcript")?;
    transcript.as_str()
}

/// Decodes the text of one inbound frame into at most one notification. Text
/// that is not JSON gives none; so does a document without a string at
/// `channel.alternatives[0].transcript`, or whose transcript is white space.
pub fn decode_frame(text: &str) -> (r: Option<TranscriptEvent>)
    ensures
        r is Some <==> frame_event(json_parse(text@)) is Some,
        r matches Some(e) ==> frame_event(json_parse(text@)) == Some((e.text@, e.is_final)),
{
    let doc = parse_json(text)?;
    let is_final = match member(&doc, "is_final") {
        Some(v) => v.as_bool(),
        None => None,
    };
    accept_transcript(is_final, transcript_field(&doc))
}

/// A frame whose transcript is white space only calls for no notification;
/// one whose transcript neither starts nor ends with white space calls for
/// exactly one, with that transcript and the frame's final flag.
pub proof fn lemma_transcript_filter(doc: JsonModel)
    requires
        transcript_of(doc) is Some,
    ensures
        (forall|i: int|
            0 <= i < transcript_of(doc)->0.len() ==> white_space(#[trigger] transcript_of(doc)->0[i]))
            ==> frame_event(Some(doc)) is None,
        ({
            let t = transcript_of(doc)->0;
            t.len() > 0 && !white_space(t[0]) && !white_space(t.last())
        }) ==> frame_event(Some(doc)) == Some((transcript_of(doc)->0, final_of(doc))),
{
    let t = transcript_of(doc)->0;
    if forall|i: int| 0 <= i < t.len() ==> white_space(#[trigger] t[i]) {
        lemma_blank_trims_to_empty(t);
    }
    if t.len() > 0 && !white_space(t[0]) && !white_space(t.last()) {
        lemma_trim_keeps_bare_text(t);
    }
}

/// What the pump got from the connection's readable half.
pub enum InboundEvent {
    /// The stream has ended.
    EndOfStream,
    /// Reading failed.
    ReadFailed,
    /// A frame arrived: its text, or `None` when it cannot be read as text.
    Frame(Option<String>),
}

/// What the pump does next.
#[derive(Debug, PartialEq, Eq)]
pub enum PumpAction {
    /// Stop pumping: the stream is over.
    Stop,
    /// Wait for the next frame; nothing is emitted for this one.
    Skip,
    /// Hand this notification to the consumer, then wait for the next frame.
    Emit(TranscriptEvent),
}

/// The pump's decision for one read. It stops exactly when the stream ends or
/// a read fails; a frame, whatever it holds, never stops it.
pub fn pump_step(ev: &InboundEvent) -> (r: PumpAction)
    ensures
        r is Stop <==> !(ev is Frame),
        ev matches InboundEvent::Frame(None) ==> r is Skip,
        ev matches InboundEvent::Frame(Some(t)) ==> match frame_event(json_parse(t@)) {
            Some((text, flag)) => r matches PumpAction::Emit(e) && e.text@ == text && e.is_final
                == flag,
            None => r is Skip,
        },
{
    match ev {
        InboundEvent::EndOfStream => PumpAction::Stop,
        InboundEvent::ReadFailed => PumpAction::Stop,
        InboundEvent::Frame(None) => PumpAction::Skip,
        InboundEvent::Frame(Some(text)) => match decode_frame(text.as_str()) {
            Some(e) => PumpAction::Emit(e),
            None => PumpAction::Skip,
        },
    }
}

} // verus!
