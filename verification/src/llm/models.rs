//! The chat completion model: role-tagged messages, sampling options,
//! the JSON request body they render to, and the typed response read
//! back from JSON.
//!
//! The sampling parameters are fixed-point numbers of thousandths, so
//! that `700` renders as `0.7`; the surrounding application converts
//! from whatever numeric type its interface offers.

use vstd::prelude::*;
use crate::json::{
    JsonData, json_field, read_str_field, read_u64_field, spec_field, spec_str_field,
    spec_u64_field,
};
use crate::jsonfmt::{
    json_member, json_obj, json_arr, json_str_lit, json_str_array, json_object_of,
    json_str_array_of, push_member_str, push_member_rendered,
};
use crate::num::{dec_rep, milli_rep, fmt_u32, fmt_u64, fmt_milli};
use crate::text::{seq_views, str_eq};
use crate::llm::error::LlmError;

verus! {

/// The sender of a chat message.
#[derive(Debug, Clone, Copy, PartialEq, Eq, Structural)]
pub enum Role {
    System,
    User,
    Assistant,
}

/// The role's name on the wire, lower case.
pub open spec fn spec_role_str(r: Role) -> Seq<char> {
    match r {
        Role::System => "system"@,
        Role::User => "user"@,
        Role::Assistant => "assistant"@,
    }
}

impl Role {
    /// The role's name on the wire.
    pub fn as_str(&self) -> (r: &str)
        ensures
            r@ == spec_role_str(*self),
    {
        match self {
            Role::System => "system",
            Role::User => "user",
            Role::Assistant => "assistant",
        }
    }
}

/// Reads a role from its wire name; exactly the three known names are
/// accepted.
pub fn role_from_str(s: &str) -> (r: Result<Role, ()>)
    ensures
        s@ == "system"@ ==> r == Result::<Role, ()>::Ok(Role::System),
        s@ == "user"@ ==> r == Result::<Role, ()>::Ok(Role::User),
        s@ == "assistant"@ ==> r == Result::<Role, ()>::Ok(Role::Assistant),
        s@ != "system"@ && s@ != "user"@ && s@ != "assistant"@ ==> r is Err,
{
    proof {
        reveal_strlit("system");
        reveal_strlit("user");
        reveal_strlit("assistant");
        assert("system"@.len() == 6);
        assert("user"@.len() == 4);
        assert("assistant"@.len() == 9);
    }
    if str_eq(s, "system") {
        Ok(Role::System)
    } else if str_eq(s, "user") {
        Ok(Role::User)
    } else if str_eq(s, "assistant") {
        Ok(Role::Assistant)
    } else {
        Err(())
    }
}

/// A single message in the conversation.
#[derive(Debug, Clone, PartialEq, Eq)]
pub struct Message {
    pub role: Role,
    pub content: String,
}

impl Message {
    /// A system message.
    pub fn system(content: String) -> (r: Self)
        ensures
            r.role is System,
            r.content == content,
    {
        Message { role: Role::System, content }
    }

    /// A user message.
    pub fn user(content: String) -> (r: Self)
        ensures
            r.role is User,
            r.content == content,
    {
        Message { role: Role::User, content }
    }

    /// An assistant message.
    pub fn assistant(content: String) -> (r: Self)
        ensures
            r.role is Assistant,
            r.content == content,
    {
        Message { role: Role::Assistant, content }
    }
}

/// Sampling options for a completion request. Absent fields are not
/// sent at all. The fractional parameters are in thousandths.
#[derive(Debug, Clone, PartialEq, Eq)]
pub struct CompletionOptions {
    /// Sampling temperature in thousandths, `700` meaning `0.7`.
    pub temperature: Option<i32>,
    /// Upper bound on generated tokens.
    pub max_tokens: Option<u32>,
    /// Nucleus sampling parameter in thousandths.
    pub top_p: Option<i32>,
    /// Frequency penalty in thousandths; may be negative.
    pub frequency_penalty: Option<i32>,
    /// Presence penalty in thousandths; may be negative.
    pub presence_penalty: Option<i32>,
    /// Stop sequences.
    pub stop: Option<Vec<String>>,
}

impl Default for CompletionOptions {
    /// Every option absent; the service chooses its own defaults.
    fn default() -> (r: Self)
        ensures
            r.temperature is None,
            r.max_tokens is None,
            r.top_p is None,
            r.frequency_penalty is None,
            r.presence_penalty is None,
            r.stop is None,
    {
        CompletionOptions {
            temperature: None,
            max_tokens: None,
            top_p: None,
            frequency_penalty: None,
            presence_penalty: None,
            stop: None,
        }
    }
}

impl CompletionOptions {
    /// Every option absent.
    pub fn new() -> (r: Self)
        ensures
            r.temperature is None,
            r.max_tokens is None,
            r.top_p is None,
            r.frequency_penalty is None,
            r.presence_penalty is None,
            r.stop is None,
    {
        CompletionOptions::default()
    }

    /// Sets the sampling temperature, in thousandths.
    pub fn temperature(self, temperature: i32) -> (r: Self)
        ensures
            r == (CompletionOptions { temperature: Some(temperature), ..self }),
    {
        CompletionOptions { temperature: Some(temperature), ..self }
    }

    /// Sets the token limit.
    pub fn max_tokens(self, max_tokens: u32) -> (r: Self)
        ensures
            r == (CompletionOptions { max_tokens: Some(max_tokens), ..self }),
    {
        CompletionOptions { max_tokens: Some(max_tokens), ..self }
    }

    /// Sets the nucleus sampling parameter, in thousandths.
    pub fn top_p(self, top_p: i32) -> (r: Self)
        ensures
            r == (CompletionOptions { top_p: Some(top_p), ..self }),
    {
        CompletionOptions { top_p: Some(top_p), ..self }
    }
}

/// The members a sampling-options value contributes to a request body,
/// in declaration order; absent fields contribute nothing, never
/// `null`.
pub open spec fn spec_options_entries(o: CompletionOptions) -> Seq<Seq<char>> {
    (match o.temperature {
        Some(t) => seq![json_member("temperature"@, milli_rep(t as int))],
        None => Seq::empty(),
    }) + (match o.max_tokens {
        Some(n) => seq![json_member("max_tokens"@, dec_rep(n as nat))],
        None => Seq::empty(),
    }) + (match o.top_p {
        Some(t) => seq![json_member("top_p"@, milli_rep(t as int))],
        None => Seq::empty(),
    }) + (match o.frequency_penalty {
        Some(t) => seq![json_member("frequency_penalty"@, milli_rep(t as int))],
        None => Seq::empty(),
    }) + (match o.presence_penalty {
        Some(t) => seq![json_member("presence_penalty"@, milli_rep(t as int))],
        None => Seq::empty(),
    }) + (match o.stop {
        Some(ss) => seq![json_member("stop"@, json_str_array(seq_views(ss@)))],
        None => Seq::empty(),
    })
}

/// A sampling-options value contributes exactly one body member per
/// present field: an absent field adds nothing, never a `null` member.
pub proof fn lemma_options_member_count(o: CompletionOptions)
    ensures
        spec_options_entries(o).len() == (if o.temperature is Some {
            1int
        } else {
            0int
        }) + (if o.max_tokens is Some {
            1int
        } else {
            0int
        }) + (if o.top_p is Some {
            1int
        } else {
            0int
        }) + (if o.frequency_penalty is Some {
            1int
        } else {
            0int
        }) + (if o.presence_penalty is Some {
            1int
        } else {
            0int
        }) + (if o.stop is Some {
            1int
        } else {
            0int
        }),
{
}

/// A field set only by its setter is the only field serialized: with
/// only `temperature` and `max_tokens` present, the body holds those
/// two members and nothing else, and an absent field never appears as
/// `null`.
pub proof fn lemma_options_entries_exact(o: CompletionOptions)
    requires
        o.top_p is None,
        o.frequency_penalty is None,
        o.presence_penalty is None,
        o.stop is None,
        o.temperature is Some,
        o.max_tokens is Some,
    ensures
        spec_options_entries(o) =~= seq![
            json_member("temperature"@, milli_rep(o.temperature->0 as int)),
            json_member("max_tokens"@, dec_rep(o.max_tokens->0 as nat)),
        ],
{
}

/// Appends the members of a sampling-options value, as
/// [`spec_options_entries`] describes.
#[verifier::rlimit(100)]
pub fn push_options_entries(entries: &mut Vec<String>, o: &CompletionOptions)
    ensures
        seq_views(final(entries)@) =~= seq_views(old(entries)@) + spec_options_entries(*o),
{
    let ghost base = seq_views(entries@);
    let ghost s1 = (match &o.temperature {
        Some(t) => seq![json_member("temperature"@, milli_rep(*t as int))],
        None => Seq::<Seq<char>>::empty(),
    });
    let ghost s2 = (match &o.max_tokens {
        Some(n) => seq![json_member("max_tokens"@, dec_rep(*n as nat))],
        None => Seq::<Seq<char>>::empty(),
    });
    let ghost s3 = (match &o.top_p {
        Some(t) => seq![json_member("top_p"@, milli_rep(*t as int))],
        None => Seq::<Seq<char>>::empty(),
    });
    let ghost s4 = (match &o.frequency_penalty {
        Some(t) => seq![json_member("frequency_penalty"@, milli_rep(*t as int))],
        None => Seq::<Seq<char>>::empty(),
    });
    let ghost s5 = (match &o.presence_penalty {
        Some(t) => seq![json_member("presence_penalty"@, milli_rep(*t as int))],
        None => Seq::<Seq<char>>::empty(),
    });
    let ghost s6 = (match &o.stop {
        Some(ss) => seq![json_member("stop"@, json_str_array(seq_views(ss@)))],
        None => Seq::<Seq<char>>::empty(),
    });
    match &o.temperature {
        Some(t) => push_member_rendered(entries, "temperature", fmt_milli(*t)),
        None => {},
    }
    proof {
        assert(seq_views(entries@) =~= base + s1);
    }
    match &o.max_tokens {
        Some(n) => push_member_rendered(entries, "max_tokens", fmt_u32(*n)),
        None => {},
    }
    proof {
        assert(seq_views(entries@) =~= base + s1 + s2);
    }
    match &o.top_p {
        Some(t) => push_member_rendered(entries, "top_p", fmt_milli(*t)),
        None => {},
    }
    proof {
        assert(seq_views(entries@) =~= base + s1 + s2 + s3);
    }
    match &o.frequency_penalty {
        Some(t) => push_member_rendered(entries, "frequency_penalty", fmt_milli(*t)),
        None => {},
    }
    proof {
        assert(seq_views(entries@) =~= base + s1 + s2 + s3 + s4);
    }
    match &o.presence_penalty {
        Some(t) => push_member_rendered(entries, "presence_penalty", fmt_milli(*t)),
        None => {},
    }
    proof {
        assert(seq_views(entries@) =~= base + s1 + s2 + s3 + s4 + s5);
    }
    match &o.stop {
        Some(ss) => {
            let rendered = json_str_array_of(ss);
            push_member_rendered(entries, "stop", rendered);
        },
        None => {},
    }
    proof {
        assert(seq_views(entries@) =~= base + s1 + s2 + s3 + s4 + s5 + s6);
        assert(seq_views(entries@) =~= base + spec_options_entries(*o));
    }
}

/// Renders a sampling-options value alone as a JSON object, as the
/// request body embeds it.
pub fn options_json(o: &CompletionOptions) -> (r: String)
    ensures
        r@ == json_obj(spec_options_entries(*o)),
{
    let mut entries: Vec<String> = Vec::new();
    push_options_entries(&mut entries, o);
    proof {
        assert(seq_views(Seq::<String>::empty()) =~= Seq::<Seq<char>>::empty());
        assert(seq_views(entries@) =~= spec_options_entries(*o));
    }
    json_object_of(&entries)
}

/// One message as the request body renders it.
pub open spec fn spec_message_json(m: Message) -> Seq<char> {
    json_obj(
        seq![
            json_member("role"@, json_str_lit(spec_role_str(m.role))),
            json_member("content"@, json_str_lit(m.content@)),
        ],
    )
}

/// Renders one message, as [`spec_message_json`] describes.
pub fn message_json(m: &Message) -> (r: String)
    ensures
        r@ == spec_message_json(*m),
{
    let mut entries: Vec<String> = Vec::new();
    push_member_str(&mut entries, "role", m.role.as_str());
    push_member_str(&mut entries, "content", m.content.as_str());
    proof {
        assert(seq_views(entries@) =~= seq![
            json_member("role"@, json_str_lit(spec_role_str(m.role))),
            json_member("content"@, json_str_lit(m.content@)),
        ]);
    }
    json_object_of(&entries)
}

/// The message list as the request body renders it.
pub open spec fn spec_messages_json(ms: Seq<Message>) -> Seq<char> {
    json_arr(Seq::new(ms.len(), |i: int| spec_message_json(ms[i])))
}

/// Renders the message list, as [`spec_messages_json`] describes.
pub fn messages_json(ms: &Vec<Message>) -> (r: String)
    ensures
        r@ == spec_messages_json(ms@),
{
    let ghost rendered = Seq::new(ms@.len(), |i: int| spec_message_json(ms@[i]));
    let mut parts: Vec<String> = Vec::new();
    let mut i: usize = 0;
    while i < ms.len()
        invariant
            0 <= i <= ms@.len(),
            rendered == Seq::new(ms@.len(), |j: int| spec_message_json(ms@[j])),
            seq_views(parts@) =~= rendered.take(i as int),
        decreases ms@.len() - i,
    {
        let ghost prev = parts@;
        parts.push(message_json(&ms[i]));
        proof {
            assert(seq_views(parts@) =~= seq_views(prev) + seq![spec_message_json(ms@[i as int])]);
            assert(rendered.take(i as int + 1) =~= rendered.take(i as int) + seq![
                spec_message_json(ms@[i as int]),
            ]);
        }
        i = i + 1;
    }
    proof {
        assert(rendered.take(ms@.len() as int) =~= rendered);
    }
    let mut acc = String::new();
    crate::text::push_char(&mut acc, '[');
    let joined = crate::text::join_strings(&parts, ",");
    proof {
        reveal_strlit(",");
        assert(","@ =~= seq![',']);
    }
    acc.append(joined.as_str());
    crate::text::push_char(&mut acc, ']');
    acc
}

/// A chat completion request: the model, the conversation so far, and
/// the sampling options.
#[derive(Debug, Clone, PartialEq, Eq)]
pub struct ChatCompletionRequest {
    pub model: String,
    pub messages: Vec<Message>,
    pub options: CompletionOptions,
}

/// The JSON body of a chat completion request: model, messages, and
/// the options' members flattened alongside them.
pub open spec fn spec_chat_body(r: ChatCompletionRequest) -> Seq<char> {
    json_obj(
        seq![
            json_member("model"@, json_str_lit(r.model@)),
            json_member("messages"@, spec_messages_json(r.messages@)),
        ] + spec_options_entries(r.options),
    )
}

/// Renders the JSON body of a chat completion request, as
/// [`spec_chat_body`] describes.
pub fn chat_request_body(r: &ChatCompletionRequest) -> (res: String)
    ensures
        res@ == spec_chat_body(*r),
{
    let mut entries: Vec<String> = Vec::new();
    push_member_str(&mut entries, "model", r.model.as_str());
    let rendered_messages = messages_json(&r.messages);
    push_member_rendered(&mut entries, "messages", rendered_messages);
    proof {
        assert(seq_views(entries@) =~= seq![
            json_member("model"@, json_str_lit(r.model@)),
            json_member("messages"@, spec_messages_json(r.messages@)),
        ]);
    }
    push_options_entries(&mut entries, &r.options);
    json_object_of(&entries)
}

/// One choice in a completion response.
#[derive(Debug, Clone, PartialEq, Eq)]
pub struct Choice {
    pub index: u32,
    pub message: Message,
    pub finish_reason: Option<String>,
}

/// Token usage accounting of one completion.
#[derive(Debug, Clone, PartialEq, Eq)]
pub struct Usage {
    pub prompt_tokens: u32,
    pub completion_tokens: u32,
    pub total_tokens: u32,
}

/// A chat completion response.
#[derive(Debug, Clone, PartialEq, Eq)]
pub struct ChatCompletionResponse {
    pub id: String,
    pub model: String,
    pub choices: Vec<Choice>,
    pub usage: Usage,
    pub created: u64,
}

impl ChatCompletionResponse {
    /// The content of the first choice, when there is one.
    pub fn content(&self) -> (r: Option<&str>)
        ensures
            self.choices@.len() > 0 ==> (r is Some && r->0@ == self.choices@[0].message.content@),
            self.choices@.len() == 0 ==> r is None,
    {
        if self.choices.len() > 0 {
            Some(self.choices[0].message.content.as_str())
        } else {
            None
        }
    }
}

/// The error envelope some failures carry in the response body.
#[derive(Debug, Clone, PartialEq, Eq)]
pub struct ErrorResponse {
    pub error: ErrorDetail,
}

/// The details inside an error envelope.
#[derive(Debug, Clone, PartialEq, Eq)]
pub struct ErrorDetail {
    pub message: String,
    pub error_type: Option<String>,
    pub code: Option<String>,
}

/// The role a wire name denotes.
pub open spec fn spec_role_of(s: Seq<char>) -> Option<Role> {
    if s == "system"@ {
        Some(Role::System)
    } else if s == "user"@ {
        Some(Role::User)
    } else if s == "assistant"@ {
        Some(Role::Assistant)
    } else {
        None
    }
}

/// A message record is acceptable: an object with a known role name
/// and a string content, both present.
pub open spec fn spec_message_ok(d: JsonData) -> bool {
    &&& d is Obj
    &&& (spec_str_field(d, "role"@) matches Ok(Some(s)) && spec_role_of(s@) is Some)
    &&& spec_str_field(d, "content"@) is Ok
    &&& spec_str_field(d, "content"@)->Ok_0 is Some
}

/// The message an acceptable record denotes.
pub open spec fn spec_message_matches(m: Message, d: JsonData) -> bool {
    &&& (spec_str_field(d, "role"@) matches Ok(Some(s)) && Some(m.role) == spec_role_of(s@))
    &&& Some(m.content) == spec_str_field(d, "content"@)->Ok_0
}

fn message_from_json(d: &JsonData) -> (r: Result<Message, ()>)
    ensures
        r is Ok <==> spec_message_ok(*d),
        r matches Ok(m) ==> spec_message_matches(m, *d),
{
    match d {
        JsonData::Obj(_) => {},
        _ => {
            return Err(());
        },
    }
    let role = match read_str_field(d, "role") {
        Ok(Some(s)) => match role_from_str(s.as_str()) {
            Ok(role) => role,
            Err(()) => {
                return Err(());
            },
        },
        _ => {
            return Err(());
        },
    };
    let content = match read_str_field(d, "content") {
        Ok(Some(s)) => s,
        _ => {
            return Err(());
        },
    };
    Ok(Message { role, content })
}

/// A choice record is acceptable: an index fitting `u32`, a message
/// record, and an optional string finish reason.
pub open spec fn spec_choice_ok(d: JsonData) -> bool {
    &&& d is Obj
    &&& (spec_u64_field(d, "index"@) matches Ok(Some(n)) && n <= u32::MAX)
    &&& (spec_field(d, "message"@) matches Some(x) && spec_message_ok(x))
    &&& spec_str_field(d, "finish_reason"@) is Ok
}

/// The choice an acceptable record denotes.
pub open spec fn spec_choice_matches(c: Choice, d: JsonData) -> bool {
    &&& (spec_u64_field(d, "index"@) matches Ok(Some(n)) && c.index == n as u32)
    &&& (spec_field(d, "message"@) matches Some(x) && spec_message_matches(c.message, x))
    &&& c.finish_reason == spec_str_field(d, "finish_reason"@)->Ok_0
}

fn choice_from_json(d: &JsonData) -> (r: Result<Choice, ()>)
    ensures
        r is Ok <==> spec_choice_ok(*d),
        r matches Ok(c) ==> spec_choice_matches(c, *d),
{
    match d {
        JsonData::Obj(_) => {},
        _ => {
            return Err(());
        },
    }
    let index = match read_u64_field(d, "index") {
        Ok(Some(n)) => {
            if n > u32::MAX as u64 {
                return Err(());
            }
            n as u32
        },
        _ => {
            return Err(());
        },
    };
    let message = match json_field(d, "message") {
        Some(x) => match message_from_json(x) {
            Ok(m) => m,
            Err(()) => {
                return Err(());
            },
        },
        None => {
            return Err(());
        },
    };
    let finish_reason = match read_str_field(d, "finish_reason") {
        Ok(x) => x,
        Err(()) => {
            return Err(());
        },
    };
    Ok(Choice { index, message, finish_reason })
}

/// A usage record is acceptable: the three token counters present and
/// fitting `u32`.
pub open spec fn spec_usage_ok(d: JsonData) -> bool {
    &&& d is Obj
    &&& (spec_u64_field(d, "prompt_tokens"@) matches Ok(Some(n)) && n <= u32::MAX)
    &&& (spec_u64_field(d, "completion_tokens"@) matches Ok(Some(n)) && n <= u32::MAX)
    &&& (spec_u64_field(d, "total_tokens"@) matches Ok(Some(n)) && n <= u32::MAX)
}

/// The usage an acceptable record denotes.
pub open spec fn spec_usage_matches(u: Usage, d: JsonData) -> bool {
    &&& (spec_u64_field(d, "prompt_tokens"@) matches Ok(Some(n)) && u.prompt_tokens == n as u32)
    &&& (spec_u64_field(d, "completion_tokens"@) matches Ok(Some(n)) && u.completion_tokens == n
        as u32)
    &&& (spec_u64_field(d, "total_tokens"@) matches Ok(Some(n)) && u.total_tokens == n as u32)
}

fn usage_from_json(d: &JsonData) -> (r: Result<Usage, ()>)
    ensures
        r is Ok <==> spec_usage_ok(*d),
        r matches Ok(u) ==> spec_usage_matches(u, *d),
{
    match d {
        JsonData::Obj(_) => {},
        _ => {
            return Err(());
        },
    }
    let prompt_tokens = match read_u64_field(d, "prompt_tokens") {
        Ok(Some(n)) => {
            if n > u32::MAX as u64 {
                return Err(());
            }
            n as u32
        },
        _ => {
            return Err(());
        },
    };
    let completion_tokens = match read_u64_field(d, "completion_tokens") {
        Ok(Some(n)) => {
            if n > u32::MAX as u64 {
                return Err(());
            }
            n as u32
        },
        _ => {
            return Err(());
        },
    };
    let total_tokens = match read_u64_field(d, "total_tokens") {
        Ok(Some(n)) => {
            if n > u32::MAX as u64 {
                return Err(());
            }
            n as u32
        },
        _ => {
            return Err(());
        },
    };
    Ok(Usage { prompt_tokens, completion_tokens, total_tokens })
}

/// A completion record is acceptable: `id`, `model` and `created`
/// present with their kinds, a list of acceptable choices, and an
/// acceptable usage record.
pub open spec fn spec_completion_ok(d: JsonData) -> bool {
    &&& d is Obj
    &&& spec_str_field(d, "id"@) is Ok
    &&& spec_str_field(d, "id"@)->Ok_0 is Some
    &&& spec_str_field(d, "model"@) is Ok
    &&& spec_str_field(d, "model"@)->Ok_0 is Some
    &&& (spec_field(d, "choices"@) matches Some(x) && x is List && (forall|i: int|
        0 <= i < x->List_0@.len() ==> spec_choice_ok(#[trigger] x->List_0@[i])))
    &&& (spec_field(d, "usage"@) matches Some(x) && spec_usage_ok(x))
    &&& spec_u64_field(d, "created"@) is Ok
    &&& spec_u64_field(d, "created"@)->Ok_0 is Some
}

/// The completion an acceptable record denotes: the fields as read,
/// the choices element by element in order.
pub open spec fn spec_completion_matches(c: ChatCompletionResponse, d: JsonData) -> bool {
    &&& Some(c.id) == spec_str_field(d, "id"@)->Ok_0
    &&& Some(c.model) == spec_str_field(d, "model"@)->Ok_0
    &&& (spec_field(d, "choices"@) matches Some(x) && x is List && c.choices@.len()
        == x->List_0@.len() && (forall|i: int|
        0 <= i < c.choices@.len() ==> spec_choice_matches(#[trigger] c.choices@[i], x->List_0@[i])))
    &&& (spec_field(d, "usage"@) matches Some(x) && spec_usage_matches(c.usage, x))
    &&& Some(c.created) == spec_u64_field(d, "created"@)->Ok_0
}

/// The error a malformed completion record maps to.
fn completion_decode_error() -> (r: LlmError)
    ensures
        r is JsonParseFailed,
{
    LlmError::JsonParseFailed(
        "completion response does not match the expected schema".to_owned(),
    )
}

/// Reads a completion response from a parsed JSON value: exactly the
/// acceptable records are accepted, the result fixed by
/// [`spec_completion_matches`]; everything else is a decode failure.
pub fn completion_from_json(d: &JsonData) -> (r: Result<ChatCompletionResponse, LlmError>)
    ensures
        r is Ok <==> spec_completion_ok(*d),
        r matches Ok(c) ==> spec_completion_matches(c, *d),
        r is Err ==> r->Err_0 is JsonParseFailed,
{
    match d {
        JsonData::Obj(_) => {},
        _ => {
            return Err(completion_decode_error());
        },
    }
    let id = match read_str_field(d, "id") {
        Ok(Some(s)) => s,
        _ => {
            return Err(completion_decode_error());
        },
    };
    let model = match read_str_field(d, "model") {
        Ok(Some(s)) => s,
        _ => {
            return Err(completion_decode_error());
        },
    };
    let choices = match json_field(d, "choices") {
        Some(x) => match x {
            JsonData::List(items) => {
                let n: usize = items.len();
                let mut out: Vec<Choice> = Vec::new();
                let mut i: usize = 0;
                while i < n
                    invariant
                        n == items@.len(),
                        0 <= i <= n,
                        out@.len() == i,
                        spec_field(*d, "choices"@) is Some,
                        spec_field(*d, "choices"@)->0 is List,
                        spec_field(*d, "choices"@)->0->List_0@ == items@,
                        forall|j: int| 0 <= j < i ==> spec_choice_ok(#[trigger] items@[j]),
                        forall|j: int|
                            0 <= j < i ==> spec_choice_matches(#[trigger] out@[j], items@[j]),
                    decreases n - i,
                {
                    match choice_from_json(&items[i]) {
                        Ok(c) => out.push(c),
                        Err(()) => {
                            proof {
                                assert(!spec_choice_ok(items@[i as int]));
                            }
                            return Err(completion_decode_error());
                        },
                    }
                    i = i + 1;
                }
                out
            },
            _ => {
                return Err(completion_decode_error());
            },
        },
        None => {
            return Err(completion_decode_error());
        },
    };
    let usage = match json_field(d, "usage") {
        Some(x) => match usage_from_json(x) {
            Ok(u) => u,
            Err(()) => {
                return Err(completion_decode_error());
            },
        },
        None => {
            return Err(completion_decode_error());
        },
    };
    let created = match read_u64_field(d, "created") {
        Ok(Some(n)) => n,
        _ => {
            return Err(completion_decode_error());
        },
    };
    Ok(ChatCompletionResponse { id, model, choices, usage, created })
}

/// An error envelope is acceptable: an `error` object whose `message`
/// is a present string, `type` and `code` strings when present.
pub open spec fn spec_envelope_ok(d: JsonData) -> bool {
    &&& d is Obj
    &&& (spec_field(d, "error"@) matches Some(x) && {
        &&& x is Obj
        &&& spec_str_field(x, "message"@) is Ok
        &&& spec_str_field(x, "message"@)->Ok_0 is Some
        &&& spec_str_field(x, "type"@) is Ok
        &&& spec_str_field(x, "code"@) is Ok
    })
}

/// The message an acceptable error envelope carries.
pub open spec fn spec_envelope_message(d: JsonData) -> String {
    spec_str_field(spec_field(d, "error"@)->0, "message"@)->Ok_0->0
}

/// Reads an error envelope from a parsed JSON value: exactly the
/// acceptable envelopes, the carried message fixed by
/// [`spec_envelope_message`].
pub fn error_response_from_json(d: &JsonData) -> (r: Result<ErrorResponse, ()>)
    ensures
        r is Ok <==> spec_envelope_ok(*d),
        r matches Ok(env) ==> {
            &&& env.error.message == spec_envelope_message(*d)
            &&& env.error.error_type == spec_str_field(spec_field(*d, "error"@)->0, "type"@)->Ok_0
            &&& env.error.code == spec_str_field(spec_field(*d, "error"@)->0, "code"@)->Ok_0
        },
{
    match d {
        JsonData::Obj(_) => {},
        _ => {
            return Err(());
        },
    }
    let detail = match json_field(d, "error") {
        Some(x) => x,
        None => {
            return Err(());
        },
    };
    match detail {
        JsonData::Obj(_) => {},
        _ => {
            return Err(());
        },
    }
    let message = match read_str_field(detail, "message") {
        Ok(Some(s)) => s,
        _ => {
            return Err(());
        },
    };
    let error_type = match read_str_field(detail, "type") {
        Ok(x) => x,
        Err(()) => {
            return Err(());
        },
    };
    let code = match read_str_field(detail, "code") {
        Ok(x) => x,
        Err(()) => {
            return Err(());
        },
    };
    Ok(ErrorResponse { error: ErrorDetail { message, error_type, code } })
}

} // verus!
