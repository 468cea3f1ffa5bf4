//! The Prior gate protocol as the library sees it: structured values, requests and
//! responses, and the bookkeeping that turns a stream of server envelopes into
//! the answer to one request.
use vstd::prelude::*;
use vstd::string::*;

use crate::text::{
    insert_sorted_unique, string_views, strictly_sorted, concat2, concat3, copy_string, decimal, digit_char, i64_decimal, opt_view, signed_decimal, str_eq,
    u64_decimal, usize_decimal,
};

verus! {

/// A structured value (`google.protobuf.Value`). Numbers the library writes
/// are integers; a number read from the Prior gate that is not an integer is kept as
/// `OtherNumber`, which the library never inspects.
#[derive(Debug)]
pub enum GateValue {
    Null,
    Integer(i128),
    OtherNumber,
    Str(String),
    Bool(bool),
    Struct(GateStruct),
    List(Vec<GateValue>),
}

/// A structured object (`google.protobuf.Struct`) as a list of fields. A key
/// that occurs twice reads as its last occurrence, as when the pairs are
/// collected into the protobuf map.
#[derive(Debug)]
pub struct GateStruct {
    pub fields: Vec<(String, GateValue)>,
}

/// The value stored under `key`: its last occurrence in `fields`.
pub open spec fn field_lookup(fields: Seq<(String, GateValue)>, key: Seq<char>) -> Option<GateValue>
    decreases fields.len(),
{
    if fields.len() == 0 {
        None
    } else if fields.last().0@ == key {
        Some(fields.last().1)
    } else {
        field_lookup(fields.drop_last(), key)
    }
}

pub open spec fn value_string(v: Option<GateValue>) -> Option<Seq<char>> {
    match v {
        Some(GateValue::Str(s)) => Some(s@),
        _ => None,
    }
}

pub open spec fn value_bool(v: Option<GateValue>) -> Option<bool> {
    match v {
        Some(GateValue::Bool(b)) => Some(b),
        _ => None,
    }
}

impl GateStruct {
    pub fn empty() -> (r: GateStruct)
        ensures
            r.fields@.len() == 0,
    {
        GateStruct { fields: Vec::new() }
    }

    /// Reads the field `key`.
    pub fn get(&self, key: &str) -> (r: Option<&GateValue>)
        ensures
            match r {
                Some(v) => field_lookup(self.fields@, key@) == Some(*v),
                None => field_lookup(self.fields@, key@) is None,
            },
    {
        let mut i = self.fields.len();
        assert(self.fields@.take(i as int) =~= self.fields@);
        while i > 0
            invariant
                i <= self.fields@.len(),
                field_lookup(self.fields@, key@) == field_lookup(self.fields@.take(i as int), key@),
            decreases i,
        {
            let ghost t = self.fields@.take(i as int);
            assert(t.last() == self.fields@[i - 1]);
            assert(t.drop_last() =~= self.fields@.take(i - 1));
            if str_eq(self.fields[i - 1].0.as_str(), key) {
                return Some(&self.fields[i - 1].1);
            }
            i = i - 1;
        }
        None
    }
}

/// The string held by a value, if it is one.
pub fn value_as_string(value: &GateValue) -> (r: Option<String>)
    ensures
        match r {
            Some(s) => value_string(Some(*value)) == Some(s@),
            None => value_string(Some(*value)) is None,
        },
{
    match value {
        GateValue::Str(text) => Some(copy_string(text)),
        _ => None,
    }
}

/// The boolean held by a value, if it is one.
pub fn value_as_bool(value: &GateValue) -> (r: Option<bool>)
    ensures
        r == value_bool(Some(*value)),
{
    match value {
        GateValue::Bool(b) => Some(*b),
        _ => None,
    }
}

pub fn string_value(value: &str) -> (r: GateValue)
    ensures
        r matches GateValue::Str(s) && s@ == value@,
{
    GateValue::Str(String::from_str(value))
}

// ---------------------------------------------------------------------------
// Envelopes
// ---------------------------------------------------------------------------

/// The kind of a response frame.
#[derive(Debug, Clone, Copy, PartialEq, Eq, Structural)]
pub enum ResponseOp {
    Item,
    Done,
    Cancel,
    Error,
    Other,
}

#[derive(Debug)]
pub struct ErrorBody {
    pub code: String,
    pub message: String,
}

#[derive(Debug)]
pub struct ResponseItem {
    pub data: Option<GateStruct>,
}

#[derive(Debug)]
pub struct GateResponse {
    pub request_id: String,
    pub op: ResponseOp,
    pub item: Option<ResponseItem>,
    pub error: Option<ErrorBody>,
}

#[derive(Debug)]
pub struct GateEvent {
    pub event_id: String,
    pub topic: String,
    pub data: Option<GateStruct>,
}

#[derive(Debug, Clone)]
pub struct ServerHello {
    pub server_name: String,
}

/// The body of a server envelope.
#[derive(Debug)]
pub enum ServerBody {
    Hello(ServerHello),
    Response(GateResponse),
    Event(GateEvent),
    Pong,
}

/// The hello a client opens the Prior gate with.
#[derive(Debug)]
pub struct ClientHello {
    pub protocol_version: String,
    pub client_name: String,
    pub metadata: Vec<(String, String)>,
    pub service_token: Option<String>,
    pub user_id: Option<String>,
}

/// A request envelope (its `from`, `timeout_ms` and `trace` are never set).
#[derive(Debug)]
pub struct GateRequest {
    pub request_id: String,
    pub syscall: String,
    pub room: Option<String>,
    pub data: GateStruct,
    pub secrets: Option<GateStruct>,
}

/// Done and Cancel end a request's stream.
pub open spec fn is_terminal_op(op: ResponseOp) -> bool {
    op == ResponseOp::Done || op == ResponseOp::Cancel
}

/// `code: message` of an error frame, or `request failed` without a body.
pub open spec fn error_text(r: GateResponse) -> Seq<char> {
    match r.error {
        Some(b) => b.code@ + ": "@ + b.message@,
        None => "request failed"@,
    }
}

/// `<syscall> failed: <error text>`.
pub open spec fn failure_text(syscall: Seq<char>, r: GateResponse) -> Seq<char> {
    syscall + " failed: "@ + error_text(r)
}

pub fn response_error_text(r: &GateResponse) -> (t: String)
    ensures
        t@ == error_text(*r),
{
    match &r.error {
        Some(body) => concat3(body.code.as_str(), ": ", body.message.as_str()),
        None => String::from_str("request failed"),
    }
}

pub fn failure_message(syscall: &str, r: &GateResponse) -> (t: String)
    ensures
        t@ == failure_text(syscall@, *r),
{
    let text = response_error_text(r);
    concat3(syscall, " failed: ", text.as_str())
}

pub fn is_terminal(op: ResponseOp) -> (r: bool)
    ensures
        r == is_terminal_op(op),
{
    op == ResponseOp::Done || op == ResponseOp::Cancel
}

/// The hello this client sends: protocol `prior.gate.v1`, client `prior-web`,
/// the surface it serves as metadata, and the acting user.
pub fn client_hello(service_token: Option<String>, actor: String, surface: &str) -> (h: ClientHello)
    ensures
        h.protocol_version@ == "prior.gate.v1"@,
        h.client_name@ == "prior-web"@,
        h.metadata@.len() == 1,
        h.metadata@[0].0@ == "surface"@,
        h.metadata@[0].1@ == surface@,
        h.service_token == service_token,
        h.user_id == Some(actor),
{
    let mut metadata: Vec<(String, String)> = Vec::new();
    metadata.push((String::from_str("surface"), String::from_str(surface)));
    ClientHello {
        protocol_version: String::from_str("prior.gate.v1"),
        client_name: String::from_str("prior-web"),
        metadata,
        service_token,
        user_id: Some(actor),
    }
}

/// The server's answer to the hello: it must be a hello.
pub fn hello_reply(body: Option<ServerBody>) -> (r: Result<ServerHello, String>)
    ensures
        match body {
            Some(ServerBody::Hello(h)) => r == Ok::<ServerHello, String>(h),
            _ => r matches Err(e) && e@ == "expected server hello"@,
        },
{
    match body {
        Some(ServerBody::Hello(hello)) => Ok(hello),
        _ => Err(String::from_str("expected server hello")),
    }
}

// ---------------------------------------------------------------------------
// Collecting the answer to one request
// ---------------------------------------------------------------------------

/// What a request is waiting for after one more server envelope.
#[derive(Debug)]
pub enum CollectStep {
    /// More frames are owed.
    Pending,
    /// The request ended; these are all its frames, the terminal one last.
    Finished(Vec<GateResponse>),
    /// The request failed with this message.
    Failed(String),
}

/// A request in flight on a connection that reads its own answers.
pub struct RequestCollector {
    pub request_id: String,
    pub syscall: String,
    pub responses: Vec<GateResponse>,
    pub last_event: Option<String>,
}

/// `topic: event_id`, the note kept of the last event seen.
pub open spec fn event_note(e: GateEvent) -> Seq<char> {
    e.topic@ + ": "@ + e.event_id@
}

impl RequestCollector {
    /// Every frame collected so far answers this request and is neither an
    /// error nor terminal.
    pub open spec fn wf(&self) -> bool {
        forall|i: int|
            0 <= i < self.responses@.len() ==> {
                &&& (#[trigger] self.responses@[i]).request_id@ == self.request_id@
                &&& !is_terminal_op(self.responses@[i].op)
                &&& self.responses@[i].op != ResponseOp::Error
            }
    }

    pub fn new(request_id: String, syscall: String, last_event: Option<String>) -> (c: Self)
        ensures
            c.wf(),
            c.request_id == request_id,
            c.syscall == syscall,
            c.responses@.len() == 0,
            c.last_event == last_event,
    {
        RequestCollector { request_id, syscall, responses: Vec::new(), last_event }
    }

    /// Takes one server envelope body.
    pub fn step(&mut self, body: Option<ServerBody>) -> (r: CollectStep)
        requires
            old(self).wf(),
        ensures
            final(self).wf(),
            final(self).request_id == old(self).request_id,
            final(self).syscall == old(self).syscall,
            match body {
                Some(ServerBody::Response(resp)) => if resp.request_id@ == old(self).request_id@ {
                    if resp.op == ResponseOp::Error {
                        &&& r matches CollectStep::Failed(m) && m@ == failure_text(
                            old(self).syscall@,
                            resp,
                        )
                        &&& final(self).responses@ == old(self).responses@
                        &&& final(self).last_event == old(self).last_event
                    } else if is_terminal_op(resp.op) {
                        &&& r matches CollectStep::Finished(all) && all@ == old(
                            self,
                        ).responses@.push(resp)
                        &&& final(self).responses@.len() == 0
                        &&& final(self).last_event == old(self).last_event
                    } else {
                        &&& r is Pending
                        &&& final(self).responses@ == old(self).responses@.push(resp)
                        &&& final(self).last_event == old(self).last_event
                    }
                } else {
                    &&& r is Pending
                    &&& final(self).responses@ == old(self).responses@
                    &&& final(self).last_event == old(self).last_event
                },
                Some(ServerBody::Event(e)) => {
                    &&& r is Pending
                    &&& final(self).responses@ == old(self).responses@
                    &&& opt_view(final(self).last_event) == Some(event_note(e))
                },
                _ => {
                    &&& r is Pending
                    &&& final(self).responses@ == old(self).responses@
                    &&& final(self).last_event == old(self).last_event
                },
            },
    {
        match body {
            Some(ServerBody::Response(resp)) => {
                if !str_eq(resp.request_id.as_str(), self.request_id.as_str()) {
                    return CollectStep::Pending;
                }
                if resp.op == ResponseOp::Error {
                    let msg = failure_message(self.syscall.as_str(), &resp);
                    return CollectStep::Failed(msg);
                }
                let terminal = is_terminal(resp.op);
                self.responses.push(resp);
                if terminal {
                    let mut all: Vec<GateResponse> = Vec::new();
                    std::mem::swap(&mut all, &mut self.responses);
                    CollectStep::Finished(all)
                } else {
                    CollectStep::Pending
                }
            },
            Some(ServerBody::Event(e)) => {
                let mut note = concat2(e.topic.as_str(), ": ");
                note.append(e.event_id.as_str());
                self.last_event = Some(note);
                CollectStep::Pending
            },
            _ => CollectStep::Pending,
        }
    }
}

// ---------------------------------------------------------------------------
// Request ids
// ---------------------------------------------------------------------------

/// Numbers the requests of one connection: `<prefix><n>`, n counting from 1.
pub struct RequestCounter {
    pub next: u64,
}

impl RequestCounter {
    pub fn new() -> (c: Self)
        ensures
            c.next == 1,
    {
        RequestCounter { next: 1 }
    }

    /// The id `prior-web-<n>` for the next request; the counter then advances.
    pub fn allocate(&mut self) -> (id: String)
        requires
            old(self).next < u64::MAX,
        ensures
            id@ == "prior-web-"@ + decimal(old(self).next as nat),
            final(self).next == old(self).next + 1,
    {
        let n = u64_decimal(self.next);
        self.next = self.next + 1;
        concat2("prior-web-", n.as_str())
    }

    /// The id `prior-web-live-<n>` of the live connection; the counter wraps as
    /// an atomic `fetch_add` does.
    pub fn allocate_live(&mut self) -> (id: String)
        ensures
            id@ == "prior-web-live-"@ + decimal(old(self).next as nat),
            final(self).next == if old(self).next == u64::MAX {
                0
            } else {
                old(self).next + 1
            },
    {
        let n = u64_decimal(self.next);
        self.next = if self.next == u64::MAX {
            0
        } else {
            self.next + 1
        };
        concat2("prior-web-live-", n.as_str())
    }
}

pub proof fn lemma_decimal_nonempty(n: nat)
    ensures
        decimal(n).len() >= 1,
    decreases n,
{
    if n >= 10 {
        lemma_decimal_nonempty(n / 10);
    }
}

proof fn lemma_digit_char_injective(a: nat, b: nat)
    requires
        a < 10,
        b < 10,
        digit_char(a) == digit_char(b),
    ensures
        a == b,
{
    assert(a == 0 || a == 1 || a == 2 || a == 3 || a == 4 || a == 5 || a == 6 || a == 7 || a == 8
        || a == 9);
    assert(b == 0 || b == 1 || b == 2 || b == 3 || b == 4 || b == 5 || b == 6 || b == 7 || b == 8
        || b == 9);
}

/// Decimal rendering is one to one.
pub proof fn lemma_decimal_injective(a: nat, b: nat)
    requires
        decimal(a) == decimal(b),
    ensures
        a == b,
    decreases a + b,
{
    if a < 10 && b < 10 {
        assert(decimal(a) == seq![digit_char(a)]);
        assert(decimal(b) == seq![digit_char(b)]);
        assert(seq![digit_char(a)][0] == digit_char(a));
        assert(seq![digit_char(b)][0] == digit_char(b));
        lemma_digit_char_injective(a, b);
    } else if a < 10 {
        lemma_decimal_nonempty(b / 10);
        assert(decimal(b).len() >= 2);
        assert(false);
    } else if b < 10 {
        lemma_decimal_nonempty(a / 10);
        assert(decimal(a).len() >= 2);
        assert(false);
    } else {
        let da = decimal(a);
        let db = decimal(b);
        assert(da.last() == db.last());
        assert(da.drop_last() =~= decimal(a / 10));
        assert(db.drop_last() =~= decimal(b / 10));
        lemma_decimal_injective(a / 10, b / 10);
        lemma_digit_char_injective(a % 10, b % 10);
        assert(a == 10 * (a / 10) + a % 10) by (nonlinear_arith);
        assert(b == 10 * (b / 10) + b % 10) by (nonlinear_arith);
    }
}

/// Law: requests numbered differently on one connection carry different ids.
pub proof fn lemma_request_ids_distinct(a: u64, b: u64)
    requires
        a != b,
    ensures
        "prior-web-"@ + decimal(a as nat) != "prior-web-"@ + decimal(b as nat),
{
    let p = "prior-web-"@;
    if p + decimal(a as nat) == p + decimal(b as nat) {
        assert((p + decimal(a as nat)).skip(p.len() as int) =~= decimal(a as nat));
        assert((p + decimal(b as nat)).skip(p.len() as int) =~= decimal(b as nat));
        lemma_decimal_injective(a as nat, b as nat);
    }
}

// ---------------------------------------------------------------------------
// Reading answers
// ---------------------------------------------------------------------------

pub open spec fn item_string_field(item: ResponseItem, key: Seq<char>) -> Option<Seq<char>> {
    match item.data {
        Some(d) => value_string(field_lookup(d.fields@, key)),
        None => None,
    }
}

pub open spec fn response_string_field(r: GateResponse, key: Seq<char>) -> Option<Seq<char>> {
    match r.item {
        Some(i) => item_string_field(i, key),
        None => None,
    }
}

/// The string field `key` of every item that has one, in order.
pub open spec fn string_fields(rs: Seq<GateResponse>, key: Seq<char>) -> Seq<Seq<char>>
    decreases rs.len(),
{
    if rs.len() == 0 {
        Seq::empty()
    } else {
        string_fields(rs.drop_last(), key) + match response_string_field(rs.last(), key) {
            Some(x) => seq![x],
            None => Seq::empty(),
        }
    }
}

/// The string field `key` of the first item that has one.
pub open spec fn first_string_field(rs: Seq<GateResponse>, key: Seq<char>) -> Option<Seq<char>>
    decreases rs.len(),
{
    if rs.len() == 0 {
        None
    } else {
        match response_string_field(rs[0], key) {
            Some(x) => Some(x),
            None => first_string_field(rs.drop_first(), key),
        }
    }
}

/// The items of the responses that carry one, in order.
pub open spec fn items_of(rs: Seq<GateResponse>) -> Seq<ResponseItem>
    decreases rs.len(),
{
    if rs.len() == 0 {
        Seq::empty()
    } else {
        match rs[0].item {
            Some(i) => seq![i] + items_of(rs.drop_first()),
            None => items_of(rs.drop_first()),
        }
    }
}

/// The items of a request's answer keep the order the frames arrived in: the
/// items of two stretches of frames are those of the first followed by those
/// of the second, and a single frame gives its item, if it carries one.
pub proof fn lemma_items_in_arrival_order(a: Seq<GateResponse>, b: Seq<GateResponse>, r: GateResponse)
    ensures
        items_of(a + b) == items_of(a) + items_of(b),
        items_of(seq![r]) == match r.item {
            Some(i) => seq![i],
            None => Seq::<ResponseItem>::empty(),
        },
    decreases a.len(),
{
    assert(seq![r].drop_first() =~= Seq::<GateResponse>::empty());
    assert(seq![r][0] == r);
    assert(items_of(Seq::<GateResponse>::empty()) == Seq::<ResponseItem>::empty());
    match r.item {
        Some(i) => assert(seq![i] + Seq::<ResponseItem>::empty() =~= seq![i]),
        None => {},
    }
    if a.len() == 0 {
        assert(a + b =~= b);
        assert(items_of(a) + items_of(b) =~= items_of(b));
    } else {
        assert((a + b).drop_first() =~= a.drop_first() + b);
        assert((a + b)[0] == a[0]);
        lemma_items_in_arrival_order(a.drop_first(), b, r);
        match a[0].item {
            Some(i) => {
                assert(seq![i] + (items_of(a.drop_first()) + items_of(b)) =~= (seq![i] + items_of(
                    a.drop_first(),
                )) + items_of(b));
            },
            None => {},
        }
    }
}

/// The string field `field` of an item.
pub fn extract_string_field(item: &ResponseItem, field: &str) -> (r: Option<String>)
    ensures
        opt_view(r) == item_string_field(*item, field@),
{
    match &item.data {
        Some(data) => match data.get(field) {
            Some(v) => value_as_string(v),
            None => None,
        },
        None => None,
    }
}

fn response_field(r: &GateResponse, field: &str) -> (o: Option<String>)
    ensures
        opt_view(o) == response_string_field(*r, field@),
{
    match &r.item {
        Some(item) => extract_string_field(item, field),
        None => None,
    }
}

/// The rooms named by a `door:rooms` answer, sorted, each once.
pub fn rooms_from_responses(responses: &[GateResponse]) -> (r: Vec<String>)
    ensures
        strictly_sorted(string_views(r@)),
        forall|x: Seq<char>| #[trigger]
            string_views(r@).contains(x) <==> string_fields(responses@, "room"@).contains(x),
{
    let mut out: Vec<String> = Vec::new();
    let mut i: usize = 0;
    while i < responses.len()
        invariant
            i <= responses@.len(),
            strictly_sorted(string_views(out@)),
            forall|x: Seq<char>| #[trigger]
                string_views(out@).contains(x) <==> string_fields(
                    responses@.take(i as int),
                    "room"@,
                ).contains(x),
        decreases responses@.len() - i,
    {
        let ghost t = responses@.take(i + 1);
        assert(t.drop_last() =~= responses@.take(i as int));
        assert(t.last() == responses@[i as int]);
        match response_field(&responses[i], "room") {
            Some(room) => {
                insert_sorted_unique(&mut out, room);
                proof {
                    let prev = string_fields(responses@.take(i as int), "room"@);
                    assert(string_fields(t, "room"@) =~= prev + seq![room@]);
                    assert forall|x: Seq<char>| #[trigger]
                        string_fields(t, "room"@).contains(x) <==> (prev.contains(x) || x
                            == room@) by {
                        if string_fields(t, "room"@).contains(x) {
                            let k = choose|k: int|
                                0 <= k < string_fields(t, "room"@).len() && string_fields(
                                    t,
                                    "room"@,
                                )[k] == x;
                            if k < prev.len() {
                                assert(prev[k] == x);
                            }
                        }
                        if prev.contains(x) {
                            let k = choose|k: int| 0 <= k < prev.len() && prev[k] == x;
                            assert(string_fields(t, "room"@)[k] == x);
                        }
                        if x == room@ {
                            assert(string_fields(t, "room"@)[prev.len() as int] == x);
                        }
                    }
                }
            },
            None => {
                assert(string_fields(t, "room"@) =~= string_fields(
                    responses@.take(i as int),
                    "room"@,
                ));
            },
        }
        i = i + 1;
    }
    assert(responses@.take(i as int) =~= responses@);
    out
}

/// The session id of a `door:connect` answer: the first item naming one.
pub fn session_from_responses(responses: &[GateResponse]) -> (r: Result<String, String>)
    ensures
        match first_string_field(responses@, "session"@) {
            Some(sid) => r matches Ok(x) && x@ == sid,
            None => r matches Err(e) && e@ == "door:connect did not return a session id"@,
        },
{
    let mut i: usize = 0;
    assert(responses@.skip(0) =~= responses@);
    while i < responses.len()
        invariant
            i <= responses@.len(),
            first_string_field(responses@, "session"@) == first_string_field(
                responses@.skip(i as int),
                "session"@,
            ),
        decreases responses@.len() - i,
    {
        assert(responses@.skip(i as int)[0] == responses@[i as int]);
        assert(responses@.skip(i as int).drop_first() =~= responses@.skip(i + 1));
        if let Some(sid) = response_field(&responses[i], "session") {
            return Ok(sid);
        }
        i = i + 1;
    }
    Err(String::from_str("door:connect did not return a session id"))
}

/// The first response that carries an item.
pub open spec fn first_item(rs: Seq<GateResponse>) -> Option<ResponseItem>
    decreases rs.len(),
{
    if rs.len() == 0 {
        None
    } else {
        match rs[0].item {
            Some(i) => Some(i),
            None => first_item(rs.drop_first()),
        }
    }
}

/// The session id read from the first item only (the dashboard refresh's rule).
pub fn session_from_first_item(responses: &[GateResponse]) -> (r: Result<String, String>)
    ensures
        match first_item(responses@) {
            Some(item) if item_string_field(item, "session"@) is Some => r matches Ok(x) && x@
                == item_string_field(item, "session"@).unwrap(),
            _ => r matches Err(e) && e@ == "door:connect did not return a session id"@,
        },
{
    let mut i: usize = 0;
    assert(responses@.skip(0) =~= responses@);
    while i < responses.len()
        invariant
            i <= responses@.len(),
            first_item(responses@) == first_item(responses@.skip(i as int)),
        decreases responses@.len() - i,
    {
        assert(responses@.skip(i as int)[0] == responses@[i as int]);
        assert(responses@.skip(i as int).drop_first() =~= responses@.skip(i + 1));
        if let Some(item) = &responses[i].item {
            return match extract_string_field(item, "session") {
                Some(sid) => Ok(sid),
                None => Err(String::from_str("door:connect did not return a session id")),
            };
        }
        i = i + 1;
    }
    Err(String::from_str("door:connect did not return a session id"))
}

/// The items of an answer, in order.
pub fn response_items(responses: Vec<GateResponse>) -> (r: Vec<ResponseItem>)
    ensures
        r@ == items_of(responses@),
{
    let ghost orig = responses@;
    let n = responses.len();
    let mut rest = responses;
    let mut out: Vec<ResponseItem> = Vec::new();
    let mut k: usize = 0;
    while rest.len() > 0
        invariant
            n == orig.len(),
            k <= n,
            rest@ == orig.skip(k as int),
            items_of(orig) == out@ + items_of(orig.skip(k as int)),
        decreases rest@.len(),
    {
        assert(rest@.len() == n - k);
        let resp = rest.remove(0);
        proof {
            assert(orig.skip(k as int).drop_first() =~= orig.skip(k + 1));
        }
        match resp.item {
            Some(item) => {
                let ghost prev = out@;
                out.push(item);
                assert(prev + items_of(orig.skip(k as int)) =~= out@ + items_of(orig.skip(k + 1)));
            },
            None => {},
        }
        k = k + 1;
        assert(rest@ =~= orig.skip(k as int));
    }
    assert(orig.skip(k as int) =~= Seq::<GateResponse>::empty());
    assert(out@ + Seq::<ResponseItem>::empty() =~= out@);
    out
}

/// The last of a request's items: `request_one`'s answer.
pub fn last_item<T>(items: Vec<T>, syscall: &str) -> (r: Result<T, String>)
    ensures
        items@.len() > 0 ==> r == Ok::<T, String>(items@.last()),
        items@.len() == 0 ==> (r matches Err(e) && e@ == syscall@ + " returned no items"@),
{
    let mut items = items;
    match items.pop() {
        Some(x) => Ok(x),
        None => Err(concat2(syscall, " returned no items")),
    }
}

/// A session's result after it was disconnected: the first error of the two.
pub fn disconnect_with_result<T>(result: Result<T, String>, disconnect: Result<(), String>) -> (r:
    Result<T, String>)
    ensures
        match result {
            Ok(v) => match disconnect {
                Ok(_) => r == Ok::<T, String>(v),
                Err(e) => r == Err::<T, String>(e),
            },
            Err(e) => r == Err::<T, String>(e),
        },
{
    match (result, disconnect) {
        (Ok(value), Ok(())) => Ok(value),
        (Err(error), _) => Err(error),
        (Ok(_), Err(error)) => Err(error),
    }
}

// ---------------------------------------------------------------------------
// Numbers
// ---------------------------------------------------------------------------

/// The largest integer a protobuf `Struct` number (an `f64`) holds exactly.
pub const MAX_SAFE_INTEGER: i64 = 9_007_199_254_740_991;

pub open spec fn safe_range_error(value: int) -> Seq<char> {
    "integer "@ + signed_decimal(value) + " exceeds protobuf Struct safe numeric range"@
}

/// A number value for an integer that a protobuf `Struct` holds exactly.
pub fn i64_number_value(value: i64) -> (r: Result<GateValue, String>)
    ensures
        -MAX_SAFE_INTEGER <= value <= MAX_SAFE_INTEGER ==> (r matches Ok(GateValue::Integer(n))
            && n == value),
        !(-MAX_SAFE_INTEGER <= value <= MAX_SAFE_INTEGER) ==> (r matches Err(e) && e@
            == safe_range_error(value as int)),
{
    if value < -MAX_SAFE_INTEGER || value > MAX_SAFE_INTEGER {
        let text = i64_decimal(value);
        return Err(concat3("integer ", text.as_str(), " exceeds protobuf Struct safe numeric range"));
    }
    Ok(GateValue::Integer(value as i128))
}

pub fn usize_number_value(value: usize) -> (r: Result<GateValue, String>)
    ensures
        value <= MAX_SAFE_INTEGER ==> (r matches Ok(GateValue::Integer(n)) && n == value),
        value > MAX_SAFE_INTEGER ==> (r matches Err(e) && e@ == safe_range_error(value as int)),
{
    if (value as u64) > (MAX_SAFE_INTEGER as u64) {
        let text = usize_decimal(value);
        return Err(concat3("integer ", text.as_str(), " exceeds protobuf Struct safe numeric range"));
    }
    Ok(GateValue::Integer(value as i128))
}

// ---------------------------------------------------------------------------
// Request payloads
// ---------------------------------------------------------------------------

/// `v` is the string `s`, or null when there is none.
pub open spec fn text_or_null(v: GateValue, o: Option<Seq<char>>) -> bool {
    match o {
        Some(s) => v matches GateValue::Str(x) && x@ == s,
        None => v is Null,
    }
}

/// `v` is the integer `n`, or null when there is none.
pub open spec fn int_or_null(v: GateValue, o: Option<int>) -> bool {
    match o {
        Some(n) => v matches GateValue::Integer(x) && x == n,
        None => v is Null,
    }
}

/// Field `i` of `fields` is named `key`.
pub open spec fn key_at(fields: Seq<(String, GateValue)>, i: int, key: Seq<char>) -> bool {
    0 <= i < fields.len() && fields[i].0@ == key
}

pub open spec fn str_field(fields: Seq<(String, GateValue)>, i: int, key: Seq<char>, val: Seq<char>) -> bool {
    key_at(fields, i, key) && (fields[i].1 matches GateValue::Str(x) && x@ == val)
}

pub fn str_pair(key: &str, value: &str) -> (r: (String, GateValue))
    ensures
        r.0@ == key@,
        r.1 matches GateValue::Str(x) && x@ == value@,
{
    (String::from_str(key), string_value(value))
}

/// `door:connect` data: `{from: actor}`.
pub fn connect_data(actor: &str) -> (d: GateStruct)
    ensures
        d.fields@.len() == 1,
        str_field(d.fields@, 0, "from"@, actor@),
{
    let mut fields: Vec<(String, GateValue)> = Vec::new();
    fields.push(str_pair("from", actor));
    GateStruct { fields }
}

/// `door:disconnect` data: `{session}`.
pub fn session_data(session_id: &str) -> (d: GateStruct)
    ensures
        d.fields@.len() == 1,
        str_field(d.fields@, 0, "session"@, session_id@),
{
    let mut fields: Vec<(String, GateValue)> = Vec::new();
    fields.push(str_pair("session", session_id));
    GateStruct { fields }
}

/// `door:join` data: `{session, room}`.
pub fn join_data(session_id: &str, room: &str) -> (d: GateStruct)
    ensures
        d.fields@.len() == 2,
        str_field(d.fields@, 0, "session"@, session_id@),
        str_field(d.fields@, 1, "room"@, room@),
{
    let mut fields: Vec<(String, GateValue)> = Vec::new();
    fields.push(str_pair("session", session_id));
    fields.push(str_pair("room", room));
    GateStruct { fields }
}

/// `door:message` data: `{session, room, content}`.
pub fn message_data(session_id: &str, room: &str, content: &str) -> (d: GateStruct)
    ensures
        d.fields@.len() == 3,
        str_field(d.fields@, 0, "session"@, session_id@),
        str_field(d.fields@, 1, "room"@, room@),
        str_field(d.fields@, 2, "content"@, content@),
{
    let mut fields: Vec<(String, GateValue)> = Vec::new();
    fields.push(str_pair("session", session_id));
    fields.push(str_pair("room", room));
    fields.push(str_pair("content", content));
    GateStruct { fields }
}

/// `room:history` data: `before` and `limit` when given, each checked to be a
/// safe integer.
pub fn history_data(before: Option<i64>, limit: Option<usize>) -> (r: Result<GateStruct, String>)
    ensures
        (before matches Some(b) && !(-MAX_SAFE_INTEGER <= b <= MAX_SAFE_INTEGER)) ==> (r matches Err(
            e,
        ) && e@ == safe_range_error(before.unwrap() as int)),
        (before matches Some(b) && -MAX_SAFE_INTEGER <= b <= MAX_SAFE_INTEGER || before is None) ==> (
        limit matches Some(l) && l > MAX_SAFE_INTEGER ==> (r matches Err(e) && e@
            == safe_range_error(limit.unwrap() as int))),
        r matches Ok(d) ==> {
            let n = (if before is Some { 1int } else { 0int });
            &&& d.fields@.len() == n + (if limit is Some { 1int } else { 0int })
            &&& before matches Some(b) ==> key_at(d.fields@, 0, "before"@) && d.fields@[0].1
                == GateValue::Integer(b as i128)
            &&& limit matches Some(l) ==> key_at(d.fields@, n, "limit"@) && d.fields@[n].1
                == GateValue::Integer(l as i128)
        },
        (before matches Some(b) ==> -MAX_SAFE_INTEGER <= b <= MAX_SAFE_INTEGER) && (limit matches Some(
            l,
        ) ==> l <= MAX_SAFE_INTEGER) ==> r is Ok,
{
    let mut fields: Vec<(String, GateValue)> = Vec::new();
    if let Some(b) = before {
        let v = i64_number_value(b)?;
        fields.push((String::from_str("before"), v));
    }
    if let Some(l) = limit {
        let v = usize_number_value(l)?;
        fields.push((String::from_str("limit"), v));
    }
    Ok(GateStruct { fields })
}

/// `{<key>: run_id}` for the factory's run lookups, checked to be a safe integer.
pub fn run_id_data(key: &str, run_id: i64) -> (r: Result<GateStruct, String>)
    ensures
        -MAX_SAFE_INTEGER <= run_id <= MAX_SAFE_INTEGER ==> (r matches Ok(d) && d.fields@.len() == 1
            && key_at(d.fields@, 0, key@) && d.fields@[0].1 == GateValue::Integer(run_id as i128)),
        !(-MAX_SAFE_INTEGER <= run_id <= MAX_SAFE_INTEGER) ==> (r matches Err(e) && e@
            == safe_range_error(run_id as int)),
{
    let v = i64_number_value(run_id)?;
    let mut fields: Vec<(String, GateValue)> = Vec::new();
    fields.push((String::from_str(key), v));
    Ok(GateStruct { fields })
}

/// The token used for a repo import: the one given, else the session's.
pub open spec fn import_token(auth_token: Option<String>, session_token: Option<String>) -> Option<
    Seq<char>,
> {
    match auth_token {
        Some(t) => Some(t@),
        None => opt_view(session_token),
    }
}

/// `repo:import` data `{clone_url, owner, name}` and its secrets
/// `{auth_token}` when a token is at hand.
pub fn import_request(
    clone_url: &str,
    owner: &str,
    name: &str,
    auth_token: Option<String>,
    session_token: Option<String>,
) -> (r: (GateStruct, Option<GateStruct>))
    ensures
        r.0.fields@.len() == 3,
        str_field(r.0.fields@, 0, "clone_url"@, clone_url@),
        str_field(r.0.fields@, 1, "owner"@, owner@),
        str_field(r.0.fields@, 2, "name"@, name@),
        match import_token(auth_token, session_token) {
            Some(t) => r.1 matches Some(sec) && sec.fields@.len() == 1 && str_field(
                sec.fields@,
                0,
                "auth_token"@,
                t,
            ),
            None => r.1 is None,
        },
{
    let effective = match auth_token {
        Some(t) => Some(t),
        None => session_token,
    };
    let secrets = match effective {
        Some(token) => {
            let mut fields: Vec<(String, GateValue)> = Vec::new();
            fields.push(str_pair("auth_token", token.as_str()));
            Some(GateStruct { fields })
        },
        None => None,
    };
    let mut fields: Vec<(String, GateValue)> = Vec::new();
    fields.push(str_pair("clone_url", clone_url));
    fields.push(str_pair("owner", owner));
    fields.push(str_pair("name", name));
    (GateStruct { fields }, secrets)
}

/// `factory:event:subscribe` data: `{target_repo}`, null for every repo.
pub fn subscribe_data(target_repo: Option<&str>) -> (d: GateStruct)
    ensures
        d.fields@.len() == 1,
        key_at(d.fields@, 0, "target_repo"@),
        match target_repo {
            Some(t) => d.fields@[0].1 matches GateValue::Str(x) && x@ == t@,
            None => d.fields@[0].1 is Null,
        },
{
    let v = match target_repo {
        Some(t) => string_value(t),
        None => GateValue::Null,
    };
    let mut fields: Vec<(String, GateValue)> = Vec::new();
    fields.push((String::from_str("target_repo"), v));
    GateStruct { fields }
}

} // verus!
