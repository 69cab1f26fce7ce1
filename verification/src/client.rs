use vstd::prelude::*;
use serde_json::Value;
use crate::config::{duration_millis, ClientConfig, MAX_RECONNECT_ATTEMPTS};
use crate::document::{text_or_null, text_or_null_field, Document, DocumentView, Field, FieldView};
use crate::idempotence::{remember, IdempotenceFilter};
use crate::json::{
    json_as_str, json_from_slice, json_from_str, json_get, json_member, json_parse_bytes,
    json_parse_text, json_text,
};
use crate::message::{message_members, PubSubMessage};
use crate::registry::{handler_entries, insert_handler, lookup_handler, new_handler_table, HandlerTable};
use crate::text::concat_str;

verus! {

/// The topic under which a handler receives every message that has no
/// handler of its own.
pub open spec fn wildcard_topic() -> Seq<char> {
    "*"@
}

/// The name under which the handler of `topic` is registered and reported.
pub open spec fn handler_name(topic: Seq<char>) -> Seq<char> {
    "Handler_"@ + topic
}

/// The text of an optional string.
pub open spec fn opt_str(o: Option<String>) -> Option<Seq<char>> {
    match o {
        Some(s) => Some(s@),
        None => None,
    }
}

fn clone_opt_string(o: &Option<String>) -> (r: Option<String>)
    ensures
        opt_str(r) == opt_str(*o),
{
    match o {
        Some(s) => Some(s.clone()),
        None => None,
    }
}

/// A payload received from the socket, as the socket client delivers it.
#[derive(Debug, Clone)]
pub enum ReceivedPayload {
    Binary(Vec<u8>),
    Text(Vec<Value>),
    String(String),
}

/// The JSON value that a payload carries: the first value of a text
/// payload, or the parse of a string or binary payload; `None` where there
/// is none or it does not parse.
pub open spec fn decoded(p: ReceivedPayload) -> Option<Value> {
    match p {
        ReceivedPayload::Text(values) => if values@.len() > 0 {
            Some(values@[0])
        } else {
            None
        },
        ReceivedPayload::String(s) => json_parse_text(s@),
        ReceivedPayload::Binary(b) => json_parse_bytes(b@),
    }
}

/// The JSON value that `payload` carries.
pub fn decode_payload(payload: &ReceivedPayload) -> (r: Option<Value>)
    ensures
        r == decoded(*payload),
{
    match payload {
        ReceivedPayload::Text(values) => {
            if values.len() > 0 {
                Some(values[0].clone())
            } else {
                None
            }
        },
        ReceivedPayload::String(s) => match json_from_str(s.as_str()) {
            Ok(v) => Some(v),
            Err(_) => None,
        },
        ReceivedPayload::Binary(b) => match json_from_slice(b.as_slice()) {
            Ok(v) => Some(v),
            Err(_) => None,
        },
    }
}

/// The members of a received message that routing reads.
#[derive(Debug, Clone)]
pub struct InboundMessage {
    pub topic: Option<String>,
    pub message: Option<Value>,
    pub message_id: Option<String>,
    pub producer: Option<String>,
}

/// What an [`InboundMessage`] holds.
pub struct InboundView {
    pub topic: Option<Seq<char>>,
    pub message: Option<Value>,
    pub message_id: Option<Seq<char>>,
    pub producer: Option<Seq<char>>,
}

impl View for InboundMessage {
    type V = InboundView;

    open spec fn view(&self) -> InboundView {
        InboundView {
            topic: opt_str(self.topic),
            message: self.message,
            message_id: opt_str(self.message_id),
            producer: opt_str(self.producer),
        }
    }
}

/// The text stored under `key` in the object `data`, where that member is
/// a JSON string.
pub open spec fn member_text(data: Value, key: Seq<char>) -> Option<Seq<char>> {
    match json_member(data, key) {
        Some(v) => json_text(v),
        None => None,
    }
}

/// The members of `data` that routing reads: `topic`, `message_id` and
/// `producer` where they are strings, and `message` whatever it is.
pub open spec fn inbound_of(data: Value) -> InboundView {
    InboundView {
        topic: member_text(data, "topic"@),
        message: json_member(data, "message"@),
        message_id: member_text(data, "message_id"@),
        producer: member_text(data, "producer"@),
    }
}

fn member_string(data: &Value, key: &str) -> (r: Option<String>)
    ensures
        opt_str(r) == member_text(*data, key@),
{
    match json_get(data, key) {
        Some(v) => match json_as_str(v) {
            Some(s) => Some(s.to_owned()),
            None => None,
        },
        None => None,
    }
}

impl InboundMessage {
    /// Reads the members of a received JSON value.
    pub fn from_json(data: &Value) -> (r: InboundMessage)
        ensures
            r@ == inbound_of(*data),
    {
        let message = match json_get(data, "message") {
            Some(v) => Some(v.clone()),
            None => None,
        };
        InboundMessage {
            topic: member_string(data, "topic"),
            message,
            message_id: member_string(data, "message_id"),
            producer: member_string(data, "producer"),
        }
    }
}

/// What a handler is called with.
#[derive(Debug, Clone)]
pub enum HandlerArgument {
    /// The message payload, for the handler of the message's own topic.
    Message(Value),
    /// The message with its topic, producer and id, for the wildcard handler.
    Enriched(Document),
}

/// What a [`HandlerArgument`] holds.
pub enum ArgumentView {
    Message(Value),
    Enriched(DocumentView),
}

impl View for HandlerArgument {
    type V = ArgumentView;

    open spec fn view(&self) -> ArgumentView {
        match self {
            HandlerArgument::Message(v) => ArgumentView::Message(*v),
            HandlerArgument::Enriched(d) => ArgumentView::Enriched(d@),
        }
    }
}

/// A message handed to a handler.
#[derive(Debug, Clone)]
pub struct Dispatch {
    /// The topic under which the handler was registered.
    pub handler_topic: String,
    /// The handler's name.
    pub handler_name: String,
    /// What the handler is called with.
    pub argument: HandlerArgument,
    /// The object sent back to the server as a `consumed` event.
    pub consumed: Document,
}

/// What becomes of a received message.
#[derive(Debug, Clone)]
pub enum Delivery {
    /// It carried no JSON object with a string `topic` and a `message`.
    Ignored,
    /// Its id was seen recently; it is skipped.
    Duplicate { topic: String, message_id: String },
    /// No handler takes its topic.
    Unhandled { topic: String },
    /// It goes to a handler.
    Dispatch(Dispatch),
}

/// What a [`Delivery`] holds.
pub enum DeliveryView {
    Ignored,
    Duplicate { topic: Seq<char>, message_id: Seq<char> },
    Unhandled { topic: Seq<char> },
    Dispatch {
        handler_topic: Seq<char>,
        handler_name: Seq<char>,
        argument: ArgumentView,
        consumed: DocumentView,
    },
}

impl View for Delivery {
    type V = DeliveryView;

    open spec fn view(&self) -> DeliveryView {
        match self {
            Delivery::Ignored => DeliveryView::Ignored,
            Delivery::Duplicate { topic, message_id } => DeliveryView::Duplicate {
                topic: topic@,
                message_id: message_id@,
            },
            Delivery::Unhandled { topic } => DeliveryView::Unhandled { topic: topic@ },
            Delivery::Dispatch(d) => DeliveryView::Dispatch {
                handler_topic: d.handler_topic@,
                handler_name: d.handler_name@,
                argument: d.argument@,
                consumed: d.consumed@,
            },
        }
    }
}

/// The state of a duplicate filter: its capacity and remembered ids.
pub struct FilterView {
    pub capacity: nat,
    pub window: Seq<Seq<char>>,
}

/// The state of an optional duplicate filter.
pub open spec fn filter_state(f: Option<IdempotenceFilter>) -> Option<FilterView> {
    match f {
        Some(f) => Some(FilterView { capacity: f.capacity(), window: f.window() }),
        None => None,
    }
}

/// The object sent back as a `consumed` event once a handler has been
/// given a message.
pub open spec fn consumed_notice(
    name: Seq<char>,
    topic: Seq<char>,
    message_id: Option<Seq<char>>,
    message: Value,
) -> DocumentView {
    seq![
        ("consumer"@, FieldView::Text(name)),
        ("topic"@, FieldView::Text(topic)),
        ("message_id"@, text_or_null(message_id)),
        ("message"@, FieldView::Json(message)),
    ]
}

/// The object that the wildcard handler is called with.
pub open spec fn enriched_message(
    topic: Seq<char>,
    message: Value,
    producer: Option<Seq<char>>,
    message_id: Option<Seq<char>>,
) -> DocumentView {
    seq![
        ("topic"@, FieldView::Text(topic)),
        ("message"@, FieldView::Json(message)),
        ("producer"@, text_or_null(producer)),
        ("message_id"@, text_or_null(message_id)),
    ]
}

/// The filter refuses the id: it is enabled and remembers it.
pub open spec fn is_duplicate(filter: Option<FilterView>, message_id: Option<Seq<char>>) -> bool {
    match filter {
        Some(f) => match message_id {
            Some(id) => f.window.contains(id),
            None => false,
        },
        None => false,
    }
}

/// The filter once a complete message with this id has been offered to it.
pub open spec fn filter_after_offer(filter: Option<FilterView>, message_id: Option<Seq<char>>) -> Option<
    FilterView,
> {
    match filter {
        Some(f) => match message_id {
            Some(id) => if f.window.contains(id) {
                Some(f)
            } else {
                Some(FilterView { capacity: f.capacity, window: remember(f.window, f.capacity, id) })
            },
            None => Some(f),
        },
        None => None,
    }
}

/// A message that routing can act on: it has a `topic` and a `message`.
pub open spec fn is_complete(m: InboundView) -> bool {
    m.topic is Some && m.message is Some
}

/// What becomes of the message `m` given the registered handlers and the
/// filter: incomplete messages are ignored, recently seen ids are skipped,
/// the handler of the topic takes the payload, else the wildcard handler
/// takes the enriched message, else nobody does.
pub open spec fn route(handlers: Map<Seq<char>, Seq<char>>, filter: Option<FilterView>, m: InboundView) -> DeliveryView {
    if !is_complete(m) {
        DeliveryView::Ignored
    } else {
        let topic = m.topic->0;
        let message = m.message->0;
        if is_duplicate(filter, m.message_id) {
            DeliveryView::Duplicate { topic, message_id: m.message_id->0 }
        } else if handlers.contains_key(topic) {
            DeliveryView::Dispatch {
                handler_topic: topic,
                handler_name: handlers[topic],
                argument: ArgumentView::Message(message),
                consumed: consumed_notice(handlers[topic], topic, m.message_id, message),
            }
        } else if handlers.contains_key(wildcard_topic()) {
            DeliveryView::Dispatch {
                handler_topic: wildcard_topic(),
                handler_name: handlers[wildcard_topic()],
                argument: ArgumentView::Enriched(
                    enriched_message(topic, message, m.producer, m.message_id),
                ),
                consumed: consumed_notice(handlers[wildcard_topic()], topic, m.message_id, message),
            }
        } else {
            DeliveryView::Unhandled { topic }
        }
    }
}

/// The filter after the message `m` is routed: only a complete message is
/// offered to it.
pub open spec fn filter_after(filter: Option<FilterView>, m: InboundView) -> Option<FilterView> {
    if is_complete(m) {
        filter_after_offer(filter, m.message_id)
    } else {
        filter
    }
}

fn consumed_document(name: String, topic: String, message_id: Option<String>, message: Value) -> (r: Document)
    ensures
        r@ == consumed_notice(name@, topic@, opt_str(message_id), message),
{
    let mut d = Document::new();
    d.push("consumer", Field::Text(name));
    d.push("topic", Field::Text(topic));
    d.push("message_id", text_or_null_field(message_id));
    d.push("message", Field::Json(message));
    d
}

fn enriched_document(topic: String, message: Value, producer: Option<String>, message_id: Option<String>) -> (r: Document)
    ensures
        r@ == enriched_message(topic@, message, opt_str(producer), opt_str(message_id)),
{
    let mut d = Document::new();
    d.push("topic", Field::Text(topic));
    d.push("message", Field::Json(message));
    d.push("producer", text_or_null_field(producer));
    d.push("message_id", text_or_null_field(message_id));
    d
}

/// What the socket client is built with.
#[derive(Debug, Clone)]
pub struct SocketSettings {
    /// The server's address.
    pub url: String,
    /// Whether to reconnect after the connection is lost.
    pub reconnect: bool,
    /// The shortest wait between reconnection attempts, in milliseconds.
    pub reconnect_delay_min_ms: u64,
    /// The longest wait between reconnection attempts, in milliseconds.
    pub reconnect_delay_max_ms: u64,
    /// How many reconnection attempts to make.
    pub max_reconnect_attempts: u8,
}

/// A message to publish, and where and how to send it.
#[derive(Debug, Clone)]
pub struct PublishRequest {
    /// The address the message is posted to.
    pub url: String,
    /// The message.
    pub message: PubSubMessage,
    /// The JSON object that is posted.
    pub body: Document,
}

/// The state of a publish/subscribe client: its configuration, its
/// handlers, its duplicate filter and whether it runs.
pub struct PubSubClient {
    config: ClientConfig,
    handlers: HandlerTable,
    idempotence_filter: Option<IdempotenceFilter>,
    running: bool,
}

impl PubSubClient {
    /// The configuration the client was made with.
    pub closed spec fn settings(&self) -> ClientConfig {
        self.config
    }

    /// For each topic with a handler, the handler's name.
    pub closed spec fn handlers(&self) -> Map<Seq<char>, Seq<char>> {
        handler_entries(self.handlers)
    }

    /// The duplicate filter's state, where duplicate suppression is on.
    pub closed spec fn filter(&self) -> Option<FilterView> {
        filter_state(self.idempotence_filter)
    }

    /// Whether the client has been started and not stopped since.
    pub closed spec fn running(&self) -> bool {
        self.running
    }

    /// A client that is not running and has no handler; it suppresses
    /// duplicates, remembering `idempotence_max_size` ids, exactly when the
    /// configuration asks for it.
    pub fn new(config: ClientConfig) -> (r: Self)
        ensures
            r.settings() == config,
            !r.running(),
            r.handlers().dom() == Set::<Seq<char>>::empty(),
            r.filter() == if config.enable_idempotence {
                Some(FilterView { capacity: config.idempotence_max_size as nat, window: Seq::empty() })
            } else {
                None
            },
    {
        let idempotence_filter = if config.enable_idempotence {
            Some(IdempotenceFilter::new(config.idempotence_max_size))
        } else {
            None
        };
        PubSubClient {
            config,
            handlers: new_handler_table(),
            idempotence_filter,
            running: false,
        }
    }

    /// The configuration the client was made with.
    pub fn config(&self) -> (r: &ClientConfig)
        ensures
            *r == self.settings(),
    {
        &self.config
    }

    /// Whether the client has been started and not stopped since.
    pub fn is_running(&self) -> (r: bool)
        ensures
            r == self.running(),
    {
        self.running
    }

    /// Registers the handler of `topic` (`*` for every topic without a
    /// handler of its own) under the name `Handler_<topic>`, replacing an
    /// earlier handler of that topic.
    pub fn register_handler(&mut self, topic: &str)
        ensures
            final(self).handlers() == old(self).handlers().insert(topic@, handler_name(topic@)),
            final(self).settings() == old(self).settings(),
            final(self).filter() == old(self).filter(),
            final(self).running() == old(self).running(),
    {
        let name = concat_str("Handler_", topic);
        insert_handler(&mut self.handlers, topic.to_owned(), name);
    }

    /// Marks the client as running and gives what its socket client is
    /// built with: the configured address and reconnection settings, the
    /// delays in whole milliseconds and the attempts capped at 255.
    pub fn start(&mut self) -> (r: SocketSettings)
        ensures
            final(self).running(),
            final(self).settings() == old(self).settings(),
            final(self).handlers() == old(self).handlers(),
            final(self).filter() == old(self).filter(),
            r.url@ == old(self).settings().url@,
            r.reconnect == old(self).settings().reconnection,
            r.reconnect_delay_min_ms == duration_millis(old(self).settings().reconnection_delay) as u64,
            r.reconnect_delay_max_ms == duration_millis(old(self).settings().reconnection_delay_max)
                as u64,
            r.max_reconnect_attempts as u32 == if old(self).settings().reconnection_attempts
                < MAX_RECONNECT_ATTEMPTS {
                old(self).settings().reconnection_attempts
            } else {
                MAX_RECONNECT_ATTEMPTS
            },
    {
        self.running = true;
        SocketSettings {
            url: self.config.url.clone(),
            reconnect: self.config.reconnection,
            reconnect_delay_min_ms: self.config.reconnect_delay_ms(),
            reconnect_delay_max_ms: self.config.reconnect_delay_max_ms(),
            max_reconnect_attempts: self.config.max_reconnect_attempts(),
        }
    }

    /// Marks the client as stopped.
    pub fn stop(&mut self)
        ensures
            !final(self).running(),
            final(self).settings() == old(self).settings(),
            final(self).handlers() == old(self).handlers(),
            final(self).filter() == old(self).filter(),
    {
        self.running = false;
    }

    /// The object sent as a `subscribe` event once connected: the
    /// consumer's name and its topics.
    pub fn subscription(&self) -> (r: Document)
        ensures
            r@ == seq![
                ("consumer"@, FieldView::Text(self.settings().consumer@)),
                ("topics"@, FieldView::TextList(self.settings().topics@.map_values(|s: String| s@))),
            ],
    {
        let mut d = Document::new();
        d.push("consumer", Field::Text(self.config.consumer.clone()));
        let topics = self.config.topics.clone();
        assert(topics@.map_values(|s: String| s@) =~= self.config.topics@.map_values(|s: String| s@))
            by {
            assert forall|i: int| 0 <= i < topics@.len() implies topics@[i]@ == self.config.topics@[i]@ by {
                assert(cloned::<String>(self.config.topics@[i], topics@[i]));
            }
        }
        d.push("topics", Field::TextList(topics));
        d
    }

    /// The request that publishes `message` on `topic` for `producer`: it
    /// is posted to `<url>/publish` as the message's object, the message id
    /// being `message_id` where given, else a new random UUID.
    pub fn publish(&self, topic: &str, message: Value, producer: &str, message_id: Option<String>) -> (r: PublishRequest)
        ensures
            r.url@ == self.settings().url@ + "/publish"@,
            r.message.topic@ == topic@,
            r.message.message == message,
            r.message.producer@ == producer@,
            match message_id {
                Some(id) => r.message.message_id@ == id@,
                None => crate::message::is_uuid_v4_text(r.message.message_id@),
            },
            r.body@ == message_members(r.message.topic@, r.message.message_id@, r.message.message, r.message.producer@),
    {
        let msg = PubSubMessage::new(topic, message, producer, message_id);
        let body = msg.to_dict();
        let url = concat_str(self.config.url.as_str(), "/publish");
        PublishRequest { url, message: msg, body }
    }

    /// Routes a received message: see [`route`] for what becomes of it. A
    /// complete message is offered to the duplicate filter, which then
    /// remembers its id, whether or not a handler takes it.
    pub fn route_message(&mut self, m: InboundMessage) -> (r: Delivery)
        ensures
            r@ == route(old(self).handlers(), old(self).filter(), m@),
            final(self).filter() == filter_after(old(self).filter(), m@),
            final(self).settings() == old(self).settings(),
            final(self).handlers() == old(self).handlers(),
            final(self).running() == old(self).running(),
    {
        let ghost mv = m@;
        let InboundMessage { topic, message, message_id, producer } = m;
        let topic = match topic {
            Some(t) => t,
            None => {
                return Delivery::Ignored;
            },
        };
        let message = match message {
            Some(v) => v,
            None => {
                return Delivery::Ignored;
            },
        };
        let fresh = match &mut self.idempotence_filter {
            Some(f) => match &message_id {
                Some(id) => f.should_process(Some(id.as_str())),
                None => f.should_process(None),
            },
            None => true,
        };
        if !fresh {
            match message_id {
                Some(id) => {
                    return Delivery::Duplicate { topic, message_id: id };
                },
                None => {
                    return Delivery::Ignored;
                },
            }
        }
        match lookup_handler(&self.handlers, topic.as_str()) {
            Some(name) => {
                let consumed = consumed_document(
                    name.clone(),
                    topic.clone(),
                    clone_opt_string(&message_id),
                    message.clone(),
                );
                Delivery::Dispatch(
                    Dispatch {
                        handler_topic: topic,
                        handler_name: name,
                        argument: HandlerArgument::Message(message),
                        consumed,
                    },
                )
            },
            None => match lookup_handler(&self.handlers, "*") {
                Some(name) => {
                    let consumed = consumed_document(
                        name.clone(),
                        topic.clone(),
                        clone_opt_string(&message_id),
                        message.clone(),
                    );
                    let enriched = enriched_document(topic, message, producer, message_id);
                    Delivery::Dispatch(
                        Dispatch {
                            handler_topic: "*".to_owned(),
                            handler_name: name,
                            argument: HandlerArgument::Enriched(enriched),
                            consumed,
                        },
                    )
                },
                None => Delivery::Unhandled { topic },
            },
        }
    }

    /// Handles a payload received as a `message` event: the JSON value it
    /// carries is read and routed; a payload that carries none is ignored
    /// and changes nothing.
    pub fn handle_payload(&mut self, payload: &ReceivedPayload) -> (r: Delivery)
        ensures
            match decoded(*payload) {
                None => r@ == DeliveryView::Ignored && final(self).filter() == old(self).filter(),
                Some(data) => {
                    &&& r@ == route(old(self).handlers(), old(self).filter(), inbound_of(data))
                    &&& final(self).filter() == filter_after(old(self).filter(), inbound_of(data))
                },
            },
            final(self).settings() == old(self).settings(),
            final(self).handlers() == old(self).handlers(),
            final(self).running() == old(self).running(),
    {
        match decode_payload(payload) {
            None => Delivery::Ignored,
            Some(data) => {
                let m = InboundMessage::from_json(&data);
                self.route_message(m)
            },
        }
    }
}

/// Law: once a handler is registered for a topic, a complete message on that
/// topic whose id is not refused goes to that handler, under the name
/// `Handler_<topic>`, with the message payload.
pub proof fn law_registered_handler_receives(
    handlers: Map<Seq<char>, Seq<char>>,
    filter: Option<FilterView>,
    m: InboundView,
)
    requires
        is_complete(m),
        !is_duplicate(filter, m.message_id),
    ensures
        route(handlers.insert(m.topic->0, handler_name(m.topic->0)), filter, m) == (DeliveryView::Dispatch {
            handler_topic: m.topic->0,
            handler_name: handler_name(m.topic->0),
            argument: ArgumentView::Message(m.message->0),
            consumed: consumed_notice(handler_name(m.topic->0), m.topic->0, m.message_id, m.message->0),
        }),
{
}

/// Law: the handler of a message's own topic takes it even when a wildcard
/// handler is registered too.
pub proof fn law_topic_handler_before_wildcard(
    handlers: Map<Seq<char>, Seq<char>>,
    filter: Option<FilterView>,
    m: InboundView,
)
    requires
        is_complete(m),
        !is_duplicate(filter, m.message_id),
        handlers.contains_key(m.topic->0),
        handlers.contains_key(wildcard_topic()),
    ensures
        route(handlers, filter, m) matches DeliveryView::Dispatch { handler_topic, .. }
            && handler_topic == m.topic->0,
{
}

/// Law: a message whose topic has no handler goes to the wildcard handler,
/// when there is one, with its topic, payload, producer and id.
pub proof fn law_wildcard_takes_unclaimed(
    handlers: Map<Seq<char>, Seq<char>>,
    filter: Option<FilterView>,
    m: InboundView,
)
    requires
        is_complete(m),
        !is_duplicate(filter, m.message_id),
        !handlers.contains_key(m.topic->0),
        handlers.contains_key(wildcard_topic()),
    ensures
        route(handlers, filter, m) == (DeliveryView::Dispatch {
            handler_topic: wildcard_topic(),
            handler_name: handlers[wildcard_topic()],
            argument: ArgumentView::Enriched(
                enriched_message(m.topic->0, m.message->0, m.producer, m.message_id),
            ),
            consumed: consumed_notice(handlers[wildcard_topic()], m.topic->0, m.message_id, m.message->0),
        }),
{
}

/// Law: with duplicate suppression on, a message with an id that is routed
/// a second time right after the first is skipped as a duplicate, whatever
/// became of the first.
pub proof fn law_repeated_message_skipped(
    handlers: Map<Seq<char>, Seq<char>>,
    filter: Option<FilterView>,
    m: InboundView,
)
    requires
        filter is Some,
        is_complete(m),
        m.message_id is Some,
    ensures
        route(handlers, filter_after(filter, m), m) == (DeliveryView::Duplicate {
            topic: m.topic->0,
            message_id: m.message_id->0,
        }),
{
    let f = filter->0;
    let id = m.message_id->0;
    if !f.window.contains(id) {
        crate::idempotence::law_accepted_id_refused_next(f.window, f.capacity, id);
    }
}

/// Law: with duplicate suppression off, no message is ever skipped as a
/// duplicate and there is no filter state to change.
pub proof fn law_no_filter_no_duplicates(handlers: Map<Seq<char>, Seq<char>>, m: InboundView)
    ensures
        !(route(handlers, None, m) is Duplicate),
        filter_after(None, m) is None,
{
}

/// Law: a message without an id is never skipped as a duplicate and leaves
/// the filter as it was.
pub proof fn law_message_without_id_not_filtered(
    handlers: Map<Seq<char>, Seq<char>>,
    filter: Option<FilterView>,
    m: InboundView,
)
    requires
        m.message_id is None,
    ensures
        !(route(handlers, filter, m) is Duplicate),
        filter_after(filter, m) == filter,
{
}

/// Law: a message without a string `topic` or without a `message` is
/// ignored and leaves the filter as it was.
pub proof fn law_incomplete_message_ignored(
    handlers: Map<Seq<char>, Seq<char>>,
    filter: Option<FilterView>,
    m: InboundView,
)
    requires
        !is_complete(m),
    ensures
        route(handlers, filter, m) == DeliveryView::Ignored,
        filter_after(filter, m) == filter,
{
}

/// Law: a complete message that no handler takes is reported as unhandled,
/// and its id is still remembered by the filter, so that the same message
/// sent again is skipped.
pub proof fn law_unhandled_message_remembered(
    handlers: Map<Seq<char>, Seq<char>>,
    filter: Option<FilterView>,
    m: InboundView,
)
    requires
        filter is Some,
        is_complete(m),
        m.message_id is Some,
        !is_duplicate(filter, m.message_id),
        !handlers.contains_key(m.topic->0),
        !handlers.contains_key(wildcard_topic()),
    ensures
        route(handlers, filter, m) == (DeliveryView::Unhandled { topic: m.topic->0 }),
        filter_after(filter, m)->0.window.contains(m.message_id->0),
{
    let f = filter->0;
    crate::idempotence::law_accepted_id_refused_next(f.window, f.capacity, m.message_id->0);
}

/// Law: the wildcard handler is given an object whose `topic`, `message`,
/// `producer` and `message_id` members are those of the received message:
/// the text of the topic, the payload unchanged, and the producer and id as
/// text, `null` only where the message has none; no other key occurs, and
/// no key twice.
pub proof fn law_wildcard_argument_carries_message_fields(
    handlers: Map<Seq<char>, Seq<char>>,
    filter: Option<FilterView>,
    m: InboundView,
)
    requires
        is_complete(m),
        !is_duplicate(filter, m.message_id),
        !handlers.contains_key(m.topic->0),
        handlers.contains_key(wildcard_topic()),
    ensures
        route(handlers, filter, m) matches DeliveryView::Dispatch {
            argument: ArgumentView::Enriched(doc),
            ..
        } && doc.len() == 4 && (forall|k: int|
            0 <= k < doc.len() ==> {
                &&& (#[trigger] doc[k]).0 == "topic"@ ==> doc[k].1 == FieldView::Text(m.topic->0)
                &&& doc[k].0 == "message"@ ==> doc[k].1 == FieldView::Json(m.message->0)
                &&& doc[k].0 == "producer"@ ==> doc[k].1 == match m.producer {
                    Some(p) => FieldView::Text(p),
                    None => FieldView::Null,
                }
                &&& doc[k].0 == "message_id"@ ==> doc[k].1 == match m.message_id {
                    Some(id) => FieldView::Text(id),
                    None => FieldView::Null,
                }
                &&& (doc[k].0 == "topic"@ || doc[k].0 == "message"@ || doc[k].0 == "producer"@
                    || doc[k].0 == "message_id"@)
            }) && (forall|i: int, j: int|
            0 <= i < doc.len() && 0 <= j < doc.len() && i != j ==> (#[trigger] doc[i]).0 != (
            #[trigger] doc[j]).0) && doc.contains(
            (
                "message_id"@,
                match m.message_id {
                    Some(id) => FieldView::Text(id),
                    None => FieldView::Null,
                },
            ),
        ),
{
    reveal_strlit("topic");
    reveal_strlit("message");
    reveal_strlit("producer");
    reveal_strlit("message_id");
    assert("topic"@.len() == 5);
    assert("message"@.len() == 7);
    assert("producer"@.len() == 8);
    assert("message_id"@.len() == 10);
    let doc = enriched_message(m.topic->0, m.message->0, m.producer, m.message_id);
    assert(doc.len() == 4);
    assert(doc[0].0 == "topic"@);
    assert(doc[1].0 == "message"@);
    assert(doc[2].0 == "producer"@);
    assert(doc[3].0 == "message_id"@);
    assert(doc[3] == (
        "message_id"@,
        match m.message_id {
            Some(id) => FieldView::Text(id),
            None => FieldView::Null,
        },
    ));
}

/// Law: the `consumed` object sent back for a dispatched message names the
/// handler that took it and carries the message's topic text, its id as
/// text (`null` only where it has none) and its payload unchanged; no
/// other key occurs, and no key twice.
pub proof fn law_consumed_notice_carries_message_fields(
    handlers: Map<Seq<char>, Seq<char>>,
    filter: Option<FilterView>,
    m: InboundView,
)
    requires
        route(handlers, filter, m) is Dispatch,
    ensures
        route(handlers, filter, m) matches DeliveryView::Dispatch {
            handler_name,
            consumed: doc,
            ..
        } && doc.len() == 4 && (handlers.contains_key(m.topic->0) ==> handler_name
            == handlers[m.topic->0]) && (!handlers.contains_key(m.topic->0) ==> handler_name
            == handlers[wildcard_topic()]) && (forall|k: int|
            0 <= k < doc.len() ==> {
                &&& (#[trigger] doc[k]).0 == "consumer"@ ==> doc[k].1 == FieldView::Text(handler_name)
                &&& doc[k].0 == "topic"@ ==> doc[k].1 == FieldView::Text(m.topic->0)
                &&& doc[k].0 == "message"@ ==> doc[k].1 == FieldView::Json(m.message->0)
                &&& doc[k].0 == "message_id"@ ==> doc[k].1 == match m.message_id {
                    Some(id) => FieldView::Text(id),
                    None => FieldView::Null,
                }
                &&& (doc[k].0 == "consumer"@ || doc[k].0 == "topic"@ || doc[k].0 == "message"@
                    || doc[k].0 == "message_id"@)
            }) && (forall|i: int, j: int|
            0 <= i < doc.len() && 0 <= j < doc.len() && i != j ==> (#[trigger] doc[i]).0 != (
            #[trigger] doc[j]).0),
{
    reveal_strlit("consumer");
    reveal_strlit("topic");
    reveal_strlit("message");
    reveal_strlit("message_id");
    assert("consumer"@.len() == 8);
    assert("topic"@.len() == 5);
    assert("message"@.len() == 7);
    assert("message_id"@.len() == 10);
    let name = if handlers.contains_key(m.topic->0) {
        handlers[m.topic->0]
    } else {
        handlers[wildcard_topic()]
    };
    let doc = consumed_notice(name, m.topic->0, m.message_id, m.message->0);
    assert(doc.len() == 4);
    assert(doc[0].0 == "consumer"@);
    assert(doc[1].0 == "topic"@);
    assert(doc[2].0 == "message_id"@);
    assert(doc[3].0 == "message"@);
}

} // verus!
