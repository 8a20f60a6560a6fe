use vstd::prelude::*;

verus! {

/// A key with an optional value, attached to an event.
#[derive(Clone, Debug)]
pub struct Attribute {
    pub key: String,
    pub value: Option<String>,
}

/// The text of an optional string field.
pub open spec fn opt_text(s: Option<String>) -> Option<Seq<char>> {
    match s {
        Some(t) => Some(t@),
        None => None,
    }
}

/// What an attribute holds.
pub struct AttributeModel {
    pub key: Seq<char>,
    pub value: Option<Seq<char>>,
}

impl View for Attribute {
    type V = AttributeModel;

    open spec fn view(&self) -> AttributeModel {
        AttributeModel { key: self.key@, value: opt_text(self.value) }
    }
}

/// One Riemann event. Every field is optional. The floating-point fields
/// (`ttl` and `metric_f` single precision, `metric_d` double precision) hold
/// the IEEE-754 bit pattern of the value, which is also what goes on the wire.
#[derive(Clone, Debug)]
pub struct Event {
    pub time: Option<i64>,
    pub state: Option<String>,
    pub service: Option<String>,
    pub host: Option<String>,
    pub description: Option<String>,
    pub tags: Vec<String>,
    pub ttl: Option<u32>,
    pub attributes: Vec<Attribute>,
    pub time_micros: Option<i64>,
    pub metric_sint64: Option<i64>,
    pub metric_d: Option<u64>,
    pub metric_f: Option<u32>,
}

/// What an event holds, with strings as character sequences.
pub struct EventModel {
    pub time: Option<i64>,
    pub state: Option<Seq<char>>,
    pub service: Option<Seq<char>>,
    pub host: Option<Seq<char>>,
    pub description: Option<Seq<char>>,
    pub tags: Seq<Seq<char>>,
    pub ttl: Option<u32>,
    pub attributes: Seq<AttributeModel>,
    pub time_micros: Option<i64>,
    pub metric_sint64: Option<i64>,
    pub metric_d: Option<u64>,
    pub metric_f: Option<u32>,
}

/// The event with no field set.
pub open spec fn empty_event() -> EventModel {
    EventModel {
        time: None,
        state: None,
        service: None,
        host: None,
        description: None,
        tags: Seq::empty(),
        ttl: None,
        attributes: Seq::empty(),
        time_micros: None,
        metric_sint64: None,
        metric_d: None,
        metric_f: None,
    }
}

impl View for Event {
    type V = EventModel;

    open spec fn view(&self) -> EventModel {
        EventModel {
            time: self.time,
            state: opt_text(self.state),
            service: opt_text(self.service),
            host: opt_text(self.host),
            description: opt_text(self.description),
            tags: self.tags@.map_values(|t: String| t@),
            ttl: self.ttl,
            attributes: self.attributes@.map_values(|a: Attribute| a@),
            time_micros: self.time_micros,
            metric_sint64: self.metric_sint64,
            metric_d: self.metric_d,
            metric_f: self.metric_f,
        }
    }
}

/// A query in Riemann's query language.
#[derive(Clone, Debug)]
pub struct Query {
    pub string: Option<String>,
}

/// The message exchanged with the server: a batch of events or a query from
/// the client; `ok`, `error` and, for a query, the matching events from the
/// server.
#[derive(Clone, Debug)]
pub struct Msg {
    pub ok: Option<bool>,
    pub error: Option<String>,
    pub events: Vec<Event>,
    pub query: Option<Query>,
}

/// Builds an [`Event`] one field at a time.
pub struct EventBuilder {
    result: Event,
}

impl View for EventBuilder {
    type V = EventModel;

    closed spec fn view(&self) -> EventModel {
        self.result@
    }
}

impl Default for EventBuilder {
    fn default() -> (r: EventBuilder)
        ensures
            r@ == empty_event(),
    {
        EventBuilder::new()
    }
}

impl EventBuilder {
    /// A builder of an event with no field set.
    pub fn new() -> (r: Self)
        ensures
            r@ == empty_event(),
    {
        let r = EventBuilder {
            result: Event {
                time: None,
                state: None,
                service: None,
                host: None,
                description: None,
                tags: Vec::new(),
                ttl: None,
                attributes: Vec::new(),
                time_micros: None,
                metric_sint64: None,
                metric_d: None,
                metric_f: None,
            },
        };
        assert(r@.tags =~= Seq::<Seq<char>>::empty());
        assert(r@.attributes =~= Seq::<AttributeModel>::empty());
        r
    }

    /// Sets the event time, in seconds.
    pub fn time(self, time: i64) -> (r: Self)
        ensures
            r@ == (EventModel { time: Some(time), ..self@ }),
    {
        let mut b = self;
        b.result.time = Some(time);
        b
    }

    /// Sets the state, such as `ok` or `critical`.
    pub fn state(self, state: &str) -> (r: Self)
        ensures
            r@ == (EventModel { state: Some(state@), ..self@ }),
    {
        let mut b = self;
        b.result.state = Some(state.to_owned());
        b
    }

    /// Sets the name of the service the event is about.
    pub fn service(self, service: &str) -> (r: Self)
        ensures
            r@ == (EventModel { service: Some(service@), ..self@ }),
    {
        let mut b = self;
        b.result.service = Some(service.to_owned());
        b
    }

    /// Sets the host the event comes from.
    pub fn host(self, host: &str) -> (r: Self)
        ensures
            r@ == (EventModel { host: Some(host@), ..self@ }),
    {
        let mut b = self;
        b.result.host = Some(host.to_owned());
        b
    }

    /// Sets a free-form description.
    pub fn description(self, description: &str) -> (r: Self)
        ensures
            r@ == (EventModel { description: Some(description@), ..self@ }),
    {
        let mut b = self;
        b.result.description = Some(description.to_owned());
        b
    }

    /// Appends a tag; tags keep their order and may repeat.
    pub fn add_tag(self, tag: &str) -> (r: Self)
        ensures
            r@ == (EventModel { tags: self@.tags.push(tag@), ..self@ }),
    {
        let mut b = self;
        let ghost before = b.result.tags@;
        b.result.tags.push(tag.to_owned());
        assert(b.result.tags@.map_values(|t: String| t@) =~= before.map_values(
            |t: String| t@,
        ).push(tag@));
        b
    }

    /// Sets the time to live, given as the bit pattern of an `f32`.
    pub fn ttl(self, ttl: u32) -> (r: Self)
        ensures
            r@ == (EventModel { ttl: Some(ttl), ..self@ }),
    {
        let mut b = self;
        b.result.ttl = Some(ttl);
        b
    }

    /// Sets the event time, in microseconds.
    pub fn time_micros(self, time_micros: i64) -> (r: Self)
        ensures
            r@ == (EventModel { time_micros: Some(time_micros), ..self@ }),
    {
        let mut b = self;
        b.result.time_micros = Some(time_micros);
        b
    }

    /// Sets the integer metric.
    pub fn metric_sint64(self, metric_sint64: i64) -> (r: Self)
        ensures
            r@ == (EventModel { metric_sint64: Some(metric_sint64), ..self@ }),
    {
        let mut b = self;
        b.result.metric_sint64 = Some(metric_sint64);
        b
    }

    /// Sets the double-precision metric, given as the bit pattern of an `f64`.
    pub fn metric_d(self, metric_d: u64) -> (r: Self)
        ensures
            r@ == (EventModel { metric_d: Some(metric_d), ..self@ }),
    {
        let mut b = self;
        b.result.metric_d = Some(metric_d);
        b
    }

    /// Sets the single-precision metric, given as the bit pattern of an `f32`.
    pub fn metric_f(self, metric_f: u32) -> (r: Self)
        ensures
            r@ == (EventModel { metric_f: Some(metric_f), ..self@ }),
    {
        let mut b = self;
        b.result.metric_f = Some(metric_f);
        b
    }

    /// Appends an attribute; attributes keep their order.
    pub fn add_attribute(self, key: &str, value: Option<&str>) -> (r: Self)
        ensures
            r@ == (EventModel {
                attributes: self@.attributes.push(
                    AttributeModel {
                        key: key@,
                        value: match value {
                            Some(v) => Some(v@),
                            None => None,
                        },
                    },
                ),
                ..self@
            }),
    {
        let mut b = self;
        let value = match value {
            Some(v) => Some(v.to_owned()),
            None => None,
        };
        let attr = Attribute { key: key.to_owned(), value };
        let ghost before = b.result.attributes@;
        b.result.attributes.push(attr);
        assert(b.result.attributes@.map_values(|a: Attribute| a@) =~= before.map_values(
            |a: Attribute| a@,
        ).push(attr@));
        b
    }

    /// The event built so far.
    pub fn build(self) -> (r: Event)
        ensures
            r@ == self@,
    {
        self.result
    }
}

} // verus!
