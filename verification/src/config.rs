//! Start-up configuration: what the command line gave, checked once and
//! turned into the values the pipelines work with.

use crate::forward::{forward_for, resolve_forward, ForwardTarget, ForwardTargetView};
use crate::interval::{is_short_span, span_is_short, Interval};
use crate::outside::{
    debug_quote, parse_span, parse_url, parsed_span, parsed_url, quoted_text,
};
use crate::properties::{collect, Properties};
use vstd::prelude::*;
use vstd::string::*;

verus! {

/// The broker that is used where none is named.
pub const DEFAULT_URL: &'static str = "pulsar://127.0.0.1";

/// The subscription, consumer and producer name that is used where none is given.
pub const DEFAULT_NAME: &'static str = "pulsar-cli";

/// Seconds between two published messages where no interval is given.
pub const DEFAULT_INTERVAL_SECS: u64 = 5;

/// Whether one consumer or several may be attached to a subscription.
#[derive(Clone, Copy, Debug, PartialEq, Eq, Structural)]
pub enum SubscriptionType {
    Exclusive,
    Shared,
}

/// Where a new subscription starts to read.
#[derive(Clone, Copy, Debug, PartialEq, Eq, Structural)]
pub enum InitialPosition {
    Latest,
    Earliest,
}

/// What a consumer subscribes with.
#[derive(Debug, PartialEq, Eq)]
pub struct Subscription {
    pub topic: String,
    pub subscription_name: String,
    pub consumer_name: String,
    pub sub_type: SubscriptionType,
    pub durable: bool,
    pub initial_position: InitialPosition,
}

pub struct SubscriptionView {
    pub topic: Seq<char>,
    pub subscription_name: Seq<char>,
    pub consumer_name: Seq<char>,
    pub sub_type: SubscriptionType,
    pub durable: bool,
    pub initial_position: InitialPosition,
}

impl View for Subscription {
    type V = SubscriptionView;

    open spec fn view(&self) -> SubscriptionView {
        SubscriptionView {
            topic: self.topic@,
            subscription_name: self.subscription_name@,
            consumer_name: self.consumer_name@,
            sub_type: self.sub_type,
            durable: self.durable,
            initial_position: self.initial_position,
        }
    }
}

impl Subscription {
    /// A copy, built anew.
    pub fn duplicate(&self) -> (copy: Subscription)
        ensures
            copy@ == self@,
    {
        Subscription {
            topic: self.topic.clone(),
            subscription_name: self.subscription_name.clone(),
            consumer_name: self.consumer_name.clone(),
            sub_type: self.sub_type,
            durable: self.durable,
            initial_position: self.initial_position,
        }
    }
}

/// The consume command as given on the command line.
#[derive(Debug)]
pub struct ConsumeOptions {
    pub topic: String,
    pub subscription_name: Option<String>,
    pub consumer_name: Option<String>,
    pub durable: bool,
    pub json: bool,
    pub shared: bool,
    pub earliest: bool,
    pub ack: bool,
    pub forward_to_topic: Option<String>,
    pub forward_to_url: Option<String>,
}

pub struct ConsumeOptionsView {
    pub topic: Seq<char>,
    pub subscription_name: Option<Seq<char>>,
    pub consumer_name: Option<Seq<char>>,
    pub durable: bool,
    pub json: bool,
    pub shared: bool,
    pub earliest: bool,
    pub ack: bool,
    pub forward_to_topic: Option<Seq<char>>,
    pub forward_to_url: Option<Seq<char>>,
}

/// An optional text, as text.
pub open spec fn text_of(text: Option<String>) -> Option<Seq<char>> {
    match text {
        Some(given) => Some(given@),
        None => None,
    }
}

/// `text` where given, else `fallback`.
pub open spec fn text_or(text: Option<Seq<char>>, fallback: Seq<char>) -> Seq<char> {
    match text {
        Some(given) => given,
        None => fallback,
    }
}

impl View for ConsumeOptions {
    type V = ConsumeOptionsView;

    open spec fn view(&self) -> ConsumeOptionsView {
        ConsumeOptionsView {
            topic: self.topic@,
            subscription_name: text_of(self.subscription_name),
            consumer_name: text_of(self.consumer_name),
            durable: self.durable,
            json: self.json,
            shared: self.shared,
            earliest: self.earliest,
            ack: self.ack,
            forward_to_topic: text_of(self.forward_to_topic),
            forward_to_url: text_of(self.forward_to_url),
        }
    }
}

/// Everything the consume pipeline is configured with. It does not change
/// while the pipeline runs.
#[derive(Debug)]
pub struct ConsumeConfig {
    pub url: String,
    pub subscription: Subscription,
    /// Payloads are shown as pretty-printed JSON.
    pub json: bool,
    /// Each message is acknowledged once it has been handled.
    pub ack: bool,
    /// Each message is forwarded to this target.
    pub forward: Option<ForwardTarget>,
    /// Property lines and warnings switch the foreground colour.
    pub ansi: bool,
}

pub struct ConsumeConfigView {
    pub url: Seq<char>,
    pub subscription: SubscriptionView,
    pub json: bool,
    pub ack: bool,
    pub forward: Option<ForwardTargetView>,
    pub ansi: bool,
}

impl View for ConsumeConfig {
    type V = ConsumeConfigView;

    open spec fn view(&self) -> ConsumeConfigView {
        ConsumeConfigView {
            url: self.url@,
            subscription: self.subscription@,
            json: self.json,
            ack: self.ack,
            forward: match self.forward {
                Some(target) => Some(target@),
                None => None,
            },
            ansi: self.ansi,
        }
    }
}

/// The produce command as given on the command line.
#[derive(Debug)]
pub struct ProduceOptions {
    pub topic: String,
    pub producer_name: Option<String>,
    /// The time between two messages, such as `5s` or `1min 30s`.
    pub interval: Option<String>,
    /// Properties as `key=value`.
    pub properties: Vec<String>,
}

/// What a producer is created with.
#[derive(Debug)]
pub struct ProducerConfig {
    pub topic: String,
    pub producer_name: String,
    /// The properties attached to every message.
    pub static_properties: Properties,
}

pub struct ProducerConfigView {
    pub topic: Seq<char>,
    pub producer_name: Seq<char>,
    pub static_properties: Seq<(Seq<char>, Seq<char>)>,
}

impl View for ProducerConfig {
    type V = ProducerConfigView;

    open spec fn view(&self) -> ProducerConfigView {
        ProducerConfigView {
            topic: self.topic@,
            producer_name: self.producer_name@,
            static_properties: self.static_properties.entries(),
        }
    }
}

impl ProducerConfig {
    /// A copy, built anew.
    pub fn duplicate(&self) -> (copy: ProducerConfig)
        ensures
            copy@ == self@,
    {
        ProducerConfig {
            topic: self.topic.clone(),
            producer_name: self.producer_name.clone(),
            static_properties: self.static_properties.duplicate(),
        }
    }
}

/// Everything the produce pipeline is configured with. It does not change
/// while the pipeline runs.
#[derive(Debug)]
pub struct ProduceConfig {
    pub url: String,
    pub producer: ProducerConfig,
    pub interval: Interval,
}

pub struct ProduceConfigView {
    pub url: Seq<char>,
    pub producer: ProducerConfigView,
    pub interval: Interval,
}

impl View for ProduceConfig {
    type V = ProduceConfigView;

    open spec fn view(&self) -> ProduceConfigView {
        ProduceConfigView { url: self.url@, producer: self.producer@, interval: self.interval }
    }
}

/// Why a command line is refused before anything is connected.
#[derive(Debug, PartialEq, Eq)]
pub enum ConfigError {
    /// A property that is not of the form `key=value`.
    InvalidProperty { attr: String },
    /// A broker address that is no absolute URL.
    InvalidUrl { text: String },
    /// An interval that is no time span.
    InvalidInterval { text: String },
}

pub enum ConfigErrorView {
    InvalidProperty { attr: Seq<char> },
    InvalidUrl { text: Seq<char> },
    InvalidInterval { text: Seq<char> },
}

impl View for ConfigError {
    type V = ConfigErrorView;

    open spec fn view(&self) -> ConfigErrorView {
        match self {
            ConfigError::InvalidProperty { attr } => ConfigErrorView::InvalidProperty {
                attr: attr@,
            },
            ConfigError::InvalidUrl { text } => ConfigErrorView::InvalidUrl { text: text@ },
            ConfigError::InvalidInterval { text } => ConfigErrorView::InvalidInterval {
                text: text@,
            },
        }
    }
}

impl ConfigError {
    /// The error as a sentence.
    pub fn message(&self) -> (text: String)
        ensures
            text@ == match self@ {
                ConfigErrorView::InvalidProperty { attr } => "Invalid attr: "@ + quoted_text(
                    attr,
                ),
                ConfigErrorView::InvalidUrl { text } => "Invalid URL: "@ + text,
                ConfigErrorView::InvalidInterval { text } => "Invalid interval: "@ + text,
            },
    {
        match self {
            ConfigError::InvalidProperty { attr } => {
                let quoted = debug_quote(attr.as_str());
                String::from_str("Invalid attr: ").concat(quoted.as_str())
            },
            ConfigError::InvalidUrl { text } => {
                String::from_str("Invalid URL: ").concat(text.as_str())
            },
            ConfigError::InvalidInterval { text } => {
                String::from_str("Invalid interval: ").concat(text.as_str())
            },
        }
    }
}

/// `i` is the place of the first `=` in `s`.
pub open spec fn first_equals_at(s: Seq<char>, i: int) -> bool {
    &&& 0 <= i < s.len()
    &&& s[i] == '='
    &&& forall|j: int| 0 <= j < i ==> s[j] != '='
}

/// `s` split at its first `=`: what stands before it and what stands after
/// it. `None` where `s` holds no `=`.
pub open spec fn split_property_spec(s: Seq<char>) -> Option<(Seq<char>, Seq<char>)> {
    if exists|i: int| first_equals_at(s, i) {
        let i = choose|i: int| first_equals_at(s, i);
        Some((s.subrange(0, i), s.subrange(i + 1, s.len() as int)))
    } else {
        None
    }
}

/// Splits `attr` at its first `=` into a key and a value. Later `=` belong
/// to the value. `None` where `attr` holds no `=`.
pub fn split_property(attr: &str) -> (parts: Option<(String, String)>)
    ensures
        match parts {
            Some((key, value)) => exists|i: int|
                first_equals_at(attr@, i) && key@ == attr@.subrange(0, i) && value@
                    == attr@.subrange(i + 1, attr@.len() as int),
            None => forall|i: int| 0 <= i < attr@.len() ==> attr@[i] != '=',
        },
        match parts {
            Some((key, value)) => split_property_spec(attr@) == Some((key@, value@)),
            None => split_property_spec(attr@) is None,
        },
{
    let n = attr.unicode_len();
    let mut i: usize = 0;
    while i < n
        invariant
            i <= n,
            n == attr@.len(),
            forall|j: int| 0 <= j < i ==> attr@[j] != '=',
        decreases n - i,
    {
        if attr.get_char(i) == '=' {
            let key = attr.substring_char(0, i).to_owned();
            let value = attr.substring_char(i + 1, n).to_owned();
            proof {
                assert(first_equals_at(attr@, i as int));
                let w = choose|w: int| first_equals_at(attr@, w);
                assert(w == i) by {
                    if w < i {
                        assert(attr@[w] != '=');
                    }
                    if i < w {
                        assert(attr@[i as int] != '=');
                    }
                }
            }
            return Some((key, value));
        }
        i = i + 1;
    }
    proof {
        assert forall|w: int| !first_equals_at(attr@, w) by {
            if 0 <= w < attr@.len() {
                assert(attr@[w] != '=');
            }
        }
    }
    None
}

/// The texts of `attrs`.
pub open spec fn texts(attrs: Seq<String>) -> Seq<Seq<char>> {
    Seq::new(attrs.len(), |i: int| attrs[i]@)
}

/// Every one of `attrs` holds a `=`.
pub open spec fn all_split(attrs: Seq<Seq<char>>) -> bool {
    forall|i: int| 0 <= i < attrs.len() ==> (#[trigger] split_property_spec(attrs[i])) is Some
}

/// The key and value of each of `attrs`.
pub open spec fn split_all(attrs: Seq<Seq<char>>) -> Seq<(Seq<char>, Seq<char>)> {
    Seq::new(attrs.len(), |i: int| split_property_spec(attrs[i])->0)
}

/// `i` is the place of the first of `attrs` that holds no `=`.
pub open spec fn first_unsplit_at(attrs: Seq<Seq<char>>, i: int) -> bool {
    &&& 0 <= i < attrs.len()
    &&& split_property_spec(attrs[i]) is None
    &&& forall|j: int| 0 <= j < i ==> (#[trigger] split_property_spec(attrs[j])) is Some
}

/// Reads properties given as `key=value`. Of two with one key the later
/// stays. The first one without a `=` is refused.
pub fn parse_properties(attrs: &Vec<String>) -> (parsed: Result<Properties, ConfigError>)
    ensures
        match parsed {
            Ok(props) => all_split(texts(attrs@)) && props.wf() && props.entries() == collect(
                split_all(texts(attrs@)),
            ),
            Err(ConfigError::InvalidProperty { attr }) => exists|i: int|
                first_unsplit_at(texts(attrs@), i) && attr@ == attrs@[i]@,
            Err(_) => false,
        },
{
    let mut props = Properties::new();
    let mut i: usize = 0;
    let ghost all = texts(attrs@);
    assert(split_all(all.subrange(0, 0)) =~= Seq::empty());
    while i < attrs.len()
        invariant
            i <= attrs@.len(),
            all == texts(attrs@),
            props.wf(),
            all_split(all.subrange(0, i as int)),
            props.entries() == collect(split_all(all.subrange(0, i as int))),
        decreases attrs@.len() - i,
    {
        let ghost done = all.subrange(0, i as int);
        let ghost next = all.subrange(0, i + 1);
        assert(all[i as int] == attrs@[i as int]@);
        match split_property(attrs[i].as_str()) {
            Some((key, value)) => {
                proof {
                    assert forall|j: int| 0 <= j < next.len() implies (
                    #[trigger] split_property_spec(next[j])) is Some by {
                        if j < i {
                            assert(done[j] == next[j]);
                        }
                    }
                    assert(split_all(next).drop_last() =~= split_all(done));
                    assert(split_all(next).last() == (key@, value@));
                }
                props.insert(key, value);
            },
            None => {
                proof {
                    assert forall|j: int| 0 <= j < i implies (#[trigger] split_property_spec(
                        all[j],
                    )) is Some by {
                        assert(done[j] == all[j]);
                    }
                    assert(first_unsplit_at(all, i as int));
                }
                return Err(ConfigError::InvalidProperty { attr: attrs[i].clone() });
            },
        }
        i = i + 1;
    }
    assert(all.subrange(0, i as int) =~= all);
    Ok(props)
}

/// The interval that `text` names; five seconds where none is given. A
/// text with more digits than a time span may have names none, and neither
/// does one that is no time span.
pub open spec fn interval_for(text: Option<Seq<char>>) -> Result<Interval, ConfigErrorView> {
    match text {
        None => Ok(Interval { secs: DEFAULT_INTERVAL_SECS, nanos: 0 }),
        Some(given) => if span_is_short(given) {
            match parsed_span(given) {
                Some(parts) => Ok(Interval { secs: parts.0, nanos: parts.1 }),
                None => Err(ConfigErrorView::InvalidInterval { text: given }),
            }
        } else {
            Err(ConfigErrorView::InvalidInterval { text: given })
        },
    }
}

/// Reads the interval between two published messages. A text with more than
/// eleven digits is refused unread.
pub fn resolve_interval(text: &Option<String>) -> (interval: Result<Interval, ConfigError>)
    ensures
        match interval {
            Ok(span) => interval_for(text_of(*text)) == Ok::<Interval, ConfigErrorView>(span)
                && span.wf(),
            Err(error) => interval_for(text_of(*text)) == Err::<Interval, ConfigErrorView>(error@),
        },
{
    match text {
        None => Ok(Interval { secs: DEFAULT_INTERVAL_SECS, nanos: 0 }),
        Some(given) => {
            if !is_short_span(given.as_str()) {
                return Err(ConfigError::InvalidInterval { text: given.clone() });
            }
            match parse_span(given.as_str()) {
                Some(parts) => Ok(Interval { secs: parts.0, nanos: parts.1 }),
                None => Err(ConfigError::InvalidInterval { text: given.clone() }),
            }
        },
    }
}

/// The broker address that `text` names, in normal form; the default broker
/// where none is given.
pub open spec fn url_for(text: Option<Seq<char>>) -> Result<Seq<char>, ConfigErrorView> {
    let given = text_or(text, DEFAULT_URL@);
    match parsed_url(given) {
        Some(normal) => Ok(normal),
        None => Err(ConfigErrorView::InvalidUrl { text: given }),
    }
}

/// Reads a broker address.
pub fn resolve_url(text: &Option<String>) -> (url: Result<String, ConfigError>)
    ensures
        match url {
            Ok(normal) => url_for(text_of(*text)) == Ok::<Seq<char>, ConfigErrorView>(normal@),
            Err(error) => url_for(text_of(*text)) == Err::<Seq<char>, ConfigErrorView>(error@),
        },
{
    let given = match text {
        Some(given) => given.clone(),
        None => String::from_str(DEFAULT_URL),
    };
    match parse_url(given.as_str()) {
        Some(normal) => Ok(normal),
        None => Err(ConfigError::InvalidUrl { text: given }),
    }
}

/// The subscription that the options ask for.
pub open spec fn subscription_for(options: ConsumeOptionsView) -> SubscriptionView {
    SubscriptionView {
        topic: options.topic,
        subscription_name: text_or(options.subscription_name, DEFAULT_NAME@),
        consumer_name: text_or(options.consumer_name, DEFAULT_NAME@),
        sub_type: if options.shared {
            SubscriptionType::Shared
        } else {
            SubscriptionType::Exclusive
        },
        durable: options.durable,
        initial_position: if options.earliest {
            InitialPosition::Earliest
        } else {
            InitialPosition::Latest
        },
    }
}

/// The configuration that a consume command resolves to.
pub open spec fn consume_config_for(
    url: Option<Seq<char>>,
    options: ConsumeOptionsView,
    ansi: bool,
) -> Result<ConsumeConfigView, ConfigErrorView> {
    match url_for(url) {
        Err(error) => Err(error),
        Ok(broker) => match options.forward_to_url {
            Some(given) => match parsed_url(given) {
                None => Err(ConfigErrorView::InvalidUrl { text: given }),
                Some(normal) => Ok(
                    ConsumeConfigView {
                        url: broker,
                        subscription: subscription_for(options),
                        json: options.json,
                        ack: options.ack,
                        forward: forward_for(broker, options.forward_to_topic, Some(normal)),
                        ansi,
                    },
                ),
            },
            None => Ok(
                ConsumeConfigView {
                    url: broker,
                    subscription: subscription_for(options),
                    json: options.json,
                    ack: options.ack,
                    forward: forward_for(broker, options.forward_to_topic, None),
                    ansi,
                },
            ),
        },
    }
}

/// `text` where given, else a copy of `fallback`.
pub fn name_or(text: Option<String>, fallback: &str) -> (name: String)
    ensures
        name@ == text_or(text_of(text), fallback@),
{
    match text {
        Some(given) => given,
        None => String::from_str(fallback),
    }
}

/// Builds the subscription that the options ask for.
pub fn build_subscription(
    topic: String,
    subscription_name: Option<String>,
    consumer_name: Option<String>,
    shared: bool,
    durable: bool,
    earliest: bool,
) -> (subscription: Subscription)
    ensures
        subscription@ == (SubscriptionView {
            topic: topic@,
            subscription_name: text_or(text_of(subscription_name), DEFAULT_NAME@),
            consumer_name: text_or(text_of(consumer_name), DEFAULT_NAME@),
            sub_type: if shared {
                SubscriptionType::Shared
            } else {
                SubscriptionType::Exclusive
            },
            durable,
            initial_position: if earliest {
                InitialPosition::Earliest
            } else {
                InitialPosition::Latest
            },
        }),
{
    Subscription {
        topic,
        subscription_name: name_or(subscription_name, DEFAULT_NAME),
        consumer_name: name_or(consumer_name, DEFAULT_NAME),
        sub_type: if shared {
            SubscriptionType::Shared
        } else {
            SubscriptionType::Exclusive
        },
        durable,
        initial_position: if earliest {
            InitialPosition::Earliest
        } else {
            InitialPosition::Latest
        },
    }
}

/// Checks a consume command and resolves it into the pipeline's
/// configuration. `url` is the broker to consume from; `ansi` says whether
/// the terminal is to be sent colour.
pub fn resolve_consume(url: Option<String>, options: ConsumeOptions, ansi: bool) -> (config:
    Result<ConsumeConfig, ConfigError>)
    ensures
        match config {
            Ok(resolved) => consume_config_for(text_of(url), options@, ansi) == Ok::<
                ConsumeConfigView,
                ConfigErrorView,
            >(resolved@),
            Err(error) => consume_config_for(text_of(url), options@, ansi) == Err::<
                ConsumeConfigView,
                ConfigErrorView,
            >(error@),
        },
{
    let broker = match resolve_url(&url) {
        Ok(normal) => normal,
        Err(error) => {
            return Err(error);
        },
    };
    let forward_url: Option<String> = match &options.forward_to_url {
        Some(given) => match parse_url(given.as_str()) {
            Some(normal) => Some(normal),
            None => {
                return Err(ConfigError::InvalidUrl { text: given.clone() });
            },
        },
        None => None,
    };
    let forward = resolve_forward(&broker, options.forward_to_topic, forward_url);
    let subscription = build_subscription(
        options.topic,
        options.subscription_name,
        options.consumer_name,
        options.shared,
        options.durable,
        options.earliest,
    );
    Ok(
        ConsumeConfig {
            url: broker,
            subscription,
            json: options.json,
            ack: options.ack,
            forward,
            ansi,
        },
    )
}

/// Checks a produce command and resolves it into the pipeline's
/// configuration. The broker address is checked first, then the interval,
/// then the properties.
pub fn resolve_produce(url: Option<String>, options: ProduceOptions) -> (config: Result<
    ProduceConfig,
    ConfigError,
>)
    ensures
        match config {
            Ok(resolved) => {
                &&& url_for(text_of(url)) == Ok::<Seq<char>, ConfigErrorView>(resolved@.url)
                &&& interval_for(text_of(options.interval)) == Ok::<Interval, ConfigErrorView>(
                    resolved@.interval,
                )
                &&& resolved.interval.wf()
                &&& all_split(texts(options.properties@))
                &&& resolved.producer.static_properties.wf()
                &&& resolved@.producer == (ProducerConfigView {
                    topic: options.topic@,
                    producer_name: text_or(text_of(options.producer_name), DEFAULT_NAME@),
                    static_properties: collect(split_all(texts(options.properties@))),
                })
            },
            Err(error) => {
                ||| url_for(text_of(url)) == Err::<Seq<char>, ConfigErrorView>(error@)
                ||| (url_for(text_of(url)) is Ok && interval_for(text_of(options.interval))
                    == Err::<Interval, ConfigErrorView>(error@))
                ||| (url_for(text_of(url)) is Ok && interval_for(text_of(options.interval)) is Ok
                    && exists|i: int|
                    first_unsplit_at(texts(options.properties@), i) && error@
                        == (ConfigErrorView::InvalidProperty { attr: options.properties@[i]@ }))
            },
        },
{
    let broker = match resolve_url(&url) {
        Ok(normal) => normal,
        Err(error) => {
            return Err(error);
        },
    };
    let interval = match resolve_interval(&options.interval) {
        Ok(span) => span,
        Err(error) => {
            return Err(error);
        },
    };
    let static_properties = match parse_properties(&options.properties) {
        Ok(props) => props,
        Err(error) => {
            return Err(error);
        },
    };
    Ok(
        ProduceConfig {
            url: broker,
            producer: ProducerConfig {
                topic: options.topic,
                producer_name: name_or(options.producer_name, DEFAULT_NAME),
                static_properties,
            },
            interval,
        },
    )
}

} // verus!
