//! Kafka client configuration: the `librdkafka` settings a producer is created with.

use vstd::prelude::*;

use rdkafka::config::ClientConfig;

use crate::duration::Duration;
use crate::table::{first_key, keys_distinct, table_insert};
use crate::text::{concat_str, decimal, fmt_i64, fmt_u128, owned, signed_decimal};

verus! {

/// Client configuration of `rdkafka`: the `librdkafka` settings a client is created with.
#[verifier::external_type_specification]
#[verifier::external_body]
pub struct ExClientConfig(rdkafka::config::ClientConfig);

/// Name of what a `ClientConfig` holds: its settings, as a map from names to values.
pub uninterp spec fn client_settings(config: rdkafka::config::ClientConfig) -> Map<Seq<char>, Seq<char>>;

/// Creates an empty configuration with `ClientConfig::new`, whose map of settings
/// starts empty.
#[verifier::external_body]
fn client_config_new() -> (r: ClientConfig)
    ensures
        client_settings(r).is_empty(),
{
    ClientConfig::new()
}

/// Sets a value with `ClientConfig::set`, which inserts it into the map of settings,
/// replacing an earlier value of that name.
#[verifier::external_body]
fn client_config_set(config: &mut ClientConfig, key: &str, value: String)
    ensures
        client_settings(*final(config)) == client_settings(*old(config)).insert(key@, value@),
{
    config.set(key, value);
}

/// Value of a boolean setting.
pub open spec fn bool_text(b: bool) -> Seq<char> {
    if b {
        "true"@
    } else {
        "false"@
    }
}

/// Value of a duration setting: whole milliseconds.
pub open spec fn ms_text(d: Duration) -> Seq<char> {
    decimal(d@ / 1_000_000)
}

/// Convert boolean value for use in Kafka settings.
fn kafka_config_bool(b: bool) -> (r: String)
    ensures
        r@ == bool_text(b),
{
    if b {
        owned("true")
    } else {
        owned("false")
    }
}

/// Format duration as number of milliseconds, for use in Kafka configuration.
fn kafka_ms(d: Duration) -> (r: String)
    ensures
        r@ == ms_text(d),
{
    fmt_u128(d.as_millis())
}

/// Pieces joined with a separator, as `[String]::join` does.
pub open spec fn join_spec(parts: Seq<Seq<char>>, sep: Seq<char>) -> Seq<char>
    decreases parts.len(),
{
    if parts.len() == 0 {
        Seq::empty()
    } else if parts.len() == 1 {
        parts[0]
    } else {
        join_spec(parts.drop_last(), sep) + sep + parts.last()
    }
}

/// Joins strings with a separator.
pub fn join_strings(parts: &Vec<String>, sep: &str) -> (r: String)
    ensures
        r@ == join_spec(parts@.map_values(|p: String| p@), sep@),
{
    let ghost views = parts@.map_values(|p: String| p@);
    let mut r = String::new();
    let mut i: usize = 0;
    while i < parts.len()
        invariant
            i <= parts@.len(),
            views == parts@.map_values(|p: String| p@),
            r@ == join_spec(views.take(i as int), sep@),
        decreases parts@.len() - i,
    {
        let ghost before = r@;
        if i > 0 {
            r = concat_str(r.as_str(), sep);
        }
        r = concat_str(r.as_str(), parts[i].as_str());
        proof {
            assert(views.take(i + 1).drop_last() =~= views.take(i as int));
            if i == 0 {
                assert(views.take(1)[0] == parts@[0]@);
                assert(r@ =~= join_spec(views.take(1), sep@));
            }
        }
        i = i + 1;
    }
    assert(views.take(i as int) =~= views);
    r
}

/// Kafka security protocol to use.
#[derive(Clone, Copy, Debug, PartialEq, Eq, Structural)]
pub enum KafkaProtocol {
    /// Without authentication, without encryption.
    Plaintext,
    /// Without authentication, with encryption.
    Ssl,
    /// With authentication, without encryption.
    SaslPlaintext,
    /// With authentication, with encryption.
    SaslSsl,
}

/// Setting value of a security protocol.
pub open spec fn protocol_text(p: KafkaProtocol) -> Seq<char> {
    match p {
        KafkaProtocol::Plaintext => "plaintext"@,
        KafkaProtocol::Ssl => "ssl"@,
        KafkaProtocol::SaslPlaintext => "sasl_plaintext"@,
        KafkaProtocol::SaslSsl => "sasl_ssl"@,
    }
}

impl Default for KafkaProtocol {
    fn default() -> (r: KafkaProtocol)
        ensures
            r == KafkaProtocol::SaslSsl,
    {
        KafkaProtocol::SaslSsl
    }
}

impl KafkaProtocol {
    /// Setting value of the protocol.
    pub fn as_str(&self) -> (r: &'static str)
        ensures
            r@ == protocol_text(*self),
    {
        match self {
            KafkaProtocol::Plaintext => "plaintext",
            KafkaProtocol::Ssl => "ssl",
            KafkaProtocol::SaslPlaintext => "sasl_plaintext",
            KafkaProtocol::SaslSsl => "sasl_ssl",
        }
    }
}

/// Kafka authentication mechanism to use.
#[derive(Clone, Copy, Debug, PartialEq, Eq, Structural)]
pub enum KafkaAuthMechanism {
    /// Authenticate via GSSAPI (typically Kerberos).
    Gssapi,
    /// Authenticate via plain username and password.
    Plain,
    /// Authenticate via SCRAM algorithm using SHA-256 hashes.
    ScramSha256,
    /// Authenticate via SCRAM algorithm using SHA-512 hashes.
    ScramSha512,
    /// Authenticate via OAuth Bearer. Additional configuration is required.
    OAuthBearer,
}

/// Setting value of an authentication mechanism.
pub open spec fn mechanism_text(m: KafkaAuthMechanism) -> Seq<char> {
    match m {
        KafkaAuthMechanism::Gssapi => "GSSAPI"@,
        KafkaAuthMechanism::Plain => "PLAIN"@,
        KafkaAuthMechanism::ScramSha256 => "SCRAM-SHA-256"@,
        KafkaAuthMechanism::ScramSha512 => "SCRAM-SHA-512"@,
        KafkaAuthMechanism::OAuthBearer => "OAUTHBEARER"@,
    }
}

impl Default for KafkaAuthMechanism {
    fn default() -> (r: KafkaAuthMechanism)
        ensures
            r == KafkaAuthMechanism::ScramSha512,
    {
        KafkaAuthMechanism::ScramSha512
    }
}

impl KafkaAuthMechanism {
    /// Setting value of the mechanism.
    pub fn as_str(&self) -> (r: &'static str)
        ensures
            r@ == mechanism_text(*self),
    {
        match self {
            KafkaAuthMechanism::Gssapi => "GSSAPI",
            KafkaAuthMechanism::Plain => "PLAIN",
            KafkaAuthMechanism::ScramSha256 => "SCRAM-SHA-256",
            KafkaAuthMechanism::ScramSha512 => "SCRAM-SHA-512",
            KafkaAuthMechanism::OAuthBearer => "OAUTHBEARER",
        }
    }
}

/// Authentication-related Kafka properties.
#[derive(Clone, Debug)]
pub struct KafkaAuthConfig {
    /// SASL username to use (`sasl.username`).
    pub username: Option<String>,
    /// SASL password to use (`sasl.password`).
    pub password: Option<String>,
    /// Kafka security protocol to use (`security.protocol`).
    pub protocol: KafkaProtocol,
    /// Kafka authentication mechanism to use (`sasl.mechanisms`).
    pub mechanism: KafkaAuthMechanism,
}

/// Settings after applying authentication properties.
pub open spec fn auth_settings(a: KafkaAuthConfig, m: Map<Seq<char>, Seq<char>>) -> Map<Seq<char>, Seq<char>> {
    let m1 = match a.username {
        Some(u) => m.insert("sasl.username"@, u@),
        None => m,
    };
    let m2 = match a.password {
        Some(p) => m1.insert("sasl.password"@, p@),
        None => m1,
    };
    m2.insert("sasl.mechanisms"@, mechanism_text(a.mechanism)).insert("security.protocol"@, protocol_text(a.protocol))
}

impl KafkaAuthConfig {
    /// Apply relevant configuration to client settings.
    pub fn configure(&self, client: &mut ClientConfig)
        ensures
            client_settings(*final(client)) == auth_settings(*self, client_settings(*old(client))),
    {
        match &self.username {
            Some(u) => client_config_set(client, "sasl.username", owned(u.as_str())),
            None => {},
        }
        match &self.password {
            Some(p) => client_config_set(client, "sasl.password", owned(p.as_str())),
            None => {},
        }
        client_config_set(client, "sasl.mechanisms", owned(self.mechanism.as_str()));
        client_config_set(client, "security.protocol", owned(self.protocol.as_str()));
    }
}

/// Kafka backoff time configuration.
#[derive(Clone, Copy, Debug, PartialEq, Eq, Structural)]
pub struct KafkaBackoffConfig {
    /// Minimum backoff wait time before retrying a protocol request (`retry.backoff.ms`).
    pub min: Option<Duration>,
    /// Maximum backoff wait time before retrying a protocol request (`retry.backoff.max.ms`).
    pub max: Option<Duration>,
}

/// Settings after setting a duration in milliseconds, when there is one.
pub open spec fn opt_ms_setting(m: Map<Seq<char>, Seq<char>>, key: Seq<char>, d: Option<Duration>) -> Map<Seq<char>, Seq<char>> {
    match d {
        Some(d) => m.insert(key, ms_text(d)),
        None => m,
    }
}

/// Settings after setting an integer, when there is one.
pub open spec fn opt_int_setting(m: Map<Seq<char>, Seq<char>>, key: Seq<char>, n: Option<i32>) -> Map<Seq<char>, Seq<char>> {
    match n {
        Some(n) => m.insert(key, signed_decimal(n as int)),
        None => m,
    }
}

/// Settings after applying backoff properties.
pub open spec fn backoff_settings(b: KafkaBackoffConfig, m: Map<Seq<char>, Seq<char>>) -> Map<Seq<char>, Seq<char>> {
    opt_ms_setting(opt_ms_setting(m, "retry.backoff.ms"@, b.min), "retry.backoff.max.ms"@, b.max)
}

/// Sets a duration in milliseconds, when there is one.
fn set_opt_ms(client: &mut ClientConfig, key: &str, d: Option<Duration>)
    ensures
        client_settings(*final(client)) == opt_ms_setting(client_settings(*old(client)), key@, d),
{
    match d {
        Some(d) => client_config_set(client, key, kafka_ms(d)),
        None => {},
    }
}

/// Sets an integer, when there is one.
fn set_opt_int(client: &mut ClientConfig, key: &str, n: Option<i32>)
    ensures
        client_settings(*final(client)) == opt_int_setting(client_settings(*old(client)), key@, n),
{
    match n {
        Some(n) => client_config_set(client, key, fmt_i64(n as i64)),
        None => {},
    }
}

impl KafkaBackoffConfig {
    /// Apply relevant configuration to client settings.
    pub fn configure(&self, client: &mut ClientConfig)
        ensures
            client_settings(*final(client)) == backoff_settings(*self, client_settings(*old(client))),
    {
        set_opt_ms(client, "retry.backoff.ms", self.min);
        set_opt_ms(client, "retry.backoff.max.ms", self.max);
    }
}

/// Kafka local producer queue configuration.
#[derive(Clone, Copy, Debug, PartialEq, Eq, Structural)]
pub struct KafkaQueueConfig {
    /// Maximum number of messages to keep in the queue (`queue.buffering.max.messages`).
    pub max_messages: Option<i32>,
    /// Maximum total message size to keep in the queue (`queue.buffering.max.kbytes`).
    pub max_kbytes: Option<i32>,
    /// Maximum time for message to wait inside a queue (`queue.buffering.max.ms`).
    pub max_duration: Option<Duration>,
}

/// Settings after applying queue properties.
pub open spec fn queue_settings(q: KafkaQueueConfig, m: Map<Seq<char>, Seq<char>>) -> Map<Seq<char>, Seq<char>> {
    opt_ms_setting(
        opt_int_setting(opt_int_setting(m, "queue.buffering.max.messages"@, q.max_messages), "queue.buffering.max.kbytes"@, q.max_kbytes),
        "queue.buffering.max.ms"@,
        q.max_duration,
    )
}

impl KafkaQueueConfig {
    /// Apply relevant configuration to client settings.
    pub fn configure(&self, client: &mut ClientConfig)
        ensures
            client_settings(*final(client)) == queue_settings(*self, client_settings(*old(client))),
    {
        set_opt_int(client, "queue.buffering.max.messages", self.max_messages);
        set_opt_int(client, "queue.buffering.max.kbytes", self.max_kbytes);
        set_opt_ms(client, "queue.buffering.max.ms", self.max_duration);
    }
}

/// Transaction configuration for Kafka producers.
#[derive(Clone, Debug)]
pub struct KafkaTransactionalConfig {
    /// ID string for transactional producer (`transactional.id`).
    pub id: String,
    /// Maximum time for a transaction to exist (`transaction.timeout.ms`).
    pub timeout: Option<Duration>,
    /// Maximum time to wait for transaction initialization.
    pub init_timeout: Duration,
}

/// Settings after applying transaction properties.
pub open spec fn transaction_settings(t: KafkaTransactionalConfig, m: Map<Seq<char>, Seq<char>>) -> Map<Seq<char>, Seq<char>> {
    opt_ms_setting(m.insert("transactional.id"@, t.id@), "transaction.timeout.ms"@, t.timeout)
}

impl KafkaTransactionalConfig {
    /// A transactional configuration with the default initialization timeout of five seconds.
    pub fn new(id: String) -> (r: KafkaTransactionalConfig)
        ensures
            r.id == id,
            r.timeout is None,
            r.init_timeout@ == 5_000_000_000,
    {
        KafkaTransactionalConfig { id, timeout: None, init_timeout: Duration::from_secs(5) }
    }

    /// Apply relevant configuration to client settings.
    pub fn configure(&self, client: &mut ClientConfig)
        ensures
            client_settings(*final(client)) == transaction_settings(*self, client_settings(*old(client))),
    {
        client_config_set(client, "transactional.id", owned(self.id.as_str()));
        set_opt_ms(client, "transaction.timeout.ms", self.timeout);
    }
}

/// Common Kafka configuration for both producers and consumers.
#[derive(Clone, Debug)]
pub struct KafkaCommonConfig {
    /// List of brokers to connect to, each as `<host>` or `<host>:<port>` (`bootstrap.servers`).
    pub brokers: Vec<String>,
    /// Authentication-related properties.
    pub auth: Option<KafkaAuthConfig>,
    /// Retry backoff properties.
    pub backoff: Option<KafkaBackoffConfig>,
    /// Additional parameters to include in Kafka configuration: a map from names to
    /// values, each name once (see [`KafkaCommonConfig::wf`]).
    pub extra_params: Vec<(String, String)>,
}

/// Settings after applying name/value pairs in order.
pub open spec fn pairs_settings(pairs: Seq<(String, String)>, m: Map<Seq<char>, Seq<char>>) -> Map<Seq<char>, Seq<char>> {
    pairs.fold_left(m, |acc: Map<Seq<char>, Seq<char>>, p: (String, String)| acc.insert(p.0@, p.1@))
}

/// With distinct names, every pair applied in order is present with its own value.
pub proof fn lemma_pairs_settings_distinct(pairs: Seq<(String, String)>, m: Map<Seq<char>, Seq<char>>, i: int)
    requires
        keys_distinct(pairs),
        0 <= i < pairs.len(),
    ensures
        pairs_settings(pairs, m).contains_key(pairs[i].0@),
        pairs_settings(pairs, m)[pairs[i].0@] == pairs[i].1@,
    decreases pairs.len(),
{
    let f = |acc: Map<Seq<char>, Seq<char>>, p: (String, String)| acc.insert(p.0@, p.1@);
    let n = pairs.len() - 1;
    assert(pairs_settings(pairs, m) == f(pairs.drop_last().fold_left(m, f), pairs.last()));
    if i < n {
        assert(keys_distinct(pairs.drop_last())) by {
            assert forall|a: int, b: int| 0 <= a < b < pairs.drop_last().len()
                implies (#[trigger] pairs.drop_last()[a]).0@ != (#[trigger] pairs.drop_last()[b]).0@ by {
                assert(pairs.drop_last()[a] == pairs[a] && pairs.drop_last()[b] == pairs[b]);
            }
        }
        lemma_pairs_settings_distinct(pairs.drop_last(), m, i);
        assert(pairs.drop_last()[i] == pairs[i]);
        assert(pairs[i].0@ != pairs[n].0@);
    }
}

/// Settings after applying common properties.
pub open spec fn common_settings(c: KafkaCommonConfig, m: Map<Seq<char>, Seq<char>>) -> Map<Seq<char>, Seq<char>> {
    let m1 = m.insert("bootstrap.servers"@, join_spec(c.brokers@.map_values(|b: String| b@), ","@));
    let m2 = match c.auth {
        Some(a) => auth_settings(a, m1),
        None => m1,
    };
    let m3 = match c.backoff {
        Some(b) => backoff_settings(b, m2),
        None => m2,
    };
    pairs_settings(c.extra_params@, m3)
}

impl KafkaCommonConfig {
    /// No name is given twice among the additional parameters, as in a map.
    pub open spec fn wf(&self) -> bool {
        keys_distinct(self.extra_params@)
    }

    /// Sets an additional parameter, replacing an earlier value of that name.
    pub fn set_extra_param(&mut self, key: String, value: String)
        ensures
            old(self).wf() ==> final(self).wf(),
            final(self).brokers == old(self).brokers,
            final(self).auth == old(self).auth,
            final(self).backoff == old(self).backoff,
            match first_key(old(self).extra_params@, key@) {
                Some(i) => final(self).extra_params@ == old(self).extra_params@.update(i, (key, value)),
                None => final(self).extra_params@ == old(self).extra_params@.push((key, value)),
            },
    {
        table_insert(&mut self.extra_params, key, value);
    }

    /// Apply relevant configuration to client settings.
    pub fn configure(&self, client: &mut ClientConfig)
        ensures
            client_settings(*final(client)) == common_settings(*self, client_settings(*old(client))),
    {
        client_config_set(client, "bootstrap.servers", join_strings(&self.brokers, ","));
        match &self.auth {
            Some(a) => a.configure(client),
            None => {},
        }
        match &self.backoff {
            Some(b) => b.configure(client),
            None => {},
        }
        let ghost start = client_settings(*client);
        let mut i: usize = 0;
        while i < self.extra_params.len()
            invariant
                i <= self.extra_params@.len(),
                client_settings(*client) == pairs_settings(self.extra_params@.take(i as int), start),
            decreases self.extra_params@.len() - i,
        {
            let (k, v) = &self.extra_params[i];
            client_config_set(client, k.as_str(), owned(v.as_str()));
            proof {
                assert(self.extra_params@.take(i + 1).drop_last() =~= self.extra_params@.take(i as int));
            }
            i = i + 1;
        }
        assert(self.extra_params@.take(i as int) =~= self.extra_params@);
    }
}

/// Kafka producer configuration.
#[derive(Clone, Debug)]
pub struct KafkaProducerConfig {
    /// Configuration common to both producers and consumers.
    pub common: KafkaCommonConfig,
    /// Transactional mode configuration.
    pub transaction: Option<KafkaTransactionalConfig>,
    /// In-process producer queue configuration.
    pub queue: Option<KafkaQueueConfig>,
    /// Max number of tries when sending a message (`message.send.max.retries`).
    pub max_retries: Option<i32>,
    /// Target topic to write to.
    pub topic: String,
    /// Enable at-most-once mode (`enable.idempotence`).
    pub idempotence: bool,
    /// Enable erroring out when errors would create a gap in produced batch
    /// (`enable.gapless.guarantee`).
    pub gapless: bool,
    /// Number of acknowledgements a leader broker must receive from its peers
    /// (`request.required.acks`); `-1` means all, `0` disables acknowledgements.
    pub acks: i16,
    /// Local producer message delivery timeout (`message.timeout.ms`).
    pub message_timeout: Option<Duration>,
    /// ACK timeout of producer request (`request.timeout.ms`).
    pub request_timeout: Option<Duration>,
    /// Timeout to use when flushing the producer.
    pub flush_timeout: Duration,
    /// Time to wait for messages to arrive in local queue before dispatching them
    /// in bulk (`queue.buffering.max.ms`).
    pub linger: Option<Duration>,
}

/// Settings of a producer.
pub open spec fn producer_settings(c: KafkaProducerConfig) -> Map<Seq<char>, Seq<char>> {
    let m0 = common_settings(c.common, Map::empty());
    let m1 = m0.insert("enable.idempotence"@, bool_text(c.idempotence)).insert(
        "enable.gapless.guarantee"@,
        bool_text(c.gapless),
    ).insert("request.required.acks"@, signed_decimal(c.acks as int));
    let m2 = opt_ms_setting(m1, "message.timeout.ms"@, c.message_timeout);
    let m3 = opt_ms_setting(m2, "request.timeout.ms"@, c.request_timeout);
    let m4 = opt_ms_setting(m3, "queue.buffering.max.ms"@, c.linger);
    let m5 = match c.transaction {
        Some(t) => transaction_settings(t, m4),
        None => m4,
    };
    let m6 = match c.queue {
        Some(q) => queue_settings(q, m5),
        None => m5,
    };
    opt_int_setting(m6, "message.send.max.retries"@, c.max_retries)
}

impl KafkaProducerConfig {
    /// A producer configuration with the defaults for everything but brokers and topic:
    /// idempotence on, acknowledgements from all replicas, a five-second flush timeout.
    pub fn new(brokers: Vec<String>, topic: String) -> (r: KafkaProducerConfig)
        ensures
            r.common.brokers == brokers,
            r.common.auth is None,
            r.common.backoff is None,
            r.common.extra_params@.len() == 0,
            r.topic == topic,
            r.idempotence,
            !r.gapless,
            r.acks == -1,
            r.flush_timeout@ == 5_000_000_000,
            r.transaction is None && r.queue is None && r.max_retries is None,
            r.message_timeout is None && r.request_timeout is None && r.linger is None,
    {
        KafkaProducerConfig {
            common: KafkaCommonConfig { brokers, auth: None, backoff: None, extra_params: Vec::new() },
            transaction: None,
            queue: None,
            max_retries: None,
            topic,
            idempotence: true,
            gapless: false,
            acks: -1,
            message_timeout: None,
            request_timeout: None,
            flush_timeout: Duration::from_secs(5),
            linger: None,
        }
    }

    /// Create client settings from this configuration.
    pub fn make_client_config(&self) -> (r: ClientConfig)
        ensures
            client_settings(r) == producer_settings(*self),
    {
        let mut client = client_config_new();
        assert(client_settings(client) =~= Map::<Seq<char>, Seq<char>>::empty());
        self.common.configure(&mut client);
        client_config_set(&mut client, "enable.idempotence", kafka_config_bool(self.idempotence));
        client_config_set(&mut client, "enable.gapless.guarantee", kafka_config_bool(self.gapless));
        client_config_set(&mut client, "request.required.acks", fmt_i64(self.acks as i64));
        set_opt_ms(&mut client, "message.timeout.ms", self.message_timeout);
        set_opt_ms(&mut client, "request.timeout.ms", self.request_timeout);
        set_opt_ms(&mut client, "queue.buffering.max.ms", self.linger);
        match &self.transaction {
            Some(t) => t.configure(&mut client),
            None => {},
        }
        match &self.queue {
            Some(q) => q.configure(&mut client),
            None => {},
        }
        set_opt_int(&mut client, "message.send.max.retries", self.max_retries);
        client
    }
}

/// Specialized producer context to use when writing logs to Kafka topics.
#[derive(Clone, Copy, Debug)]
pub struct LogProducerContext;

/// Report of a failed log delivery.
pub open spec fn delivery_error_text(topic: Seq<char>, partition: i32, offset: i64, error: Seq<char>) -> Seq<char> {
    "Kafka log appender error (topic:"@ + topic + " partition:"@ + signed_decimal(partition as int)
        + " offset:"@ + signed_decimal(offset as int) + "): "@ + error
}

impl LogProducerContext {
    /// The report printed when a log message could not be delivered.
    pub fn delivery_error_message(&self, topic: &str, partition: i32, offset: i64, error: &str) -> (r: String)
        ensures
            r@ == delivery_error_text(topic@, partition, offset, error@),
    {
        let p = fmt_i64(partition as i64);
        let o = fmt_i64(offset);
        let s1 = concat_str("Kafka log appender error (topic:", topic);
        let s2 = concat_str(s1.as_str(), " partition:");
        let s3 = concat_str(s2.as_str(), p.as_str());
        let s4 = concat_str(s3.as_str(), " offset:");
        let s5 = concat_str(s4.as_str(), o.as_str());
        let s6 = concat_str(s5.as_str(), "): ");
        concat_str(s6.as_str(), error)
    }
}

/// Every additional parameter, its names being distinct as in a map, is in the
/// common settings with its own value, whatever the order of the parameters.
pub proof fn law_extra_params_present(c: KafkaCommonConfig, m: Map<Seq<char>, Seq<char>>, i: int)
    requires
        c.wf(),
        0 <= i < c.extra_params@.len(),
    ensures
        common_settings(c, m).contains_key(c.extra_params@[i].0@),
        common_settings(c, m)[c.extra_params@[i].0@] == c.extra_params@[i].1@,
{
    let m1 = m.insert("bootstrap.servers"@, join_spec(c.brokers@.map_values(|b: String| b@), ","@));
    let m2 = match c.auth {
        Some(a) => auth_settings(a, m1),
        None => m1,
    };
    let m3 = match c.backoff {
        Some(b) => backoff_settings(b, m2),
        None => m2,
    };
    lemma_pairs_settings_distinct(c.extra_params@, m3, i);
}

/// The producer's own fields always win over extra parameters: idempotence,
/// gap-less delivery and acknowledgements are set as configured whatever the
/// extra parameters say, and the brokers are listed unless an extra parameter
/// names them.
pub proof fn law_producer_fields_override_extra_params(c: KafkaProducerConfig)
    ensures
        producer_settings(c)["enable.idempotence"@] == bool_text(c.idempotence),
        producer_settings(c)["enable.gapless.guarantee"@] == bool_text(c.gapless),
        producer_settings(c)["request.required.acks"@] == signed_decimal(c.acks as int),
{
    reveal_strlit("enable.idempotence");
    reveal_strlit("enable.gapless.guarantee");
    reveal_strlit("request.required.acks");
    reveal_strlit("message.timeout.ms");
    reveal_strlit("request.timeout.ms");
    reveal_strlit("queue.buffering.max.ms");
    reveal_strlit("transactional.id");
    reveal_strlit("transaction.timeout.ms");
    reveal_strlit("queue.buffering.max.messages");
    reveal_strlit("queue.buffering.max.kbytes");
    reveal_strlit("message.send.max.retries");
    let later: Seq<Seq<char>> = seq![
        "message.timeout.ms"@,
        "request.timeout.ms"@,
        "queue.buffering.max.ms"@,
        "transactional.id"@,
        "transaction.timeout.ms"@,
        "queue.buffering.max.messages"@,
        "queue.buffering.max.kbytes"@,
        "message.send.max.retries"@,
    ];
    let own: Seq<Seq<char>> = seq!["enable.idempotence"@, "enable.gapless.guarantee"@, "request.required.acks"@];
    assert forall|i: int, j: int| 0 <= i < own.len() && 0 <= j < later.len() implies own[i] != later[j] by {
        if own[i].len() == later[j].len() {
            if own[i][0] == later[j][0] {
                assert(own[i][2] != later[j][2]);
            } else {
                assert(own[i][0] != later[j][0]);
            }
        }
    }
    assert(own[0].len() != own[1].len() && own[0].len() != own[2].len() && own[1].len() != own[2].len());
}

/// Settings applied from named pairs hold only the names they started with and
/// the names of the pairs.
pub proof fn lemma_pairs_settings_keys(pairs: Seq<(String, String)>, m: Map<Seq<char>, Seq<char>>, k: Seq<char>)
    requires
        pairs_settings(pairs, m).contains_key(k),
        !m.contains_key(k),
    ensures
        exists|i: int| 0 <= i < pairs.len() && (#[trigger] pairs[i]).0@ == k,
    decreases pairs.len(),
{
    let f = |acc: Map<Seq<char>, Seq<char>>, p: (String, String)| acc.insert(p.0@, p.1@);
    if pairs.len() == 0 {
        assert(pairs_settings(pairs, m) == m);
    } else {
        let n = pairs.len() - 1;
        assert(pairs_settings(pairs, m) == f(pairs.drop_last().fold_left(m, f), pairs.last()));
        if pairs[n].0@ != k {
            lemma_pairs_settings_keys(pairs.drop_last(), m, k);
            let i = choose|i: int| 0 <= i < pairs.drop_last().len() && (#[trigger] pairs.drop_last()[i]).0@ == k;
            assert(pairs[i] == pairs.drop_last()[i]);
        }
    }
}

/// Names of settings that a producer's own properties set, other than the two
/// timeouts of messages and requests.
pub open spec fn other_producer_keys() -> Seq<Seq<char>> {
    seq![
        "bootstrap.servers"@, "sasl.username"@, "sasl.password"@, "sasl.mechanisms"@, "security.protocol"@,
        "retry.backoff.ms"@, "retry.backoff.max.ms"@, "enable.idempotence"@, "enable.gapless.guarantee"@,
        "request.required.acks"@, "queue.buffering.max.ms"@, "transactional.id"@, "transaction.timeout.ms"@,
        "queue.buffering.max.messages"@, "queue.buffering.max.kbytes"@, "message.send.max.retries"@,
    ]
}

/// The producer's delivery timeout goes to `message.timeout.ms` and its request
/// acknowledgement timeout to `request.timeout.ms`, each in whole milliseconds:
/// each key is present with its own timeout when that timeout is set, and absent
/// when it is not (unless an extra parameter names it).
pub proof fn law_producer_timeouts_use_their_own_keys(c: KafkaProducerConfig)
    ensures
        c.message_timeout matches Some(d) ==> producer_settings(c).contains_key("message.timeout.ms"@)
            && producer_settings(c)["message.timeout.ms"@] == decimal(d@ / 1_000_000),
        c.request_timeout matches Some(d) ==> producer_settings(c).contains_key("request.timeout.ms"@)
            && producer_settings(c)["request.timeout.ms"@] == decimal(d@ / 1_000_000),
        (c.message_timeout is None && forall|i: int| 0 <= i < c.common.extra_params@.len()
            ==> (#[trigger] c.common.extra_params@[i]).0@ != "message.timeout.ms"@)
            ==> !producer_settings(c).contains_key("message.timeout.ms"@),
        (c.request_timeout is None && forall|i: int| 0 <= i < c.common.extra_params@.len()
            ==> (#[trigger] c.common.extra_params@[i]).0@ != "request.timeout.ms"@)
            ==> !producer_settings(c).contains_key("request.timeout.ms"@),
{
    reveal_strlit("message.timeout.ms");
    reveal_strlit("request.timeout.ms");
    reveal_strlit("bootstrap.servers");
    reveal_strlit("sasl.username");
    reveal_strlit("sasl.password");
    reveal_strlit("sasl.mechanisms");
    reveal_strlit("security.protocol");
    reveal_strlit("retry.backoff.ms");
    reveal_strlit("retry.backoff.max.ms");
    reveal_strlit("enable.idempotence");
    reveal_strlit("enable.gapless.guarantee");
    reveal_strlit("request.required.acks");
    reveal_strlit("queue.buffering.max.ms");
    reveal_strlit("transactional.id");
    reveal_strlit("transaction.timeout.ms");
    reveal_strlit("queue.buffering.max.messages");
    reveal_strlit("queue.buffering.max.kbytes");
    reveal_strlit("message.send.max.retries");
    let mt = "message.timeout.ms"@;
    let rt = "request.timeout.ms"@;
    assert(mt[0] != rt[0]);
    assert("enable.idempotence"@[0] != mt[0] && "enable.idempotence"@[0] != rt[0]);
    let others = other_producer_keys();
    assert forall|j: int| 0 <= j < others.len() implies others[j] != mt && others[j] != rt by {
        if others[j].len() == mt.len() {
            assert(others[j] == "enable.idempotence"@);
            assert(others[j][0] != mt[0] && others[j][0] != rt[0]);
        }
    }
    let e = Map::<Seq<char>, Seq<char>>::empty();
    let cc = c.common;
    let m1 = e.insert("bootstrap.servers"@, join_spec(cc.brokers@.map_values(|b: String| b@), ","@));
    let m2 = match cc.auth {
        Some(a) => auth_settings(a, m1),
        None => m1,
    };
    let m3 = match cc.backoff {
        Some(b) => backoff_settings(b, m2),
        None => m2,
    };
    assert(!m3.contains_key(mt) && !m3.contains_key(rt)) by {
        assert(others[0] == "bootstrap.servers"@);
        assert(others[1] == "sasl.username"@ && others[2] == "sasl.password"@);
        assert(others[3] == "sasl.mechanisms"@ && others[4] == "security.protocol"@);
        assert(others[5] == "retry.backoff.ms"@ && others[6] == "retry.backoff.max.ms"@);
    }
    let m0 = common_settings(cc, e);
    if m0.contains_key(mt) && forall|i: int| 0 <= i < cc.extra_params@.len() ==> (#[trigger] cc.extra_params@[i]).0@ != mt {
        lemma_pairs_settings_keys(cc.extra_params@, m3, mt);
    }
    if m0.contains_key(rt) && forall|i: int| 0 <= i < cc.extra_params@.len() ==> (#[trigger] cc.extra_params@[i]).0@ != rt {
        lemma_pairs_settings_keys(cc.extra_params@, m3, rt);
    }
    assert(others[7] == "enable.idempotence"@ && others[8] == "enable.gapless.guarantee"@);
    assert(others[9] == "request.required.acks"@ && others[10] == "queue.buffering.max.ms"@);
    assert(others[11] == "transactional.id"@ && others[12] == "transaction.timeout.ms"@);
    assert(others[13] == "queue.buffering.max.messages"@ && others[14] == "queue.buffering.max.kbytes"@);
    assert(others[15] == "message.send.max.retries"@);
}

} // verus!
