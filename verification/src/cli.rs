//! The configuration of a run and what is derived from it: the broker
//! address, the identifier of each client and the topic it works on.

use crate::text::{decimal, fill, fill_placeholder, push_decimal, to_decimal};
use vstd::prelude::*;
use vstd::string::*;

verus! {

/// The command line as a whole: at most one command.
#[derive(Debug)]
pub struct Cli {
    pub command: Option<Commands>,
}

/// The options that every command takes.
#[derive(Debug, Clone)]
pub struct Common {
    pub host: String,
    pub port: Option<u16>,
    pub username: String,
    pub password: String,
    pub ssl: bool,
    pub verify: bool,
    pub auth_server_certificate: bool,
    pub qos: i32,
    /// Total number of clients to create.
    pub total: usize,
    /// The identifier of the first client.
    pub start_number: usize,
    /// The number of clients that may be connecting at the same time.
    pub concurrency: usize,
    /// The interval between two messages of one client, in milliseconds.
    pub interval: u64,
    /// The duration of the run in seconds.
    pub time: usize,
    /// The client identifier; `%d` in it stands for the client's number.
    pub client_id: String,
    pub show_statistics: bool,
    pub connect_timeout: u64,
    pub keep_alive_interval: u64,
    pub max_inflight: i32,
}

/// The options of the publishing commands.
#[derive(Debug, Clone)]
pub struct PubOptions {
    /// The topic to publish to; `%i` in it stands for the topic's number.
    pub topic: String,
    /// The number of topics that the clients are spread over.
    pub topic_number: usize,
    /// The size of a generated payload in bytes.
    pub message_size: u32,
    /// The payload to send, if it is not to be generated.
    pub payload: Option<String>,
}

/// The options of the subscribing command.
#[derive(Debug, Clone)]
pub struct SubOptions {
    /// The topic to subscribe to; `%i` in it stands for the topic's number.
    pub topic: String,
    /// The number of topics that the clients are spread over.
    pub topic_number: usize,
}

/// The four kinds of run.
#[derive(Debug)]
pub enum Commands {
    Connect { common: Common },
    Pub { common: Common, pub_options: PubOptions },
    Sub { common: Common, sub_options: SubOptions },
    Benchmark { common: Common, pub_options: PubOptions },
}

/// Who a worker is: its number, its client identifier and its topic.
#[derive(Debug, Clone)]
pub struct WorkerIdentity {
    pub id: usize,
    pub client_id: String,
    pub topic: String,
}

/// The port that is used when none is given.
pub open spec fn default_port(ssl: bool) -> u16 {
    if ssl {
        8883
    } else {
        1883
    }
}

/// The broker address: scheme, host, a colon and the port in decimal.
pub open spec fn server_uri(ssl: bool, host: Seq<char>, port: Option<u16>) -> Seq<char> {
    (if ssl {
        "ssl://"@
    } else {
        "tcp://"@
    }) + host + ":"@ + decimal(
        match port {
            Some(p) => p as nat,
            None => default_port(ssl) as nat,
        },
    )
}

/// The identifier of client `id`: the template with each `%d` replaced by
/// the decimal numeral of `id`.
pub open spec fn client_id_for(template: Seq<char>, id: nat) -> Seq<char> {
    fill(template, 'd', decimal(id))
}

/// The topic of client `id`: the template with each `%i` replaced by the
/// decimal numeral of `id` modulo the number of topics.
pub open spec fn topic_for(template: Seq<char>, topic_number: nat, id: nat) -> Seq<char>
    recommends
        topic_number > 0,
{
    fill(template, 'i', decimal(id % topic_number))
}

/// The number of topics in use: `total` when none was asked for.
pub open spec fn fanout(topic_number: usize, total: usize) -> usize {
    if topic_number == 0 {
        total
    } else {
        topic_number
    }
}

/// The payload that a publisher starts from: the given text as bytes, or
/// `message_size` copies of the letter `a`.
pub open spec fn payload_of(payload: Option<String>, message_size: u32) -> Seq<u8> {
    match payload {
        Some(text) => vstd::utf8::encode_utf8(text@),
        None => Seq::new(message_size as nat, |i: int| 97u8),
    }
}

fn topic_name(template: &str, topic_number: usize, id: usize) -> (topic: String)
    requires
        topic_number > 0,
    ensures
        topic@ == topic_for(template@, topic_number as nat, id as nat),
{
    let number = to_decimal((id % topic_number) as u128);
    fill_placeholder(template, 'i', number.as_str())
}

impl Common {
    /// The configuration can be run: at least one client may connect at a
    /// time, and the last client's number fits in a machine word.
    pub open spec fn valid(&self) -> bool {
        &&& self.concurrency >= 1
        &&& self.start_number + self.total <= usize::MAX
    }

    /// Tells whether the configuration can be run.
    pub fn is_valid(&self) -> (ok: bool)
        ensures
            ok == self.valid(),
    {
        self.concurrency >= 1 && self.total <= usize::MAX - self.start_number
    }

    /// The address of the broker: `ssl://` or `tcp://`, the host, and the
    /// port, which is 8883 with TLS and 1883 without when none is given.
    pub fn connection_string(&self) -> (uri: String)
        ensures
            uri@ == server_uri(self.ssl, self.host@, self.port),
    {
        let mut uri = String::new();
        if self.ssl {
            uri.append("ssl://");
        } else {
            uri.append("tcp://");
        }
        uri.append(self.host.as_str());
        uri.append(":");
        let port: u16 = match self.port {
            Some(p) => p,
            None => if self.ssl {
                8883
            } else {
                1883
            },
        };
        push_decimal(&mut uri, port as u128);
        assert(uri@ =~= server_uri(self.ssl, self.host@, self.port));
        uri
    }

    /// The identity of client `id` on a topic template spread over
    /// `topic_number` topics.
    pub fn identity(&self, topic: &str, topic_number: usize, id: usize) -> (who: WorkerIdentity)
        requires
            topic_number > 0,
        ensures
            who.id == id,
            who.client_id@ == client_id_for(self.client_id@, id as nat),
            who.topic@ == topic_for(topic@, topic_number as nat, id as nat),
    {
        WorkerIdentity {
            id,
            client_id: self.client_id_of(id),
            topic: topic_name(topic, topic_number, id),
        }
    }

    /// The identifier of client `id`: `client_id` with each `%d` replaced
    /// by `id`, and `client_id` itself when it holds no `%d`.
    pub fn client_id_of(&self, id: usize) -> (client_id: String)
        ensures
            client_id@ == client_id_for(self.client_id@, id as nat),
    {
        let number = to_decimal(id as u128);
        fill_placeholder(self.client_id.as_str(), 'd', number.as_str())
    }
}

impl PubOptions {
    /// The topic of client `id`: `topic` with each `%i` replaced by `id`
    /// modulo the number of topics.
    pub fn topic_of(&self, id: usize) -> (topic: String)
        requires
            self.topic_number > 0,
        ensures
            topic@ == topic_for(self.topic@, self.topic_number as nat, id as nat),
    {
        topic_name(self.topic.as_str(), self.topic_number, id)
    }

    /// Spreads the clients over `total` topics when no number of topics was
    /// asked for. Tells whether it did.
    pub fn default_topic_number(&mut self, total: usize) -> (changed: bool)
        ensures
            changed == (old(self).topic_number == 0),
            final(self).topic_number == fanout(old(self).topic_number, total),
            final(self).topic == old(self).topic,
            final(self).message_size == old(self).message_size,
            final(self).payload == old(self).payload,
    {
        if self.topic_number == 0 {
            self.topic_number = total;
            true
        } else {
            false
        }
    }

    /// The payload that a publisher starts from.
    pub fn payload_bytes(&self) -> (bytes: Vec<u8>)
        ensures
            bytes@ == payload_of(self.payload, self.message_size),
    {
        match &self.payload {
            Some(text) => text.as_str().as_bytes_vec(),
            None => {
                let mut bytes: Vec<u8> = Vec::new();
                let mut i: u32 = 0;
                while i < self.message_size
                    invariant
                        i <= self.message_size,
                        bytes@.len() == i,
                        forall|j: int| 0 <= j < i ==> bytes@[j] == 97u8,
                    decreases self.message_size - i,
                {
                    bytes.push(97u8);
                    i = i + 1;
                }
                assert(bytes@ =~= payload_of(self.payload, self.message_size));
                bytes
            },
        }
    }
}

impl SubOptions {
    /// The topic of client `id`: `topic` with each `%i` replaced by `id`
    /// modulo the number of topics.
    pub fn topic_of(&self, id: usize) -> (topic: String)
        requires
            self.topic_number > 0,
        ensures
            topic@ == topic_for(self.topic@, self.topic_number as nat, id as nat),
    {
        topic_name(self.topic.as_str(), self.topic_number, id)
    }

    /// Spreads the clients over `total` topics when no number of topics was
    /// asked for. Tells whether it did.
    pub fn default_topic_number(&mut self, total: usize) -> (changed: bool)
        ensures
            changed == (old(self).topic_number == 0),
            final(self).topic_number == fanout(old(self).topic_number, total),
            final(self).topic == old(self).topic,
    {
        if self.topic_number == 0 {
            self.topic_number = total;
            true
        } else {
            false
        }
    }
}

/// Clients whose numbers differ by a multiple of the number of topics work
/// on the same topic, and a client's topic is that of its number reduced
/// modulo the number of topics.
pub proof fn lemma_topics_repeat(template: Seq<char>, topic_number: nat, id: nat)
    requires
        topic_number > 0,
    ensures
        topic_for(template, topic_number, id + topic_number) == topic_for(
            template,
            topic_number,
            id,
        ),
        topic_for(template, topic_number, id % topic_number) == topic_for(
            template,
            topic_number,
            id,
        ),
{
    vstd::arithmetic::div_mod::lemma_mod_add_multiples_vanish(
        id as int,
        topic_number as int,
    );
    vstd::arithmetic::div_mod::lemma_mod_twice(id as int, topic_number as int);
}

/// A client identifier without `%d` is the same for every client.
pub proof fn lemma_client_id_without_placeholder(template: Seq<char>, id: nat)
    requires
        !crate::text::contains(template, crate::text::placeholder('d')),
    ensures
        client_id_for(template, id) == template,
{
    crate::text::lemma_fill_without_placeholder(template, 'd', decimal(id));
}

} // verus!
