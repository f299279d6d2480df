//! The decisions behind publishing one MQTT message: when the publish
//! counts as acknowledged for each quality of service, when the wait is
//! over, and what the command reports afterwards.
//!
//! The broker connection is an unverified collaborator; it feeds the events
//! it observes into [`publish_step`] and stops when told to.

use vstd::prelude::*;
use vstd::string::StrSliceExecFns;
use vstd::string::StringSliceAdditionalSpecFns;

use crate::pkcs11::find_byte;
use crate::pkcs11::lemma_split_at_position;
use crate::pkcs11::split_at;

verus! {

/// The largest packet accepted over an MQTT connection, incoming or
/// outgoing: the largest size the protocol can express.
pub const MAX_PACKET_SIZE: usize = 268435455;

/// The port conventionally used for MQTT without TLS.
pub const INSECURE_MQTT_PORT: u16 = 1883;

/// The port conventionally used for MQTT over TLS.
pub const SECURE_MQTT_PORT: u16 = 8883;

/// The quality of service a message is published with.
#[derive(Debug, Clone, Copy, PartialEq, Eq, Structural)]
pub enum QoS {
    /// Fire and forget: sending it is enough.
    AtMostOnce,
    /// The broker must acknowledge reception.
    AtLeastOnce,
    /// The broker must complete the two-step handshake.
    ExactlyOnce,
}

/// What the connection observed while a publish was in flight.
#[derive(Debug, Clone, Copy, PartialEq, Eq, Structural)]
pub enum PublishEvent {
    /// The message left for the broker.
    OutgoingPublish,
    /// The broker acknowledged reception.
    PubAckReceived,
    /// The broker completed the two-step handshake.
    PubCompReceived,
    /// The broker closed the connection.
    IncomingDisconnect,
    /// This side closed the connection.
    OutgoingDisconnect,
    /// The connection failed.
    ConnectionError,
    /// Anything else; it changes nothing.
    Other,
}

/// What publishing one message has achieved so far.
#[derive(Debug, Clone, Copy, PartialEq, Eq, Structural, Default)]
pub struct PublishProgress {
    /// The message has left for the broker.
    pub published: bool,
    /// The broker has confirmed it as far as the quality of service asks.
    pub acknowledged: bool,
    /// The broker closed the connection underneath the publish.
    pub disconnected: bool,
    /// The connection failed underneath the publish.
    pub failed: bool,
}

/// Whether the event loop should keep waiting for events.
#[derive(Debug, Clone, Copy, PartialEq, Eq, Structural)]
pub enum LoopStep {
    /// Keep waiting: the publish is not settled yet.
    Continue,
    /// Stop: the publish is settled, one way or the other.
    Stop,
}

/// Advance the publish by one observed event.
///
/// The publish settles as acknowledged by the event its quality of service
/// asks for — the outgoing publish itself for at-most-once, the broker's
/// acknowledgement for at-least-once, the completed handshake for
/// exactly-once — and settles unacknowledged when either side disconnects
/// or the connection fails.
pub fn publish_step(progress: &mut PublishProgress, qos: QoS, event: PublishEvent) -> (r: LoopStep)
    ensures
        *final(progress) == (match event {
            PublishEvent::OutgoingPublish => (PublishProgress {
                published: true,
                acknowledged: old(progress).acknowledged || qos == QoS::AtMostOnce,
                ..*old(progress)
            }),
            PublishEvent::PubAckReceived => (PublishProgress {
                acknowledged: old(progress).acknowledged || qos == QoS::AtLeastOnce,
                ..*old(progress)
            }),
            PublishEvent::PubCompReceived => (PublishProgress {
                acknowledged: old(progress).acknowledged || qos == QoS::ExactlyOnce,
                ..*old(progress)
            }),
            PublishEvent::IncomingDisconnect => (PublishProgress {
                disconnected: true,
                ..*old(progress)
            }),
            PublishEvent::ConnectionError => (PublishProgress { failed: true, ..*old(progress) }),
            _ => *old(progress),
        }),
        r == (match event {
            PublishEvent::OutgoingPublish => if qos == QoS::AtMostOnce {
                LoopStep::Stop
            } else {
                LoopStep::Continue
            },
            PublishEvent::PubAckReceived => if qos == QoS::AtLeastOnce {
                LoopStep::Stop
            } else {
                LoopStep::Continue
            },
            PublishEvent::PubCompReceived => if qos == QoS::ExactlyOnce {
                LoopStep::Stop
            } else {
                LoopStep::Continue
            },
            PublishEvent::IncomingDisconnect => LoopStep::Stop,
            PublishEvent::OutgoingDisconnect => LoopStep::Stop,
            PublishEvent::ConnectionError => LoopStep::Stop,
            PublishEvent::Other => LoopStep::Continue,
        }),
{
    match event {
        PublishEvent::OutgoingPublish => {
            progress.published = true;
            if qos == QoS::AtMostOnce {
                progress.acknowledged = true;
                LoopStep::Stop
            } else {
                LoopStep::Continue
            }
        },
        PublishEvent::PubAckReceived => {
            if qos == QoS::AtLeastOnce {
                progress.acknowledged = true;
                LoopStep::Stop
            } else {
                LoopStep::Continue
            }
        },
        PublishEvent::PubCompReceived => {
            if qos == QoS::ExactlyOnce {
                progress.acknowledged = true;
                LoopStep::Stop
            } else {
                LoopStep::Continue
            }
        },
        PublishEvent::IncomingDisconnect => {
            progress.disconnected = true;
            LoopStep::Stop
        },
        PublishEvent::OutgoingDisconnect => LoopStep::Stop,
        PublishEvent::ConnectionError => {
            progress.failed = true;
            LoopStep::Stop
        },
        PublishEvent::Other => LoopStep::Continue,
    }
}

/// Why a publish command failed.
#[derive(Debug, Clone, Copy, PartialEq, Eq, Structural)]
pub enum MqttPublishError {
    /// The broker closed the connection.
    ServerConnection,
    /// The connection itself failed.
    Connection,
}

/// What the publish command reports once the loop has stopped: the error
/// that settled it, if one did, and success otherwise — whether or not the
/// message went out or was acknowledged, which the command only warns about.
pub fn publish_outcome(progress: &PublishProgress) -> (r: Result<(), MqttPublishError>)
    ensures
        progress.disconnected ==> r == Result::<(), MqttPublishError>::Err(
            MqttPublishError::ServerConnection,
        ),
        !progress.disconnected && progress.failed ==> r == Result::<(), MqttPublishError>::Err(
            MqttPublishError::Connection,
        ),
        !progress.disconnected && !progress.failed ==> r is Ok,
{
    if progress.disconnected {
        Err(MqttPublishError::ServerConnection)
    } else if progress.failed {
        Err(MqttPublishError::Connection)
    } else {
        Ok(())
    }
}

/// A warning about a suspicious port and TLS combination.
#[derive(Debug, Clone, Copy, PartialEq, Eq, Structural)]
pub enum PortWarning {
    /// TLS over the conventional insecure port.
    InsecurePortWithTls,
    /// TLS with an empty trust store over the conventional secure port.
    SecurePortWithoutCa,
}

/// The warning a TLS connection to the given port deserves, if any.
pub fn port_warning(port: u16, root_store_empty: bool) -> (r: Option<PortWarning>)
    ensures
        port == INSECURE_MQTT_PORT && !root_store_empty ==> r == Some(
            PortWarning::InsecurePortWithTls,
        ),
        port == SECURE_MQTT_PORT && root_store_empty ==> r == Some(PortWarning::SecurePortWithoutCa),
        (port != INSECURE_MQTT_PORT || root_store_empty) && (port != SECURE_MQTT_PORT
            || !root_store_empty) ==> r is None,
{
    if port == INSECURE_MQTT_PORT && !root_store_empty {
        Some(PortWarning::InsecurePortWithTls)
    } else if port == SECURE_MQTT_PORT && root_store_empty {
        Some(PortWarning::SecurePortWithoutCa)
    } else {
        None
    }
}

/// Whether the broker session is to be cleaned on connect: always for an
/// unnamed session — a random name will never be reused — and as configured
/// for a named one.
pub fn effective_clean_session(has_session_name: bool, clean_session: bool) -> (r: bool)
    ensures
        r == (!has_session_name || clean_session),
{
    if !has_session_name {
        true
    } else {
        clean_session
    }
}

/// One MQTT message: where it goes, what it carries, and how hard the
/// broker must try to deliver it.
#[derive(Debug, Clone, PartialEq, Eq)]
pub struct MqttMessage {
    /// The topic the message is published on.
    pub topic: String,
    /// The message's payload.
    pub payload: Vec<u8>,
    /// The quality of service it is published with.
    pub qos: QoS,
    /// Whether the broker keeps it as the topic's retained message.
    pub retain: bool,
}

/// A message passing through the MQTT bridging actor, told apart by where
/// it came from: from the broker, to be forwarded to the subscribed peers,
/// or from a peer, to be published to the broker.
#[derive(Debug, Clone, PartialEq, Eq)]
pub enum MqttActorMessage {
    /// A message the broker delivered; peers whose filter accepts its topic
    /// get a copy.
    DirectMessage(MqttMessage),
    /// A message a peer asks to have published.
    PeerMessage(MqttMessage),
}

/// The first message to publish upon connecting to the broker.
///
/// The message is fixed when the connection is configured and produced anew
/// for every connect.
#[derive(Debug, Clone, PartialEq, Eq)]
pub struct InitMessageFn {
    /// The message published on connect.
    pub message: MqttMessage,
}

impl InitMessageFn {
    /// Fix the message to publish on connect.
    pub fn new(message: MqttMessage) -> (r: InitMessageFn)
        ensures
            r.message == message,
    {
        InitMessageFn { message }
    }

    /// The message to publish for this connect.
    pub fn new_init_message(&self) -> (r: MqttMessage)
        ensures
            r.topic@ == self.message.topic@,
            r.payload@ == self.message.payload@,
            r.qos == self.message.qos,
            r.retain == self.message.retain,
    {
        let mut payload: Vec<u8> = Vec::new();
        let n = self.message.payload.len();
        let mut i: usize = 0;
        while i < n
            invariant
                0 <= i <= n,
                n == self.message.payload@.len(),
                payload@ == self.message.payload@.take(i as int),
            decreases n - i,
        {
            let ghost i0 = i as int;
            payload.push(self.message.payload[i]);
            proof {
                assert(payload@ =~= self.message.payload@.take(i0 + 1));
            }
            i = i + 1;
        }
        proof {
            assert(payload@ =~= self.message.payload@);
        }
        MqttMessage {
            topic: self.message.topic.clone(),
            payload,
            qos: self.message.qos,
            retain: self.message.retain,
        }
    }
}

/// Whether an MQTT topic filter accepts a topic.
///
/// Filter and topic are `/`-separated levels: a literal level matches only
/// itself, `+` matches any one level, and a final `#` matches every level
/// from there on, the empty remainder included.
pub open spec fn spec_filter_accepts(f: Seq<u8>, t: Seq<u8>) -> bool
    decreases f.len(),
{
    let fe = split_at(f, 0x2f);
    let te = split_at(t, 0x2f);
    let fseg = f.take(fe as int);
    let tseg = t.take(te as int);
    if fseg == seq![0x23u8] {
        true
    } else if fseg != seq![0x2bu8] && fseg != tseg {
        false
    } else if fe < f.len() && te < t.len() {
        spec_filter_accepts(f.skip(fe + 1int), t.skip(te + 1int))
    } else if fe < f.len() {
        f.skip(fe + 1int) == seq![0x23u8]
    } else {
        te >= t.len()
    }
}

/// Whether the bytes `a[af..at]` equal the bytes `b[bf..bt]`.
#[verifier::loop_isolation(false)]
fn range_eq(a: &Vec<u8>, af: usize, at: usize, b: &Vec<u8>, bf: usize, bt: usize) -> (r: bool)
    requires
        af <= at <= a@.len(),
        bf <= bt <= b@.len(),
    ensures
        r == (a@.subrange(af as int, at as int) == b@.subrange(bf as int, bt as int)),
{
    if at - af != bt - bf {
        proof {
            assert(a@.subrange(af as int, at as int).len() != b@.subrange(
                bf as int,
                bt as int,
            ).len());
        }
        return false;
    }
    let len = at - af;
    let mut i: usize = 0;
    while i < len
        invariant
            0 <= i <= len,
            forall|j: int| 0 <= j < i ==> #[trigger] a@[af + j] == b@[bf + j],
        decreases len - i,
    {
        if a[af + i] != b[bf + i] {
            proof {
                assert(a@.subrange(af as int, at as int)[i as int] != b@.subrange(
                    bf as int,
                    bt as int,
                )[i as int]);
            }
            return false;
        }
        i = i + 1;
    }
    proof {
        assert forall|j: int| 0 <= j < at - af implies a@.subrange(af as int, at as int)[j]
            == b@.subrange(bf as int, bt as int)[j] by {
            assert(a@[af + j] == b@[bf + j]);
        }
        assert(a@.subrange(af as int, at as int) =~= b@.subrange(bf as int, bt as int));
    }
    true
}

/// Whether the filter from `fi` on accepts the topic from `ti` on.
#[verifier::loop_isolation(false)]
fn accepts_from(filter: &Vec<u8>, fi: usize, topic: &Vec<u8>, ti: usize) -> (r: bool)
    requires
        fi <= filter@.len(),
        ti <= topic@.len(),
    ensures
        r == spec_filter_accepts(filter@.skip(fi as int), topic@.skip(ti as int)),
    decreases filter@.len() - fi,
{
    let ghost fs = filter@.skip(fi as int);
    let ghost ts = topic@.skip(ti as int);
    let fe = find_byte(filter, fi, 0x2f);
    let te = find_byte(topic, ti, 0x2f);
    proof {
        lemma_split_at_position(fs, 0x2f, fe - fi);
        lemma_split_at_position(ts, 0x2f, te - ti);
        assert(fs.take((fe - fi) as int) =~= filter@.subrange(fi as int, fe as int));
        assert(ts.take((te - ti) as int) =~= topic@.subrange(ti as int, te as int));
    }
    let seg_is_hash = fe - fi == 1 && filter[fi] == 0x23;
    let seg_is_plus = fe - fi == 1 && filter[fi] == 0x2b;
    proof {
        assert(seg_is_hash == (fs.take((fe - fi) as int) =~= seq![0x23u8]));
        assert(seg_is_plus == (fs.take((fe - fi) as int) =~= seq![0x2bu8]));
    }
    if seg_is_hash {
        return true;
    }
    if !seg_is_plus && !range_eq(filter, fi, fe, topic, ti, te) {
        return false;
    }
    if fe < filter.len() && te < topic.len() {
        proof {
            assert(fs.skip((fe - fi) + 1int) =~= filter@.skip(fe + 1int));
            assert(ts.skip((te - ti) + 1int) =~= topic@.skip(te + 1int));
        }
        accepts_from(filter, fe + 1, topic, te + 1)
    } else if fe < filter.len() {
        let tail_is_hash = filter.len() - fe == 2 && filter[fe + 1] == 0x23;
        proof {
            assert(fs.skip((fe - fi) + 1int) =~= filter@.skip(fe + 1int));
            if tail_is_hash {
                assert(filter@.skip(fe + 1int) =~= seq![0x23u8]);
            } else if filter@.skip(fe + 1int).len() == 1 {
                assert(filter@.skip(fe + 1int)[0] != seq![0x23u8][0]);
            }
        }
        tail_is_hash
    } else {
        te >= topic.len()
    }
}

/// Whether an MQTT topic filter accepts a topic.
pub fn topic_filter_accepts(filter: &str, topic: &str) -> (r: bool)
    ensures
        r == spec_filter_accepts(filter.spec_bytes(), topic.spec_bytes()),
{
    let f = filter.as_bytes_vec();
    let t = topic.as_bytes_vec();
    proof {
        assert(f@.skip(0) =~= f@);
        assert(t@.skip(0) =~= t@);
    }
    accepts_from(&f, 0, &t, 0)
}

} // verus!
