//! The decisions of talking to an MQTT broker: which event of the connection
//! ends a wait, and which carries a received message. Driving the connection
//! is left to the caller, which hands each event in.

use vstd::prelude::*;

use crate::text::chars_of;

verus! {

/// An event of a broker connection.
pub enum BrokerEvent {
    /// The broker acknowledged the connection.
    ConnAck,
    /// A message arrived on `topic`.
    IncomingPublish { topic: String, payload: Vec<u8> },
    /// Any other packet arrived.
    OtherIncoming,
    /// A message was sent.
    OutgoingPublish,
    /// A subscription was sent.
    OutgoingSubscribe,
    /// Any other packet was sent.
    OtherOutgoing,
    /// The connection reported an error.
    ConnectionError,
}

/// What a client waits for.
#[derive(PartialEq, Eq, Structural, Clone, Copy)]
pub enum Awaited {
    /// The acknowledgement of the connection.
    Connection,
    /// The sending of a message.
    PublishSent,
    /// The sending of a subscription.
    Subscription,
    /// A message from the broker.
    Message,
}

/// Whether `event` is the one awaited.
pub open spec fn ends_wait_spec(awaited: Awaited, event: BrokerEvent) -> bool {
    match awaited {
        Awaited::Connection => event is ConnAck,
        Awaited::PublishSent => event is OutgoingPublish,
        Awaited::Subscription => event is OutgoingSubscribe,
        Awaited::Message => event is IncomingPublish,
    }
}

/// Whether `event` ends the wait for `awaited`; every other event, errors
/// included, is passed over.
pub fn ends_wait(awaited: Awaited, event: &BrokerEvent) -> (r: bool)
    ensures
        r == ends_wait_spec(awaited, *event),
{
    match awaited {
        Awaited::Connection => match event {
            BrokerEvent::ConnAck => true,
            _ => false,
        },
        Awaited::PublishSent => match event {
            BrokerEvent::OutgoingPublish => true,
            _ => false,
        },
        Awaited::Subscription => match event {
            BrokerEvent::OutgoingSubscribe => true,
            _ => false,
        },
        Awaited::Message => match event {
            BrokerEvent::IncomingPublish { .. } => true,
            _ => false,
        },
    }
}

/// The topic and the payload bytes of a received message.
pub fn received_message(event: BrokerEvent) -> (r: Option<(String, Vec<u8>)>)
    ensures
        match event {
            BrokerEvent::IncomingPublish { topic, payload } => r == Some((topic, payload)),
            _ => r is None,
        },
{
    match event {
        BrokerEvent::IncomingPublish { topic, payload } => Some((topic, payload)),
        _ => None,
    }
}

} // verus!

verus! {

/// Whether `c` is a decimal digit.
pub open spec fn is_digit(c: char) -> bool {
    48 <= (c as u32) <= 57
}

/// The value of a decimal digit.
pub open spec fn digit_value(c: char) -> nat {
    ((c as u32) - 48) as nat
}

/// The value of a text of decimal digits, most significant first.
pub open spec fn digits_value(d: Seq<char>) -> nat
    decreases d.len(),
{
    if d.len() == 0 {
        0
    } else {
        digits_value(d.drop_last()) * 10 + digit_value(d.last())
    }
}

/// The digits of a port: the text without one leading `+`.
pub open spec fn port_digits(s: Seq<char>) -> Seq<char> {
    if s.len() > 0 && s[0] == '+' {
        s.skip(1)
    } else {
        s
    }
}

/// The port number a text stands for, as `str::parse::<u16>` reads it: one
/// or more decimal digits, after at most one leading `+`, whose value fits
/// in a `u16`; `None` for any other text.
pub open spec fn port_number(s: Seq<char>) -> Option<u16> {
    let d = port_digits(s);
    if d.len() > 0 && (forall|k: int| 0 <= k < d.len() ==> #[trigger] is_digit(d[k]))
        && digits_value(d) <= 65535 {
        Some(digits_value(d) as u16)
    } else {
        None
    }
}

proof fn lemma_digits_value_prefix(d: Seq<char>, k: int)
    requires
        0 <= k <= d.len(),
    ensures
        digits_value(d.take(k)) <= digits_value(d),
    decreases d.len(),
{
    if k < d.len() {
        lemma_digits_value_prefix(d.drop_last(), k);
        assert(d.drop_last().take(k) =~= d.take(k));
    } else {
        assert(d.take(k) =~= d);
    }
}

/// The port number `port` stands for, or `None` where it stands for none.
pub fn parse_port(port: &str) -> (r: Option<u16>)
    ensures
        r == port_number(port@),
{
    let v = chars_of(port);
    let mut start: usize = 0;
    if v.len() > 0 && v[0] == '+' {
        start = 1;
    }
    let ghost d = v@.skip(start as int);
    assert(d =~= port_digits(port@));
    if start >= v.len() {
        return None;
    }
    let mut acc: u32 = 0;
    let mut i: usize = start;
    assert(d.take(0) =~= Seq::<char>::empty());
    while i < v.len()
        invariant
            start < v.len(),
            start <= i <= v.len(),
            d == v@.skip(start as int),
            d == port_digits(port@),
            forall|k: int| 0 <= k < i - start ==> #[trigger] is_digit(d[k]),
            acc == digits_value(d.take(i - start)),
            acc <= 65535,
        decreases v.len() - i,
    {
        let c = v[i];
        let n = c as u32;
        assert(d[i - start] == c);
        if n < 48 || n > 57 {
            assert(!is_digit(d[i - start]));
            return None;
        }
        let next = acc * 10 + (n - 48);
        assert(d.take(i - start + 1).drop_last() =~= d.take(i - start));
        assert(digits_value(d.take(i - start + 1)) == next);
        if next > 65535 {
            proof {
                lemma_digits_value_prefix(d, i - start + 1);
            }
            return None;
        }
        acc = next;
        i = i + 1;
    }
    assert(d.take(i - start) =~= d);
    Some(acc as u16)
}

} // verus!
