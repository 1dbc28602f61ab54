//! The test runs: messages to send, messages to await and checks on them.

use vstd::prelude::*;

use crate::definitions::{is_run, items_walk, Visitor};

verus! {

/// A check that `left` matches the regular expression `right`.
pub struct RegexDefinition {
    pub left: String,
    pub right: String,
    pub allow_failure: bool,
}

impl RegexDefinition {
    /// Visits the check.
    pub fn accept<V: Visitor>(&mut self, visitor: &mut V)
        ensures
            old(visitor).regex_step(*old(self), *final(visitor), *final(self)),
    {
        visitor.visit_regex_def(self);
    }
}

/// A check that `left` and `right` are equal.
pub struct IsEqualDefintion {
    pub left: String,
    pub right: String,
    pub allow_failure: bool,
}

impl IsEqualDefintion {
    /// Visits the check.
    pub fn accept<V: Visitor>(&mut self, visitor: &mut V)
        ensures
            old(visitor).is_equal_step(*old(self), *final(visitor), *final(self)),
    {
        visitor.visit_is_equal_def(self);
    }
}

/// A check on a received message.
#[allow(non_camel_case_types)]
pub enum VerificationDefinition {
    is_eq(IsEqualDefintion),
    regex(RegexDefinition),
}

/// A pass over one check: the check it holds accepts the visitor.
pub open spec fn verification_walk<V: Visitor>(
    v0: V,
    d0: VerificationDefinition,
    v1: V,
    d1: VerificationDefinition,
) -> bool {
    match (d0, d1) {
        (VerificationDefinition::is_eq(c0), VerificationDefinition::is_eq(c1)) => v0.is_equal_step(
            c0,
            v1,
            c1,
        ),
        (VerificationDefinition::regex(c0), VerificationDefinition::regex(c1)) => v0.regex_step(
            c0,
            v1,
            c1,
        ),
        _ => false,
    }
}

/// The pass over one check, as a relation to run over a list of them.
pub open spec fn verification_walks<V: Visitor>() -> spec_fn(
    V,
    VerificationDefinition,
    V,
    VerificationDefinition,
) -> bool {
    |a: V, x: VerificationDefinition, b: V, y: VerificationDefinition| verification_walk(a, x, b, y)
}

impl VerificationDefinition {
    /// Lets the check it holds accept the visitor.
    pub fn accept<V: Visitor>(&mut self, visitor: &mut V)
        ensures
            verification_walk(*old(visitor), *old(self), *final(visitor), *final(self)),
    {
        match self {
            VerificationDefinition::is_eq(value) => {
                value.accept(visitor);
            },
            VerificationDefinition::regex(value) => {
                value.accept(visitor);
            },
        }
    }
}

/// Await the message `message`, filled with `parameters`, on the connection
/// `used_connection`, and check it.
pub struct RecvMqttDefinition {
    pub used_connection: String,
    pub message: String,
    pub parameters: Vec<String>,
    pub verify: Vec<VerificationDefinition>,
}

/// A pass over a step that awaits a message, going through the visitor `v1`
/// and the step `d1`: the step is visited, then each of its checks in
/// order; its other fields are left as the visit left them.
pub open spec fn recv_mqtt_walk_via<V: Visitor>(
    v0: V,
    d0: RecvMqttDefinition,
    v1: V,
    d1: RecvMqttDefinition,
    v2: V,
    d2: RecvMqttDefinition,
) -> bool {
    &&& v0.recv_mqtt_step(d0, v1, d1)
    &&& items_walk(v1, d1.verify@, v2, d2.verify@, verification_walks::<V>())
    &&& d2.used_connection == d1.used_connection
    &&& d2.message == d1.message
    &&& d2.parameters == d1.parameters
}

/// A pass over a step that awaits a message, from the visitor `v0` and the
/// step `d0` to `v2` and `d2`.
pub open spec fn recv_mqtt_walk<V: Visitor>(
    v0: V,
    d0: RecvMqttDefinition,
    v2: V,
    d2: RecvMqttDefinition,
) -> bool {
    exists|v1: V, d1: RecvMqttDefinition| recv_mqtt_walk_via(v0, d0, v1, d1, v2, d2)
}

impl RecvMqttDefinition {
    /// Visits the step, then each of its checks in order.
    pub fn accept<V: Visitor>(&mut self, visitor: &mut V)
        ensures
            recv_mqtt_walk(*old(visitor), *old(self), *final(visitor), *final(self)),
    {
        visitor.visit_recv_mqtt_dev(self);
        let ghost v1 = *visitor;
        let ghost d1 = *self;
        let ghost mut states: Seq<V> = seq![v1];
        let n = self.verify.len();
        let mut i: usize = 0;
        while i < n
            invariant
                n == self.verify.len(),
                n == d1.verify@.len(),
                i <= n,
                states.len() == i + 1,
                states[0] == v1,
                states[i as int] == *visitor,
                forall|j: int|
                    #![trigger d1.verify@[j]]
                    0 <= j < i ==> verification_walk(states[j], d1.verify@[j], states[j + 1], self.verify@[j]),
                forall|j: int| i <= j < n ==> self.verify@[j] == d1.verify@[j],
                self.used_connection == d1.used_connection,
                self.message == d1.message,
                self.parameters == d1.parameters,
            decreases n - i,
        {
            self.verify[i].accept(visitor);
            proof {
                states = states.push(*visitor);
            }
            i = i + 1;
        }
        assert(is_run(states, v1, d1.verify@, *visitor, self.verify@, verification_walks::<V>()));
        assert(recv_mqtt_walk_via(*old(visitor), *old(self), v1, d1, *visitor, *self));
    }
}

/// Send the message `message`, filled with `parameters`, on the connection
/// `used_connection`.
pub struct SendMqttDefinition {
    pub used_connection: String,
    pub message: String,
    pub parameters: Vec<String>,
}

impl SendMqttDefinition {
    /// Visits the step.
    pub fn accept<V: Visitor>(&mut self, visitor: &mut V)
        ensures
            old(visitor).send_mqtt_step(*old(self), *final(visitor), *final(self)),
    {
        visitor.visit_send_mqtt_def(self);
    }
}

/// One step of a test run.
#[allow(non_camel_case_types)]
pub enum RunDefinition {
    send_mqtt(SendMqttDefinition),
    recv_mqtt(RecvMqttDefinition),
}

/// A pass over one step of a test run: the step it holds accepts the
/// visitor.
pub open spec fn run_walk<V: Visitor>(v0: V, d0: RunDefinition, v1: V, d1: RunDefinition) -> bool {
    match (d0, d1) {
        (RunDefinition::send_mqtt(c0), RunDefinition::send_mqtt(c1)) => v0.send_mqtt_step(
            c0,
            v1,
            c1,
        ),
        (RunDefinition::recv_mqtt(c0), RunDefinition::recv_mqtt(c1)) => recv_mqtt_walk(
            v0,
            c0,
            v1,
            c1,
        ),
        _ => false,
    }
}

/// The pass over one step of a test run, as a relation to run over a list
/// of them.
pub open spec fn run_walks<V: Visitor>() -> spec_fn(V, RunDefinition, V, RunDefinition) -> bool {
    |a: V, x: RunDefinition, b: V, y: RunDefinition| run_walk(a, x, b, y)
}

impl RunDefinition {
    /// Lets the step it holds accept the visitor.
    pub fn accept<V: Visitor>(&mut self, visitor: &mut V)
        ensures
            run_walk(*old(visitor), *old(self), *final(visitor), *final(self)),
    {
        match self {
            RunDefinition::send_mqtt(value) => {
                value.accept(visitor);
            },
            RunDefinition::recv_mqtt(value) => {
                value.accept(visitor);
            },
        }
    }
}

/// The steps of the test, in order.
pub struct TestDefinition {
    pub run: Vec<RunDefinition>,
}

/// A pass over the test that goes through the visitor `v1` and the test
/// `d1`: the test is visited, then each step in order.
pub open spec fn test_walk_via<V: Visitor>(
    v0: V,
    d0: TestDefinition,
    v1: V,
    d1: TestDefinition,
    v2: V,
    d2: TestDefinition,
) -> bool {
    &&& v0.test_def_step(d0, v1, d1)
    &&& items_walk(v1, d1.run@, v2, d2.run@, run_walks::<V>())
}

/// A pass over the test, from the visitor `v0` and the test `d0` to `v2`
/// and `d2`.
pub open spec fn test_walk<V: Visitor>(v0: V, d0: TestDefinition, v2: V, d2: TestDefinition) -> bool {
    exists|v1: V, d1: TestDefinition| test_walk_via(v0, d0, v1, d1, v2, d2)
}

impl TestDefinition {
    /// Visits the test, then each step in order.
    pub fn accept<V: Visitor>(&mut self, visitor: &mut V)
        ensures
            test_walk(*old(visitor), *old(self), *final(visitor), *final(self)),
    {
        visitor.visit_test_def(self);
        let ghost v1 = *visitor;
        let ghost d1 = *self;
        let ghost mut states: Seq<V> = seq![v1];
        let n = self.run.len();
        let mut i: usize = 0;
        while i < n
            invariant
                n == self.run.len(),
                n == d1.run@.len(),
                i <= n,
                states.len() == i + 1,
                states[0] == v1,
                states[i as int] == *visitor,
                forall|j: int|
                    #![trigger d1.run@[j]]
                    0 <= j < i ==> run_walk(states[j], d1.run@[j], states[j + 1], self.run@[j]),
                forall|j: int| i <= j < n ==> self.run@[j] == d1.run@[j],
            decreases n - i,
        {
            self.run[i].accept(visitor);
            proof {
                states = states.push(*visitor);
            }
            i = i + 1;
        }
        assert(is_run(states, v1, d1.run@, *visitor, self.run@, run_walks::<V>()));
        assert(test_walk_via(*old(visitor), *old(self), v1, d1, *visitor, *self));
    }
}

} // verus!
