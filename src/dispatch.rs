//! Decoding of command payloads and routing of bus messages to covers.

use vstd::prelude::*;
use crate::cover::{publish_spec, ConfigError, Cover};
use crate::state::Payload;

verus! {

/// Why an incoming message was dropped.
#[derive(Clone, Copy, Debug, PartialEq, Eq, Structural)]
pub enum RouteError {
    /// No cover listens on the message's topic.
    UnknownTopic,
    /// The payload is none of `up`, `down`, `stop`.
    UndecodablePayload,
}

/// The command a payload names: exactly the ASCII text `up`, `down` or `stop`.
pub open spec fn payload_of(b: Seq<u8>) -> Option<Payload> {
    if b == seq![117u8, 112u8] {
        Some(Payload::Up)
    } else if b == seq![100u8, 111u8, 119u8, 110u8] {
        Some(Payload::Down)
    } else if b == seq![115u8, 116u8, 111u8, 112u8] {
        Some(Payload::Stop)
    } else {
        None
    }
}

/// Decodes a command payload.
pub fn decode_payload(raw: &[u8]) -> (r: Option<Payload>)
    ensures
        r == payload_of(raw@),
{
    let n = raw.len();
    if n == 2 && raw[0] == 117u8 && raw[1] == 112u8 {
        assert(raw@ =~= seq![117u8, 112u8]);
        Some(Payload::Up)
    } else if n == 4 && raw[0] == 100u8 && raw[1] == 111u8 && raw[2] == 119u8 && raw[3] == 110u8 {
        assert(raw@ =~= seq![100u8, 111u8, 119u8, 110u8]);
        Some(Payload::Down)
    } else if n == 4 && raw[0] == 115u8 && raw[1] == 116u8 && raw[2] == 111u8 && raw[3] == 112u8 {
        assert(raw@ =~= seq![115u8, 116u8, 111u8, 112u8]);
        Some(Payload::Stop)
    } else {
        None
    }
}

pub open spec fn has_pin(c: Cover, p: u8) -> bool {
    c.up_motor_pin == p || c.down_motor_pin == p || c.up_limit_pin == p || c.down_limit_pin == p
}

/// Whether two covers have a pin in common.
pub open spec fn pins_overlap(a: Cover, b: Cover) -> bool {
    has_pin(b, a.up_motor_pin) || has_pin(b, a.down_motor_pin) || has_pin(b, a.up_limit_pin)
        || has_pin(b, a.down_limit_pin)
}

/// No two covers have a pin in common.
pub open spec fn pins_disjoint(cs: Seq<Cover>) -> bool {
    forall|i: int, j: int| 0 <= i < j < cs.len() ==> !pins_overlap(#[trigger] cs[i], #[trigger] cs[j])
}

/// No two covers share a base topic.
pub open spec fn topics_distinct(cs: Seq<Cover>) -> bool {
    forall|i: int, j: int|
        0 <= i < j < cs.len() ==> (#[trigger] cs[i]).base_topic@ != (#[trigger] cs[j]).base_topic@
}

/// The first cover whose base topic is `topic`, if any.
pub open spec fn cover_for(cs: Seq<Cover>, topic: Seq<char>) -> Option<int> {
    if exists|i: int| 0 <= i < cs.len() && (#[trigger] cs[i]).base_topic@ == topic {
        Some(choose|i: int| 0 <= i < cs.len() && (#[trigger] cs[i]).base_topic@ == topic)
    } else {
        None
    }
}

fn overlap(a: &Cover, b: &Cover) -> (r: bool)
    ensures
        r == pins_overlap(*a, *b),
{
    let p = [a.up_motor_pin, a.down_motor_pin, a.up_limit_pin, a.down_limit_pin];
    let mut k: usize = 0;
    while k < 4
        invariant
            0 <= k <= 4,
            p@ == seq![a.up_motor_pin, a.down_motor_pin, a.up_limit_pin, a.down_limit_pin],
            forall|m: int| 0 <= m < k ==> !has_pin(*b, #[trigger] p@[m]),
        decreases 4 - k,
    {
        let x = p[k];
        if b.up_motor_pin == x || b.down_motor_pin == x || b.up_limit_pin == x || b.down_limit_pin == x {
            return true;
        }
        k = k + 1;
    }
    assert(!has_pin(*b, p@[0]) && !has_pin(*b, p@[1]) && !has_pin(*b, p@[2]) && !has_pin(*b, p@[3]));
    false
}

fn pins_clash(cs: &Vec<Cover>) -> (r: bool)
    ensures
        r == !pins_disjoint(cs@),
{
    let n = cs.len();
    let mut j: usize = 0;
    while j < n
        invariant
            n == cs@.len(),
            0 <= j <= n,
            forall|a: int, b: int| 0 <= a < b < j ==> !pins_overlap(#[trigger] cs@[a], #[trigger] cs@[b]),
        decreases n - j,
    {
        let mut i: usize = 0;
        while i < j
            invariant
                n == cs@.len(),
                0 <= i <= j < n,
                forall|a: int, b: int| 0 <= a < b < j ==> !pins_overlap(#[trigger] cs@[a], #[trigger] cs@[b]),
                forall|a: int| 0 <= a < i ==> !pins_overlap(#[trigger] cs@[a], cs@[j as int]),
            decreases j - i,
        {
            if overlap(&cs[i], &cs[j]) {
                return true;
            }
            i = i + 1;
        }
        j = j + 1;
    }
    false
}

fn topics_clash(cs: &Vec<Cover>) -> (r: bool)
    ensures
        r == !topics_distinct(cs@),
{
    let n = cs.len();
    let mut j: usize = 0;
    while j < n
        invariant
            n == cs@.len(),
            0 <= j <= n,
            forall|a: int, b: int|
                0 <= a < b < j ==> (#[trigger] cs@[a]).base_topic@ != (#[trigger] cs@[b]).base_topic@,
        decreases n - j,
    {
        let mut i: usize = 0;
        while i < j
            invariant
                n == cs@.len(),
                0 <= i <= j < n,
                forall|a: int, b: int|
                    0 <= a < b < j ==> (#[trigger] cs@[a]).base_topic@ != (#[trigger] cs@[b]).base_topic@,
                forall|a: int| 0 <= a < i ==> (#[trigger] cs@[a]).base_topic@ != cs@[j as int].base_topic@,
            decreases j - i,
        {
            if cs[i].base_topic == cs[j].base_topic {
                return true;
            }
            i = i + 1;
        }
        j = j + 1;
    }
    false
}

/// A set of covers, each driven on its own, and the routing of bus messages
/// to them by base topic.
pub struct CoverDispatcher {
    pub covers: Vec<Cover>,
}

impl CoverDispatcher {
    pub open spec fn wf(self) -> bool {
        &&& forall|i: int| 0 <= i < self.covers@.len() ==> (#[trigger] self.covers@[i]).wf()
        &&& pins_disjoint(self.covers@)
        &&& topics_distinct(self.covers@)
    }

    /// Takes the covers after checking that no pin and no base topic is used
    /// twice. A pin clash is reported before a topic clash.
    pub fn new(covers: Vec<Cover>) -> (r: Result<CoverDispatcher, ConfigError>)
        requires
            forall|i: int| 0 <= i < covers@.len() ==> (#[trigger] covers@[i]).wf(),
        ensures
            r == Err::<CoverDispatcher, ConfigError>(ConfigError::DuplicatePin) <==> !pins_disjoint(covers@),
            r == Err::<CoverDispatcher, ConfigError>(ConfigError::DuplicateTopic) <==> (pins_disjoint(covers@)
                && !topics_distinct(covers@)),
            r is Ok <==> pins_disjoint(covers@) && topics_distinct(covers@),
            r is Ok ==> r->Ok_0.covers@ == covers@ && r->Ok_0.wf(),
    {
        if pins_clash(&covers) {
            return Err(ConfigError::DuplicatePin);
        }
        if topics_clash(&covers) {
            return Err(ConfigError::DuplicateTopic);
        }
        Ok(CoverDispatcher { covers })
    }

    /// Index of the cover listening on `topic`.
    pub fn find(&self, topic: &String) -> (r: Option<usize>)
        requires
            self.wf(),
        ensures
            match r {
                Some(i) => i < self.covers@.len() && self.covers@[i as int].base_topic@ == topic@,
                None => forall|i: int| 0 <= i < self.covers@.len() ==> (#[trigger] self.covers@[i]).base_topic@ != topic@,
            },
            r is Some <==> cover_for(self.covers@, topic@) is Some,
            r is Some ==> r->Some_0 as int == cover_for(self.covers@, topic@)->Some_0,
    {
        let n = self.covers.len();
        let mut i: usize = 0;
        while i < n
            invariant
                n == self.covers@.len(),
                self.wf(),
                0 <= i <= n,
                forall|k: int| 0 <= k < i ==> (#[trigger] self.covers@[k]).base_topic@ != topic@,
            decreases n - i,
        {
            if self.covers[i].base_topic == *topic {
                let ghost cs = self.covers@;
                proof {
                    assert(0 <= i < cs.len() && cs[i as int].base_topic@ == topic@);
                    let c = choose|k: int| 0 <= k < cs.len() && (#[trigger] cs[k]).base_topic@ == topic@;
                    if c != i as int {
                        if c < i as int {
                            assert(cs[c].base_topic@ != topic@);
                        } else {
                            assert(cs[i as int].base_topic@ != cs[c].base_topic@);
                        }
                    }
                }
                return Some(i);
            }
            i = i + 1;
        }
        None
    }

    /// Routes a bus message: the cover whose base topic is `topic` gets the
    /// decoded command queued. Returns that cover's index.
    pub fn route(&mut self, topic: &String, raw: &[u8]) -> (r: Result<usize, RouteError>)
        requires
            old(self).wf(),
        ensures
            final(self).wf(),
            cover_for(old(self).covers@, topic@) is None ==> r == Err::<usize, RouteError>(RouteError::UnknownTopic)
                && final(self).covers@ == old(self).covers@,
            cover_for(old(self).covers@, topic@) is Some && payload_of(raw@) is None ==> r
                == Err::<usize, RouteError>(RouteError::UndecodablePayload) && final(self).covers@ == old(self).covers@,
            cover_for(old(self).covers@, topic@) is Some && payload_of(raw@) is Some ==> ({
                let i = cover_for(old(self).covers@, topic@)->Some_0;
                &&& r == Ok::<usize, RouteError>(i as usize)
                &&& final(self).covers@ == old(self).covers@.update(
                    i,
                    Cover { pending: payload_of(raw@), ..old(self).covers@[i] },
                )
            }),
    {
        let found = self.find(topic);
        match found {
            None => Err(RouteError::UnknownTopic),
            Some(i) => {
                match decode_payload(raw) {
                    None => Err(RouteError::UndecodablePayload),
                    Some(p) => {
                        let ghost before = self.covers@;
                        self.covers[i].payload(p);
                        proof {
                            assert(self.covers@ =~= before.update(i as int, Cover { pending: Some(p), ..before[i as int] }));
                            self.lemma_same_config(before);
                        }
                        Ok(i)
                    },
                }
            },
        }
    }

    /// One tick of cover `i`; the other covers are left as they are.
    pub fn tick_cover(&mut self, i: usize, up_pressed: bool, down_pressed: bool, now_ms: u64) -> (r: Option<
        Vec<u8>,
    >)
        requires
            old(self).wf(),
            i < old(self).covers@.len(),
        ensures
            final(self).wf(),
            final(self).covers@ == old(self).covers@.update(
                i as int,
                old(self).covers@[i as int].tick_spec(up_pressed, down_pressed, now_ms),
            ),
            match publish_spec(old(self).covers@[i as int].position, final(self).covers@[i as int].position) {
                Some(t) => r is Some && r->Some_0@ == t,
                None => r is None,
            },
    {
        let ghost before = self.covers@;
        assert(before[i as int].wf());
        let r = self.covers[i].tick(up_pressed, down_pressed, now_ms);
        proof {
            assert(self.covers@ =~= before.update(
                i as int,
                before[i as int].tick_spec(up_pressed, down_pressed, now_ms),
            ));
            self.lemma_same_config(before);
        }
        r
    }

    /// Stops the motors of every cover, as on shutdown.
    pub fn stop_all(&mut self, now_ms: u64)
        requires
            old(self).wf(),
        ensures
            final(self).wf(),
            final(self).covers@.len() == old(self).covers@.len(),
            forall|k: int|
                0 <= k < final(self).covers@.len() ==> #[trigger] final(self).covers@[k] == (Cover {
                    actuator: old(self).covers@[k].actuator.stop_spec(now_ms),
                    ..old(self).covers@[k]
                }),
    {
        let ghost start = self.covers@;
        let n = self.covers.len();
        let mut i: usize = 0;
        while i < n
            invariant
                0 <= i <= n,
                n == start.len(),
                self.covers@.len() == n,
                forall|k: int| 0 <= k < n ==> (#[trigger] start[k]).wf(),
                forall|k: int|
                    0 <= k < i ==> #[trigger] self.covers@[k] == (Cover {
                        actuator: start[k].actuator.stop_spec(now_ms),
                        ..start[k]
                    }),
                forall|k: int| i <= k < n ==> #[trigger] self.covers@[k] == start[k],
            decreases n - i,
        {
            let ghost before = self.covers@;
            self.covers[i].motor_stop(now_ms);
            assert(self.covers@ =~= before.update(
                i as int,
                Cover { actuator: before[i as int].actuator.stop_spec(now_ms), ..before[i as int] },
            ));
            i = i + 1;
        }
        proof {
            assert forall|k: int| 0 <= k < n implies (#[trigger] self.covers@[k]).wf() by {
                assert(start[k].wf());
            }
            self.lemma_same_config(start);
        }
    }

    /// Changing one cover's runtime fields, and nothing of its pins or topic,
    /// keeps the set well formed.
    proof fn lemma_same_config(self, before: Seq<Cover>)
        requires
            forall|i: int| 0 <= i < before.len() ==> (#[trigger] before[i]).wf(),
            pins_disjoint(before),
            topics_distinct(before),
            self.covers@.len() == before.len(),
            forall|i: int|
                0 <= i < before.len() ==> {
                    &&& (#[trigger] self.covers@[i]).wf()
                    &&& self.covers@[i].up_motor_pin == before[i].up_motor_pin
                    &&& self.covers@[i].down_motor_pin == before[i].down_motor_pin
                    &&& self.covers@[i].up_limit_pin == before[i].up_limit_pin
                    &&& self.covers@[i].down_limit_pin == before[i].down_limit_pin
                    &&& self.covers@[i].base_topic == before[i].base_topic
                },
        ensures
            self.wf(),
    {
        let cs = self.covers@;
        assert forall|a: int, b: int| 0 <= a < b < cs.len() implies !pins_overlap(
            #[trigger] cs[a],
            #[trigger] cs[b],
        ) by {
            assert(!pins_overlap(before[a], before[b]));
        }
        assert forall|a: int, b: int| 0 <= a < b < cs.len() implies (#[trigger] cs[a]).base_topic@
            != (#[trigger] cs[b]).base_topic@ by {
            assert(before[a].base_topic@ != before[b].base_topic@);
        }
    }
}

} // verus!
