//! Process-unique, time-ordered identifiers.
//!
//! An identifier is 64 bits wide. The outside generator lays it out as a reading of
//! the machine's clock in milliseconds from bit 22 upwards, a machine number from bit
//! 17, a node number from bit 12, and below them a sequence counter of 12 bits that
//! steps with every identifier. This library always makes the generator with machine
//! number 0 and reseeds it whenever the node is given a new number.
use vstd::prelude::*;
use snowflake::SnowflakeIdGenerator;

verus! {

/// The machine number that every generator of this library is made with.
pub const MACHINE_NUMBER: i32 = 0;

/// Whether an identifier shows a sequence number in its lowest 12 bits and a node
/// number, modulo 32, in its bits 12 to 16.
pub open spec fn carries(id: u64, node: i32, sequence: nat) -> bool {
    &&& id & 0xfff == sequence
    &&& (id >> 12) & 0x1f == (node as int) % 32
}

/// The outside generator: a clock reading, a node number and a sequence counter.
#[verifier::external_type_specification]
#[verifier::external_body]
pub struct ExSnowflakeIdGenerator(SnowflakeIdGenerator);

/// A generator of identifiers.
///
/// It wraps the outside generator and speaks of it through two numbers: the node
/// number it was seeded with and the count of identifiers handed out since, modulo
/// 4096. That identifiers are unique and ordered in time rests on the machine's clock
/// and is not part of any contract here.
#[derive(Debug)]
pub struct IdGenerator {
    inner: SnowflakeIdGenerator,
}

impl IdGenerator {
    /// The node number the generator was last seeded with.
    pub closed spec fn node(&self) -> i32 {
        seed_of(self.inner)
    }

    /// How many identifiers the generator has handed out since it was last seeded,
    /// counted modulo 4096.
    pub closed spec fn sequence(&self) -> nat {
        sequence_of(self.inner)
    }

    /// A generator seeded with the given node number, its sequence at zero.
    pub fn new(node_number: i32) -> (r: IdGenerator)
        ensures
            r.node() == node_number,
            r.sequence() == 0,
    {
        IdGenerator { inner: seeded(MACHINE_NUMBER, node_number) }
    }

    /// The node number this generator was seeded with.
    pub fn node_number(&self) -> (r: i32)
        ensures
            r == self.node(),
    {
        seed(&self.inner)
    }

    /// Replaces the generator by one seeded with a new node number, its sequence at
    /// zero.
    pub fn reseed(&mut self, node_number: i32)
        ensures
            final(self).node() == node_number,
            final(self).sequence() == 0,
    {
        self.inner = seeded(MACHINE_NUMBER, node_number);
    }

    /// Hands out the next identifier. The node number stays and the sequence moves on
    /// by one. The lowest 12 bits of the identifier are the new sequence number, and
    /// its bits 12 to 16 are the node number modulo 32; the bits above them hold the
    /// machine's clock and are not fixed by the generator's state.
    pub fn generate(&mut self) -> (id: u64)
        ensures
            final(self).node() == old(self).node(),
            final(self).sequence() == (old(self).sequence() + 1) % 4096,
            id & 0xfff == final(self).sequence(),
            (id >> 12) & 0x1f == (old(self).node() as int) % 32,
            carries(id, final(self).node(), final(self).sequence()),
    {
        let raw: i64 = next_of(&mut self.inner);
        reinterpret(raw)
    }
}

/// The node number that an outside generator was made with.
pub uninterp spec fn seed_of(g: SnowflakeIdGenerator) -> i32;

/// The sequence counter of an outside generator: how many identifiers it has handed
/// out since it was made, counted modulo 4096.
pub uninterp spec fn sequence_of(g: SnowflakeIdGenerator) -> nat;

/// A fresh generator for a machine number and a node number.
///
/// Trusted: calls `SnowflakeIdGenerator::new`. The generator it returns keeps the node
/// number it is given and starts with its sequence counter at zero; that is all the
/// contract claims. The call fails only on a machine whose clock reads a time before
/// 1970, whatever the two numbers.
#[verifier::external_body]
fn seeded(machine_number: i32, node_number: i32) -> (g: SnowflakeIdGenerator)
    ensures
        seed_of(g) == node_number,
        sequence_of(g) == 0,
{
    SnowflakeIdGenerator::new(machine_number, node_number)
}

/// The node number of a generator.
///
/// Trusted: reads the generator's public field `node_id`, which holds the node number
/// it was made with and which none of its methods changes.
#[verifier::external_body]
fn seed(g: &SnowflakeIdGenerator) -> (n: i32)
    ensures
        n == seed_of(*g),
{
    g.node_id
}

/// The next identifier of a generator.
///
/// Trusted: calls `SnowflakeIdGenerator::generate`. It keeps the node number, steps the
/// sequence counter by one modulo 4096 and, each time the counter wraps, reads the
/// clock and waits until it has moved on. The identifier is the clock reading shifted
/// left by 22 bits, or-ed with the machine number shifted by 17, the node number
/// shifted by 12 and the counter. So its lowest 12 bits are the counter and its bits 12
/// to 16 are the lowest five bits of the node number; the contract claims these two
/// facts of the identifier, read as an unsigned number, and nothing of the bits that
/// hold the clock.
#[verifier::external_body]
fn next_of(g: &mut SnowflakeIdGenerator) -> (raw: i64)
    ensures
        seed_of(*final(g)) == seed_of(*old(g)),
        sequence_of(*final(g)) == (sequence_of(*old(g)) + 1) % 4096,
        reinterpreted(raw) & 0xfff == sequence_of(*final(g)),
        (reinterpreted(raw) >> 12) & 0x1f == (seed_of(*old(g)) as int) % 32,
{
    g.generate()
}

/// The 64 bits of a signed number read as an unsigned one.
pub open spec fn reinterpreted(raw: i64) -> u64 {
    if raw >= 0 {
        raw as u64
    } else {
        (raw + 0x1_0000_0000_0000_0000) as u64
    }
}

/// Reads the bits of a signed identifier as an unsigned one.
pub fn reinterpret(raw: i64) -> (r: u64)
    ensures
        r == reinterpreted(raw),
{
    #[verifier::truncate]
    let r: u64 = raw as u64;
    assert(r == reinterpreted(raw)) by (bit_vector)
        requires
            r == raw as u64,
    ;
    r
}

} // verus!
