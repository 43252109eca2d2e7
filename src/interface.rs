//! The bus that the hub sits on, and a model of the multi-step exchanges that
//! this layer runs over it.
//!
//! Every bus transaction that the driver issues is recorded, in the model, as
//! a `Transfer`. An
//! exchange is described by a script of `Step`s; `run` tells, for a record of
//! transfers, whether it is what the script issues against the hub's answers,
//! and how the exchange ended.

use vstd::prelude::*;

verus! {

/// The parameter acknowledge register, polled while waiting for the hub.
pub const PARAMETER_ACKNOWLEDGE: u8 = 0x3A;

/// The acknowledge value by which the hub rejects a parameter request.
pub const ACK_ERROR: u8 = 0x80;

/// One bus transaction: its direction, the register address, the bytes that
/// were written or read, and whether the bus reported success.
pub struct Transfer {
    pub write: bool,
    pub addr: u8,
    pub data: Seq<u8>,
    pub ok: bool,
}

impl Transfer {
    pub open spec fn read_of(addr: u8, data: Seq<u8>, ok: bool) -> Transfer {
        Transfer { write: false, addr, data, ok }
    }

    pub open spec fn write_of(addr: u8, data: Seq<u8>, ok: bool) -> Transfer {
        Transfer { write: true, addr, data, ok }
    }
}

/// Byte-level access to the hub's registers; each call is one bus transaction.
pub trait Interface {
    type Error;

    /// Reads `buf.len()` bytes starting at register `addr`.
    fn read(&mut self, addr: u8, buf: &mut [u8]) -> (r: Result<(), Self::Error>)
        ensures
            final(buf)@.len() == old(buf)@.len(),
    ;

    /// Writes `buf` starting at register `addr`.
    fn write(&mut self, addr: u8, buf: &[u8]) -> (r: Result<(), Self::Error>);
}

/// One step of an exchange with the hub.
pub enum Step {
    /// Write these bytes at this register.
    Write(u8, Seq<u8>),
    /// Read this many bytes at this register.
    Read(u8, nat),
    /// Poll the acknowledge register, one byte at a time, until it holds this
    /// value (done) or `ACK_ERROR` (rejected), for at most the poll budget.
    Await(u8),
}

/// How an exchange, or a part of it, ended.
#[derive(PartialEq, Eq, Structural)]
pub enum Outcome {
    Finished,
    BusFailure,
    Rejected,
    TimedOut,
}

/// Polling for `expected` with `budget` polls left, against the transfers `t`:
/// how many transfers the polling takes and how it ends, or `None` when `t` is
/// not what the polling issues.
pub open spec fn await_run(expected: u8, budget: nat, t: Seq<Transfer>) -> Option<(nat, Outcome)>
    decreases budget,
{
    if budget == 0 {
        Some((0, Outcome::TimedOut))
    } else if t.len() == 0 || t[0].write || t[0].addr != PARAMETER_ACKNOWLEDGE || t[0].data.len()
        != 1 {
        None
    } else if !t[0].ok {
        Some((1, Outcome::BusFailure))
    } else if t[0].data[0] == ACK_ERROR {
        Some((1, Outcome::Rejected))
    } else if t[0].data[0] == expected {
        Some((1, Outcome::Finished))
    } else {
        match await_run(expected, (budget - 1) as nat, t.drop_first()) {
            Some((n, o)) => Some((n + 1, o)),
            None => None,
        }
    }
}

/// Running the script `steps`, with `polls` as the budget of each `Await`,
/// against the transfers `t`: how the exchange ends, or `None` when `t` is not
/// exactly what the script issues. A failed transfer or a failed wait ends the
/// exchange there.
pub open spec fn run(steps: Seq<Step>, polls: nat, t: Seq<Transfer>) -> Option<Outcome>
    decreases steps.len(),
{
    if steps.len() == 0 {
        if t.len() == 0 {
            Some(Outcome::Finished)
        } else {
            None
        }
    } else if t.len() == 0 {
        match steps[0] {
            Step::Await(e) => if polls == 0 {
                Some(Outcome::TimedOut)
            } else {
                None
            },
            _ => None,
        }
    } else {
        match steps[0] {
            Step::Write(a, d) => if t[0] == Transfer::write_of(a, d, t[0].ok) {
                if t[0].ok {
                    run(steps.drop_first(), polls, t.drop_first())
                } else if t.len() == 1 {
                    Some(Outcome::BusFailure)
                } else {
                    None
                }
            } else {
                None
            },
            Step::Read(a, n) => if !t[0].write && t[0].addr == a && t[0].data.len() == n {
                if t[0].ok {
                    run(steps.drop_first(), polls, t.drop_first())
                } else if t.len() == 1 {
                    Some(Outcome::BusFailure)
                } else {
                    None
                }
            } else {
                None
            },
            Step::Await(e) => match await_run(e, polls, t) {
                Some((k, Outcome::Finished)) => run(steps.drop_first(), polls, t.skip(k as int)),
                Some((k, o)) => if t.len() == k {
                    Some(o)
                } else {
                    None
                },
                None => None,
            },
        }
    }
}

/// A single write or read step, against a single transfer that matches it,
/// ends as that transfer did.
pub proof fn lemma_run_single(step: Step, polls: nat, x: Transfer)
    requires
        match step {
            Step::Write(a, d) => x == Transfer::write_of(a, d, x.ok),
            Step::Read(a, n) => !x.write && x.addr == a && x.data.len() == n,
            Step::Await(_) => false,
        },
    ensures
        run(seq![step], polls, seq![x]) == Some(
            if x.ok {
                Outcome::Finished
            } else {
                Outcome::BusFailure
            },
        ),
{
    assert(seq![step][0] == step);
    assert(seq![step].drop_first() =~= Seq::<Step>::empty());
    assert(seq![x].drop_first() =~= Seq::<Transfer>::empty());
    assert(run(Seq::<Step>::empty(), polls, Seq::<Transfer>::empty()) == Some(Outcome::Finished));
}

/// A wait that takes exactly the transfers `d` ends, as a one-step script, as
/// the wait did.
pub proof fn lemma_run_await(e: u8, polls: nat, d: Seq<Transfer>, o: Outcome)
    requires
        await_run(e, polls, d) == Some((d.len(), o)),
    ensures
        run(seq![Step::Await(e)], polls, d) == Some(o),
{
    let one = seq![Step::Await(e)];
    assert(one[0] == Step::Await(e));
    assert(one.drop_first() =~= Seq::<Step>::empty());
    assert(d.skip(d.len() as int) =~= Seq::<Transfer>::empty());
    assert(run(Seq::<Step>::empty(), polls, Seq::<Transfer>::empty()) == Some(Outcome::Finished));
    if d.len() == 0 {
        assert(polls == 0);
    }
}

/// A poll that neither fails nor settles the wait for `expected`.
pub open spec fn is_pending_poll(expected: u8, x: Transfer) -> bool {
    &&& !x.write
    &&& x.addr == PARAMETER_ACKNOWLEDGE
    &&& x.data.len() == 1
    &&& x.ok
    &&& x.data[0] != ACK_ERROR
    &&& x.data[0] != expected
}

pub proof fn lemma_await_prefix(e: u8, budget: nat, t1: Seq<Transfer>, t2: Seq<Transfer>)
    requires
        await_run(e, budget, t1) is Some,
    ensures
        await_run(e, budget, t1 + t2) == await_run(e, budget, t1),
        await_run(e, budget, t1).unwrap().0 <= t1.len(),
    decreases budget,
{
    if budget > 0 && t1.len() > 0 {
        assert((t1 + t2)[0] == t1[0]);
        if is_pending_poll(e, t1[0]) {
            assert((t1 + t2).drop_first() =~= t1.drop_first() + t2);
            lemma_await_prefix(e, (budget - 1) as nat, t1.drop_first(), t2);
        }
    }
}

/// After `p.len()` pending polls, the wait goes on as a wait with that many
/// fewer polls left.
pub proof fn lemma_await_pending(e: u8, budget: nat, p: Seq<Transfer>, t: Seq<Transfer>)
    requires
        p.len() <= budget,
        forall|j: int| 0 <= j < p.len() ==> is_pending_poll(e, #[trigger] p[j]),
    ensures
        await_run(e, budget, p + t) == match await_run(e, (budget - p.len()) as nat, t) {
            Some((n, o)) => Some((n + p.len(), o)),
            None => None,
        },
    decreases p.len(),
{
    if p.len() > 0 {
        assert(is_pending_poll(e, p[0]));
        assert((p + t)[0] == p[0]);
        assert((p + t).drop_first() =~= p.drop_first() + t);
        assert forall|j: int| 0 <= j < p.drop_first().len() implies is_pending_poll(
            e,
            #[trigger] p.drop_first()[j],
        ) by {
            assert(p.drop_first()[j] == p[j + 1]);
        }
        lemma_await_pending(e, (budget - 1) as nat, p.drop_first(), t);
    } else {
        assert(p + t =~= t);
    }
}

/// Running two scripts one after the other: when the first finishes on its
/// transfers, the rest runs on what follows them.
pub proof fn lemma_run_append(
    s1: Seq<Step>,
    s2: Seq<Step>,
    polls: nat,
    t1: Seq<Transfer>,
    t2: Seq<Transfer>,
)
    requires
        run(s1, polls, t1) == Some(Outcome::Finished),
    ensures
        run(s1 + s2, polls, t1 + t2) == run(s2, polls, t2),
    decreases s1.len(),
{
    if s1.len() == 0 {
        assert(s1 + s2 =~= s2);
        assert(t1 + t2 =~= t2);
    } else {
        assert((s1 + s2)[0] == s1[0]);
        assert((s1 + s2).drop_first() =~= s1.drop_first() + s2);
        match s1[0] {
            Step::Await(e) => {
                if t1.len() == 0 {
                    assert(false);
                }
                let k = await_run(e, polls, t1).unwrap().0;
                lemma_await_prefix(e, polls, t1, t2);
                assert((t1 + t2).skip(k as int) =~= t1.skip(k as int) + t2);
                lemma_run_append(s1.drop_first(), s2, polls, t1.skip(k as int), t2);
            },
            _ => {
                assert((t1 + t2)[0] == t1[0]);
                assert((t1 + t2).drop_first() =~= t1.drop_first() + t2);
                lemma_run_append(s1.drop_first(), s2, polls, t1.drop_first(), t2);
            },
        }
    }
}

/// One more step of `script`, taken on the transfers `d`: either the script
/// so far still finishes, or the whole script ends as that step did.
pub proof fn lemma_advance(
    script: Seq<Step>,
    i: int,
    polls: nat,
    done: Seq<Transfer>,
    d: Seq<Transfer>,
)
    requires
        0 <= i < script.len(),
        run(script.take(i), polls, done) == Some(Outcome::Finished),
        run(seq![script[i]], polls, d) is Some,
    ensures
        run(seq![script[i]], polls, d) == Some(Outcome::Finished) ==> run(
            script.take(i + 1),
            polls,
            done + d,
        ) == Some(Outcome::Finished),
        run(seq![script[i]], polls, d) != Some(Outcome::Finished) ==> run(script, polls, done + d)
            == run(seq![script[i]], polls, d),
{
    let one = seq![script[i]];
    assert(script.take(i + 1) =~= script.take(i) + one);
    lemma_run_append(script.take(i), one, polls, done, d);
    let rest = script.skip(i + 1);
    assert(script =~= script.take(i) + (one + rest));
    lemma_run_append(script.take(i), one + rest, polls, done, d);
    if run(one, polls, d) != Some(Outcome::Finished) {
        lemma_first_step_fails(script[i], rest, polls, d);
    }
}

proof fn lemma_first_step_fails(step: Step, rest: Seq<Step>, polls: nat, d: Seq<Transfer>)
    requires
        run(seq![step], polls, d) is Some,
        run(seq![step], polls, d) != Some(Outcome::Finished),
    ensures
        run(seq![step] + rest, polls, d) == run(seq![step], polls, d),
{
    let one = seq![step];
    assert((one + rest)[0] == step);
    assert(one.drop_first() =~= Seq::<Step>::empty());
    assert((one + rest).drop_first() =~= rest);
    if d.len() > 0 {
        match step {
            Step::Await(e) => {
                let k = await_run(e, polls, d).unwrap().0;
                let o = await_run(e, polls, d).unwrap().1;
                if o == Outcome::Finished {
                    assert(run(one, polls, d) == run(one.drop_first(), polls, d.skip(k as int)));
                }
            },
            _ => {
                if d[0].ok {
                    assert(run(one, polls, d) == run(one.drop_first(), polls, d.drop_first()));
                }
            },
        }
    }
}

} // verus!
