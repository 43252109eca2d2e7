//! Protocol layer for the BHI160/BHI160B sensor hub: parameter exchange over
//! the register bus, firmware blob validation and upload, and decoding of the
//! FIFO telemetry stream into typed sensor events.

pub mod bytes;
pub mod firmware;
pub mod interface;
pub mod packet;
pub mod parameters;
pub mod registers;

use vstd::prelude::*;

use crate::bytes::{u16_le, u32_le};
use crate::interface::{
    await_run, is_pending_poll, lemma_advance, lemma_await_pending, lemma_run_await,
    lemma_run_single, run, Interface, Outcome, Step, Transfer, PARAMETER_ACKNOWLEDGE,
};
use crate::parameters::Parameter;
use crate::registers::{
    page_select_byte, request_byte, size_field, spec_size_field, BytesRemaining, ChipControl,
    ParameterAcknowledge, ParameterPageSelect, ParameterRequest, ReadRegister, Register, Request,
    UploadAddress, UploadCrc, WriteRegister, FIFO_DATA, PARAMETER_READ_DATA, PARAMETER_WRITE_DATA,
    UPLOAD_DATA,
};

verus! {

/// Why a parameter exchange failed.
#[derive(Debug)]
pub enum ParamError<E> {
    /// A bus transaction failed; the exchange stopped there.
    Bus(E),
    /// The hub answered that the page or parameter is not supported.
    Rejected,
    /// The hub did not acknowledge within the poll budget.
    Timeout,
}

/// How an exchange that returned `r` ended, in the terms of `run`.
pub open spec fn outcome_of<T, E>(r: Result<T, ParamError<E>>) -> Outcome {
    match r {
        Ok(_) => Outcome::Finished,
        Err(ParamError::Bus(_)) => Outcome::BusFailure,
        Err(ParamError::Rejected) => Outcome::Rejected,
        Err(ParamError::Timeout) => Outcome::TimedOut,
    }
}

/// Whether the record `after` continues the record `before`.
pub open spec fn extends(before: Seq<Transfer>, after: Seq<Transfer>) -> bool {
    after.len() >= before.len() && after.take(before.len() as int) == before
}

/// The transfers of `after` that came after `before`.
pub open spec fn since(before: Seq<Transfer>, after: Seq<Transfer>) -> Seq<Transfer> {
    after.skip(before.len() as int)
}

/// The exchange that reads parameter `p`: select its page and size, request
/// it, wait for the hub to acknowledge its number, and read its bytes.
pub open spec fn read_param_script(p: Parameter) -> Seq<Step> {
    seq![
        Step::Write(
            ParameterPageSelect::ADDR,
            seq![page_select_byte(p.page, spec_size_field(p.size, 16))],
        ),
        Step::Write(ParameterRequest::ADDR, seq![request_byte(p.param, Request::Read)]),
        Step::Await(p.param),
        Step::Read(PARAMETER_READ_DATA, p.size as nat),
    ]
}

/// The exchange that writes `data` to parameter `p`: put the data in place,
/// select the page and size, request the write, wait for the hub to echo the
/// request byte, and release the parameter interface with a read request for
/// parameter 0.
pub open spec fn write_param_script(p: Parameter, data: Seq<u8>) -> Seq<Step> {
    seq![
        Step::Write(PARAMETER_WRITE_DATA, data),
        Step::Write(
            ParameterPageSelect::ADDR,
            seq![page_select_byte(p.page, spec_size_field(p.size, 8))],
        ),
        Step::Write(ParameterRequest::ADDR, seq![request_byte(p.param, Request::Write)]),
        Step::Await(request_byte(p.param, Request::Write)),
        Step::Write(ParameterRequest::ADDR, seq![request_byte(0, Request::Read)]),
    ]
}

/// The bursts of a firmware upload: the body in consecutive 16-byte chunks.
pub open spec fn upload_chunks(body: Seq<u8>) -> Seq<Step> {
    Seq::new(body.len() / 16, |i: int| Step::Write(UPLOAD_DATA, body.subrange(16 * i, 16 * i + 16)))
}

/// The exchange that uploads a firmware body: halt the processor and arm the
/// upload, reset the upload address, send the body, and read the CRC.
pub open spec fn upload_script(body: Seq<u8>) -> Seq<Step> {
    seq![
        Step::Write(
            ChipControl::ADDR,
            seq![ChipControl { cpu_run_request: false, host_upload_enable: true }.spec_byte()],
        ),
        Step::Write(UploadAddress::ADDR, seq![0u8, 0u8]),
    ] + upload_chunks(body) + seq![Step::Read(UploadCrc::ADDR, UploadCrc::SIZE as nat)]
}

/// The number of bytes a FIFO read takes into a buffer of `cap` bytes, when the
/// hub reported `remaining` (two bytes, little endian) bytes waiting.
pub open spec fn fifo_count(remaining: Seq<u8>, cap: nat) -> nat {
    if u16_le(remaining) < cap {
        u16_le(remaining) as nat
    } else {
        cap
    }
}

/// The main interface to a BHI160(B) on a bus.
pub struct Bhi160<IF: Interface> {
    interface: IF,
    log: Ghost<Seq<Transfer>>,
}

impl<IF: Interface> Bhi160<IF> {
    /// The transactions this driver has issued on the bus, oldest first.
    pub closed spec fn transfers(&self) -> Seq<Transfer> {
        self.log@
    }

    pub fn new(interface: IF) -> (r: Self)
        ensures
            r.transfers() == Seq::<Transfer>::empty(),
    {
        Bhi160 { interface, log: Ghost(Seq::empty()) }
    }

    /// Gives the bus back.
    pub fn into_interface(self) -> IF {
        self.interface
    }

    /// One bus read, recorded.
    fn bus_read(&mut self, addr: u8, buf: &mut [u8]) -> (r: Result<(), IF::Error>)
        ensures
            final(buf)@.len() == old(buf)@.len(),
            final(self).transfers() == old(self).transfers().push(
                Transfer::read_of(addr, final(buf)@, r is Ok),
            ),
    {
        let r = self.interface.read(addr, buf);
        self.log = Ghost(self.log@.push(Transfer::read_of(addr, buf@, r is Ok)));
        r
    }

    /// One bus write, recorded.
    fn bus_write(&mut self, addr: u8, buf: &[u8]) -> (r: Result<(), IF::Error>)
        ensures
            final(self).transfers() == old(self).transfers().push(
                Transfer::write_of(addr, buf@, r is Ok),
            ),
    {
        let r = self.interface.write(addr, buf);
        self.log = Ghost(self.log@.push(Transfer::write_of(addr, buf@, r is Ok)));
        r
    }

    /// Writes `data` at `addr`, the `i`-th step of `script`.
    fn step_write(
        &mut self,
        addr: u8,
        data: &[u8],
        Ghost(script): Ghost<Seq<Step>>,
        Ghost(i): Ghost<int>,
        Ghost(polls): Ghost<nat>,
        Ghost(t0): Ghost<Seq<Transfer>>,
    ) -> (r: Result<(), IF::Error>)
        requires
            0 <= i < script.len(),
            script[i] == Step::Write(addr, data@),
            extends(t0, old(self).transfers()),
            run(script.take(i), polls, since(t0, old(self).transfers())) == Some(Outcome::Finished),
        ensures
            extends(t0, final(self).transfers()),
            r is Ok ==> run(script.take(i + 1), polls, since(t0, final(self).transfers()))
                == Some(Outcome::Finished),
            r is Err ==> run(script, polls, since(t0, final(self).transfers())) == Some(
                Outcome::BusFailure,
            ),
    {
        let ghost before = self.transfers();
        let r = self.bus_write(addr, data);
        proof {
            let x = Transfer::write_of(addr, data@, r is Ok);
            let d = seq![x];
            let after = self.transfers();
            assert(since(t0, after) =~= since(t0, before) + d);
            assert(after.take(t0.len() as int) =~= before.take(t0.len() as int));
            lemma_run_single(script[i], polls, x);
            lemma_advance(script, i, polls, since(t0, before), d);
        }
        r
    }

    /// Reads `buf.len()` bytes at `addr`, the `i`-th step of `script`.
    fn step_read(
        &mut self,
        addr: u8,
        buf: &mut [u8],
        Ghost(script): Ghost<Seq<Step>>,
        Ghost(i): Ghost<int>,
        Ghost(polls): Ghost<nat>,
        Ghost(t0): Ghost<Seq<Transfer>>,
    ) -> (r: Result<(), IF::Error>)
        requires
            0 <= i < script.len(),
            script[i] == Step::Read(addr, old(buf)@.len()),
            extends(t0, old(self).transfers()),
            run(script.take(i), polls, since(t0, old(self).transfers())) == Some(Outcome::Finished),
        ensures
            final(buf)@.len() == old(buf)@.len(),
            extends(t0, final(self).transfers()),
            final(self).transfers().len() == old(self).transfers().len() + 1,
            final(self).transfers().last() == Transfer::read_of(addr, final(buf)@, r is Ok),
            r is Ok ==> run(script.take(i + 1), polls, since(t0, final(self).transfers()))
                == Some(Outcome::Finished),
            r is Err ==> run(script, polls, since(t0, final(self).transfers())) == Some(
                Outcome::BusFailure,
            ),
    {
        let ghost before = self.transfers();
        let r = self.bus_read(addr, buf);
        proof {
            let x = Transfer::read_of(addr, buf@, r is Ok);
            let d = seq![x];
            let after = self.transfers();
            assert(since(t0, after) =~= since(t0, before) + d);
            assert(after.take(t0.len() as int) =~= before.take(t0.len() as int));
            lemma_run_single(script[i], polls, x);
            lemma_advance(script, i, polls, since(t0, before), d);
        }
        r
    }

    /// Polls the acknowledge register until it holds `expected` or the error
    /// value, at most `max_polls` times; the `i`-th step of `script`.
    fn step_await(
        &mut self,
        expected: u8,
        max_polls: u32,
        Ghost(script): Ghost<Seq<Step>>,
        Ghost(i): Ghost<int>,
        Ghost(t0): Ghost<Seq<Transfer>>,
    ) -> (r: Result<(), ParamError<IF::Error>>)
        requires
            0 <= i < script.len(),
            script[i] == Step::Await(expected),
            extends(t0, old(self).transfers()),
            run(script.take(i), max_polls as nat, since(t0, old(self).transfers())) == Some(
                Outcome::Finished,
            ),
        ensures
            extends(t0, final(self).transfers()),
            r is Ok ==> run(
                script.take(i + 1),
                max_polls as nat,
                since(t0, final(self).transfers()),
            ) == Some(Outcome::Finished),
            r is Err ==> run(script, max_polls as nat, since(t0, final(self).transfers())) == Some(
                outcome_of(r),
            ),
    {
        let ghost before = self.transfers();
        let ghost polls = max_polls as nat;
        let mut n: u32 = 0;
        proof {
            assert(before.take(before.len() as int) =~= before);
            assert(since(before, before) =~= Seq::<Transfer>::empty());
        }
        while n < max_polls
            invariant
                n <= max_polls,
                polls == max_polls as nat,
                0 <= i < script.len(),
                script[i] == Step::Await(expected),
                extends(t0, before),
                run(script.take(i), polls, since(t0, before)) == Some(Outcome::Finished),
                extends(before, self.transfers()),
                since(before, self.transfers()).len() == n,
                forall|j: int|
                    0 <= j < n ==> is_pending_poll(
                        expected,
                        #[trigger] since(before, self.transfers())[j],
                    ),
            decreases max_polls - n,
        {
            let ghost mid = self.transfers();
            let mut buf: Vec<u8> = vec![0u8];
            let r = self.bus_read(PARAMETER_ACKNOWLEDGE, buf.as_mut_slice());
            let ghost x = Transfer::read_of(PARAMETER_ACKNOWLEDGE, buf@, r is Ok);
            let ghost p = since(before, mid);
            let ghost d = p.push(x);
            proof {
                let after = self.transfers();
                assert(since(before, after) =~= d);
                assert(after.take(before.len() as int) =~= mid.take(before.len() as int));
                assert(since(t0, after) =~= since(t0, before) + d);
                assert(after.take(t0.len() as int) =~= before.take(t0.len() as int));
                assert(d =~= p + seq![x]);
                lemma_await_pending(expected, polls, p, seq![x]);
                assert(seq![x].drop_first() =~= Seq::<Transfer>::empty());
            }
            let settled: Option<Result<(), ParamError<IF::Error>>> = match r {
                Err(e) => Some(Err(ParamError::Bus(e))),
                Ok(()) => match ParameterAcknowledge::from_byte(buf[0]) {
                    ParameterAcknowledge::Error => Some(Err(ParamError::Rejected)),
                    ParameterAcknowledge::RequestId(id) => if id == expected {
                        Some(Ok(()))
                    } else {
                        None
                    },
                },
            };
            match settled {
                Some(res) => {
                    proof {
                        assert(await_run(expected, polls, d) == Some((d.len(), outcome_of(res))));
                        lemma_run_await(expected, polls, d, outcome_of(res));
                        lemma_advance(script, i, polls, since(t0, before), d);
                    }
                    return res;
                },
                None => {},
            }
            proof {
                assert(is_pending_poll(expected, x));
                assert forall|j: int| 0 <= j < n + 1 implies is_pending_poll(
                    expected,
                    #[trigger] since(before, self.transfers())[j],
                ) by {
                    if j < n {
                        assert(d[j] == p[j]);
                    }
                }
            }
            n = n + 1;
        }
        proof {
            let after = self.transfers();
            let d = since(before, after);
            assert(since(t0, after) =~= since(t0, before) + d);
            assert(after.take(t0.len() as int) =~= before.take(t0.len() as int));
            lemma_await_pending(expected, polls, d, Seq::<Transfer>::empty());
            assert(d + Seq::<Transfer>::empty() =~= d);
            lemma_run_await(expected, polls, d, Outcome::TimedOut);
            lemma_advance(script, i, polls, since(t0, before), d);
        }
        Err(ParamError::Timeout)
    }

    /// Reads register `R`: one bus read of its width at its address.
    pub fn read_reg<R: ReadRegister>(&mut self) -> (r: Result<R, IF::Error>)
        ensures
            extends(old(self).transfers(), final(self).transfers()),
            run(
                seq![Step::Read(R::ADDR, R::SIZE as nat)],
                0,
                since(old(self).transfers(), final(self).transfers()),
            ) == Some(
                if r is Ok {
                    Outcome::Finished
                } else {
                    Outcome::BusFailure
                },
            ),
            r matches Ok(v) ==> v == R::spec_from_bytes(final(self).transfers().last().data),
    {
        let ghost t0 = self.transfers();
        let ghost script = seq![Step::Read(R::ADDR, R::SIZE as nat)];
        proof {
            assert(script.take(0) =~= Seq::<Step>::empty());
            assert(since(t0, t0) =~= Seq::<Transfer>::empty());
            assert(t0.take(t0.len() as int) =~= t0);
        }
        let mut buf: Vec<u8> = vec![0u8; R::SIZE];
        let r = self.step_read(
            R::ADDR,
            buf.as_mut_slice(),
            Ghost(script),
            Ghost(0),
            Ghost(0),
            Ghost(t0),
        );
        proof {
            assert(script.take(1) =~= script);
        }
        match r {
            Ok(()) => Ok(R::from_bytes(buf.as_slice())),
            Err(e) => Err(e),
        }
    }

    /// Writes register `R`: one bus write of its bytes at its address.
    pub fn write_reg<R: WriteRegister>(&mut self, reg: R) -> (r: Result<(), IF::Error>)
        ensures
            extends(old(self).transfers(), final(self).transfers()),
            run(
                seq![Step::Write(R::ADDR, reg.spec_bytes())],
                0,
                since(old(self).transfers(), final(self).transfers()),
            ) == Some(
                if r is Ok {
                    Outcome::Finished
                } else {
                    Outcome::BusFailure
                },
            ),
    {
        let ghost t0 = self.transfers();
        let ghost script = seq![Step::Write(R::ADDR, reg.spec_bytes())];
        proof {
            assert(script.take(0) =~= Seq::<Step>::empty());
            assert(since(t0, t0) =~= Seq::<Transfer>::empty());
            assert(t0.take(t0.len() as int) =~= t0);
        }
        let data = reg.into_bytes();
        let r = self.step_write(
            R::ADDR,
            data.as_slice(),
            Ghost(script),
            Ghost(0),
            Ghost(0),
            Ghost(t0),
        );
        proof {
            assert(script.take(1) =~= script);
        }
        r
    }

    /// Read-modify-write of register `R`: reads it, applies `f`, and writes
    /// the result back. Not atomic: nothing holds the bus between the read
    /// and the write.
    pub fn update_reg<R: ReadRegister + WriteRegister, F: FnOnce(R) -> R>(&mut self, f: F) -> (r:
        Result<(), IF::Error>)
        requires
            forall|v: R| f.requires((v,)),
        ensures
            extends(old(self).transfers(), final(self).transfers()),
            ({
                let t = since(old(self).transfers(), final(self).transfers());
                &&& t.len() >= 1
                &&& t[0] == Transfer::read_of(R::ADDR, t[0].data, t[0].ok)
                &&& t[0].data.len() == R::SIZE
                &&& !t[0].ok ==> t.len() == 1 && r is Err
                &&& t[0].ok ==> t.len() == 2 && (r is Ok <==> t[1].ok) && exists|w: R|
                    f.ensures((R::spec_from_bytes(t[0].data),), w) && #[trigger] w.spec_bytes()
                        == t[1].data && t[1] == Transfer::write_of(R::ADDR, w.spec_bytes(), t[1].ok)
            }),
    {
        let ghost t0 = self.transfers();
        let mut buf: Vec<u8> = vec![0u8; R::SIZE];
        let r0 = self.bus_read(R::ADDR, buf.as_mut_slice());
        let ghost t1 = self.transfers();
        proof {
            assert(since(t0, t1) =~= seq![t1.last()]);
            assert(t1.take(t0.len() as int) =~= t0);
        }
        if let Err(e) = r0 {
            return Err(e);
        }
        let current = R::from_bytes(buf.as_slice());
        let next = f(current);
        let data = next.into_bytes();
        let r1 = self.bus_write(R::ADDR, data.as_slice());
        proof {
            let t2 = self.transfers();
            assert(since(t0, t2) =~= seq![t1.last(), t2.last()]);
            assert(t2.take(t0.len() as int) =~= t0);
            assert(next.spec_bytes() == since(t0, t2)[1].data);
        }
        r1
    }

    /// Reads parameter `p`: selects its page and size, requests it, waits for
    /// the hub to acknowledge (at most `max_polls` polls), and reads its bytes.
    pub fn read_param(&mut self, p: Parameter, max_polls: u32) -> (r: Result<
        Vec<u8>,
        ParamError<IF::Error>,
    >)
        requires
            p.wf(),
        ensures
            extends(old(self).transfers(), final(self).transfers()),
            run(
                read_param_script(p),
                max_polls as nat,
                since(old(self).transfers(), final(self).transfers()),
            ) == Some(outcome_of(r)),
            r matches Ok(v) ==> v@ == final(self).transfers().last().data,
    {
        let ghost t0 = self.transfers();
        let ghost script = read_param_script(p);
        let ghost polls = max_polls as nat;
        proof {
            assert(script.take(0) =~= Seq::<Step>::empty());
            assert(since(t0, t0) =~= Seq::<Transfer>::empty());
            assert(t0.take(t0.len() as int) =~= t0);
        }
        let select = ParameterPageSelect {
            parameter_page: p.page,
            parameter_size: size_field(p.size, 16),
        }.into_byte();
        let select_buf = [select];
        assert(select_buf@ =~= seq![select]);
        let r0 = self.step_write(
            ParameterPageSelect::ADDR,
            &select_buf,
            Ghost(script),
            Ghost(0),
            Ghost(polls),
            Ghost(t0),
        );
        if let Err(e) = r0 {
            return Err(ParamError::Bus(e));
        }
        let request = ParameterRequest { parameter: p.param, request: Request::Read }.into_byte();
        let request_buf = [request];
        assert(request_buf@ =~= seq![request]);
        let r1 = self.step_write(
            ParameterRequest::ADDR,
            &request_buf,
            Ghost(script),
            Ghost(1),
            Ghost(polls),
            Ghost(t0),
        );
        if let Err(e) = r1 {
            return Err(ParamError::Bus(e));
        }
        let r2 = self.step_await(p.param, max_polls, Ghost(script), Ghost(2), Ghost(t0));
        if let Err(e) = r2 {
            return Err(e);
        }
        let mut buf: Vec<u8> = vec![0u8; p.size as usize];
        let r3 = self.step_read(
            PARAMETER_READ_DATA,
            buf.as_mut_slice(),
            Ghost(script),
            Ghost(3),
            Ghost(polls),
            Ghost(t0),
        );
        if let Err(e) = r3 {
            return Err(ParamError::Bus(e));
        }
        proof {
            assert(script.take(4) =~= script);
        }
        Ok(buf)
    }
    /// Writes `data` to parameter `p`: puts the data in place, selects the
    /// page and size, requests the write, waits for the hub to echo the request
    /// (at most `max_polls` polls), and releases the parameter interface.
    pub fn write_param(&mut self, p: Parameter, data: &[u8], max_polls: u32) -> (r: Result<
        (),
        ParamError<IF::Error>,
    >)
        requires
            p.writable(),
            data@.len() == p.size,
        ensures
            extends(old(self).transfers(), final(self).transfers()),
            run(
                write_param_script(p, data@),
                max_polls as nat,
                since(old(self).transfers(), final(self).transfers()),
            ) == Some(outcome_of(r)),
    {
        let ghost t0 = self.transfers();
        let ghost script = write_param_script(p, data@);
        let ghost polls = max_polls as nat;
        proof {
            assert(script.take(0) =~= Seq::<Step>::empty());
            assert(since(t0, t0) =~= Seq::<Transfer>::empty());
            assert(t0.take(t0.len() as int) =~= t0);
        }
        let r0 = self.step_write(
            PARAMETER_WRITE_DATA,
            data,
            Ghost(script),
            Ghost(0),
            Ghost(polls),
            Ghost(t0),
        );
        if let Err(e) = r0 {
            return Err(ParamError::Bus(e));
        }
        let select = ParameterPageSelect {
            parameter_page: p.page,
            parameter_size: size_field(p.size, 8),
        }.into_byte();
        let select_buf = [select];
        assert(select_buf@ =~= seq![select]);
        let r1 = self.step_write(
            ParameterPageSelect::ADDR,
            &select_buf,
            Ghost(script),
            Ghost(1),
            Ghost(polls),
            Ghost(t0),
        );
        if let Err(e) = r1 {
            return Err(ParamError::Bus(e));
        }
        let request = ParameterRequest { parameter: p.param, request: Request::Write }.into_byte();
        let request_buf = [request];
        assert(request_buf@ =~= seq![request]);
        let r2 = self.step_write(
            ParameterRequest::ADDR,
            &request_buf,
            Ghost(script),
            Ghost(2),
            Ghost(polls),
            Ghost(t0),
        );
        if let Err(e) = r2 {
            return Err(ParamError::Bus(e));
        }
        let r3 = self.step_await(request, max_polls, Ghost(script), Ghost(3), Ghost(t0));
        if let Err(e) = r3 {
            return Err(e);
        }
        let release = ParameterRequest { parameter: 0, request: Request::Read }.into_byte();
        let release_buf = [release];
        assert(release_buf@ =~= seq![release]);
        let r4 = self.step_write(
            ParameterRequest::ADDR,
            &release_buf,
            Ghost(script),
            Ghost(4),
            Ghost(polls),
            Ghost(t0),
        );
        if let Err(e) = r4 {
            return Err(ParamError::Bus(e));
        }
        proof {
            assert(script.take(5) =~= script);
        }
        Ok(())
    }

    /// Uploads a firmware body, already transformed (see `Firmware::body`):
    /// halts the processor and arms the upload, resets the upload address,
    /// sends the body in 16-byte bursts, and returns the CRC the hub computed.
    /// The caller compares it with `Firmware::crc` and restarts the processor.
    pub fn upload_raw_firmware(&mut self, firmware: &[u8]) -> (r: Result<u32, IF::Error>)
        requires
            firmware@.len() % 16 == 0,
        ensures
            extends(old(self).transfers(), final(self).transfers()),
            run(upload_script(firmware@), 0, since(old(self).transfers(), final(self).transfers()))
                == Some(
                if r is Ok {
                    Outcome::Finished
                } else {
                    Outcome::BusFailure
                },
            ),
            r matches Ok(crc) ==> crc == u32_le(final(self).transfers().last().data),
    {
        let ghost t0 = self.transfers();
        let ghost script = upload_script(firmware@);
        let ghost body = firmware@;
        proof {
            assert(script.take(0) =~= Seq::<Step>::empty());
            assert(since(t0, t0) =~= Seq::<Transfer>::empty());
            assert(t0.take(t0.len() as int) =~= t0);
        }
        let control = ChipControl { cpu_run_request: false, host_upload_enable: true }.into_byte();
        let control_buf = [control];
        assert(control_buf@ =~= seq![control]);
        let r0 = self.step_write(
            ChipControl::ADDR,
            &control_buf,
            Ghost(script),
            Ghost(0),
            Ghost(0),
            Ghost(t0),
        );
        if let Err(e) = r0 {
            return Err(e);
        }
        let address = UploadAddress(0).into_bytes();
        assert(address@ =~= seq![0u8, 0u8]);
        let r1 = self.step_write(
            UploadAddress::ADDR,
            address.as_slice(),
            Ghost(script),
            Ghost(1),
            Ghost(0),
            Ghost(t0),
        );
        if let Err(e) = r1 {
            return Err(e);
        }
        let len = firmware.len();
        let count = len / 16;
        let mut i: usize = 0;
        while i < count
            invariant
                t0 == old(self).transfers(),
                len == body.len(),
                count == body.len() / 16,
                body.len() % 16 == 0,
                body == firmware@,
                script == upload_script(body),
                i <= count,
                extends(t0, self.transfers()),
                run(script.take(2 + i), 0, since(t0, self.transfers())) == Some(
                    Outcome::Finished,
                ),
            decreases count - i,
        {
            proof {
                assert(16 * i + 16 <= body.len()) by (nonlinear_arith)
                    requires
                        i < count,
                        count == body.len() / 16,
                ;
                assert(script[2 + i] == upload_chunks(body)[i as int]);
            }
            let chunk = &firmware[16 * i..16 * i + 16];
            let r = self.step_write(
                UPLOAD_DATA,
                chunk,
                Ghost(script),
                Ghost(2 + i),
                Ghost(0),
                Ghost(t0),
            );
            if let Err(e) = r {
                return Err(e);
            }
            i = i + 1;
        }
        let mut crc_buf: Vec<u8> = vec![0u8; UploadCrc::SIZE];
        proof {
            assert(script[2 + count] == Step::Read(UploadCrc::ADDR, UploadCrc::SIZE as nat));
        }
        let r2 = self.step_read(
            UploadCrc::ADDR,
            crc_buf.as_mut_slice(),
            Ghost(script),
            Ghost(2 + count),
            Ghost(0),
            Ghost(t0),
        );
        if let Err(e) = r2 {
            return Err(e);
        }
        proof {
            assert(script.take(3 + count) =~= script);
        }
        let UploadCrc(crc) = UploadCrc::from_bytes(crc_buf.as_slice());
        Ok(crc)
    }

    /// Reads the FIFO into `buf`: asks the hub how many bytes are waiting, and
    /// reads that many, or as many as `buf` holds if fewer. Returns the number
    /// of bytes read, which stand at the start of `buf`.
    pub fn read_fifo(&mut self, buf: &mut [u8]) -> (r: Result<usize, IF::Error>)
        ensures
            extends(old(self).transfers(), final(self).transfers()),
            final(buf)@.len() == old(buf)@.len(),
            ({
                let t = since(old(self).transfers(), final(self).transfers());
                let n = fifo_count(t[0].data, old(buf)@.len());
                &&& t.len() >= 1
                &&& t[0] == Transfer::read_of(BytesRemaining::ADDR, t[0].data, t[0].ok)
                &&& t[0].data.len() == BytesRemaining::SIZE
                &&& !t[0].ok ==> t.len() == 1 && r is Err
                &&& t[0].ok && n == 0 ==> t.len() == 1 && r == Ok::<usize, IF::Error>(0)
                &&& t[0].ok && n > 0 ==> {
                    &&& t.len() == 2
                    &&& t[1] == Transfer::read_of(FIFO_DATA, t[1].data, t[1].ok)
                    &&& t[1].data.len() == n
                    &&& (r is Ok <==> t[1].ok)
                    &&& r is Ok ==> final(buf)@ == t[1].data + old(buf)@.skip(n as int)
                }
                &&& r matches Ok(k) ==> k == n
                &&& r is Err ==> final(buf)@ == old(buf)@
            }),
    {
        let ghost t0 = self.transfers();
        let mut rem: Vec<u8> = vec![0u8; BytesRemaining::SIZE];
        let r0 = self.bus_read(BytesRemaining::ADDR, rem.as_mut_slice());
        proof {
            let after = self.transfers();
            assert(since(t0, after) =~= seq![after.last()]);
            assert(after.take(t0.len() as int) =~= t0);
        }
        if let Err(e) = r0 {
            return Err(e);
        }
        let BytesRemaining(remaining) = BytesRemaining::from_bytes(rem.as_slice());
        let end: usize = if (remaining as usize) < buf.len() {
            remaining as usize
        } else {
            buf.len()
        };
        if end == 0 {
            return Ok(0);
        }
        let ghost t1 = self.transfers();
        let mut data: Vec<u8> = vec![0u8; end];
        let r1 = self.bus_read(FIFO_DATA, data.as_mut_slice());
        proof {
            let after = self.transfers();
            assert(since(t0, after) =~= since(t0, t1).push(after.last()));
            assert(after.take(t0.len() as int) =~= t0);
        }
        if let Err(e) = r1 {
            return Err(e);
        }
        let ghost old_buf = buf@;
        let mut k: usize = 0;
        while k < end
            invariant
                k <= end,
                end <= buf@.len(),
                end == data@.len(),
                buf@.len() == old_buf.len(),
                forall|j: int| 0 <= j < k ==> buf@[j] == data@[j],
                forall|j: int| end <= j < buf@.len() ==> buf@[j] == old_buf[j],
            decreases end - k,
        {
            buf[k] = data[k];
            k = k + 1;
        }
        assert(buf@ =~= data@ + old_buf.skip(end as int));
        Ok(end)
    }
}

} // verus!
