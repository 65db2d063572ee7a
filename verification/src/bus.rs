//! Bus exchanges: the drivers in this crate never touch a bus themselves.
//!
//! A driver operation is split in three: the driver plans an [`Exchange`]
//! (the exact sequence of bus writes, reads, delays and reset-pin levels the
//! operation needs), the caller performs each step on its hardware and reports
//! how it went, and the driver turns the finished exchange into the
//! operation's result. The exchange decides when the work stops: after the
//! first failed step nothing more is asked of the caller.
use vstd::prelude::*;

verus! {

/// One bus step, as the specifications see it.
pub enum Step {
    /// Write these bytes to the 7-bit address.
    Write(u8, Seq<u8>),
    /// Read this many bytes from the 7-bit address.
    Read(u8, nat),
    /// Wait this many milliseconds.
    DelayMs(u32),
    /// Wait this many microseconds.
    DelayUs(u32),
    /// Drive the hardware reset pin high (`true`) or low (`false`).
    ResetPin(bool),
}

/// One bus step that the caller performs.
#[derive(Debug, Clone, PartialEq, Eq)]
pub enum BusOp {
    /// Write `bytes` to the 7-bit `address` in one bus transaction.
    Write { address: u8, bytes: Vec<u8> },
    /// Read exactly `len` bytes from the 7-bit `address` in one bus transaction.
    Read { address: u8, len: usize },
    /// Wait `ms` milliseconds.
    DelayMs { ms: u32 },
    /// Wait `us` microseconds.
    DelayUs { us: u32 },
    /// Drive the hardware reset pin to the given level.
    SetResetPin { high: bool },
}

impl View for BusOp {
    type V = Step;

    open spec fn view(&self) -> Step {
        match self {
            BusOp::Write { address, bytes } => Step::Write(*address, bytes@),
            BusOp::Read { address, len } => Step::Read(*address, *len as nat),
            BusOp::DelayMs { ms } => Step::DelayMs(*ms),
            BusOp::DelayUs { us } => Step::DelayUs(*us),
            BusOp::SetResetPin { high } => Step::ResetPin(*high),
        }
    }
}

/// The steps that a sequence of operations stands for.
pub open spec fn steps_of(ops: Seq<BusOp>) -> Seq<Step> {
    Seq::new(ops.len(), |i: int| ops[i]@)
}

/// Number of bytes that one step reads.
pub open spec fn step_reply_len(step: Step) -> nat {
    match step {
        Step::Read(_, len) => len,
        _ => 0,
    }
}

/// Number of bytes read by the first `n` steps.
pub open spec fn reply_len(steps: Seq<Step>, n: int) -> nat
    decreases n,
{
    if n <= 0 {
        0
    } else {
        reply_len(steps, n - 1) + step_reply_len(steps[n - 1])
    }
}

/// Mirror of the I2C error kinds of `embedded-hal` 1.0, as the drivers read them.
#[derive(Debug, Copy, Clone, PartialEq, Eq)]
pub enum ErrorKind {
    /// Bus error, such as a misplaced start or stop condition.
    Bus,
    /// The bus was lost to another controller.
    ArbitrationLoss,
    /// A byte or the address was not acknowledged.
    NoAcknowledge(NoAcknowledgeSource),
    /// The peripheral could not keep up.
    Overrun,
    /// Any other error.
    Other,
}

/// Which part of a transfer was not acknowledged.
#[derive(Debug, Copy, Clone, PartialEq, Eq)]
pub enum NoAcknowledgeSource {
    /// The address was not acknowledged.
    Address,
    /// A data byte was not acknowledged.
    Data,
    /// The controller cannot tell.
    Unknown,
}

/// An I2C error reported by the caller, with its kind.
#[derive(Debug, Copy, Clone, PartialEq, Eq)]
pub struct I2cFailure<E> {
    /// The bus implementation's own error value.
    pub error: E,
    /// What kind of error it is.
    pub kind: ErrorKind,
}

/// How a finished exchange ended.
#[derive(Debug)]
pub enum Outcome<F> {
    /// Every step succeeded; the bytes of all reads, in order.
    Completed(Vec<u8>),
    /// Step `step` failed with `fault`; `reading` tells whether it was a read.
    Failed { step: usize, reading: bool, fault: F },
}

/// A planned sequence of bus steps and how far it has got.
#[derive(Debug)]
pub struct Exchange<F> {
    ops: Vec<BusOp>,
    position: usize,
    reply: Vec<u8>,
    reply_capacity: usize,
    fault: Option<F>,
}

impl<F> Exchange<F> {
    #[verifier::type_invariant]
    spec fn inv(self) -> bool {
        &&& self.position <= self.ops@.len()
        &&& self.fault is Some ==> self.position < self.ops@.len()
        &&& self.reply@.len() == reply_len(steps_of(self.ops@), self.position as int)
        &&& self.reply_capacity == reply_len(steps_of(self.ops@), self.ops@.len() as int)
    }

    /// The planned steps.
    pub closed spec fn steps(&self) -> Seq<Step> {
        steps_of(self.ops@)
    }

    /// Number of steps performed successfully so far.
    pub closed spec fn position(&self) -> nat {
        self.position as nat
    }

    /// The bytes read so far, in order.
    pub closed spec fn reply(&self) -> Seq<u8> {
        self.reply@
    }

    /// The failure reported for the step at `position`, if any.
    pub closed spec fn fault(&self) -> Option<F> {
        self.fault
    }

    /// No step is left to perform: every step succeeded or one failed.
    pub open spec fn done(&self) -> bool {
        self.fault() is Some || self.position() == self.steps().len()
    }

    /// Number of bytes the whole plan reads.
    pub open spec fn expected_reply_len(&self) -> nat {
        reply_len(self.steps(), self.steps().len() as int)
    }

    /// An exchange with no steps.
    fn empty() -> (r: Self)
        ensures
            r.steps() == Seq::<Step>::empty(),
            r.position() == 0,
            r.fault() is None,
    {
        let r = Exchange { ops: Vec::new(), position: 0, reply: Vec::new(), reply_capacity: 0, fault: None };
        assert(steps_of(r.ops@) =~= Seq::<Step>::empty());
        r
    }

    /// Starts an exchange over steps that read nothing.
    pub(crate) fn without_reads(ops: Vec<BusOp>) -> (r: Self)
        requires
            no_reads(steps_of(ops@)),
        ensures
            r.steps() == steps_of(ops@),
            r.position() == 0,
            r.reply() == Seq::<u8>::empty(),
            r.fault() is None,
            r.expected_reply_len() == 0,
    {
        proof {
            lemma_no_reads_reply_len(steps_of(ops@), ops@.len() as int);
        }
        Exchange::new(ops)
    }

    /// Starts an exchange over the given steps.
    pub(crate) fn new(ops: Vec<BusOp>) -> (r: Self)
        requires
            reply_len(steps_of(ops@), ops@.len() as int) <= usize::MAX,
        ensures
            r.steps() == steps_of(ops@),
            r.position() == 0,
            r.reply() == Seq::<u8>::empty(),
            r.fault() is None,
    {
        let mut capacity: usize = 0;
        let mut i: usize = 0;
        while i < ops.len()
            invariant
                i <= ops@.len(),
                capacity == reply_len(steps_of(ops@), i as int),
                reply_len(steps_of(ops@), ops@.len() as int) <= usize::MAX,
            decreases ops@.len() - i,
        {
            proof {
                lemma_reply_len_monotonic(steps_of(ops@), i as int + 1, ops@.len() as int);
            }
            match &ops[i] {
                BusOp::Read { len, .. } => {
                    capacity = capacity + *len;
                },
                _ => {},
            }
            i = i + 1;
        }
        Exchange { ops, position: 0, reply: Vec::new(), reply_capacity: capacity, fault: None }
    }

    /// The next step to perform, or `None` when the exchange is done.
    pub fn next_op(&self) -> (r: Option<&BusOp>)
        ensures
            self.done() ==> r is None,
            !self.done() ==> (r matches Some(op) && op@ == self.steps()[self.position() as int]),
    {
        proof {
            use_type_invariant(self);
        }
        if self.fault.is_some() || self.position == self.ops.len() {
            None
        } else {
            Some(&self.ops[self.position])
        }
    }

    /// Whether no step is left to perform.
    pub fn is_done(&self) -> (r: bool)
        ensures
            r == self.done(),
    {
        proof {
            use_type_invariant(self);
        }
        self.fault.is_some() || self.position == self.ops.len()
    }

    /// Whether a step failed.
    pub fn has_failed(&self) -> (r: bool)
        ensures
            r == self.fault() is Some,
    {
        self.fault.is_some()
    }

    /// Number of bytes the whole plan reads.
    pub fn reply_capacity(&self) -> (r: usize)
        ensures
            r == self.expected_reply_len(),
    {
        proof {
            use_type_invariant(self);
        }
        self.reply_capacity
    }

    /// Reports that the current write, delay or reset-pin step succeeded.
    pub fn succeed(&mut self)
        requires
            !old(self).done(),
            !(old(self).steps()[old(self).position() as int] is Read),
        ensures
            final(self).steps() == old(self).steps(),
            final(self).position() == old(self).position() + 1,
            final(self).reply() == old(self).reply(),
            final(self).fault() is None,
    {
        proof {
            use_type_invariant(&*self);
            assert(steps_of(self.ops@).len() == self.ops@.len());
            assert(self.position < self.ops@.len());
        }
        let len = self.ops.len();
        assert(self.position < len);
        self.position = self.position + 1;
    }

    /// Reports the bytes that the current read step returned.
    pub fn succeed_read(&mut self, data: Vec<u8>)
        requires
            !old(self).done(),
            old(self).steps()[old(self).position() as int] matches Step::Read(_, len) && data@.len()
                == len,
        ensures
            final(self).steps() == old(self).steps(),
            final(self).position() == old(self).position() + 1,
            final(self).reply() == old(self).reply() + data@,
            final(self).fault() is None,
    {
        proof {
            use_type_invariant(&*self);
            assert(steps_of(self.ops@).len() == self.ops@.len());
            lemma_reply_len_monotonic(steps_of(self.ops@), self.position as int + 1, self.ops@.len() as int);
        }
        let len = self.ops.len();
        assert(self.position < len);
        let mut previous = Exchange::empty();
        core::mem::swap(self, &mut previous);
        let Exchange { ops, position, reply, reply_capacity, fault } = previous;
        let mut reply = reply;
        let mut data = data;
        reply.append(&mut data);
        *self = Exchange { ops, position: position + 1, reply, reply_capacity, fault };
    }

    /// Reports that the current step failed; the exchange is then done.
    pub fn fail(&mut self, fault: F)
        requires
            !old(self).done(),
        ensures
            final(self).steps() == old(self).steps(),
            final(self).position() == old(self).position(),
            final(self).reply() == old(self).reply(),
            final(self).fault() == Some(fault),
    {
        proof {
            use_type_invariant(&*self);
        }
        self.fault = Some(fault);
    }

    /// How the exchange ended.
    pub fn into_outcome(self) -> (r: Outcome<F>)
        requires
            self.done(),
        ensures
            (r is Completed) <==> self.fault() is None,
            r matches Outcome::Completed(data) ==> data@ == self.reply() && data@.len()
                == self.expected_reply_len(),
            r matches Outcome::Failed { step, reading, fault } ==> self.fault() == Some(fault)
                && step == self.position() && reading == (self.steps()[step as int] is Read),
    {
        proof {
            use_type_invariant(&self);
        }
        let Exchange { ops, position, reply, reply_capacity, fault } = self;
        match fault {
            None => Outcome::Completed(reply),
            Some(fault) => {
                let reading = match &ops[position] {
                    BusOp::Read { .. } => true,
                    _ => false,
                };
                Outcome::Failed { step: position, reading, fault }
            },
        }
    }
}

/// None of the steps is a read.
pub open spec fn no_reads(steps: Seq<Step>) -> bool {
    forall|i: int| 0 <= i < steps.len() ==> !(#[trigger] steps[i] is Read)
}

/// Steps without reads read no bytes.
pub proof fn lemma_no_reads_reply_len(steps: Seq<Step>, n: int)
    requires
        no_reads(steps),
        n <= steps.len(),
    ensures
        reply_len(steps, n) == 0,
    decreases n,
{
    if n > 0 {
        lemma_no_reads_reply_len(steps, n - 1);
        assert(!(steps[n - 1] is Read));
    }
}

/// Reading more steps never reads fewer bytes.
pub proof fn lemma_reply_len_monotonic(steps: Seq<Step>, m: int, n: int)
    requires
        0 <= m <= n,
    ensures
        reply_len(steps, m) <= reply_len(steps, n),
    decreases n - m,
{
    if m < n {
        lemma_reply_len_monotonic(steps, m, n - 1);
    }
}

/// Every write and every read of the steps goes to `address`.
pub open spec fn addressed_to(steps: Seq<Step>, address: u8) -> bool {
    forall|i: int|
        0 <= i < steps.len() ==> match #[trigger] steps[i] {
            Step::Write(a, _) => a == address,
            Step::Read(a, _) => a == address,
            _ => true,
        }
}

/// Steps that all go to one address still do after appending more such steps.
pub proof fn lemma_addressed_to_append(a: Seq<Step>, b: Seq<Step>, address: u8)
    requires
        addressed_to(a, address),
        addressed_to(b, address),
    ensures
        addressed_to(a + b, address),
{
    assert forall|i: int| 0 <= i < (a + b).len() implies match #[trigger] (a + b)[i] {
        Step::Write(x, _) => x == address,
        Step::Read(x, _) => x == address,
        _ => true,
    } by {
        if i < a.len() {
            assert((a + b)[i] == a[i]);
        } else {
            assert((a + b)[i] == b[i - a.len()]);
        }
    }
}

} // verus!
