//! Devices that share one SPI bus: the error taxonomy and the decisions of a
//! transaction, from asserting chip select to reporting the outcome.
use embedded_hal::spi::ErrorKind;
use vstd::prelude::*;

verus! {

/// embedded-hal's `spi::ErrorKind`, a plain enum of unit variants, declared so
/// that contracts can name its variants.
#[verifier::external_type_specification]
pub struct ExErrorKind(embedded_hal::spi::ErrorKind);

/// Error of a device operation.
#[derive(Copy, Clone, Eq, PartialEq, Debug)]
pub enum DeviceError<BUS, CS> {
    /// An inner SPI bus operation failed.
    Spi(BUS),
    /// Asserting or deasserting CS failed.
    Cs(CS),
}

impl<CS> DeviceError<ErrorKind, CS> {
    /// The generic kind of this error, where a bus error is given by its kind:
    /// a bus error keeps its own kind and a chip-select error is a
    /// chip-select fault.
    pub fn kind(&self) -> (r: ErrorKind)
        ensures
            r == match *self {
                DeviceError::Spi(k) => k,
                DeviceError::Cs(_) => ErrorKind::ChipSelectFault,
            },
    {
        match self {
            DeviceError::Spi(k) => *k,
            DeviceError::Cs(_) => ErrorKind::ChipSelectFault,
        }
    }
}

/// Delay provider for devices whose transactions never hold a delay.
#[derive(Copy, Clone, Eq, PartialEq, Structural, Debug)]
pub struct NoDelay;

/// What one operation of a transaction does on the bus.
#[derive(Copy, Clone, Eq, PartialEq, Structural, Debug)]
pub enum OperationKind {
    /// Read bytes from the bus.
    Read,
    /// Write bytes to the bus.
    Write,
    /// Write bytes while reading into a second buffer.
    Transfer,
    /// Write bytes and read back into the same buffer.
    TransferInPlace,
    /// Wait for some time with chip select held.
    Delay,
}

/// Where a transaction stands.
#[derive(Copy, Clone, Eq, PartialEq, Structural, Debug)]
pub enum Stage {
    /// Chip select is being asserted.
    Selecting,
    /// An operation is running on the bus.
    Transferring,
    /// Chip select is being deasserted.
    Deselecting,
    /// The outcome has been reported.
    Finished,
    /// A delay came up on a device that has no delay provider.
    Misconfigured,
}

/// The next thing a device must do on the hardware.
pub enum Action<BUS, CS> {
    /// Assert the device's chip select line.
    AssertCs,
    /// Run the operation at this index on the bus.
    Run(usize),
    /// Deassert the device's chip select line.
    DeassertCs,
    /// A delay operation on a device built without a delay provider: a
    /// configuration mistake that must end the program.
    Misconfigured,
    /// The transaction is over, with this outcome.
    Finish(Result<(), DeviceError<BUS, CS>>),
}

/// What the hardware reported for the last action.
pub enum Event<BUS, CS> {
    /// Result of asserting chip select.
    CsAsserted(Result<(), CS>),
    /// Result of the operation that ran.
    OperationDone(Result<(), BUS>),
    /// Result of deasserting chip select.
    CsDeasserted(Result<(), CS>),
}

/// The state of one transaction of a device on a shared bus.
pub struct Transaction<BUS, CS> {
    /// The operations of the transaction, in order.
    pub operations: Vec<OperationKind>,
    /// Whether the device has a delay provider.
    pub can_delay: bool,
    /// Where the transaction stands.
    pub stage: Stage,
    /// Index of the operation that runs while transferring.
    pub next: usize,
    /// The bus error that ended the operations early, if any.
    pub pending: Option<DeviceError<BUS, CS>>,
}

impl<BUS, CS> Transaction<BUS, CS> {
    /// A transaction that has just asked for chip select to be asserted.
    pub open spec fn is_start(self) -> bool {
        &&& self.stage == Stage::Selecting
        &&& self.next == 0
        &&& self.pending is None
    }

    /// While an operation runs, its index is one of the transaction's.
    pub open spec fn wf(self) -> bool {
        self.stage == Stage::Transferring ==> self.next < self.operations@.len()
    }

    /// Whether the transaction waits for this kind of event.
    pub open spec fn awaits_spec(self, e: Event<BUS, CS>) -> bool {
        match self.stage {
            Stage::Selecting => e is CsAsserted,
            Stage::Transferring => e is OperationDone,
            Stage::Deselecting => e is CsDeasserted,
            _ => false,
        }
    }

    /// Moves on to the operation at index `i`, or to deselecting once all
    /// operations have run.
    pub open spec fn dispatch(self, i: int) -> (Self, Action<BUS, CS>) {
        if i < self.operations@.len() {
            if self.operations@[i] == OperationKind::Delay && !self.can_delay {
                (Transaction { stage: Stage::Misconfigured, next: i as usize, ..self }, Action::Misconfigured)
            } else {
                (Transaction { stage: Stage::Transferring, next: i as usize, ..self }, Action::Run(i as usize))
            }
        } else {
            (Transaction { stage: Stage::Deselecting, pending: None, ..self }, Action::DeassertCs)
        }
    }

    /// The state and action that follow an event. A failed assert ends the
    /// transaction at once; a failed operation skips the rest and deselects;
    /// on deselecting, an earlier bus error is reported before a chip-select
    /// error.
    pub open spec fn after(self, e: Event<BUS, CS>) -> (Self, Action<BUS, CS>) {
        match e {
            Event::CsAsserted(Ok(())) => self.dispatch(0),
            Event::CsAsserted(Err(c)) => (
                Transaction { stage: Stage::Finished, ..self },
                Action::Finish(Err(DeviceError::Cs(c))),
            ),
            Event::OperationDone(Ok(())) => self.dispatch(self.next + 1),
            Event::OperationDone(Err(b)) => (
                Transaction { stage: Stage::Deselecting, pending: Some(DeviceError::Spi(b)), ..self },
                Action::DeassertCs,
            ),
            Event::CsDeasserted(r) => (
                Transaction { stage: Stage::Finished, pending: None, ..self },
                Action::Finish(
                    match self.pending {
                        Some(err) => Err(err),
                        None => match r {
                            Ok(()) => Ok(()),
                            Err(c) => Err(DeviceError::Cs(c)),
                        },
                    },
                ),
            ),
        }
    }

    /// Starts a transaction over these operations: the first action is to
    /// assert chip select.
    pub fn begin(operations: Vec<OperationKind>, can_delay: bool) -> (r: (
        Transaction<BUS, CS>,
        Action<BUS, CS>,
    ))
        ensures
            r.0.is_start(),
            r.0.wf(),
            r.0.operations == operations,
            r.0.can_delay == can_delay,
            r.1 is AssertCs,
    {
        (Transaction { operations, can_delay, stage: Stage::Selecting, next: 0, pending: None }, Action::AssertCs)
    }

    /// Whether the transaction waits for this kind of event.
    pub fn awaits(&self, e: &Event<BUS, CS>) -> (r: bool)
        ensures
            r == self.awaits_spec(*e),
    {
        match self.stage {
            Stage::Selecting => matches!(e, Event::CsAsserted(_)),
            Stage::Transferring => matches!(e, Event::OperationDone(_)),
            Stage::Deselecting => matches!(e, Event::CsDeasserted(_)),
            _ => false,
        }
    }

    fn dispatch_exec(self, i: usize) -> (r: (Self, Action<BUS, CS>))
        ensures
            r == self.dispatch(i as int),
            r.0.wf(),
    {
        if i < self.operations.len() {
            if self.operations[i] == OperationKind::Delay && !self.can_delay {
                (Transaction { stage: Stage::Misconfigured, next: i, ..self }, Action::Misconfigured)
            } else {
                (Transaction { stage: Stage::Transferring, next: i, ..self }, Action::Run(i))
            }
        } else {
            (Transaction { stage: Stage::Deselecting, pending: None, ..self }, Action::DeassertCs)
        }
    }

    /// Takes the event that the last action produced and returns the new
    /// state with the next action.
    pub fn step(self, e: Event<BUS, CS>) -> (r: (Self, Action<BUS, CS>))
        requires
            self.wf(),
            self.awaits_spec(e),
        ensures
            r == self.after(e),
            r.0.wf(),
    {
        match e {
            Event::CsAsserted(Ok(())) => self.dispatch_exec(0),
            Event::CsAsserted(Err(c)) => (
                Transaction { stage: Stage::Finished, ..self },
                Action::Finish(Err(DeviceError::Cs(c))),
            ),
            Event::OperationDone(Ok(())) => {
                let n = self.operations.len();
                let i = self.next + 1;
                self.dispatch_exec(i)
            },
            Event::OperationDone(Err(b)) => (
                Transaction { stage: Stage::Deselecting, pending: Some(DeviceError::Spi(b)), ..self },
                Action::DeassertCs,
            ),
            Event::CsDeasserted(r) => {
                let outcome = match self.pending {
                    Some(err) => Err(err),
                    None => match r {
                        Ok(()) => Ok(()),
                        Err(c) => Err(DeviceError::Cs(c)),
                    },
                };
                (Transaction { stage: Stage::Finished, pending: None, ..self }, Action::Finish(outcome))
            },
        }
    }
}


/// The event that hardware reports for an action, where the operations give
/// the results `bus` and asserting and deasserting chip select give `select`
/// and `deselect`.
pub open spec fn response<BUS, CS>(
    a: Action<BUS, CS>,
    bus: Seq<Result<(), BUS>>,
    select: Result<(), CS>,
    deselect: Result<(), CS>,
) -> Event<BUS, CS> {
    match a {
        Action::AssertCs => Event::CsAsserted(select),
        Action::Run(i) => Event::OperationDone(bus[i as int]),
        _ => Event::CsDeasserted(deselect),
    }
}

/// The actions that a transaction in state `t`, about to perform `a`, goes
/// through against such hardware, for at most `fuel` more steps.
pub open spec fn actions<BUS, CS>(
    t: Transaction<BUS, CS>,
    a: Action<BUS, CS>,
    bus: Seq<Result<(), BUS>>,
    select: Result<(), CS>,
    deselect: Result<(), CS>,
    fuel: nat,
) -> Seq<Action<BUS, CS>>
    decreases fuel,
{
    if fuel == 0 || a is Finish || a is Misconfigured {
        seq![a]
    } else {
        let (t2, a2) = t.after(response(a, bus, select, deselect));
        seq![a] + actions(t2, a2, bus, select, deselect, (fuel - 1) as nat)
    }
}

proof fn lemma_actions_from<BUS, CS>(
    t: Transaction<BUS, CS>,
    bus: Seq<Result<(), BUS>>,
    k: int,
    i: int,
    deselect: Result<(), CS>,
    fuel: nat,
)
    requires
        t.stage == Stage::Transferring,
        t.next == i,
        0 <= i <= k < bus.len() <= usize::MAX,
        bus.len() == t.operations@.len(),
        forall|j: int| 0 <= j < k ==> bus[j] is Ok,
        bus[k] is Err,
        forall|j: int| 0 <= j <= k ==> t.can_delay || t.operations@[j] != OperationKind::Delay,
        fuel >= k - i + 2,
    ensures
        actions(t, Action::Run(i as usize), bus, Ok(()), deselect, fuel) =~= Seq::new(
            (k - i + 1) as nat,
            |j: int| Action::<BUS, CS>::Run((i + j) as usize),
        ) + seq![Action::DeassertCs, Action::Finish(Err(DeviceError::Spi(bus[k]->Err_0)))],
    decreases k - i,
{
    let select: Result<(), CS> = Ok(());
    let (t2, a2) = t.after(response(Action::Run(i as usize), bus, select, deselect));
    if i == k {
        let (t3, a3) = t2.after(response(a2, bus, select, deselect));
        assert(actions(t3, a3, bus, select, deselect, (fuel - 2) as nat) == seq![a3]);
        assert(actions(t2, a2, bus, select, deselect, (fuel - 1) as nat) =~= seq![a2, a3]);
    } else {
        lemma_actions_from(t2, bus, k, i + 1, deselect, (fuel - 1) as nat);
    }
}

/// When operation `k` of a transaction is the first to fail, operations `0`
/// to `k` run in order, no later operation runs, chip select is deasserted
/// exactly once after the failing operation, and the bus error is reported,
/// whatever deasserting gave.
pub proof fn lemma_first_failure_deselects_once<BUS, CS>(
    t: Transaction<BUS, CS>,
    bus: Seq<Result<(), BUS>>,
    k: int,
    deselect: Result<(), CS>,
)
    requires
        t.is_start(),
        bus.len() == t.operations@.len() <= usize::MAX,
        0 <= k < bus.len(),
        forall|i: int| 0 <= i < k ==> bus[i] is Ok,
        bus[k] is Err,
        forall|i: int| 0 <= i <= k ==> t.can_delay || t.operations@[i] != OperationKind::Delay,
    ensures
        actions(t, Action::AssertCs, bus, Ok(()), deselect, (bus.len() + 3) as nat) =~= seq![
            Action::AssertCs,
        ] + Seq::new((k + 1) as nat, |i: int| Action::<BUS, CS>::Run(i as usize)) + seq![
            Action::DeassertCs,
            Action::Finish(Err(DeviceError::Spi(bus[k]->Err_0))),
        ],
{
    let select: Result<(), CS> = Ok(());
    let (t2, a2) = t.after(response(Action::AssertCs, bus, select, deselect));
    lemma_actions_from(t2, bus, k, 0, deselect, (bus.len() + 2) as nat);
}

} // verus!
