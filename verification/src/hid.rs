//! The HID brightness channel: feature reports and the order of a transfer.

use vstd::prelude::*;

verus! {

/// Length of a feature report, in bytes.
pub const REPORT_LEN: usize = 8;

/// Offset of the brightness level within a report.
pub const LEVEL_OFFSET: usize = 4;

/// Command byte of a report that asks for the current effect.
pub const CMD_GET_EFFECT: u8 = 0x88;

/// Command byte of a report that sets the effect.
pub const CMD_SET_EFFECT: u8 = 0x08;

/// Attribute byte: the report is about brightness.
pub const ATTR_BRIGHTNESS: u8 = 0x02;

/// Identifier of the effect the reports are about.
pub const EFFECT_ID: u8 = 0x33;

/// Number of the interface that carries the reports.
pub const INTERFACE: u8 = 1;

/// Control request that sends a report to the device (HID SET_REPORT).
pub const HID_SET_REPORT: u8 = 0x09;

/// Control request that fetches a report from the device (HID GET_REPORT).
pub const HID_GET_REPORT: u8 = 0x01;

/// Control value that selects a feature report.
pub const FEATURE_REPORT: u16 = 0x0300;

/// Control index: the interface the request is addressed to.
pub const INTERFACE_INDEX: u16 = 0x0001;

/// Time allowed for one control transfer, in milliseconds.
pub const TRANSFER_TIMEOUT_MS: u64 = 1000;

/// The report that asks the controller for its level.
pub open spec fn get_report_bytes() -> Seq<u8> {
    seq![CMD_GET_EFFECT, ATTR_BRIGHTNESS, EFFECT_ID, 0u8, 0u8, 0u8, 0u8, 0u8]
}

/// The report that sets the controller's level to `level`.
pub open spec fn set_report_bytes(level: u8) -> Seq<u8> {
    seq![CMD_SET_EFFECT, ATTR_BRIGHTNESS, EFFECT_ID, 0u8, level, 0u8, 0u8, 0u8]
}

/// The level that a report carries.
pub open spec fn report_level(report: Seq<u8>) -> u8 {
    report[LEVEL_OFFSET as int]
}

/// Builds the report that asks the controller for its level.
pub fn get_report() -> (report: [u8; 8])
    ensures
        report@ == get_report_bytes(),
{
    let report: [u8; 8] = [CMD_GET_EFFECT, ATTR_BRIGHTNESS, EFFECT_ID, 0, 0, 0, 0, 0];
    assert(report@ =~= get_report_bytes());
    report
}

/// Builds the report that sets the controller's level to `level`.
pub fn set_report(level: u8) -> (report: [u8; 8])
    ensures
        report@ == set_report_bytes(level),
        report_level(report@) == level,
{
    let report: [u8; 8] = [CMD_SET_EFFECT, ATTR_BRIGHTNESS, EFFECT_ID, 0, level, 0, 0, 0];
    assert(report@ =~= set_report_bytes(level));
    report
}

/// Reads the level out of a report that the controller sent.
pub fn level_in(report: &[u8; 8]) -> (level: u8)
    ensures
        level == report_level(report@),
{
    report[LEVEL_OFFSET]
}

/// The parameters of one class request addressed to the interface.
#[derive(Clone, Copy, Debug, PartialEq, Eq, Structural)]
pub struct ControlSetup {
    /// The request code.
    pub request: u8,
    /// The request's value field.
    pub value: u16,
    /// The request's index field.
    pub index: u16,
    /// Time allowed for the transfer, in milliseconds.
    pub timeout_ms: u64,
}

impl ControlSetup {
    /// The parameters for sending a feature report to the device.
    pub open spec fn sending() -> ControlSetup {
        ControlSetup {
            request: HID_SET_REPORT,
            value: FEATURE_REPORT,
            index: INTERFACE_INDEX,
            timeout_ms: TRANSFER_TIMEOUT_MS,
        }
    }

    /// The parameters for fetching a feature report from the device.
    pub open spec fn receiving() -> ControlSetup {
        ControlSetup {
            request: HID_GET_REPORT,
            value: FEATURE_REPORT,
            index: INTERFACE_INDEX,
            timeout_ms: TRANSFER_TIMEOUT_MS,
        }
    }

    /// The parameters for sending a feature report to the device.
    pub fn for_send() -> (setup: ControlSetup)
        ensures
            setup == Self::sending(),
    {
        ControlSetup {
            request: HID_SET_REPORT,
            value: FEATURE_REPORT,
            index: INTERFACE_INDEX,
            timeout_ms: TRANSFER_TIMEOUT_MS,
        }
    }

    /// The parameters for fetching a feature report from the device.
    pub fn for_receive() -> (setup: ControlSetup)
        ensures
            setup == Self::receiving(),
    {
        ControlSetup {
            request: HID_GET_REPORT,
            value: FEATURE_REPORT,
            index: INTERFACE_INDEX,
            timeout_ms: TRANSFER_TIMEOUT_MS,
        }
    }
}

/// What a transaction is for.
#[derive(Clone, Copy, Debug, PartialEq, Eq, Structural)]
pub enum HidRequest {
    /// Ask the controller for its level.
    ReadLevel,
    /// Set the controller's level.
    WriteLevel(u8),
}

/// Why a transaction did not do what it was for.
#[derive(Clone, Copy, Debug, PartialEq, Eq, Structural)]
pub enum HidError {
    /// The interface could not be claimed.
    ClaimFailed,
    /// The report could not be sent.
    SendFailed,
    /// The response could not be fetched.
    ReceiveFailed,
}

/// Where a transaction stands: the step that is to be performed next.
#[derive(Clone, Copy, Debug, PartialEq, Eq, Structural)]
pub enum Stage {
    /// Ask whether a kernel driver is bound to the interface.
    QueryDriver,
    /// Detach the kernel driver.
    DetachDriver,
    /// Claim the interface.
    Claim,
    /// Send the report.
    Send,
    /// Fetch the response.
    Receive,
    /// Give the interface back.
    Release,
    /// Attach the kernel driver again.
    AttachDriver,
    /// Nothing is left to do.
    Done,
}

/// What the caller has to do to the device next.
#[derive(Clone, Copy, Debug, PartialEq, Eq)]
pub enum HidAction {
    /// Ask whether a kernel driver is bound to `INTERFACE`.
    QueryDriver,
    /// Detach the kernel driver from `INTERFACE`.
    DetachDriver,
    /// Claim `INTERFACE`.
    ClaimInterface,
    /// Send `report` in a control transfer with the parameters of `setup`.
    SendReport { setup: ControlSetup, report: [u8; 8] },
    /// Fetch a report into `buffer` in a control transfer with the
    /// parameters of `setup`.
    ReceiveReport { setup: ControlSetup, buffer: [u8; 8] },
    /// Release `INTERFACE`.
    ReleaseInterface,
    /// Attach the kernel driver to `INTERFACE` again.
    AttachDriver,
    /// The transaction is over; its outcome can be collected.
    Finish,
}

/// How the device answered the last action.
#[derive(Clone, Copy, Debug, PartialEq, Eq)]
pub enum HidReply {
    /// The answer to `QueryDriver`: whether a kernel driver is bound.
    DriverActive(bool),
    /// The action succeeded and there is nothing more to tell.
    Done,
    /// The fetch succeeded; this is the buffer after it.
    Report([u8; 8]),
    /// The action failed.
    Failed,
}

/// One exchange with the controller, from the first question about the
/// kernel driver to the moment the interface is back in the state it was
/// found in.
#[derive(Clone, Copy, Debug, PartialEq, Eq, Structural)]
pub struct HidTransaction {
    /// What the transaction is for.
    pub request: HidRequest,
    /// The step that comes next.
    pub stage: Stage,
    /// The kernel driver was detached and is not attached again yet.
    pub detached: bool,
    /// What went wrong, if anything did.
    pub failure: Option<HidError>,
    /// The level the transaction carries: the one to write, or the one that
    /// was read once the response is in.
    pub level: u8,
}

impl HidReply {
    /// Whether the reply reports plain success.
    pub open spec fn is_done(self) -> bool {
        self is Done
    }

    /// Whether the reply says that a kernel driver is bound.
    pub open spec fn driver_is_active(self) -> bool {
        self matches HidReply::DriverActive(active) && active
    }
}

impl HidTransaction {
    /// A transaction that has not taken its first step.
    pub open spec fn begun(request: HidRequest) -> HidTransaction {
        HidTransaction {
            request,
            stage: Stage::QueryDriver,
            detached: false,
            failure: None,
            level: match request {
                HidRequest::ReadLevel => 0,
                HidRequest::WriteLevel(level) => level,
            },
        }
    }

    /// What every transaction reached from `begun` satisfies: the driver
    /// counts as detached only between its detachment and the end, the
    /// driver is attached again only if it was detached, a write carries
    /// the level it was begun with and fetches nothing, and after a failure
    /// nothing is left but to wind down.
    pub open spec fn wf(self) -> bool {
        &&& self.detached ==> self.stage != Stage::QueryDriver && self.stage != Stage::DetachDriver
            && self.stage != Stage::Done
        &&& self.stage == Stage::AttachDriver ==> self.detached
        &&& self.request matches HidRequest::WriteLevel(level) ==> self.level == level
        &&& self.stage == Stage::Receive ==> self.request == HidRequest::ReadLevel
        &&& self.failure is Some ==> self.stage == Stage::Release || self.stage
            == Stage::AttachDriver || self.stage == Stage::Done
    }

    /// Whether the interface is claimed at this stage.
    pub open spec fn holds_interface(self) -> bool {
        self.stage == Stage::Send || self.stage == Stage::Receive || self.stage == Stage::Release
    }

    /// The stage that follows once the interface is not, or no longer, held.
    pub open spec fn wind_down(self) -> Stage {
        if self.detached {
            Stage::AttachDriver
        } else {
            Stage::Done
        }
    }

    /// The report that the transaction sends.
    pub open spec fn outgoing(self) -> Seq<u8> {
        match self.request {
            HidRequest::ReadLevel => get_report_bytes(),
            HidRequest::WriteLevel(level) => set_report_bytes(level),
        }
    }

    /// Whether `action` is what the transaction asks for at its stage.
    pub open spec fn asks_for(self, action: HidAction) -> bool {
        match self.stage {
            Stage::QueryDriver => action is QueryDriver,
            Stage::DetachDriver => action is DetachDriver,
            Stage::Claim => action is ClaimInterface,
            Stage::Send => action matches HidAction::SendReport { setup, report }
                && setup == ControlSetup::sending() && report@ == self.outgoing(),
            Stage::Receive => action matches HidAction::ReceiveReport { setup, buffer }
                && setup == ControlSetup::receiving() && buffer@ == get_report_bytes(),
            Stage::Release => action is ReleaseInterface,
            Stage::AttachDriver => action is AttachDriver,
            Stage::Done => action is Finish,
        }
    }

    /// The transaction after the device answered the action of its stage
    /// with `reply`. A reply of a kind that the action does not give
    /// counts as a failure.
    pub open spec fn after_reply(self, reply: HidReply) -> HidTransaction {
        match self.stage {
            Stage::QueryDriver => HidTransaction {
                stage: if reply.driver_is_active() {
                    Stage::DetachDriver
                } else {
                    Stage::Claim
                },
                ..self
            },
            Stage::DetachDriver => HidTransaction {
                stage: Stage::Claim,
                detached: reply.is_done(),
                ..self
            },
            Stage::Claim => if reply.is_done() {
                HidTransaction { stage: Stage::Send, ..self }
            } else {
                HidTransaction {
                    stage: self.wind_down(),
                    failure: Some(HidError::ClaimFailed),
                    ..self
                }
            },
            Stage::Send => if !reply.is_done() {
                HidTransaction { stage: Stage::Release, failure: Some(HidError::SendFailed), ..self }
            } else if self.request == HidRequest::ReadLevel {
                HidTransaction { stage: Stage::Receive, ..self }
            } else {
                HidTransaction { stage: Stage::Release, ..self }
            },
            Stage::Receive => match reply {
                HidReply::Report(report) => HidTransaction {
                    stage: Stage::Release,
                    level: report_level(report@),
                    ..self
                },
                _ => HidTransaction {
                    stage: Stage::Release,
                    failure: Some(HidError::ReceiveFailed),
                    ..self
                },
            },
            Stage::Release => HidTransaction { stage: self.wind_down(), ..self },
            Stage::AttachDriver => HidTransaction { stage: Stage::Done, detached: false, ..self },
            Stage::Done => self,
        }
    }

    /// The outcome of the transaction: none before it is over, then the
    /// failure if there was one, else the level read or written.
    pub open spec fn outcome_of(self) -> Option<Result<u8, HidError>> {
        if self.stage != Stage::Done {
            None
        } else {
            match self.failure {
                Some(e) => Some(Err(e)),
                None => Some(Ok(self.level)),
            }
        }
    }

    /// The number of actions that are left at most.
    pub open spec fn steps_left(self) -> nat {
        match self.stage {
            Stage::QueryDriver => 7,
            Stage::DetachDriver => 6,
            Stage::Claim => 5,
            Stage::Send => 4,
            Stage::Receive => 3,
            Stage::Release => 2,
            Stage::AttachDriver => 1,
            Stage::Done => 0,
        }
    }

    /// Begins a transaction for `request`. Its first action is to ask about
    /// the kernel driver.
    pub fn begin(request: HidRequest) -> (txn: HidTransaction)
        ensures
            txn == Self::begun(request),
            txn.wf(),
            txn.stage == Stage::QueryDriver,
    {
        let level = match request {
            HidRequest::ReadLevel => 0,
            HidRequest::WriteLevel(level) => level,
        };
        HidTransaction { request, stage: Stage::QueryDriver, detached: false, failure: None, level }
    }

    /// What the caller has to do to the device next.
    pub fn action(&self) -> (action: HidAction)
        ensures
            self.asks_for(action),
            action is Finish <==> self.stage == Stage::Done,
    {
        match self.stage {
            Stage::QueryDriver => HidAction::QueryDriver,
            Stage::DetachDriver => HidAction::DetachDriver,
            Stage::Claim => HidAction::ClaimInterface,
            Stage::Send => {
                let report = match self.request {
                    HidRequest::ReadLevel => get_report(),
                    HidRequest::WriteLevel(level) => set_report(level),
                };
                HidAction::SendReport { setup: ControlSetup::for_send(), report }
            },
            Stage::Receive => HidAction::ReceiveReport {
                setup: ControlSetup::for_receive(),
                buffer: get_report(),
            },
            Stage::Release => HidAction::ReleaseInterface,
            Stage::AttachDriver => HidAction::AttachDriver,
            Stage::Done => HidAction::Finish,
        }
    }

    /// Moves on after the device answered the last action with `reply`.
    ///
    /// A failed question about the driver, or a failed detachment, lets the
    /// transaction go on to the claim without a driver to attach again. A
    /// failed claim ends the exchange; a failed transfer skips what is left
    /// of it. Whenever the interface was claimed it is released, and
    /// whenever the driver was detached it is attached again afterwards,
    /// whatever went wrong in between. Replies to the release and to the
    /// attachment do not change the course.
    pub fn advance(&mut self, reply: HidReply)
        ensures
            *final(self) == old(self).after_reply(reply),
            old(self).wf() ==> final(self).wf(),
            final(self).request == old(self).request,
            old(self).stage != Stage::Done ==> final(self).steps_left() < old(self).steps_left(),
            old(self).wf() && old(self).failure is Some ==> final(self).failure == old(self).failure,
    {
        let done = match reply {
            HidReply::Done => true,
            _ => false,
        };
        let wind_down = if self.detached {
            Stage::AttachDriver
        } else {
            Stage::Done
        };
        match self.stage {
            Stage::QueryDriver => {
                self.stage = match reply {
                    HidReply::DriverActive(true) => Stage::DetachDriver,
                    _ => Stage::Claim,
                };
            },
            Stage::DetachDriver => {
                self.detached = done;
                self.stage = Stage::Claim;
            },
            Stage::Claim => {
                if done {
                    self.stage = Stage::Send;
                } else {
                    self.failure = Some(HidError::ClaimFailed);
                    self.stage = wind_down;
                }
            },
            Stage::Send => {
                if !done {
                    self.failure = Some(HidError::SendFailed);
                    self.stage = Stage::Release;
                } else {
                    self.stage = match self.request {
                        HidRequest::ReadLevel => Stage::Receive,
                        HidRequest::WriteLevel(_) => Stage::Release,
                    };
                }
            },
            Stage::Receive => {
                match reply {
                    HidReply::Report(report) => {
                        self.level = level_in(&report);
                    },
                    _ => {
                        self.failure = Some(HidError::ReceiveFailed);
                    },
                }
                self.stage = Stage::Release;
            },
            Stage::Release => {
                self.stage = wind_down;
            },
            Stage::AttachDriver => {
                self.detached = false;
                self.stage = Stage::Done;
            },
            Stage::Done => {},
        }
    }

    /// Whether nothing is left to do.
    pub fn is_finished(&self) -> (finished: bool)
        ensures
            finished == (self.stage == Stage::Done),
    {
        match self.stage {
            Stage::Done => true,
            _ => false,
        }
    }

    /// The outcome, once the transaction is over: the failure if there was
    /// one, else the level that was read or written.
    pub fn outcome(&self) -> (outcome: Option<Result<u8, HidError>>)
        ensures
            outcome == self.outcome_of(),
            outcome is Some <==> self.stage == Stage::Done,
    {
        match self.stage {
            Stage::Done => match self.failure {
                Some(e) => Some(Err(e)),
                None => Some(Ok(self.level)),
            },
            _ => None,
        }
    }
}

/// Who holds the interface on the device's side: a model of what the
/// actions of a transaction do to the device.
pub struct Ownership {
    /// A kernel driver is bound to the interface.
    pub driver_attached: bool,
    /// The interface is claimed by this process.
    pub claimed: bool,
}

impl Ownership {
    /// The ownership after the action of `stage` was answered with `reply`:
    /// a detachment, a claim, a release or an attachment that succeeded
    /// takes effect, and nothing else changes who holds the interface.
    pub open spec fn after(self, stage: Stage, reply: HidReply) -> Ownership {
        if !reply.is_done() {
            self
        } else {
            match stage {
                Stage::DetachDriver => Ownership { driver_attached: false, ..self },
                Stage::Claim => Ownership { claimed: true, ..self },
                Stage::Release => Ownership { claimed: false, ..self },
                Stage::AttachDriver => Ownership { driver_attached: true, ..self },
                _ => self,
            }
        }
    }
}

impl HidTransaction {
    /// Whether `reply` is an answer that a device in the state `own` gives
    /// when nothing goes wrong while the transaction winds down: what it
    /// says about the kernel driver is true, and the release and the
    /// attachment succeed.
    pub open spec fn fair_reply(self, own: Ownership, reply: HidReply) -> bool {
        match self.stage {
            Stage::QueryDriver => reply matches HidReply::DriverActive(active) ==> active
                == own.driver_attached,
            Stage::Release => reply.is_done(),
            Stage::AttachDriver => reply.is_done(),
            _ => true,
        }
    }

    /// Whether the device's state `own` is what the transaction believes
    /// it to be, `start` being the state the transaction found: the
    /// interface is claimed exactly while the transaction holds it, and the
    /// driver is away exactly while the transaction has it detached.
    pub open spec fn balanced(self, start: Ownership, own: Ownership) -> bool {
        &&& self.wf()
        &&& !start.claimed
        &&& own.claimed == self.holds_interface()
        &&& own.driver_attached == (start.driver_attached && !self.detached)
        &&& (self.detached || self.stage == Stage::DetachDriver) ==> start.driver_attached
    }

    /// The transaction and the device after the replies of `replies` were
    /// fed in, one after the other.
    pub open spec fn run(self, own: Ownership, replies: Seq<HidReply>) -> (
        HidTransaction,
        Ownership,
    )
        decreases replies.len(),
    {
        if replies.len() == 0 {
            (self, own)
        } else {
            self.after_reply(replies[0]).run(
                own.after(self.stage, replies[0]),
                replies.subrange(1, replies.len() as int),
            )
        }
    }

    /// Whether every reply of `replies` is fair at the point it is fed in.
    pub open spec fn fair_run(self, own: Ownership, replies: Seq<HidReply>) -> bool
        decreases replies.len(),
    {
        replies.len() > 0 ==> {
            &&& self.fair_reply(own, replies[0])
            &&& self.after_reply(replies[0]).fair_run(
                own.after(self.stage, replies[0]),
                replies.subrange(1, replies.len() as int),
            )
        }
    }
}

/// Every transaction reached from `begun` is well-formed.
pub proof fn lemma_wf_is_invariant(request: HidRequest, txn: HidTransaction, reply: HidReply)
    requires
        txn.wf(),
    ensures
        HidTransaction::begun(request).wf(),
        txn.after_reply(reply).wf(),
{
}

/// Every reply brings a transaction that is not over closer to its end:
/// no transaction takes more than seven actions.
pub proof fn lemma_transaction_ends(txn: HidTransaction, reply: HidReply)
    requires
        txn.stage != Stage::Done,
    ensures
        txn.after_reply(reply).steps_left() < txn.steps_left(),
        txn.steps_left() <= 7,
        txn.steps_left() == 0 <==> txn.stage == Stage::Done,
{
}

/// One fair step keeps the transaction and the device in balance.
pub proof fn lemma_step_keeps_balance(
    txn: HidTransaction,
    start: Ownership,
    own: Ownership,
    reply: HidReply,
)
    requires
        txn.balanced(start, own),
        txn.fair_reply(own, reply),
    ensures
        txn.after_reply(reply).balanced(start, own.after(txn.stage, reply)),
{
}

/// A transaction leaves the interface as it found it. Begun on an interface
/// that is not claimed, and fed fair replies until it is over, it ends with
/// the interface unclaimed and the kernel driver bound exactly if it was
/// bound before, whether or not the claim and the transfers succeeded.
pub proof fn lemma_ownership_is_restored(
    request: HidRequest,
    start: Ownership,
    replies: Seq<HidReply>,
)
    requires
        !start.claimed,
        HidTransaction::begun(request).fair_run(start, replies),
        HidTransaction::begun(request).run(start, replies).0.stage == Stage::Done,
    ensures
        HidTransaction::begun(request).run(start, replies).1 == start,
{
    lemma_run_keeps_balance(HidTransaction::begun(request), start, start, replies);
}

proof fn lemma_run_keeps_balance(
    txn: HidTransaction,
    start: Ownership,
    own: Ownership,
    replies: Seq<HidReply>,
)
    requires
        txn.balanced(start, own),
        txn.fair_run(own, replies),
    ensures
        txn.run(own, replies).0.balanced(start, txn.run(own, replies).1),
    decreases replies.len(),
{
    if replies.len() > 0 {
        lemma_step_keeps_balance(txn, start, own, replies[0]);
        lemma_run_keeps_balance(
            txn.after_reply(replies[0]),
            start,
            own.after(txn.stage, replies[0]),
            replies.subrange(1, replies.len() as int),
        );
    }
}

/// A level that is written comes back when it is read. The report of a
/// write carries the level; and a read whose response carries the level of
/// that report ends, after the interface is given back, with that level as
/// its outcome.
pub proof fn lemma_level_round_trip(
    level: u8,
    reader: HidTransaction,
    response: [u8; 8],
    release_reply: HidReply,
    attach_reply: HidReply,
)
    requires
        reader.wf(),
        reader.stage == Stage::Receive,
        report_level(response@) == report_level(
            HidTransaction::begun(HidRequest::WriteLevel(level)).outgoing(),
        ),
    ensures
        report_level(set_report_bytes(level)) == level,
        reader.after_reply(HidReply::Report(response)).level == level,
        reader.after_reply(HidReply::Report(response)).after_reply(release_reply).after_reply(
            attach_reply,
        ).outcome_of() == Some(Ok::<u8, HidError>(level)),
{
}

} // verus!
