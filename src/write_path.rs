use crate::rs485::{
    configure_spec, kernel_run, lemma_kernel_run_keeps, ControlMode, ControlPin, ControllerState,
    KernelEvent, PortWrapper,
};
use vstd::prelude::*;

verus! {

/// How a write is carried out.
#[derive(Clone, Copy, Debug, PartialEq, Eq, Structural)]
pub enum WritePath {
    /// Straight to the device; no line is touched.
    Direct,
    /// The kernel switches the line; the write is flushed before returning.
    KernelManaged,
    /// The line `pin` is driven to `transmit_level` around the write and back after it.
    Toggle { pin: ControlPin, transmit_level: bool },
}

/// Which result a finished write hands back.
#[derive(Clone, Copy, Debug, PartialEq, Eq, Structural)]
pub enum WriteReport {
    /// The result of the data write itself.
    WriteResult,
    /// The error of asserting the transmit level (nothing was written).
    AssertFailed,
    /// The error of restoring the receive level, which outweighs any write error.
    RestoreFailed,
}

/// What the owner of the device must do next.
#[derive(Clone, Copy, Debug, PartialEq, Eq, Structural)]
pub enum WriteAction {
    /// Drive `pin` to `level` and report whether that succeeded.
    SetLine { pin: ControlPin, level: bool },
    /// Write the data and report whether that succeeded.
    WriteData,
    /// Flush the output and report whether that succeeded.
    Flush,
    /// The write is over: hand back the result that the report names.
    Finish(WriteReport),
}

/// The step a write has reached.
#[derive(Clone, Copy, Debug, PartialEq, Eq, Structural)]
pub enum WriteStage {
    Asserting,
    Writing,
    Flushing,
    Restoring,
    Finished(WriteReport),
}

/// A write in progress.
#[derive(Clone, Copy, Debug, PartialEq, Eq, Structural)]
pub struct WriteSession {
    pub path: WritePath,
    pub stage: WriteStage,
}

/// The path that a controller in state `s` writes by.
pub open spec fn write_path_of(s: ControllerState) -> WritePath {
    if s.mode == ControlMode::Disabled {
        WritePath::Direct
    } else if s.mode == ControlMode::Automatic && s.kernel_active {
        WritePath::KernelManaged
    } else {
        WritePath::Toggle { pin: s.pin, transmit_level: s.settings.rts_active_high }
    }
}

/// The session that a write by `path` starts with, and its first action.
pub open spec fn write_start(path: WritePath) -> (WriteSession, WriteAction) {
    match path {
        WritePath::Toggle { pin, transmit_level } => (
            WriteSession { path, stage: WriteStage::Asserting },
            WriteAction::SetLine { pin, level: transmit_level },
        ),
        _ => (WriteSession { path, stage: WriteStage::Writing }, WriteAction::WriteData),
    }
}

/// The session and the next action after the last action succeeded (`ok`) or failed.
pub open spec fn write_next(w: WriteSession, ok: bool) -> (WriteSession, WriteAction) {
    let finish = |r: WriteReport|
        (WriteSession { stage: WriteStage::Finished(r), ..w }, WriteAction::Finish(r));
    match w.stage {
        WriteStage::Asserting => if ok {
            (WriteSession { stage: WriteStage::Writing, ..w }, WriteAction::WriteData)
        } else {
            finish(WriteReport::AssertFailed)
        },
        WriteStage::Writing => match w.path {
            WritePath::Direct => finish(WriteReport::WriteResult),
            _ => (WriteSession { stage: WriteStage::Flushing, ..w }, WriteAction::Flush),
        },
        WriteStage::Flushing => match w.path {
            WritePath::Toggle { pin, transmit_level } => (
                WriteSession { stage: WriteStage::Restoring, ..w },
                WriteAction::SetLine { pin, level: !transmit_level },
            ),
            _ => finish(WriteReport::WriteResult),
        },
        WriteStage::Restoring => if ok {
            finish(WriteReport::WriteResult)
        } else {
            finish(WriteReport::RestoreFailed)
        },
        WriteStage::Finished(r) => finish(r),
    }
}

/// The actions after `w`, given the outcomes of the actions in order, up to the finish.
pub open spec fn write_run(w: WriteSession, oks: Seq<bool>) -> Seq<WriteAction>
    decreases oks.len(),
{
    if oks.len() == 0 || w.stage is Finished {
        seq![]
    } else {
        let (n, a) = write_next(w, oks[0]);
        seq![a] + write_run(n, oks.drop_first())
    }
}

/// Every action of a write by `path`, given the outcomes of the actions in order.
pub open spec fn write_trace(path: WritePath, oks: Seq<bool>) -> Seq<WriteAction> {
    let (w, a) = write_start(path);
    seq![a] + write_run(w, oks)
}

impl<P> PortWrapper<P> {
    /// Starts a write: the session and its first action. The owner performs
    /// each action and feeds its outcome to `WriteSession::step` until `Finish`.
    pub fn write_rs485(&self) -> (r: (WriteSession, WriteAction))
        ensures
            r == write_start(write_path_of(self@)),
    {
        let path = match self.control_mode() {
            ControlMode::Disabled => WritePath::Direct,
            ControlMode::Automatic if self.is_kernel_rs485_active() => WritePath::KernelManaged,
            _ => WritePath::Toggle {
                pin: self.control_pin(),
                transmit_level: self.rs485_settings().rts_active_high,
            },
        };
        match path {
            WritePath::Toggle { pin, transmit_level } => (
                WriteSession { path, stage: WriteStage::Asserting },
                WriteAction::SetLine { pin, level: transmit_level },
            ),
            _ => (WriteSession { path, stage: WriteStage::Writing }, WriteAction::WriteData),
        }
    }
}

impl WriteSession {
    fn finish(&mut self, r: WriteReport) -> (a: WriteAction)
        ensures
            *final(self) == (WriteSession { stage: WriteStage::Finished(r), ..*old(self) }),
            a == WriteAction::Finish(r),
    {
        self.stage = WriteStage::Finished(r);
        WriteAction::Finish(r)
    }

    /// Feeds the outcome of the last action; returns the next one.
    pub fn step(&mut self, ok: bool) -> (r: WriteAction)
        ensures
            (*final(self), r) == write_next(*old(self), ok),
    {
        match self.stage {
            WriteStage::Asserting => {
                if ok {
                    self.stage = WriteStage::Writing;
                    WriteAction::WriteData
                } else {
                    self.finish(WriteReport::AssertFailed)
                }
            },
            WriteStage::Writing => match self.path {
                WritePath::Direct => self.finish(WriteReport::WriteResult),
                _ => {
                    self.stage = WriteStage::Flushing;
                    WriteAction::Flush
                },
            },
            WriteStage::Flushing => match self.path {
                WritePath::Toggle { pin, transmit_level } => {
                    self.stage = WriteStage::Restoring;
                    WriteAction::SetLine { pin, level: !transmit_level }
                },
                _ => self.finish(WriteReport::WriteResult),
            },
            WriteStage::Restoring => {
                if ok {
                    self.finish(WriteReport::WriteResult)
                } else {
                    self.finish(WriteReport::RestoreFailed)
                }
            },
            WriteStage::Finished(r) => self.finish(r),
        }
    }

    /// Whether the write is over.
    pub fn is_finished(&self) -> (r: bool)
        ensures
            r == (self.stage is Finished),
    {
        match self.stage {
            WriteStage::Finished(_) => true,
            _ => false,
        }
    }
}

/// With direction control disabled a write never touches a control line:
/// whatever the outcomes, it writes once and finishes with the write's result.
pub proof fn lemma_disabled_write_leaves_lines(s: ControllerState, oks: Seq<bool>)
    requires
        s.mode == ControlMode::Disabled,
    ensures
        forall|i: int|
            0 <= i < write_trace(write_path_of(s), oks).len() ==> !(write_trace(
                write_path_of(s),
                oks,
            )[i] is SetLine),
        oks.len() >= 1 ==> write_trace(write_path_of(s), oks) == seq![
            WriteAction::WriteData,
            WriteAction::Finish(WriteReport::WriteResult),
        ],
{
    let (w, a) = write_start(WritePath::Direct);
    if oks.len() >= 1 {
        let (n, b) = write_next(w, oks[0]);
        assert(write_run(n, oks.drop_first()) == Seq::<WriteAction>::empty());
        assert(write_trace(write_path_of(s), oks) =~= seq![a, b]);
    } else {
        assert(write_trace(write_path_of(s), oks) =~= seq![a]);
    }
}

/// In manual mode, or automatic mode without kernel delegation, a write
/// asserts the selected line before writing and restores it only after the
/// flush, whatever the outcome of the write and the flush. If asserting fails
/// nothing is written; if restoring fails, that failure is reported.
pub proof fn lemma_toggled_write_sequence(s: ControllerState, oks: Seq<bool>)
    requires
        s.wf(),
        s.mode == ControlMode::Manual || (s.mode == ControlMode::Automatic && !s.kernel_active),
        oks.len() >= 4,
    ensures
        ({
            let tx = s.settings.rts_active_high;
            let t = write_trace(write_path_of(s), oks);
            &&& oks[0] ==> t == seq![
                WriteAction::SetLine { pin: s.pin, level: tx },
                WriteAction::WriteData,
                WriteAction::Flush,
                WriteAction::SetLine { pin: s.pin, level: !tx },
                WriteAction::Finish(
                    if oks[3] {
                        WriteReport::WriteResult
                    } else {
                        WriteReport::RestoreFailed
                    },
                ),
            ]
            &&& !oks[0] ==> t == seq![
                WriteAction::SetLine { pin: s.pin, level: tx },
                WriteAction::Finish(WriteReport::AssertFailed),
            ]
        }),
{
    let path = write_path_of(s);
    let (w0, a0) = write_start(path);
    let o1 = oks.drop_first();
    let (w1, a1) = write_next(w0, oks[0]);
    if oks[0] {
        let o2 = o1.drop_first();
        let (w2, a2) = write_next(w1, o1[0]);
        let o3 = o2.drop_first();
        let (w3, a3) = write_next(w2, o2[0]);
        let (w4, a4) = write_next(w3, o3[0]);
        assert(write_run(w4, o3.drop_first()) == Seq::<WriteAction>::empty());
        assert(write_run(w3, o3) =~= seq![a4]);
        assert(write_run(w2, o2) =~= seq![a3, a4]);
        assert(write_run(w1, o1) =~= seq![a2, a3, a4]);
        assert(write_run(w0, oks) =~= seq![a1, a2, a3, a4]);
        assert(write_trace(path, oks) =~= seq![a0, a1, a2, a3, a4]);
    } else {
        assert(write_run(w1, o1) == Seq::<WriteAction>::empty());
        assert(write_trace(path, oks) =~= seq![a0, a1]);
    }
}

/// With kernel delegation active a write touches no line: it writes, flushes
/// and hands back the write's result.
pub proof fn lemma_kernel_write_flushes(s: ControllerState, oks: Seq<bool>)
    requires
        s.mode == ControlMode::Automatic,
        s.kernel_active,
        oks.len() >= 2,
    ensures
        write_trace(write_path_of(s), oks) == seq![
            WriteAction::WriteData,
            WriteAction::Flush,
            WriteAction::Finish(WriteReport::WriteResult),
        ],
{
    let path = write_path_of(s);
    let (w0, a0) = write_start(path);
    let o1 = oks.drop_first();
    let (w1, a1) = write_next(w0, oks[0]);
    let (w2, a2) = write_next(w1, o1[0]);
    assert(write_run(w2, o1.drop_first()) == Seq::<WriteAction>::empty());
    assert(write_run(w1, o1) =~= seq![a2]);
    assert(write_trace(path, oks) =~= seq![a0, a1, a2]);
}

/// On a platform without in-kernel switching, automatic mode never delegates:
/// after adopting it, whatever the kernel answers, writes toggle the selected
/// line by hand with the stored polarity.
pub proof fn lemma_automatic_without_kernel_toggles(
    s: ControllerState,
    pin: ControlPin,
    events: Seq<KernelEvent>,
)
    requires
        s.wf(),
        !s.kernel_capable,
    ensures
        ({
            let f = kernel_run(configure_spec(s, ControlMode::Automatic, pin).0, events).0;
            &&& !f.kernel_active
            &&& write_path_of(f) == WritePath::Toggle {
                pin,
                transmit_level: s.settings.rts_active_high,
            }
        }),
{
    let c = configure_spec(s, ControlMode::Automatic, pin).0;
    lemma_kernel_run_keeps(c, events);
}

} // verus!
