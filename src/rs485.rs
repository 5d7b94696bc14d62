use crate::descriptor::SerialRs485;
use vstd::prelude::*;

verus! {

/// How the transmit/receive direction of a half-duplex link is managed.
#[derive(Clone, Copy, Debug, PartialEq, Eq, Structural)]
pub enum ControlMode {
    /// No direction management: writes go straight to the device.
    Disabled,
    /// Let the kernel switch the line where it can, toggle it by hand otherwise.
    Automatic,
    /// Always toggle the line by hand around each write.
    Manual,
}

/// The modem-control line that selects the transmit direction.
#[derive(Clone, Copy, Debug, PartialEq, Eq, Structural)]
pub enum ControlPin {
    Rts,
    Dtr,
}

/// Polarity and timing of direction control. Kept whatever the mode, so that
/// a later change of mode reuses them.
#[derive(Clone, Copy, Debug, PartialEq, Eq, Structural)]
pub struct Rs485Settings {
    /// Asserting the line (driving it high) means "transmitting".
    pub rts_active_high: bool,
    pub rx_during_tx: bool,
    pub termination_enabled: bool,
    pub delay_before_send_micros: u32,
    pub delay_after_send_micros: u32,
}

/// The settings of a freshly opened port.
pub open spec fn default_settings() -> Rs485Settings {
    Rs485Settings {
        rts_active_high: true,
        rx_during_tx: false,
        termination_enabled: false,
        delay_before_send_micros: 0,
        delay_after_send_micros: 0,
    }
}

/// The descriptor that asks the kernel to switch the line with these settings.
pub open spec fn descriptor_for(s: Rs485Settings) -> SerialRs485 {
    SerialRs485 {
        flags: crate::descriptor::kernel_flags(
            s.rts_active_high,
            s.rx_during_tx,
            s.termination_enabled,
        ),
        delay_rts_before_send: (s.delay_before_send_micros / 1000) as u32,
        delay_rts_after_send: (s.delay_after_send_micros / 1000) as u32,
    }
}

/// Where an exchange with the kernel about direction control stands.
#[derive(Clone, Copy, Debug, PartialEq, Eq, Structural)]
pub enum KernelPhase {
    /// Nothing is outstanding.
    Idle,
    /// Switching off was requested; enabling follows when `then_enable` holds.
    Disabling { then_enable: bool },
    /// An enabling descriptor was sent. A `refresh` only updates an active
    /// configuration and does not change whether it is active.
    Enabling { refresh: bool },
    /// The descriptor is being read back to confirm that the kernel took it.
    Verifying,
}

/// What the owner of the device must do next for the kernel.
#[derive(Clone, Copy, Debug, PartialEq, Eq, Structural)]
pub enum KernelAction {
    /// Send the all-zero descriptor; the outcome does not matter.
    Disable,
    /// Send this descriptor and report whether the call succeeded.
    Enable(SerialRs485),
    /// Read the descriptor back and report it (`None` if the call failed).
    ReadBack,
    /// The exchange is over.
    Done,
}

/// The outcome of the last `KernelAction`.
#[derive(Clone, Copy, Debug, PartialEq, Eq, Structural)]
pub enum KernelEvent {
    /// A sending call succeeded (`true`) or failed.
    Sent(bool),
    /// The descriptor read back, or `None` if reading failed.
    ReadBack(Option<SerialRs485>),
}

/// The abstract state of a direction controller.
pub struct ControllerState {
    pub mode: ControlMode,
    pub pin: ControlPin,
    /// The kernel switches the line itself; confirmed by reading its configuration back.
    pub kernel_active: bool,
    /// The platform offers in-kernel direction switching.
    pub kernel_capable: bool,
    pub settings: Rs485Settings,
    pub phase: KernelPhase,
}

impl ControllerState {
    /// Kernel delegation is wanted: automatic mode on RTS, where the platform offers it.
    pub open spec fn wants_kernel(self) -> bool {
        self.mode == ControlMode::Automatic && self.pin == ControlPin::Rts && self.kernel_capable
    }

    /// Kernel delegation is active, or being set up, only when it is wanted.
    pub open spec fn wf(self) -> bool {
        &&& self.kernel_active ==> self.wants_kernel()
        &&& match self.phase {
            KernelPhase::Idle => true,
            KernelPhase::Disabling { then_enable } => !self.kernel_active && (then_enable
                ==> self.wants_kernel()),
            KernelPhase::Enabling { refresh } => if refresh {
                self.kernel_active
            } else {
                !self.kernel_active && self.wants_kernel()
            },
            KernelPhase::Verifying => !self.kernel_active && self.wants_kernel(),
        }
    }
}

/// Adopting `mode` on `pin`: the new state and the first request to the kernel.
pub open spec fn configure_spec(s: ControllerState, mode: ControlMode, pin: ControlPin) -> (
    ControllerState,
    KernelAction,
) {
    let t = ControllerState { mode, pin, kernel_active: false, ..s };
    if s.kernel_active || s.phase != KernelPhase::Idle {
        (
            ControllerState { phase: KernelPhase::Disabling { then_enable: t.wants_kernel() }, ..t },
            KernelAction::Disable,
        )
    } else if t.wants_kernel() {
        (
            ControllerState { phase: KernelPhase::Enabling { refresh: false }, ..t },
            KernelAction::Enable(descriptor_for(t.settings)),
        )
    } else {
        (ControllerState { phase: KernelPhase::Idle, ..t }, KernelAction::Done)
    }
}

/// Whether a read-back outcome confirms that the kernel enabled switching.
pub open spec fn confirms_enabled(e: KernelEvent) -> bool {
    match e {
        KernelEvent::ReadBack(Some(d)) => d.flags & crate::descriptor::SER_RS485_ENABLED != 0,
        _ => false,
    }
}

/// One step of the exchange with the kernel: the state after `e` and the next request.
pub open spec fn kernel_step_spec(s: ControllerState, e: KernelEvent) -> (
    ControllerState,
    KernelAction,
) {
    let idle = ControllerState { phase: KernelPhase::Idle, ..s };
    match s.phase {
        KernelPhase::Idle => (s, KernelAction::Done),
        KernelPhase::Disabling { then_enable } => if then_enable {
            (
                ControllerState { phase: KernelPhase::Enabling { refresh: false }, ..s },
                KernelAction::Enable(descriptor_for(s.settings)),
            )
        } else {
            (idle, KernelAction::Done)
        },
        KernelPhase::Enabling { refresh } => if !refresh && e == KernelEvent::Sent(true) {
            (ControllerState { phase: KernelPhase::Verifying, ..s }, KernelAction::ReadBack)
        } else {
            (idle, KernelAction::Done)
        },
        KernelPhase::Verifying => (
            ControllerState { kernel_active: confirms_enabled(e), ..idle },
            KernelAction::Done,
        ),
    }
}

/// The state after a run of kernel outcomes, and the requests issued along the way.
pub open spec fn kernel_run(s: ControllerState, events: Seq<KernelEvent>) -> (
    ControllerState,
    Seq<KernelAction>,
)
    decreases events.len(),
{
    if events.len() == 0 {
        (s, seq![])
    } else {
        let (n, a) = kernel_step_spec(s, events[0]);
        let (f, acts) = kernel_run(n, events.drop_first());
        (f, seq![a] + acts)
    }
}

proof fn lemma_kernel_step_keeps(s: ControllerState, e: KernelEvent)
    requires
        s.wf(),
    ensures
        ({
            let (n, a) = kernel_step_spec(s, e);
            &&& n.wf()
            &&& n.mode == s.mode
            &&& n.pin == s.pin
            &&& n.kernel_capable == s.kernel_capable
            &&& n.settings == s.settings
            &&& (a is Enable ==> s.wants_kernel())
        }),
{
}

/// An exchange with the kernel keeps the controller well formed and changes
/// neither mode, pin, platform capability nor settings; without delegation
/// wanted, it sends no enabling request.
pub proof fn lemma_kernel_run_keeps(s: ControllerState, events: Seq<KernelEvent>)
    requires
        s.wf(),
    ensures
        ({
            let (f, acts) = kernel_run(s, events);
            &&& f.wf()
            &&& f.mode == s.mode
            &&& f.pin == s.pin
            &&& f.kernel_capable == s.kernel_capable
            &&& f.settings == s.settings
            &&& !s.wants_kernel() ==> forall|i: int| 0 <= i < acts.len() ==> !(acts[i] is Enable)
        }),
    decreases events.len(),
{
    if events.len() > 0 {
        let (n, a) = kernel_step_spec(s, events[0]);
        lemma_kernel_step_keeps(s, events[0]);
        lemma_kernel_run_keeps(n, events.drop_first());
        let (f, rest) = kernel_run(n, events.drop_first());
        let acts = seq![a] + rest;
        assert(kernel_run(s, events).1 == acts);
        if !s.wants_kernel() {
            assert forall|i: int| 0 <= i < acts.len() implies !(acts[i] is Enable) by {
                if i > 0 {
                    assert(acts[i] == rest[i - 1]);
                }
            }
        }
    }
}

/// Manual mode, or any mode on DTR, never delegates to the kernel: adopting
/// it sends no enabling request (and switches an active delegation off first),
/// and whatever the kernel answers afterwards, no enabling request follows and
/// delegation stays inactive.
pub proof fn lemma_no_delegation_unless_automatic_rts(
    s: ControllerState,
    mode: ControlMode,
    pin: ControlPin,
    events: Seq<KernelEvent>,
)
    requires
        s.wf(),
        mode == ControlMode::Manual || pin == ControlPin::Dtr,
    ensures
        ({
            let (c, a) = configure_spec(s, mode, pin);
            let (f, acts) = kernel_run(c, events);
            &&& !(a is Enable)
            &&& s.kernel_active ==> a == KernelAction::Disable
            &&& !c.kernel_active
            &&& !f.kernel_active
            &&& forall|i: int| 0 <= i < acts.len() ==> !(acts[i] is Enable)
        }),
{
    let (c, a) = configure_spec(s, mode, pin);
    lemma_kernel_run_keeps(c, events);
}

/// The polarity, receive, termination and delay settings given to an extended
/// configuration are the ones stored afterwards, whatever the kernel answers.
pub proof fn lemma_extended_settings_kept(
    s: ControllerState,
    mode: ControlMode,
    pin: ControlPin,
    settings: Rs485Settings,
    events: Seq<KernelEvent>,
)
    requires
        s.wf(),
    ensures
        kernel_run(configure_spec(ControllerState { settings, ..s }, mode, pin).0, events).0.settings
            == settings,
{
    let (c, a) = configure_spec(ControllerState { settings, ..s }, mode, pin);
    lemma_kernel_run_keeps(c, events);
}


/// A serial device together with the state of its direction control.
/// The device itself is only carried: whoever owns the wrapper performs the
/// actions that the wrapper asks for on it.
pub struct PortWrapper<P> {
    pub port: P,
    control_mode: ControlMode,
    control_pin: ControlPin,
    kernel_rs485_active: bool,
    kernel_capable: bool,
    settings: Rs485Settings,
    phase: KernelPhase,
}

impl<P> View for PortWrapper<P> {
    type V = ControllerState;

    closed spec fn view(&self) -> ControllerState {
        ControllerState {
            mode: self.control_mode,
            pin: self.control_pin,
            kernel_active: self.kernel_rs485_active,
            kernel_capable: self.kernel_capable,
            settings: self.settings,
            phase: self.phase,
        }
    }
}

impl<P> PortWrapper<P> {
    /// The device carried by the wrapper.
    pub closed spec fn device(&self) -> P {
        self.port
    }

    /// Wraps an opened device with direction control disabled. `kernel_capable`
    /// says whether the platform offers in-kernel direction switching.
    pub fn new(port: P, kernel_capable: bool) -> (r: Self)
        ensures
            r.device() == port,
            r@ == (ControllerState {
                mode: ControlMode::Disabled,
                pin: ControlPin::Rts,
                kernel_active: false,
                kernel_capable,
                settings: default_settings(),
                phase: KernelPhase::Idle,
            }),
            r@.wf(),
    {
        PortWrapper {
            port,
            control_mode: ControlMode::Disabled,
            control_pin: ControlPin::Rts,
            kernel_rs485_active: false,
            kernel_capable,
            settings: Rs485Settings {
                rts_active_high: true,
                rx_during_tx: false,
                termination_enabled: false,
                delay_before_send_micros: 0,
                delay_after_send_micros: 0,
            },
            phase: KernelPhase::Idle,
        }
    }

    fn current_descriptor(&self) -> (r: SerialRs485)
        ensures
            r == descriptor_for(self@.settings),
    {
        SerialRs485::for_settings(
            self.settings.rts_active_high,
            self.settings.rx_during_tx,
            self.settings.termination_enabled,
            self.settings.delay_before_send_micros,
            self.settings.delay_after_send_micros,
        )
    }

    /// Adopts `mode` on `pin`. An active (or half set up) kernel configuration
    /// is switched off first, whatever the outcome. Kernel delegation is then
    /// attempted only for automatic mode on RTS, where the platform offers it;
    /// its failure silently leaves the line to manual toggling.
    /// Returns the first request to the kernel; later ones come from `kernel_step`.
    pub fn configure_rs485(&mut self, mode: ControlMode, pin: ControlPin) -> (r: KernelAction)
        requires
            old(self)@.wf(),
        ensures
            (final(self)@, r) == configure_spec(old(self)@, mode, pin),
            final(self)@.wf(),
            final(self).device() == old(self).device(),
    {
        let needs_disable = self.kernel_rs485_active || self.phase != KernelPhase::Idle;
        self.kernel_rs485_active = false;
        self.control_mode = mode;
        self.control_pin = pin;
        let wants = self.kernel_capable && mode == ControlMode::Automatic && pin == ControlPin::Rts;
        if needs_disable {
            self.phase = KernelPhase::Disabling { then_enable: wants };
            KernelAction::Disable
        } else if wants {
            self.phase = KernelPhase::Enabling { refresh: false };
            KernelAction::Enable(self.current_descriptor())
        } else {
            self.phase = KernelPhase::Idle;
            KernelAction::Done
        }
    }

    /// Stores polarity, receive, termination and delay settings, then adopts
    /// `mode` on `pin` as `configure_rs485` does, so that a kernel
    /// configuration is built from the new settings.
    pub fn configure_rs485_extended(
        &mut self,
        mode: ControlMode,
        pin: ControlPin,
        rts_active_high: bool,
        rx_during_tx: bool,
        termination_enabled: bool,
        delay_before_micros: u32,
        delay_after_micros: u32,
    ) -> (r: KernelAction)
        requires
            old(self)@.wf(),
        ensures
            ({
                let s = ControllerState {
                    settings: Rs485Settings {
                        rts_active_high,
                        rx_during_tx,
                        termination_enabled,
                        delay_before_send_micros: delay_before_micros,
                        delay_after_send_micros: delay_after_micros,
                    },
                    ..old(self)@
                };
                (final(self)@, r) == configure_spec(s, mode, pin)
            }),
            final(self)@.wf(),
            final(self).device() == old(self).device(),
    {
        self.settings = Rs485Settings {
            rts_active_high,
            rx_during_tx,
            termination_enabled,
            delay_before_send_micros: delay_before_micros,
            delay_after_send_micros: delay_after_micros,
        };
        self.configure_rs485(mode, pin)
    }

    /// Feeds the outcome of the last kernel request; returns the next request.
    pub fn kernel_step(&mut self, event: KernelEvent) -> (r: KernelAction)
        requires
            old(self)@.wf(),
        ensures
            (final(self)@, r) == kernel_step_spec(old(self)@, event),
            final(self)@.wf(),
            final(self).device() == old(self).device(),
    {
        match self.phase {
            KernelPhase::Idle => KernelAction::Done,
            KernelPhase::Disabling { then_enable } => {
                if then_enable {
                    self.phase = KernelPhase::Enabling { refresh: false };
                    KernelAction::Enable(self.current_descriptor())
                } else {
                    self.phase = KernelPhase::Idle;
                    KernelAction::Done
                }
            },
            KernelPhase::Enabling { refresh } => {
                if !refresh && event == KernelEvent::Sent(true) {
                    self.phase = KernelPhase::Verifying;
                    KernelAction::ReadBack
                } else {
                    self.phase = KernelPhase::Idle;
                    KernelAction::Done
                }
            },
            KernelPhase::Verifying => {
                let confirmed = match event {
                    KernelEvent::ReadBack(Some(d)) => d.is_enabled(),
                    _ => false,
                };
                self.kernel_rs485_active = confirmed;
                self.phase = KernelPhase::Idle;
                KernelAction::Done
            },
        }
    }

    /// Sets the two delays. An active kernel configuration is sent again with
    /// them (its outcome does not change whether delegation is active); otherwise
    /// nothing is sent.
    pub fn set_rs485_delays(
        &mut self,
        before_send_micros: u32,
        after_send_micros: u32,
    ) -> (r: KernelAction)
        requires
            old(self)@.wf(),
        ensures
            final(self)@.settings == (Rs485Settings {
                delay_before_send_micros: before_send_micros,
                delay_after_send_micros: after_send_micros,
                ..old(self)@.settings
            }),
            final(self)@.mode == old(self)@.mode,
            final(self)@.pin == old(self)@.pin,
            final(self)@.kernel_active == old(self)@.kernel_active,
            final(self)@.kernel_capable == old(self)@.kernel_capable,
            old(self)@.kernel_active && old(self)@.phase == KernelPhase::Idle ==> {
                &&& r == KernelAction::Enable(descriptor_for(final(self)@.settings))
                &&& final(self)@.phase == KernelPhase::Enabling { refresh: true }
            },
            !(old(self)@.kernel_active && old(self)@.phase == KernelPhase::Idle) ==> {
                &&& r == KernelAction::Done
                &&& final(self)@.phase == old(self)@.phase
            },
            final(self)@.wf(),
            final(self).device() == old(self).device(),
    {
        self.settings.delay_before_send_micros = before_send_micros;
        self.settings.delay_after_send_micros = after_send_micros;
        if self.kernel_rs485_active && self.phase == KernelPhase::Idle {
            self.phase = KernelPhase::Enabling { refresh: true };
            KernelAction::Enable(self.current_descriptor())
        } else {
            KernelAction::Done
        }
    }

    /// Whether the kernel switches the line itself.
    pub fn is_kernel_rs485_active(&self) -> (r: bool)
        ensures
            r == self@.kernel_active,
    {
        self.kernel_rs485_active
    }

    pub fn control_mode(&self) -> (r: ControlMode)
        ensures
            r == self@.mode,
    {
        self.control_mode
    }

    pub fn control_pin(&self) -> (r: ControlPin)
        ensures
            r == self@.pin,
    {
        self.control_pin
    }

    /// The stored polarity, receive, termination and delay settings.
    pub fn rs485_settings(&self) -> (r: Rs485Settings)
        ensures
            r == self@.settings,
    {
        self.settings
    }
}

} // verus!
