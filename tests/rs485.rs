use jrserial::{
    ControlMode, ControlPin, KernelAction, KernelEvent, PortWrapper, SerialRs485, WriteAction,
    WriteReport,
};

/// A simulated device: records each line change, write and flush, and
/// fails the operations it is told to.
#[derive(Default)]
struct FakeDevice {
    log: Vec<String>,
    fail_assert: bool,
    fail_write: bool,
    fail_restore: bool,
    line_changes: usize,
}

impl FakeDevice {
    fn perform(&mut self, a: WriteAction) -> bool {
        match a {
            WriteAction::SetLine { pin, level } => {
                self.line_changes += 1;
                self.log.push(format!("{:?}={}", pin, level));
                if self.line_changes == 1 {
                    !self.fail_assert
                } else {
                    !self.fail_restore
                }
            }
            WriteAction::WriteData => {
                self.log.push("write".to_string());
                !self.fail_write
            }
            WriteAction::Flush => {
                self.log.push("flush".to_string());
                true
            }
            WriteAction::Finish(_) => true,
        }
    }
}

fn run_write(w: &PortWrapper<FakeDevice>, dev: &mut FakeDevice) -> WriteReport {
    let (mut session, mut action) = w.write_rs485();
    loop {
        if let WriteAction::Finish(r) = action {
            assert!(session.is_finished());
            return r;
        }
        let ok = dev.perform(action);
        action = session.step(ok);
    }
}

/// Answers every kernel request: sending succeeds when `set_ok`, and the
/// read-back reports `readback_flags`.
fn run_kernel(w: &mut PortWrapper<FakeDevice>, first: KernelAction, set_ok: bool, readback_flags: u32) -> Vec<KernelAction> {
    let mut seen = vec![first];
    let mut a = first;
    while a != KernelAction::Done {
        let ev = match a {
            KernelAction::Disable => KernelEvent::Sent(true),
            KernelAction::Enable(_) => KernelEvent::Sent(set_ok),
            KernelAction::ReadBack => KernelEvent::ReadBack(Some(SerialRs485 {
                flags: readback_flags,
                delay_rts_before_send: 0,
                delay_rts_after_send: 0,
            })),
            KernelAction::Done => unreachable!(),
        };
        a = w.kernel_step(ev);
        seen.push(a);
    }
    seen
}

fn wrapper(kernel_capable: bool) -> PortWrapper<FakeDevice> {
    PortWrapper::new(FakeDevice::default(), kernel_capable)
}

#[test]
fn new_wrapper_is_disabled_on_rts() {
    let w = wrapper(true);
    assert_eq!(w.control_mode(), ControlMode::Disabled);
    assert_eq!(w.control_pin(), ControlPin::Rts);
    assert!(!w.is_kernel_rs485_active());
    let s = w.rs485_settings();
    assert!(s.rts_active_high);
    assert!(!s.rx_during_tx);
    assert!(!s.termination_enabled);
    assert_eq!(s.delay_before_send_micros, 0);
    assert_eq!(s.delay_after_send_micros, 0);
}

#[test]
fn disabled_write_touches_no_line() {
    let w = wrapper(true);
    let mut dev = FakeDevice::default();
    assert_eq!(run_write(&w, &mut dev), WriteReport::WriteResult);
    assert_eq!(dev.log, vec!["write"]);
    dev = FakeDevice { fail_write: true, ..Default::default() };
    assert_eq!(run_write(&w, &mut dev), WriteReport::WriteResult);
    assert_eq!(dev.log, vec!["write"]);
}

#[test]
fn automatic_rts_without_kernel_support_toggles_by_hand() {
    let mut w = wrapper(false);
    let a = w.configure_rs485(ControlMode::Automatic, ControlPin::Rts);
    assert_eq!(a, KernelAction::Done);
    assert!(!w.is_kernel_rs485_active());
    let mut dev = FakeDevice::default();
    assert_eq!(run_write(&w, &mut dev), WriteReport::WriteResult);
    assert_eq!(dev.log, vec!["Rts=true", "write", "flush", "Rts=false"]);
}

#[test]
fn manual_dtr_toggles_dtr_only() {
    let mut w = wrapper(true);
    let a = w.configure_rs485_extended(ControlMode::Manual, ControlPin::Dtr, true, false, false, 0, 0);
    assert_eq!(a, KernelAction::Done);
    let mut dev = FakeDevice::default();
    assert_eq!(run_write(&w, &mut dev), WriteReport::WriteResult);
    assert_eq!(dev.log, vec!["Dtr=true", "write", "flush", "Dtr=false"]);
    assert!(dev.log.iter().all(|e| !e.starts_with("Rts")));
}

#[test]
fn active_low_polarity_inverts_levels() {
    let mut w = wrapper(false);
    w.configure_rs485_extended(ControlMode::Manual, ControlPin::Rts, false, false, false, 0, 0);
    let mut dev = FakeDevice::default();
    run_write(&w, &mut dev);
    assert_eq!(dev.log, vec!["Rts=false", "write", "flush", "Rts=true"]);
}

#[test]
fn failed_write_still_restores_line() {
    let mut w = wrapper(false);
    w.configure_rs485(ControlMode::Manual, ControlPin::Rts);
    let mut dev = FakeDevice { fail_write: true, ..Default::default() };
    assert_eq!(run_write(&w, &mut dev), WriteReport::WriteResult);
    assert_eq!(dev.log, vec!["Rts=true", "write", "flush", "Rts=false"]);
}

#[test]
fn failed_restore_is_reported() {
    let mut w = wrapper(false);
    w.configure_rs485(ControlMode::Manual, ControlPin::Rts);
    let mut dev = FakeDevice { fail_restore: true, fail_write: true, ..Default::default() };
    assert_eq!(run_write(&w, &mut dev), WriteReport::RestoreFailed);
}

#[test]
fn failed_assert_writes_nothing() {
    let mut w = wrapper(false);
    w.configure_rs485(ControlMode::Manual, ControlPin::Dtr);
    let mut dev = FakeDevice { fail_assert: true, ..Default::default() };
    assert_eq!(run_write(&w, &mut dev), WriteReport::AssertFailed);
    assert_eq!(dev.log, vec!["Dtr=true"]);
}

#[test]
fn automatic_rts_delegates_when_kernel_confirms() {
    let mut w = wrapper(true);
    let a = w.configure_rs485_extended(ControlMode::Automatic, ControlPin::Rts, true, true, true, 2500, 999);
    assert_eq!(
        a,
        KernelAction::Enable(SerialRs485 { flags: 1 | 2 | 16 | 32, delay_rts_before_send: 2, delay_rts_after_send: 0 })
    );
    let seen = run_kernel(&mut w, a, true, 1);
    assert_eq!(seen[1], KernelAction::ReadBack);
    assert!(w.is_kernel_rs485_active());
    let mut dev = FakeDevice::default();
    assert_eq!(run_write(&w, &mut dev), WriteReport::WriteResult);
    assert_eq!(dev.log, vec!["write", "flush"]);
}

#[test]
fn kernel_refusing_silently_falls_back() {
    let mut w = wrapper(true);
    let a = w.configure_rs485(ControlMode::Automatic, ControlPin::Rts);
    run_kernel(&mut w, a, true, 0);
    assert!(!w.is_kernel_rs485_active());
    let mut dev = FakeDevice::default();
    run_write(&w, &mut dev);
    assert_eq!(dev.log, vec!["Rts=true", "write", "flush", "Rts=false"]);
}

#[test]
fn failed_kernel_set_skips_read_back() {
    let mut w = wrapper(true);
    let a = w.configure_rs485(ControlMode::Automatic, ControlPin::Rts);
    let seen = run_kernel(&mut w, a, false, 1);
    assert_eq!(seen.len(), 2);
    assert_eq!(seen[1], KernelAction::Done);
    assert!(!w.is_kernel_rs485_active());
}

#[test]
fn automatic_dtr_never_delegates() {
    let mut w = wrapper(true);
    let a = w.configure_rs485(ControlMode::Automatic, ControlPin::Dtr);
    assert_eq!(a, KernelAction::Done);
    assert!(!w.is_kernel_rs485_active());
}

#[test]
fn switching_to_manual_disables_kernel_first() {
    let mut w = wrapper(true);
    let a = w.configure_rs485(ControlMode::Automatic, ControlPin::Rts);
    run_kernel(&mut w, a, true, 1);
    assert!(w.is_kernel_rs485_active());
    let b = w.configure_rs485(ControlMode::Manual, ControlPin::Rts);
    assert_eq!(b, KernelAction::Disable);
    assert!(!w.is_kernel_rs485_active());
    let seen = run_kernel(&mut w, b, true, 1);
    assert!(seen.iter().all(|x| !matches!(x, KernelAction::Enable(_))));
    assert!(!w.is_kernel_rs485_active());
}

#[test]
fn reconfiguring_automatic_disables_then_enables() {
    let mut w = wrapper(true);
    let a = w.configure_rs485(ControlMode::Automatic, ControlPin::Rts);
    run_kernel(&mut w, a, true, 1);
    let b = w.configure_rs485_extended(ControlMode::Automatic, ControlPin::Rts, false, false, false, 0, 0);
    assert_eq!(b, KernelAction::Disable);
    let seen = run_kernel(&mut w, b, true, 1);
    assert_eq!(
        seen[1],
        KernelAction::Enable(SerialRs485 { flags: 1 | 4, delay_rts_before_send: 0, delay_rts_after_send: 0 })
    );
    assert!(w.is_kernel_rs485_active());
}

#[test]
fn extended_settings_read_back_whatever_the_kernel_says() {
    for (set_ok, flags) in [(true, 1u32), (true, 0), (false, 1)] {
        let mut w = wrapper(true);
        let a = w.configure_rs485_extended(ControlMode::Automatic, ControlPin::Rts, false, true, true, 1234, 5678);
        run_kernel(&mut w, a, set_ok, flags);
        let s = w.rs485_settings();
        assert!(!s.rts_active_high);
        assert!(s.rx_during_tx);
        assert!(s.termination_enabled);
        assert_eq!(s.delay_before_send_micros, 1234);
        assert_eq!(s.delay_after_send_micros, 5678);
    }
}

#[test]
fn delays_resend_active_kernel_configuration() {
    let mut w = wrapper(true);
    let a = w.configure_rs485(ControlMode::Automatic, ControlPin::Rts);
    run_kernel(&mut w, a, true, 1);
    let b = w.set_rs485_delays(3000, 4999);
    assert_eq!(
        b,
        KernelAction::Enable(SerialRs485 { flags: 1 | 2, delay_rts_before_send: 3, delay_rts_after_send: 4 })
    );
    let seen = run_kernel(&mut w, b, false, 0);
    assert_eq!(seen.len(), 2);
    assert!(w.is_kernel_rs485_active());
}

#[test]
fn delays_without_kernel_only_store() {
    let mut w = wrapper(false);
    assert_eq!(w.set_rs485_delays(10, 20), KernelAction::Done);
    assert_eq!(w.rs485_settings().delay_before_send_micros, 10);
    assert_eq!(w.rs485_settings().delay_after_send_micros, 20);
}
