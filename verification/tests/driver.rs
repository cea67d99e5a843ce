//! Driver behaviour against the simulated chip: busy gating, transaction
//! framing, and chip-select discipline.

use sx1280::commands::get_irq_status::GetIrqStatusCommand;
use sx1280::commands::get_status::{CircuitMode, CommandStatus, GetStatusCommand};
use sx1280::commands::set_packet_type::{PacketType, SetPacketTypeCommand};
use sx1280::commands::set_sleep::SetSleepModeCommand;
use sx1280::commands::set_standby::{SetStandbyModeCommand, StandbyMode};
use sx1280::commands::{IRQ_TX_DONE, SX1280Interrupt};
use sx1280::device::{SX1280, SX1280Error};
use sx1280::hal::BusFault;
use sx1280::modes::{ModeLoRa, ModeUninitialized};
use sx1280::registers::frequency_compensation_mode::FrequencyCompensationMode;
use sx1280::registers::rx_gain::RxGain;
use sx1280::sim::{SimBusyPin, SimChipBus, SimDelay, SimPin, SimStuckHighPin};
use sx1280::spi::{SpiDevice, SpiError};

type SimDevice<M> = SX1280<SimChipBus, SimPin, SimBusyPin, SimPin, SimDelay, M>;

fn fresh_device(busy_samples: u32) -> SimDevice<ModeUninitialized> {
    let spi = SpiDevice::new(SimChipBus::new(), SimPin::new()).unwrap();
    SX1280::new(spi, SimBusyPin::new(busy_samples), SimPin::new(), SimDelay::new()).unwrap()
}

#[test]
fn busy_chip_means_zero_bytes_on_the_bus() {
    let mut dev = fresh_device(10);
    assert_eq!(dev.command(GetStatusCommand), Err(SX1280Error::Busy));
    assert_eq!(dev.spi.bus.log, Vec::<u8>::new());
    assert_eq!(dev.write_buffer(0, &vec![1, 2, 3]), Err(SX1280Error::Busy));
    let mut data = vec![0u8; 4];
    assert_eq!(dev.read_buffer(0, &mut data), Err(SX1280Error::Busy));
    assert_eq!(
        dev.write_register(FrequencyCompensationMode(1)),
        Err(SX1280Error::Busy)
    );
    assert_eq!(dev.read_register::<RxGain>(), Err(SX1280Error::Busy));
    assert_eq!(dev.spi.bus.log, Vec::<u8>::new());
}

#[test]
fn ensure_not_busy_samples_without_suspending() {
    let mut dev = fresh_device(2);
    assert_eq!(dev.ensure_not_busy(), Err(SX1280Error::Busy));
    assert_eq!(dev.ensure_not_busy(), Err(SX1280Error::Busy));
    assert_eq!(dev.ensure_not_busy(), Ok(()));
    assert_eq!(dev.delay.elapsed_us, 0);
}

#[test]
fn chip_select_is_restored_when_a_transfer_fails_mid_transaction() {
    let mut dev = fresh_device(0);
    // The third bus operation of the command (the response exchange) faults.
    dev.spi.bus.fail_countdown = Some(3);
    let r = dev.command(GetIrqStatusCommand);
    assert_eq!(r, Err(SX1280Error::SpiError(BusFault)));
    // The guard was released exactly once: the pin is back and deasserted.
    match &dev.spi.cs {
        Some(pin) => assert!(pin.high),
        None => panic!("chip-select pin was not returned"),
    }
    // The device is usable again.
    assert!(dev.command(GetIrqStatusCommand).is_ok());
}

#[test]
fn chip_select_is_asserted_during_and_deasserted_after_a_command() {
    let mut dev = fresh_device(0);
    assert!(dev.command(GetStatusCommand).is_ok());
    match &dev.spi.cs {
        Some(pin) => assert!(pin.high),
        None => panic!("chip-select pin was not returned"),
    }
    // The settle delay ran at least once.
    assert!(dev.delay.elapsed_us >= 10);
}

#[test]
fn command_frames_are_bit_exact_on_the_wire() {
    let mut dev = fresh_device(0);
    dev.command(GetStatusCommand).unwrap();
    assert_eq!(dev.spi.bus.log, vec![0xC0]);
    dev.command(SetStandbyModeCommand { mode: StandbyMode::StandbyRC }).unwrap();
    assert_eq!(dev.spi.bus.log, vec![0xC0, 0x80, 0x00]);
    dev.command(GetIrqStatusCommand).unwrap();
    assert_eq!(
        dev.spi.bus.log,
        vec![0xC0, 0x80, 0x00, 0x15, 0x00, 0x00, 0x00]
    );
}

#[test]
fn status_decodes_from_the_echoed_byte() {
    let mut dev = fresh_device(0);
    dev.spi.bus.status_byte = 0x44;
    let status = dev.command(GetStatusCommand).unwrap();
    assert_eq!(status.circuit_mode(), CircuitMode::StandbyRC);
    assert_eq!(status.command_status(), CommandStatus::CommandOk);
}

#[test]
fn register_writes_and_reads_frame_the_address() {
    let mut dev = fresh_device(0);
    dev.write_register(FrequencyCompensationMode(1)).unwrap();
    assert_eq!(dev.spi.bus.log, vec![0x18, 0x09, 0x3C, 0x01]);
    assert_eq!(dev.spi.bus.reg_value(0x93C), 1);
    let back: FrequencyCompensationMode = dev.read_register().unwrap();
    assert_eq!(back, FrequencyCompensationMode(1));
    assert_eq!(
        dev.spi.bus.log,
        vec![0x18, 0x09, 0x3C, 0x01, 0x19, 0x09, 0x3C, 0x00, 0x00]
    );
}

#[test]
fn buffer_writes_and_reads_frame_the_offset() {
    let mut dev = fresh_device(0);
    dev.write_buffer(128, &vec![9, 8, 7]).unwrap();
    assert_eq!(dev.spi.bus.log, vec![0x1A, 128, 9, 8, 7]);
    let mut data = vec![0u8; 3];
    dev.read_buffer(128, &mut data).unwrap();
    assert_eq!(data, vec![9, 8, 7]);
    assert_eq!(
        dev.spi.bus.log,
        vec![0x1A, 128, 9, 8, 7, 0x1B, 128, 0, 0, 0, 0]
    );
}

#[test]
fn wait_for_busy_polls_until_the_line_drops() {
    let mut dev = fresh_device(3);
    assert_eq!(dev.wait_for_busy(1000), Ok(()));
    // One coarse poll interval at least.
    assert!(dev.delay.elapsed_us >= 10_000);
}

#[test]
fn wait_for_busy_times_out() {
    let mut dev = fresh_device(u32::MAX);
    assert_eq!(dev.wait_for_busy(25), Err(SX1280Error::Timeout));
    // One coarse interval, then fine polls up to the 25 ms budget.
    assert_eq!(dev.delay.elapsed_us, 25_000);
}

#[test]
fn a_fresh_handle_is_uninitialized_and_takes_mode_agnostic_messages() {
    // The handle's type says `ModeUninitialized`; mode-agnostic messages
    // (status, IRQ query, standby, sleep, packet-type select) work, and a
    // mode-specific message on this handle would not compile.
    let mut dev: SimDevice<ModeUninitialized> = fresh_device(0);
    assert!(dev.command(GetStatusCommand).is_ok());
    assert!(dev.command(GetIrqStatusCommand).is_ok());
    assert!(dev.command(SetStandbyModeCommand { mode: StandbyMode::StandbyRC }).is_ok());
    assert!(
        dev.command(SetSleepModeCommand { retain_ram: true, retain_data_buffer: true }).is_ok()
    );
    assert!(dev.command(SetPacketTypeCommand(PacketType::LoRa)).is_ok());
}

#[test]
fn set_operating_mode_issues_the_packet_type_select() {
    let dev = fresh_device(0);
    let lora: SimDevice<ModeLoRa> = dev.set_operating_mode::<ModeLoRa>().unwrap();
    assert_eq!(lora.spi.bus.log, vec![0x8A, 0x01]);
    assert_eq!(lora.spi.bus.packet_type, 0x01);
}

#[test]
fn reset_returns_an_uninitialized_handle_without_bus_traffic() {
    let dev = fresh_device(0);
    let dev = dev.set_operating_mode::<ModeLoRa>().unwrap();
    let log_before = dev.spi.bus.log.clone();
    let dev: SimDevice<ModeUninitialized> = dev.reset().unwrap();
    assert_eq!(dev.spi.bus.log, log_before);
    assert!(dev.reset_pin.high);
    // The hold interval was honoured.
    assert!(dev.delay.elapsed_us >= 100_000);
}

#[test]
fn wait_for_irq_returns_once_the_mask_matches() {
    let dev = fresh_device(0);
    let mut dev = dev.set_operating_mode::<ModeLoRa>().unwrap();
    // Nothing pending: the bounded poll loop gives up.
    assert_eq!(
        dev.wait_for_irq(SX1280Interrupt(IRQ_TX_DONE), false, 3),
        Err(SX1280Error::Timeout)
    );
    // Raise the flag: the next wait sees it and, asked to clear, clears it.
    dev.spi.bus.irq = IRQ_TX_DONE;
    assert_eq!(dev.wait_for_irq(SX1280Interrupt(IRQ_TX_DONE), true, 3), Ok(()));
    assert_eq!(dev.spi.bus.irq, 0);
}

#[test]
fn a_second_acquisition_fails_fast() {
    let mut spi = SpiDevice::new(SimChipBus::new(), SimPin::new()).unwrap();
    let mut delay = SimDelay::new();
    let guard = spi.start_transaction(&mut delay).unwrap();
    // Chip-select is asserted (low) while the guard lives.
    assert!(!guard.cs.high);
    assert_eq!(
        spi.start_transaction(&mut delay).err(),
        Some(SpiError::AlreadyStarted)
    );
    spi.end_transaction(guard).unwrap();
    // After release the pin is back, deasserted, and usable again.
    match &spi.cs {
        Some(pin) => assert!(pin.high),
        None => panic!("chip-select pin was not returned"),
    }
    let guard = spi.start_transaction(&mut delay).unwrap();
    spi.end_transaction(guard).unwrap();
}

#[test]
fn a_faulting_chip_select_surfaces_as_a_pin_error() {
    let spi = SpiDevice::new(SimChipBus::new(), SimStuckHighPin::new()).unwrap();
    let mut dev =
        SX1280::new(spi, SimBusyPin::new(0), SimPin::new(), SimDelay::new()).unwrap();
    // Asserting chip-select fails, so no byte reaches the bus and the
    // fault is reported, not swallowed.
    assert_eq!(
        dev.command(GetStatusCommand),
        Err(SX1280Error::SpiTransactionError(SpiError::PinError))
    );
    assert_eq!(dev.spi.bus.log, Vec::<u8>::new());
}

#[test]
fn command_and_wait_sequences_send_then_wait() {
    let mut dev = fresh_device(0);
    assert!(dev.command_and_wait(SetStandbyModeCommand { mode: StandbyMode::StandbyRC }, 1000).is_ok());
    assert_eq!(dev.spi.bus.log, vec![0x80, 0x00]);
}
