//! End-to-end: configure a transmitter and a receiver alike, send a payload
//! from one data buffer to the other, and read it back intact.

use sx1280::commands::clear_irq::ClearIrqCommand;
use sx1280::commands::get_irq_status::GetIrqStatusCommand;
use sx1280::commands::get_rx_buffer_status::GetRxBufferStatusCommand;
use sx1280::commands::set_buffer_base_address::SetBufferBaseAddressCommand;
use sx1280::commands::set_irq_params::SetIRQParametersCommand;
use sx1280::commands::set_modulation_parameters::{
    Bandwidth, CodingRate, SetLoraModulationParameters, SpreadingFactor,
};
use sx1280::commands::set_packet_parameters::{
    LoRaCrcMode, LoRaHeaderType, LoRaIQMode, LoRaPreambleLength, SetLoraPacketParameters,
};
use sx1280::commands::set_rf_frequency::SetRFFrequencyCommand;
use sx1280::commands::set_rx::{RxPeriod, SetRxModeCommand};
use sx1280::commands::set_standby::{SetStandbyModeCommand, StandbyMode};
use sx1280::commands::set_tx::{SetTxModeCommand, TxPeriod};
use sx1280::commands::set_tx_parameters::{SetTxParametersCommand, TxRampTime};
use sx1280::commands::{IRQ_RX_DONE, IRQ_TX_DONE, PeriodBase, SX1280Interrupt};
use sx1280::device::SX1280;
use sx1280::modes::{ModeLoRa, ModeUninitialized};
use sx1280::sim::{SimBusyPin, SimChipBus, SimDelay, SimPin};
use sx1280::spi::SpiDevice;

type SimDevice<M> = SX1280<SimChipBus, SimPin, SimBusyPin, SimPin, SimDelay, M>;

fn fresh_device() -> SimDevice<ModeUninitialized> {
    let spi = SpiDevice::new(SimChipBus::new(), SimPin::new()).unwrap();
    SX1280::new(spi, SimBusyPin::new(0), SimPin::new(), SimDelay::new()).unwrap()
}

fn configure(dev: SimDevice<ModeUninitialized>, payload_length: u8) -> SimDevice<ModeLoRa> {
    let dev = dev.reset().unwrap();
    let mut dev = dev.set_operating_mode::<ModeLoRa>().unwrap();
    dev.wait_for_busy(1000).unwrap();
    dev.command_and_wait(SetStandbyModeCommand { mode: StandbyMode::StandbyRC }, 1000).unwrap();
    dev.command_and_wait(SetRFFrequencyCommand(2_450_000_000u32), 1000).unwrap();
    dev.command_and_wait(
        SetBufferBaseAddressCommand { rx_base_address: 0, tx_base_address: 128 },
        1000,
    )
    .unwrap();
    dev.command_and_wait(
        SetLoraModulationParameters {
            spreading_factor: SpreadingFactor::SF7,
            bandwidth: Bandwidth::BW203k125Hz,
            coding_rate: CodingRate::CR4_7,
        },
        1000,
    )
    .unwrap();
    dev.command_and_wait(
        SetLoraPacketParameters {
            iq_mode: LoRaIQMode::Standard,
            crc_mode: LoRaCrcMode::Enabled,
            payload_length,
            header_type: LoRaHeaderType::Explicit,
            preamble_length: LoRaPreambleLength::try_from_count(20).unwrap(),
        },
        1000,
    )
    .unwrap();
    dev.command_and_wait(
        SetIRQParametersCommand {
            irq_mask: SX1280Interrupt(IRQ_TX_DONE | IRQ_RX_DONE),
            dio_mask: [SX1280Interrupt::empty(); 3],
        },
        1000,
    )
    .unwrap();
    dev.command_and_wait(ClearIrqCommand(SX1280Interrupt::all()), 1000).unwrap();
    dev
}

#[test]
fn transmit_and_receive_a_payload_between_two_devices() {
    let payload: Vec<u8> = vec![0, 1, 2, 8, 4, 5, 6, 7];
    let len = payload.len() as u8;

    // Device A transmits, device B receives; both get the same radio setup.
    let mut tx = configure(fresh_device(), len);
    let mut rx = configure(fresh_device(), len);
    tx.command_and_wait(
        SetTxParametersCommand { ramp: TxRampTime::Ramp10us, power: -18 },
        1000,
    )
    .unwrap();

    // The payload goes into A's buffer at the transmit base address.
    tx.write_buffer(128, &payload).unwrap();

    // Arm B's receiver, then fire a one-shot transmission on A.
    rx.command_and_wait(
        SetRxModeCommand { period: RxPeriod::OneShot, period_base: PeriodBase::Base4ms },
        1000,
    )
    .unwrap();
    tx.command_and_wait(
        SetTxModeCommand { period: TxPeriod::NoTimeout, period_base: PeriodBase::Base1ms },
        1000,
    )
    .unwrap();
    tx.wait_for_irq(SX1280Interrupt(IRQ_TX_DONE), true, 1000).unwrap();

    // The air between the two simulated chips.
    let on_air = tx.spi.bus.take_transmitted().expect("nothing was transmitted");
    assert_eq!(on_air, payload);
    rx.spi.bus.deliver(&on_air);

    // B's interrupt status shows the reception within a bounded wait.
    rx.wait_for_irq(SX1280Interrupt(IRQ_RX_DONE), false, 1000).unwrap();
    let flags = rx.command(GetIrqStatusCommand).unwrap();
    assert!(flags.intersects(SX1280Interrupt(IRQ_RX_DONE)));

    // The payload landed at B's receive base address, equal to what A sent.
    let status = rx.command(GetRxBufferStatusCommand).unwrap();
    assert_eq!(status.rx_payload_len, len);
    assert_eq!(status.rx_buffer_start_pointer, 0);
    let mut data = vec![0u8; payload.len()];
    rx.read_buffer(0, &mut data).unwrap();
    assert_eq!(data, payload);
}
