//! Bring-up of the badge's I2C peripherals.
//!
//! After the I2C peripheral is up, the badge selects mux channel 7 (the
//! system bus), secures the USB serial link, initialises the BQ25895
//! charger and then the three AW9523B expanders, and finally switches on
//! the LED power. The order matters: pin 4 of the expander at 0x5A selects
//! where USB is routed (low: to the ESP32), and while it floats the host
//! loses the serial port. So 0x5A is never soft-reset, and its output
//! register is written (pin 4 low) before the pin is made an output.
//!
//! The charger is reset, given its setup block (registers 0x02 to 0x05)
//! and has its watchdog disabled (register 0x07). Each expander is reset
//! (except 0x5A), has its interrupts masked, its directions set, push-pull
//! outputs selected, and its sixteen registers from 0x20 cleared.
//!
//! [`init_sequence`] lists the steps; the caller performs them in order.

use vstd::prelude::*;
use crate::pins::Pins;

verus! {

/// One step of the bring-up.
#[derive(Debug, PartialEq, Eq)]
pub enum InitStep {
    /// Write these bytes to the device at this I2C address.
    Write(u8, Vec<u8>),
    /// Wait this many milliseconds.
    DelayMs(u32),
}

/// What a step does, with the written bytes as a sequence.
pub ghost enum InitStepView {
    Write(u8, Seq<u8>),
    DelayMs(u32),
}

impl View for InitStep {
    type V = InitStepView;

    open spec fn view(&self) -> InitStepView {
        match self {
            InitStep::Write(address, data) => InitStepView::Write(*address, data@),
            InitStep::DelayMs(ms) => InitStepView::DelayMs(*ms),
        }
    }
}

/// Address of the I2C multiplexer.
pub const MUX_ADDRESS: u8 = 0x77;

/// Address of the expander that holds the USB mux select and LED power pins.
pub const USB_EXPANDER: u8 = 0x5A;

/// AW9523B registers written during bring-up.
pub const REG_OUTPUT_P0: u8 = 0x02;
pub const REG_CONFIG_P0: u8 = 0x04;
pub const REG_INT_P0: u8 = 0x06;
pub const REG_CTL: u8 = 0x11;
pub const REG_SW_RSTN: u8 = 0x7F;
/// First of the sixteen AW9523B registers cleared at bring-up.
pub const REG_BLOCK_0X20: u8 = 0x20;

/// Address of the BQ25895 charger.
pub const CHARGER: u8 = 0x6A;
/// BQ25895 register 0x14: writing 0x80 resets the registers.
pub const REG_CHARGER_RESET: u8 = 0x14;
/// BQ25895 register 0x02, the first of the four-register setup block.
pub const REG_CHARGER_SETUP: u8 = 0x02;
/// BQ25895 register 0x07: watchdog and termination control.
pub const REG_CHARGER_TIMER: u8 = 0x07;

/// The charger's bring-up: a register reset, the setup block written from
/// register 0x02, and the watchdog disabled.
pub open spec fn charger_steps() -> Seq<InitStepView> {
    seq![
        InitStepView::Write(CHARGER, seq![REG_CHARGER_RESET, 0x80u8]),
        InitStepView::Write(CHARGER, seq![REG_CHARGER_SETUP, 0x60u8, 0x10u8, 0x18u8, 0x00u8]),
        InitStepView::Write(CHARGER, seq![REG_CHARGER_TIMER, 0x8Cu8]),
    ]
}

/// Register 0x20 followed by sixteen zero bytes.
pub open spec fn cleared_block() -> Seq<u8> {
    seq![REG_BLOCK_0X20] + Seq::new(16, |i: int| 0u8)
}

/// Port 0 direction of 0x5A: pins 2, 4 and 5 are outputs (zero bits).
pub const USB_EXPANDER_DIRECTION_P0: u8 = 0xCB;

/// The steps that bring up one expander: a soft reset (except on 0x5A,
/// where it would float the USB select pin) followed by a 2 ms wait, all
/// interrupts masked, the port directions, and push-pull outputs.
pub open spec fn expander_steps(address: u8) -> Seq<InitStepView> {
    let direction_p0: u8 = if address == USB_EXPANDER {
        USB_EXPANDER_DIRECTION_P0
    } else {
        0xFF
    };
    let reset: Seq<InitStepView> = if address != USB_EXPANDER {
        seq![InitStepView::Write(address, seq![REG_SW_RSTN, 0x00u8]), InitStepView::DelayMs(2)]
    } else {
        seq![]
    };
    reset + seq![
        InitStepView::Write(address, seq![REG_INT_P0, 0xFFu8, 0xFFu8]),
        InitStepView::Write(address, seq![REG_CONFIG_P0, direction_p0, 0xFFu8]),
        InitStepView::Write(address, seq![REG_CTL, 0x10u8]),
        InitStepView::Write(address, cleared_block()),
    ]
}

/// The whole bring-up.
pub open spec fn spec_init_sequence() -> Seq<InitStepView> {
    seq![
        InitStepView::Write(MUX_ADDRESS, seq![0x80u8]),
        InitStepView::Write(USB_EXPANDER, seq![REG_OUTPUT_P0, 0x00u8]),
        InitStepView::Write(USB_EXPANDER, seq![REG_CONFIG_P0, USB_EXPANDER_DIRECTION_P0, 0xFFu8]),
    ] + charger_steps() + expander_steps(0x58) + expander_steps(0x59) + expander_steps(0x5A) + seq![
        InitStepView::Write(USB_EXPANDER, seq![REG_OUTPUT_P0, 0x04u8]),
    ]
}

fn bytes1(a: u8) -> (v: Vec<u8>)
    ensures
        v@ == seq![a],
{
    let mut v: Vec<u8> = Vec::new();
    v.push(a);
    assert(v@ =~= seq![a]);
    v
}

fn bytes2(a: u8, b: u8) -> (v: Vec<u8>)
    ensures
        v@ == seq![a, b],
{
    let mut v: Vec<u8> = Vec::new();
    v.push(a);
    v.push(b);
    assert(v@ =~= seq![a, b]);
    v
}

fn bytes3(a: u8, b: u8, c: u8) -> (v: Vec<u8>)
    ensures
        v@ == seq![a, b, c],
{
    let mut v: Vec<u8> = Vec::new();
    v.push(a);
    v.push(b);
    v.push(c);
    assert(v@ =~= seq![a, b, c]);
    v
}

fn cleared_block_bytes() -> (v: Vec<u8>)
    ensures
        v@ == cleared_block(),
{
    let mut v: Vec<u8> = Vec::new();
    v.push(REG_BLOCK_0X20);
    let mut i: usize = 0;
    while i < 16
        invariant
            i <= 16,
            v@ =~= seq![REG_BLOCK_0X20] + Seq::new(i as nat, |k: int| 0u8),
        decreases 16 - i,
    {
        v.push(0);
        i = i + 1;
    }
    v
}

fn bytes5(a: u8, b: u8, c: u8, d: u8, e: u8) -> (v: Vec<u8>)
    ensures
        v@ == seq![a, b, c, d, e],
{
    let mut v: Vec<u8> = Vec::new();
    v.push(a);
    v.push(b);
    v.push(c);
    v.push(d);
    v.push(e);
    assert(v@ =~= seq![a, b, c, d, e]);
    v
}

fn write_step(address: u8, data: Vec<u8>) -> (s: InitStep)
    ensures
        s@ == InitStepView::Write(address, data@),
{
    InitStep::Write(address, data)
}

/// Append the steps that bring up the expander at `address`.
fn push_expander_steps(plan: &mut Vec<InitStep>, address: u8)
    ensures
        final(plan)@.map_values(|s: InitStep| s@) == old(plan)@.map_values(|s: InitStep| s@)
            + expander_steps(address),
{
    let ghost start = plan@.map_values(|s: InitStep| s@);
    if address != USB_EXPANDER {
        plan.push(write_step(address, bytes2(REG_SW_RSTN, 0x00)));
        plan.push(InitStep::DelayMs(2));
    }
    plan.push(write_step(address, bytes3(REG_INT_P0, 0xFF, 0xFF)));
    let direction_p0: u8 = if address == USB_EXPANDER {
        USB_EXPANDER_DIRECTION_P0
    } else {
        0xFF
    };
    plan.push(write_step(address, bytes3(REG_CONFIG_P0, direction_p0, 0xFF)));
    plan.push(write_step(address, bytes2(REG_CTL, 0x10)));
    plan.push(write_step(address, cleared_block_bytes()));
    assert(plan@.map_values(|s: InitStep| s@) =~= start + expander_steps(address));
}

/// The bring-up steps, in the order they are performed.
pub fn init_sequence() -> (plan: Vec<InitStep>)
    ensures
        plan@.map_values(|s: InitStep| s@) == spec_init_sequence(),
{
    let pins = Pins::new();
    let mut plan: Vec<InitStep> = Vec::new();
    // Select mux channel 7, the system bus.
    plan.push(write_step(MUX_ADDRESS, bytes1(0x80)));
    // Secure USB serial: pin 4 of 0x5A is driven low before it becomes an output.
    plan.push(write_step(USB_EXPANDER, bytes2(REG_OUTPUT_P0, 0x00)));
    plan.push(write_step(USB_EXPANDER, bytes3(REG_CONFIG_P0, USB_EXPANDER_DIRECTION_P0, 0xFF)));
    // The charger: reset, setup block, watchdog off.
    plan.push(write_step(CHARGER, bytes2(REG_CHARGER_RESET, 0x80)));
    plan.push(write_step(CHARGER, bytes5(REG_CHARGER_SETUP, 0x60, 0x10, 0x18, 0x00)));
    plan.push(write_step(CHARGER, bytes2(REG_CHARGER_TIMER, 0x8C)));
    let ghost head = plan@.map_values(|s: InitStep| s@);
    assert(head =~= seq![
        InitStepView::Write(MUX_ADDRESS, seq![0x80u8]),
        InitStepView::Write(USB_EXPANDER, seq![REG_OUTPUT_P0, 0x00u8]),
        InitStepView::Write(USB_EXPANDER, seq![REG_CONFIG_P0, USB_EXPANDER_DIRECTION_P0, 0xFFu8]),
    ] + charger_steps());
    push_expander_steps(&mut plan, 0x58);
    push_expander_steps(&mut plan, 0x59);
    push_expander_steps(&mut plan, 0x5A);
    // LED power on (pin 2 of 0x5A), pins 4 and 5 low.
    let led_power = pins.led.power_enable.bit();
    assert(1u8 << 2u8 == 4u8) by (bit_vector);
    let ghost before = plan@.map_values(|s: InitStep| s@);
    plan.push(write_step(USB_EXPANDER, bytes2(REG_OUTPUT_P0, led_power)));
    assert(plan@.map_values(|s: InitStep| s@) =~= before + seq![
        InitStepView::Write(USB_EXPANDER, seq![REG_OUTPUT_P0, 0x04u8]),
    ]);
    assert(plan@.map_values(|s: InitStep| s@) =~= spec_init_sequence());
    plan
}

/// The bring-up, step by step.
proof fn lemma_init_sequence_listing()
    ensures
        spec_init_sequence().len() == 23,
        spec_init_sequence()[0] == InitStepView::Write(MUX_ADDRESS, seq![0x80u8]),
        spec_init_sequence()[1] == InitStepView::Write(USB_EXPANDER, seq![REG_OUTPUT_P0, 0x00u8]),
        spec_init_sequence()[2] == InitStepView::Write(USB_EXPANDER, seq![REG_CONFIG_P0, USB_EXPANDER_DIRECTION_P0, 0xFFu8]),
        spec_init_sequence()[3] == InitStepView::Write(CHARGER, seq![REG_CHARGER_RESET, 0x80u8]),
        spec_init_sequence()[4] == InitStepView::Write(CHARGER, seq![REG_CHARGER_SETUP, 0x60u8, 0x10u8, 0x18u8, 0x00u8]),
        spec_init_sequence()[5] == InitStepView::Write(CHARGER, seq![REG_CHARGER_TIMER, 0x8Cu8]),
        spec_init_sequence()[6] == InitStepView::Write(0x58u8, seq![REG_SW_RSTN, 0x00u8]),
        spec_init_sequence()[7] == InitStepView::DelayMs(2),
        spec_init_sequence()[8] == InitStepView::Write(0x58u8, seq![REG_INT_P0, 0xFFu8, 0xFFu8]),
        spec_init_sequence()[9] == InitStepView::Write(0x58u8, seq![REG_CONFIG_P0, 0xFFu8, 0xFFu8]),
        spec_init_sequence()[10] == InitStepView::Write(0x58u8, seq![REG_CTL, 0x10u8]),
        spec_init_sequence()[11] == InitStepView::Write(0x58u8, cleared_block()),
        spec_init_sequence()[12] == InitStepView::Write(0x59u8, seq![REG_SW_RSTN, 0x00u8]),
        spec_init_sequence()[13] == InitStepView::DelayMs(2),
        spec_init_sequence()[14] == InitStepView::Write(0x59u8, seq![REG_INT_P0, 0xFFu8, 0xFFu8]),
        spec_init_sequence()[15] == InitStepView::Write(0x59u8, seq![REG_CONFIG_P0, 0xFFu8, 0xFFu8]),
        spec_init_sequence()[16] == InitStepView::Write(0x59u8, seq![REG_CTL, 0x10u8]),
        spec_init_sequence()[17] == InitStepView::Write(0x59u8, cleared_block()),
        spec_init_sequence()[18] == InitStepView::Write(0x5Au8, seq![REG_INT_P0, 0xFFu8, 0xFFu8]),
        spec_init_sequence()[19] == InitStepView::Write(0x5Au8, seq![REG_CONFIG_P0, USB_EXPANDER_DIRECTION_P0, 0xFFu8]),
        spec_init_sequence()[20] == InitStepView::Write(0x5Au8, seq![REG_CTL, 0x10u8]),
        spec_init_sequence()[21] == InitStepView::Write(0x5Au8, cleared_block()),
        spec_init_sequence()[22] == InitStepView::Write(USB_EXPANDER, seq![REG_OUTPUT_P0, 0x04u8]),
{
    let s = spec_init_sequence();
    let z = cleared_block();
    assert(z[0] == REG_BLOCK_0X20);
    assert(s =~= seq![
        InitStepView::Write(MUX_ADDRESS, seq![0x80u8]),
        InitStepView::Write(USB_EXPANDER, seq![REG_OUTPUT_P0, 0x00u8]),
        InitStepView::Write(USB_EXPANDER, seq![REG_CONFIG_P0, USB_EXPANDER_DIRECTION_P0, 0xFFu8]),
        InitStepView::Write(CHARGER, seq![REG_CHARGER_RESET, 0x80u8]),
        InitStepView::Write(CHARGER, seq![REG_CHARGER_SETUP, 0x60u8, 0x10u8, 0x18u8, 0x00u8]),
        InitStepView::Write(CHARGER, seq![REG_CHARGER_TIMER, 0x8Cu8]),
        InitStepView::Write(0x58u8, seq![REG_SW_RSTN, 0x00u8]),
        InitStepView::DelayMs(2),
        InitStepView::Write(0x58u8, seq![REG_INT_P0, 0xFFu8, 0xFFu8]),
        InitStepView::Write(0x58u8, seq![REG_CONFIG_P0, 0xFFu8, 0xFFu8]),
        InitStepView::Write(0x58u8, seq![REG_CTL, 0x10u8]),
        InitStepView::Write(0x58u8, z),
        InitStepView::Write(0x59u8, seq![REG_SW_RSTN, 0x00u8]),
        InitStepView::DelayMs(2),
        InitStepView::Write(0x59u8, seq![REG_INT_P0, 0xFFu8, 0xFFu8]),
        InitStepView::Write(0x59u8, seq![REG_CONFIG_P0, 0xFFu8, 0xFFu8]),
        InitStepView::Write(0x59u8, seq![REG_CTL, 0x10u8]),
        InitStepView::Write(0x59u8, z),
        InitStepView::Write(0x5Au8, seq![REG_INT_P0, 0xFFu8, 0xFFu8]),
        InitStepView::Write(0x5Au8, seq![REG_CONFIG_P0, USB_EXPANDER_DIRECTION_P0, 0xFFu8]),
        InitStepView::Write(0x5Au8, seq![REG_CTL, 0x10u8]),
        InitStepView::Write(0x5Au8, z),
        InitStepView::Write(USB_EXPANDER, seq![REG_OUTPUT_P0, 0x04u8]),
    ]);
    assert(s.len() == 23);
}

/// The bring-up never soft-resets the expander at 0x5A, and every value it
/// writes to that expander's port 0 output register keeps pin 4 (the USB mux
/// select) low.
pub proof fn law_usb_select_never_floats(i: int)
    requires
        0 <= i < spec_init_sequence().len(),
    ensures
        spec_init_sequence()[i] matches InitStepView::Write(address, data) ==> (address
            == USB_EXPANDER && data.len() > 0 ==> data[0] != REG_SW_RSTN),
        spec_init_sequence()[i] matches InitStepView::Write(address, data) ==> (address
            == USB_EXPANDER && data.len() > 1 && data[0] == REG_OUTPUT_P0 ==> data[1] & 0x10u8
            == 0),
{
    lemma_init_sequence_listing();
    assert(0x00u8 & 0x10u8 == 0u8 && 0x04u8 & 0x10u8 == 0u8) by (bit_vector);
}

/// The mux is switched to the system bus before anything else, and the
/// expander at 0x5A has its output register written (pin 4 low) before any
/// write to its direction register.
pub proof fn law_usb_output_written_before_direction(i: int)
    requires
        0 <= i < spec_init_sequence().len(),
        spec_init_sequence()[i] matches InitStepView::Write(address, data) && address
            == USB_EXPANDER && data.len() > 0 && data[0] == REG_CONFIG_P0,
    ensures
        spec_init_sequence()[0] == InitStepView::Write(MUX_ADDRESS, seq![0x80u8]),
        exists|k: int|
            0 <= k < i && #[trigger] spec_init_sequence()[k] == InitStepView::Write(
                USB_EXPANDER,
                seq![REG_OUTPUT_P0, 0x00u8],
            ),
{
    let s = spec_init_sequence();
    assert(s[1] == InitStepView::Write(USB_EXPANDER, seq![REG_OUTPUT_P0, 0x00u8]));
    assert(s[0] == InitStepView::Write(MUX_ADDRESS, seq![0x80u8]));
    assert(i != 0 && i != 1);
}

/// The bring-up of an expander other than 0x5A makes every one of its pins
/// an input: its one write to the direction registers (0x04, 0x05) is
/// `[0x04, 0xFF, 0xFF]`. On 0x5A that write is `[0x04, 0xCB, 0xFF]`: port 0
/// pins 2, 4 and 5 become outputs, all others inputs.
pub proof fn law_expander_direction_write(address: u8)
    ensures
        exists|k: int|
            0 <= k < expander_steps(address).len() && #[trigger] expander_steps(address)[k]
                == InitStepView::Write(
                address,
                if address == 0x5Au8 {
                    seq![0x04u8, 0xCBu8, 0xFFu8]
                } else {
                    seq![0x04u8, 0xFFu8, 0xFFu8]
                },
            ),
        forall|k: int|
            0 <= k < expander_steps(address).len() ==> (#[trigger] expander_steps(address)[k] matches InitStepView::Write(
                a,
                data,
            ) ==> (a == address && data.len() > 0 && data[0] == 0x04u8 ==> data == if address
                == 0x5Au8 {
                seq![0x04u8, 0xCBu8, 0xFFu8]
            } else {
                seq![0x04u8, 0xFFu8, 0xFFu8]
            })),
{
    let e = expander_steps(address);
    let z = cleared_block();
    assert(z[0] == 0x20u8);
    if address == 0x5Au8 {
        assert(e[1] == InitStepView::Write(address, seq![0x04u8, 0xCBu8, 0xFFu8]));
        assert(e.len() == 4);
        assert(e[0] == InitStepView::Write(address, seq![REG_INT_P0, 0xFFu8, 0xFFu8]));
        assert(e[2] == InitStepView::Write(address, seq![REG_CTL, 0x10u8]));
        assert(e[3] == InitStepView::Write(address, z));
    } else {
        assert(e[3] == InitStepView::Write(address, seq![0x04u8, 0xFFu8, 0xFFu8]));
        assert(e.len() == 6);
        assert(e[0] == InitStepView::Write(address, seq![REG_SW_RSTN, 0x00u8]));
        assert(e[1] == InitStepView::DelayMs(2));
        assert(e[2] == InitStepView::Write(address, seq![REG_INT_P0, 0xFFu8, 0xFFu8]));
        assert(e[4] == InitStepView::Write(address, seq![REG_CTL, 0x10u8]));
        assert(e[5] == InitStepView::Write(address, z));
    }
}

/// In the whole bring-up, every write to the direction registers of the
/// expanders at 0x58 and 0x59 makes all their pins inputs (so the buttons on
/// port 0 of 0x59 can be read), and each of the two gets such a write.
pub proof fn law_button_expanders_start_as_inputs(i: int)
    requires
        0 <= i < spec_init_sequence().len(),
    ensures
        spec_init_sequence()[i] matches InitStepView::Write(address, data) ==> ((address
            == 0x58u8 || address == 0x59u8) && data.len() > 0 && data[0] == 0x04u8 ==> data
            == seq![0x04u8, 0xFFu8, 0xFFu8]),
        exists|k: int|
            0 <= k < spec_init_sequence().len() && #[trigger] spec_init_sequence()[k]
                == InitStepView::Write(0x58u8, seq![0x04u8, 0xFFu8, 0xFFu8]),
        exists|k: int|
            0 <= k < spec_init_sequence().len() && #[trigger] spec_init_sequence()[k]
                == InitStepView::Write(0x59u8, seq![0x04u8, 0xFFu8, 0xFFu8]),
{
    lemma_init_sequence_listing();
    assert(cleared_block()[0] == 0x20u8);
    assert(spec_init_sequence()[9] == InitStepView::Write(0x58u8, seq![0x04u8, 0xFFu8, 0xFFu8]));
    assert(spec_init_sequence()[15] == InitStepView::Write(0x59u8, seq![0x04u8, 0xFFu8, 0xFFu8]));
}

/// The write made just before the battery is disconnected: every output of
/// port 0 of the expander at 0x5A low, which switches off the LED supply
/// (pin 2) and the secondary switch (pin 5) and keeps the USB select pin
/// (pin 4) low.
pub fn outputs_off_step() -> (step: InitStep)
    ensures
        step@ == InitStepView::Write(USB_EXPANDER, seq![REG_OUTPUT_P0, 0x00u8]),
{
    write_step(USB_EXPANDER, bytes2(REG_OUTPUT_P0, 0x00))
}

} // verus!
