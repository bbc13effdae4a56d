//! Buttons on the badge's hex pad.
//!
//! Buttons C to F are bits 0 to 3 of port 0 of the expander at 0x59, buttons
//! A and B bits 6 and 7 of port 0 of the expander at 0x5A. The inputs are
//! active low: a cleared bit is a pressed button. Polling reads both port
//! registers and reports a press or release for every button whose bit
//! changed since the previous poll.

use vstd::prelude::*;
use crate::i2c::SystemI2cBus;
use crate::pins::pin::bit_is_set;

verus! {

/// A button on the badge's hex pad.
#[derive(Debug, Clone, Copy, PartialEq, Eq, Structural)]
pub enum Button {
    A,
    B,
    C,
    D,
    E,
    F,
}

/// A button press or release.
#[derive(Debug, Clone, Copy, PartialEq, Eq, Structural)]
pub enum ButtonEvent {
    Pressed(Button),
    Released(Button),
}

/// Capacity of the event list one poll returns.
pub const MAX_EVENTS_PER_POLL: usize = 12;

/// The events a poll returns, in order.
pub uninterp spec fn poll_events(v: heapless::Vec<ButtonEvent, 12>) -> Seq<ButtonEvent>;

/// `heapless::Vec::new`: an empty vector.
#[verifier::external_body]
fn events_new() -> (v: heapless::Vec<ButtonEvent, 12>)
    ensures
        poll_events(v) == Seq::<ButtonEvent>::empty(),
{
    heapless::Vec::new()
}

/// `heapless::Vec::push`: appends the item when the vector holds fewer than
/// its capacity of 12 items, and hands the item back otherwise.
#[verifier::external_body]
fn events_push(v: &mut heapless::Vec<ButtonEvent, 12>, item: ButtonEvent) -> (r: Result<(), ButtonEvent>)
    ensures
        r is Ok <==> poll_events(*old(v)).len() < 12,
        r is Err ==> r->Err_0 == item,
        poll_events(*final(v)) == if poll_events(*old(v)).len() < 12 {
            poll_events(*old(v)).push(item)
        } else {
            poll_events(*old(v))
        },
{
    v.push(item)
}

/// The event for one button bit: none when the bit did not change, a
/// release when it is now high and a press when it is now low.
pub open spec fn button_event_at(changed: u8, current: u8, bit: u8, button: Button) -> Seq<
    ButtonEvent,
> {
    if bit_is_set(changed, bit) {
        seq![
            if bit_is_set(current, bit) {
                ButtonEvent::Released(button)
            } else {
                ButtonEvent::Pressed(button)
            },
        ]
    } else {
        seq![]
    }
}

/// The events of a poll that read `port0_59` and `port0_5a` after the
/// previous poll had read `last_59` and `last_5a`: buttons C, D, E, F, A, B,
/// in that order.
pub open spec fn spec_poll_events(last_59: u8, last_5a: u8, port0_59: u8, port0_5a: u8) -> Seq<
    ButtonEvent,
> {
    let changed_59 = port0_59 ^ last_59;
    let changed_5a = port0_5a ^ last_5a;
    button_event_at(changed_59, port0_59, 0, Button::C) + button_event_at(
        changed_59,
        port0_59,
        1,
        Button::D,
    ) + button_event_at(changed_59, port0_59, 2, Button::E) + button_event_at(
        changed_59,
        port0_59,
        3,
        Button::F,
    ) + button_event_at(changed_5a, port0_5a, 6, Button::A) + button_event_at(
        changed_5a,
        port0_5a,
        7,
        Button::B,
    )
}

proof fn lemma_mask_test(x: u8, bit: u8)
    requires
        bit < 8,
    ensures
        (x & (1u8 << bit) != 0u8) == bit_is_set(x, bit),
{
    assert((x & (1u8 << bit) != 0u8) == ((x >> bit) & 1u8 == 1u8)) by (bit_vector)
        requires
            bit < 8,
    ;
}

/// Append the event of one button bit, if its bit changed.
fn check_button(
    events: &mut heapless::Vec<ButtonEvent, 12>,
    changed: u8,
    current: u8,
    bit: u8,
    button: Button,
)
    requires
        bit < 8,
        poll_events(*old(events)).len() < 12,
    ensures
        poll_events(*final(events)) == poll_events(*old(events)) + button_event_at(
            changed,
            current,
            bit,
            button,
        ),
{
    proof {
        lemma_mask_test(changed, bit);
        lemma_mask_test(current, bit);
    }
    if changed & (1u8 << bit) != 0 {
        let event = if current & (1u8 << bit) == 0 {
            ButtonEvent::Pressed(button)
        } else {
            ButtonEvent::Released(button)
        };
        let _ = events_push(events, event);
        assert(poll_events(*events) =~= poll_events(*old(events)) + button_event_at(
            changed,
            current,
            bit,
            button,
        ));
    } else {
        assert(poll_events(*events) =~= poll_events(*old(events)) + button_event_at(
            changed,
            current,
            bit,
            button,
        ));
    }
}

/// A button reader over the mux-aware system I2C bus.
///
/// Polls both button expanders and reports changes against the previous
/// readings. Both readings start all high (no button pressed).
pub struct TypedButtons<BUS> {
    system_i2c: SystemI2cBus<BUS>,
    last_state_59: u8,
    last_state_5a: u8,
}

impl<BUS> TypedButtons<BUS> {
    pub closed spec fn spec_bus(&self) -> SystemI2cBus<BUS> {
        self.system_i2c
    }

    /// The port 0 reading of the expander at 0x59 at the previous poll.
    pub closed spec fn spec_last_59(&self) -> u8 {
        self.last_state_59
    }

    /// The port 0 reading of the expander at 0x5A at the previous poll.
    pub closed spec fn spec_last_5a(&self) -> u8 {
        self.last_state_5a
    }

    /// Create a reader; no button counts as pressed until a poll says so.
    pub fn new(system_i2c: SystemI2cBus<BUS>) -> (b: Self)
        ensures
            b.spec_bus() == system_i2c,
            b.spec_last_59() == 0xFF,
            b.spec_last_5a() == 0xFF,
    {
        TypedButtons { system_i2c, last_state_59: 0xFF, last_state_5a: 0xFF }
    }

    /// The bus the reader polls on, for a transaction.
    pub fn bus_mut(&mut self) -> (b: &mut SystemI2cBus<BUS>)
        ensures
            *b == old(self).spec_bus(),
            final(self).spec_bus() == *final(b),
            final(self).spec_last_59() == old(self).spec_last_59(),
            final(self).spec_last_5a() == old(self).spec_last_5a(),
    {
        &mut self.system_i2c
    }

    /// The previous readings, as (0x59 port 0, 0x5A port 0).
    pub fn last_states(&self) -> (s: (u8, u8))
        ensures
            s == (self.spec_last_59(), self.spec_last_5a()),
    {
        (self.last_state_59, self.last_state_5a)
    }

    /// The two reads a poll makes: for each, the expander's address and the
    /// register to read (the port 0 input register, 0x00).
    pub fn poll_reads(&self) -> (reads: [(u8, u8); 2])
        ensures
            reads@ == seq![(0x59u8, 0x00u8), (0x5Au8, 0x00u8)],
    {
        [(0x59, 0x00), (0x5A, 0x00)]
    }

    /// The part of a poll after the two reads: given the new port 0 readings
    /// of the expanders at 0x59 and 0x5A, report a press or release for each
    /// button whose bit changed, and remember the readings.
    pub fn poll(&mut self, port0_59: u8, port0_5a: u8) -> (events: heapless::Vec<ButtonEvent, 12>)
        ensures
            poll_events(events) == spec_poll_events(
                old(self).spec_last_59(),
                old(self).spec_last_5a(),
                port0_59,
                port0_5a,
            ),
            final(self).spec_last_59() == port0_59,
            final(self).spec_last_5a() == port0_5a,
            final(self).spec_bus() == old(self).spec_bus(),
    {
        let changed_59 = port0_59 ^ self.last_state_59;
        let changed_5a = port0_5a ^ self.last_state_5a;
        if changed_59 == 0 && changed_5a == 0 {
            proof {
                lemma_no_change_no_events(port0_59, port0_5a, changed_59, changed_5a);
                lemma_xor_zero(port0_59, self.last_state_59);
                lemma_xor_zero(port0_5a, self.last_state_5a);
            }
            return events_new();
        }
        let mut events = events_new();
        check_button(&mut events, changed_59, port0_59, 0, Button::C);
        check_button(&mut events, changed_59, port0_59, 1, Button::D);
        check_button(&mut events, changed_59, port0_59, 2, Button::E);
        check_button(&mut events, changed_59, port0_59, 3, Button::F);
        check_button(&mut events, changed_5a, port0_5a, 6, Button::A);
        check_button(&mut events, changed_5a, port0_5a, 7, Button::B);
        self.last_state_59 = port0_59;
        self.last_state_5a = port0_5a;
        events
    }
}

proof fn lemma_xor_zero(a: u8, b: u8)
    requires
        a ^ b == 0,
    ensures
        a == b,
{
    assert(a ^ b == 0u8 ==> a == b) by (bit_vector);
}

proof fn lemma_no_change_no_events(port0_59: u8, port0_5a: u8, changed_59: u8, changed_5a: u8)
    requires
        changed_59 == 0,
        changed_5a == 0,
    ensures
        button_event_at(changed_59, port0_59, 0, Button::C) + button_event_at(
            changed_59,
            port0_59,
            1,
            Button::D,
        ) + button_event_at(changed_59, port0_59, 2, Button::E) + button_event_at(
            changed_59,
            port0_59,
            3,
            Button::F,
        ) + button_event_at(changed_5a, port0_5a, 6, Button::A) + button_event_at(
            changed_5a,
            port0_5a,
            7,
            Button::B,
        ) =~= Seq::<ButtonEvent>::empty(),
{
    assert(forall|b: u8| #![trigger bit_is_set(0u8, b)] b < 8 ==> !bit_is_set(0u8, b)) by {
        assert forall|b: u8| b < 8 implies !bit_is_set(0u8, b) by {
            assert((0u8 >> b) & 1u8 == 0u8) by (bit_vector);
        }
    }
    assert(!bit_is_set(0u8, 0u8) && !bit_is_set(0u8, 1u8) && !bit_is_set(0u8, 2u8) && !bit_is_set(
        0u8,
        3u8,
    ) && !bit_is_set(0u8, 6u8) && !bit_is_set(0u8, 7u8));
}

/// Polling again with the readings of the previous poll reports nothing.
pub proof fn law_repeated_poll_is_quiet(port0_59: u8, port0_5a: u8)
    ensures
        spec_poll_events(port0_59, port0_5a, port0_59, port0_5a) =~= Seq::<ButtonEvent>::empty(),
{
    assert(port0_59 ^ port0_59 == 0u8) by (bit_vector);
    assert(port0_5a ^ port0_5a == 0u8) by (bit_vector);
    lemma_no_change_no_events(port0_59, port0_5a, port0_59 ^ port0_59, port0_5a ^ port0_5a);
}

/// A button whose bit falls is reported pressed, and one whose bit rises is
/// reported released: the reported state is always the new reading.
pub proof fn law_event_follows_new_reading(last: u8, current: u8, bit: u8, button: Button)
    requires
        bit < 8,
    ensures
        bit_is_set(last, bit) && !bit_is_set(current, bit) ==> button_event_at(
            current ^ last,
            current,
            bit,
            button,
        ) == seq![ButtonEvent::Pressed(button)],
        !bit_is_set(last, bit) && bit_is_set(current, bit) ==> button_event_at(
            current ^ last,
            current,
            bit,
            button,
        ) == seq![ButtonEvent::Released(button)],
        bit_is_set(last, bit) == bit_is_set(current, bit) ==> button_event_at(
            current ^ last,
            current,
            bit,
            button,
        ) == Seq::<ButtonEvent>::empty(),
{
    assert(((current ^ last) >> bit) & 1u8 == 1u8 <==> ((last >> bit) & 1u8 == 1u8) != ((current
        >> bit) & 1u8 == 1u8)) by (bit_vector)
        requires
            bit < 8,
    ;
}

/// The service that polls the buttons in the background; callers subscribe
/// to its stream of events.
pub struct ButtonManager;

} // verus!
