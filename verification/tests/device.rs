use drogue_board::button::{Button, ButtonEvent, InterruptAction};
use drogue_board::device::ButtonToLed;
use drogue_board::eswifi::{EsWifi, Initialize, INIT_TRANSFER_LEN};

#[test]
fn button_keeps_its_pin() {
    let b = Button::new(13u8);
    assert_eq!(b.pin, 13);
}

#[test]
fn interrupt_clears_only_when_pending() {
    let b = Button::new(());
    assert_eq!(b.interrupt_action(true), InterruptAction::ClearPending);
    assert_eq!(b.interrupt_action(false), InterruptAction::Ignore);
}

#[test]
fn button_events_are_distinct() {
    assert_ne!(ButtonEvent::Pressed, ButtonEvent::Released);
    let e = ButtonEvent::Pressed;
    let copy = e;
    assert_eq!(e, copy);
}

#[test]
fn button_to_led_keeps_its_handles() {
    let link = ButtonToLed::new("ld1", 221u16);
    assert_eq!(link.ld1, "ld1");
    assert_eq!(link.hts221, 221);
}

#[test]
fn eswifi_initialization_sends_zeros() {
    let w = EsWifi { spi: () };
    let buf = w.initialize_buffer(Initialize);
    assert_eq!(buf.len(), INIT_TRANSFER_LEN);
    assert!(buf.iter().all(|b| *b == 0));
}
