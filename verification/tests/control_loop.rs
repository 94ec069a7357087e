use vfd_marquee::control::{apply_incoming, control_step};
use vfd_marquee::scroll::ScrollRenderer;
use vfd_marquee::text::PowerCommand;

#[test]
fn new_text_is_classified_padded_and_stored() {
    let mut r = ScrollRenderer::new("");
    let cmd = apply_incoming(&mut r, "Hi");
    assert_eq!(cmd, Some(PowerCommand::On));
    assert_eq!(r.text_str(), "Hi..........");
}

#[test]
fn blank_text_asks_for_power_off() {
    let mut r = ScrollRenderer::new("");
    let cmd = apply_incoming(&mut r, "....");
    assert_eq!(cmd, Some(PowerCommand::Off));
    assert_eq!(r.text_str(), "............");
}

#[test]
fn second_delivery_of_the_same_text_is_a_no_op() {
    let mut r = ScrollRenderer::new("");
    let first = apply_incoming(&mut r, "Hello");
    assert_eq!(first, Some(PowerCommand::On));
    let second = apply_incoming(&mut r, "Hello");
    assert_eq!(second, None);
    assert_eq!(r.text_str(), "Hello.......");
}

#[test]
fn rendering_continues_uninterrupted_over_a_repeated_delivery() {
    let mut r = ScrollRenderer::new("");
    // a text longer than the display, so each frame moves by one character
    let (f0, cmd0) = control_step(&mut r, Some("Hello World abc"));
    assert_eq!(cmd0, Some(PowerCommand::On));
    assert_eq!(f0, "Hello World ");
    // the same text again: no reset, the window keeps moving
    let (f1, cmd1) = control_step(&mut r, Some("Hello World abc"));
    assert_eq!(cmd1, None);
    assert_eq!(f1, "ello World a");
    let (f2, cmd2) = control_step(&mut r, None);
    assert_eq!(cmd2, None);
    assert_eq!(f2, "llo World ab");
}

#[test]
fn quiet_iteration_still_renders_a_frame() {
    let mut r = ScrollRenderer::new("exactly12ch.");
    let (frame, cmd) = control_step(&mut r, None);
    assert_eq!(cmd, None);
    assert_eq!(frame, "exactly12ch.");
}

#[test]
fn changed_text_restarts_the_scroll_window() {
    let mut r = ScrollRenderer::new("");
    control_step(&mut r, Some("first message!"));
    control_step(&mut r, None);
    control_step(&mut r, None);
    let (frame, cmd) = control_step(&mut r, Some("second message"));
    assert_eq!(cmd, Some(PowerCommand::On));
    assert_eq!(frame, "second messa");
}
