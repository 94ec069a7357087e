use vfd_marquee::text::{pad_text, power_command_for, PowerCommand, DISPLAY_WIDTH};

#[test]
fn blank_text_powers_off() {
    assert_eq!(power_command_for("...."), PowerCommand::Off);
    assert_eq!(power_command_for(" ,."), PowerCommand::Off);
    assert_eq!(power_command_for(" "), PowerCommand::Off);
}

#[test]
fn empty_text_powers_off() {
    assert_eq!(power_command_for(""), PowerCommand::Off);
}

#[test]
fn ordinary_text_powers_on() {
    assert_eq!(power_command_for("Hi"), PowerCommand::On);
    assert_eq!(power_command_for("Hello World"), PowerCommand::On);
    assert_eq!(power_command_for("...a..."), PowerCommand::On);
}

#[test]
fn short_text_is_padded_to_display_width() {
    assert_eq!(pad_text("Hi"), "Hi..........");
    assert_eq!(pad_text("Hi").len(), DISPLAY_WIDTH);
    assert_eq!(pad_text(""), "............");
    assert_eq!(pad_text("Hello"), "Hello.......");
}

#[test]
fn blank_short_text_pads_to_all_placeholders() {
    assert_eq!(pad_text("...."), "............");
    assert_eq!(power_command_for("...."), PowerCommand::Off);
}

#[test]
fn wide_text_passes_through_unpadded() {
    assert_eq!(pad_text("exactly12ch."), "exactly12ch.");
    assert_eq!(pad_text("more than twelve chars"), "more than twelve chars");
}

#[test]
fn padding_is_idempotent() {
    let once = pad_text("Hi");
    let twice = pad_text(&once);
    assert_eq!(once, twice);
}
