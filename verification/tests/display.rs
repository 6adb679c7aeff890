use cycle_fit::display::{none_if_stale, MsgDisplay, OptionDisplay};

#[test]
fn msg_display_keeps_its_message() {
    let d = MsgDisplay::new("Scanning for Devices");
    assert_eq!(d.0, "Scanning for Devices");
}

#[test]
fn option_display_keeps_its_choices() {
    let opts = ["Fixed", "Ramp"];
    let d = OptionDisplay::new(&opts);
    assert_eq!(d.0, &["Fixed", "Ramp"]);
}

#[test]
fn readings_go_stale_after_five_seconds() {
    assert_eq!(none_if_stale((180u16, 1000), 6000), Some((180, 1000)));
    assert_eq!(none_if_stale((180u16, 1000), 6001), None);
    assert_eq!(none_if_stale((90u8, 0), 0), Some((90, 0)));
}
