use mmio_hal::color::Color;
use mmio_hal::display_control::DisplayControl;
use mmio_hal::voladdress::RegisterValue;

#[test]
fn default_display_control_video_mode_is_zero() {
    assert_eq!(DisplayControl::new().video_mode(), 0);
    assert_eq!(DisplayControl::default().video_mode(), 0);
    assert_eq!(DisplayControl::new().to_bits(), 0);
}

#[test]
fn default_color_channels_are_zero() {
    let c = Color::new();
    assert_eq!(c.red(), 0);
    assert_eq!(c.green(), 0);
    assert_eq!(c.blue(), 0);
    assert_eq!(Color::default().to_bits(), 0);
}

#[test]
fn with_video_mode_accepts_every_legal_mode() {
    for m in 0..6u16 {
        let d = DisplayControl::new().with_video_mode(m);
        assert_eq!(d.video_mode(), m);
        let t = DisplayControl::new().try_with_video_mode(m);
        assert_eq!(t.unwrap().video_mode(), m);
    }
}

#[test]
fn with_video_mode_rejects_illegal_modes() {
    assert!(DisplayControl::new().try_with_video_mode(6).is_none());
    assert!(DisplayControl::new().try_with_video_mode(7).is_none());
    assert!(DisplayControl::new().try_with_video_mode(1000).is_none());
}

#[test]
fn video_mode_update_keeps_other_bits() {
    let d = DisplayControl::from_bits(0xFFF8);
    let d2 = d.with_video_mode(2);
    assert_eq!(d2.video_mode(), 2);
    assert_eq!(d2.to_bits() >> 3, 0xFFF8 >> 3);
    let d3 = d2.with_video_mode(5);
    assert_eq!(d3.video_mode(), 5);
    assert_eq!(d3.to_bits(), 0xFFF8 | 5);
}

#[test]
fn color_channel_round_trips_keep_other_channels() {
    let c = Color::new().with_red(31).with_green(2).with_blue(17);
    assert_eq!(c.red(), 31);
    assert_eq!(c.green(), 2);
    assert_eq!(c.blue(), 17);

    let c2 = c.with_green(30);
    assert_eq!(c2.red(), 31);
    assert_eq!(c2.green(), 30);
    assert_eq!(c2.blue(), 17);

    let c3 = c2.with_red(0);
    assert_eq!(c3.red(), 0);
    assert_eq!(c3.green(), 30);
    assert_eq!(c3.blue(), 17);

    let c4 = c3.with_blue(1);
    assert_eq!(c4.red(), 0);
    assert_eq!(c4.green(), 30);
    assert_eq!(c4.blue(), 1);
}

#[test]
fn color_packing_matches_the_documented_layout() {
    let c = Color::new().with_red(1).with_green(2).with_blue(3);
    assert_eq!(c.to_bits(), 1 | (2 << 5) | (3 << 10));
    let d = Color::from_bits(0x7FFF);
    assert_eq!(d.red(), 31);
    assert_eq!(d.green(), 31);
    assert_eq!(d.blue(), 31);
}

#[test]
fn from_bits_keeps_every_bit() {
    let d = DisplayControl::from_bits(0xABCD);
    assert_eq!(d.to_bits(), 0xABCD);
    let c = Color::from_bits(0x1234);
    assert_eq!(c.to_bits(), 0x1234);
}
