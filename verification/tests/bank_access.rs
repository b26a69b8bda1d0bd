use mmio_hal::bank::MemoryBank;
use mmio_hal::color::Color;
use mmio_hal::display_control::DisplayControl;
use mmio_hal::mmio::backdrop_color;
use mmio_hal::mmio::dispcnt;
use mmio_hal::voladdress::RegisterValue;
use mmio_hal::voladdress::Safe;
use mmio_hal::voladdress::Unsafe;
use mmio_hal::voladdress::VolAddress;

#[test]
fn a_fresh_bank_reads_back_the_reset_word() {
    let bank = MemoryBank::new();
    let d: DisplayControl = dispcnt().read(&bank);
    assert_eq!(d.to_bits(), 0);
    assert_eq!(d.video_mode(), 0);
    assert_eq!(bank.load(12345), 0);
}

#[test]
fn write_then_read_reports_the_written_video_mode() {
    let mut bank = MemoryBank::new();
    let display = VolAddress::<DisplayControl, Safe, Safe>::new(0x0400_0000);
    display.write(&mut bank, DisplayControl::default().with_video_mode(3));
    let back = display.read(&bank);
    assert_eq!(back.video_mode(), 3);
}

#[test]
fn distinct_table_entries_do_not_interfere() {
    let mut bank = MemoryBank::new();
    let display = dispcnt();
    let backdrop = backdrop_color();

    display.write(&mut bank, DisplayControl::new().with_video_mode(4));
    backdrop.write(&mut bank, Color::new().with_red(7).with_blue(21));

    assert_eq!(display.read(&bank).video_mode(), 4);
    assert_eq!(backdrop.read(&bank).red(), 7);
    assert_eq!(backdrop.read(&bank).blue(), 21);

    display.write(&mut bank, DisplayControl::new().with_video_mode(1));
    assert_eq!(display.read(&bank).video_mode(), 1);
    assert_eq!(backdrop.read(&bank).red(), 7);
    assert_eq!(backdrop.read(&bank).green(), 0);
    assert_eq!(backdrop.read(&bank).blue(), 21);
}

#[test]
fn a_second_store_overwrites_the_first() {
    let mut bank = MemoryBank::new();
    bank.store(0x0400_0000, 0x00FF);
    bank.store(0x0400_0000, 0x0A0A);
    assert_eq!(bank.load(0x0400_0000), 0x0A0A);
}

#[test]
fn a_write_only_handle_still_writes() {
    let mut bank = MemoryBank::new();
    let write_only = VolAddress::<Color, Unsafe, Safe>::new(0x0500_0000);
    write_only.write(&mut bank, Color::new().with_green(9));
    let observer = VolAddress::<Color, Safe, Unsafe>::new(0x0500_0000);
    assert_eq!(observer.read(&bank).green(), 9);
}

#[test]
fn raw_words_pass_through_unchanged() {
    let mut bank = MemoryBank::new();
    let display = dispcnt();
    display.write(&mut bank, DisplayControl::from_bits(0xBEEF));
    assert_eq!(display.read(&bank).to_bits(), 0xBEEF);
}
