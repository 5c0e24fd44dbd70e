use gameboy::display::Display;
use gameboy::wasmdisplay::WasmDisplay;

#[test]
fn buffered_display_starts_blank() {
    let mut d = WasmDisplay::new();
    assert!(!d.is_dirty());
    let buf = d.buffer();
    assert_eq!(buf.len(), 160 * 144);
    for p in buf.iter() {
        assert_eq!(*p, 255);
    }
}

#[test]
fn buffered_display_shades_and_flushes() {
    let mut d = WasmDisplay::new();
    let mut row = vec![0u8; 256];
    row[0] = 0;
    row[1] = 1;
    row[2] = 2;
    row[3] = 3;
    d.write_scanline(0, &row);
    assert!(!d.is_dirty());
    d.render_framebuffer(0, 0);
    assert!(d.is_dirty());
    assert!(!d.is_dirty());
    let buf = d.buffer();
    assert_eq!(buf[0], 255);
    assert_eq!(buf[1], 192);
    assert_eq!(buf[2], 96);
    assert_eq!(buf[3], 0);
}

#[test]
fn buffered_display_scroll_wraps() {
    let mut d = WasmDisplay::new();
    let mut row = vec![0u8; 256];
    row[255] = 3;
    d.write_scanline(10, &row);
    d.render_framebuffer(255, 10);
    let buf = d.buffer();
    assert_eq!(buf[0], 0);
    assert_eq!(buf[1], 255);
}
