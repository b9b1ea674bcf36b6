use ratatui::buffer::Buffer;
use ratatui_image::geometry::Rect;
use ratatui_image::iterm2::{encode, frame_sequence, render_area, EncodeError, Iterm2, StatefulIterm2};
use ratatui_image::raster::{ImageSource, Raster};

fn black_pixel() -> Raster {
    Raster::new(1, 1, vec![0, 0, 0, 255]).unwrap()
}

fn grid(w: u16, h: u16) -> Buffer {
    Buffer::empty(ratatui::layout::Rect::new(0, 0, w, h))
}

fn base64_part(seq: &str) -> &str {
    let start = seq.find(":").unwrap() + 1;
    let end = seq.find('\x07').unwrap();
    &seq[start..end]
}

#[test]
fn encode_black_pixel_round_trip() {
    let img = black_pixel();
    let seq = encode(&img, false).unwrap();
    assert!(seq.starts_with("\x1b]1337;File=inline=1;size="));
    assert!(seq.contains("size="));
    assert!(seq.contains(";width=1px;height=1px;doNotMoveCursor=1:"));
    assert!(seq.ends_with('\x07'));
    let png = base64::Engine::decode(&base64::engine::general_purpose::STANDARD, base64_part(&seq)).unwrap();
    assert!(seq.contains(&format!("size={};", png.len())));
    let decoded = image::load_from_memory_with_format(&png, image::ImageFormat::Png).unwrap();
    assert_eq!(decoded.width(), 1);
    assert_eq!(decoded.height(), 1);
    assert_eq!(decoded.to_rgba8().into_raw(), vec![0, 0, 0, 255]);
}

#[test]
fn encode_tmux_changes_framing_only() {
    let img = Raster::new(2, 3, vec![7; 24]).unwrap();
    let bare = encode(&img, false).unwrap();
    let tmux = encode(&img, true).unwrap();
    assert!(tmux.starts_with("\x1bPtmux;\x1b\x1b]1337;"));
    assert!(tmux.ends_with("\x07\x1b\\"));
    assert_eq!(&bare[1..], &tmux["\x1bPtmux;\x1b\x1b".len()..tmux.len() - 2]);
    assert!(bare.contains(";width=2px;height=3px;"));
}

#[test]
fn frame_sequence_exact() {
    assert_eq!(
        frame_sequence(120, 16, 9, "QUJD", false),
        "\x1b]1337;File=inline=1;size=120;width=16px;height=9px;doNotMoveCursor=1:QUJD\x07"
    );
    assert_eq!(
        frame_sequence(0, 0, 1000, "", true),
        "\x1bPtmux;\x1b\x1b]1337;File=inline=1;size=0;width=0px;height=1000px;doNotMoveCursor=1:\x07\x1b\\"
    );
}

#[test]
fn raster_rejects_wrong_length() {
    assert!(Raster::new(2, 2, vec![0; 15]).is_none());
    assert!(Raster::new(2, 2, vec![0; 16]).is_some());
    assert!(Raster::new(0, 5, vec![]).is_some());
}

#[test]
fn source_area_rounds_up() {
    let img = Raster::new(10, 15, vec![0; 600]).unwrap();
    let s = ImageSource::new(img, (4, 5));
    assert_eq!(s.area, Rect::new(0, 0, 3, 3));
    let again = ImageSource::new(Raster::new(10, 15, vec![0; 600]).unwrap(), (4, 5));
    assert_eq!(s.hash, again.hash);
    let other = ImageSource::new(Raster::new(10, 15, vec![1; 600]).unwrap(), (4, 5));
    assert_ne!(s.hash, other.hash);
}

#[test]
fn render_area_rules() {
    let rect = Rect::new(0, 0, 4, 3);
    assert_eq!(render_area(rect, Rect::new(2, 1, 10, 10), false), Some(Rect::new(2, 1, 4, 3)));
    assert_eq!(render_area(rect, Rect::new(2, 1, 3, 10), false), None);
    assert_eq!(render_area(rect, Rect::new(2, 1, 10, 2), false), None);
    assert_eq!(render_area(rect, Rect::new(2, 1, 3, 2), true), Some(Rect::new(2, 1, 3, 2)));
}

#[test]
fn fixed_render_too_small_leaves_buffer() {
    let src = ImageSource::new(Raster::new(20, 20, vec![0; 1600]).unwrap(), (10, 10));
    let fixed = Iterm2::from_source(&src, None, false).unwrap();
    assert_eq!(fixed.area, Rect::new(0, 0, 2, 2));
    let mut buf = grid(5, 5);
    buf.cell_mut((0, 0)).unwrap().set_symbol("x");
    let before = buf.clone();
    fixed.render(Rect::new(0, 0, 1, 5), &mut buf);
    assert_eq!(buf, before);
    fixed.render(Rect::new(0, 0, 5, 1), &mut buf);
    assert_eq!(buf, before);
}

#[test]
fn fixed_render_writes_and_skips() {
    let src = ImageSource::new(black_pixel(), (1, 1));
    let resized = Raster::new(2, 2, vec![0; 16]).unwrap();
    let fixed = Iterm2::from_source(&src, Some((resized, Rect::new(0, 0, 2, 2))), false).unwrap();
    assert!(fixed.data.contains("width=2px;height=2px"));
    let mut buf = grid(5, 5);
    fixed.render(Rect::new(1, 1, 3, 3), &mut buf);
    assert_eq!(buf.cell((1, 1)).unwrap().symbol(), fixed.data);
    assert!(!buf.cell((1, 1)).unwrap().skip);
    assert!(buf.cell((2, 1)).unwrap().skip);
    assert!(buf.cell((1, 2)).unwrap().skip);
    assert!(buf.cell((2, 2)).unwrap().skip);
    assert!(!buf.cell((3, 1)).unwrap().skip);
    assert!(!buf.cell((1, 3)).unwrap().skip);
    assert_eq!(buf.cell((0, 0)).unwrap().symbol(), " ");
}

fn stateful() -> StatefulIterm2 {
    StatefulIterm2::new(ImageSource::new(black_pixel(), (1, 1)), (1, 1), false)
}

#[test]
fn stateful_encodes_and_then_stops_forcing() {
    let mut s = stateful();
    assert!(s.force());
    s.resize_encode(Rect::new(0, 0, 3, 3), Some((black_pixel(), Rect::new(0, 0, 1, 1))));
    assert!(!s.force());
    assert_eq!(s.current_area(), Rect::new(0, 0, 1, 1));
    assert_eq!(s.last_error(), &None::<EncodeError>);
    let mut buf = grid(4, 4);
    s.render(Rect::new(0, 0, 3, 3), &mut buf);
    assert_eq!(buf.cell((0, 0)).unwrap().symbol(), encode(&black_pixel(), false).unwrap());
}

#[test]
fn stateful_second_call_without_new_raster_keeps_payload() {
    let mut s = stateful();
    s.resize_encode(Rect::new(0, 0, 3, 3), Some((black_pixel(), Rect::new(0, 0, 1, 1))));
    let mut first = grid(4, 4);
    s.render(Rect::new(0, 0, 3, 3), &mut first);
    s.resize_encode(Rect::new(0, 0, 3, 3), None);
    let mut second = grid(4, 4);
    s.render(Rect::new(0, 0, 3, 3), &mut second);
    assert_eq!(first, second);
    assert!(!s.force());
}

#[test]
fn stateful_zero_area_keeps_rendered_state() {
    let mut s = stateful();
    s.resize_encode(Rect::new(0, 0, 3, 3), Some((black_pixel(), Rect::new(0, 0, 1, 1))));
    let big = Raster::new(2, 2, vec![9; 16]).unwrap();
    s.resize_encode(Rect::new(0, 0, 0, 3), Some((big.clone(), Rect::new(0, 0, 2, 2))));
    assert_eq!(s.current_area(), Rect::new(0, 0, 1, 1));
    s.resize_encode(Rect::new(0, 0, 3, 0), Some((big, Rect::new(0, 0, 2, 2))));
    assert_eq!(s.current_area(), Rect::new(0, 0, 1, 1));
    assert!(!s.force());
}

#[test]
fn stateful_render_clips_to_area() {
    let mut s = stateful();
    s.resize_encode(Rect::new(0, 0, 3, 3), Some((Raster::new(3, 3, vec![0; 36]).unwrap(), Rect::new(0, 0, 3, 3))));
    let mut buf = grid(5, 5);
    s.render(Rect::new(1, 1, 2, 1), &mut buf);
    assert!(buf.cell((1, 1)).unwrap().symbol().contains("width=3px"));
    assert!(buf.cell((2, 1)).unwrap().skip);
    assert!(!buf.cell((3, 1)).unwrap().skip);
    assert!(!buf.cell((1, 2)).unwrap().skip);
}

#[test]
fn empty_raster_fails_to_encode() {
    let empty = Raster::new(0, 4, vec![]).unwrap();
    assert!(matches!(encode(&empty, false), Err(EncodeError::Png(_))));
    assert!(matches!(encode(&empty, true), Err(EncodeError::Png(_))));
    let src = ImageSource::new(black_pixel(), (1, 1));
    assert!(Iterm2::from_source(&src, Some((Raster::new(3, 0, vec![]).unwrap(), Rect::new(0, 0, 3, 0))), false).is_err());
}

#[test]
fn stateful_failed_encode_keeps_payload_and_reports() {
    let mut s = stateful();
    s.resize_encode(Rect::new(0, 0, 3, 3), Some((black_pixel(), Rect::new(0, 0, 1, 1))));
    s.resize_encode(Rect::new(0, 0, 3, 3), Some((Raster::new(0, 2, vec![]).unwrap(), Rect::new(0, 0, 0, 2))));
    assert!(s.last_error().is_some());
    assert_eq!(s.current_area(), Rect::new(0, 0, 1, 1));
    assert!(!s.force());
    let mut buf = grid(4, 4);
    s.render(Rect::new(0, 0, 3, 3), &mut buf);
    assert_eq!(buf.cell((0, 0)).unwrap().symbol(), encode(&black_pixel(), false).unwrap());
}

#[test]
fn stateful_render_before_encode_leaves_buffer() {
    let s = stateful();
    let mut buf = grid(3, 3);
    buf.cell_mut((0, 0)).unwrap().set_symbol("x");
    let before = buf.clone();
    s.render(Rect::new(0, 0, 3, 3), &mut buf);
    assert_eq!(buf, before);
}
