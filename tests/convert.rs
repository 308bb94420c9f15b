use virt2slint::{
    Axis, Converter, DecodedEvent, InputEvent, KeyCode, KeyToken, NamedKey, PointerButton, Position,
    Transition, key2special, split_event, to_signed, u64_to_decoder,
};

fn encode(etype: u64, code: u64, value: u32) -> u64 {
    (etype << 48) | (code << 32) | value as u64
}

fn converter() -> Converter {
    Converter::new(32767, 1200, 800)
}

#[test]
fn split_event_reads_each_field() {
    assert_eq!(split_event(0x0001_0002_0000_0003), (1, 2, 3));
    assert_eq!(split_event(u64::MAX), (0xffff, 0xffff, 0xffff_ffff));
    assert_eq!(split_event(0x8000_0000_8000_0000), (0x8000, 0, 0x8000_0000));
    assert_eq!(split_event(0), (0, 0, 0));
}

#[test]
fn to_signed_reads_twos_complement() {
    assert_eq!(to_signed(0), 0);
    assert_eq!(to_signed(0x7fff_ffff), i32::MAX);
    assert_eq!(to_signed(0x8000_0000), i32::MIN);
    assert_eq!(to_signed(0xffff_ffff), -1);
}

#[test]
fn decoder_reads_keys_and_axes() {
    assert_eq!(
        u64_to_decoder(encode(1, 30, 1)),
        Ok(DecodedEvent::KeyEvent { key: KeyCode { code: 30 }, transition: Transition::Press })
    );
    assert_eq!(
        u64_to_decoder(encode(1, 272, 0)),
        Ok(DecodedEvent::KeyEvent { key: KeyCode { code: 272 }, transition: Transition::Release })
    );
    assert_eq!(
        u64_to_decoder(encode(1, 1, 2)),
        Ok(DecodedEvent::KeyEvent { key: KeyCode { code: 1 }, transition: Transition::Press })
    );
    assert_eq!(u64_to_decoder(encode(3, 0, 500)), Ok(DecodedEvent::AxisEvent { axis: Axis::AbsoluteX(500) }));
    assert_eq!(u64_to_decoder(encode(3, 1, 0xffff_fffe)), Ok(DecodedEvent::AxisEvent { axis: Axis::AbsoluteY(-2) }));
    assert_eq!(u64_to_decoder(encode(2, 8, 1)), Ok(DecodedEvent::AxisEvent { axis: Axis::ScrollUp }));
    assert_eq!(u64_to_decoder(encode(2, 8, 0xffff_ffff)), Ok(DecodedEvent::AxisEvent { axis: Axis::ScrollDown }));
    assert_eq!(u64_to_decoder(encode(2, 0x151, 0)), Ok(DecodedEvent::AxisEvent { axis: Axis::ScrollUp }));
    assert_eq!(u64_to_decoder(encode(2, 0x150, 0)), Ok(DecodedEvent::AxisEvent { axis: Axis::ScrollDown }));
}

#[test]
fn decoder_rejects_unknown_reports() {
    assert_eq!(u64_to_decoder(encode(0, 0, 0)), Err(()));
    assert_eq!(u64_to_decoder(encode(4, 0, 0)), Err(()));
    assert_eq!(u64_to_decoder(encode(1, 59, 1)), Err(()));
    assert_eq!(u64_to_decoder(encode(1, 0, 1)), Err(()));
    assert_eq!(u64_to_decoder(encode(1, 0x150, 0)), Err(()));
    assert_eq!(u64_to_decoder(encode(2, 5, 1)), Err(()));
    assert_eq!(u64_to_decoder(encode(2, 8, 3)), Err(()));
    assert_eq!(u64_to_decoder(encode(3, 0x150, 1)), Err(()));
}

#[test]
fn key2special_maps_printable_and_control_keys() {
    assert_eq!(key2special(KeyCode { code: 30 }), Some(KeyToken::Char('a')));
    assert_eq!(key2special(KeyCode { code: 44 }), Some(KeyToken::Char('z')));
    assert_eq!(key2special(KeyCode { code: 11 }), Some(KeyToken::Char('0')));
    assert_eq!(key2special(KeyCode { code: 2 }), Some(KeyToken::Char('1')));
    assert_eq!(key2special(KeyCode { code: 57 }), Some(KeyToken::Char(' ')));
    assert_eq!(key2special(KeyCode { code: 43 }), Some(KeyToken::Char('\\')));
    assert_eq!(key2special(KeyCode { code: 39 }), Some(KeyToken::Char(';')));
    assert_eq!(key2special(KeyCode { code: 40 }), Some(KeyToken::Char('\'')));
    assert_eq!(key2special(KeyCode { code: 1 }), Some(KeyToken::Named(NamedKey::Escape)));
    assert_eq!(key2special(KeyCode { code: 28 }), Some(KeyToken::Named(NamedKey::Return)));
    assert_eq!(key2special(KeyCode { code: 54 }), Some(KeyToken::Named(NamedKey::ShiftR)));
    assert_eq!(key2special(KeyCode { code: 58 }), Some(KeyToken::Named(NamedKey::CapsLock)));
}

#[test]
fn key2special_drops_unmapped_keys() {
    for code in [0u16, 26, 27, 41, 55, 59, 100, 272, 0x150, u16::MAX] {
        assert_eq!(key2special(KeyCode { code }), None);
    }
}

#[test]
fn unknown_discriminator_gives_no_event() {
    let c = converter();
    for etype in [0u64, 4, 5, 0x100, 0xffff] {
        let (mut x, mut y) = (7isize, 9isize);
        assert_eq!(c.convert(encode(etype, 0, 1), &mut x, &mut y), None);
        assert_eq!((x, y), (7, 9));
    }
}

#[test]
fn unmapped_key_gives_no_event() {
    let c = converter();
    for code in [26u64, 41, 55, 59] {
        for value in [0u32, 1] {
            let (mut x, mut y) = (3isize, 4isize);
            assert_eq!(c.convert(encode(1, code, value), &mut x, &mut y), None);
            assert_eq!((x, y), (3, 4));
        }
    }
}

#[test]
fn unclassifiable_report_gives_no_event() {
    let c = converter();
    for e in [encode(2, 5, 1), encode(3, 8, 7), encode(1, 0x150, 0), encode(1, 300, 1), u64::MAX] {
        let (mut x, mut y) = (10isize, 20isize);
        assert_eq!(c.convert(e, &mut x, &mut y), None);
        assert_eq!((x, y), (10, 20));
    }
}

#[test]
fn absolute_x_report_sets_cursor() {
    let c = converter();
    let (mut x, mut y) = (0isize, 0isize);
    let r = c.convert(encode(3, 0, 16383), &mut x, &mut y);
    assert_eq!((x, y), (16383, 0));
    assert_eq!(r, Some(InputEvent::PointerMoved { position: Position { x: 16383, y: 0 } }));
    let r = c.convert(encode(3, 0, 0xffff_ffff), &mut x, &mut y);
    assert_eq!((x, y), (-1, 0));
    assert_eq!(r, Some(InputEvent::PointerMoved { position: Position { x: -1, y: 0 } }));
}

#[test]
fn absolute_y_report_sets_cursor() {
    let c = converter();
    let (mut x, mut y) = (5isize, 0isize);
    let r = c.convert(encode(3, 1, 8191), &mut x, &mut y);
    assert_eq!((x, y), (5, 8191));
    assert_eq!(r, Some(InputEvent::PointerMoved { position: Position { x: 5, y: 8191 } }));
}

#[test]
fn left_button_press_keeps_cursor() {
    let c = converter();
    let (mut x, mut y) = (16383isize, 8191isize);
    let r = c.convert(encode(1, 272, 1), &mut x, &mut y);
    assert_eq!(
        r,
        Some(InputEvent::PointerPressed { position: Position { x: 16383, y: 8191 }, button: PointerButton::Left })
    );
    assert_eq!((x, y), (16383, 8191));
}

#[test]
fn other_buttons_press_and_release() {
    let c = converter();
    let (mut x, mut y) = (1isize, 2isize);
    let p = Position { x: 1, y: 2 };
    assert_eq!(
        c.convert(encode(1, 273, 1), &mut x, &mut y),
        Some(InputEvent::PointerPressed { position: p, button: PointerButton::Right })
    );
    assert_eq!(
        c.convert(encode(1, 274, 0), &mut x, &mut y),
        Some(InputEvent::PointerReleased { position: p, button: PointerButton::Middle })
    );
    assert_eq!(
        c.convert(encode(1, 272, 0), &mut x, &mut y),
        Some(InputEvent::PointerReleased { position: p, button: PointerButton::Left })
    );
    assert_eq!((x, y), (1, 2));
}

#[test]
fn letter_key_press_gives_text() {
    let c = converter();
    for (sx, sy) in [(0isize, 0isize), (16383, 8191), (-5, 40000)] {
        let (mut x, mut y) = (sx, sy);
        assert_eq!(
            c.convert(encode(1, 30, 1), &mut x, &mut y),
            Some(InputEvent::KeyPressed { text: KeyToken::Char('a') })
        );
        assert_eq!((x, y), (sx, sy));
    }
}

#[test]
fn key_release_gives_text() {
    let c = converter();
    let (mut x, mut y) = (0isize, 0isize);
    assert_eq!(
        c.convert(encode(1, 29, 0), &mut x, &mut y),
        Some(InputEvent::KeyReleased { text: KeyToken::Named(NamedKey::Control) })
    );
}

#[test]
fn scroll_sign_convention() {
    let c = converter();
    let (mut x, mut y) = (100isize, 200isize);
    let p = Position { x: 100, y: 200 };
    assert_eq!(
        c.convert(encode(2, 8, 0xffff_ffff), &mut x, &mut y),
        Some(InputEvent::PointerScrolled { position: p, delta_x: 0, delta_y: 1 })
    );
    assert_eq!(
        c.convert(encode(2, 8, 1), &mut x, &mut y),
        Some(InputEvent::PointerScrolled { position: p, delta_x: 0, delta_y: -1 })
    );
    assert_eq!((x, y), (100, 200));
}

#[test]
fn converter_keeps_configuration() {
    let c = converter();
    assert_eq!((c.virtual_range(), c.x_res(), c.y_res()), (32767, 1200, 800));
}
