use color::Cmyk;

#[test]
fn new_sets_every_component() {
    let color = Cmyk::new(127, 255, 64, 100);
    assert_eq!(color.cyan(), 127);
    assert_eq!(color.magenta(), 255);
    assert_eq!(color.yellow(), 64);
    assert_eq!(color.key(), 100);
}

#[test]
fn new_accepts_extreme_octets() {
    let black = Cmyk::new(0, 0, 0, 255);
    assert_eq!(black, Cmyk { c: 0, m: 0, y: 0, k: 255 });
    let white = Cmyk::new(0, 0, 0, 0);
    assert_eq!(white, Cmyk { c: 0, m: 0, y: 0, k: 0 });
    let full = Cmyk::new(255, 255, 255, 255);
    assert_eq!(full.octets(), [255u8, 255u8, 255u8, 255u8]);
}

#[test]
fn set_cyan_changes_only_cyan() {
    let mut color = Cmyk { c: 127, m: 255, y: 64, k: 100 };
    color.set_cyan(80);
    assert_eq!(color, Cmyk { c: 80, m: 255, y: 64, k: 100 });
}

#[test]
fn set_magenta_changes_only_magenta() {
    let mut color = Cmyk { c: 127, m: 255, y: 64, k: 100 };
    color.set_magenta(80);
    assert_eq!(color, Cmyk { c: 127, m: 80, y: 64, k: 100 });
}

#[test]
fn set_yellow_changes_only_yellow() {
    let mut color = Cmyk { c: 127, m: 255, y: 64, k: 100 };
    color.set_yellow(80);
    assert_eq!(color, Cmyk { c: 127, m: 255, y: 80, k: 100 });
}

#[test]
fn set_key_changes_only_key() {
    let mut color = Cmyk { c: 127, m: 255, y: 64, k: 100 };
    color.set_key(80);
    assert_eq!(color, Cmyk { c: 127, m: 255, y: 64, k: 80 });
}

#[test]
fn octets_keeps_declaration_order() {
    let color = Cmyk { c: 127, m: 255, y: 64, k: 100 };
    assert_eq!(color.octets(), [127u8, 255u8, 64u8, 100u8]);
}

#[test]
fn hex_packs_cyan_most_significant() {
    let color = Cmyk { c: 127, m: 255, y: 64, k: 100 };
    assert_eq!(color.hex(), 0x7FFF4064);
    assert_eq!(Cmyk::new(0, 0, 0, 0).hex(), 0);
    assert_eq!(Cmyk::new(255, 255, 255, 255).hex(), 0xFFFFFFFF);
    assert_eq!(Cmyk::new(1, 2, 3, 4).hex(), 0x01020304);
}

#[test]
fn from_hex_unpacks_octet_by_octet() {
    assert_eq!(Cmyk::from(0x7FFF4064u32), Cmyk { c: 127, m: 255, y: 64, k: 100 });
    assert_eq!(Cmyk::from(0u32), Cmyk { c: 0, m: 0, y: 0, k: 0 });
    assert_eq!(Cmyk::from(0xFFFFFFFFu32), Cmyk { c: 255, m: 255, y: 255, k: 255 });
}

#[test]
fn hex_round_trips_both_ways() {
    let color = Cmyk::new(24, 68, 91, 22);
    assert_eq!(Cmyk::from(color.hex()), color);
    let packed: u32 = 0xDEADBEEF;
    assert_eq!(Cmyk::from(packed).hex(), packed);
}

#[test]
fn from_octets_keeps_declaration_order() {
    let color = Cmyk::from([127u8, 255u8, 64u8, 100u8]);
    assert_eq!(color, Cmyk { c: 127, m: 255, y: 64, k: 100 });
    let color = Cmyk::new(84, 228, 155, 78);
    assert_eq!(Cmyk::from(color.octets()), color);
}

#[test]
fn hex_upper_renders_zero_padded() {
    let color = Cmyk { c: 127, m: 255, y: 64, k: 100 };
    assert_eq!(color.hex_upper(), "#7FFF4064");
    assert_eq!(Cmyk::new(0, 1, 15, 255).hex_upper(), "#00010FFF");
}

#[test]
fn hex_lower_renders_zero_padded() {
    let color = Cmyk { c: 127, m: 255, y: 64, k: 100 };
    assert_eq!(color.hex_lower(), "#7fff4064");
    assert_eq!(Cmyk::new(0, 1, 15, 255).hex_lower(), "#00010fff");
}

#[test]
fn equality_is_structural() {
    let a = Cmyk::new(1, 2, 3, 4);
    let b = Cmyk { c: 1, m: 2, y: 3, k: 4 };
    assert_eq!(a, b);
    assert_ne!(a, Cmyk::new(1, 2, 3, 5));
}

#[test]
fn default_is_all_zero() {
    assert_eq!(Cmyk::default(), Cmyk::new(0, 0, 0, 0));
}

#[test]
fn ordering_is_lexicographic_over_fields() {
    assert!(Cmyk::new(0, 255, 255, 255) < Cmyk::new(1, 0, 0, 0));
    assert!(Cmyk::new(5, 5, 5, 5) < Cmyk::new(5, 5, 5, 6));
}
