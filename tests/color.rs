use kero_spr::channel::{to_channel, Channel};
use kero_spr::color::{bgr, rgba, Grey, GreyAlpha, Rgb, Rgba};
use kero_spr::hex::HexColorError;

#[test]
fn unpack_then_pack_is_identity() {
    for p in [0u32, 1, 0x12345678, 0xdeadbeef, 0xff00ff00, u32::MAX] {
        assert_eq!(Rgba::<u8>::unpack(p).pack(), p);
    }
}

#[test]
fn unpack_splits_bytes_red_first() {
    let c = Rgba::<u8>::unpack(0x11223344);
    assert_eq!(c, rgba(0x11, 0x22, 0x33, 0x44));
    assert_eq!(rgba(0x11u8, 0x22, 0x33, 0x44).pack(), 0x11223344);
}

#[test]
fn bgr_reads_blue_highest_and_is_opaque() {
    assert_eq!(bgr(0xfff8f0), Rgba::new(0xf0, 0xf8, 0xff, 0xff));
}

#[test]
fn hex_round_trip_is_uppercase() {
    let c = Rgba::<u8>::from_hex_str("#12abCDef").unwrap();
    assert_eq!(c, Rgba::new(0x12, 0xab, 0xcd, 0xef));
    assert_eq!(c.to_hex_string(), "#12ABCDEF");
}

#[test]
fn hex_string_always_has_eight_digits() {
    assert_eq!(Rgba::new(0u8, 0, 0, 1).to_hex_string(), "#00000001");
    assert_eq!(Rgba::new(255u8, 255, 255, 255).to_hex_string(), "#FFFFFFFF");
}

#[test]
fn hex_errors() {
    assert_eq!(Rgba::<u8>::from_hex_str(""), Err(HexColorError::MissingHash));
    assert_eq!(Rgba::<u8>::from_hex_str("12345678"), Err(HexColorError::MissingHash));
    assert_eq!(Rgba::<u8>::from_hex_str("#1234"), Err(HexColorError::InvalidLength));
    assert_eq!(Rgba::<u8>::from_hex_str("#123456789"), Err(HexColorError::InvalidLength));
    assert_eq!(Rgba::<u8>::from_hex_str("#1234567G"), Err(HexColorError::InvalidDigit));
    assert_eq!(Rgba::<u8>::from_hex_str("#+2345678"), Err(HexColorError::InvalidDigit));
}

#[test]
fn un_mul_of_channels() {
    assert_eq!(255u8.un_mul(77), 77);
    assert_eq!(0u8.un_mul(200), 0);
    assert_eq!(128u8.un_mul(128), 64);
    assert_eq!(0xffffu16.un_mul(1234), 1234);
    for a in 0..=255u8 {
        for b in [0u8, 1, 17, 128, 254, 255] {
            let m = a.un_mul(b);
            assert!(m <= a.max(b));
        }
    }
}

#[test]
fn saturating_add_and_sub() {
    assert_eq!(200u8.un_add(100), 255);
    assert_eq!(20u8.un_add(100), 120);
    assert_eq!(20u8.un_sub(100), 0);
    assert_eq!(120u8.un_sub(100), 20);
}

#[test]
fn color_arithmetic_is_per_channel() {
    let c = Rgba::new(255u8, 128, 0, 255);
    assert_eq!(c.un_mul(128), Rgba::new(128, 64, 0, 128));
    assert_eq!(c.mul_color(Rgba::new(255, 255, 255, 0)), Rgba::new(255, 128, 0, 0));
    assert_eq!(c.add_color(Rgba::new(1, 200, 5, 1)), Rgba::new(255, 255, 5, 255));
    assert_eq!(c.sub_color(Rgba::new(1, 200, 5, 1)), Rgba::new(254, 0, 0, 254));
    assert_eq!(Rgba::splat(7u8), Rgba::new(7, 7, 7, 7));
}

#[test]
fn channel_conversion_keeps_extremes() {
    assert_eq!(to_channel::<u8, u16>(255), 0xffff);
    assert_eq!(to_channel::<u8, u16>(0), 0);
    assert_eq!(to_channel::<u8, u16>(0x80), 0x8080);
    assert_eq!(to_channel::<u16, u8>(0xffff), 255);
    assert_eq!(to_channel::<u16, u8>(0x8080), 0x80);
    assert_eq!(to_channel::<u8, u8>(93), 93);
    assert_eq!(<u16 as Channel>::channel_max(), 0xffff);
}

#[test]
fn shape_conversions() {
    assert_eq!(Rgba::<u8>::from_grey(Grey(128u8)), Rgba::new(128, 128, 128, 255));
    assert_eq!(Rgba::<u16>::from_grey(Grey(255u8)), Rgba::new(0xffff, 0xffff, 0xffff, 0xffff));
    assert_eq!(Rgba::<u8>::from_grey_alpha(GreyAlpha { g: 10u8, a: 20 }), Rgba::new(10, 10, 10, 20));
    assert_eq!(Rgba::<u8>::from_rgb(Rgb { r: 1u8, g: 2, b: 3 }), Rgba::new(1, 2, 3, 255));
    assert_eq!(Rgba::<u8>::from_rgba(Rgba::new(0xffffu16, 0, 0x8080, 0)), Rgba::new(255, 0, 0x80, 0));
}

#[test]
fn from_u32_unpacks() {
    let c: Rgba<u8> = Rgba::from(0xa1b2c3d4u32);
    assert_eq!(c, Rgba::new(0xa1, 0xb2, 0xc3, 0xd4));
}

#[test]
fn widening_conversion_of_a_color() {
    let c: Rgba<u16> = Rgba::new(0u8, 0x80, 0xff, 1).to_rgba();
    assert_eq!(c, Rgba::new(0, 0x8080, 0xffff, 0x0101));
}
