use headset_tray::cache::IconCache;
use headset_tray::pixels::{argb_to_rgba, rgba_to_argb};
use headset_tray::raster::{icon_from_rgba, render_icon, ICON_SIZE};
use headset_tray::reading::{
    fill_color, fill_width, map_from_to, tray_status, BatteryReading, BatteryStatus, TrayStatus,
};
use headset_tray::template::{render_document, replace_all};
use headset_tray::text::{centi_to_text, int_to_text};

fn reading(status: BatteryStatus, level: i32) -> BatteryReading {
    BatteryReading { status, level }
}

fn text(bytes: Vec<u8>) -> String {
    String::from_utf8(bytes).unwrap()
}

#[test]
fn width_interpolation_endpoints_and_midpoint() {
    let lo = map_from_to(0, 0, 100, 71, 108);
    assert_eq!((lo.num, lo.den), (7100, 100));
    let hi = map_from_to(100, 0, 100, 71, 108);
    assert_eq!((hi.num, hi.den), (10800, 100));
    let mid = map_from_to(50, 0, 100, 71, 108);
    assert_eq!(mid.num as f64 / mid.den as f64, 89.5);
    assert_eq!(text(centi_to_text(fill_width(&reading(BatteryStatus::Available, 0)))), "71");
    assert_eq!(text(centi_to_text(fill_width(&reading(BatteryStatus::Available, 100)))), "108");
    assert_eq!(text(centi_to_text(fill_width(&reading(BatteryStatus::Available, 50)))), "89.5");
}

#[test]
fn width_interpolation_extrapolates() {
    assert_eq!(fill_width(&reading(BatteryStatus::Available, 200)), 14500);
    assert_eq!(fill_width(&reading(BatteryStatus::Available, -200)), -300);
    assert_eq!(text(centi_to_text(-300)), "-3");
    assert_eq!(text(centi_to_text(-30)), "-0.3");
    let m = map_from_to(3, 1, 5, 10, 20);
    assert_eq!((m.num, m.den), (60, 4));
    let rev = map_from_to(3, 5, 1, 10, 20);
    assert_eq!((rev.num, rev.den), (-60, -4));
}

#[test]
fn status_derivation() {
    assert_eq!(tray_status(&reading(BatteryStatus::Available, 20)), TrayStatus::NeedsAttention);
    assert_eq!(tray_status(&reading(BatteryStatus::Available, 21)), TrayStatus::Active);
    assert_eq!(tray_status(&reading(BatteryStatus::Unavailable, 0)), TrayStatus::Passive);
    assert_eq!(tray_status(&reading(BatteryStatus::Unavailable, 55)), TrayStatus::Passive);
    assert_eq!(tray_status(&reading(BatteryStatus::Unavailable, -7)), TrayStatus::Passive);
    assert_eq!(tray_status(&reading(BatteryStatus::Charging, 10)), TrayStatus::Active);
    assert_eq!(tray_status(&reading(BatteryStatus::Charging, 20)), TrayStatus::Active);
    assert_eq!(tray_status(&reading(BatteryStatus::Charging, 55)), TrayStatus::Active);
}

#[test]
fn fill_colors() {
    assert_eq!(text(fill_color(&reading(BatteryStatus::Charging, 5))), "00ff00");
    assert_eq!(text(fill_color(&reading(BatteryStatus::Unavailable, 90))), "000000");
    assert_eq!(text(fill_color(&reading(BatteryStatus::Available, 20))), "ff0000");
    assert_eq!(text(fill_color(&reading(BatteryStatus::Available, 21))), "ffffff");
}

#[test]
fn pixel_conversion_exact() {
    assert_eq!(rgba_to_argb(&[1, 2, 3, 4, 5, 6, 7, 8]), vec![4, 1, 2, 3, 8, 5, 6, 7]);
    assert_eq!(argb_to_rgba(&[4, 1, 2, 3]), vec![1, 2, 3, 4]);
    assert_eq!(rgba_to_argb(&[]), Vec::<u8>::new());
}

#[test]
fn pixel_conversion_round_trip() {
    let buf: Vec<u8> = (0..4096u32).map(|i| (i * 37 % 251) as u8).collect();
    let argb = rgba_to_argb(&buf);
    assert_eq!(argb.len(), buf.len());
    assert_ne!(argb, buf);
    assert_eq!(argb_to_rgba(&argb), buf);
}

#[test]
fn decimal_text() {
    assert_eq!(text(int_to_text(0)), "0");
    assert_eq!(text(int_to_text(55)), "55");
    assert_eq!(text(int_to_text(-5)), "-5");
    assert_eq!(text(int_to_text(i32::MIN as i64)), "-2147483648");
    assert_eq!(text(centi_to_text(9135)), "91.35");
    assert_eq!(text(centi_to_text(7105)), "71.05");
}

#[test]
fn replacement_is_left_to_right_without_overlap() {
    assert_eq!(replace_all(b"aXbXc", b"X", b"yy"), b"ayybyyc".to_vec());
    assert_eq!(replace_all(b"aaa", b"aa", b"b"), b"ba".to_vec());
    assert_eq!(replace_all(b"", b"a", b"b"), Vec::<u8>::new());
    assert_eq!(replace_all(b"xy", b"xyz", b"q"), b"xy".to_vec());
}

#[test]
fn document_holds_substituted_values() {
    let doc = text(render_document(&reading(BatteryStatus::Charging, 55)));
    assert!(doc.contains(">55<"));
    assert!(doc.contains("#00ff00"));
    assert!(doc.contains("width=\"91.35\""));
    assert!(!doc.contains("FG_COLOR"));
    assert!(!doc.contains("WIDTH"));
    assert!(!doc.contains("BAT"));
}

#[test]
fn rendering_is_deterministic() {
    let opts = resvg::usvg::Options::default();
    let a = render_icon(&reading(BatteryStatus::Available, 42), &opts).unwrap();
    let b = render_icon(&reading(BatteryStatus::Available, 42), &opts).unwrap();
    assert_eq!(a, b);
    assert_eq!((a.width, a.height), (ICON_SIZE, ICON_SIZE));
    assert_eq!(a.data.len(), 4 * 512 * 512);
    assert!(a.data.iter().any(|&x| x != 0));
}

#[test]
fn rendered_fill_colour_differs_by_status() {
    let opts = resvg::usvg::Options::default();
    let charging = render_icon(&reading(BatteryStatus::Charging, 42), &opts).unwrap();
    let absent = render_icon(&reading(BatteryStatus::Unavailable, 42), &opts).unwrap();
    assert_ne!(charging, absent);
}

#[test]
fn icon_from_rgba_reorders_channels() {
    let icon = icon_from_rgba(&[10, 20, 30, 40, 50, 60, 70, 80], 2, 1);
    assert_eq!(icon.data, vec![40, 10, 20, 30, 80, 50, 60, 70]);
    assert_eq!((icon.width, icon.height), (2, 1));
}

#[test]
fn cache_returns_same_icon_as_direct_render() {
    let opts = resvg::usvg::Options::default();
    let r = reading(BatteryStatus::Available, 77);
    let mut cache = IconCache::with_default_capacity();
    let first = cache.get_or_render(&r, &opts).unwrap();
    let second = cache.get_or_render(&r, &opts).unwrap();
    let direct = render_icon(&r, &opts).unwrap();
    assert_eq!(first, second);
    assert_eq!(first, direct);
    assert_eq!(cache.len(), 1);
    assert_eq!(cache.lookup(&r).unwrap(), direct);
}

#[test]
fn cache_never_exceeds_capacity() {
    let opts = resvg::usvg::Options::default();
    let mut cache = IconCache::new(8);
    for level in 0..12 {
        cache.get_or_render(&reading(BatteryStatus::Available, level), &opts).unwrap();
        assert!(cache.len() <= 8);
    }
    assert_eq!(cache.len(), 8);
    assert_eq!(cache.capacity(), 8);
    assert!(cache.lookup(&reading(BatteryStatus::Available, 3)).is_none());
    assert!(cache.lookup(&reading(BatteryStatus::Available, 4)).is_some());
    assert!(cache.lookup(&reading(BatteryStatus::Available, 11)).is_some());
}

#[test]
fn cache_with_one_slot_keeps_latest() {
    let opts = resvg::usvg::Options::default();
    let mut cache = IconCache::new(1);
    cache.get_or_render(&reading(BatteryStatus::Charging, 1), &opts).unwrap();
    cache.get_or_render(&reading(BatteryStatus::Charging, 2), &opts).unwrap();
    assert_eq!(cache.len(), 1);
    assert!(cache.lookup(&reading(BatteryStatus::Charging, 1)).is_none());
    assert!(cache.lookup(&reading(BatteryStatus::Charging, 2)).is_some());
}
