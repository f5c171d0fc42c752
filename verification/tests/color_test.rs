use raytracer::color::{temp_to_color, COLOR_SCALE};

#[test]
fn table_base_color() {
    // 1000 K is the first entry, (255, 56, 0), scaled by 100.
    let c = temp_to_color(1000);
    assert!(c.in_table);
    assert_eq!(c.falloff_centi, 0);
    assert_eq!((c.red, c.green, c.blue), (25_500, 5_600, 0));
    assert!(c.red <= COLOR_SCALE && c.green <= COLOR_SCALE && c.blue <= COLOR_SCALE);
}

#[test]
fn table_top_color() {
    // 12000 K is the last entry, (195, 209, 255), scaled by 100.
    let c = temp_to_color(12_000);
    assert!(c.in_table);
    assert_eq!(c.falloff_centi, 0);
    assert_eq!((c.red, c.green, c.blue), (19_500, 20_900, 25_500));
}

#[test]
fn interpolates_between_entries() {
    // 1050 K sits halfway between (255, 56, 0) and (255, 71, 0).
    let c = temp_to_color(1_050);
    assert!(c.in_table);
    assert_eq!(c.red, 255 * 50 + 255 * 50);
    assert_eq!(c.green, 71 * 50 + 56 * 50);
    assert_eq!(c.blue, 0);
}

#[test]
fn cold_side_falloff() {
    let c = temp_to_color(500);
    assert!(!c.in_table);
    assert_eq!(c.falloff_centi, 500);
    assert_eq!((c.red, c.green, c.blue), (25_500, 5_600, 0));

    let zero = temp_to_color(0);
    assert_eq!(zero.falloff_centi, 1_000);
}

#[test]
fn hot_side_falloff() {
    // Far past the table: the boundary colour with a large damping
    // distance, never an extrapolated value.
    let c = temp_to_color(30_000);
    assert!(!c.in_table);
    assert_eq!(c.falloff_centi, 30_000 - 12_200);
    assert_eq!((c.red, c.green, c.blue), (19_500, 20_900, 25_500));

    // Just past the table the distance formula measures from two
    // entries beyond the top.
    let near = temp_to_color(12_001);
    assert!(!near.in_table);
    assert_eq!(near.falloff_centi, 199);
}

#[test]
fn channels_always_bounded() {
    let mut t: u64 = 0;
    while t < 40_000 {
        let c = temp_to_color(t);
        assert!(c.red <= COLOR_SCALE);
        assert!(c.green <= COLOR_SCALE);
        assert!(c.blue <= COLOR_SCALE);
        t += 37;
    }
}
