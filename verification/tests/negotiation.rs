use whirled::bootstrap::{
    choose_colour_format, select_queue_family, QueueFamilyInfo, SurfaceFormat,
    FALLBACK_FORMAT_CODE,
};
use whirled::swapchain::{negotiate, Extent2d, SurfaceCaps};

fn caps(min_count: u32, max_count: u32) -> SurfaceCaps {
    SurfaceCaps {
        min_image_count: min_count,
        max_image_count: max_count,
        current_extent: None,
        min_extent: Extent2d { width: 64, height: 64 },
        max_extent: Extent2d { width: 1920, height: 1080 },
    }
}

#[test]
fn negotiate_clamps_requested_extent() {
    let c = negotiate(&caps(1, 8), Extent2d { width: 16, height: 4000 });
    assert_eq!(c.extent, Extent2d { width: 64, height: 1080 });
    let c = negotiate(&caps(1, 8), Extent2d { width: 800, height: 600 });
    assert_eq!(c.extent, Extent2d { width: 800, height: 600 });
}

#[test]
fn negotiate_prefers_three_images_within_bounds() {
    assert_eq!(negotiate(&caps(1, 8), Extent2d { width: 1, height: 1 }).image_count, 3);
    assert_eq!(negotiate(&caps(4, 8), Extent2d { width: 1, height: 1 }).image_count, 4);
    assert_eq!(negotiate(&caps(1, 2), Extent2d { width: 1, height: 1 }).image_count, 2);
}

#[test]
fn negotiate_takes_the_surface_extent_when_reported() {
    let mut c = caps(2, 2);
    c.current_extent = Some(Extent2d { width: 333, height: 444 });
    let r = negotiate(&c, Extent2d { width: 800, height: 600 });
    assert_eq!(r.extent, Extent2d { width: 333, height: 444 });
    assert_eq!(r.image_count, 2);
}

#[test]
fn colour_format_prefers_first_srgb() {
    let formats = vec![
        SurfaceFormat { code: 10, srgb: false },
        SurfaceFormat { code: 11, srgb: true },
        SurfaceFormat { code: 12, srgb: true },
    ];
    let f = choose_colour_format(&formats);
    assert_eq!(f.code, 11);
    assert!(f.srgb);
}

#[test]
fn colour_format_falls_back_to_first_supported() {
    let formats = vec![
        SurfaceFormat { code: 10, srgb: false },
        SurfaceFormat { code: 11, srgb: false },
    ];
    let f = choose_colour_format(&formats);
    assert_eq!(f.code, 10);
}

#[test]
fn colour_format_defaults_when_nothing_reported() {
    let f = choose_colour_format(&Vec::new());
    assert_eq!(f.code, FALLBACK_FORMAT_CODE);
    assert!(f.srgb);
}

#[test]
fn queue_family_picks_first_fit() {
    let families = vec![
        QueueFamilyInfo { supports_presentation: true, supports_graphics: false },
        QueueFamilyInfo { supports_presentation: false, supports_graphics: true },
        QueueFamilyInfo { supports_presentation: true, supports_graphics: true },
        QueueFamilyInfo { supports_presentation: true, supports_graphics: true },
    ];
    assert_eq!(select_queue_family(&families), Some(2));
}

#[test]
fn queue_family_none_when_no_fit() {
    let families = vec![
        QueueFamilyInfo { supports_presentation: true, supports_graphics: false },
        QueueFamilyInfo { supports_presentation: false, supports_graphics: true },
    ];
    assert_eq!(select_queue_family(&families), None);
    assert_eq!(select_queue_family(&Vec::new()), None);
}
