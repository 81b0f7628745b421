use framesync::swapchain::{
    build, choose_extent, choose_image_count, choose_present_mode, choose_surface_format, Extent,
    PresentMode, SharingMode, SurfaceCaps, SurfaceFormat, COLOR_SPACE_SRGB_NONLINEAR,
    FORMAT_B8G8R8A8_SRGB,
};

fn caps(min_count: u32, max_count: u32) -> SurfaceCaps {
    SurfaceCaps {
        min_image_count: min_count,
        max_image_count: max_count,
        current_extent: None,
        min_extent: Extent { width: 1, height: 1 },
        max_extent: Extent {
            width: 4096,
            height: 4096,
        },
    }
}

#[test]
fn image_count_unbounded_surface_selects_three() {
    let c = caps(2, 0);
    assert_eq!(choose_image_count(&c), 3);
}

#[test]
fn image_count_clamped_to_bounded_maximum() {
    let c = caps(3, 3);
    assert_eq!(choose_image_count(&c), 3);
}

#[test]
fn image_count_not_clamped_below_maximum() {
    let c = caps(2, 8);
    assert_eq!(choose_image_count(&c), 3);
}

#[test]
fn minimized_window_extent_clamps_to_surface_minimum() {
    let c = caps(2, 0);
    let e = choose_extent(
        &c,
        Extent {
            width: 0,
            height: 0,
        },
    );
    assert_eq!(e, Extent { width: 1, height: 1 });
}

#[test]
fn oversized_extent_clamps_to_surface_maximum() {
    let c = caps(2, 0);
    let e = choose_extent(
        &c,
        Extent {
            width: 100000,
            height: 500,
        },
    );
    assert_eq!(
        e,
        Extent {
            width: 4096,
            height: 500
        }
    );
}

#[test]
fn fixed_surface_extent_wins_over_request() {
    let mut c = caps(2, 0);
    c.current_extent = Some(Extent {
        width: 800,
        height: 600,
    });
    let e = choose_extent(
        &c,
        Extent {
            width: 1024,
            height: 768,
        },
    );
    assert_eq!(
        e,
        Extent {
            width: 800,
            height: 600
        }
    );
}

#[test]
fn preferred_format_chosen_when_offered() {
    let formats = vec![
        SurfaceFormat {
            format: 37,
            color_space: 0,
        },
        SurfaceFormat {
            format: FORMAT_B8G8R8A8_SRGB,
            color_space: COLOR_SPACE_SRGB_NONLINEAR,
        },
    ];
    let f = choose_surface_format(&formats);
    assert_eq!(f.format, FORMAT_B8G8R8A8_SRGB);
    assert_eq!(f.color_space, COLOR_SPACE_SRGB_NONLINEAR);
}

#[test]
fn first_format_chosen_when_preferred_absent() {
    let formats = vec![
        SurfaceFormat {
            format: 37,
            color_space: 1,
        },
        SurfaceFormat {
            format: 44,
            color_space: 0,
        },
    ];
    let f = choose_surface_format(&formats);
    assert_eq!(
        f,
        SurfaceFormat {
            format: 37,
            color_space: 1
        }
    );
}

#[test]
fn mailbox_present_mode_preferred() {
    let modes = vec![PresentMode::Fifo, PresentMode::Mailbox, PresentMode::Immediate];
    assert_eq!(choose_present_mode(&modes), PresentMode::Mailbox);
}

#[test]
fn fifo_present_mode_is_the_fallback() {
    let modes = vec![PresentMode::Fifo, PresentMode::Immediate];
    assert_eq!(choose_present_mode(&modes), PresentMode::Fifo);
}

#[test]
fn identical_queue_families_share_exclusively() {
    let c = caps(2, 0);
    let formats = vec![SurfaceFormat {
        format: FORMAT_B8G8R8A8_SRGB,
        color_space: COLOR_SPACE_SRGB_NONLINEAR,
    }];
    let modes = vec![PresentMode::Fifo];
    let cfg = build(
        &c,
        &formats,
        &modes,
        Extent {
            width: 1024,
            height: 768,
        },
        0,
        0,
    );
    assert_eq!(cfg.sharing, SharingMode::Exclusive);
    assert!(cfg.queue_families.is_empty());
}

#[test]
fn distinct_queue_families_share_concurrently() {
    let c = caps(2, 0);
    let formats = vec![SurfaceFormat {
        format: FORMAT_B8G8R8A8_SRGB,
        color_space: COLOR_SPACE_SRGB_NONLINEAR,
    }];
    let modes = vec![PresentMode::Fifo];
    let cfg = build(
        &c,
        &formats,
        &modes,
        Extent {
            width: 1024,
            height: 768,
        },
        0,
        1,
    );
    assert_eq!(cfg.sharing, SharingMode::Concurrent);
    assert_eq!(cfg.queue_families, vec![0, 1]);
}

#[test]
fn rebuilding_from_unchanged_inputs_yields_identical_config() {
    let c = caps(2, 0);
    let formats = vec![
        SurfaceFormat {
            format: 37,
            color_space: 1,
        },
        SurfaceFormat {
            format: FORMAT_B8G8R8A8_SRGB,
            color_space: COLOR_SPACE_SRGB_NONLINEAR,
        },
    ];
    let modes = vec![PresentMode::Fifo, PresentMode::Mailbox];
    let requested = Extent {
        width: 1024,
        height: 768,
    };
    let first = build(&c, &formats, &modes, requested, 0, 1);
    let second = build(&c, &formats, &modes, requested, 0, 1);
    assert_eq!(first.image_count, second.image_count);
    assert_eq!(first.extent, second.extent);
    assert_eq!(first.format, second.format);
    assert_eq!(first.present_mode, second.present_mode);
    assert_eq!(first.sharing, second.sharing);
    assert_eq!(first.queue_families, second.queue_families);
}
