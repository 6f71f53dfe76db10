use quad_window::config::AlphaMode;
use quad_window::config::FormatInfo;
use quad_window::config::PresentMode;
use quad_window::config::SurfaceConfig;
use quad_window::config::choose_format;

fn base_config() -> SurfaceConfig {
    let formats = vec![FormatInfo { id: 0, srgb: true }];
    let alphas = vec![AlphaMode::Opaque];
    SurfaceConfig::new(&formats, &alphas, 800, 600)
}

#[test]
fn picks_first_srgb_format() {
    let formats = vec![
        FormatInfo { id: 7, srgb: false },
        FormatInfo { id: 8, srgb: true },
        FormatInfo { id: 9, srgb: true },
    ];
    let chosen = choose_format(&formats);
    assert_eq!(chosen, FormatInfo { id: 8, srgb: true });
}

#[test]
fn falls_back_to_first_format_without_srgb() {
    let formats = vec![
        FormatInfo { id: 3, srgb: false },
        FormatInfo { id: 4, srgb: false },
    ];
    let chosen = choose_format(&formats);
    assert_eq!(chosen, FormatInfo { id: 3, srgb: false });
}

#[test]
fn new_config_takes_size_fifo_and_first_alpha() {
    let formats = vec![
        FormatInfo { id: 1, srgb: false },
        FormatInfo { id: 2, srgb: true },
    ];
    let alphas = vec![AlphaMode::PostMultiplied, AlphaMode::Opaque];
    let config = SurfaceConfig::new(&formats, &alphas, 800, 600);
    assert_eq!(config.format, FormatInfo { id: 2, srgb: true });
    assert_eq!(config.width, 800);
    assert_eq!(config.height, 600);
    assert_eq!(config.present_mode, PresentMode::Fifo);
    assert_eq!(config.alpha_mode, AlphaMode::PostMultiplied);
}

#[test]
fn resize_nonzero_stores_exact_size() {
    let mut config = base_config();
    let applied = config.resize(1024, 768);
    assert!(applied);
    assert_eq!(config.width, 1024);
    assert_eq!(config.height, 768);
    assert_eq!(config.format, FormatInfo { id: 0, srgb: true });
    assert_eq!(config.present_mode, PresentMode::Fifo);
    assert_eq!(config.alpha_mode, AlphaMode::Opaque);
}

#[test]
fn resize_zero_width_is_noop() {
    let mut config = base_config();
    let before = config;
    assert!(!config.resize(0, 480));
    assert_eq!(config, before);
}

#[test]
fn resize_zero_height_is_noop() {
    let mut config = base_config();
    let before = config;
    assert!(!config.resize(640, 0));
    assert_eq!(config, before);
}

#[test]
fn resize_both_zero_is_noop() {
    let mut config = base_config();
    let before = config;
    assert!(!config.resize(0, 0));
    assert_eq!(config, before);
}

#[test]
fn resize_largest_size_is_stored() {
    let mut config = base_config();
    assert!(config.resize(u32::MAX, u32::MAX));
    assert_eq!(config.width, u32::MAX);
    assert_eq!(config.height, u32::MAX);
}

#[test]
fn resize_one_by_one_is_stored() {
    let mut config = base_config();
    assert!(config.resize(1, 1));
    assert_eq!(config.width, 1);
    assert_eq!(config.height, 1);
}
