use lorikeet_dash::web::{asset_path, chart_name_bytes, dimension_or, falls_back_to_index};

#[test]
fn svg_suffix_is_stripped() {
    assert_eq!(chart_name_bytes("cpu.svg"), b"cpu".to_vec());
    assert_eq!(chart_name_bytes("cpu"), b"cpu".to_vec());
    assert_eq!(chart_name_bytes("a.svg.svg"), b"a".to_vec());
    assert_eq!(chart_name_bytes("x.sv"), b"x.sv".to_vec());
    assert_eq!(chart_name_bytes(""), Vec::<u8>::new());
}

#[test]
fn directories_get_index() {
    assert_eq!(asset_path("/"), "front/dist/index.html");
    assert_eq!(asset_path(""), "front/distindex.html");
    assert_eq!(asset_path("/js/app.js"), "front/dist/js/app.js");
}

#[test]
fn api_paths_do_not_fall_back() {
    assert!(!falls_back_to_index("/api/charts"));
    assert!(falls_back_to_index("/charts/cpu"));
    assert!(falls_back_to_index("/api"));
}

#[test]
fn dimensions_default() {
    assert_eq!(dimension_or(Some(640), 800), 640);
    assert_eq!(dimension_or(None, 800), 800);
}
