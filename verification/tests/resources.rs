use miso_paste::im::get_path;
use std::path::Path;

#[test]
fn get_path_keeps_the_text() {
    let location = get_path("Resources/background.png");
    assert_eq!(location.to_str(), Some("Resources/background.png"));
    assert_eq!(location, Path::new("Resources/background.png"));
}

#[test]
fn get_path_does_not_normalise() {
    assert_eq!(get_path("a/../b//c.png").to_str(), Some("a/../b//c.png"));
    assert_eq!(get_path("").to_str(), Some(""));
    assert_eq!(get_path("reel_l.png").extension().and_then(|e| e.to_str()), Some("png"));
}
