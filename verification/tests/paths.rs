use quartz_knight::paths::assets_path;
use quartz_knight::paths::display_config_path;

#[test]
fn assets_path_appends_the_assets_directory() {
    assert_eq!(assets_path("/game"), "/game/assets");
    assert_eq!(assets_path(""), "/assets");
}

#[test]
fn display_config_path_points_into_resources() {
    assert_eq!(
        display_config_path("/game"),
        "/game/resources/display_config.ron"
    );
}
