use vstd::prelude::*;

verus! {

/// The directory holding the scene's assets: `assets` under the application
/// root.
pub fn assets_path(app_root: &str) -> (p: String)
    ensures
        p@ == app_root@ + "/assets"@,
{
    String::from_str(app_root).concat("/assets")
}

/// The display configuration file: `resources/display_config.ron` under the
/// application root.
pub fn display_config_path(app_root: &str) -> (p: String)
    ensures
        p@ == app_root@ + "/resources/display_config.ron"@,
{
    String::from_str(app_root).concat("/resources/display_config.ron")
}

} // verus!
