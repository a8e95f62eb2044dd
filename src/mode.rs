use vstd::prelude::*;

verus! {

/// Which monitors a wallpaper request targets.
#[derive(Clone, Copy, Debug, PartialEq, Eq, Structural)]
pub enum WallpaperMode {
    /// Every monitor that the wallpaper service knows.
    Every,
    /// Only the monitor under the mouse cursor.
    Current,
}

/// The mode that a request's text names: `"every"` or `"current"`; any other
/// text names none.
pub open spec fn mode_of(text: Seq<char>) -> Option<WallpaperMode> {
    if text == "every"@ {
        Some(WallpaperMode::Every)
    } else if text == "current"@ {
        Some(WallpaperMode::Current)
    } else {
        None
    }
}

/// Reads the mode out of a request's text, by exact comparison.
pub fn parse_mode(text: &str) -> (r: Option<WallpaperMode>)
    ensures
        r == mode_of(text@),
{
    let given = text.to_owned();
    let every = String::from_str("every");
    let current = String::from_str("current");
    if given == every {
        Some(WallpaperMode::Every)
    } else if given == current {
        Some(WallpaperMode::Current)
    } else {
        None
    }
}

} // verus!
