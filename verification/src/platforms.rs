//! The extension names the windowing platform needs from the graphics API:
//! always the surface extension, plus one platform-specific surface
//! extension chosen by the operating system the window lives on.

use vstd::prelude::*;
use crate::instance::views_of_names;

verus! {

/// The operating-system family a window is created on.
#[derive(Clone, Copy, PartialEq, Eq, Structural, Debug)]
pub enum Platform {
    Windows,
    Macos,
    Unix,
}

/// The extension every platform needs to present to a window surface.
pub open spec fn spec_surface_extension_name() -> Seq<char> {
    "VK_KHR_surface"@
}

/// The surface extension specific to one platform.
pub open spec fn spec_platform_surface_extension_name(p: Platform) -> Seq<char> {
    match p {
        Platform::Windows => "VK_KHR_win32_surface"@,
        Platform::Macos => "VK_MVK_macos_surface"@,
        Platform::Unix => "VK_KHR_xlib_surface"@,
    }
}

/// The full extension list a platform requires: the common surface
/// extension followed by the platform's own surface extension.
pub open spec fn spec_required_extension_names(p: Platform) -> Seq<Seq<char>> {
    seq![spec_surface_extension_name(), spec_platform_surface_extension_name(p)]
}

/// Return the names of the extensions required to present to a window on
/// the given platform.
pub fn required_extension_names(platform: Platform) -> (r: Vec<String>)
    ensures
        r@.len() == 2,
        views_of_names(r@) == spec_required_extension_names(platform),
{
    let mut r: Vec<String> = Vec::new();
    r.push("VK_KHR_surface".to_owned());
    match platform {
        Platform::Windows => r.push("VK_KHR_win32_surface".to_owned()),
        Platform::Macos => r.push("VK_MVK_macos_surface".to_owned()),
        Platform::Unix => r.push("VK_KHR_xlib_surface".to_owned()),
    }
    proof {
        assert(views_of_names(r@) =~= spec_required_extension_names(platform));
    }
    r
}

} // verus!
