use vstd::prelude::*;

verus! {

/// Whether the skybox image has been turned into a cube texture yet.
#[derive(Clone, Copy, Debug, PartialEq, Eq, Structural)]
pub struct Cubemap {
    pub is_loaded: bool,
}

/// Size of a loaded image: pixels across, pixels down, and array layers.
#[derive(Clone, Copy, Debug, PartialEq, Eq, Structural)]
pub struct ImageLayout {
    pub width: u32,
    pub height: u32,
    pub array_layers: u32,
}

/// What to do with the skybox this tick.
#[derive(Clone, Copy, Debug, PartialEq, Eq, Structural)]
pub enum SkyboxFix {
    /// Nothing yet (image still loading) or nothing more (already done).
    Wait,
    /// View the image as a cube texture and hand it to every skybox; where
    /// `restack_layers` holds a count, first split the single-layer strip
    /// into that many stacked layers.
    Attach { restack_layers: Option<u32> },
}

impl Cubemap {
    /// A cubemap whose image has not finished loading.
    pub fn new() -> (r: Cubemap)
        ensures
            !r.is_loaded,
    {
        Cubemap { is_loaded: false }
    }
}

/// Whether the layer count of a loaded image can be worked out: a strip of
/// one layer needs a non-zero width to divide by.
pub open spec fn layout_is_usable(image: ImageLayout) -> bool {
    image.array_layers != 1 || image.width > 0
}

/// How many square layers a vertical strip holds: its height over its width.
pub open spec fn strip_layers(image: ImageLayout) -> int {
    image.height as int / image.width as int
}

/// The fix-up owed for a loaded image.
pub open spec fn fix_for(image: ImageLayout) -> SkyboxFix {
    if image.array_layers == 1 {
        SkyboxFix::Attach { restack_layers: Some(strip_layers(image) as u32) }
    } else {
        SkyboxFix::Attach { restack_layers: None }
    }
}

/// Decides the skybox fix-up for this tick. `image` is `None` while the image
/// is still loading and holds its layout once it has loaded. The fix-up runs
/// once: after it, `cubemap` is marked loaded and later ticks wait.
pub fn correct_skybox(cubemap: &mut Cubemap, image: Option<ImageLayout>) -> (r: SkyboxFix)
    requires
        old(cubemap).is_loaded || image is None || layout_is_usable(image->Some_0),
    ensures
        old(cubemap).is_loaded || image is None ==> r == SkyboxFix::Wait && *final(cubemap)
            == *old(cubemap),
        !old(cubemap).is_loaded && image is Some ==> r == fix_for(image->Some_0)
            && final(cubemap).is_loaded,
{
    if cubemap.is_loaded {
        return SkyboxFix::Wait;
    }
    match image {
        None => SkyboxFix::Wait,
        Some(layout) => {
            let restack_layers = if layout.array_layers == 1 {
                Some(layout.height / layout.width)
            } else {
                None
            };
            cubemap.is_loaded = true;
            SkyboxFix::Attach { restack_layers }
        },
    }
}

} // verus!
