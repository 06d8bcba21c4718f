use vstd::prelude::*;
use crate::error::GameResult;
use crate::fullscreen::FullscreenMode;
use crate::math::Size;

verus! {

/// How the window is created: plain values that the platform layer turns
/// into a native window. Scale factors are carried in thousandths.
#[derive(Debug, Clone)]
pub struct WindowConfig {
    pub title: String,
    pub size: Size,
    pub resizable: bool,
    pub maximized: bool,
    pub transparent: bool,
    pub fullscreen: Option<FullscreenMode>,
}

impl WindowConfig {
    pub fn new() -> (r: Self)
        ensures
            r.title@.len() == 0,
            r.size == (Size { width: 800, height: 600 }),
            r.resizable,
            !r.maximized,
            !r.transparent,
            r.fullscreen is None,
    {
        Self {
            title: String::new(),
            size: Size { width: 800, height: 600 },
            resizable: true,
            maximized: false,
            transparent: false,
            fullscreen: None,
        }
    }

    pub fn title(self, title: String) -> (r: Self)
        ensures
            r.title == title,
            r.size == self.size,
            r.resizable == self.resizable,
            r.maximized == self.maximized,
            r.transparent == self.transparent,
            r.fullscreen == self.fullscreen,
    {
        Self { title, ..self }
    }

    pub fn size(self, size: Size) -> (r: Self)
        ensures
            r.size == size,
            r.title == self.title,
            r.resizable == self.resizable,
            r.maximized == self.maximized,
            r.transparent == self.transparent,
            r.fullscreen == self.fullscreen,
    {
        Self { size, ..self }
    }

    pub fn resizable(self, resizable: bool) -> (r: Self)
        ensures
            r.resizable == resizable,
            r.title == self.title,
            r.size == self.size,
            r.maximized == self.maximized,
            r.transparent == self.transparent,
            r.fullscreen == self.fullscreen,
    {
        Self { resizable, ..self }
    }

    pub fn maximized(self, maximized: bool) -> (r: Self)
        ensures
            r.maximized == maximized,
            r.title == self.title,
            r.size == self.size,
            r.resizable == self.resizable,
            r.transparent == self.transparent,
            r.fullscreen == self.fullscreen,
    {
        Self { maximized, ..self }
    }

    pub fn transparent(self, transparent: bool) -> (r: Self)
        ensures
            r.transparent == transparent,
            r.title == self.title,
            r.size == self.size,
            r.resizable == self.resizable,
            r.maximized == self.maximized,
            r.fullscreen == self.fullscreen,
    {
        Self { transparent, ..self }
    }

    pub fn fullscreen(self, fullscreen: Option<FullscreenMode>) -> (r: Self)
        ensures
            r.fullscreen == fullscreen,
            r.title == self.title,
            r.size == self.size,
            r.resizable == self.resizable,
            r.maximized == self.maximized,
            r.transparent == self.transparent,
    {
        Self { fullscreen, ..self }
    }
}

/// The window state the engine tracks: the logical size the platform last
/// reported, the focus level, and the scale factor in thousandths. The
/// native window itself lives outside this core.
pub struct Window {
    logical_size: Size,
    focused: bool,
    scale_factor_milli: i64,
    fullscreen: Option<FullscreenMode>,
}

impl Window {
    pub closed spec fn spec_logical_size(&self) -> Size {
        self.logical_size
    }

    pub closed spec fn spec_focused(&self) -> bool {
        self.focused
    }

    pub closed spec fn spec_scale_factor_milli(&self) -> i64 {
        self.scale_factor_milli
    }

    pub closed spec fn spec_fullscreen(&self) -> Option<FullscreenMode> {
        self.fullscreen
    }

    pub fn new(config: WindowConfig) -> (r: GameResult<Window>)
        ensures
            r is Ok,
            r matches Ok(w) ==> w.spec_logical_size() == config.size && !w.spec_focused()
                && w.spec_scale_factor_milli() == 1000 && w.spec_fullscreen() == config.fullscreen,
    {
        Ok(
            Self {
                logical_size: config.size,
                focused: false,
                scale_factor_milli: 1000,
                fullscreen: config.fullscreen,
            },
        )
    }

    /// Record a focus change notification.
    pub fn handle_focus_change_event(&mut self, focused: bool)
        ensures
            final(self).spec_focused() == focused,
            final(self).spec_logical_size() == old(self).spec_logical_size(),
            final(self).spec_scale_factor_milli() == old(self).spec_scale_factor_milli(),
            final(self).spec_fullscreen() == old(self).spec_fullscreen(),
    {
        self.focused = focused;
    }

    /// Record the logical size the platform reported on a resize.
    pub fn handle_resize_event(&mut self, size: Size)
        ensures
            final(self).spec_logical_size() == size,
            final(self).spec_focused() == old(self).spec_focused(),
            final(self).spec_scale_factor_milli() == old(self).spec_scale_factor_milli(),
            final(self).spec_fullscreen() == old(self).spec_fullscreen(),
    {
        self.logical_size = size;
    }

    /// Record the scale factor the platform reported, in thousandths.
    pub fn set_scale_factor_milli(&mut self, scale_factor_milli: i64)
        ensures
            final(self).spec_scale_factor_milli() == scale_factor_milli,
            final(self).spec_logical_size() == old(self).spec_logical_size(),
            final(self).spec_focused() == old(self).spec_focused(),
            final(self).spec_fullscreen() == old(self).spec_fullscreen(),
    {
        self.scale_factor_milli = scale_factor_milli;
    }

    pub fn logical_size(&self) -> (r: Size)
        ensures
            r == self.spec_logical_size(),
    {
        self.logical_size
    }

    pub fn is_focused(&self) -> (r: bool)
        ensures
            r == self.spec_focused(),
    {
        self.focused
    }

    pub fn scale_factor_milli(&self) -> (r: i64)
        ensures
            r == self.spec_scale_factor_milli(),
    {
        self.scale_factor_milli
    }

    pub fn fullscreen_mode(&self) -> (r: Option<FullscreenMode>)
        ensures
            r == self.spec_fullscreen(),
    {
        self.fullscreen
    }
}

} // verus!
