//! State of the settings window that the interface keeps between frames,
//! and the changes that its controls make to the shared settings.

use vstd::prelude::*;
use crate::capture_control::CaptureRequests;
use crate::colors::{resolved_colors, Color32, ColorProfile, ColorProfileView, ColorRef, ColorRefView};

verus! {

/// The tabs of the settings window.
#[derive(Clone, Copy, PartialEq, Eq, Structural, Debug)]
pub enum SettingsTab {
    Visual,
    Audio,
    Colors,
    Window,
    Performance,
}

/// Which preset the save dialog is open for, if any.
#[derive(Clone, Copy, PartialEq, Eq, Structural, Debug)]
pub enum SaveTarget {
    NoDialog,
    Visual,
    Color,
}

impl CaptureRequests {
    /// Selects a device in the picker: it becomes the selected device and
    /// the capture loop is asked to switch to it.
    pub fn select_device(&mut self, name: String)
        ensures
            final(self).selected_device == name,
            final(self).device_changed,
            final(self).refresh_devices_requested == old(self).refresh_devices_requested,
    {
        self.selected_device = name;
        self.device_changed = true;
    }

    /// Asks the capture loop to rescan the devices.
    pub fn request_refresh(&mut self)
        ensures
            final(self).refresh_devices_requested,
            final(self).device_changed == old(self).device_changed,
            final(self).selected_device == old(self).selected_device,
    {
        self.refresh_devices_requested = true;
    }
}

/// The colour settings that the colours tab edits: the link to the colours
/// and the background override.
#[derive(Debug)]
pub struct ColorChoice {
    pub color_link: ColorRef,
    pub background: Option<Color32>,
}

impl ColorChoice {
    /// Picks a preset by name (from the list, or after saving one): the link
    /// names it and the background override is dropped.
    pub fn choose_preset(&mut self, name: String)
        ensures
            final(self).color_link@ == ColorRefView::Preset(name@),
            final(self).background is None,
    {
        self.color_link = ColorRef::Preset(name);
        self.background = None;
    }

    /// Takes the colours after the editors ran: when they differ from the
    /// colours shown before, they become the custom colours and the
    /// background override is dropped; otherwise nothing changes.
    pub fn apply_edit(&mut self, shown: &ColorProfile, edited: ColorProfile)
        ensures
            edited@ != shown@ ==> final(self).color_link@ == ColorRefView::Custom(edited@)
                && final(self).background is None,
            edited@ == shown@ ==> final(self).color_link@ == old(self).color_link@
                && final(self).background == old(self).background,
    {
        if !edited.same_as(shown) {
            self.color_link = ColorRef::Custom(edited);
            self.background = None;
        }
    }

    /// Drops the background override (the reset button).
    pub fn reset_background(&mut self)
        ensures
            final(self).color_link@ == old(self).color_link@,
            final(self).background is None,
    {
        self.background = None;
    }
}

/// After an edit, the colours drawn are exactly the edited ones, whatever
/// the user's presets.
pub proof fn lemma_edited_colors_are_drawn(edited: ColorProfileView, user_presets: Seq<ColorProfileView>)
    ensures
        resolved_colors(ColorRefView::Custom(edited), None, user_presets) == edited,
{
}

} // verus!
