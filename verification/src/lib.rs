//! Verified editing logic of the oca video editor's Editor screen: the localized labels of
//! its pickers, the media library's filtering and ordering, keyboard shortcut dispatch, and
//! the deferred selection/track/clip commands its timeline collects while it renders.

pub mod locale;
pub mod labels;
pub mod text;
pub mod media_library;
pub mod shortcuts;
pub mod tracks;
pub mod selection;
pub mod interactions;
pub mod font_picker;
pub mod panels;
pub mod clip_commands;
pub mod text_props;
pub mod timeline_frame;
