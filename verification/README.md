# oca_editor

The decision logic of the oca video editor's Editor screen, written in Verus and proved
against its contracts.

- `src/` is the verified library: localized picker labels, the media library's filter and
  order, keyboard shortcut dispatch, the deferred selection, track and clip commands the
  timeline collects while it draws and the order a frame applies them in, what a click on a
  clip asks for, drag-and-drop targets, the font picker's search and grouping, which property
  sections show, how a graphic edit is committed, and the clip context menu.
- `app/` is a small set of helpers, not an editor screen: converting egui input into the
  library's shortcut input, and the floating-point geometry (snapping, preview zoom, filmstrip
  tiles, canvas layout, where a media drop lands) that Verus does not reason about.
- `tests/` runs the library on concrete values.
