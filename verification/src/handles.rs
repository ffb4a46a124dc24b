use vstd::prelude::*;

verus! {

/// Where the tray icon was loaded from.
#[derive(Clone, Copy, Debug, PartialEq, Eq, Structural)]
pub enum IconSource {
    /// The `tray.ico` file beside the program, loaded by the program.
    Custom,
    /// The shared system application icon.
    System,
}

/// Whether the program owns the icon and must destroy it: only an icon it
/// loaded itself from a file is its own; the shared system icon is not.
pub fn owns_icon(source: IconSource) -> (owned: bool)
    ensures
        owned == (source == IconSource::Custom),
{
    match source {
        IconSource::Custom => true,
        IconSource::System => false,
    }
}

/// Whether the tray icon is destroyed when it is removed: only when the
/// program owns it and holds a handle to it.
pub fn should_destroy_icon(owned: bool, handle_is_null: bool) -> (destroy: bool)
    ensures
        destroy == (owned && !handle_is_null),
{
    owned && !handle_is_null
}

/// Whether the indicator font is deleted before it is replaced or when the
/// window goes away: only when a font handle is held.
pub fn should_delete_font(handle_is_null: bool) -> (delete: bool)
    ensures
        delete == !handle_is_null,
{
    !handle_is_null
}

} // verus!
