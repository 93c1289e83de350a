use vstd::prelude::*;

verus! {

/// Whether an element of the scene is drawn: on its own terms, or as its parent is.
#[derive(Debug, Clone, Copy, PartialEq, Eq, Structural)]
pub enum Visibility {
    Inherited,
    Hidden,
    Visible,
}

/// Whether an element with this setting is hidden regardless of its parent.
pub open spec fn spec_is_hidden(v: Visibility) -> bool {
    v == Visibility::Hidden
}

/// The setting after the player asks to show or hide an overlay: what is shown (on its
/// own or through its parent) is hidden, and what is hidden is shown.
pub open spec fn spec_toggled(v: Visibility) -> Visibility {
    match v {
        Visibility::Inherited | Visibility::Visible => Visibility::Hidden,
        Visibility::Hidden => Visibility::Visible,
    }
}

/// Toggles an overlay between shown and hidden.
pub fn toggled(v: Visibility) -> (r: Visibility)
    ensures
        r == spec_toggled(v),
        spec_is_hidden(r) != spec_is_hidden(v),
{
    match v {
        Visibility::Inherited | Visibility::Visible => Visibility::Hidden,
        Visibility::Hidden => Visibility::Visible,
    }
}

/// Hidden when `hidden`, else shown on the element's own terms.
pub fn shown_unless(hidden: bool) -> (r: Visibility)
    ensures
        r == (if hidden { Visibility::Hidden } else { Visibility::Visible }),
{
    if hidden {
        Visibility::Hidden
    } else {
        Visibility::Visible
    }
}

/// The controls overlay after a frame: toggled when the player pressed the key.
pub fn toggle_control_overlay(pressed: bool, v: Visibility) -> (r: Visibility)
    ensures
        r == (if pressed { spec_toggled(v) } else { v }),
{
    if pressed {
        toggled(v)
    } else {
        v
    }
}

/// The fog layers are drawn (as their parent is) while a fog emitter is found near the
/// camera, and hidden otherwise.
pub fn update_fog(emitter_found: bool) -> (r: Visibility)
    ensures
        r == (if emitter_found { Visibility::Inherited } else { Visibility::Hidden }),
{
    if emitter_found {
        Visibility::Inherited
    } else {
        Visibility::Hidden
    }
}

/// Toggling twice restores an explicit setting; an inherited one comes back as visible.
pub proof fn lemma_toggle_twice(v: Visibility)
    ensures
        spec_toggled(spec_toggled(v)) == (if v == Visibility::Hidden {
            Visibility::Hidden
        } else {
            Visibility::Visible
        }),
        v != Visibility::Inherited ==> spec_toggled(spec_toggled(v)) == v,
        spec_is_hidden(spec_toggled(spec_toggled(v))) == spec_is_hidden(v),
{
}

} // verus!
