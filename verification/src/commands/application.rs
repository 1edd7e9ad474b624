//! Commands that change the mode.
use vstd::prelude::*;
use crate::models::application::{Application, Mode};

verus! {

/// Enters normal mode. Nothing else changes.
pub fn switch_to_normal_mode(app: &mut Application)
    ensures
        final(app).mode == Mode::Normal,
        final(app).same_but_mode(old(app)),
{
    app.mode = Mode::Normal;
}

/// Enters insert mode. Nothing else changes: the cursor of every buffer
/// stays where it is.
pub fn switch_to_insert_mode(app: &mut Application)
    ensures
        final(app).mode == Mode::Insert,
        final(app).same_but_mode(old(app)),
{
    app.mode = Mode::Insert;
}

/// Enters the mode that ends the program. Nothing else changes.
pub fn exit(app: &mut Application)
    ensures
        final(app).mode == Mode::Exit,
        final(app).same_but_mode(old(app)),
{
    app.mode = Mode::Exit;
}

} // verus!
