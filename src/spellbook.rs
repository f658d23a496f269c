use vstd::prelude::*;

use crate::timer::{Timer, TimerMode};

verus! {

/// How long the spellbook stays up: 7.5 s.
pub const SPELLBOOK_DISPLAY_TIME: u64 = 7_500_000_000;

/// Height of the spellbook above the player, in pixels.
pub const SPELLBOOK_OFFSET_Y: i32 = 80;

/// Drawing layer of the spellbook, above everything else.
pub const SPELLBOOK_Z_LAYER: i32 = 10;

/// Whether the spellbook is showing, for how long, and which entity shows it.
#[derive(Clone, Copy, Debug)]
pub struct SpellbookState {
    pub visible: bool,
    pub timer: Timer,
    pub entity: Option<u64>,
}

impl SpellbookState {
    pub open spec fn wf(self) -> bool {
        self.timer.wf()
    }

    /// A cast of the spellbook spell. The entity showing an earlier book, if
    /// any, is returned to be removed. When a new book was put up (`spawned`)
    /// it is remembered, shown, and its timer starts over.
    pub fn handle_spellbook_event(&mut self, spawned: Option<u64>) -> (despawn: Option<u64>)
        ensures
            old(self).wf() ==> final(self).wf(),
            despawn == old(self).entity,
            spawned matches Some(e) ==> *final(self) == (SpellbookState {
                visible: true,
                timer: old(self).timer.restarted(),
                entity: Some(e),
            }),
            spawned is None ==> *final(self) == *old(self),
    {
        let previous = self.entity;
        match spawned {
            Some(e) => {
                self.entity = Some(e);
                self.visible = true;
                self.timer.reset();
            },
            None => {},
        }
        previous
    }

    /// Runs the display timer of a showing book for `delta` nanoseconds.
    /// When it runs out the book is hidden and its entity, if any, is handed
    /// back to be removed.
    pub fn update_spellbook_display(&mut self, delta: u64) -> (despawn: Option<u64>)
        requires
            old(self).wf(),
        ensures
            final(self).wf(),
            !old(self).visible ==> *final(self) == *old(self) && despawn is None,
            old(self).visible ==> {
                let t = old(self).timer.ticked(delta as int);
                if t.finished {
                    &&& *final(self) == (SpellbookState { visible: false, timer: t, entity: None })
                    &&& despawn == old(self).entity
                } else {
                    &&& *final(self) == (SpellbookState { timer: t, ..*old(self) })
                    &&& despawn is None
                }
            },
    {
        if !self.visible {
            return None;
        }
        self.timer.tick(delta);
        if self.timer.finished() {
            self.visible = false;
            let e = self.entity;
            self.entity = None;
            e
        } else {
            None
        }
    }
}

impl Default for SpellbookState {
    fn default() -> (r: SpellbookState)
        ensures
            !r.visible,
            r.timer == Timer::new_spec(SPELLBOOK_DISPLAY_TIME, TimerMode::Once),
            r.entity is None,
            r.wf(),
    {
        SpellbookState {
            visible: false,
            timer: Timer::new(SPELLBOOK_DISPLAY_TIME, TimerMode::Once),
            entity: None,
        }
    }
}

} // verus!
