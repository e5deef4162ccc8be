use std::collections::HashSet;
use vstd::prelude::*;
use vstd::string::StringExecFns;

verus! {

/// The names of the held modifier keys, in the order shift, control,
/// alt, meta.
pub open spec fn modifier_list(shift: bool, control: bool, alt: bool, meta: bool) -> Seq<
    Seq<char>,
> {
    (if shift {
        seq!["shift"@]
    } else {
        Seq::empty()
    }) + (if control {
        seq!["control"@]
    } else {
        Seq::empty()
    }) + (if alt {
        seq!["alt"@]
    } else {
        Seq::empty()
    }) + (if meta {
        seq!["meta"@]
    } else {
        Seq::empty()
    })
}

/// Names the modifier keys held during a pointer sample.
pub fn modifier_names(shift: bool, control: bool, alt: bool, meta: bool) -> (r: Vec<String>)
    ensures
        r@.map_values(|s: String| s@) == modifier_list(shift, control, alt, meta),
{
    let mut r: Vec<String> = Vec::new();
    if shift {
        r.push(String::from_str("shift"));
    }
    if control {
        r.push(String::from_str("control"));
    }
    if alt {
        r.push(String::from_str("alt"));
    }
    if meta {
        r.push(String::from_str("meta"));
    }
    assert(r@.map_values(|s: String| s@) =~= modifier_list(shift, control, alt, meta));
    r
}

/// A pointer button whose presses are recorded.
#[derive(Debug, Clone, Copy, PartialEq, Eq, Structural)]
pub enum MouseButton {
    Left,
    Right,
}

impl MouseButton {
    /// The button's name in click records.
    pub fn name(&self) -> (r: &'static str)
        ensures
            r@ == (match *self {
                MouseButton::Left => "left"@,
                MouseButton::Right => "right"@,
            }),
    {
        match self {
            MouseButton::Left => "left",
            MouseButton::Right => "right",
        }
    }
}

/// A button going down or up between two polls.
#[derive(Debug, Clone, Copy, PartialEq, Eq, Structural)]
pub struct ButtonEdge {
    pub button: MouseButton,
    /// True when the button went down, false when it was released.
    pub pressed: bool,
}

impl ButtonEdge {
    /// The edge's event type in click records.
    pub fn event_type(&self) -> (r: &'static str)
        ensures
            r@ == (if self.pressed {
                "down"@
            } else {
                "up"@
            }),
    {
        if self.pressed {
            "down"
        } else {
            "up"
        }
    }
}

/// Whether the left button is down in a pressed-buttons mask (bit 0).
pub open spec fn left_in(mask: u64) -> bool {
    mask % 2 == 1
}

/// Whether the right button is down in a pressed-buttons mask (bit 1).
pub open spec fn right_in(mask: u64) -> bool {
    (mask / 2) % 2 == 1
}

/// Which buttons were down at the previous poll.
pub struct ButtonTracker {
    pub left_down: bool,
    pub right_down: bool,
}

impl ButtonTracker {
    /// A tracker that has seen no button down.
    pub fn new() -> (r: Self)
        ensures
            !r.left_down,
            !r.right_down,
    {
        ButtonTracker { left_down: false, right_down: false }
    }

    /// Compares a poll's pressed-buttons mask with the previous poll and
    /// returns the changes, left button first.
    pub fn observe(&mut self, mask: u64) -> (r: Vec<ButtonEdge>)
        ensures
            final(self).left_down == left_in(mask),
            final(self).right_down == right_in(mask),
            r@ == (if left_in(mask) != old(self).left_down {
                seq![ButtonEdge { button: MouseButton::Left, pressed: left_in(mask) }]
            } else {
                Seq::empty()
            }) + (if right_in(mask) != old(self).right_down {
                seq![ButtonEdge { button: MouseButton::Right, pressed: right_in(mask) }]
            } else {
                Seq::empty()
            }),
    {
        assert((mask & 1u64 != 0u64) == (mask % 2 == 1)) by (bit_vector);
        assert((mask & 2u64 != 0u64) == ((mask / 2) % 2 == 1)) by (bit_vector);
        let left = mask & 1 != 0;
        let right = mask & 2 != 0;
        let mut r: Vec<ButtonEdge> = Vec::new();
        if left != self.left_down {
            r.push(ButtonEdge { button: MouseButton::Left, pressed: left });
            self.left_down = left;
        }
            if right != self.right_down {
            r.push(ButtonEdge { button: MouseButton::Right, pressed: right });
            self.right_down = right;
        }
        assert(r@ =~= (if left_in(mask) != old(self).left_down {
            seq![ButtonEdge { button: MouseButton::Left, pressed: left_in(mask) }]
        } else {
            Seq::empty()
        }) + (if right_in(mask) != old(self).right_down {
            seq![ButtonEdge { button: MouseButton::Right, pressed: right_in(mask) }]
        } else {
            Seq::empty()
        }));
        r
    }
}

/// The content hashes of the cursor images already saved in a session.
pub struct CursorRegistry {
    saved: HashSet<u64>,
}

impl View for CursorRegistry {
    type V = Set<u64>;

    closed spec fn view(&self) -> Set<u64> {
        self.saved@
    }
}

impl CursorRegistry {
    /// A registry with no image saved.
    pub fn new() -> (r: Self)
        ensures
            r@ == Set::<u64>::empty(),
    {
        CursorRegistry { saved: HashSet::new() }
    }

    /// Whether the image with this content hash still has to be saved; a
    /// zero hash stands for an image whose content could not be read.
    pub fn needs_capture(&self, hash: u64) -> (r: bool)
        ensures
            r == (hash != 0 && !self@.contains(hash)),
    {
        broadcast use vstd::std_specs::hash::group_hash_axioms;

        hash != 0 && !self.saved.contains(&hash)
    }

    /// Notes that the image with this content hash has been saved.
    pub fn record(&mut self, hash: u64)
        ensures
            final(self)@ == old(self)@.insert(hash),
    {
        broadcast use vstd::std_specs::hash::group_hash_axioms;

        self.saved.insert(hash);
    }
}

} // verus!
