use vstd::prelude::*;

verus! {

/// Which movement keys are currently held down.
#[derive(Debug, Clone, Copy, PartialEq, Eq, Structural)]
pub struct KeyStates {
    pub forward: bool,
    pub backward: bool,
    pub left: bool,
    pub right: bool,
    pub up: bool,
    pub down: bool,
}

impl KeyStates {
    /// No key held.
    pub fn new() -> (k: KeyStates)
        ensures
            k == (KeyStates {
                forward: false,
                backward: false,
                left: false,
                right: false,
                up: false,
                down: false,
            }),
    {
        KeyStates {
            forward: false,
            backward: false,
            left: false,
            right: false,
            up: false,
            down: false,
        }
    }

    /// The movement direction the held keys add up to, one component per
    /// axis in {-1, 0, 1}: left minus right, down minus up, forward minus
    /// backward — opposite keys cancel.
    pub fn translation(&self) -> (t: (i8, i8, i8))
        ensures
            t.0 == (if self.left { 1int } else { 0int }) - (if self.right { 1int } else { 0int }),
            t.1 == (if self.down { 1int } else { 0int }) - (if self.up { 1int } else { 0int }),
            t.2 == (if self.forward { 1int } else { 0int }) - (if self.backward { 1int } else { 0int }),
    {
        let x: i8 = (if self.left { 1i8 } else { 0i8 }) - (if self.right { 1i8 } else { 0i8 });
        let y: i8 = (if self.down { 1i8 } else { 0i8 }) - (if self.up { 1i8 } else { 0i8 });
        let z: i8 = (if self.forward { 1i8 } else { 0i8 }) - (if self.backward { 1i8 } else { 0i8 });
        (x, y, z)
    }
}

} // verus!
