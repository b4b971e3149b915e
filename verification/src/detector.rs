//! Change detection: what differs between the last sample of the input
//! devices and a new one.

use crate::text::same_texts;
use crate::types::ActionView;
use vstd::prelude::*;

verus! {

/// The state of the input devices at one moment.
#[derive(Debug)]
pub struct DeviceSample {
    /// The names of the keys that are held, in the order in which the
    /// device reports them.
    pub keys: Vec<String>,
    /// Where the pointer is.
    pub pointer: (i32, i32),
}

/// A [`DeviceSample`] as mathematical data.
#[verifier::ext_equal]
pub struct SampleView {
    pub keys: Seq<Seq<char>>,
    pub pointer: (i32, i32),
}

impl View for DeviceSample {
    type V = SampleView;

    open spec fn view(&self) -> SampleView {
        SampleView { keys: self.keys.deep_view(), pointer: self.pointer }
    }
}

/// What changed from one sample to the next.
#[derive(Debug, Clone, Copy, PartialEq, Eq, Structural)]
pub struct Changes {
    /// The held keys are not the same sequence as before. The same keys in
    /// another order count as a change.
    pub keys: bool,
    /// The pointer is somewhere else.
    pub pointer: bool,
}

/// The changes from `previous` to `current`.
pub open spec fn changes(previous: SampleView, current: SampleView) -> Changes {
    Changes { keys: current.keys != previous.keys, pointer: current.pointer != previous.pointer }
}

/// The actions that a tick gives for the changes from `previous` to
/// `current`: a key press with all keys now held, stamped `key_stamp`, if the
/// keys changed; then a pointer move to the new place, stamped `move_stamp`,
/// if the pointer moved.
pub open spec fn detected(
    previous: SampleView,
    current: SampleView,
    key_stamp: Seq<char>,
    move_stamp: Seq<char>,
) -> Seq<ActionView> {
    let key_press = if changes(previous, current).keys {
        seq![ActionView::KeyPress { timestamp: key_stamp, keys: current.keys }]
    } else {
        Seq::empty()
    };
    let pointer_move = if changes(previous, current).pointer {
        seq![ActionView::MouseMove { timestamp: move_stamp, coords: current.pointer }]
    } else {
        Seq::empty()
    };
    key_press + pointer_move
}

/// Compares a new sample with the keys and the pointer of the last one.
pub fn detect(last_keys: &Vec<String>, last_pointer: (i32, i32), current: &DeviceSample) -> (r:
    Changes)
    ensures
        r == changes(SampleView { keys: last_keys.deep_view(), pointer: last_pointer }, current@),
{
    Changes {
        keys: !same_texts(&current.keys, last_keys),
        pointer: current.pointer.0 != last_pointer.0 || current.pointer.1 != last_pointer.1,
    }
}

} // verus!
