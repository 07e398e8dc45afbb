use vstd::prelude::*;
use std::collections::VecDeque;
use crate::flags::MASK_NON_COALESCED;
use crate::hotkey::{matches_spec, HotKey};

verus! {

/// One recorded key press: its key code and the modifier flags held when it was pressed.
#[derive(Debug, Clone, Copy, PartialEq, Eq, Structural)]
pub struct KeyState {
    pub code: u16,
    pub flags: u64,
}

/// A keyboard event as the macro engine sees it, and as it emits synthetic ones.
#[derive(Debug, Clone, Copy, PartialEq, Eq, Structural)]
pub enum InputEvent {
    KeyPress(u16),
    KeyRelease(u16),
    /// The key code of the modifier key, and the modifier flags now held.
    FlagsChanged(u16, u64),
}

/// What was recorded when the trigger hotkey was pressed: the buffer, most recent first,
/// and the modifier flags held at that moment.
pub struct State {
    pub buffer: VecDeque<KeyState>,
    pub flags: u64,
}

impl State {
    pub fn new(buffer: VecDeque<KeyState>, flags: u64) -> (r: State)
        ensures
            r.buffer@ == buffer@,
            r.flags == flags,
    {
        State { buffer, flags }
    }
}

/// The first `l` entries of `s` equal the next `l` entries.
pub open spec fn repeats_with(s: Seq<KeyState>, l: int) -> bool {
    1 <= l && 2 * l <= s.len() && s.subrange(0, l) == s.subrange(l, 2 * l)
}

/// The largest `l` no greater than `max` with `repeats_with(s, l)`, if any.
pub open spec fn longest_repeat_upto(s: Seq<KeyState>, max: int) -> Option<nat>
    decreases max,
{
    if max < 1 {
        None
    } else if repeats_with(s, max) {
        Some(max as nat)
    } else {
        longest_repeat_upto(s, max - 1)
    }
}

/// The repeat unit of a buffer: the largest `l` whose first `l` entries equal the next `l`.
pub open spec fn repeat_unit(s: Seq<KeyState>) -> Option<nat> {
    longest_repeat_upto(s, (s.len() / 2) as int)
}

/// The key presses that replay the first `l` entries of `s` oldest first, that is in the
/// reverse of buffer order.
pub open spec fn replay_presses(s: Seq<KeyState>, l: int) -> Seq<InputEvent> {
    Seq::new(l as nat, |i: int| InputEvent::KeyPress(s[l - 1 - i].code))
}

/// The events that replaying a recorded state emits: nothing when the buffer has no repeat
/// unit; otherwise a flags change clearing the modifiers, the unit's key presses oldest
/// first, and a flags change restoring the flags of the state.
pub open spec fn replay_spec(s: Seq<KeyState>, flags: u64) -> Seq<InputEvent> {
    match repeat_unit(s) {
        None => Seq::empty(),
        Some(l) => seq![InputEvent::FlagsChanged(0, MASK_NON_COALESCED)] + replay_presses(s, l as int)
            + seq![InputEvent::FlagsChanged(0, flags)],
    }
}

proof fn lemma_longest_repeat_bound(s: Seq<KeyState>, max: int)
    ensures
        longest_repeat_upto(s, max) matches Some(l) ==> repeats_with(s, l as int) && l <= max,
    decreases max,
{
    if max >= 1 && !repeats_with(s, max) {
        lemma_longest_repeat_bound(s, max - 1);
    }
}

/// A buffer that holds `b, a, b, a` (most recent first) has a repeat unit of two, and its
/// replay is a flags change clearing the modifiers, the presses of `a` then `b` (oldest
/// first), and a flags change restoring the recorded flags.
pub proof fn lemma_replay_of_doubled_pair(a: KeyState, b: KeyState, flags: u64)
    ensures
        repeat_unit(seq![b, a, b, a]) == Some(2nat),
        replay_spec(seq![b, a, b, a], flags) == seq![
            InputEvent::FlagsChanged(0, MASK_NON_COALESCED),
            InputEvent::KeyPress(a.code),
            InputEvent::KeyPress(b.code),
            InputEvent::FlagsChanged(0, flags),
        ],
{
    let s = seq![b, a, b, a];
    assert(s.subrange(0, 2) =~= s.subrange(2, 4));
    assert(repeats_with(s, 2));
    assert(replay_presses(s, 2) =~= seq![InputEvent::KeyPress(a.code), InputEvent::KeyPress(b.code)]);
    assert(replay_spec(s, flags) =~= seq![
        InputEvent::FlagsChanged(0, MASK_NON_COALESCED),
        InputEvent::KeyPress(a.code),
        InputEvent::KeyPress(b.code),
        InputEvent::FlagsChanged(0, flags),
    ]);
}

/// Turns a recorded state into the synthetic events of its replay.
pub struct Sender {}

impl Sender {
    pub fn new() -> (r: Sender) {
        Sender {}
    }

    /// Whether the first `size` entries equal the next `size`.
    fn halves_equal(buffer: &VecDeque<KeyState>, size: usize) -> (r: bool)
        requires
            1 <= size,
            2 * size <= buffer@.len(),
        ensures
            r == repeats_with(buffer@, size as int),
    {
        let n = buffer.len();
        let mut i: usize = 0;
        while i < size
            invariant
                n == buffer@.len(),
                i <= size,
                2 * size <= buffer@.len(),
                forall|k: int| 0 <= k < i ==> #[trigger] buffer@[k] == buffer@[k + size],
            decreases size - i,
        {
            if buffer[i] != buffer[i + size] {
                proof {
                    assert(buffer@.subrange(0, size as int)[i as int] != buffer@.subrange(
                        size as int,
                        2 * size as int,
                    )[i as int]);
                }
                return false;
            }
            i = i + 1;
        }
        proof {
            assert(buffer@.subrange(0, size as int) =~= buffer@.subrange(size as int, 2 * size as int));
        }
        true
    }

    /// The repeat unit of the buffer (see `repeat_unit`), trying lengths from half the
    /// buffer down to one.
    pub fn check_repeat(&self, buffer: &VecDeque<KeyState>) -> (r: Option<usize>)
        ensures
            r matches Some(l) ==> repeat_unit(buffer@) == Some(l as nat),
            r is None ==> repeat_unit(buffer@) is None,
    {
        let mut size: usize = buffer.len() / 2;
        while size >= 1
            invariant
                size <= buffer@.len() / 2,
                longest_repeat_upto(buffer@, size as int) == repeat_unit(buffer@),
            decreases size,
        {
            if Self::halves_equal(buffer, size) {
                return Some(size);
            }
            size = size - 1;
        }
        None
    }

    /// The synthetic events that replay the repeat unit of the state; see `replay_spec`.
    pub fn process(&self, state: State) -> (r: Vec<InputEvent>)
        ensures
            r@ == replay_spec(state.buffer@, state.flags),
    {
        let buffer = state.buffer;
        let mut out: Vec<InputEvent> = Vec::new();
        match self.check_repeat(&buffer) {
            Some(size) => {
                proof {
                    lemma_longest_repeat_bound(buffer@, (buffer@.len() / 2) as int);
                }
                out.push(InputEvent::FlagsChanged(0, MASK_NON_COALESCED));
                let mut i: usize = size;
                while i > 0
                    invariant
                        i <= size,
                        2 * size <= buffer@.len(),
                        out@ == seq![InputEvent::FlagsChanged(0, MASK_NON_COALESCED)]
                            + replay_presses(buffer@, size as int).subrange(0, (size - i) as int),
                    decreases i,
                {
                    i = i - 1;
                    out.push(InputEvent::KeyPress(buffer[i].code));
                    proof {
                        assert(replay_presses(buffer@, size as int).subrange(0, (size - i) as int)
                            =~= replay_presses(buffer@, size as int).subrange(
                            0,
                            (size - i - 1) as int,
                        ).push(InputEvent::KeyPress(buffer@[i as int].code)));
                    }
                }
                out.push(InputEvent::FlagsChanged(0, state.flags));
                proof {
                    assert(replay_presses(buffer@, size as int).subrange(0, size as int)
                        =~= replay_presses(buffer@, size as int));
                }
            },
            None => {},
        }
        out
    }
}

/// What the engine does with one event: whether the event goes on to the rest of the
/// system, and the synthetic events to inject after it.
pub struct Reaction {
    pub forward: bool,
    pub replay: Vec<InputEvent>,
}

/// The buffer after a key press recorded with `flags`: the new entry in front, the oldest
/// entries beyond `capacity` dropped.
pub open spec fn record_press(buffer: Seq<KeyState>, capacity: nat, code: u16, flags: u64) -> Seq<
    KeyState,
> {
    let b = seq![KeyState { code, flags }] + buffer;
    if b.len() > capacity {
        b.subrange(0, capacity as int)
    } else {
        b
    }
}

/// The dynamic macro engine: records key presses, and when the trigger hotkey is pressed
/// replays the sequence just typed twice once more.
pub struct Handler {
    buffer: VecDeque<KeyState>,
    capacity: usize,
    latest_flags: u64,
    hotkey: HotKey,
}

impl Handler {
    /// The recorded presses, most recent first.
    pub closed spec fn buffer_spec(&self) -> Seq<KeyState> {
        self.buffer@
    }

    pub closed spec fn capacity_spec(&self) -> nat {
        self.capacity as nat
    }

    /// The modifier flags of the last flags change seen.
    pub closed spec fn latest_flags_spec(&self) -> u64 {
        self.latest_flags
    }

    pub closed spec fn hotkey_spec(&self) -> HotKey {
        self.hotkey
    }

    /// `new` is `old` with nothing changed.
    pub open spec fn unchanged(old: Handler, new: Handler) -> bool {
        &&& new.buffer_spec() == old.buffer_spec()
        &&& new.capacity_spec() == old.capacity_spec()
        &&& new.latest_flags_spec() == old.latest_flags_spec()
        &&& new.hotkey_spec() == old.hotkey_spec()
    }

    /// `new` is the engine `old` after handling `event`: a press of the trigger (against the
    /// latest flags) and a release change nothing; any other press is recorded with the
    /// latest flags; a flags change sets the latest flags. Capacity and trigger stay.
    pub open spec fn steps(old: Handler, new: Handler, event: InputEvent) -> bool {
        &&& new.capacity_spec() == old.capacity_spec()
        &&& new.hotkey_spec() == old.hotkey_spec()
        &&& match event {
            InputEvent::KeyPress(code) => if matches_spec(
                old.hotkey_spec(),
                old.latest_flags_spec(),
                code,
            ) {
                new.buffer_spec() == old.buffer_spec() && new.latest_flags_spec()
                    == old.latest_flags_spec()
            } else {
                new.buffer_spec() == record_press(
                    old.buffer_spec(),
                    old.capacity_spec(),
                    code,
                    old.latest_flags_spec(),
                ) && new.latest_flags_spec() == old.latest_flags_spec()
            },
            InputEvent::KeyRelease(_) => new.buffer_spec() == old.buffer_spec()
                && new.latest_flags_spec() == old.latest_flags_spec(),
            InputEvent::FlagsChanged(_, flags) => new.buffer_spec() == old.buffer_spec()
                && new.latest_flags_spec() == flags,
        }
    }

    /// An engine with an empty buffer that keeps at most `capacity` presses and replays on
    /// `hotkey`.
    pub fn new(capacity: usize, hotkey: HotKey) -> (r: Handler)
        ensures
            r.buffer_spec() == Seq::<KeyState>::empty(),
            r.capacity_spec() == capacity,
            r.latest_flags_spec() == MASK_NON_COALESCED,
            r.hotkey_spec() == hotkey,
    {
        Handler {
            buffer: VecDeque::with_capacity(capacity),
            capacity,
            latest_flags: MASK_NON_COALESCED,
            hotkey,
        }
    }

    /// The recorded presses, most recent first.
    pub fn buffer(&self) -> (r: &VecDeque<KeyState>)
        ensures
            r@ == self.buffer_spec(),
    {
        &self.buffer
    }

    /// The modifier flags of the last flags change seen.
    pub fn latest_flags(&self) -> (r: u64)
        ensures
            r == self.latest_flags_spec(),
    {
        self.latest_flags
    }

    fn copy_buffer(&self) -> (r: VecDeque<KeyState>)
        ensures
            r@ == self.buffer@,
    {
        let mut out: VecDeque<KeyState> = VecDeque::new();
        let mut i: usize = 0;
        while i < self.buffer.len()
            invariant
                i <= self.buffer@.len(),
                out@ == self.buffer@.subrange(0, i as int),
            decreases self.buffer@.len() - i,
        {
            out.push_back(self.buffer[i]);
            i = i + 1;
            proof {
                assert(out@ =~= self.buffer@.subrange(0, i as int));
            }
        }
        proof {
            assert(out@ =~= self.buffer@);
        }
        out
    }

    /// Handles one event. A press of the trigger hotkey (matched against the latest
    /// modifier flags) is swallowed and answered with the replay of the buffer; any other
    /// press is recorded with the latest flags; a flags change updates the latest flags.
    /// Everything but the trigger goes on to the rest of the system.
    pub fn callback(&mut self, event: InputEvent) -> (r: Reaction)
        ensures
            Handler::steps(*old(self), *final(self), event),
            match event {
                InputEvent::KeyPress(code) => if matches_spec(
                    old(self).hotkey_spec(),
                    old(self).latest_flags_spec(),
                    code,
                ) {
                    &&& !r.forward
                    &&& r.replay@ == replay_spec(old(self).buffer_spec(), old(self).latest_flags_spec())
                    &&& final(self).buffer_spec() == old(self).buffer_spec()
                    &&& final(self).latest_flags_spec() == old(self).latest_flags_spec()
                } else {
                    &&& r.forward
                    &&& r.replay@.len() == 0
                    &&& final(self).buffer_spec() == record_press(
                        old(self).buffer_spec(),
                        old(self).capacity_spec(),
                        code,
                        old(self).latest_flags_spec(),
                    )
                    &&& final(self).latest_flags_spec() == old(self).latest_flags_spec()
                },
                InputEvent::KeyRelease(_) => {
                    &&& r.forward
                    &&& r.replay@.len() == 0
                    &&& final(self).buffer_spec() == old(self).buffer_spec()
                    &&& final(self).latest_flags_spec() == old(self).latest_flags_spec()
                },
                InputEvent::FlagsChanged(_, flags) => {
                    &&& r.forward
                    &&& r.replay@.len() == 0
                    &&& final(self).buffer_spec() == old(self).buffer_spec()
                    &&& final(self).latest_flags_spec() == flags
                },
            },
    {
        match event {
            InputEvent::KeyPress(code) => {
                if self.hotkey.matches(self.latest_flags, code) {
                    let sender = Sender::new();
                    let replay = sender.process(State::new(self.copy_buffer(), self.latest_flags));
                    return Reaction { forward: false, replay };
                }
                self.buffer.push_front(KeyState { code, flags: self.latest_flags });
                if self.capacity < self.buffer.len() {
                    self.buffer.truncate(self.capacity);
                }
                Reaction { forward: true, replay: Vec::new() }
            },
            InputEvent::KeyRelease(_) => Reaction { forward: true, replay: Vec::new() },
            InputEvent::FlagsChanged(_, flags) => {
                self.latest_flags = flags;
                Reaction { forward: true, replay: Vec::new() }
            },
        }
    }
}

} // verus!
