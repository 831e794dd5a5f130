//! Laws of the input handler and of the main loop, proved once and for all
//! states: counting, cancellation, the finality of the quit key, and the
//! inertness of every other key.

use vstd::prelude::*;

use crate::state::App;
use crate::state::Key;
use crate::state::LoopEvent;
use crate::state::spec_handle_key;
use crate::state::spec_handle_keys;
use crate::state::spec_run;
use crate::state::spec_step;

verus! {

/// A run of `Right` presses adds its length to the counter, as long as the
/// sum stays within `u8`, and never touches the exit flag.
pub proof fn lemma_rights_add(s: App, ks: Seq<Key>)
    requires
        forall|i: int| 0 <= i < ks.len() ==> ks[i] == Key::Right,
        s.counter + ks.len() <= 255,
    ensures
        spec_handle_keys(s, ks).counter == s.counter + ks.len(),
        spec_handle_keys(s, ks).exit_requested == s.exit_requested,
    decreases ks.len(),
{
    if ks.len() > 0 {
        let s1 = spec_handle_key(s, ks[0]);
        lemma_rights_add(s1, ks.skip(1));
    }
}

/// From a fresh counter, a sequence of n `Right` presses ends at counter n,
/// for every n the counter can hold.
pub proof fn lemma_right_presses_count(s: App, ks: Seq<Key>)
    requires
        s.counter == 0,
        ks.len() <= 255,
        forall|i: int| 0 <= i < ks.len() ==> ks[i] == Key::Right,
    ensures
        spec_handle_keys(s, ks).counter == ks.len(),
{
    lemma_rights_add(s, ks);
}

/// A `Left` press followed by a `Right` press returns the state exactly to
/// what it was before the pair, at every starting value of the counter.
pub proof fn lemma_left_then_right_cancels(s: App)
    ensures
        spec_handle_key(spec_handle_key(s, Key::Left), Key::Right) == s,
{
}

/// A state whose exit flag is set never changes again: the main loop stops at
/// its next check and consumes no further event.
pub proof fn lemma_exited_state_is_fixed(s: App, evs: Seq<LoopEvent>)
    requires
        s.exit_requested,
    ensures
        spec_run(s, evs) == s,
    decreases evs.len(),
{
    if evs.len() > 0 {
        assert(spec_step(s, evs[0]) == s);
        lemma_exited_state_is_fixed(s, evs.skip(1));
    }
}

/// Uppercase `Q` at any state sets the exit flag, keeps the counter, and no
/// later event mutates the state.
pub proof fn lemma_quit_is_final(s: App, evs: Seq<LoopEvent>)
    ensures
        spec_handle_key(s, Key::Char('Q')).exit_requested,
        spec_handle_key(s, Key::Char('Q')).counter == s.counter,
        spec_run(spec_handle_key(s, Key::Char('Q')), evs) == spec_handle_key(s, Key::Char('Q')),
{
    lemma_exited_state_is_fixed(spec_handle_key(s, Key::Char('Q')), evs);
}

/// Any key other than `Left`, `Right`, or uppercase `Q` leaves the whole
/// state, counter and exit flag alike, unchanged.
pub proof fn lemma_other_key_is_noop(s: App, k: Key)
    requires
        k != Key::Left,
        k != Key::Right,
        k != Key::Char('Q'),
    ensures
        spec_handle_key(s, k) == s,
{
}

/// The exit flag is one-way: once set, no key press resets it.
pub proof fn lemma_exit_flag_is_one_way(s: App, k: Key)
    requires
        s.exit_requested,
    ensures
        spec_handle_key(s, k).exit_requested,
{
}

} // verus!
