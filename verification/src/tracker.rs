//! The table of tracked devices that the event loop dispatches to.
use vstd::prelude::*;

use std::collections::HashMap;

use crate::codes::{ENODEV, EV_KEY, HOTPLUG_TOKEN, KEY_R};
use crate::config::InputConfig;
use crate::device::{step, accepts, alt_held, ctrl_held, DeviceWrapper, Reaction};
use crate::event::RawEvent;

verus! {

broadcast use vstd::std_specs::hash::group_hash_axioms;

/// What the table holds: the devices by their poll token, the next token
/// to hand out, and the last keystroke on any keyboard.
pub struct TableView {
    pub devices: Map<usize, DeviceWrapper>,
    pub next_token: usize,
    pub last_typing: Option<u64>,
}

impl TableView {
    /// Some device has `token`.
    pub open spec fn has_token(self, token: usize) -> bool {
        self.devices.contains_key(token)
    }

    /// Some device has the node `path`.
    pub open spec fn tracks_path(self, path: Seq<char>) -> bool {
        exists|t: usize| #[trigger] self.devices.contains_key(t) && self.devices[t].path@ == path
    }

    /// Every token in use is below the next one to hand out.
    pub open spec fn tokens_ok(self) -> bool {
        forall|t: usize| #[trigger] self.devices.contains_key(t) ==> t < self.next_token
    }

    /// No two devices have the same node.
    pub open spec fn paths_distinct(self) -> bool {
        forall|t: usize, u: usize|
            #[trigger] self.devices.contains_key(t) && #[trigger] self.devices.contains_key(u) && t
                != u ==> self.devices[t].path@ != self.devices[u].path@
    }

    /// The table's standing invariant: tokens below the next one, paths distinct.
    pub open spec fn well_kept(self) -> bool {
        self.tokens_ok() && self.paths_distinct()
    }
}

/// The Ctrl+Alt+R combination on a keyboard: `R` goes down while a Ctrl
/// key and an Alt key are held.
pub open spec fn is_reset_combo(d: DeviceWrapper, ev: RawEvent) -> bool {
    d.is_keyboard && ev.kind == EV_KEY && ev.value == 1 && ev.code == KEY_R && ctrl_held(d)
        && alt_held(d)
}

/// A key goes down or repeats on a keyboard.
pub open spec fn is_keystroke(d: DeviceWrapper, ev: RawEvent) -> bool {
    d.is_keyboard && ev.kind == EV_KEY && ev.value != 0
}

/// The last keystroke on any keyboard after device `d` took `ev` at
/// `now`: `now` if that was a keystroke, else unchanged.
pub open spec fn typing_after(d: DeviceWrapper, ev: RawEvent, now: u64, last_typing: Option<u64>) -> Option<u64> {
    if is_keystroke(d, ev) {
        Some(now)
    } else {
        last_typing
    }
}

/// One event dispatched to the device with `token`: the table after it and
/// the outcome, `None` when no device has the token. A Ctrl+Alt+R request
/// is judged on the device before the event; the device steps with the
/// last keystroke on any keyboard; a keystroke becomes the new last one.
pub open spec fn table_step(
    tv: TableView,
    token: usize,
    ev: RawEvent,
    config: InputConfig,
    now: u64,
) -> (TableView, Option<Dispatch>) {
    if !tv.has_token(token) {
        (tv, None)
    } else {
        let d = tv.devices[token];
        let (d2, reaction) = step(d, ev, config, tv.last_typing, now);
        (
            TableView {
                devices: tv.devices.insert(token, d2),
                last_typing: typing_after(d, ev, now, tv.last_typing),
                ..tv
            },
            Some(Dispatch { reaction, reset_requested: is_reset_combo(d, ev) }),
        )
    }
}

/// The outcome of one event dispatched to a tracked device.
#[derive(Clone, Copy, Debug, PartialEq, Eq, Structural)]
pub struct Dispatch {
    /// What the daemon has to do.
    pub reaction: Reaction,
    /// The event asked for a reset of the touchpad driver.
    pub reset_requested: bool,
}

/// How a failed read from a device is taken.
#[derive(Clone, Copy, Debug, PartialEq, Eq, Structural)]
pub enum FetchFailure {
    /// The device is gone: drop it.
    Disconnected,
    /// Nothing to read yet: ignore.
    NotReady,
    /// Another error: report it and keep the device.
    Failed,
}

/// How a read error is taken, from its OS error number and its kind.
pub open spec fn fetch_failure(os_error: Option<i32>, unexpected_eof: bool, would_block: bool) -> FetchFailure {
    if os_error == Some(ENODEV) || unexpected_eof {
        FetchFailure::Disconnected
    } else if !would_block {
        FetchFailure::Failed
    } else {
        FetchFailure::NotReady
    }
}

/// Classifies a failed read from a device.
pub fn classify_fetch_error(os_error: Option<i32>, unexpected_eof: bool, would_block: bool) -> (f:
    FetchFailure)
    ensures
        f == fetch_failure(os_error, unexpected_eof, would_block),
{
    let no_device = match os_error {
        Some(e) => e == ENODEV,
        None => false,
    };
    if no_device || unexpected_eof {
        FetchFailure::Disconnected
    } else if !would_block {
        FetchFailure::Failed
    } else {
        FetchFailure::NotReady
    }
}

/// Every value of a map occurs in a sequence that lists the map's values.
broadcast proof fn lemma_values_listed(s: Seq<DeviceWrapper>, m: Map<usize, DeviceWrapper>)
    ensures
        #[trigger] s.to_set() == #[trigger] m.values() ==> forall|t: usize|
            #[trigger] m.contains_key(t) ==> exists|j: int| 0 <= j < s.len() && s[j] == m[t],
{
    if s.to_set() == m.values() {
        assert forall|t: usize| #[trigger] m.contains_key(t) implies exists|j: int|
            0 <= j < s.len() && s[j] == m[t] by {
            assert(m.values().contains(m[t]));
            assert(s.to_set().contains(m[t]));
            assert(s.contains(m[t]));
        }
    }
}

/// The devices the daemon tracks, keyed by their poll token.
pub struct DeviceTable {
    devices: HashMap<usize, DeviceWrapper>,
    next_token: usize,
    last_typing: Option<u64>,
}

impl View for DeviceTable {
    type V = TableView;

    closed spec fn view(&self) -> TableView {
        TableView {
            devices: self.devices@,
            next_token: self.next_token,
            last_typing: self.last_typing,
        }
    }
}

impl DeviceTable {
    #[verifier::type_invariant]
    closed spec fn well_formed(self) -> bool {
        self@.well_kept()
    }

    /// Moves the devices out, leaving the table empty.
    fn take_devices(&mut self) -> (devices: HashMap<usize, DeviceWrapper>)
        ensures
            devices@ == old(self).devices@,
            final(self).devices@ == Map::<usize, DeviceWrapper>::empty(),
            final(self).next_token == old(self).next_token,
            final(self).last_typing == old(self).last_typing,
    {
        let mut devices: HashMap<usize, DeviceWrapper> = HashMap::new();
        std::mem::swap(&mut devices, &mut self.devices);
        devices
    }

    /// An empty table that hands out tokens from 0.
    pub fn new() -> (t: DeviceTable)
        ensures
            t@.devices == Map::<usize, DeviceWrapper>::empty(),
            t@.next_token == 0,
            t@.last_typing is None,
            t@.well_kept(),
    {
        DeviceTable { devices: HashMap::new(), next_token: 0, last_typing: None }
    }

    /// The number of tracked devices.
    pub fn len(&self) -> (n: usize)
        ensures
            n == self@.devices.len(),
    {
        self.devices.len()
    }

    /// The token that `allocate_token` hands out next.
    pub fn next_token(&self) -> (t: usize)
        ensures
            t == self@.next_token,
    {
        self.next_token
    }

    /// The last keystroke on any keyboard.
    pub fn last_global_typing_time(&self) -> (t: Option<u64>)
        ensures
            t == self@.last_typing,
    {
        self.last_typing
    }

    /// Whether a device with the node `path` is tracked.
    pub fn is_tracked(&self, path: &String) -> (b: bool)
        ensures
            b == self@.tracks_path(path@),
    {
        broadcast use lemma_values_listed;
        let ghost m = self.devices@;
        for d in it: self.devices.values()
            invariant
                m == self.devices@,
                it.seq().unref().to_set() == m.values(),
                forall|j: int| 0 <= j < it.index() ==> (#[trigger] it.seq()[j]).path@ != path@,
        {
            if d.path == *path {
                proof {
                    let v = *d;
                    assert(it.seq().unref()[it.index()] == v);
                    assert(it.seq().unref().contains(v));
                    assert(it.seq().unref().to_set().contains(v));
                    assert(m.values().contains(v));
                    let t = choose|t: usize| #[trigger] m.contains_key(t) && m[t] == v;
                    assert(m.contains_key(t) && m[t].path@ == path@);
                }
                return true;
            }
        }
        false
    }

    /// Hands out the next token.
    pub fn allocate_token(&mut self) -> (token: usize)
        requires
            old(self)@.next_token < usize::MAX,
        ensures
            token == old(self)@.next_token,
            token != HOTPLUG_TOKEN,
            !old(self)@.has_token(token),
            final(self)@ == (TableView { next_token: (token + 1) as usize, ..old(self)@ }),
            final(self)@.well_kept(),
    {
        proof { use_type_invariant(&*self); }
        let token = self.next_token;
        self.next_token = token + 1;
        token
    }

    /// Adds `device` under `token`, a token handed out earlier and not in
    /// use, for a node not tracked yet.
    pub fn insert(&mut self, token: usize, device: DeviceWrapper)
        requires
            token < old(self)@.next_token,
            !old(self)@.has_token(token),
            !old(self)@.tracks_path(device.path@),
        ensures
            final(self)@ == (TableView { devices: old(self)@.devices.insert(token, device), ..old(self)@ }),
            final(self)@.well_kept(),
    {
        proof { use_type_invariant(&*self); }
        let ghost before = self@;
        let mut devices = self.take_devices();
        devices.insert(token, device);
        proof {
            let after = TableView { devices: devices@, ..before };
            assert forall|t: usize, u: usize|
                #[trigger] after.devices.contains_key(t) && #[trigger] after.devices.contains_key(u)
                    && t != u implies after.devices[t].path@ != after.devices[u].path@ by {
                if t == token {
                    assert(before.devices.contains_key(u));
                } else if u == token {
                    assert(before.devices.contains_key(t));
                }
            }
        }
        self.devices = devices;
    }

    /// Drops the device with `token`.
    pub fn remove(&mut self, token: usize)
        ensures
            final(self)@ == (TableView { devices: old(self)@.devices.remove(token), ..old(self)@ }),
            final(self)@.well_kept(),
    {
        proof { use_type_invariant(&*self); }
        let mut devices = self.take_devices();
        devices.remove(&token);
        self.devices = devices;
    }

    /// Whether the device with `token`, if any, can take `ev`.
    pub fn can_process(&self, token: usize, ev: &RawEvent) -> (b: bool)
        ensures
            b == (self@.has_token(token) ==> accepts(self@.devices[token], *ev)),
    {
        match self.devices.get(&token) {
            Some(d) => d.can_process(ev),
            None => true,
        }
    }

    /// Feeds `ev` to the device with `token` (see `table_step`). `None` if
    /// no device has the token.
    pub fn process(&mut self, token: usize, ev: RawEvent, config: &InputConfig, now: u64) -> (r:
        Option<Dispatch>)
        requires
            old(self)@.has_token(token) ==> accepts(old(self)@.devices[token], ev),
        ensures
            final(self)@ == table_step(old(self)@, token, ev, *config, now).0,
            r == table_step(old(self)@, token, ev, *config, now).1,
            final(self)@.well_kept(),
    {
        proof { use_type_invariant(&*self); }
        let ghost before = self@;
        let mut devices = self.take_devices();
        match devices.remove(&token) {
            Some(mut device) => {
                assert(device == before.devices[token]);
                let reset = device.is_keyboard && ev.kind == EV_KEY && ev.value == 1
                    && ev.code == KEY_R && (device.left_ctrl_held || device.right_ctrl_held)
                    && (device.left_alt_held || device.right_alt_held);
                let keystroke = device.is_keyboard && ev.kind == EV_KEY && ev.value != 0;
                let reaction = device.process_event(ev, config, self.last_typing, now);
                if keystroke {
                    self.last_typing = Some(now);
                }
                devices.insert(token, device);
                proof {
                    assert(devices@ =~= before.devices.insert(token, device));
                    let after = TableView { devices: devices@, ..before };
                    assert forall|t: usize, u: usize|
                        #[trigger] after.devices.contains_key(t) && #[trigger] after.devices.contains_key(u)
                            && t != u implies after.devices[t].path@ != after.devices[u].path@ by {
                        assert(before.devices.contains_key(t) && before.devices.contains_key(u));
                    }
                }
                self.devices = devices;
                Some(Dispatch { reaction, reset_requested: reset })
            },
            None => {
                assert(devices@ =~= before.devices);
                self.devices = devices;
                None
            },
        }
    }

    /// Completes the pending report of the device with `token` (see
    /// `DeviceWrapper::finish_report`); nothing if no device has the token.
    pub fn finish_report(&mut self, token: usize)
        ensures
            !old(self)@.has_token(token) ==> final(self)@ == old(self)@,
            old(self)@.has_token(token) ==> final(self)@ == (TableView {
                devices: old(self)@.devices.insert(
                    token,
                    DeviceWrapper { current_dx: 0, current_dy: 0, ..old(self)@.devices[token] },
                ),
                ..old(self)@
            }),
            final(self)@.well_kept(),
    {
        proof { use_type_invariant(&*self); }
        let ghost before = self@;
        let mut devices = self.take_devices();
        match devices.remove(&token) {
            Some(mut device) => {
                device.finish_report();
                devices.insert(token, device);
                proof {
                    assert(devices@ =~= before.devices.insert(token, device));
                    let after = TableView { devices: devices@, ..before };
                    assert forall|t: usize, u: usize|
                        #[trigger] after.devices.contains_key(t) && #[trigger] after.devices.contains_key(u)
                            && t != u implies after.devices[t].path@ != after.devices[u].path@ by {
                        assert(before.devices.contains_key(t) && before.devices.contains_key(u));
                    }
                }
                self.devices = devices;
            },
            None => {
                assert(devices@ =~= before.devices);
                self.devices = devices;
            },
        }
    }
}

} // verus!
