//! The desktop clock's list of server profiles and the decisions of its
//! profile editor: choosing, adding, editing and removing a profile.
use vstd::prelude::*;

use crate::text::{chars_of, string_from_chars, trim_back, trim_chars, trim_front};

verus! {

/// A server profile as the desktop clock keeps it: a name, a hostname and a
/// fallback address, each as typed.
#[derive(Clone, Debug, PartialEq, Eq)]
pub struct ClockProfile {
    pub name: String,
    pub hostname: String,
    pub ip: String,
}

/// The abstract value of a [`ClockProfile`].
pub open spec fn profile_model(p: ClockProfile) -> (Seq<char>, Seq<char>, Seq<char>) {
    (p.name@, p.hostname@, p.ip@)
}

/// The abstract values of a list of profiles, in order.
pub open spec fn profile_models(v: Seq<ClockProfile>) -> Seq<(Seq<char>, Seq<char>, Seq<char>)> {
    v.map_values(|p: ClockProfile| profile_model(p))
}

/// What the profile editor is doing.
#[derive(Clone, Copy, Debug, PartialEq, Eq, Structural)]
pub enum EditMode {
    /// Not editing.
    Idle,
    /// Entering a new profile.
    New,
    /// Editing the profile at this position.
    Existing(usize),
}

/// `s` without its leading and trailing white space.
pub open spec fn trimmed(s: Seq<char>) -> Seq<char> {
    trim_back(trim_front(s))
}

/// Whether the fields typed into the editor can be saved: a name, and a
/// hostname or an address, once white space is trimmed.
pub open spec fn saveable(name: Seq<char>, hostname: Seq<char>, ip: Seq<char>) -> bool {
    trimmed(name).len() > 0 && (trimmed(hostname).len() > 0 || trimmed(ip).len() > 0)
}

/// The profiles and active position after saving the editor's fields under
/// `mode`; `None` when the fields cannot be saved, which leaves everything
/// as it was.
pub open spec fn save_spec(
    profiles: Seq<(Seq<char>, Seq<char>, Seq<char>)>,
    active: int,
    mode: EditMode,
    name: Seq<char>,
    hostname: Seq<char>,
    ip: Seq<char>,
) -> Option<(Seq<(Seq<char>, Seq<char>, Seq<char>)>, int)> {
    if !saveable(name, hostname, ip) {
        None
    } else {
        let p = (trimmed(name), trimmed(hostname), trimmed(ip));
        match mode {
            EditMode::New => Some((profiles.push(p), profiles.len() as int)),
            EditMode::Existing(i) => Some((profiles.update(i as int, p), active)),
            EditMode::Idle => Some((profiles, active)),
        }
    }
}

/// The profiles and active position after removing the active profile; the
/// last profile is never removed, and the active position stays in range.
pub open spec fn remove_spec(profiles: Seq<(Seq<char>, Seq<char>, Seq<char>)>, active: int) -> (
    Seq<(Seq<char>, Seq<char>, Seq<char>)>,
    int,
) {
    if profiles.len() > 1 {
        let rest = profiles.remove(active);
        (rest, if active >= rest.len() {
            rest.len() - 1
        } else {
            active
        })
    } else {
        (profiles, active)
    }
}

fn trim_str(s: &str) -> (r: String)
    ensures
        r@ == trimmed(s@),
{
    let chars = chars_of(s);
    let t = trim_chars(chars.as_slice());
    string_from_chars(t.as_slice())
}

/// Saves the editor's fields under `mode`, trimmed of white space: a new
/// profile is added at the end and becomes active, an existing one is
/// replaced in place. Returns whether the fields were saved, after which the
/// editor closes; fields without a name, or without both a hostname and an
/// address, are not saved.
pub fn save_profile(
    profiles: &mut Vec<ClockProfile>,
    active: &mut usize,
    mode: EditMode,
    name: &str,
    hostname: &str,
    ip: &str,
) -> (saved: bool)
    requires
        mode matches EditMode::Existing(i) ==> i < old(profiles)@.len(),
        mode is New ==> old(profiles)@.len() < usize::MAX,
    ensures
        saved == saveable(name@, hostname@, ip@),
        match save_spec(profile_models(old(profiles)@), *old(active) as int, mode, name@, hostname@, ip@) {
            Some((p, a)) => profile_models(final(profiles)@) == p && *final(active) == a,
            None => final(profiles)@ == old(profiles)@ && *final(active) == *old(active),
        },
{
    let name = trim_str(name);
    let hostname = trim_str(hostname);
    let ip = trim_str(ip);
    if name.as_str().unicode_len() == 0 || (hostname.as_str().unicode_len() == 0 && ip.as_str().unicode_len() == 0) {
        return false;
    }
    let ghost before = profile_models(profiles@);
    let profile = ClockProfile { name, hostname, ip };
    match mode {
        EditMode::New => {
            let n = profiles.len();
            profiles.push(profile);
            *active = n;
            assert(profile_models(profiles@) =~= before.push(profile_model(profile)));
        },
        EditMode::Existing(i) => {
            let ghost p = profile;
            profiles.set(i, profile);
            assert(profile_models(profiles@) =~= before.update(i as int, profile_model(p)));
        },
        EditMode::Idle => {},
    }
    true
}

/// Removes the active profile, unless it is the only one; the active
/// position then moves to the last profile when it ran past the end.
pub fn remove_active_profile(profiles: &mut Vec<ClockProfile>, active: &mut usize)
    requires
        *old(active) < old(profiles)@.len(),
    ensures
        (profile_models(final(profiles)@), *final(active) as int) == remove_spec(
            profile_models(old(profiles)@),
            *old(active) as int,
        ),
        *final(active) < final(profiles)@.len(),
{
    if profiles.len() > 1 {
        let ghost before = profiles@;
        let idx = *active;
        profiles.remove(idx);
        assert(profile_models(profiles@) =~= profile_models(before).remove(idx as int));
        if idx >= profiles.len() {
            *active = profiles.len() - 1;
        }
    }
}

} // verus!
