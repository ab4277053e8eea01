//! Which D-Bus signals become events for the daemon.

use vstd::prelude::*;
use crate::dbus::UPOWER_INTERFACE;
use crate::text::str_equal;

verus! {

/// Something that may call for another profile.
#[derive(Debug, Clone, Copy, PartialEq, Eq)]
pub enum WatchEvent {
    PowerSourceChanged,
    LockStateChanged,
}

/// What a watcher does with one item of its signal stream.
#[derive(Debug, Clone, PartialEq, Eq)]
pub enum WatcherStep {
    /// Hand the event to the daemon.
    Emit(WatchEvent),
    /// Pass over the signal.
    Ignore,
    /// Stop watching, and hand this error to the daemon.
    Fail(String),
}

/// A `PropertiesChanged` signal: the interface and the names of its changed properties.
pub struct PropertiesChanged<'a> {
    pub interface_name: &'a str,
    pub changed_properties: Vec<&'a str>,
}

/// Whether a list of property names holds `name`.
pub open spec fn names_contain(names: Seq<&str>, name: Seq<char>) -> bool {
    exists|i: int| 0 <= i < names.len() && (#[trigger] names[i])@ == name
}

/// Whether a change of properties concerns the watched property of the watched interface.
pub open spec fn should_handle_spec(
    expected_interface_name: Seq<char>,
    expected_property: Seq<char>,
    interface_name: Seq<char>,
    changed_properties: Seq<&str>,
) -> bool {
    interface_name == expected_interface_name && names_contain(changed_properties, expected_property)
}

/// Whether a `PropertiesChanged` signal of `interface_name` that lists
/// `changed_properties` concerns `expected_property` of `expected_interface_name`.
pub fn should_handle_properties_changed(
    expected_interface_name: &str,
    expected_property: &str,
    interface_name: &str,
    changed_properties: &[&str],
) -> (r: bool)
    ensures
        r == should_handle_spec(expected_interface_name@, expected_property@, interface_name@, changed_properties@),
{
    if !str_equal(interface_name, expected_interface_name) {
        return false;
    }
    let n = changed_properties.len();
    let mut i: usize = 0;
    while i < n
        invariant
            n == changed_properties@.len(),
            i <= n,
            interface_name@ == expected_interface_name@,
            forall|k: int| 0 <= k < i ==> (#[trigger] changed_properties@[k])@ != expected_property@,
        decreases n - i,
    {
        if str_equal(changed_properties[i], expected_property) {
            assert(changed_properties@[i as int]@ == expected_property@);
            return true;
        }
        i = i + 1;
    }
    false
}

/// Any `ActiveChanged` signal of a screensaver is a change of the lock state.
pub fn parse_lock_state_changed_signal(_active: bool) -> (r: WatchEvent)
    ensures
        r == WatchEvent::LockStateChanged,
{
    WatchEvent::LockStateChanged
}

/// The step of the power-source watcher for one item of UPower's
/// `PropertiesChanged` stream: `None` when the stream ended, an error when a
/// signal could not be read.
pub fn upower_watch_step(signal: Option<Result<PropertiesChanged<'_>, String>>) -> (r: WatcherStep)
    ensures
        match signal {
            None => r matches WatcherStep::Fail(message) && message@ == "UPower properties stream ended"@,
            Some(Err(error)) => r == WatcherStep::Fail(error),
            Some(Ok(change)) => if should_handle_spec(
                UPOWER_INTERFACE@,
                "OnBattery"@,
                change.interface_name@,
                change.changed_properties@,
            ) {
                r == WatcherStep::Emit(WatchEvent::PowerSourceChanged)
            } else {
                r == WatcherStep::Ignore
            },
        },
{
    match signal {
        None => WatcherStep::Fail(String::from_str("UPower properties stream ended")),
        Some(Err(error)) => WatcherStep::Fail(error),
        Some(Ok(change)) => {
            if should_handle_properties_changed(
                UPOWER_INTERFACE,
                "OnBattery",
                change.interface_name,
                change.changed_properties.as_slice(),
            ) {
                WatcherStep::Emit(WatchEvent::PowerSourceChanged)
            } else {
                WatcherStep::Ignore
            }
        },
    }
}

/// The step of the lock-state watcher for one item of a screensaver's
/// `ActiveChanged` stream: `None` when the stream ended, an error when the
/// signal's body could not be read.
pub fn lock_state_watch_step(signal: Option<Result<bool, String>>) -> (r: WatcherStep)
    ensures
        match signal {
            None => r matches WatcherStep::Fail(message) && message@ == "lock-state signal stream ended"@,
            Some(Err(error)) => r == WatcherStep::Fail(error),
            Some(Ok(_)) => r == WatcherStep::Emit(WatchEvent::LockStateChanged),
        },
{
    match signal {
        None => WatcherStep::Fail(String::from_str("lock-state signal stream ended")),
        Some(Err(error)) => WatcherStep::Fail(error),
        Some(Ok(active)) => WatcherStep::Emit(parse_lock_state_changed_signal(active)),
    }
}

/// A change of properties is handled exactly when it comes from the watched
/// interface and the watched property is one of the changed properties, at
/// whatever position in the list.
pub proof fn lemma_handles_exactly_listed_property(
    expected_interface_name: Seq<char>,
    expected_property: Seq<char>,
    interface_name: Seq<char>,
    changed_properties: Seq<&str>,
)
    ensures
        should_handle_spec(expected_interface_name, expected_property, interface_name, changed_properties) <==> (
        interface_name == expected_interface_name && exists|i: int|
            0 <= i < changed_properties.len() && (#[trigger] changed_properties[i])@ == expected_property),
{
}

/// Adding a changed property to a handled signal keeps it handled, and a
/// signal is handled whenever its last changed property is the watched one.
pub proof fn lemma_handling_grows_with_the_list(
    expected_interface_name: Seq<char>,
    expected_property: Seq<char>,
    changed_properties: Seq<&str>,
    extra: &str,
)
    ensures
        should_handle_spec(expected_interface_name, expected_property, expected_interface_name, changed_properties)
            ==> should_handle_spec(
            expected_interface_name,
            expected_property,
            expected_interface_name,
            changed_properties.push(extra),
        ),
        extra@ == expected_property ==> should_handle_spec(
            expected_interface_name,
            expected_property,
            expected_interface_name,
            changed_properties.push(extra),
        ),
{
    let longer = changed_properties.push(extra);
    if names_contain(changed_properties, expected_property) {
        let i = choose|i: int| 0 <= i < changed_properties.len() && (#[trigger] changed_properties[i])@ == expected_property;
        assert(longer[i] == changed_properties[i]);
    }
    if extra@ == expected_property {
        assert(longer[changed_properties.len() as int] == extra);
    }
}

} // verus!
