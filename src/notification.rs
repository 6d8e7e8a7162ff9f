use vstd::prelude::*;

use crate::updater::AutoUpdater;

verus! {

/// Seconds between two polls of the periodic loop.
pub const POLL_INTERVAL_SECS: u64 = 3600;

pub open spec fn notification_key_spec() -> Seq<char> {
    "auto-updater-should-show-updated-notification"@
}

/// The key under which the notification flag is kept in the key-value store.
pub fn notification_key() -> (r: String)
    ensures
        r@ == notification_key_spec(),
{
    String::from_str("auto-updater-should-show-updated-notification")
}

/// A change to the key-value store.
#[derive(Clone, Debug)]
pub enum KeyValueOp {
    Write { key: String, value: String },
    Delete { key: String },
}

impl AutoUpdater {
    /// The store operation that sets (a present key) or clears (no key) the flag.
    pub fn set_should_show_update_notification(&self, should_show: bool) -> (r: KeyValueOp)
        ensures
            should_show ==> (r matches KeyValueOp::Write { key, value } && key@
                == notification_key_spec() && value@ == Seq::<char>::empty()),
            !should_show ==> (r matches KeyValueOp::Delete { key } && key@
                == notification_key_spec()),
    {
        if should_show {
            let value = String::new();
            KeyValueOp::Write { key: notification_key(), value }
        } else {
            KeyValueOp::Delete { key: notification_key() }
        }
    }

    /// Whether the user is to be told of an update, from what the store holds under the key.
    pub fn should_show_update_notification(&self, stored: &Option<String>) -> (r: bool)
        ensures
            r == stored.is_some(),
    {
        stored.is_some()
    }
}

} // verus!
