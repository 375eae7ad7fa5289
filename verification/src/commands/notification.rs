//! Desktop notifications: what is shown.

use crate::models::NotificationParams;
use vstd::prelude::*;

verus! {

/// The icon that a notification is shown with: the one it names, unless
/// that is empty.
pub fn notification_icon(params: &NotificationParams) -> (icon: Option<&str>)
    ensures
        match icon {
            Some(shown) => params.icon matches Some(named) && named@.len() > 0 && shown@
                == named@,
            None => params.icon matches Some(named) ==> named@.len() == 0,
        },
{
    match &params.icon {
        Some(named) => {
            if named.as_str().unicode_len() > 0 {
                Some(named.as_str())
            } else {
                None
            }
        },
        None => None,
    }
}

} // verus!
