//! The advanced page: when the model is unloaded.

use crate::settings::ModelUnloadTimeout;
use vstd::prelude::*;

verus! {

/// The timeouts that can be chosen, in the page's order.
pub open spec fn timeouts() -> Seq<ModelUnloadTimeout> {
    seq![
        ModelUnloadTimeout::Never,
        ModelUnloadTimeout::Immediately,
        ModelUnloadTimeout::Sec5,
        ModelUnloadTimeout::Min2,
        ModelUnloadTimeout::Min5,
        ModelUnloadTimeout::Min10,
        ModelUnloadTimeout::Min15,
        ModelUnloadTimeout::Hour1,
    ]
}

/// The place of a timeout on the page.
pub open spec fn timeout_place(t: ModelUnloadTimeout) -> u32 {
    match t {
        ModelUnloadTimeout::Never => 0,
        ModelUnloadTimeout::Immediately => 1,
        ModelUnloadTimeout::Sec5 => 2,
        ModelUnloadTimeout::Min2 => 3,
        ModelUnloadTimeout::Min5 => 4,
        ModelUnloadTimeout::Min10 => 5,
        ModelUnloadTimeout::Min15 => 6,
        ModelUnloadTimeout::Hour1 => 7,
    }
}

/// The place of a timeout on the page.
pub fn timeout_index(t: ModelUnloadTimeout) -> (r: u32)
    ensures
        r == timeout_place(t),
{
    match t {
        ModelUnloadTimeout::Never => 0,
        ModelUnloadTimeout::Immediately => 1,
        ModelUnloadTimeout::Sec5 => 2,
        ModelUnloadTimeout::Min2 => 3,
        ModelUnloadTimeout::Min5 => 4,
        ModelUnloadTimeout::Min10 => 5,
        ModelUnloadTimeout::Min15 => 6,
        ModelUnloadTimeout::Hour1 => 7,
    }
}

/// The timeout at a place, if there is one.
pub fn timeout_at(index: usize) -> (r: Option<ModelUnloadTimeout>)
    ensures
        r == (if index < timeouts().len() {
            Some(timeouts()[index as int])
        } else {
            None
        }),
{
    if index == 0 {
        Some(ModelUnloadTimeout::Never)
    } else if index == 1 {
        Some(ModelUnloadTimeout::Immediately)
    } else if index == 2 {
        Some(ModelUnloadTimeout::Sec5)
    } else if index == 3 {
        Some(ModelUnloadTimeout::Min2)
    } else if index == 4 {
        Some(ModelUnloadTimeout::Min5)
    } else if index == 5 {
        Some(ModelUnloadTimeout::Min10)
    } else if index == 6 {
        Some(ModelUnloadTimeout::Min15)
    } else if index == 7 {
        Some(ModelUnloadTimeout::Hour1)
    } else {
        None
    }
}

/// A timeout's name.
pub fn timeout_name(t: ModelUnloadTimeout) -> (r: &'static str)
    ensures
        r@ == (match t {
            ModelUnloadTimeout::Never => "Never"@,
            ModelUnloadTimeout::Immediately => "Immediately"@,
            ModelUnloadTimeout::Sec5 => "5 seconds"@,
            ModelUnloadTimeout::Min2 => "2 minutes"@,
            ModelUnloadTimeout::Min5 => "5 minutes"@,
            ModelUnloadTimeout::Min10 => "10 minutes"@,
            ModelUnloadTimeout::Min15 => "15 minutes"@,
            ModelUnloadTimeout::Hour1 => "1 hour"@,
        }),
{
    match t {
        ModelUnloadTimeout::Never => "Never",
        ModelUnloadTimeout::Immediately => "Immediately",
        ModelUnloadTimeout::Sec5 => "5 seconds",
        ModelUnloadTimeout::Min2 => "2 minutes",
        ModelUnloadTimeout::Min5 => "5 minutes",
        ModelUnloadTimeout::Min10 => "10 minutes",
        ModelUnloadTimeout::Min15 => "15 minutes",
        ModelUnloadTimeout::Hour1 => "1 hour",
    }
}

/// The page shows the timeout of the settings, and choosing what it shows changes nothing.
pub proof fn law_shown_timeout_is_the_chosen_one(t: ModelUnloadTimeout)
    ensures
        timeout_place(t) < timeouts().len(),
        timeouts()[timeout_place(t) as int] == t,
{
}

/// Every timeout is offered once: never, then from the shortest to the longest.
pub proof fn law_timeouts_are_offered_by_length(i: int, j: int)
    ensures
        timeouts()[0] == ModelUnloadTimeout::Never,
        1 <= i < j < timeouts().len() ==> crate::settings::unload_seconds(timeouts()[i])->0
            < crate::settings::unload_seconds(timeouts()[j])->0,
        timeouts().len() == 8,
{
}

} // verus!
