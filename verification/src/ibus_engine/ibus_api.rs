//! The names of the input source that this engine once had.

use crate::text;
use crate::text::{ends_with, same_text, trim};
use vstd::prelude::*;
use vstd::string::*;

verus! {

/// The name is one of the engine's.
pub open spec fn names_handy(name: Seq<char>) -> bool {
    name == "handy"@ || text::has_suffix(name, ":handy"@)
}

/// Whether the name is one of the engine's.
pub fn is_handy_engine(engine_name: &str) -> (r: bool)
    ensures
        r == names_handy(engine_name@),
{
    same_text(engine_name, "handy") || ends_with(engine_name, ":handy")
}

/// The current engine's name from what the input method reports, if it reports any.
pub fn current_ibus_engine(reported: Option<String>) -> (r: Option<String>)
    ensures
        text::opt_view(r) == (match reported {
            Some(raw) => if text::blank(raw@) {
                None
            } else {
                Some(text::trimmed(raw@))
            },
            None => None,
        }),
{
    match reported {
        Some(raw) => {
            let engine = trim(raw.as_str());
            if engine.as_str().is_empty() {
                None
            } else {
                Some(engine)
            }
        },
        None => None,
    }
}

/// Whether an engine was switched to: never one without a name, or whose name holds a zero
/// character, and otherwise as the input method says.
pub fn switch_engine(engine_name: &str, accepted: bool) -> (r: bool)
    ensures
        r == (switchable(engine_name@) && accepted),
{
    can_switch(engine_name) && accepted
}

/// The input method can be asked for an engine of this name.
pub open spec fn switchable(name: Seq<char>) -> bool {
    name.len() > 0 && !name.contains('\0')
}

/// Whether the input method can be asked for an engine of this name.
pub fn can_switch(engine_name: &str) -> (r: bool)
    ensures
        r == switchable(engine_name@),
{
    if engine_name.is_empty() {
        return false;
    }
    for c in it: engine_name.chars()
        invariant
            it.seq() == engine_name@,
            forall|k: int| 0 <= k < it.index() ==> #[trigger] engine_name@[k] != '\0',
    {
        if c == '\0' {
            assert(engine_name@[it.index() as int] == '\0');
            return false;
        }
    }
    true
}

/// The dictation engine is called handy, by itself or behind any prefix that ends with a colon, and
/// any engine with a name can be switched to unless the name holds a zero character.
pub proof fn law_handy_is_known_by_its_name(prefix: Seq<char>, name: Seq<char>)
    ensures
        names_handy("handy"@),
        names_handy(prefix + ":handy"@),
        names_handy(name) ==> name == "handy"@ || name == name.take(name.len() - 6) + ":handy"@,
        switchable(name) <==> name.len() > 0 && forall|i: int|
            0 <= i < name.len() ==> #[trigger] name[i] as int != 0,
{
    reveal_strlit(":handy");
    text::law_beginnings_and_endings(name, ":handy"@, prefix);
    if name.len() > 0 && name.contains('\0') {
        let i = choose|i: int| 0 <= i < name.len() && name[i] == '\0';
        assert(name[i] as int == 0);
    }
    if name.len() > 0 && !name.contains('\0') {
        assert forall|i: int| 0 <= i < name.len() implies #[trigger] name[i] as int != 0 by {
            assert(name.contains(name[i]));
        }
    }
}

} // verus!
