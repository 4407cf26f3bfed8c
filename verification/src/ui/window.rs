//! The window's pages and their names.

use crate::text;
use crate::text::{chars_of, find_from, same_text, slice_text};
use vstd::prelude::*;
use vstd::string::*;

verus! {

/// The subtitle for a page; the general page's where none is shown.
pub open spec fn subtitle_for(page: Option<Seq<char>>) -> Seq<char> {
    match page {
        Some(name) => if name == "models"@ {
            "Models"@
        } else if name == "advanced"@ {
            "Advanced"@
        } else if name == "debug"@ {
            "Debug"@
        } else if name == "about"@ {
            "About"@
        } else {
            "General"@
        },
        None => "General"@,
    }
}

/// The subtitle for a page.
pub fn page_subtitle(page_name: Option<&str>) -> (r: &'static str)
    ensures
        r@ == subtitle_for(
            match page_name {
                Some(name) => Some(name@),
                None => None,
            },
        ),
{
    match page_name {
        Some(name) => if same_text(name, "models") {
            "Models"
        } else if same_text(name, "advanced") {
            "Advanced"
        } else if same_text(name, "debug") {
            "Debug"
        } else if same_text(name, "about") {
            "About"
        } else {
            "General"
        },
        None => "General",
    }
}

/// The part of a text behind the last `::`, where they are taken from the left; all of the text
/// from the position on where there is none.
pub open spec fn last_part(s: Seq<char>, from: int) -> Seq<char>
    decreases s.len() - from,
{
    match text::first_from(s, "::"@, from) {
        Some(i) => if 0 <= from <= i && i + 2 <= s.len() {
            last_part(s, i + 2)
        } else {
            s.skip(from)
        },
        None => s.skip(from),
    }
}

/// The page that a row of the sidebar leads to, by the row's name.
pub fn page_of_row(row_name: &str) -> (r: String)
    ensures
        r@ == last_part(row_name@, 0),
{
    let s = chars_of(row_name);
    let sep = chars_of("::");
    proof {
        reveal_strlit("::");
    }
    let mut from: usize = 0;
    loop
        invariant
            s@ == row_name@,
            sep@ == "::"@,
            sep@.len() == 2,
            from <= s@.len(),
            last_part(s@, 0) == last_part(s@, from as int),
        decreases s@.len() - from,
    {
        match find_from(&s, &sep, from) {
            Some(i) => {
                from = i + 2;
            },
            None => {
                assert(s@.skip(from as int) =~= s@.subrange(from as int, s@.len() as int));
                return slice_text(&s, from, s.len());
            },
        }
    }
}

proof fn lemma_first_part(s: Seq<char>, p: Seq<char>, from: int)
    requires
        0 <= from,
    ensures
        match text::first_from(s, p, from) {
            Some(i) => from <= i <= s.len() && text::occurs_at(s, p, i),
            None => forall|k: int| from <= k <= s.len() ==> !text::occurs_at(s, p, k),
        },
    decreases s.len() + 1 - from,
{
    if from <= s.len() && !text::occurs_at(s, p, from) {
        lemma_first_part(s, p, from + 1);
    }
}

/// A row's page is the end of its name: the whole name, or what stands directly behind a double
/// colon. No double colon is left in it.
pub proof fn law_page_is_the_last_part(s: Seq<char>, from: int)
    requires
        0 <= from <= s.len(),
    ensures
        ({
            let r = last_part(s, from);
            let start = s.len() - r.len();
            &&& from <= start && s.skip(start) == r
            &&& start == from || (start >= from + 2 && s.subrange(start - 2, start) == "::"@)
            &&& !text::occurs_in(r, "::"@)
        }),
    decreases s.len() - from,
{
    reveal_strlit("::");
    lemma_first_part(s, "::"@, from);
    match text::first_from(s, "::"@, from) {
        Some(i) => {
            law_page_is_the_last_part(s, i + 2);
            assert(s.subrange(i, i + 2) =~= "::"@);
        },
        None => {
            let r = s.skip(from);
            assert(s.skip(s.len() - r.len()) =~= r);
            assert forall|k: int| 0 <= k implies !text::occurs_at(r, "::"@, k) by {
                if text::occurs_at(r, "::"@, k) {
                    assert(s.subrange(from + k, from + k + 2) =~= r.subrange(k, k + 2));
                    assert(text::occurs_at(s, "::"@, from + k));
                }
            }
        },
    }
}

/// Every page has its own title; whatever is no page, and no page at all, is shown as the first.
pub proof fn law_pages_have_titles(name: Seq<char>)
    ensures
        subtitle_for(Some("models"@)) == "Models"@,
        subtitle_for(Some("advanced"@)) == "Advanced"@,
        subtitle_for(Some("debug"@)) == "Debug"@,
        subtitle_for(Some("about"@)) == "About"@,
        name != "models"@ && name != "advanced"@ && name != "debug"@ && name != "about"@
            ==> subtitle_for(Some(name)) == subtitle_for(None),
        subtitle_for(None) == "General"@,
{
    reveal_strlit("models");
    reveal_strlit("advanced");
    reveal_strlit("debug");
    reveal_strlit("about");
    assert("models"@.len() == 6 && "advanced"@.len() == 8 && "debug"@[0] == 'd' && "about"@[0]
        == 'a' && "debug"@.len() == 5 && "about"@.len() == 5);
}

} // verus!
