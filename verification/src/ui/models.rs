//! The models page: in which order the models stand, and what can be done with each.

use crate::managers::catalog;
use crate::managers::catalog::{ModelInfo, ModelView};
use crate::managers::model::{ModelState, StateView};
use crate::text::chars_of;
use vstd::prelude::*;
use vstd::string::*;

verus! {

/// A text stands before another one in the order of their characters.
pub open spec fn text_before(a: Seq<char>, b: Seq<char>) -> bool
    decreases a.len(),
{
    if b.len() == 0 {
        false
    } else if a.len() == 0 {
        true
    } else if a[0] != b[0] {
        (a[0] as int) < (b[0] as int)
    } else {
        text_before(a.skip(1), b.skip(1))
    }
}

fn char_before(a: char, b: char) -> (r: bool)
    ensures
        r == ((a as int) < (b as int)),
{
    (a as u32) < (b as u32)
}

/// Whether a text stands before another one.
pub fn is_before(a: &str, b: &str) -> (r: bool)
    ensures
        r == text_before(a@, b@),
{
    let x = chars_of(a);
    let y = chars_of(b);
    let mut i: usize = 0;
    assert(x@.skip(0) =~= x@);
    assert(y@.skip(0) =~= y@);
    while i < x.len() && i < y.len()
        invariant
            x@ == a@,
            y@ == b@,
            i <= x@.len(),
            i <= y@.len(),
            text_before(a@, b@) == text_before(x@.skip(i as int), y@.skip(i as int)),
        decreases x@.len() - i,
    {
        let ghost p = x@.skip(i as int);
        let ghost q = y@.skip(i as int);
        assert(p[0] == x@[i as int] && q[0] == y@[i as int]);
        if x[i] != y[i] {
            return char_before(x[i], y[i]);
        }
        assert(p.skip(1) =~= x@.skip(i + 1));
        assert(q.skip(1) =~= y@.skip(i + 1));
        i += 1;
    }
    i < y.len()
}

/// A model stands before another one: a recommended one first, then a downloaded one, then by
/// name.
pub open spec fn goes_before(a: ModelView, b: ModelView) -> bool {
    if a.is_recommended != b.is_recommended {
        a.is_recommended
    } else if a.is_downloaded != b.is_downloaded {
        a.is_downloaded
    } else {
        text_before(a.name, b.name)
    }
}

/// Whether a model stands before another one.
pub fn model_before(a: &ModelInfo, b: &ModelInfo) -> (r: bool)
    ensures
        r == goes_before(a@, b@),
{
    if a.is_recommended != b.is_recommended {
        a.is_recommended
    } else if a.is_downloaded != b.is_downloaded {
        a.is_downloaded
    } else {
        is_before(a.name.as_str(), b.name.as_str())
    }
}

proof fn lemma_text_order(a: Seq<char>, b: Seq<char>, c: Seq<char>)
    ensures
        text_before(a, b) ==> !text_before(b, a),
        !text_before(a, a),
        text_before(a, b) && text_before(b, c) ==> text_before(a, c),
        text_before(a, b) && !text_before(c, b) ==> text_before(a, c),
        !text_before(b, a) && text_before(b, c) ==> text_before(a, c),
        !text_before(b, a) && !text_before(c, b) ==> !text_before(c, a),
    decreases a.len(),
{
    if a.len() > 0 && b.len() > 0 && c.len() > 0 {
        lemma_text_order(a.skip(1), b.skip(1), c.skip(1));
    } else if a.len() > 0 && b.len() > 0 {
        lemma_text_order(a.skip(1), b.skip(1), Seq::empty());
    } else if a.len() > 0 {
        lemma_text_order(a.skip(1), Seq::empty(), Seq::empty());
    }
}

/// The order in which models stand, as far as it goes: the places of models, each once, no model
/// before one that goes before it, and models that go together as they came.
pub open spec fn ordered(models: Seq<ModelView>, order: Seq<int>) -> bool {
    forall|a: int, b: int|
        0 <= a < b < order.len() ==> in_place(models, #[trigger] order[a], #[trigger] order[b])
}

/// The model at `i` may stand before the one at `j`.
pub open spec fn in_place(models: Seq<ModelView>, i: int, j: int) -> bool {
    ||| goes_before(models[i], models[j])
    ||| !goes_before(models[j], models[i]) && i < j
}

/// The order lists the places below `n`, each once.
pub open spec fn lists_all(order: Seq<int>, n: nat) -> bool {
    &&& order.len() == n
    &&& forall|a: int| 0 <= a < n ==> 0 <= #[trigger] order[a] < n
    &&& order.no_duplicates()
}

/// The order in which models stand.
pub open spec fn is_order(models: Seq<ModelView>, order: Seq<int>) -> bool {
    lists_all(order, models.len()) && ordered(models, order)
}

/// The places as numbers.
pub open spec fn places(v: Seq<usize>) -> Seq<int> {
    Seq::new(v.len(), |i: int| v[i] as int)
}

proof fn lemma_in_place_total(models: Seq<ModelView>, i: int, j: int)
    requires
        i != j,
    ensures
        in_place(models, i, j) != in_place(models, j, i),
{
    lemma_text_order(models[i].name, models[j].name, models[i].name);
    lemma_text_order(models[j].name, models[i].name, models[j].name);
}

proof fn lemma_in_place_chain(models: Seq<ModelView>, i: int, j: int, k: int)
    requires
        in_place(models, i, j),
        in_place(models, j, k),
    ensures
        in_place(models, i, k),
{
    lemma_text_order(models[i].name, models[j].name, models[k].name);
    lemma_text_order(models[k].name, models[j].name, models[i].name);
    lemma_text_order(models[k].name, models[i].name, models[k].name);
    lemma_text_order(models[i].name, models[k].name, models[i].name);
    lemma_text_order(models[j].name, models[i].name, models[j].name);
    lemma_text_order(models[k].name, models[j].name, models[k].name);
}

/// The order in which models stand on the page.
pub fn model_order(models: &Vec<ModelInfo>) -> (r: Vec<usize>)
    ensures
        is_order(catalog::model_views(models@), places(r@)),
{
    let ghost all = catalog::model_views(models@);
    let mut r: Vec<usize> = Vec::new();
    let mut n: usize = 0;
    while n < models.len()
        invariant
            n <= models@.len(),
            all == catalog::model_views(models@),
            lists_all(places(r@), n as nat),
            ordered(all, places(r@)),
        decreases models@.len() - n,
    {
        let ghost before = places(r@);
        let mut at: usize = r.len();
        assert(at == before.len());
        assert(at > 0 ==> before[at - 1] == r@[at - 1]);
        while at > 0 && model_before(&models[n], &models[r[at - 1]])
            invariant
                at > 0 ==> r@[at - 1] < n,
                n < models@.len(),
                all == catalog::model_views(models@),
                before == places(r@),
                lists_all(before, n as nat),
                ordered(all, before),
                at <= r@.len(),
                forall|a: int| at <= a < before.len() ==> in_place(all, n as int, #[trigger] before[a]),
            decreases at,
        {
            assert(before[at - 1] == r@[at - 1]);
            at -= 1;
            assert(at > 0 ==> before[at - 1] == r@[at - 1]);
        }
        proof {
            assert forall|a: int| 0 <= a < at implies in_place(all, #[trigger] before[a], n as int) by {
                let last = before[at - 1];
                assert(last == r@[at - 1]);
                assert(in_place(all, last, n as int));
                if a < at - 1 {
                    assert(in_place(all, before[a], last));
                    lemma_in_place_chain(all, before[a], last, n as int);
                }
            }
        }
        r.insert(at, n);
        proof {
            let after = places(r@);
            assert(after =~= before.insert(at as int, n as int));
            assert forall|a: int, b: int| 0 <= a < b < after.len() implies in_place(
                all,
                #[trigger] after[a],
                #[trigger] after[b],
            ) by {
                let x = if a < at { a } else { a - 1 };
                let y = if b < at { b } else { b - 1 };
                if a == at {
                    assert(after[b] == before[b - 1]);
                } else if b == at {
                    assert(after[a] == before[a]);
                } else {
                    assert(after[a] == before[x] && after[b] == before[y]);
                }
            }
            assert(after.no_duplicates()) by {
                assert forall|a: int, b: int| 0 <= a < b < after.len() implies after[a] != after[b] by {
                    let x = if a < at { a } else { a - 1 };
                    let y = if b < at { b } else { b - 1 };
                    if a == at {
                        assert(after[b] == before[b - 1]);
                        assert(before[b - 1] < n);
                    } else if b == at {
                        assert(after[a] == before[a]);
                        assert(before[a] < n);
                    } else {
                        assert(after[a] == before[x] && after[b] == before[y]);
                    }
                }
            }
            assert forall|a: int| 0 <= a < n + 1 implies 0 <= #[trigger] after[a] < n + 1 by {
                if a < at {
                    assert(after[a] == before[a]);
                } else if a > at {
                    assert(after[a] == before[a - 1]);
                }
            }
        }
        n += 1;
    }
    r
}

/// The models in the order of the places.
pub open spec fn arranged(models: Seq<ModelView>, order: Seq<int>) -> Seq<ModelView> {
    Seq::new(order.len(), |i: int| models[order[i]])
}

/// The models in the order in which they stand on the page.
pub fn sorted_models(models: &Vec<ModelInfo>) -> (r: Vec<ModelInfo>)
    ensures
        exists|order: Seq<int>|
            #![trigger is_order(catalog::model_views(models@), order)]
            is_order(catalog::model_views(models@), order) && catalog::model_views(r@) == arranged(
                catalog::model_views(models@),
                order,
            ),
{
    let order = model_order(models);
    let ghost all = catalog::model_views(models@);
    let ghost full = arranged(all, places(order@));
    let mut r: Vec<ModelInfo> = Vec::new();
    let mut i: usize = 0;
    assert(catalog::model_views(r@) =~= full.take(0));
    while i < order.len()
        invariant
            i <= order@.len(),
            all == catalog::model_views(models@),
            full == arranged(all, places(order@)),
            is_order(all, places(order@)),
            catalog::model_views(r@) == full.take(i as int),
        decreases order@.len() - i,
    {
        assert(places(order@)[i as int] == order@[i as int]);
        let ghost before = r@;
        r.push(models[order[i]].copy());
        assert(catalog::model_views(r@) =~= catalog::model_views(before).push(full[i as int]));
        assert(full.take(i + 1) =~= full.take(i as int).push(full[i as int]));
        i += 1;
    }
    assert(full.take(i as int) =~= full);
    r
}

proof fn lemma_same_head(models: Seq<ModelView>, a: Seq<int>, b: Seq<int>, k: int)
    requires
        is_order(models, a),
        is_order(models, b),
        0 <= k < models.len(),
        forall|i: int| 0 <= i < k ==> a[i] == b[i],
    ensures
        a[k] == b[k],
{
    if a[k] != b[k] {
        let pa = a[k];
        let pb = b[k];
        lemma_covers(a, models.len(), pb);
        lemma_covers(b, models.len(), pa);
        let i = choose|i: int| 0 <= i < a.len() && a[i] == pb;
        let j = choose|j: int| 0 <= j < b.len() && b[j] == pa;
        if i < k {
            assert(b[i] == pb);
            assert(false);
        }
        if j < k {
            assert(a[j] == pa);
            assert(false);
        }
        assert(in_place(models, a[k], a[i]));
        assert(in_place(models, b[k], b[j]));
        lemma_in_place_total(models, pa, pb);
    }
}

proof fn lemma_covers(order: Seq<int>, n: nat, p: int)
    requires
        lists_all(order, n),
        0 <= p < n,
    ensures
        exists|i: int| 0 <= i < order.len() && order[i] == p,
{
    let range = vstd::set_lib::set_int_range(0, n as int);
    vstd::set_lib::lemma_int_range(0, n as int);
    order.unique_seq_to_set();
    assert(order.to_set().subset_of(range)) by {
        assert forall|x: int| order.to_set().contains(x) implies range.contains(x) by {
            let i = order.index_of(x);
            assert(order[i] == x);
        }
    }
    vstd::set_lib::lemma_subset_equality(order.to_set(), range);
    assert(range.contains(p));
    assert(order.contains(p));
}

/// Models have only one order, so the page looks the same however often it is drawn.
pub proof fn law_order_is_unique(models: Seq<ModelView>, a: Seq<int>, b: Seq<int>)
    requires
        is_order(models, a),
        is_order(models, b),
    ensures
        a == b,
{
    assert forall|k: int| 0 <= k < a.len() implies a[k] == b[k] by {
        lemma_agree(models, a, b, k);
    }
    assert(a =~= b);
}

proof fn lemma_agree(models: Seq<ModelView>, a: Seq<int>, b: Seq<int>, k: int)
    requires
        is_order(models, a),
        is_order(models, b),
        0 <= k < models.len(),
    ensures
        forall|i: int| 0 <= i <= k ==> a[i] == b[i],
    decreases k,
{
    if k > 0 {
        lemma_agree(models, a, b, k - 1);
    }
    lemma_same_head(models, a, b, k);
}

/// What can be done with a model on the page.
#[derive(Clone, Copy, Debug, PartialEq, Eq, Structural)]
pub enum RowControls {
    /// Nothing.
    Plain,
    /// It can be downloaded.
    Download,
    /// It is being downloaded, which can be cancelled.
    Progress { bytes_downloaded: u64, bytes_total: u64 },
    /// It is being unpacked.
    Extracting,
    /// It is used; it can be deleted unless it is the user's own.
    Active { can_delete: bool },
    /// It can be used; it can be deleted unless it is the user's own.
    Select { can_delete: bool },
    /// Something went wrong; it may be tried again.
    Failed { can_retry: bool },
}

/// What can be done with a model. The model is missing where it is not known any more.
pub open spec fn controls_for(
    state: Option<StateView>,
    model: Option<ModelView>,
    is_active: bool,
) -> RowControls {
    let can_delete = model matches Some(m) && !m.is_custom;
    match state {
        Some(StateView::Downloading { bytes_downloaded, bytes_total, .. }) => {
            RowControls::Progress { bytes_downloaded, bytes_total }
        },
        Some(StateView::Extracting { .. }) => RowControls::Extracting,
        Some(StateView::Ready) => if is_active {
            RowControls::Active { can_delete }
        } else {
            RowControls::Select { can_delete }
        },
        Some(StateView::Error { retryable, .. }) => RowControls::Failed { can_retry: retryable },
        _ => if model matches Some(m) && m.url is Some {
            RowControls::Download
        } else {
            RowControls::Plain
        },
    }
}

/// What an optional state holds.
pub open spec fn state_view(s: Option<ModelState>) -> Option<StateView> {
    match s {
        Some(s) => Some(s@),
        None => None,
    }
}

/// What an optional model holds.
pub open spec fn model_view(m: Option<ModelInfo>) -> Option<ModelView> {
    match m {
        Some(m) => Some(m@),
        None => None,
    }
}

/// What can be done with a model.
pub fn row_controls(state: &Option<ModelState>, model: &Option<ModelInfo>, is_active: bool) -> (r:
    RowControls)
    ensures
        r == controls_for(state_view(*state), model_view(*model), is_active),
{
    let (can_delete, can_download) = match model {
        Some(m) => (!m.is_custom, m.url.is_some()),
        None => (false, false),
    };
    match state {
        Some(ModelState::Downloading { bytes_downloaded, bytes_total, cancel_flag: _ }) => {
            RowControls::Progress { bytes_downloaded: *bytes_downloaded, bytes_total: *bytes_total }
        },
        Some(ModelState::Extracting { progress_message: _ }) => RowControls::Extracting,
        Some(ModelState::Ready) => if is_active {
            RowControls::Active { can_delete }
        } else {
            RowControls::Select { can_delete }
        },
        Some(ModelState::Error { message: _, retryable }) => RowControls::Failed {
            can_retry: *retryable,
        },
        _ => if can_download {
            RowControls::Download
        } else {
            RowControls::Plain
        },
    }
}

/// A model of the user's own is never deleted from the page, and only a model that is ready is
/// selected there.
pub proof fn law_own_models_are_not_deleted(
    state: Option<StateView>,
    model: ModelView,
    is_active: bool,
)
    ensures
        model.is_custom ==> controls_for(state, Some(model), is_active) != (RowControls::Active {
            can_delete: true,
        }) && controls_for(state, Some(model), is_active) != (RowControls::Select {
            can_delete: true,
        }),
        controls_for(state, Some(model), is_active) is Select ==> state == Some(StateView::Ready),
{
}

/// Texts are ordered as in a dictionary: by the first character in which they differ, and a text
/// comes before any that goes on from it.
pub proof fn law_texts_are_ordered_by_their_first_difference(
    same: Seq<char>,
    a: char,
    b: char,
    x: Seq<char>,
    y: Seq<char>,
)
    requires
        a as int != b as int,
    ensures
        text_before(same + seq![a] + x, same + seq![b] + y) <==> (a as int) < (b as int),
        text_before(same, same + seq![a] + x),
        !text_before(same + seq![a] + x, same),
    decreases same.len(),
{
    let s = same + seq![a] + x;
    let t = same + seq![b] + y;
    if same.len() > 0 {
        law_texts_are_ordered_by_their_first_difference(same.skip(1), a, b, x, y);
        assert(s.skip(1) =~= same.skip(1) + seq![a] + x);
        assert(t.skip(1) =~= same.skip(1) + seq![b] + y);
        assert(s[0] == same[0] && t[0] == same[0]);
    }
}

/// A recommended model stands before any that is not, and among the others one that is downloaded
/// before any that is not; where both are alike in this, the names decide.
pub proof fn law_recommended_and_downloaded_come_first(a: ModelView, b: ModelView)
    ensures
        a.is_recommended && !b.is_recommended ==> goes_before(a, b) && !goes_before(b, a),
        a.is_recommended == b.is_recommended && a.is_downloaded && !b.is_downloaded ==> goes_before(
            a,
            b,
        ) && !goes_before(b, a),
        a.is_recommended == b.is_recommended && a.is_downloaded == b.is_downloaded ==> (goes_before(
            a,
            b,
        ) <==> text_before(a.name, b.name)),
{
}

/// What a row offers is what can be done with its model: a model that can be used can be chosen, or
/// is shown as the one that is, and deleted unless it is the user's own; one that is downloaded from
/// somewhere can be downloaded while it is not there; and what happens to it is shown.
pub proof fn law_rows_offer_what_can_be_done(model: ModelView, done: u64, total: u64, cancel: bool)
    ensures
        controls_for(Some(StateView::Ready), Some(model), true) == (RowControls::Active {
            can_delete: !model.is_custom,
        }),
        controls_for(Some(StateView::Ready), Some(model), false) == (RowControls::Select {
            can_delete: !model.is_custom,
        }),
        controls_for(Some(StateView::Available), Some(model), false) == (if model.url is Some {
            RowControls::Download
        } else {
            RowControls::Plain
        }),
        controls_for(
            Some(
                StateView::Downloading {
                    bytes_downloaded: done,
                    bytes_total: total,
                    cancel_flag: cancel,
                },
            ),
            Some(model),
            false,
        ) == (RowControls::Progress { bytes_downloaded: done, bytes_total: total }),
        controls_for(
            Some(StateView::Error { message: model.name, retryable: cancel }),
            Some(model),
            false,
        ) == (RowControls::Failed { can_retry: cancel }),
        controls_for(None, None, cancel) == RowControls::Plain,
{
}

} // verus!
