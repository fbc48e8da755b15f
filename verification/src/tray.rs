//! The tray menu: the downloaded models grouped by engine, the loaded one
//! checked, and what a click on a menu item asks for.
use vstd::prelude::*;
use crate::models::{entry_id, entry_kind, entry_name, joined, ModelEntry, ModelKind};
use crate::text::{has_prefix, starts_with, str_eq};

verus! {

broadcast use vstd::string::group_string_axioms;

/// Prefix of the menu item ids that activate a model.
pub const MODEL_ITEM_PREFIX: &'static str = "model:";

/// What a click on a tray menu item asks for.
#[derive(Debug)]
pub enum MenuAction {
    /// Load the model with this id.
    ActivateModel(String),
    /// Quit the application.
    Quit,
    /// Show the main window.
    Show,
    /// Nothing.
    Ignore,
}

/// A model's item of the tray menu.
#[derive(Debug)]
pub struct TrayItem {
    /// Menu item id: the model id behind the model prefix.
    pub id: String,
    pub name: String,
    /// Whether this is the loaded model.
    pub checked: bool,
}

/// The submenu of one engine's models.
#[derive(Debug)]
pub struct TrayGroup {
    pub kind: ModelKind,
    pub label: &'static str,
    pub items: Vec<TrayItem>,
}

/// `a` is what a click on the menu item `id` asks for.
pub open spec fn is_menu_action(a: MenuAction, id: Seq<char>) -> bool {
    if has_prefix(id, "model:"@) {
        a matches MenuAction::ActivateModel(m) && m@ == id.skip(6)
    } else if id == "quit"@ {
        a is Quit
    } else if id == "show"@ {
        a is Show
    } else {
        a is Ignore
    }
}

/// What a click on the tray menu item `id` asks for.
pub fn menu_action(id: &str) -> (r: MenuAction)
    ensures
        is_menu_action(r, id@),
{
    proof {
        reveal_strlit("model:");
    }
    if starts_with(id, MODEL_ITEM_PREFIX) {
        let n = id.unicode_len();
        MenuAction::ActivateModel(String::from_str(id.substring_char(6, n)))
    } else if str_eq(id, "quit") {
        MenuAction::Quit
    } else if str_eq(id, "show") {
        MenuAction::Show
    } else {
        MenuAction::Ignore
    }
}

/// Submenu title of an engine's models.
pub open spec fn kind_label_of(kind: ModelKind) -> Seq<char> {
    match kind {
        ModelKind::Ctc => "CTC"@,
        ModelKind::Transducer => "Transducer"@,
        ModelKind::Whisper => "Whisper (ONNX)"@,
        ModelKind::WhisperCpp => "Whisper (whisper.cpp)"@,
    }
}

/// Submenu title of an engine's models.
pub fn kind_label(kind: ModelKind) -> (r: &'static str)
    ensures
        r@ == kind_label_of(kind),
{
    match kind {
        ModelKind::Ctc => "CTC",
        ModelKind::Transducer => "Transducer",
        ModelKind::Whisper => "Whisper (ONNX)",
        ModelKind::WhisperCpp => "Whisper (whisper.cpp)",
    }
}

/// The entries of `es` of kind `k`, in order.
pub open spec fn of_kind(es: Seq<ModelEntry>, k: ModelKind) -> Seq<ModelEntry>
    decreases es.len(),
{
    if es.len() == 0 {
        seq![]
    } else {
        let rest = of_kind(es.drop_last(), k);
        if entry_kind(es.last()) == k {
            rest.push(es.last())
        } else {
            rest
        }
    }
}

/// `item` is the menu item of `e` when the loaded model's id is `loaded`.
pub open spec fn is_item_for(item: TrayItem, e: ModelEntry, loaded: Option<Seq<char>>) -> bool {
    &&& item.id@ == "model:"@ + entry_id(e)
    &&& item.name@ == entry_name(e)
    &&& item.checked == (loaded == Some(entry_id(e)))
}

/// `items` are the menu items of `es`, in order.
pub open spec fn items_for(items: Seq<TrayItem>, es: Seq<ModelEntry>, loaded: Option<Seq<char>>) -> bool {
    &&& items.len() == es.len()
    &&& forall|i: int| 0 <= i < items.len() ==> is_item_for(#[trigger] items[i], es[i], loaded)
}

/// The engines that have a submenu: those with a downloaded model, in the
/// order CTC, Transducer, Whisper (ONNX), whisper.cpp.
pub open spec fn menu_kinds(es: Seq<ModelEntry>) -> Seq<ModelKind> {
    (if of_kind(es, ModelKind::Ctc).len() > 0 {
        seq![ModelKind::Ctc]
    } else {
        seq![]
    }) + (if of_kind(es, ModelKind::Transducer).len() > 0 {
        seq![ModelKind::Transducer]
    } else {
        seq![]
    }) + (if of_kind(es, ModelKind::Whisper).len() > 0 {
        seq![ModelKind::Whisper]
    } else {
        seq![]
    }) + (if of_kind(es, ModelKind::WhisperCpp).len() > 0 {
        seq![ModelKind::WhisperCpp]
    } else {
        seq![]
    })
}

/// `g` is the submenu of the models of kind `k` among `es`.
pub open spec fn is_group_for(
    g: TrayGroup,
    k: ModelKind,
    es: Seq<ModelEntry>,
    loaded: Option<Seq<char>>,
) -> bool {
    &&& g.kind == k
    &&& g.label@ == kind_label_of(k)
    &&& items_for(g.items@, of_kind(es, k), loaded)
}

/// The characters of an optional string.
pub open spec fn opt_view(o: Option<&str>) -> Option<Seq<char>> {
    match o {
        Some(s) => Some(s@),
        None => None,
    }
}

/// The menu item of a model.
fn item_for(e: &ModelEntry, loaded_id: Option<&str>) -> (r: TrayItem)
    ensures
        is_item_for(r, *e, opt_view(loaded_id)),
{
    let checked = match loaded_id {
        Some(l) => str_eq(l, e.id()),
        None => false,
    };
    TrayItem { id: joined(MODEL_ITEM_PREFIX, e.id()), name: String::from_str(e.name()), checked }
}

/// The menu items of the entries of kind `kind`.
fn items_of_kind(entries: &Vec<ModelEntry>, kind: ModelKind, loaded_id: Option<&str>) -> (r: Vec<TrayItem>)
    ensures
        items_for(r@, of_kind(entries@, kind), opt_view(loaded_id)),
{
    let mut items: Vec<TrayItem> = Vec::new();
    let n = entries.len();
    for i in 0..n
        invariant
            n == entries@.len(),
            items_for(items@, of_kind(entries@.take(i as int), kind), opt_view(loaded_id)),
    {
        proof {
            assert(entries@.take(i + 1).drop_last() =~= entries@.take(i as int));
            assert(entries@.take(i + 1).last() == entries@[i as int]);
        }
        if entries[i].kind() == kind {
            let item = item_for(&entries[i], loaded_id);
            items.push(item);
        }
    }
    proof {
        assert(entries@.take(n as int) =~= entries@);
    }
    items
}

/// Appends the submenu of kind `kind` unless it would be empty.
fn push_group(groups: &mut Vec<TrayGroup>, entries: &Vec<ModelEntry>, kind: ModelKind, loaded_id: Option<&str>)
    ensures
        of_kind(entries@, kind).len() == 0 ==> final(groups)@ == old(groups)@,
        of_kind(entries@, kind).len() > 0 ==> {
            &&& final(groups)@.len() == old(groups)@.len() + 1
            &&& final(groups)@.take(old(groups)@.len() as int) == old(groups)@
            &&& is_group_for(final(groups)@.last(), kind, entries@, opt_view(loaded_id))
        },
{
    let items = items_of_kind(entries, kind, loaded_id);
    if items.len() > 0 {
        groups.push(TrayGroup { kind, label: kind_label(kind), items });
        assert(groups@.take(old(groups)@.len() as int) =~= old(groups)@);
    }
}

/// The model submenus of the tray: for each engine with a downloaded model,
/// in the order CTC, Transducer, Whisper (ONNX), whisper.cpp, one submenu
/// with that engine's models in catalog order, the loaded one checked.
/// `downloaded` are the downloaded entries of the catalog, `loaded_id` the
/// id of the loaded model.
pub fn tray_groups(downloaded: &Vec<ModelEntry>, loaded_id: Option<&str>) -> (r: Vec<TrayGroup>)
    ensures
        r@.len() == menu_kinds(downloaded@).len(),
        forall|i: int| 0 <= i < r@.len() ==> is_group_for(#[trigger] r@[i], menu_kinds(downloaded@)[i], downloaded@, opt_view(loaded_id)),
{
    let mut groups: Vec<TrayGroup> = Vec::new();
    let ghost es = downloaded@;
    let ghost l = opt_view(loaded_id);
    push_group(&mut groups, downloaded, ModelKind::Ctc, loaded_id);
    let ghost g1 = groups@;
    push_group(&mut groups, downloaded, ModelKind::Transducer, loaded_id);
    let ghost g2 = groups@;
    push_group(&mut groups, downloaded, ModelKind::Whisper, loaded_id);
    let ghost g3 = groups@;
    push_group(&mut groups, downloaded, ModelKind::WhisperCpp, loaded_id);
    proof {
        let ks = menu_kinds(es);
        let k1 = if of_kind(es, ModelKind::Ctc).len() > 0 { seq![ModelKind::Ctc] } else { seq![] };
        let k2 = if of_kind(es, ModelKind::Transducer).len() > 0 { seq![ModelKind::Transducer] } else { seq![] };
        let k3 = if of_kind(es, ModelKind::Whisper).len() > 0 { seq![ModelKind::Whisper] } else { seq![] };
        let k4 = if of_kind(es, ModelKind::WhisperCpp).len() > 0 { seq![ModelKind::WhisperCpp] } else { seq![] };
        assert(ks == k1 + k2 + k3 + k4);
        assert(g1.len() == k1.len());
        assert(forall|i: int| 0 <= i < g1.len() ==> is_group_for(#[trigger] g1[i], (k1)[i], es, l));
        assert(g2.len() == (k1 + k2).len());
        assert forall|i: int| 0 <= i < g2.len() implies is_group_for(#[trigger] g2[i], (k1 + k2)[i], es, l) by {
            if i < g1.len() {
                assert(g2[i] == g2.take(g1.len() as int)[i]);
            }
        }
        assert(g3.len() == (k1 + k2 + k3).len());
        assert forall|i: int| 0 <= i < g3.len() implies is_group_for(#[trigger] g3[i], (k1 + k2 + k3)[i], es, l) by {
            if i < g2.len() {
                assert(g3[i] == g3.take(g2.len() as int)[i]);
            }
        }
        assert(groups@.len() == (k1 + k2 + k3 + k4).len());
        assert forall|i: int| 0 <= i < groups@.len() implies is_group_for(#[trigger] groups@[i], (k1 + k2 + k3 + k4)[i], es, l) by {
            if i < g3.len() {
                assert(groups@[i] == groups@.take(g3.len() as int)[i]);
            }
        }
    }
    groups
}

/// Clicking a model's tray item asks to activate exactly that model.
pub proof fn lemma_item_click_activates(item: TrayItem, e: ModelEntry, loaded: Option<Seq<char>>, a: MenuAction)
    requires
        is_item_for(item, e, loaded),
        is_menu_action(a, item.id@),
    ensures
        a matches MenuAction::ActivateModel(m) && m@ == entry_id(e),
{
    reveal_strlit("model:");
    let id = item.id@;
    assert(id.take(6) =~= "model:"@);
    assert(id.skip(6) =~= entry_id(e));
}

/// Each downloaded model appears in the submenu of its engine.
pub proof fn lemma_every_model_listed(es: Seq<ModelEntry>, i: int)
    requires
        0 <= i < es.len(),
    ensures
        menu_kinds(es).contains(entry_kind(es[i])),
        of_kind(es, entry_kind(es[i])).contains(es[i]),
    decreases es.len(),
{
    let k = entry_kind(es[i]);
    if i < es.len() - 1 {
        lemma_every_model_listed(es.drop_last(), i);
        assert(es.drop_last()[i] == es[i]);
        let rest = of_kind(es.drop_last(), k);
        let j = choose|j: int| 0 <= j < rest.len() && rest[j] == es[i];
        if entry_kind(es.last()) == k {
            assert(of_kind(es, k)[j] == es[i]);
        } else {
            assert(of_kind(es, k)[j] == es[i]);
        }
    } else {
        assert(of_kind(es, k).last() == es[i]);
    }
    let o = of_kind(es, k);
    assert(o.len() > 0);
    let ks = menu_kinds(es);
    let k1: Seq<ModelKind> = if of_kind(es, ModelKind::Ctc).len() > 0 { seq![ModelKind::Ctc] } else { seq![] };
    let k2: Seq<ModelKind> = if of_kind(es, ModelKind::Transducer).len() > 0 { seq![ModelKind::Transducer] } else { seq![] };
    let k3: Seq<ModelKind> = if of_kind(es, ModelKind::Whisper).len() > 0 { seq![ModelKind::Whisper] } else { seq![] };
    let k4: Seq<ModelKind> = if of_kind(es, ModelKind::WhisperCpp).len() > 0 { seq![ModelKind::WhisperCpp] } else { seq![] };
    assert(ks == k1 + k2 + k3 + k4);
    match k {
        ModelKind::Ctc => assert(ks[0] == k),
        ModelKind::Transducer => assert(ks[k1.len() as int] == k),
        ModelKind::Whisper => assert(ks[(k1.len() + k2.len()) as int] == k),
        ModelKind::WhisperCpp => assert(ks[(k1.len() + k2.len() + k3.len()) as int] == k),
    }
}

} // verus!
