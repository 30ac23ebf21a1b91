//! Core options: what a libretro core declares it can be configured with, which value the
//! user picked for each, and which picks the core has not read back yet.
use vstd::prelude::*;
use crate::option_file::{
    OptionEntry, entry_view, parse_entries, serialize_entries, serialize_option_file,
    law_option_file_round_trip, storable_key, storable_value,
};
use crate::paths::{join_path, joined_path};
use crate::text::push_all;

verus! {

/// The modulus of the counter of pending updates, which wraps like the 16-bit atomic it
/// stands for.
pub open spec fn count_modulus() -> int {
    0x10000
}

/// One value that an option accepts, with the label shown to the user.
pub struct CoreValue {
    pub value: String,
    pub label: String,
}

/// One option declared by the core.
pub struct CoreOpt {
    pub key: String,
    pub visibility: bool,
    pub need_update: bool,
    pub selected: String,
    pub desc: String,
    pub desc_categorized: String,
    pub info: String,
    pub info_categorized: String,
    pub category_key: String,
    pub values: Vec<CoreValue>,
    pub default_value: String,
}

/// A category under which the core groups options.
pub struct Categories {
    pub key: String,
    pub info: String,
    pub desc: String,
}

/// The abstract state of one option: every field by its view, the accepted values as
/// (value, label) pairs.
pub struct OptView {
    pub key: Seq<char>,
    pub visible: bool,
    pub pending: bool,
    pub selected: Seq<char>,
    pub desc: Seq<char>,
    pub desc_categorized: Seq<char>,
    pub info: Seq<char>,
    pub info_categorized: Seq<char>,
    pub category_key: Seq<char>,
    pub values: Seq<(Seq<char>, Seq<char>)>,
    pub default_value: Seq<char>,
}

pub open spec fn value_view(v: CoreValue) -> (Seq<char>, Seq<char>) {
    (v.value@, v.label@)
}

impl View for CoreOpt {
    type V = OptView;

    open spec fn view(&self) -> OptView {
        OptView {
            key: self.key@,
            visible: self.visibility,
            pending: self.need_update,
            selected: self.selected@,
            desc: self.desc@,
            desc_categorized: self.desc_categorized@,
            info: self.info@,
            info_categorized: self.info_categorized@,
            category_key: self.category_key@,
            values: self.values@.map_values(|v: CoreValue| value_view(v)),
            default_value: self.default_value@,
        }
    }
}

/// An optional string by its view.
pub open spec fn option_string_view(o: Option<String>) -> Option<Seq<char>> {
    match o {
        Some(s) => Some(s@),
        None => None,
    }
}

/// The abstract state of a category.
pub struct CategoryView {
    pub key: Seq<char>,
    pub info: Seq<char>,
    pub desc: Seq<char>,
}

impl View for Categories {
    type V = CategoryView;

    open spec fn view(&self) -> CategoryView {
        CategoryView { key: self.key@, info: self.info@, desc: self.desc@ }
    }
}

/// The number of options whose selected value the core has not read yet.
pub open spec fn pending_count(opts: Seq<OptView>) -> nat
    decreases opts.len(),
{
    if opts.len() == 0 {
        0
    } else {
        pending_count(opts.drop_last()) + if opts.last().pending {
            1nat
        } else {
            0nat
        }
    }
}

/// Whether `value` is among the values that option `o` accepts.
pub open spec fn accepts(o: OptView, value: Seq<char>) -> bool {
    exists|j: int| 0 <= j < o.values.len() && (#[trigger] o.values[j]).0 == value
}

/// The first option, at `i` or after, whose key is `key`.
pub open spec fn find_key_from(opts: Seq<OptView>, key: Seq<char>, i: int) -> Option<int>
    decreases opts.len() - i,
{
    if i < 0 || i >= opts.len() {
        None
    } else if opts[i].key == key {
        Some(i)
    } else {
        find_key_from(opts, key, i + 1)
    }
}

/// The first option, at `i` or after, whose key is `key` and that accepts `value`.
pub open spec fn find_selectable_from(
    opts: Seq<OptView>,
    key: Seq<char>,
    value: Seq<char>,
    i: int,
) -> Option<int>
    decreases opts.len() - i,
{
    if i < 0 || i >= opts.len() {
        None
    } else if opts[i].key == key && accepts(opts[i], value) {
        Some(i)
    } else {
        find_selectable_from(opts, key, value, i + 1)
    }
}

/// Selecting `value` for `key`: the first option with that key that accepts the value takes
/// it and becomes pending, unless it is pending already; otherwise nothing changes.
pub open spec fn select_spec(opts: Seq<OptView>, key: Seq<char>, value: Seq<char>) -> Seq<OptView> {
    match find_selectable_from(opts, key, value, 0) {
        None => opts,
        Some(i) => if opts[i].pending {
            opts
        } else {
            opts.update(i, OptView { selected: value, pending: true, ..opts[i] })
        },
    }
}

/// Reading the value of `key`: only the first option with that key is looked at; if it is
/// pending its selected value is handed out and it stops being pending.
pub open spec fn take_spec(opts: Seq<OptView>, key: Seq<char>) -> (Option<Seq<char>>, Seq<OptView>) {
    match find_key_from(opts, key, 0) {
        None => (None, opts),
        Some(i) => if opts[i].pending {
            (Some(opts[i].selected), opts.update(i, OptView { pending: false, ..opts[i] }))
        } else {
            (None, opts)
        },
    }
}

/// The effect of a visibility change on one option.
pub open spec fn visibility_one(o: OptView, key: Seq<char>, visible: bool) -> OptView {
    if o.key == key {
        OptView { visible: visible, pending: if visible { o.pending } else { false }, ..o }
    } else {
        o
    }
}

/// Changing the visibility of `key`: every option with that key takes it, and hiding an
/// option drops its pending update.
pub open spec fn visibility_spec(opts: Seq<OptView>, key: Seq<char>, visible: bool) -> Seq<OptView> {
    Seq::new(opts.len(), |i: int| visibility_one(opts[i], key, visible))
}

pub proof fn lemma_pending_count_bound(opts: Seq<OptView>)
    ensures
        pending_count(opts) <= opts.len(),
    decreases opts.len(),
{
    if opts.len() > 0 {
        lemma_pending_count_bound(opts.drop_last());
    }
}

/// Replacing one option changes the number of pending options by the change of that
/// option's flag alone.
pub proof fn lemma_pending_count_update(opts: Seq<OptView>, i: int, o: OptView)
    requires
        0 <= i < opts.len(),
    ensures
        pending_count(opts.update(i, o)) + (if opts[i].pending { 1int } else { 0int }) == pending_count(
            opts,
        ) + (if o.pending { 1int } else { 0int }),
    decreases opts.len(),
{
    let u = opts.update(i, o);
    if i == opts.len() - 1 {
        assert(u.drop_last() =~= opts.drop_last());
    } else {
        lemma_pending_count_update(opts.drop_last(), i, o);
        assert(u.drop_last() =~= opts.drop_last().update(i, o));
    }
}

/// Appending options that are not pending leaves the number of pending options as it was.
pub proof fn lemma_pending_count_push(opts: Seq<OptView>, o: OptView)
    requires
        !o.pending,
    ensures
        pending_count(opts.push(o)) == pending_count(opts),
{
    assert(opts.push(o).drop_last() =~= opts);
}

pub proof fn lemma_find_key_some(opts: Seq<OptView>, key: Seq<char>, from: int, i: int)
    requires
        0 <= from,
        find_key_from(opts, key, from) == Some(i),
    ensures
        from <= i < opts.len(),
        opts[i].key == key,
        forall|j: int| from <= j < i ==> opts[j].key != key,
    decreases opts.len() - from,
{
    if opts[from].key != key {
        lemma_find_key_some(opts, key, from + 1, i);
    }
}

pub proof fn lemma_find_key_none(opts: Seq<OptView>, key: Seq<char>, from: int)
    requires
        0 <= from,
        find_key_from(opts, key, from) is None,
    ensures
        forall|j: int| from <= j < opts.len() ==> opts[j].key != key,
    decreases opts.len() - from,
{
    if from < opts.len() {
        lemma_find_key_none(opts, key, from + 1);
    }
}

pub proof fn lemma_find_selectable_some(
    opts: Seq<OptView>,
    key: Seq<char>,
    value: Seq<char>,
    from: int,
    i: int,
)
    requires
        0 <= from,
        find_selectable_from(opts, key, value, from) == Some(i),
    ensures
        from <= i < opts.len(),
        opts[i].key == key,
        accepts(opts[i], value),
        forall|j: int| from <= j < i ==> !(opts[j].key == key && accepts(opts[j], value)),
    decreases opts.len() - from,
{
    if !(opts[from].key == key && accepts(opts[from], value)) {
        lemma_find_selectable_some(opts, key, value, from + 1, i);
    }
}

/// The wrapping counter follows the number of pending options when that number grows or
/// shrinks by one.
pub proof fn lemma_count_step(c: u16, p: int)
    requires
        0 <= p,
        c as int == p % count_modulus(),
    ensures
        vstd::wrapping::u16_specs::wrapping_add(c, 1) as int == (p + 1) % count_modulus(),
        p >= 1 ==> vstd::wrapping::u16_specs::wrapping_sub(c, 1) as int == (p - 1) % count_modulus(),
{
}

/// The entries the options file holds for a list of options: each key with its selected
/// value, in order.
pub open spec fn stored_entries(opts: Seq<OptView>) -> Seq<(Seq<char>, Seq<char>)> {
    opts.map_values(|o: OptView| (o.key, o.selected))
}

/// Applying the entries of a file one after the other, as picks of the user.
pub open spec fn apply_entries(opts: Seq<OptView>, es: Seq<(Seq<char>, Seq<char>)>) -> Seq<OptView>
    decreases es.len(),
{
    if es.len() == 0 {
        opts
    } else {
        select_spec(apply_entries(opts, es.drop_last()), es.last().0, es.last().1)
    }
}

/// A string handed over by the core: `None` where the core passed a null pointer.
pub open spec fn str_or_empty(o: Option<String>) -> Seq<char> {
    match o {
        Some(s) => s@,
        None => seq![],
    }
}

/// One value of an option as the core declares it.
pub struct RawOptionValue {
    pub value: Option<String>,
    pub label: Option<String>,
}

/// One option as the core declares it.
pub struct RawOptionDefinition {
    pub key: Option<String>,
    pub desc: Option<String>,
    pub desc_categorized: Option<String>,
    pub info: Option<String>,
    pub info_categorized: Option<String>,
    pub category_key: Option<String>,
    pub values: Vec<RawOptionValue>,
    pub default_value: Option<String>,
}

/// One category as the core declares it.
pub struct RawOptionCategory {
    pub key: Option<String>,
    pub desc: Option<String>,
    pub info: Option<String>,
}

/// The options and categories of one language.
pub struct RawOptionsV2 {
    pub definitions: Vec<RawOptionDefinition>,
    pub categories: Vec<RawOptionCategory>,
}

/// The options of the core in English and, where the core has them, in the user's language.
pub struct RawOptionsV2Intl {
    pub us: RawOptionsV2,
    pub local: Option<RawOptionsV2>,
}

/// The values of a declared option that the front end keeps: those with a label.
pub open spec fn raw_values_view(vs: Seq<RawOptionValue>) -> Seq<(Seq<char>, Seq<char>)>
    decreases vs.len(),
{
    if vs.len() == 0 {
        seq![]
    } else {
        raw_values_view(vs.drop_last()) + match vs.last().label {
            Some(l) => seq![(str_or_empty(vs.last().value), l@)],
            None => seq![],
        }
    }
}

/// The option kept for a declared one: visible, not pending, its default value selected.
pub open spec fn definition_view(d: RawOptionDefinition) -> OptView {
    OptView {
        key: str_or_empty(d.key),
        visible: true,
        pending: false,
        selected: str_or_empty(d.default_value),
        desc: str_or_empty(d.desc),
        desc_categorized: str_or_empty(d.desc_categorized),
        info: str_or_empty(d.info),
        info_categorized: str_or_empty(d.info_categorized),
        category_key: str_or_empty(d.category_key),
        values: raw_values_view(d.values@),
        default_value: str_or_empty(d.default_value),
    }
}

/// The category kept for a declared one.
pub open spec fn category_view(c: RawOptionCategory) -> CategoryView {
    CategoryView { key: str_or_empty(c.key), info: str_or_empty(c.info), desc: str_or_empty(c.desc) }
}

/// How many option definitions the front end reads from a core at most.
pub const MAX_CORE_OPTION_DEFINITIONS: usize = 90;

/// The definitions that are read: those before the first one without a key, and no more
/// than `MAX_CORE_OPTION_DEFINITIONS`.
pub open spec fn declared_definitions(defs: Seq<RawOptionDefinition>, n: int) -> bool {
    &&& 0 <= n <= defs.len()
    &&& n <= MAX_CORE_OPTION_DEFINITIONS
    &&& forall|j: int| 0 <= j < n ==> (#[trigger] defs[j]).key is Some
    &&& (n == defs.len() || n == MAX_CORE_OPTION_DEFINITIONS || defs[n].key is None)
}

/// The categories that are read: those before the first one without a key.
pub open spec fn declared_categories(cats: Seq<RawOptionCategory>, n: int) -> bool {
    &&& 0 <= n <= cats.len()
    &&& forall|j: int| 0 <= j < n ==> (#[trigger] cats[j]).key is Some
    &&& (n == cats.len() || cats[n].key is None)
}

/// The language whose options are read: the user's where the core has it, else English.
pub open spec fn chosen_options(o: RawOptionsV2Intl) -> RawOptionsV2 {
    match o.local {
        Some(l) => l,
        None => o.us,
    }
}

fn string_or_empty(o: &Option<String>) -> (r: String)
    ensures
        r@ == str_or_empty(*o),
{
    match o {
        Some(s) => s.clone(),
        None => String::new(),
    }
}

fn convert_values(vs: &Vec<RawOptionValue>) -> (r: Vec<CoreValue>)
    ensures
        r@.map_values(|v: CoreValue| value_view(v)) == raw_values_view(vs@),
{
    let mut r: Vec<CoreValue> = Vec::new();
    let mut i: usize = 0;
    while i < vs.len()
        invariant
            i <= vs.len(),
            r@.map_values(|v: CoreValue| value_view(v)) == raw_values_view(vs@.take(i as int)),
        decreases vs.len() - i,
    {
        let ghost before = r@.map_values(|v: CoreValue| value_view(v));
        proof {
            assert(vs@.take(i + 1).drop_last() =~= vs@.take(i as int));
        }
        match &vs[i].label {
            Some(l) => {
                let cv = CoreValue { value: string_or_empty(&vs[i].value), label: l.clone() };
                r.push(cv);
                assert(r@.map_values(|v: CoreValue| value_view(v)) =~= raw_values_view(
                    vs@.take(i + 1),
                ));
            },
            None => {
                assert(r@.map_values(|v: CoreValue| value_view(v)) =~= raw_values_view(
                    vs@.take(i + 1),
                ));
            },
        }
        i = i + 1;
    }
    assert(vs@.take(vs.len() as int) =~= vs@);
    r
}

/// A freshly declared option is visible, not pending, and has its declared default as the
/// selected value.
pub proof fn law_declared_option_selects_default(d: RawOptionDefinition)
    ensures
        definition_view(d).selected == str_or_empty(d.default_value),
        definition_view(d).default_value == str_or_empty(d.default_value),
        definition_view(d).key == str_or_empty(d.key),
        definition_view(d).visible,
        !definition_view(d).pending,
{
}

fn convert_definition(d: &RawOptionDefinition) -> (r: CoreOpt)
    ensures
        r@ == definition_view(*d),
        r.key@ == str_or_empty(d.key),
        r.selected@ == str_or_empty(d.default_value),
        r.default_value@ == str_or_empty(d.default_value),
        r.visibility,
        !r.need_update,
{
    CoreOpt {
        key: string_or_empty(&d.key),
        visibility: true,
        need_update: false,
        selected: string_or_empty(&d.default_value),
        desc: string_or_empty(&d.desc),
        desc_categorized: string_or_empty(&d.desc_categorized),
        info: string_or_empty(&d.info),
        info_categorized: string_or_empty(&d.info_categorized),
        category_key: string_or_empty(&d.category_key),
        values: convert_values(&d.values),
        default_value: string_or_empty(&d.default_value),
    }
}

proof fn lemma_find_selectable_at_key(opts: Seq<OptView>, key: Seq<char>, value: Seq<char>, from: int, i: int)
    requires
        0 <= from,
        find_key_from(opts, key, from) == Some(i),
        accepts(opts[i], value),
    ensures
        find_selectable_from(opts, key, value, from) == Some(i),
    decreases opts.len() - from,
{
    lemma_find_key_some(opts, key, from, i);
    if from < i {
        lemma_find_selectable_at_key(opts, key, value, from + 1, i);
    }
}

proof fn lemma_find_key_same_keys(a: Seq<OptView>, b: Seq<OptView>, key: Seq<char>, from: int)
    requires
        a.len() == b.len(),
        forall|j: int| 0 <= j < a.len() ==> (#[trigger] a[j]).key == b[j].key,
    ensures
        find_key_from(a, key, from) == find_key_from(b, key, from),
    decreases a.len() - from,
{
    if 0 <= from < a.len() {
        lemma_find_key_same_keys(a, b, key, from + 1);
    }
}

/// A pick is read back: when the first option with key `key` accepts `value` and holds no
/// unread pick, picking `value` and then reading `key` gives `value`.
pub proof fn law_read_after_pick(opts: Seq<OptView>, key: Seq<char>, value: Seq<char>, i: int)
    requires
        find_key_from(opts, key, 0) == Some(i),
        accepts(opts[i], value),
        !opts[i].pending,
    ensures
        take_spec(select_spec(opts, key, value), key).0 == Some(value),
{
    lemma_find_key_some(opts, key, 0, i);
    lemma_find_selectable_at_key(opts, key, value, 0, i);
    let after = select_spec(opts, key, value);
    assert(after == opts.update(i, OptView { selected: value, pending: true, ..opts[i] }));
    lemma_find_key_same_keys(opts, after, key, 0);
}

/// A pick is read once: reading the same key a second time gives nothing.
pub proof fn law_read_once(opts: Seq<OptView>, key: Seq<char>)
    ensures
        take_spec(take_spec(opts, key).1, key).0 is None,
{
    let once = take_spec(opts, key).1;
    match find_key_from(opts, key, 0) {
        None => {},
        Some(i) => {
            lemma_find_key_some(opts, key, 0, i);
            lemma_find_key_same_keys(opts, once, key, 0);
        },
    }
}

/// A hidden option has no pick to read.
pub proof fn law_hidden_not_read(opts: Seq<OptView>, key: Seq<char>)
    ensures
        take_spec(visibility_spec(opts, key, false), key).0 is None,
{
    let hidden = visibility_spec(opts, key, false);
    match find_key_from(hidden, key, 0) {
        None => {},
        Some(i) => {
            lemma_find_key_some(hidden, key, 0, i);
        },
    }
}

/// A read that hands out a value lowers the number of pending options by one; a read that
/// hands out nothing changes nothing.
pub proof fn law_read_lowers_pending(opts: Seq<OptView>, key: Seq<char>)
    ensures
        take_spec(opts, key).0 is Some ==> pending_count(take_spec(opts, key).1) + 1 == pending_count(opts),
        take_spec(opts, key).0 is None ==> take_spec(opts, key).1 == opts,
{
    match find_key_from(opts, key, 0) {
        None => {},
        Some(i) => {
            lemma_find_key_some(opts, key, 0, i);
            if opts[i].pending {
                lemma_pending_count_update(opts, i, OptView { pending: false, ..opts[i] });
            }
        },
    }
}

/// The options file written for a list of options reads back as the key and selected
/// value of each, in order, provided the file can hold every key and selected value.
pub proof fn law_saved_picks_read_back(opts: Seq<OptView>)
    requires
        forall|i: int| 0 <= i < opts.len() ==> storable_key(#[trigger] opts[i].key) && storable_value(opts[i].selected),
    ensures
        parse_entries(serialize_entries(stored_entries(opts))) == Some(stored_entries(opts)),
{
    let es = stored_entries(opts);
    assert forall|i: int| 0 <= i < es.len() implies storable_key(#[trigger] es[i].0) && storable_value(es[i].1) by {
        assert(es[i] == (opts[i].key, opts[i].selected));
    }
    law_option_file_round_trip(es);
}

proof fn lemma_find_selectable_unique(opts: Seq<OptView>, key: Seq<char>, value: Seq<char>, from: int, k: int)
    requires
        0 <= from,
        0 <= k < opts.len(),
        opts[k].key == key,
        forall|j: int| 0 <= j < opts.len() && j != k ==> (#[trigger] opts[j]).key != key,
    ensures
        find_selectable_from(opts, key, value, from) == (if from <= k && accepts(opts[k], value) {
            Some(k)
        } else {
            None::<int>
        }),
    decreases opts.len() - from,
{
    if from < opts.len() {
        if !(opts[from].key == key && accepts(opts[from], value)) {
            lemma_find_selectable_unique(opts, key, value, from + 1, k);
        }
    }
}

/// The options after the first `k` entries of `saved`'s file are applied to `decl`.
proof fn lemma_reload_prefix(decl: Seq<OptView>, saved: Seq<OptView>, k: int)
    requires
        decl.len() == saved.len(),
        0 <= k <= decl.len(),
        forall|i: int, j: int| 0 <= i < j < decl.len() ==> (#[trigger] decl[i]).key != (#[trigger] decl[j]).key,
        forall|i: int| 0 <= i < decl.len() ==> !(#[trigger] decl[i]).pending,
        forall|i: int| 0 <= i < decl.len() ==> (#[trigger] saved[i]).key == decl[i].key,
        forall|i: int|
            0 <= i < decl.len() ==> (#[trigger] saved[i]).selected == decl[i].selected || accepts(
                decl[i],
                saved[i].selected,
            ),
    ensures
        apply_entries(decl, stored_entries(saved).take(k)).len() == decl.len(),
        forall|i: int|
            0 <= i < k ==> (#[trigger] apply_entries(decl, stored_entries(saved).take(k))[i]) == (OptView {
                selected: saved[i].selected,
                pending: apply_entries(decl, stored_entries(saved).take(k))[i].pending,
                ..decl[i]
            }),
        forall|i: int| k <= i < decl.len() ==> (#[trigger] apply_entries(decl, stored_entries(saved).take(k))[i]) == decl[i],
    decreases k,
{
    let es = stored_entries(saved);
    if k == 0 {
        assert(es.take(0) =~= Seq::<(Seq<char>, Seq<char>)>::empty());
    } else {
        lemma_reload_prefix(decl, saved, k - 1);
        let prev = apply_entries(decl, es.take(k - 1));
        assert(es.take(k).drop_last() =~= es.take(k - 1));
        assert(es.take(k).last() == (saved[k - 1].key, saved[k - 1].selected));
        let key = saved[k - 1].key;
        let v = saved[k - 1].selected;
        assert forall|j: int| 0 <= j < prev.len() && j != k - 1 implies (#[trigger] prev[j]).key != key by {
            if j < k - 1 {
                assert(prev[j].key == decl[j].key);
                assert(decl[j].key != decl[k - 1].key);
            } else {
                assert(prev[j] == decl[j]);
                assert(decl[k - 1].key != decl[j].key);
            }
        }
        lemma_find_selectable_unique(prev, key, v, 0, k - 1);
        let next = apply_entries(decl, es.take(k));
        assert(next == select_spec(prev, key, v));
        assert(prev[k - 1] == decl[k - 1]);
    }
}

/// Picks saved to the options file come back when the file is read into the same declared
/// options: given options `decl` as a core declares them (distinct keys, none pending) and
/// `saved`, the same options where each selected value is the default or a value the option
/// accepts and every key and selected value is one the file can hold, reading the file
/// written for `saved` gives entries that, applied to `decl`, select each saved value.
pub proof fn law_reload_restores_picks(decl: Seq<OptView>, saved: Seq<OptView>)
    requires
        decl.len() == saved.len(),
        forall|i: int, j: int| 0 <= i < j < decl.len() ==> (#[trigger] decl[i]).key != (#[trigger] decl[j]).key,
        forall|i: int| 0 <= i < decl.len() ==> !(#[trigger] decl[i]).pending,
        forall|i: int| 0 <= i < decl.len() ==> (#[trigger] saved[i]).key == decl[i].key,
        forall|i: int|
            0 <= i < decl.len() ==> (#[trigger] saved[i]).selected == decl[i].selected || accepts(
                decl[i],
                saved[i].selected,
            ),
        forall|i: int| 0 <= i < saved.len() ==> storable_key(#[trigger] saved[i].key) && storable_value(saved[i].selected),
    ensures
        parse_entries(serialize_entries(stored_entries(saved))) == Some(stored_entries(saved)),
        apply_entries(decl, stored_entries(saved)).len() == decl.len(),
        forall|i: int|
            0 <= i < decl.len() ==> (#[trigger] apply_entries(decl, stored_entries(saved))[i]).selected
                == saved[i].selected && apply_entries(decl, stored_entries(saved))[i].key == decl[i].key,
{
    law_saved_picks_read_back(saved);
    lemma_reload_prefix(decl, saved, decl.len() as int);
    assert(stored_entries(saved).take(decl.len() as int) =~= stored_entries(saved));
}

/// The options a core declared, the user's picks among their values, and how many picks
/// the core has not read back.
pub struct OptionManager {
    pub file_path: String,
    pub categories: Vec<Categories>,
    pub updated_count: u16,
    pub opts: Vec<CoreOpt>,
}

impl OptionManager {
    /// The options, each by its view.
    pub open spec fn opts_view(&self) -> Seq<OptView> {
        self.opts@.map_values(|o: CoreOpt| o@)
    }

    /// The categories, each by its view.
    pub open spec fn categories_view(&self) -> Seq<CategoryView> {
        self.categories@.map_values(|c: Categories| c@)
    }

    /// The counter of pending updates agrees with the options, modulo the width of the
    /// counter.
    pub open spec fn wf(&self) -> bool {
        self.updated_count as int == pending_count(self.opts_view()) as int % count_modulus()
    }

    /// Reads the selected value of `opt_key` if the core has not read it since it was
    /// picked, and marks it read. Only the first option with that key is looked at.
    pub fn get_opt_value(&mut self, opt_key: &str) -> (r: Option<String>)
        requires
            old(self).wf(),
        ensures
            final(self).wf(),
            option_string_view(r) == take_spec(old(self).opts_view(), opt_key@).0,
            final(self).opts_view() == take_spec(old(self).opts_view(), opt_key@).1,
            final(self).file_path == old(self).file_path,
            final(self).categories == old(self).categories,
    {
        let key = opt_key.to_string();
        let ghost opts0 = self.opts_view();
        let n = self.opts.len();
        let mut i: usize = 0;
        while i < n
            invariant
                n == self.opts.len(),
                i <= n,
                self.opts_view() == opts0,
                old(self).opts_view() == opts0,
                self.wf(),
                self.file_path == old(self).file_path,
                self.categories == old(self).categories,
                key@ == opt_key@,
                find_key_from(opts0, key@, 0) == find_key_from(opts0, key@, i as int),
            decreases n - i,
        {
            if self.opts[i].key == key {
                assert(opts0[i as int] == self.opts@[i as int]@);
                if !self.opts[i].need_update {
                    return None;
                }
                let ghost before = self.opts_view();
                proof {
                    lemma_pending_count_update(before, i as int, OptView { pending: false, ..before[i as int] });
                    lemma_count_step(self.updated_count, pending_count(before) as int);
                }
                self.updated_count = self.updated_count.wrapping_sub(1);
                self.opts[i].need_update = false;
                assert(self.opts_view() =~= before.update(i as int, OptView { pending: false, ..before[i as int] }));
                return Some(self.opts[i].selected.clone());
            }
            assert(opts0[i as int] == self.opts@[i as int]@);
            i = i + 1;
        }
        None
    }

    /// Whether option `i` accepts `value`.
    fn opt_accepts(&self, i: usize, value: &String) -> (r: bool)
        requires
            i < self.opts.len(),
        ensures
            r == accepts(self.opts@[i as int]@, value@),
    {
        let m = self.opts[i].values.len();
        let mut j: usize = 0;
        while j < m
            invariant
                i < self.opts.len(),
                m == self.opts@[i as int].values.len(),
                j <= m,
                forall|k: int| 0 <= k < j ==> (#[trigger] self.opts@[i as int]@.values[k]).0 != value@,
            decreases m - j,
        {
            if self.opts[i].values[j].value == *value {
                assert(self.opts@[i as int]@.values[j as int].0 == value@);
                return true;
            }
            j = j + 1;
        }
        false
    }

    /// Picks `new_value_selected` for `opt_key`: the first option with that key that accepts
    /// the value takes it and becomes pending, unless it was pending already.
    pub fn change_value_selected(&mut self, opt_key: &str, new_value_selected: &str)
        requires
            old(self).wf(),
        ensures
            final(self).wf(),
            final(self).opts_view() == select_spec(old(self).opts_view(), opt_key@, new_value_selected@),
            final(self).file_path == old(self).file_path,
            final(self).categories == old(self).categories,
    {
        let key = opt_key.to_string();
        let value = new_value_selected.to_string();
        let ghost opts0 = self.opts_view();
        let n = self.opts.len();
        let mut i: usize = 0;
        while i < n
            invariant
                n == self.opts.len(),
                i <= n,
                self.opts_view() == opts0,
                old(self).opts_view() == opts0,
                self.wf(),
                self.file_path == old(self).file_path,
                self.categories == old(self).categories,
                key@ == opt_key@,
                value@ == new_value_selected@,
                find_selectable_from(opts0, key@, value@, 0) == find_selectable_from(
                    opts0,
                    key@,
                    value@,
                    i as int,
                ),
            decreases n - i,
        {
            assert(opts0[i as int] == self.opts@[i as int]@);
            if self.opts[i].key == key && self.opt_accepts(i, &value) {
                if !self.opts[i].need_update {
                    let ghost before = self.opts_view();
                    let ghost after = OptView { selected: value@, pending: true, ..before[i as int] };
                    proof {
                        lemma_pending_count_update(before, i as int, after);
                        lemma_count_step(self.updated_count, pending_count(before) as int);
                    }
                    self.opts[i].selected = value;
                    self.updated_count = self.updated_count.wrapping_add(1);
                    self.opts[i].need_update = true;
                    assert(self.opts_view() =~= before.update(i as int, after));
                }
                return;
            }
            i = i + 1;
        }
    }

    /// Shows or hides every option with key `key`; hiding one drops its pending update.
    pub fn change_visibility(&mut self, key: &str, visibility: bool)
        requires
            old(self).wf(),
        ensures
            final(self).wf(),
            final(self).opts_view() == visibility_spec(old(self).opts_view(), key@, visibility),
            final(self).file_path == old(self).file_path,
            final(self).categories == old(self).categories,
    {
        let k = key.to_string();
        let ghost opts0 = self.opts_view();
        let n = self.opts.len();
        let mut i: usize = 0;
        while i < n
            invariant
                n == self.opts.len(),
                i <= n,
                opts0 == old(self).opts_view(),
                self.opts_view().len() == n,
                self.wf(),
                self.file_path == old(self).file_path,
                self.categories == old(self).categories,
                k@ == key@,
                forall|j: int| 0 <= j < i ==> self.opts_view()[j] == visibility_one(opts0[j], key@, visibility),
                forall|j: int| i <= j < n ==> self.opts_view()[j] == opts0[j],
            decreases n - i,
        {
            if self.opts[i].key == k {
                let ghost before = self.opts_view();
                let ghost after = visibility_one(before[i as int], key@, visibility);
                let clear = !visibility && self.opts[i].need_update;
                proof {
                    lemma_pending_count_update(before, i as int, after);
                    lemma_count_step(self.updated_count, pending_count(before) as int);
                }
                self.opts[i].visibility = visibility;
                if clear {
                    self.opts[i].need_update = false;
                    self.updated_count = self.updated_count.wrapping_sub(1);
                }
                assert(self.opts_view() =~= before.update(i as int, after));
            }
            i = i + 1;
        }
        assert(self.opts_view() =~= visibility_spec(opts0, key@, visibility));
    }

    /// A manager with no options yet, whose file is `<library_name>.opt` in `opt_path`.
    pub fn new(opt_path: &str, library_name: String) -> (r: OptionManager)
        ensures
            r.wf(),
            r.file_path@ == joined_path(opt_path@, library_name@ + ".opt"@),
            r.opts@.len() == 0,
            r.categories@.len() == 0,
            r.updated_count == 0,
    {
        let mut name = library_name;
        push_all(&mut name, ".opt");
        let file_path = join_path(opt_path, name.as_str());
        let r = OptionManager {
            file_path,
            categories: Vec::new(),
            updated_count: 0,
            opts: Vec::new(),
        };
        assert(r.opts_view() =~= Seq::<OptView>::empty());
        r
    }

    /// The contents of the options file for the current picks: `key=selected` per option.
    pub fn options_file_content(&self) -> (r: String)
        ensures
            r@ == serialize_entries(stored_entries(self.opts_view())),
    {
        let mut entries: Vec<OptionEntry> = Vec::new();
        let mut i: usize = 0;
        while i < self.opts.len()
            invariant
                i <= self.opts.len(),
                entries@.map_values(|e: OptionEntry| entry_view(e)) == stored_entries(
                    self.opts_view().take(i as int),
                ),
            decreases self.opts.len() - i,
        {
            let e = OptionEntry { key: self.opts[i].key.clone(), value: self.opts[i].selected.clone() };
            let ghost before = entries@.map_values(|e: OptionEntry| entry_view(e));
            assert(self.opts_view()[i as int] == self.opts@[i as int]@);
            entries.push(e);
            assert(entries@.map_values(|e: OptionEntry| entry_view(e)) =~= before.push(entry_view(e)));
            assert(entries@.map_values(|e: OptionEntry| entry_view(e)) =~= stored_entries(
                self.opts_view().take(i + 1),
            ));
            i = i + 1;
        }
        assert(self.opts_view().take(self.opts.len() as int) =~= self.opts_view());
        serialize_option_file(&entries)
    }

    /// Picks `new_value_selected` for `opt_key` and returns the options file to save.
    pub fn update_opt(&mut self, opt_key: &str, new_value_selected: &str) -> (r: String)
        requires
            old(self).wf(),
        ensures
            final(self).wf(),
            final(self).opts_view() == select_spec(old(self).opts_view(), opt_key@, new_value_selected@),
            final(self).file_path == old(self).file_path,
            final(self).categories == old(self).categories,
            r@ == serialize_entries(stored_entries(final(self).opts_view())),
    {
        self.change_value_selected(opt_key, new_value_selected);
        self.options_file_content()
    }

    /// Applies the entries read from the options file, in order, as picks of the user.
    pub fn load_all_option_in_file(&mut self, entries: &Vec<OptionEntry>)
        requires
            old(self).wf(),
        ensures
            final(self).wf(),
            final(self).opts_view() == apply_entries(
                old(self).opts_view(),
                entries@.map_values(|e: OptionEntry| entry_view(e)),
            ),
            final(self).file_path == old(self).file_path,
            final(self).categories == old(self).categories,
    {
        let ghost es = entries@.map_values(|e: OptionEntry| entry_view(e));
        let ghost opts0 = self.opts_view();
        let mut i: usize = 0;
        while i < entries.len()
            invariant
                i <= entries.len(),
                es == entries@.map_values(|e: OptionEntry| entry_view(e)),
                opts0 == old(self).opts_view(),
                self.wf(),
                self.opts_view() == apply_entries(opts0, es.take(i as int)),
                self.file_path == old(self).file_path,
                self.categories == old(self).categories,
            decreases entries.len() - i,
        {
            self.change_value_selected(entries[i].key.as_str(), entries[i].value.as_str());
            assert(es.take(i + 1).drop_last() =~= es.take(i as int));
            i = i + 1;
        }
        assert(es.take(entries.len() as int) =~= es);
    }

    /// Restores the picks saved in the options file. `saved` is the file's contents, `None`
    /// when there is no file yet; then the file to create is returned, holding the current
    /// picks (the defaults), and nothing else changes.
    pub fn try_reload_pref_option(&mut self, saved: Option<&str>) -> (r: Option<String>)
        requires
            old(self).wf(),
            saved matches Some(c) ==> parse_entries(c@) is Some,
        ensures
            final(self).wf(),
            final(self).file_path == old(self).file_path,
            final(self).categories == old(self).categories,
            match saved {
                None => final(self).opts_view() == old(self).opts_view() && (r matches Some(f) && f@
                    == serialize_entries(stored_entries(old(self).opts_view()))),
                Some(c) => r is None && final(self).opts_view() == apply_entries(
                    old(self).opts_view(),
                    parse_entries(c@).unwrap(),
                ),
            },
    {
        match saved {
            None => Some(self.options_file_content()),
            Some(c) => {
                let parsed = crate::option_file::parse_option_file(c);
                match parsed {
                    Some(entries) => {
                        self.load_all_option_in_file(&entries);
                        None
                    },
                    None => None,
                }
            },
        }
    }

    fn get_v2_intl_definitions(&mut self, definitions: &Vec<RawOptionDefinition>)
        requires
            old(self).wf(),
        ensures
            final(self).wf(),
            final(self).updated_count == old(self).updated_count,
            final(self).file_path == old(self).file_path,
            final(self).categories == old(self).categories,
            exists|n: int|
                declared_definitions(definitions@, n) && final(self).opts_view() == old(self).opts_view()
                    + definitions@.take(n).map_values(|d: RawOptionDefinition| definition_view(d)),
    {
        let ghost opts0 = self.opts_view();
        let mut i: usize = 0;
        while i < definitions.len() && i < MAX_CORE_OPTION_DEFINITIONS && definitions[i].key.is_some()
            invariant
                i <= definitions.len(),
                i <= MAX_CORE_OPTION_DEFINITIONS,
                opts0 == old(self).opts_view(),
                forall|j: int| 0 <= j < i ==> (#[trigger] definitions@[j]).key is Some,
                self.wf(),
                self.updated_count == old(self).updated_count,
                self.file_path == old(self).file_path,
                self.categories == old(self).categories,
                self.opts_view() == opts0 + definitions@.take(i as int).map_values(
                    |d: RawOptionDefinition| definition_view(d),
                ),
            decreases definitions.len() - i,
        {
            let opt = convert_definition(&definitions[i]);
            let ghost before = self.opts_view();
            proof {
                lemma_pending_count_push(before, opt@);
            }
            self.opts.push(opt);
            assert(self.opts_view() =~= before.push(opt@));
            assert(self.opts_view() =~= opts0 + definitions@.take(i + 1).map_values(
                |d: RawOptionDefinition| definition_view(d),
            ));
            i = i + 1;
        }
        assert(declared_definitions(definitions@, i as int));
    }

    fn get_v2_intl_category(&mut self, categories: &Vec<RawOptionCategory>)
        ensures
            final(self).opts == old(self).opts,
            final(self).updated_count == old(self).updated_count,
            final(self).file_path == old(self).file_path,
            exists|n: int|
                declared_categories(categories@, n) && final(self).categories_view() == old(
                    self,
                ).categories_view() + categories@.take(n).map_values(|c: RawOptionCategory| category_view(c)),
    {
        let ghost cats0 = self.categories_view();
        let mut i: usize = 0;
        while i < categories.len() && categories[i].key.is_some()
            invariant
                i <= categories.len(),
                cats0 == old(self).categories_view(),
                forall|j: int| 0 <= j < i ==> (#[trigger] categories@[j]).key is Some,
                self.opts == old(self).opts,
                self.updated_count == old(self).updated_count,
                self.file_path == old(self).file_path,
                self.categories_view() == cats0 + categories@.take(i as int).map_values(
                    |c: RawOptionCategory| category_view(c),
                ),
            decreases categories.len() - i,
        {
            let c = &categories[i];
            let cat = Categories {
                key: string_or_empty(&c.key),
                info: string_or_empty(&c.info),
                desc: string_or_empty(&c.desc),
            };
            let ghost before = self.categories_view();
            self.categories.push(cat);
            assert(self.categories_view() =~= before.push(cat@));
            assert(self.categories_view() =~= cats0 + categories@.take(i + 1).map_values(
                |c: RawOptionCategory| category_view(c),
            ));
            i = i + 1;
        }
        assert(declared_categories(categories@, i as int));
    }

    /// Takes in the options the core declares: those of the user's language where the core
    /// has them, else the English ones. The definitions (at most
    /// `MAX_CORE_OPTION_DEFINITIONS` of them) and then the categories are read up to the first
    /// one without a key and appended.
    pub fn convert_option_v2_intl(&mut self, option_intl_v2: &RawOptionsV2Intl)
        requires
            old(self).wf(),
        ensures
            final(self).wf(),
            final(self).updated_count == old(self).updated_count,
            final(self).file_path == old(self).file_path,
            exists|n: int|
                declared_definitions(chosen_options(*option_intl_v2).definitions@, n)
                    && final(self).opts_view() == old(self).opts_view() + chosen_options(
                    *option_intl_v2,
                ).definitions@.take(n).map_values(|d: RawOptionDefinition| definition_view(d)),
            exists|n: int|
                declared_categories(chosen_options(*option_intl_v2).categories@, n)
                    && final(self).categories_view() == old(self).categories_view() + chosen_options(
                    *option_intl_v2,
                ).categories@.take(n).map_values(|c: RawOptionCategory| category_view(c)),
            final(self).opts@.len() >= old(self).opts@.len(),
            forall|i: int|
                old(self).opts@.len() <= i < final(self).opts@.len() ==> (#[trigger] final(self).opts@[i]).selected@
                    == final(self).opts@[i].default_value@ && final(self).opts@[i].visibility
                    && !final(self).opts@[i].need_update,
    {
        let chosen = match &option_intl_v2.local {
            None => &option_intl_v2.us,
            Some(local) => local,
        };
        assert(*chosen == chosen_options(*option_intl_v2));
        self.get_v2_intl_definitions(&chosen.definitions);
        let ghost mid = self.opts_view();
        self.get_v2_intl_category(&chosen.categories);
        assert(self.opts_view() == mid);
        proof {
            let defs = chosen_options(*option_intl_v2).definitions@;
            let n = choose|n: int|
                declared_definitions(defs, n) && mid == old(self).opts_view() + defs.take(n).map_values(
                    |d: RawOptionDefinition| definition_view(d),
                );
            let k = old(self).opts@.len() as int;
            assert forall|i: int| k <= i < self.opts@.len() implies (#[trigger] self.opts@[i]).selected@
                == self.opts@[i].default_value@ && self.opts@[i].visibility && !self.opts@[i].need_update by {
                assert(self.opts_view()[i] == self.opts@[i]@);
                assert(mid[i] == definition_view(defs.take(n)[i - k]));
            }
        }
    }
}

} // verus!
