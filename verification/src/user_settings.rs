//! The script-declared settings schema and its value resolution.
//!
//! At load time the engine hands over an ordered, immutable list of widget
//! descriptors: the declarative configuration UI the script requests. The
//! host renders it and asks, widget by widget, for the current value, which
//! is always recomputed as a pure function of the schema and the stored
//! settings map, so the host sees a value consistent with whatever it last
//! wrote.

use vstd::prelude::*;

verus! {

use crate::settings::{SettingValueView, SettingsMap, SettingsEntryView, stored, str_eq};

/// One selectable option of a choice widget.
#[derive(Debug, PartialEq, Eq)]
pub struct ChoiceOption {
    pub key: String,
    pub description: String,
}

/// The view of a choice option.
pub struct ChoiceOptionView {
    pub key: Seq<char>,
    pub description: Seq<char>,
}

impl View for ChoiceOption {
    type V = ChoiceOptionView;

    open spec fn view(&self) -> ChoiceOptionView {
        ChoiceOptionView { key: self.key@, description: self.description@ }
    }
}

/// The kind-specific payload of a widget: a closed variant type.
#[derive(Debug, PartialEq, Eq)]
pub enum WidgetKind {
    Bool { default_value: bool },
    Title { heading_level: u32 },
    Choice { default_option_key: String, options: Vec<ChoiceOption> },
    FileSelection { filter: String },
}

/// The view of a widget kind.
pub enum WidgetKindView {
    Bool { default_value: bool },
    Title { heading_level: u32 },
    Choice { default_option_key: Seq<char>, options: Seq<ChoiceOptionView> },
    FileSelection { filter: Seq<char> },
}

impl View for WidgetKind {
    type V = WidgetKindView;

    open spec fn view(&self) -> WidgetKindView {
        match self {
            WidgetKind::Bool { default_value } => WidgetKindView::Bool {
                default_value: *default_value,
            },
            WidgetKind::Title { heading_level } => WidgetKindView::Title {
                heading_level: *heading_level,
            },
            WidgetKind::Choice { default_option_key, options } => WidgetKindView::Choice {
                default_option_key: default_option_key@,
                options: Seq::new(options@.len(), |i: int| options@[i]@),
            },
            WidgetKind::FileSelection { filter } => WidgetKindView::FileSelection {
                filter: filter@,
            },
        }
    }
}

/// One declarative UI element of the schema.
#[derive(Debug, PartialEq, Eq)]
pub struct Widget {
    pub key: String,
    pub description: String,
    pub tooltip: Option<String>,
    pub kind: WidgetKind,
}

/// The view of a widget.
pub struct WidgetView {
    pub key: Seq<char>,
    pub description: Seq<char>,
    pub tooltip: Option<Seq<char>>,
    pub kind: WidgetKindView,
}

impl View for Widget {
    type V = WidgetView;

    open spec fn view(&self) -> WidgetView {
        WidgetView {
            key: self.key@,
            description: self.description@,
            tooltip: match &self.tooltip {
                Some(t) => Some(t@),
                None => None,
            },
            kind: self.kind@,
        }
    }
}

/// The small integer discriminant the host receives for each widget kind.
pub open spec fn spec_kind_tag(kind: WidgetKindView) -> usize {
    match kind {
        WidgetKindView::Bool { .. } => 1,
        WidgetKindView::Title { .. } => 2,
        WidgetKindView::Choice { .. } => 3,
        WidgetKindView::FileSelection { .. } => 4,
    }
}

/// The resolved value of a boolean widget: the stored value when one of the
/// matching variant is present, else the widget's declared default; a widget
/// of any other kind resolves to false.
pub open spec fn spec_bool_value(w: WidgetView, m: Seq<SettingsEntryView>) -> bool {
    match w.kind {
        WidgetKindView::Bool { default_value } => match stored(m, w.key) {
            Some(SettingValueView::Bool(b)) => b,
            _ => default_value,
        },
        _ => false,
    }
}

/// The position of the first option holding `key`, or nothing when no option
/// does.
pub open spec fn option_position(options: Seq<ChoiceOptionView>, key: Seq<char>) -> Option<int>
    decreases options.len(),
{
    if options.len() == 0 {
        None
    } else if options[0].key == key {
        Some(0int)
    } else {
        match option_position(options.drop_first(), key) {
            Some(i) => Some(i + 1),
            None => None,
        }
    }
}

/// The index a choice widget pre-selects: the position of the stored option
/// key when the stored value is a string naming an option; else the position
/// of the declared default key; else, when even the default key names no
/// option, index zero. A widget of any other kind resolves to zero.
pub open spec fn spec_choice_index(w: WidgetView, m: Seq<SettingsEntryView>) -> int {
    match w.kind {
        WidgetKindView::Choice { default_option_key, options } => {
            let effective = match stored(m, w.key) {
                Some(SettingValueView::String(s)) => s,
                _ => default_option_key,
            };
            match option_position(options, effective) {
                Some(i) => i,
                None => match option_position(options, default_option_key) {
                    Some(i) => i,
                    None => 0,
                },
            }
        },
        _ => 0,
    }
}

/// What `option_position` means position by position: a found index is the
/// first option holding the key, and absence means no option holds it.
pub proof fn lemma_option_position_characterization(
    options: Seq<ChoiceOptionView>,
    key: Seq<char>,
)
    ensures
        match option_position(options, key) {
            Some(i) => 0 <= i < options.len() && options[i].key == key && forall|j: int|
                0 <= j < i ==> options[j].key != key,
            None => forall|j: int| 0 <= j < options.len() ==> options[j].key != key,
        },
    decreases options.len(),
{
    if options.len() > 0 && options[0].key != key {
        lemma_option_position_characterization(options.drop_first(), key);
        match option_position(options.drop_first(), key) {
            Some(i) => {
                assert(options.drop_first()[i] == options[i + 1]);
                assert forall|j: int| 0 <= j < i + 1 implies options[j].key != key by {
                    if j > 0 {
                        assert(options.drop_first()[j - 1].key != key);
                    }
                }
            },
            None => {
                assert forall|j: int| 0 <= j < options.len() implies options[j].key != key by {
                    if j > 0 {
                        assert(options.drop_first()[j - 1].key != key);
                    }
                }
            },
        }
    }
}

/// The ordered, immutable list of widgets the script declared, shared
/// read-only for the engine handle's lifetime.
pub struct UserSettings {
    widgets: Vec<Widget>,
}

impl View for UserSettings {
    type V = Seq<WidgetView>;

    closed spec fn view(&self) -> Seq<WidgetView> {
        Seq::new(self.widgets@.len(), |i: int| self.widgets@[i]@)
    }
}

/// Finds the position of the first option holding `key`.
fn find_option(options: &Vec<ChoiceOption>, key: &str) -> (r: Option<usize>)
    ensures
        match r {
            Some(i) => option_position(
                Seq::new(options@.len(), |k: int| options@[k]@),
                key@,
            ) == Some(i as int),
            None => option_position(
                Seq::new(options@.len(), |k: int| options@[k]@),
                key@,
            ) is None,
        },
{
    let ghost ov = Seq::new(options@.len(), |k: int| options@[k]@);
    let n = options.len();
    let mut i: usize = 0;
    while i < n
        invariant
            n == options@.len(),
            0 <= i <= n,
            ov == Seq::new(options@.len(), |k: int| options@[k]@),
            forall|j: int| 0 <= j < i ==> ov[j].key != key@,
        decreases n - i,
    {
        if str_eq(options[i].key.as_str(), key) {
            proof {
                assert(ov[i as int].key == key@);
                lemma_option_position_characterization(ov, key@);
                match option_position(ov, key@) {
                    Some(p) => {
                        assert(p <= i as int);
                        assert(p >= i as int);
                    },
                    None => {
                        assert(ov[i as int].key == key@);
                    },
                }
            }
            return Some(i);
        }
        i += 1;
    }
    proof {
        lemma_option_position_characterization(ov, key@);
        if option_position(ov, key@) is Some {
            let p = option_position(ov, key@)->Some_0;
            assert(ov[p].key != key@);
        }
    }
    None
}

impl UserSettings {
    /// Wraps the widget list the engine produced at script load time.
    pub fn new(widgets: Vec<Widget>) -> (r: UserSettings)
        ensures
            r@ == Seq::new(widgets@.len(), |i: int| widgets@[i]@),
    {
        let s = UserSettings { widgets };
        proof {
            assert(s@ =~= Seq::new(s.widgets@.len(), |i: int| s.widgets@[i]@));
        }
        s
    }

    /// The number of widgets in the schema.
    pub fn len(&self) -> (r: usize)
        ensures
            r == self@.len(),
    {
        self.widgets.len()
    }

    /// The key of the widget at `index`.
    pub fn get_key(&self, index: usize) -> (r: &str)
        requires
            index < self@.len(),
        ensures
            r@ == self@[index as int].key,
    {
        self.widgets[index].key.as_str()
    }

    /// The label text of the widget at `index`.
    pub fn get_description(&self, index: usize) -> (r: &str)
        requires
            index < self@.len(),
        ensures
            r@ == self@[index as int].description,
    {
        self.widgets[index].description.as_str()
    }

    /// The help text of the widget at `index`; a widget without one yields
    /// empty text.
    pub fn get_tooltip(&self, index: usize) -> (r: &str)
        requires
            index < self@.len(),
        ensures
            r@ == match self@[index as int].tooltip {
                Some(t) => t,
                None => Seq::<char>::empty(),
            },
    {
        proof {
            reveal_strlit("");
        }
        match &self.widgets[index].tooltip {
            Some(t) => t.as_str(),
            None => "",
        }
    }

    /// The kind discriminant of the widget at `index`.
    pub fn get_type(&self, index: usize) -> (r: usize)
        requires
            index < self@.len(),
        ensures
            r == spec_kind_tag(self@[index as int].kind),
    {
        match &self.widgets[index].kind {
            WidgetKind::Bool { .. } => 1,
            WidgetKind::Title { .. } => 2,
            WidgetKind::Choice { .. } => 3,
            WidgetKind::FileSelection { .. } => 4,
        }
    }

    /// The resolved value of the boolean widget at `index`: the stored value
    /// when one of the matching variant is present, else the declared
    /// default. A stored value of the wrong variant counts as absent, and a
    /// widget of another kind resolves to false.
    pub fn get_bool(&self, index: usize, map: &SettingsMap) -> (r: bool)
        requires
            index < self@.len(),
        ensures
            r == spec_bool_value(self@[index as int], map@),
    {
        let widget = &self.widgets[index];
        let default_value = match &widget.kind {
            WidgetKind::Bool { default_value } => *default_value,
            _ => {
                return false;
            },
        };
        match map.get(widget.key.as_str()) {
            Some(v) => match v {
                crate::settings::SettingValue::Bool(stored_value) => *stored_value,
                _ => default_value,
            },
            None => default_value,
        }
    }

    /// The option index the choice widget at `index` pre-selects, resolved
    /// through the fallback chain: stored option key, declared default key,
    /// index zero. A widget of another kind resolves to zero.
    pub fn get_choice_current_index(&self, index: usize, map: &SettingsMap) -> (r: usize)
        requires
            index < self@.len(),
        ensures
            r == spec_choice_index(self@[index as int], map@),
    {
        let widget = &self.widgets[index];
        let (default_option_key, options) = match &widget.kind {
            WidgetKind::Choice { default_option_key, options } => (default_option_key, options),
            _ => {
                return 0;
            },
        };
        let effective: &str = match map.get(widget.key.as_str()) {
            Some(v) => match v {
                crate::settings::SettingValue::String(s) => s.as_str(),
                _ => default_option_key.as_str(),
            },
            None => default_option_key.as_str(),
        };
        match find_option(options, effective) {
            Some(i) => i,
            None => match find_option(options, default_option_key.as_str()) {
                Some(i) => i,
                None => 0,
            },
        }
    }

    /// The number of options of the choice widget at `index`; a widget of
    /// another kind has none.
    pub fn get_choice_options_len(&self, index: usize) -> (r: usize)
        requires
            index < self@.len(),
        ensures
            r == match self@[index as int].kind {
                WidgetKindView::Choice { options, .. } => options.len(),
                _ => 0,
            },
    {
        match &self.widgets[index].kind {
            WidgetKind::Choice { options, .. } => options.len(),
            _ => 0,
        }
    }

    /// The key of option `option_index` of the choice widget at `index`; a
    /// widget of another kind yields empty text.
    pub fn get_choice_option_key(&self, index: usize, option_index: usize) -> (r: &str)
        requires
            index < self@.len(),
            self@[index as int].kind matches WidgetKindView::Choice { options, .. }
                ==> option_index < options.len(),
        ensures
            r@ == match self@[index as int].kind {
                WidgetKindView::Choice { options, .. } => options[option_index as int].key,
                _ => Seq::<char>::empty(),
            },
    {
        proof {
            reveal_strlit("");
        }
        match &self.widgets[index].kind {
            WidgetKind::Choice { options, .. } => options[option_index].key.as_str(),
            _ => "",
        }
    }

    /// The label of option `option_index` of the choice widget at `index`; a
    /// widget of another kind yields empty text.
    pub fn get_choice_option_description(&self, index: usize, option_index: usize) -> (r: &str)
        requires
            index < self@.len(),
            self@[index as int].kind matches WidgetKindView::Choice { options, .. }
                ==> option_index < options.len(),
        ensures
            r@ == match self@[index as int].kind {
                WidgetKindView::Choice { options, .. } => options[
                    option_index as int
                ].description,
                _ => Seq::<char>::empty(),
            },
    {
        proof {
            reveal_strlit("");
        }
        match &self.widgets[index].kind {
            WidgetKind::Choice { options, .. } => options[option_index].description.as_str(),
            _ => "",
        }
    }

    /// The nesting depth of the title widget at `index`; a widget of another
    /// kind sits at depth zero.
    pub fn get_heading_level(&self, index: usize) -> (r: u32)
        requires
            index < self@.len(),
        ensures
            r == match self@[index as int].kind {
                WidgetKindView::Title { heading_level } => heading_level,
                _ => 0u32,
            },
    {
        match &self.widgets[index].kind {
            WidgetKind::Title { heading_level } => *heading_level,
            _ => 0,
        }
    }

    /// The file-type filter of the file-selection widget at `index`; a
    /// widget of another kind yields empty text.
    pub fn get_fileselection_filter(&self, index: usize) -> (r: &str)
        requires
            index < self@.len(),
        ensures
            r@ == match self@[index as int].kind {
                WidgetKindView::FileSelection { filter } => filter,
                _ => Seq::<char>::empty(),
            },
    {
        proof {
            reveal_strlit("");
        }
        match &self.widgets[index].kind {
            WidgetKind::FileSelection { filter } => filter.as_str(),
            _ => "",
        }
    }
}

} // verus!
