use vstd::prelude::*;

use crate::error::Error;
use crate::json::JsonValue;

verus! {

/// Where a modified manifest is written.
#[derive(Debug)]
pub enum WriteTo {
    Stdout,
    InPlace,
}

/// Whether an operation changed the manifest.
#[derive(Clone, Copy, Debug, PartialEq, Eq, Structural)]
pub enum ModifiedFlag {
    Unmodified,
    Modified,
}

/// One entry of the `plugins` list of a semantic-release manifest: either
/// the plugin's name alone, or an array whose first element names the plugin
/// and whose further elements configure it.
#[derive(Clone, Debug, PartialEq)]
pub enum SemanticReleasePluginConfiguration {
    WithoutConfiguration(String),
    WithConfiguration(Vec<JsonValue>),
}

impl SemanticReleasePluginConfiguration {
    /// The name of the plugin that this entry configures, if it names one.
    pub open spec fn spec_plugin_name(self) -> Option<Seq<char>> {
        match self {
            SemanticReleasePluginConfiguration::WithoutConfiguration(value) => Some(value@),
            SemanticReleasePluginConfiguration::WithConfiguration(array) => {
                if array@.len() > 0 {
                    array@[0].spec_as_str()
                } else {
                    None
                }
            },
        }
    }

    /// The name of the plugin that this entry configures: the string itself,
    /// or the first element of the array when that element is a string.
    pub fn plugin_name(&self) -> (name: Option<&str>)
        ensures
            match name {
                Some(n) => self.spec_plugin_name() == Some(n@),
                None => self.spec_plugin_name() is None,
            },
            match self {
                SemanticReleasePluginConfiguration::WithoutConfiguration(v) => name matches Some(n)
                    && n@ == v@,
                SemanticReleasePluginConfiguration::WithConfiguration(a) => if a@.len() > 0
                    && a@[0] is Str {
                    name matches Some(n) && n@ == a@[0]->Str_0@
                } else {
                    name is None
                },
            },
    {
        match self {
            SemanticReleasePluginConfiguration::WithoutConfiguration(value) => Some(value.as_str()),
            SemanticReleasePluginConfiguration::WithConfiguration(array) => {
                if array.len() > 0 {
                    array[0].as_str()
                } else {
                    None
                }
            },
        }
    }
}

/// A semantic-release manifest: its `plugins` list, if it has one, and the
/// manifest's other top-level members, which are carried through unchanged.
#[derive(Clone, Debug, PartialEq)]
pub struct SemanticReleaseManifest {
    pub plugins: Option<Vec<SemanticReleasePluginConfiguration>>,
    pub other_fields: Vec<(String, JsonValue)>,
}

/// The plugin names held by a list of strings.
pub open spec fn name_set(names: Seq<String>) -> Set<Seq<char>> {
    Set::new(|n: Seq<char>| exists|j: int| 0 <= j < names.len() && #[trigger] names[j]@ == n)
}

/// Whether removing the plugins named in `names` removes this entry: it is
/// removed exactly when it names a plugin and that name is in `names`.
/// An entry that names no plugin is never removed.
pub open spec fn is_removed(entry: SemanticReleasePluginConfiguration, names: Set<Seq<char>>) -> bool {
    match entry.spec_plugin_name() {
        Some(name) => names.contains(name),
        None => false,
    }
}

/// The entries of `plugins` that are not removed, in their original order.
pub open spec fn retained(
    plugins: Seq<SemanticReleasePluginConfiguration>,
    names: Set<Seq<char>>,
) -> Seq<SemanticReleasePluginConfiguration>
    decreases plugins.len(),
{
    if plugins.len() == 0 {
        Seq::empty()
    } else {
        let rest = retained(plugins.drop_last(), names);
        if is_removed(plugins.last(), names) {
            rest
        } else {
            rest.push(plugins.last())
        }
    }
}

/// Whether some entry of `plugins` is removed.
pub open spec fn removes_any(
    plugins: Seq<SemanticReleasePluginConfiguration>,
    names: Set<Seq<char>>,
) -> bool {
    exists|i: int| 0 <= i < plugins.len() && is_removed(#[trigger] plugins[i], names)
}

/// The `plugins` member as a sequence, if there is one.
pub open spec fn plugins_view(
    plugins: Option<Vec<SemanticReleasePluginConfiguration>>,
) -> Option<Seq<SemanticReleasePluginConfiguration>> {
    match plugins {
        Some(v) => Some(v@),
        None => None,
    }
}

/// The `plugins` member after removing the plugins named in `names`.
pub open spec fn plugins_after_removal(
    plugins: Option<Seq<SemanticReleasePluginConfiguration>>,
    names: Set<Seq<char>>,
) -> Option<Seq<SemanticReleasePluginConfiguration>> {
    match plugins {
        Some(ps) => Some(retained(ps, names)),
        None => None,
    }
}

/// Whether removing the plugins named in `names` changes the `plugins` member.
pub open spec fn removal_flag(
    plugins: Option<Seq<SemanticReleasePluginConfiguration>>,
    names: Set<Seq<char>>,
) -> ModifiedFlag {
    match plugins {
        Some(ps) => if removes_any(ps, names) {
            ModifiedFlag::Modified
        } else {
            ModifiedFlag::Unmodified
        },
        None => ModifiedFlag::Unmodified,
    }
}

impl SemanticReleasePluginConfiguration {
    /// The name of the plugin as a borrowed `String`, for comparisons.
    fn name_ref(&self) -> (name: Option<&String>)
        ensures
            match name {
                Some(n) => self.spec_plugin_name() == Some(n@),
                None => self.spec_plugin_name() is None,
            },
    {
        match self {
            SemanticReleasePluginConfiguration::WithoutConfiguration(value) => Some(value),
            SemanticReleasePluginConfiguration::WithConfiguration(array) => {
                if array.len() > 0 {
                    match &array[0] {
                        JsonValue::Str(s) => Some(s),
                        _ => None,
                    }
                } else {
                    None
                }
            },
        }
    }
}

/// Whether `name` is one of `names`.
fn contains_name(names: &Vec<String>, name: &String) -> (found: bool)
    ensures
        found == name_set(names@).contains(name@),
        found == exists|j: int| 0 <= j < names@.len() && names@[j]@ == name@,
{
    let mut j: usize = 0;
    while j < names.len()
        invariant
            j <= names.len(),
            forall|k: int| 0 <= k < j ==> names@[k]@ != name@,
        decreases names.len() - j,
    {
        if names[j] == *name {
            assert(names@[j as int]@ == name@);
            return true;
        }
        j = j + 1;
    }
    false
}

impl SemanticReleaseManifest {
    /// The `plugins` member as a sequence, if there is one.
    pub open spec fn plugin_entries(&self) -> Option<Seq<SemanticReleasePluginConfiguration>> {
        plugins_view(self.plugins)
    }

    /// Removes every plugin entry whose plugin is named in `to_remove`.
    ///
    /// Entries that name no plugin, and entries of plugins not named in
    /// `to_remove`, stay in their order; the other members of the manifest
    /// are unchanged.  The flag tells whether some entry was removed.  A
    /// manifest without a `plugins` member is left as it is.
    pub fn remove_plugin_configuration(&mut self, to_remove: Vec<String>) -> (result: Result<ModifiedFlag, Error>)
        ensures
            final(self).plugin_entries() == plugins_after_removal(old(self).plugin_entries(), name_set(to_remove@)),
            final(self).other_fields == old(self).other_fields,
            result == Ok::<ModifiedFlag, Error>(removal_flag(old(self).plugin_entries(), name_set(to_remove@))),
    {
        let ghost names = name_set(to_remove@);
        let mut dirty = ModifiedFlag::Unmodified;
        match self.plugins.take() {
            None => {},
            Some(plugins) => {
                let ghost original = plugins@;
                let mut kept: Vec<SemanticReleasePluginConfiguration> = Vec::new();
                for entry in it: plugins.into_iter()
                    invariant
                        it.seq() == original,
                        names == name_set(to_remove@),
                        kept@ == retained(original.take(it.index() as int), names),
                        dirty == ModifiedFlag::Modified <==> removes_any(original.take(it.index() as int), names),
                {
                    let ghost i = it.index() as int;
                    assert(original.take(i + 1).drop_last() =~= original.take(i));
                    let removed = match entry.name_ref() {
                        Some(name) => contains_name(&to_remove, name),
                        None => false,
                    };
                    if removed {
                        dirty = ModifiedFlag::Modified;
                    } else {
                        kept.push(entry);
                    }
                    assert(dirty == ModifiedFlag::Modified <==> removes_any(original.take(i + 1), names)) by {
                        if removes_any(original.take(i), names) {
                            let k = choose|k: int| 0 <= k < i && is_removed(#[trigger] original.take(i)[k], names);
                            assert(original.take(i + 1)[k] == original.take(i)[k]);
                        }
                        if removes_any(original.take(i + 1), names) && !removed {
                            let k = choose|k: int| 0 <= k < i + 1 && is_removed(#[trigger] original.take(i + 1)[k], names);
                            assert(original.take(i)[k] == original.take(i + 1)[k]);
                        }
                        if removed {
                            assert(is_removed(original.take(i + 1)[i], names));
                        }
                    }
                }
                assert(original.take(original.len() as int) =~= original);
                self.plugins = Some(kept);
            },
        }
        Ok(dirty)
    }
}

/// Whether a top-level member of a manifest is its `plugins` list: a member
/// named `plugins` whose value is not null.  A null `plugins` member is kept
/// with the other members.
pub open spec fn is_plugins_member(member: (String, JsonValue)) -> bool {
    member.0@ == "plugins"@ && !(member.1 is Null)
}

/// The plugin entry that a JSON value stands for: a string names a plugin,
/// an array names and configures one, and nothing else is an entry.
pub open spec fn entry_of(value: JsonValue) -> Option<SemanticReleasePluginConfiguration> {
    match value {
        JsonValue::Str(name) => Some(SemanticReleasePluginConfiguration::WithoutConfiguration(name)),
        JsonValue::Array(items) => Some(SemanticReleasePluginConfiguration::WithConfiguration(items)),
        _ => None,
    }
}

/// The entries that the items of a `plugins` array stand for, if every
/// item is an entry.
pub open spec fn entries_of(items: Seq<JsonValue>) -> Option<Seq<SemanticReleasePluginConfiguration>> {
    if forall|i: int| 0 <= i < items.len() ==> (#[trigger] entry_of(items[i])) is Some {
        Some(Seq::new(items.len(), |i: int| entry_of(items[i])->0))
    } else {
        None
    }
}

/// The entries that the value of a `plugins` member stands for, if it is an
/// array of entries.
pub open spec fn plugins_of(value: JsonValue) -> Option<Seq<SemanticReleasePluginConfiguration>> {
    match value {
        JsonValue::Array(items) => entries_of(items@),
        _ => None,
    }
}

/// The `plugins` list and the other members of a manifest made of these
/// top-level members, in their order, or nothing when a `plugins` member is
/// not a list of entries.  Of several `plugins` members the last one counts.
pub open spec fn read_members(
    members: Seq<(String, JsonValue)>,
) -> Option<(Option<Seq<SemanticReleasePluginConfiguration>>, Seq<(String, JsonValue)>)>
    decreases members.len(),
{
    if members.len() == 0 {
        Some((None, Seq::empty()))
    } else {
        match read_members(members.drop_last()) {
            None => None,
            Some((plugins, others)) => {
                let member = members.last();
                if is_plugins_member(member) {
                    match plugins_of(member.1) {
                        Some(entries) => Some((Some(entries), others)),
                        None => None,
                    }
                } else {
                    Some((plugins, others.push(member)))
                }
            },
        }
    }
}

/// The JSON value that stands for a plugin entry.
pub open spec fn value_of_entry(entry: SemanticReleasePluginConfiguration) -> JsonValue {
    match entry {
        SemanticReleasePluginConfiguration::WithoutConfiguration(name) => JsonValue::Str(name),
        SemanticReleasePluginConfiguration::WithConfiguration(items) => JsonValue::Array(items),
    }
}

/// The JSON values that stand for a list of plugin entries.
pub open spec fn values_of_entries(entries: Seq<SemanticReleasePluginConfiguration>) -> Seq<JsonValue> {
    entries.map_values(|e: SemanticReleasePluginConfiguration| value_of_entry(e))
}

/// Whether `members` are the top-level members of `manifest`: its other
/// members, in their order, followed by a `plugins` member holding the JSON
/// values of its entries when it has a `plugins` list.
pub open spec fn are_members_of(manifest: SemanticReleaseManifest, members: Seq<(String, JsonValue)>) -> bool {
    match manifest.plugin_entries() {
        None => members == manifest.other_fields@,
        Some(entries) => {
            &&& members.len() == manifest.other_fields@.len() + 1
            &&& members.take(manifest.other_fields@.len() as int) == manifest.other_fields@
            &&& members.last().0@ == "plugins"@
            &&& members.last().1 matches JsonValue::Array(items)
            &&& items@ == values_of_entries(entries)
        },
    }
}

/// The entries that the items of a `plugins` array stand for.
fn entries_from_items(items: Vec<JsonValue>) -> (entries: Option<Vec<SemanticReleasePluginConfiguration>>)
    ensures
        match entries_of(items@) {
            Some(e) => entries matches Some(v) && v@ == e,
            None => entries is None,
        },
{
    let ghost original = items@;
    let mut entries: Vec<SemanticReleasePluginConfiguration> = Vec::new();
    for item in it: items.into_iter()
        invariant
            it.seq() == original,
            entries@.len() == it.index(),
            forall|k: int| 0 <= k < it.index() ==> (#[trigger] entry_of(original[k])) is Some,
            forall|k: int| 0 <= k < it.index() ==> entries@[k] == entry_of(original[k])->0,
    {
        let ghost i = it.index() as int;
        match item {
            JsonValue::Str(name) => {
                entries.push(SemanticReleasePluginConfiguration::WithoutConfiguration(name));
            },
            JsonValue::Array(parts) => {
                entries.push(SemanticReleasePluginConfiguration::WithConfiguration(parts));
            },
            _ => {
                assert(entry_of(original[i]) is None);
                return None;
            },
        }
    }
    assert(entries@ =~= Seq::new(original.len(), |i: int| entry_of(original[i])->0));
    Some(entries)
}

impl SemanticReleaseManifest {
    /// Whether only the `plugins` list holds the plugins: no other member is
    /// named `plugins` with a value other than null.
    pub open spec fn well_formed(&self) -> bool {
        forall|k: int| 0 <= k < self.other_fields@.len() ==> !is_plugins_member(#[trigger] self.other_fields@[k])
    }

    /// The manifest made of these top-level members: the last member named
    /// `plugins` whose value is not null gives the `plugins` list, which must
    /// be an array of plugin names and `[name, options...]` arrays; the other
    /// members are kept, in their order.  When a `plugins` member is not such
    /// a list there is no manifest.
    pub fn from_members(members: Vec<(String, JsonValue)>) -> (manifest: Option<Self>)
        ensures
            match read_members(members@) {
                Some((plugins, others)) => manifest matches Some(m) && m.plugin_entries() == plugins
                    && m.other_fields@ == others && m.well_formed(),
                None => manifest is None,
            },
            manifest matches Some(m) ==> m.other_fields@ == members@.filter(
                |m: (String, JsonValue)| !is_plugins_member(m),
            ),
    {
        let ghost original = members@;
        proof {
            crate::laws::law_read_members_keeps_other_members(original);
        }
        let plugins_key = "plugins".to_string();
        let mut plugins: Option<Vec<SemanticReleasePluginConfiguration>> = None;
        let mut other_fields: Vec<(String, JsonValue)> = Vec::new();
        for member in it: members.into_iter()
            invariant
                it.seq() == original,
                plugins_key@ == "plugins"@,
                read_members(original.take(it.index() as int)) == Some(
                    (plugins_view(plugins), other_fields@),
                ),
                forall|k: int| 0 <= k < other_fields@.len() ==> !is_plugins_member(#[trigger] other_fields@[k]),
        {
            let ghost i = it.index() as int;
            assert(original.take(i + 1).drop_last() =~= original.take(i));
            let (key, value) = member;
            let is_plugins = key == plugins_key && !matches!(value, JsonValue::Null);
            if is_plugins {
                let entries = match value {
                    JsonValue::Array(items) => entries_from_items(items),
                    _ => None,
                };
                match entries {
                    Some(e) => {
                        plugins = Some(e);
                    },
                    None => {
                        assert(read_members(original.take(i + 1)) is None);
                        assert(read_members(original) is None) by {
                            lemma_read_members_fails_later(original, i + 1);
                        }
                        return None;
                    },
                }
            } else {
                other_fields.push((key, value));
            }
        }
        assert(original.take(original.len() as int) =~= original);
        Some(SemanticReleaseManifest { plugins, other_fields })
    }

    /// The top-level members of this manifest: its other members, in their
    /// order, followed by a `plugins` member holding the entries when it has
    /// a `plugins` list.
    pub fn into_members(self) -> (members: Vec<(String, JsonValue)>)
        ensures
            are_members_of(self, members@),
    {
        let ghost old_fields = self.other_fields@;
        let ghost old_plugins = self.plugin_entries();
        let SemanticReleaseManifest { plugins, other_fields } = self;
        let mut members = other_fields;
        match plugins {
            None => {},
            Some(entries) => {
                let ghost original = entries@;
                let mut items: Vec<JsonValue> = Vec::new();
                for entry in it: entries.into_iter()
                    invariant
                        it.seq() == original,
                        items@ == values_of_entries(original.take(it.index() as int)),
                {
                    let ghost i = it.index() as int;
                    let value = match entry {
                        SemanticReleasePluginConfiguration::WithoutConfiguration(name) => JsonValue::Str(name),
                        SemanticReleasePluginConfiguration::WithConfiguration(parts) => JsonValue::Array(parts),
                    };
                    items.push(value);
                    assert(items@ =~= values_of_entries(original.take(i + 1)));
                }
                assert(original.take(original.len() as int) =~= original);
                members.push(("plugins".to_string(), JsonValue::Array(items)));
                assert(members@.take(old_fields.len() as int) =~= old_fields);
            },
        }
        members
    }
}

/// Once reading a prefix of the members fails, reading all of them fails.
proof fn lemma_read_members_fails_later(members: Seq<(String, JsonValue)>, n: int)
    requires
        0 <= n <= members.len(),
        read_members(members.take(n)) is None,
    ensures
        read_members(members) is None,
    decreases members.len() - n,
{
    if n < members.len() {
        assert(members.take(n + 1).drop_last() =~= members.take(n));
        lemma_read_members_fails_later(members, n + 1);
    } else {
        assert(members.take(n) =~= members);
    }
}

} // verus!
