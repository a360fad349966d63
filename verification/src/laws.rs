use vstd::prelude::*;

use crate::configuration::{combined_flag, SemanticReleaseConfiguration};
use crate::json::JsonValue;
use crate::lookup::spec_is_unsupported_extension;
use crate::manifest::{
    are_members_of, entries_of, entry_of, is_plugins_member, plugins_of, read_members, value_of_entry,
    values_of_entries, SemanticReleaseManifest,
    is_removed, name_set, plugins_after_removal, removal_flag, removes_any, retained, ModifiedFlag,
    SemanticReleasePluginConfiguration,
};

verus! {

/// The length of what is retained never exceeds the length of the list.
pub proof fn lemma_retained_len(
    plugins: Seq<SemanticReleasePluginConfiguration>,
    names: Set<Seq<char>>,
)
    ensures
        retained(plugins, names).len() <= plugins.len(),
    decreases plugins.len(),
{
    if plugins.len() > 0 {
        lemma_retained_len(plugins.drop_last(), names);
    }
}

/// No entry of a plugin named in `names` remains after the removal.
pub proof fn law_removed_plugins_are_gone(
    plugins: Seq<SemanticReleasePluginConfiguration>,
    names: Set<Seq<char>>,
)
    ensures
        forall|i: int|
            0 <= i < retained(plugins, names).len() ==> !is_removed(
                #[trigger] retained(plugins, names)[i],
                names,
            ),
    decreases plugins.len(),
{
    if plugins.len() > 0 {
        let rest = plugins.drop_last();
        law_removed_plugins_are_gone(rest, names);
        let kept = retained(plugins, names);
        assert forall|i: int| 0 <= i < kept.len() implies !is_removed(#[trigger] kept[i], names) by {
            if i < retained(rest, names).len() {
                assert(kept[i] == retained(rest, names)[i]);
            }
        }
    }
}

/// The removal keeps exactly the entries that are not removed, in their
/// order: it is the filter of the list by "not removed".
pub proof fn law_removal_is_filter(
    plugins: Seq<SemanticReleasePluginConfiguration>,
    names: Set<Seq<char>>,
)
    ensures
        retained(plugins, names) == plugins.filter(
            |entry: SemanticReleasePluginConfiguration| !is_removed(entry, names),
        ),
    decreases plugins.len(),
{
    reveal(Seq::filter);
    if plugins.len() > 0 {
        law_removal_is_filter(plugins.drop_last(), names);
    }
}

/// Every entry that is not removed is still there afterwards; in particular
/// an entry that names no plugin is never removed.
pub proof fn law_kept_entries_remain(
    plugins: Seq<SemanticReleasePluginConfiguration>,
    names: Set<Seq<char>>,
)
    ensures
        forall|i: int|
            0 <= i < plugins.len() && !is_removed(#[trigger] plugins[i], names) ==> retained(
                plugins,
                names,
            ).contains(plugins[i]),
        forall|i: int|
            0 <= i < plugins.len() && (#[trigger] plugins[i]).spec_plugin_name() is None
                ==> retained(plugins, names).contains(plugins[i]),
    decreases plugins.len(),
{
    if plugins.len() > 0 {
        let rest = plugins.drop_last();
        law_kept_entries_remain(rest, names);
        let kept = retained(plugins, names);
        assert forall|i: int| 0 <= i < plugins.len() && !is_removed(#[trigger] plugins[i], names)
            implies kept.contains(plugins[i]) by {
            if i < rest.len() {
                assert(rest[i] == plugins[i]);
                assert(retained(rest, names).contains(rest[i]));
                let k = choose|k: int| 0 <= k < retained(rest, names).len() && retained(rest, names)[k] == rest[i];
                assert(kept[k] == retained(rest, names)[k]);
            } else {
                assert(kept[kept.len() - 1] == plugins[i]);
            }
        }
    }
}

/// An empty list of names names no plugin.
pub proof fn law_empty_name_list_names_nothing(to_remove: Seq<String>)
    requires
        to_remove.len() == 0,
    ensures
        name_set(to_remove) == Set::<Seq<char>>::empty(),
{
    assert(name_set(to_remove) =~= Set::<Seq<char>>::empty());
}

/// A list with no entry to remove is kept whole.
pub proof fn law_nothing_to_remove_keeps_all(
    plugins: Seq<SemanticReleasePluginConfiguration>,
    names: Set<Seq<char>>,
)
    requires
        !removes_any(plugins, names),
    ensures
        retained(plugins, names) == plugins,
    decreases plugins.len(),
{
    if plugins.len() > 0 {
        let rest = plugins.drop_last();
        assert(!removes_any(rest, names)) by {
            if removes_any(rest, names) {
                let k = choose|k: int| 0 <= k < rest.len() && is_removed(#[trigger] rest[k], names);
                assert(plugins[k] == rest[k]);
            }
        }
        law_nothing_to_remove_keeps_all(rest, names);
        assert(!is_removed(plugins[plugins.len() - 1], names));
        assert(rest.push(plugins.last()) =~= plugins);
    }
}

/// Removing no names keeps every entry.
pub proof fn law_removing_nothing_keeps_all(plugins: Seq<SemanticReleasePluginConfiguration>)
    ensures
        retained(plugins, Set::empty()) == plugins,
        !removes_any(plugins, Set::empty()),
{
    law_nothing_to_remove_keeps_all(plugins, Set::empty());
}

/// Some entry is removed exactly when the list gets shorter.
pub proof fn law_removal_shortens_iff_removes(
    plugins: Seq<SemanticReleasePluginConfiguration>,
    names: Set<Seq<char>>,
)
    ensures
        removes_any(plugins, names) <==> retained(plugins, names).len() < plugins.len(),
    decreases plugins.len(),
{
    if plugins.len() > 0 {
        let rest = plugins.drop_last();
        law_removal_shortens_iff_removes(rest, names);
        lemma_retained_len(rest, names);
        if removes_any(rest, names) {
            let k = choose|k: int| 0 <= k < rest.len() && is_removed(#[trigger] rest[k], names);
            assert(plugins[k] == rest[k]);
        }
        if removes_any(plugins, names) && !is_removed(plugins.last(), names) {
            let k = choose|k: int| 0 <= k < plugins.len() && is_removed(#[trigger] plugins[k], names);
            assert(rest[k] == plugins[k]);
        }
        if is_removed(plugins.last(), names) {
            assert(is_removed(plugins[plugins.len() - 1], names));
        }
    } else {
        assert(!removes_any(plugins, names));
    }
}

/// Removing the same names again removes nothing more.
pub proof fn law_removal_is_idempotent(
    plugins: Seq<SemanticReleasePluginConfiguration>,
    names: Set<Seq<char>>,
)
    ensures
        !removes_any(retained(plugins, names), names),
        retained(retained(plugins, names), names) == retained(plugins, names),
{
    law_removed_plugins_are_gone(plugins, names);
    let kept = retained(plugins, names);
    assert(!removes_any(kept, names)) by {
        if removes_any(kept, names) {
            let k = choose|k: int| 0 <= k < kept.len() && is_removed(#[trigger] kept[k], names);
        }
    }
    law_nothing_to_remove_keeps_all(kept, names);
}

/// Removing the names in `first` and then those in `second` is removing
/// the names in both at once.
pub proof fn law_removals_compose(
    plugins: Seq<SemanticReleasePluginConfiguration>,
    first: Set<Seq<char>>,
    second: Set<Seq<char>>,
)
    ensures
        retained(retained(plugins, first), second) == retained(plugins, first.union(second)),
    decreases plugins.len(),
{
    if plugins.len() > 0 {
        let rest = plugins.drop_last();
        law_removals_compose(rest, first, second);
        let last = plugins.last();
        assert(is_removed(last, first.union(second)) <==> (is_removed(last, first) || is_removed(
            last,
            second,
        )));
        if !is_removed(last, first) {
            assert(retained(plugins, first).drop_last() =~= retained(rest, first));
            assert(retained(plugins, first).last() == last);
        }
    }
}

/// The flag tells the truth: the removal reports a change exactly when the
/// `plugins` member differs afterwards, and a manifest without a `plugins`
/// member is never changed.
pub proof fn law_flag_reports_change(
    plugins: Option<Seq<SemanticReleasePluginConfiguration>>,
    names: Set<Seq<char>>,
)
    ensures
        removal_flag(plugins, names) == ModifiedFlag::Modified <==> plugins_after_removal(
            plugins,
            names,
        ) != plugins,
        plugins is None ==> plugins_after_removal(plugins, names) is None && removal_flag(
            plugins,
            names,
        ) == ModifiedFlag::Unmodified,
{
    if let Some(ps) = plugins {
        law_removal_shortens_iff_removes(ps, names);
        if !removes_any(ps, names) {
            law_nothing_to_remove_keeps_all(ps, names);
        }
    }
}

/// A second removal of the same names reports no change and changes
/// nothing.
pub proof fn law_second_removal_changes_nothing(
    plugins: Option<Seq<SemanticReleasePluginConfiguration>>,
    names: Set<Seq<char>>,
)
    ensures
        plugins_after_removal(plugins_after_removal(plugins, names), names) == plugins_after_removal(
            plugins,
            names,
        ),
        removal_flag(plugins_after_removal(plugins, names), names) == ModifiedFlag::Unmodified,
{
    if let Some(ps) = plugins {
        law_removal_is_idempotent(ps, names);
    }
}

/// Once a configuration is modified it stays modified, and an operation that
/// changes nothing leaves the flag as it was.
pub proof fn law_modified_is_sticky(before: ModifiedFlag, step: ModifiedFlag)
    ensures
        before == ModifiedFlag::Modified ==> combined_flag(before, step) == ModifiedFlag::Modified,
        step == ModifiedFlag::Unmodified ==> combined_flag(before, step) == before,
        combined_flag(before, step) == ModifiedFlag::Modified <==> (before == ModifiedFlag::Modified
            || step == ModifiedFlag::Modified),
{
}

/// The `plugins` member and the flag after removing, one call after the
/// other, the names in each set of `steps`, starting from the `plugins`
/// member as read and an unmodified flag.
pub open spec fn after_removals(
    plugins: Option<Seq<SemanticReleasePluginConfiguration>>,
    steps: Seq<Set<Seq<char>>>,
) -> (Option<Seq<SemanticReleasePluginConfiguration>>, ModifiedFlag)
    decreases steps.len(),
{
    if steps.len() == 0 {
        (plugins, ModifiedFlag::Unmodified)
    } else {
        let (before, flag) = after_removals(plugins, steps.drop_last());
        (
            plugins_after_removal(before, steps.last()),
            combined_flag(flag, removal_flag(before, steps.last())),
        )
    }
}

/// What the flag says after a run of removals, in the form that carries
/// from one removal to the next.
proof fn lemma_after_removals_tracked(
    plugins: Option<Seq<SemanticReleasePluginConfiguration>>,
    steps: Seq<Set<Seq<char>>>,
)
    ensures
        ({
            let (now, flag) = after_removals(plugins, steps);
            match (plugins, now) {
                (None, None) => flag == ModifiedFlag::Unmodified,
                (Some(read), Some(current)) => if flag == ModifiedFlag::Unmodified {
                    current == read
                } else {
                    current.len() < read.len()
                },
                _ => false,
            }
        }),
    decreases steps.len(),
{
    if steps.len() > 0 {
        lemma_after_removals_tracked(plugins, steps.drop_last());
        let (before, flag) = after_removals(plugins, steps.drop_last());
        if let Some(current) = before {
            let names = steps.last();
            law_removal_shortens_iff_removes(current, names);
            lemma_retained_len(current, names);
            if !removes_any(current, names) {
                law_nothing_to_remove_keeps_all(current, names);
            }
        }
    }
}

/// After any run of removals on a manifest as read, the configuration is
/// marked modified exactly when its `plugins` member differs from the one
/// read: the flag is set when some entry is removed and never cleared.
pub proof fn law_flag_after_removals(
    plugins: Option<Seq<SemanticReleasePluginConfiguration>>,
    steps: Seq<Set<Seq<char>>>,
)
    ensures
        after_removals(plugins, steps).1 == ModifiedFlag::Modified <==> after_removals(
            plugins,
            steps,
        ).0 != plugins,
{
    lemma_after_removals_tracked(plugins, steps);
}

/// A configuration whose flag keeps track of its changes (as every
/// configuration made by `new` and changed only by removals does) is marked
/// modified exactly when its `plugins` member differs from the one read.
pub proof fn law_dirty_iff_plugins_changed(configuration: &SemanticReleaseConfiguration)
    requires
        configuration.changes_tracked(),
    ensures
        configuration.spec_dirty() == ModifiedFlag::Modified <==> configuration.spec_manifest().plugin_entries()
            != configuration.spec_read_plugins(),
{
}

/// Members none of which is a `plugins` list are all kept, in their order.
proof fn lemma_read_other_members(members: Seq<(String, JsonValue)>)
    requires
        forall|i: int| 0 <= i < members.len() ==> !is_plugins_member(#[trigger] members[i]),
    ensures
        read_members(members) == Some((None::<Seq<SemanticReleasePluginConfiguration>>, members)),
    decreases members.len(),
{
    if members.len() > 0 {
        let rest = members.drop_last();
        assert forall|i: int| 0 <= i < rest.len() implies !is_plugins_member(#[trigger] rest[i]) by {
            assert(rest[i] == members[i]);
        }
        lemma_read_other_members(rest);
        assert(!is_plugins_member(members[members.len() - 1]));
        assert(rest.push(members.last()) =~= members);
    }
}

/// Reading back the members of a well-formed manifest (as every manifest
/// read from members is) gives the manifest back.
pub proof fn law_members_round_trip(manifest: SemanticReleaseManifest, members: Seq<(String, JsonValue)>)
    requires
        are_members_of(manifest, members),
        manifest.well_formed(),
    ensures
        read_members(members) == Some((manifest.plugin_entries(), manifest.other_fields@)),
{
    let others = manifest.other_fields@;
    lemma_read_other_members(others);
    if let Some(entries) = manifest.plugin_entries() {
        assert(members.drop_last() =~= others);
        let last = members.last();
        if let JsonValue::Array(items) = last.1 {
            assert(items@ == values_of_entries(entries));
            assert forall|i: int| 0 <= i < items@.len() implies (#[trigger] entry_of(items@[i])) is Some
                && entry_of(items@[i])->0 == entries[i] by {
                assert(items@[i] == value_of_entry(entries[i]));
            }
            assert(entries_of(items@) == Some(entries)) by {
                assert(Seq::new(items@.len(), |i: int| entry_of(items@[i])->0) =~= entries);
            }
        }
    }
}

/// A name is among the names to remove exactly when it equals one of them:
/// a prefix or other near match of a requested name does not count.
pub proof fn law_names_match_exactly(names: Seq<String>, name: Seq<char>)
    ensures
        name_set(names).contains(name) <==> exists|j: int| 0 <= j < names.len() && names[j]@ == name,
{
}

/// The plugin an entry names: a bare string names itself; an array names the
/// string that is its first element, whatever else follows (possibly
/// nothing); an empty array, or one whose first element is not a string,
/// names no plugin.
pub proof fn law_plugin_name_of_entries(name: String, items: Seq<JsonValue>)
    ensures
        SemanticReleasePluginConfiguration::WithoutConfiguration(name).spec_plugin_name() == Some(name@),
        forall|v: Vec<JsonValue>|
            #![trigger SemanticReleasePluginConfiguration::WithConfiguration(v).spec_plugin_name()]
            v@ == items ==> SemanticReleasePluginConfiguration::WithConfiguration(v).spec_plugin_name() == (
            if items.len() > 0 && items[0] is Str {
                Some(items[0]->Str_0@)
            } else {
                None
            }),
{
}

/// An entry is removed exactly when the plugin it names (the bare string, or
/// the string that starts its array) equals one of the names to remove.
pub proof fn law_entry_removed_iff_named(entry: SemanticReleasePluginConfiguration, names: Seq<String>)
    ensures
        is_removed(entry, name_set(names)) <==> match entry {
            SemanticReleasePluginConfiguration::WithoutConfiguration(s) =>
                exists|j: int| 0 <= j < names.len() && names[j]@ == s@,
            SemanticReleasePluginConfiguration::WithConfiguration(items) => items@.len() > 0
                && items@[0] is Str && exists|j: int|
                0 <= j < names.len() && names[j]@ == items@[0]->Str_0@,
        },
{
}

/// A present file extension is refused exactly when it is not `json`, the
/// only supported extension; a file without an extension is accepted.
pub proof fn law_only_json_is_supported(extension: Seq<char>)
    ensures
        spec_is_unsupported_extension(Some(extension)) <==> extension != "json"@,
        !spec_is_unsupported_extension(None),
{
    assert(seq!["json"@][0] == "json"@);
}

/// A member is the `plugins` list exactly when it is named `plugins` and its
/// value is not null.
pub proof fn law_plugins_member_is_named_plugins(member: (String, JsonValue))
    ensures
        is_plugins_member(member) <==> (member.0@ == "plugins"@ && !(member.1 is Null)),
{
}

/// The entries of a `plugins` value: it must be an array, and each item, in
/// order, a string (a bare plugin name) or an array (a configured plugin);
/// otherwise the value is refused.
pub proof fn law_plugins_value_entries(value: JsonValue)
    ensures
        plugins_of(value) is Some <==> (value is Array && forall|i: int|
            0 <= i < value->Array_0@.len() ==> (#[trigger] value->Array_0@[i] is Str
                || value->Array_0@[i] is Array)),
        plugins_of(value) matches Some(entries) ==> entries.len() == value->Array_0@.len()
            && forall|i: int| 0 <= i < entries.len() ==> match #[trigger] value->Array_0@[i] {
                JsonValue::Str(s) => entries[i] == SemanticReleasePluginConfiguration::WithoutConfiguration(s),
                JsonValue::Array(a) => entries[i] == SemanticReleasePluginConfiguration::WithConfiguration(a),
                _ => false,
            },
{
    if let JsonValue::Array(items) = value {
        if plugins_of(value) is Some {
            assert forall|i: int| 0 <= i < items@.len() implies (#[trigger] items@[i] is Str
                || items@[i] is Array) by {
                assert(entry_of(items@[i]) is Some);
            }
        } else {
            assert(!(forall|i: int| 0 <= i < items@.len() ==> (#[trigger] entry_of(items@[i])) is Some));
            let k = choose|k: int| 0 <= k < items@.len() && !(#[trigger] entry_of(items@[k]) is Some);
            assert(!(items@[k] is Str || items@[k] is Array));
        }
    }
}

/// Reading members keeps every member that is not the `plugins` list, in
/// order and wherever the `plugins` member stands; it refuses exactly the
/// members with a `plugins` member whose value is not a list of entries;
/// and without a `plugins` member there is no `plugins` list.
pub proof fn law_read_members_keeps_other_members(members: Seq<(String, JsonValue)>)
    ensures
        read_members(members) matches Some((plugins, others)) ==> others == members.filter(
            |m: (String, JsonValue)| !is_plugins_member(m),
        ),
        read_members(members) is None <==> exists|i: int|
            0 <= i < members.len() && is_plugins_member(#[trigger] members[i]) && plugins_of(members[i].1) is None,
        (forall|i: int| 0 <= i < members.len() ==> !is_plugins_member(#[trigger] members[i]))
            ==> read_members(members) is Some && (read_members(members)->0).0 is None,
    decreases members.len(),
{
    reveal(Seq::filter);
    if members.len() > 0 {
        let rest = members.drop_last();
        law_read_members_keeps_other_members(rest);
        let last = members.last();
        if exists|i: int| 0 <= i < rest.len() && is_plugins_member(#[trigger] rest[i]) && plugins_of(rest[i].1) is None {
            let k = choose|k: int| 0 <= k < rest.len() && is_plugins_member(#[trigger] rest[k]) && plugins_of(rest[k].1) is None;
            assert(members[k] == rest[k]);
        }
        if exists|i: int| 0 <= i < members.len() && is_plugins_member(#[trigger] members[i]) && plugins_of(members[i].1) is None {
            let k = choose|k: int| 0 <= k < members.len() && is_plugins_member(#[trigger] members[k]) && plugins_of(members[k].1) is None;
            if k < rest.len() {
                assert(rest[k] == members[k]);
            }
        }
        if forall|i: int| 0 <= i < members.len() ==> !is_plugins_member(#[trigger] members[i]) {
            assert forall|i: int| 0 <= i < rest.len() implies !is_plugins_member(#[trigger] rest[i]) by {
                assert(rest[i] == members[i]);
            }
            assert(!is_plugins_member(members[members.len() - 1]));
        }
    }
}

} // verus!
