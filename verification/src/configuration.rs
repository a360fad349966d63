use vstd::prelude::*;

use crate::error::Error;
use crate::manifest::{
    name_set, plugins_after_removal, plugins_view, removal_flag, ModifiedFlag,
    SemanticReleaseManifest, SemanticReleasePluginConfiguration, WriteTo,
};

verus! {

/// A manifest together with the file it was read from and whether it has
/// been changed since.
pub struct SemanticReleaseConfiguration {
    manifest: SemanticReleaseManifest,
    manifest_path: String,
    dirty: ModifiedFlag,
    read_plugins: Ghost<Option<Seq<SemanticReleasePluginConfiguration>>>,
}

/// Where a configuration's manifest is to be written.
#[derive(Debug)]
pub enum WriteDestination {
    /// To standard output.
    Stdout,
    /// Over the file at this path.
    File(String),
}

/// The flag after an operation with outcome `step` on a configuration whose
/// flag was `before`: once modified, a configuration stays modified.
pub open spec fn combined_flag(before: ModifiedFlag, step: ModifiedFlag) -> ModifiedFlag {
    if step == ModifiedFlag::Modified {
        ModifiedFlag::Modified
    } else {
        before
    }
}

impl SemanticReleaseConfiguration {
    /// The manifest held by this configuration.
    pub closed spec fn spec_manifest(&self) -> SemanticReleaseManifest {
        self.manifest
    }

    /// The path of the file that the manifest was read from.
    pub closed spec fn spec_manifest_path(&self) -> Seq<char> {
        self.manifest_path@
    }

    /// Whether the manifest has been changed since it was read.
    pub closed spec fn spec_dirty(&self) -> ModifiedFlag {
        self.dirty
    }

    /// The `plugins` member of the manifest as it was read.
    pub closed spec fn spec_read_plugins(&self) -> Option<Seq<SemanticReleasePluginConfiguration>> {
        self.read_plugins@
    }

    /// The flag keeps track of the changes: an unmodified configuration
    /// still holds the `plugins` member as it was read, and a modified one
    /// holds a strictly shorter list than the one read.
    pub open spec fn changes_tracked(&self) -> bool {
        match (self.spec_read_plugins(), self.spec_manifest().plugin_entries()) {
            (None, None) => self.spec_dirty() == ModifiedFlag::Unmodified,
            (Some(read), Some(now)) => if self.spec_dirty() == ModifiedFlag::Unmodified {
                now == read
            } else {
                now.len() < read.len()
            },
            _ => false,
        }
    }

    /// The configuration of a manifest just read from `manifest_path`:
    /// nothing has been changed yet.
    pub fn new(manifest: SemanticReleaseManifest, manifest_path: String) -> (configuration: Self)
        ensures
            configuration.spec_manifest() == manifest,
            configuration.spec_manifest_path() == manifest_path@,
            configuration.spec_dirty() == ModifiedFlag::Unmodified,
            configuration.spec_read_plugins() == manifest.plugin_entries(),
            configuration.changes_tracked(),
    {
        let read_plugins = Ghost(plugins_view(manifest.plugins));
        SemanticReleaseConfiguration {
            manifest,
            manifest_path,
            dirty: ModifiedFlag::Unmodified,
            read_plugins,
        }
    }

    /// The manifest held by this configuration.
    pub fn manifest(&self) -> (manifest: &SemanticReleaseManifest)
        ensures
            *manifest == self.spec_manifest(),
    {
        &self.manifest
    }

    /// The path of the file that the manifest was read from.
    pub fn manifest_path(&self) -> (path: &str)
        ensures
            path@ == self.spec_manifest_path(),
    {
        self.manifest_path.as_str()
    }

    /// Whether the manifest has been changed since it was read.
    pub fn dirty(&self) -> (flag: ModifiedFlag)
        ensures
            flag == self.spec_dirty(),
    {
        self.dirty
    }

    /// Removes every plugin entry whose plugin is named in `to_remove` from
    /// the manifest, and marks the configuration modified when that removed
    /// something.
    pub fn remove_plugin_configuration(&mut self, to_remove: Vec<String>) -> (result: Result<(), Error>)
        ensures
            result is Ok,
            final(self).spec_manifest().plugin_entries() == plugins_after_removal(
                old(self).spec_manifest().plugin_entries(),
                name_set(to_remove@),
            ),
            final(self).spec_manifest().other_fields == old(self).spec_manifest().other_fields,
            final(self).spec_manifest_path() == old(self).spec_manifest_path(),
            final(self).spec_dirty() == combined_flag(
                old(self).spec_dirty(),
                removal_flag(old(self).spec_manifest().plugin_entries(), name_set(to_remove@)),
            ),
            final(self).spec_read_plugins() == old(self).spec_read_plugins(),
            old(self).changes_tracked() ==> final(self).changes_tracked(),
    {
        let ghost names = name_set(to_remove@);
        proof {
            if let Some(now) = self.manifest.plugin_entries() {
                crate::laws::law_removal_shortens_iff_removes(now, names);
                crate::laws::lemma_retained_len(now, names);
                if !crate::manifest::removes_any(now, names) {
                    crate::laws::law_nothing_to_remove_keeps_all(now, names);
                }
            }
        }
        let modified = match self.manifest.remove_plugin_configuration(to_remove) {
            Ok(flag) => flag,
            Err(e) => return Err(e),
        };
        if modified == ModifiedFlag::Modified {
            self.dirty = ModifiedFlag::Modified;
        }
        Ok(())
    }

    /// Where the manifest is to be written for `write_to`: nowhere when it
    /// has not been changed, else to standard output or over the file that
    /// it was read from.
    pub fn write_if_modified(&self, write_to: WriteTo) -> (destination: Option<WriteDestination>)
        ensures
            self.spec_dirty() == ModifiedFlag::Unmodified ==> destination is None,
            self.spec_dirty() == ModifiedFlag::Modified ==> match write_to {
                WriteTo::Stdout => destination matches Some(WriteDestination::Stdout),
                WriteTo::InPlace => destination matches Some(WriteDestination::File(p))
                    && p@ == self.spec_manifest_path(),
            },
    {
        match self.dirty {
            ModifiedFlag::Unmodified => None,
            ModifiedFlag::Modified => match write_to {
                WriteTo::Stdout => Some(WriteDestination::Stdout),
                WriteTo::InPlace => Some(WriteDestination::File(self.manifest_path.clone())),
            },
        }
    }
}

} // verus!
