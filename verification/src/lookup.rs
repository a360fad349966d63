use vstd::prelude::*;
use find_semantic_release_config::Error as SearchError;

verus! {

/// The error that the search for a semantic-release configuration reports.
#[verifier::external_type_specification]
#[verifier::external_body]
pub struct ExSearchError(SearchError);

/// What `std::path::Path::extension` gives for the path with this text,
/// taken as text.
pub uninterp spec fn path_extension_of(path: Seq<char>) -> Option<Seq<char>>;

/// What the `Debug` format of `std::path::Path` writes for the path with
/// this text.
pub uninterp spec fn path_debug_text(path: Seq<char>) -> Seq<char>;

/// The extension of the file name of `path`, without its leading dot.
///
/// Calls `std::path::Path::extension` on the path with this text and takes
/// the extension as text.  The contract only names the result.
#[verifier::external_body]
fn path_extension(path: &str) -> (extension: Option<String>)
    ensures
        match extension {
            Some(e) => path_extension_of(path@) == Some(e@),
            None => path_extension_of(path@) is None,
        },
{
    match std::path::Path::new(path).extension() {
        Some(e) => Some(e.to_string_lossy().into_owned()),
        None => None,
    }
}

/// The `Debug` text of the path whose text is `path`: `format!("{:?}", ..)`
/// of a `std::path::Path`.  The contract only names the result.
#[verifier::external_body]
fn path_debug(path: &str) -> (text: String)
    ensures
        text@ == path_debug_text(path@),
{
    format!("{:?}", std::path::Path::new(path))
}

/// The texts of a sequence of string slices.
pub open spec fn str_views(items: Seq<&str>) -> Seq<Seq<char>> {
    items.map_values(|s: &str| s@)
}

/// The file extensions of manifests that can be edited.
pub open spec fn spec_supported_file_types() -> Seq<Seq<char>> {
    seq!["json"@]
}

/// The file extensions of manifests that can be edited.
pub fn supported_file_types() -> (types: Vec<&'static str>)
    ensures
        str_views(types@) == spec_supported_file_types(),
{
    let types = vec!["json"];
    assert(str_views(types@) =~= spec_supported_file_types());
    types
}

/// Whether `extension` is one of the supported file extensions.
pub fn is_supported_file_type(extension: &str) -> (supported: bool)
    ensures
        supported == spec_supported_file_types().contains(extension@),
{
    let types = supported_file_types();
    let wanted = extension.to_string();
    let mut i: usize = 0;
    while i < types.len()
        invariant
            i <= types.len(),
            str_views(types@) == spec_supported_file_types(),
            wanted@ == extension@,
            forall|k: int| 0 <= k < i ==> spec_supported_file_types()[k] != extension@,
        decreases types.len() - i,
    {
        let candidate = types[i].to_string();
        assert(spec_supported_file_types()[i as int] == types@[i as int]@);
        if candidate == wanted {
            return true;
        }
        i = i + 1;
    }
    false
}

/// Whether a file whose extension is `extension` is refused: a file with an
/// extension is refused unless that extension is supported, and a file
/// without one is accepted.
pub open spec fn spec_is_unsupported_extension(extension: Option<Seq<char>>) -> bool {
    match extension {
        Some(e) => !spec_supported_file_types().contains(e),
        None => false,
    }
}

/// Whether a file whose extension is `extension` is refused.
pub fn is_unsupported_extension(extension: &Option<String>) -> (unsupported: bool)
    ensures
        match extension {
            Some(e) => unsupported == (e@ != "json"@),
            None => !unsupported,
        },
        unsupported == spec_is_unsupported_extension(
            match extension {
                Some(e) => Some(e@),
                None => None,
            },
        ),
{
    proof {
        if let Some(e) = extension {
            crate::laws::law_only_json_is_supported(e@);
        }
    }
    match extension {
        Some(e) => !is_supported_file_type(e.as_str()),
        None => false,
    }
}

/// Whether the manifest at `config` has a file extension that is refused.
pub fn is_unsupported_file_extension(config: &str) -> (unsupported: bool)
    ensures
        unsupported == spec_is_unsupported_extension(path_extension_of(config@)),
{
    let extension = path_extension(config);
    is_unsupported_extension(&extension)
}

/// Why no manifest can be edited.
#[derive(Debug)]
pub enum LookupErrorKind {
    /// Searching the directory failed.
    FindConfiguration(SearchError),
    /// The directory holds no semantic-release configuration.
    MissingConfiguration { directory: String },
    /// The configuration's file extension is not supported.
    UnsupportedFileExtension { extension: Option<String> },
}

/// Why no manifest can be edited.
#[derive(Debug)]
pub struct LookupError {
    pub kind: LookupErrorKind,
}

/// The message that describes a lookup error, as a spec value.  The list
/// of supported extensions is written as `Debug` writes `["json"]`.
pub open spec fn lookup_error_message(kind: LookupErrorKind) -> Seq<char> {
    match kind {
        LookupErrorKind::FindConfiguration(_) => "unable to find semantic-release configuration"@,
        LookupErrorKind::MissingConfiguration { directory } =>
            "directory does not contain semantic-release configuration: "@
                + path_debug_text(directory@),
        LookupErrorKind::UnsupportedFileExtension { extension } =>
            "unsupported file extension "@
                + path_debug_text(
                    match extension {
                        Some(e) => e@,
                        None => Seq::empty(),
                    },
                )
                + "\n"@
                + "Currently configure-semantic-release-manifest only supports the following extensions: "@
                + "[\"json\"]"@,
    }
}

impl LookupError {
    /// The message that describes this error.
    pub fn message(&self) -> (text: String)
        ensures
            text@ == lookup_error_message(self.kind),
    {
        match &self.kind {
            LookupErrorKind::FindConfiguration(_) =>
                "unable to find semantic-release configuration".to_string(),
            LookupErrorKind::MissingConfiguration { directory } => {
                let mut text = "directory does not contain semantic-release configuration: ".to_string();
                let shown = path_debug(directory.as_str());
                text.append(shown.as_str());
                text
            },
            LookupErrorKind::UnsupportedFileExtension { extension } => {
                let mut text = "unsupported file extension ".to_string();
                let shown = match extension {
                    Some(e) => path_debug(e.as_str()),
                    None => {
                        proof {
                            reveal_strlit("");
                            assert(""@ =~= Seq::<char>::empty());
                        }
                        path_debug("")
                    },
                };
                text.append(shown.as_str());
                text.append("\n");
                text.append(
                    "Currently configure-semantic-release-manifest only supports the following extensions: ",
                );
                text.append("[\"json\"]");
                text
            },
        }
    }
}

/// The path of the semantic-release configuration of `directory`, given
/// what the search of that directory found: the search's error, no
/// configuration, or the path of one.
pub fn find_semantic_release_config(
    directory: &str,
    search: Result<Option<String>, SearchError>,
) -> (config: Result<String, LookupError>)
    ensures
        match search {
            Ok(Some(path)) => config matches Ok(p) && p@ == path@,
            Ok(None) => config matches Err(LookupError {
                kind: LookupErrorKind::MissingConfiguration { directory: d },
            }) && d@ == directory@,
            Err(e) => config matches Err(LookupError {
                kind: LookupErrorKind::FindConfiguration(inner),
            }) && inner == e,
        },
{
    match search {
        Ok(Some(path)) => Ok(path),
        Ok(None) => Err(LookupError {
            kind: LookupErrorKind::MissingConfiguration { directory: directory.to_string() },
        }),
        Err(e) => Err(LookupError { kind: LookupErrorKind::FindConfiguration(e) }),
    }
}

/// Accepts the manifest at `config` when its file extension is supported,
/// and otherwise reports that extension.
pub fn check_file_extension(config: &str) -> (checked: Result<(), LookupError>)
    ensures
        checked is Ok <==> !spec_is_unsupported_extension(path_extension_of(config@)),
        checked matches Err(e) ==> e.kind matches LookupErrorKind::UnsupportedFileExtension {
            extension: x,
        } && match x {
            Some(s) => path_extension_of(config@) == Some(s@),
            None => path_extension_of(config@) is None,
        },
{
    let extension = path_extension(config);
    if is_unsupported_extension(&extension) {
        Err(LookupError { kind: LookupErrorKind::UnsupportedFileExtension { extension } })
    } else {
        Ok(())
    }
}

} // verus!
