//! Epic Games manifests: the JSON files that describe installed games.
//!
//! The caller reads the files; the functions here take their text.

use vstd::prelude::*;
use vstd::string::*;
use serde_json::Value;
use crate::config::text_of;
use crate::discovery::{DiscoveredApp, DiscoveredAppView};
use crate::steam::found;
use crate::text::{chars_of, file_name_any_separator, file_name_either, string_of};

verus! {

/// What the launcher reads of a manifest. A field is `None` if the
/// manifest does not have it or has it with another type.
#[derive(Clone, Debug, PartialEq, Eq)]
pub struct EpicManifest {
    /// `bIsApplication`, a boolean.
    pub is_application: Option<bool>,
    /// `DisplayName`, a string.
    pub display_name: Option<String>,
    /// `AppName`, a string.
    pub app_name: Option<String>,
    /// `CatalogNamespace`, a string.
    pub catalog_namespace: Option<String>,
    /// `CatalogItemId`, a string.
    pub catalog_item_id: Option<String>,
    /// `LaunchExecutable`, a string.
    pub launch_executable: Option<String>,
}

pub struct EpicManifestView {
    pub is_application: Option<bool>,
    pub display_name: Option<Seq<char>>,
    pub app_name: Option<Seq<char>>,
    pub catalog_namespace: Option<Seq<char>>,
    pub catalog_item_id: Option<Seq<char>>,
    pub launch_executable: Option<Seq<char>>,
}

impl View for EpicManifest {
    type V = EpicManifestView;

    open spec fn view(&self) -> EpicManifestView {
        EpicManifestView {
            is_application: self.is_application,
            display_name: text_of(self.display_name),
            app_name: text_of(self.app_name),
            catalog_namespace: text_of(self.catalog_namespace),
            catalog_item_id: text_of(self.catalog_item_id),
            launch_executable: text_of(self.launch_executable),
        }
    }
}

/// The view of an optional manifest.
pub open spec fn read(manifest: Option<EpicManifest>) -> Option<EpicManifestView> {
    match manifest {
        Some(m) => Some(m@),
        None => None,
    }
}

/// The fields that `serde_json` reads from a text: `None` if the text is
/// not JSON, else the six fields as `Value::get` finds them and `as_bool`
/// and `as_str` take them.
pub uninterp spec fn manifest_fields(content: Seq<char>) -> Option<EpicManifestView>;

/// Parses the text with `serde_json::from_str` into a `Value` and takes
/// the six fields out of it with `Value::get`, `as_bool` and `as_str`. The
/// contract only names the result: the same text always gives the same
/// fields. `None` means that the text is not JSON.
#[verifier::external_body]
fn read_manifest(content: &str) -> (fields: Option<EpicManifest>)
    ensures
        read(fields) == manifest_fields(content@),
{
    let json: Value = serde_json::from_str(content).ok()?;
    Some(EpicManifest {
        is_application: json.get("bIsApplication").and_then(Value::as_bool),
        display_name: json.get("DisplayName").and_then(Value::as_str).map(String::from),
        app_name: json.get("AppName").and_then(Value::as_str).map(String::from),
        catalog_namespace: json.get("CatalogNamespace").and_then(Value::as_str).map(String::from),
        catalog_item_id: json.get("CatalogItemId").and_then(Value::as_str).map(String::from),
        launch_executable: json.get("LaunchExecutable").and_then(Value::as_str).map(String::from),
    })
}

/// The application that the fields of a manifest describe. `None` if the
/// manifest says that it is no application, if the display name, the app
/// name, the namespace or the item id is missing, or if the display name
/// is empty. The target is the launcher URI made of namespace, item id and
/// app name; the process name is the file name of the launch executable.
pub open spec fn epic_app(manifest: EpicManifestView) -> Option<DiscoveredAppView> {
    if manifest.is_application == Some(false) || manifest.display_name is None
        || manifest.app_name is None || manifest.catalog_namespace is None
        || manifest.catalog_item_id is None || manifest.display_name->0.len() == 0 {
        None
    } else {
        Some(
            DiscoveredAppView {
                name: manifest.display_name->0,
                target: "com.epicgames.launcher://apps/"@ + manifest.catalog_namespace->0 + "%3A"@
                    + manifest.catalog_item_id->0 + "%3A"@ + manifest.app_name->0
                    + "?action=launch"@,
                process_name: match manifest.launch_executable {
                    Some(path) => match file_name_either(path) {
                        Some(name) => name,
                        None => seq![],
                    },
                    None => seq![],
                },
                source: "epic"@,
            },
        )
    }
}

/// The application that the fields of a manifest describe.
pub fn app_of_manifest(manifest: &EpicManifest) -> (app: Option<DiscoveredApp>)
    ensures
        found(app) == epic_app(manifest@),
{
    if let Some(false) = manifest.is_application {
        return None;
    }
    let (name, app_name, namespace, item_id) = match (
        &manifest.display_name,
        &manifest.app_name,
        &manifest.catalog_namespace,
        &manifest.catalog_item_id,
    ) {
        (Some(a), Some(b), Some(c), Some(d)) => (a, b, c, d),
        _ => {
            return None;
        },
    };
    if name.as_str().is_empty() {
        return None;
    }
    let mut target = "com.epicgames.launcher://apps/".to_string();
    target.append(namespace.as_str());
    target.append("%3A");
    target.append(item_id.as_str());
    target.append("%3A");
    target.append(app_name.as_str());
    target.append("?action=launch");
    let process_name = match &manifest.launch_executable {
        Some(path) => match file_name_any_separator(&chars_of(path.as_str())) {
            Some(n) => string_of(&n),
            None => String::new(),
        },
        None => String::new(),
    };
    Some(DiscoveredApp { name: name.clone(), target, process_name, source: "epic".to_string() })
}

/// Reads the text of a manifest: `None` if the text is not JSON, else what
/// `app_of_manifest` makes of its fields.
pub fn parse_epic_manifest(content: &str) -> (app: Option<DiscoveredApp>)
    ensures
        found(app) == match manifest_fields(content@) {
            Some(fields) => epic_app(fields),
            None => None,
        },
{
    match read_manifest(content) {
        Some(manifest) => app_of_manifest(&manifest),
        None => None,
    }
}

/// Whether a file of this name in the manifest directory is a manifest:
/// its extension is `item`.
pub fn is_manifest_file(name: &str) -> (yes: bool)
    ensures
        yes == crate::installed::has_extension(name@, "item"@),
{
    crate::installed::extension_is(&chars_of(name), "item")
}

} // verus!
