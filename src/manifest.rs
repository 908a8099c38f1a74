use vstd::prelude::*;

verus! {

/// What an extension declares about itself in its manifest file.
#[derive(Debug, Clone, PartialEq, Eq)]
pub struct ExtensionManifest {
    pub id: String,
    pub name: String,
    pub description: String,
    pub keyword: String,
    pub settings: Option<Vec<ExtensionManifestSetting>>,
    pub os: String,
}

/// One setting that an extension declares, with its default value.
#[derive(Debug, Clone, PartialEq, Eq)]
pub struct ExtensionManifestSetting {
    pub id: String,
    pub title: String,
    pub description: String,
    pub setting_type: ExtensionManifestSettingType,
    pub default_value: String,
    pub show_conditions: Option<Vec<ExtensionManifestShowCondition>>,
    pub select_options: Option<Vec<ExtensionManifestSelectOption>>,
    pub os: String,
}

#[derive(Debug, Clone, Copy, PartialEq, Eq)]
pub enum ExtensionManifestSettingType {
    Input,
    TextArea,
    Select,
    Toggle,
}

/// A setting is shown only while another setting holds the given value.
#[derive(Debug, Clone, PartialEq, Eq)]
pub struct ExtensionManifestShowCondition {
    pub setting_id: String,
    pub setting_value: String,
}

#[derive(Debug, Clone, PartialEq, Eq)]
pub struct ExtensionManifestSelectOption {
    pub id: String,
    pub text: String,
}

/// A manifest that declares no settings.
pub fn default_settings() -> (r: Option<Vec<ExtensionManifestSetting>>)
    ensures
        r is None,
{
    None
}

/// The platform filter that matches every platform.
pub fn default_os() -> (r: String)
    ensures
        r@ == "*"@,
{
    String::from_str("*")
}

pub fn default_show_conditions() -> (r: Option<Vec<ExtensionManifestShowCondition>>)
    ensures
        r is None,
{
    None
}

pub fn default_select_options() -> (r: Option<Vec<ExtensionManifestSelectOption>>)
    ensures
        r is None,
{
    None
}

} // verus!
