use vstd::prelude::*;

use crate::text::{push_text, text_pushed};

verus! {

/// What an extension returns for a search.
#[derive(Debug, Clone, PartialEq, Eq)]
pub struct SearchResults {
    pub view_type: SearchViewType,
    pub results: Vec<SearchResult>,
}

#[derive(Debug, Clone, Copy, PartialEq, Eq)]
pub enum SearchViewType {
    Grid,
    List,
}

/// One entry of the results, with the action that choosing it runs.
#[derive(Debug, Clone, PartialEq, Eq)]
pub struct SearchResult {
    pub icon: Option<String>,
    pub icon_tint: Option<String>,
    pub title: String,
    pub description: Option<String>,
    pub action: ResultAction,
}

/// An action: `action_type` says which payload it carries, and only that payload
/// is present.
#[derive(Debug, Clone, PartialEq, Eq)]
pub struct ResultAction {
    pub action_type: ActionType,
    /// The host asks for confirmation before it runs a dangerous action.
    pub dangerous: bool,
    pub copy_text_action: Option<CopyTextAction>,
    pub copy_image_action: Option<CopyImageAction>,
    pub open_link_action: Option<OpenLinkAction>,
    pub open_app_action: Option<OpenAppAction>,
    pub open_form_action: Option<OpenFormAction>,
    pub run_extension_action: Option<RunExtensionAction>,
}

#[derive(Debug, Clone, Copy, PartialEq, Eq)]
pub enum ActionType {
    CopyText,
    CopyImage,
    OpenLink,
    OpenApp,
    OpenForm,
    RunExtension,
    DoNothing,
}

#[derive(Debug, Clone, PartialEq, Eq)]
pub struct CopyTextAction {
    pub text: String,
}

#[derive(Debug, Clone, PartialEq, Eq)]
pub struct CopyImageAction {
    pub image_path: String,
}

#[derive(Debug, Clone, PartialEq, Eq)]
pub struct OpenLinkAction {
    pub link: String,
}

#[derive(Debug, Clone, PartialEq, Eq)]
pub struct OpenAppAction {
    pub app_id: String,
}

/// A form that an extension asks the host to show; `fields` are in display order.
#[derive(Debug, Clone, PartialEq, Eq)]
pub struct OpenFormAction {
    pub extension_id: String,
    pub command: String,
    pub title: String,
    pub fields: Vec<FormField>,
    pub args: Vec<String>,
    pub action_text: String,
}

#[derive(Debug, Clone, PartialEq, Eq)]
pub struct RunExtensionAction {
    pub extension_id: String,
    pub command: String,
    pub args: Vec<String>,
}

/// A field of a form: `field_type` says which payload it carries, and only that
/// payload is present.
#[derive(Debug, Clone, PartialEq, Eq)]
pub struct FormField {
    pub id: String,
    pub field_type: FormFieldType,
    pub args: Vec<String>,
    pub input_field: Option<FormInputField>,
    pub text_area_field: Option<FormTextAreaField>,
    pub toggle_field: Option<FormToggleField>,
    pub select_field: Option<FormSelectField>,
    pub file_picker_field: Option<FormFilePickerField>,
    pub folder_picker_field: Option<FormFolderPickerField>,
}

#[derive(Debug, Clone, Copy, PartialEq, Eq)]
pub enum FormFieldType {
    Input,
    TextArea,
    Toggle,
    Select,
    FilePicker,
    FolderPicker,
}

#[derive(Debug, Clone, PartialEq, Eq)]
pub struct FormInputField {
    pub title: String,
    pub description: String,
    pub text: String,
    pub placeholder: String,
    pub validation: Option<Vec<FormValidation>>,
}

#[derive(Debug, Clone, Copy, PartialEq, Eq)]
pub enum FormValidation {
    IsNumber,
    IsNotEmpty,
}

#[derive(Debug, Clone, PartialEq, Eq)]
pub struct FormTextAreaField {
    pub title: String,
    pub description: String,
    pub text: String,
    pub placeholder: String,
    pub validation: Option<FormValidation>,
}

#[derive(Debug, Clone, PartialEq, Eq)]
pub struct FormToggleField {
    pub title: String,
    pub description: String,
    pub toggled: bool,
}

#[derive(Debug, Clone, PartialEq, Eq)]
pub struct FormSelectField {
    pub title: String,
    pub description: String,
    pub selected_option_id: String,
    pub options: Vec<FormSelectOption>,
}

#[derive(Debug, Clone, PartialEq, Eq)]
pub struct FormSelectOption {
    pub id: String,
    pub text: String,
}

#[derive(Debug, Clone, PartialEq, Eq)]
pub struct FormFilePickerField {
    pub title: String,
    pub description: String,
    pub file_path: Option<String>,
    pub file_types: Option<Vec<String>>,
    pub validation: Option<FormValidation>,
}

#[derive(Debug, Clone, PartialEq, Eq)]
pub struct FormFolderPickerField {
    pub title: String,
    pub description: String,
    pub folder_path: Option<String>,
    pub validation: Option<FormValidation>,
}

impl SearchResults {
    pub fn new_grid_results(results: Vec<SearchResult>) -> (r: Self)
        ensures
            r == (SearchResults { view_type: SearchViewType::Grid, results }),
    {
        SearchResults { view_type: SearchViewType::Grid, results }
    }

    pub fn new_list_results(results: Vec<SearchResult>) -> (r: Self)
        ensures
            r == (SearchResults { view_type: SearchViewType::List, results }),
    {
        SearchResults { view_type: SearchViewType::List, results }
    }

    pub fn set_view_type(self, view_type: SearchViewType) -> (r: Self)
        ensures
            r == (SearchResults { view_type, ..self }),
    {
        SearchResults { view_type, ..self }
    }

    pub fn set_results(self, results: Vec<SearchResult>) -> (r: Self)
        ensures
            r == (SearchResults { results, ..self }),
    {
        SearchResults { results, ..self }
    }
}

impl SearchResult {
    /// A result with a title and an action, and no icon, tint or description.
    pub fn new(title: &str, action: ResultAction) -> (r: Self)
        ensures
            r.title@ == title@,
            r.action == action,
            r.icon is None,
            r.icon_tint is None,
            r.description is None,
    {
        SearchResult {
            icon: None,
            icon_tint: None,
            title: String::from_str(title),
            description: None,
            action,
        }
    }

    /// Sets the path of the icon file.
    pub fn set_icon(self, path: &str) -> (r: Self)
        ensures
            r == (SearchResult { icon: r.icon, ..self }),
            r.icon is Some && r.icon->0@ == path@,
    {
        SearchResult { icon: Some(String::from_str(path)), ..self }
    }

    /// Tints the icon with the theme's accent colour.
    pub fn set_accent_icon_tint(self) -> (r: Self)
        ensures
            r == (SearchResult { icon_tint: r.icon_tint, ..self }),
            r.icon_tint is Some && r.icon_tint->0@ == "accent"@,
    {
        SearchResult { icon_tint: Some(String::from_str("accent")), ..self }
    }

    pub fn set_icon_tint(self, tint: &str) -> (r: Self)
        ensures
            r == (SearchResult { icon_tint: r.icon_tint, ..self }),
            r.icon_tint is Some && r.icon_tint->0@ == tint@,
    {
        SearchResult { icon_tint: Some(String::from_str(tint)), ..self }
    }

    pub fn set_title(self, title: &str) -> (r: Self)
        ensures
            r == (SearchResult { title: r.title, ..self }),
            r.title@ == title@,
    {
        SearchResult { title: String::from_str(title), ..self }
    }

    pub fn set_description(self, description: &str) -> (r: Self)
        ensures
            r == (SearchResult { description: r.description, ..self }),
            r.description is Some && r.description->0@ == description@,
    {
        SearchResult { description: Some(String::from_str(description)), ..self }
    }

    pub fn set_action(self, action: ResultAction) -> (r: Self)
        ensures
            r == (SearchResult { action, ..self }),
    {
        SearchResult { action, ..self }
    }
}

impl ResultAction {
    /// Exactly the payload that `action_type` names is present.
    pub open spec fn wf(&self) -> bool {
        &&& (self.copy_text_action is Some <==> self.action_type == ActionType::CopyText)
        &&& (self.copy_image_action is Some <==> self.action_type == ActionType::CopyImage)
        &&& (self.open_link_action is Some <==> self.action_type == ActionType::OpenLink)
        &&& (self.open_app_action is Some <==> self.action_type == ActionType::OpenApp)
        &&& (self.open_form_action is Some <==> self.action_type == ActionType::OpenForm)
        &&& (self.run_extension_action is Some <==> self.action_type == ActionType::RunExtension)
    }

    pub fn new_copy_text_action(action: CopyTextAction) -> (r: Self)
        ensures
            r.wf(),
            r == (ResultAction {
                action_type: ActionType::CopyText,
                dangerous: false,
                copy_text_action: Some(action),
                copy_image_action: None,
                open_link_action: None,
                open_app_action: None,
                open_form_action: None,
                run_extension_action: None,
            }),
    {
        ResultAction {
            action_type: ActionType::CopyText,
            dangerous: false,
            copy_text_action: Some(action),
            copy_image_action: None,
            open_link_action: None,
            open_app_action: None,
            open_form_action: None,
            run_extension_action: None,
        }
    }

    pub fn new_copy_image_action(action: CopyImageAction) -> (r: Self)
        ensures
            r.wf(),
            r == (ResultAction {
                action_type: ActionType::CopyImage,
                dangerous: false,
                copy_text_action: None,
                copy_image_action: Some(action),
                open_link_action: None,
                open_app_action: None,
                open_form_action: None,
                run_extension_action: None,
            }),
    {
        ResultAction {
            action_type: ActionType::CopyImage,
            dangerous: false,
            copy_text_action: None,
            copy_image_action: Some(action),
            open_link_action: None,
            open_app_action: None,
            open_form_action: None,
            run_extension_action: None,
        }
    }

    pub fn new_open_link_action(action: OpenLinkAction) -> (r: Self)
        ensures
            r.wf(),
            r == (ResultAction {
                action_type: ActionType::OpenLink,
                dangerous: false,
                copy_text_action: None,
                copy_image_action: None,
                open_link_action: Some(action),
                open_app_action: None,
                open_form_action: None,
                run_extension_action: None,
            }),
    {
        ResultAction {
            action_type: ActionType::OpenLink,
            dangerous: false,
            copy_text_action: None,
            copy_image_action: None,
            open_link_action: Some(action),
            open_app_action: None,
            open_form_action: None,
            run_extension_action: None,
        }
    }

    pub fn new_open_app_action(action: OpenAppAction) -> (r: Self)
        ensures
            r.wf(),
            r == (ResultAction {
                action_type: ActionType::OpenApp,
                dangerous: false,
                copy_text_action: None,
                copy_image_action: None,
                open_link_action: None,
                open_app_action: Some(action),
                open_form_action: None,
                run_extension_action: None,
            }),
    {
        ResultAction {
            action_type: ActionType::OpenApp,
            dangerous: false,
            copy_text_action: None,
            copy_image_action: None,
            open_link_action: None,
            open_app_action: Some(action),
            open_form_action: None,
            run_extension_action: None,
        }
    }

    pub fn new_open_form_action(action: OpenFormAction) -> (r: Self)
        ensures
            r.wf(),
            r == (ResultAction {
                action_type: ActionType::OpenForm,
                dangerous: false,
                copy_text_action: None,
                copy_image_action: None,
                open_link_action: None,
                open_app_action: None,
                open_form_action: Some(action),
                run_extension_action: None,
            }),
    {
        ResultAction {
            action_type: ActionType::OpenForm,
            dangerous: false,
            copy_text_action: None,
            copy_image_action: None,
            open_link_action: None,
            open_app_action: None,
            open_form_action: Some(action),
            run_extension_action: None,
        }
    }

    pub fn new_run_extension_action(action: RunExtensionAction) -> (r: Self)
        ensures
            r.wf(),
            r == (ResultAction {
                action_type: ActionType::RunExtension,
                dangerous: false,
                copy_text_action: None,
                copy_image_action: None,
                open_link_action: None,
                open_app_action: None,
                open_form_action: None,
                run_extension_action: Some(action),
            }),
    {
        ResultAction {
            action_type: ActionType::RunExtension,
            dangerous: false,
            copy_text_action: None,
            copy_image_action: None,
            open_link_action: None,
            open_app_action: None,
            open_form_action: None,
            run_extension_action: Some(action),
        }
    }

    pub fn new_do_nothing_action() -> (r: Self)
        ensures
            r.wf(),
            r == (ResultAction {
                action_type: ActionType::DoNothing,
                dangerous: false,
                copy_text_action: None,
                copy_image_action: None,
                open_link_action: None,
                open_app_action: None,
                open_form_action: None,
                run_extension_action: None,
            }),
    {
        ResultAction {
            action_type: ActionType::DoNothing,
            dangerous: false,
            copy_text_action: None,
            copy_image_action: None,
            open_link_action: None,
            open_app_action: None,
            open_form_action: None,
            run_extension_action: None,
        }
    }

    pub fn set_dangerous(self, dangerous: bool) -> (r: Self)
        ensures
            r == (ResultAction { dangerous, ..self }),
            self.wf() ==> r.wf(),
    {
        ResultAction { dangerous, ..self }
    }
}

impl CopyTextAction {
    pub fn new(text: &str) -> (r: Self)
        ensures
            r.text@ == text@,
    {
        CopyTextAction { text: String::from_str(text) }
    }
}

impl CopyImageAction {
    /// An action that copies the image file at `path`.
    pub fn new(path: &str) -> (r: Self)
        ensures
            r.image_path@ == path@,
    {
        CopyImageAction { image_path: String::from_str(path) }
    }
}

impl OpenLinkAction {
    pub fn new(link: &str) -> (r: Self)
        ensures
            r.link@ == link@,
    {
        OpenLinkAction { link: String::from_str(link) }
    }
}

impl OpenAppAction {
    pub fn new(app_id: &str) -> (r: Self)
        ensures
            r.app_id@ == app_id@,
    {
        OpenAppAction { app_id: String::from_str(app_id) }
    }
}

impl OpenFormAction {
    /// A form titled "Extension Form" with an "Ok" button and no arguments; the
    /// fields keep their order.
    pub fn new(extension_id: &str, command: &str, fields: Vec<FormField>) -> (r: Self)
        ensures
            r.extension_id@ == extension_id@,
            r.command@ == command@,
            r.title@ == "Extension Form"@,
            r.fields == fields,
            r.action_text@ == "Ok"@,
            r.args@.len() == 0,
    {
        OpenFormAction {
            extension_id: String::from_str(extension_id),
            command: String::from_str(command),
            title: String::from_str("Extension Form"),
            fields,
            action_text: String::from_str("Ok"),
            args: Vec::new(),
        }
    }

    pub fn set_title(self, title: &str) -> (r: Self)
        ensures
            r == (OpenFormAction { title: r.title, ..self }),
            r.title@ == title@,
    {
        OpenFormAction { title: String::from_str(title), ..self }
    }

    pub fn set_action_text(self, text: &str) -> (r: Self)
        ensures
            r == (OpenFormAction { action_text: r.action_text, ..self }),
            r.action_text@ == text@,
    {
        OpenFormAction { action_text: String::from_str(text), ..self }
    }

    pub fn add_arg(self, arg: &str) -> (r: Self)
        ensures
            r == (OpenFormAction { args: r.args, ..self }),
            text_pushed(self.args@, r.args@, arg@),
    {
        let mut r = self;
        push_text(&mut r.args, arg);
        r
    }

    pub fn set_args(self, args: Vec<String>) -> (r: Self)
        ensures
            r == (OpenFormAction { args, ..self }),
    {
        OpenFormAction { args, ..self }
    }
}

impl RunExtensionAction {
    /// An action that runs `command` of an extension, with no arguments yet.
    pub fn new(extension_id: &str, command: &str) -> (r: Self)
        ensures
            r.extension_id@ == extension_id@,
            r.command@ == command@,
            r.args@.len() == 0,
    {
        RunExtensionAction {
            extension_id: String::from_str(extension_id),
            command: String::from_str(command),
            args: Vec::new(),
        }
    }

    pub fn add_arg(self, arg: &str) -> (r: Self)
        ensures
            r == (RunExtensionAction { args: r.args, ..self }),
            text_pushed(self.args@, r.args@, arg@),
    {
        let mut r = self;
        push_text(&mut r.args, arg);
        r
    }

    pub fn set_args(self, args: Vec<String>) -> (r: Self)
        ensures
            r == (RunExtensionAction { args, ..self }),
    {
        RunExtensionAction { args, ..self }
    }
}

impl FormField {
    /// Exactly the payload that `field_type` names is present.
    pub open spec fn wf(&self) -> bool {
        &&& (self.input_field is Some <==> self.field_type == FormFieldType::Input)
        &&& (self.text_area_field is Some <==> self.field_type == FormFieldType::TextArea)
        &&& (self.toggle_field is Some <==> self.field_type == FormFieldType::Toggle)
        &&& (self.select_field is Some <==> self.field_type == FormFieldType::Select)
        &&& (self.file_picker_field is Some <==> self.field_type == FormFieldType::FilePicker)
        &&& (self.folder_picker_field is Some <==> self.field_type == FormFieldType::FolderPicker)
    }

    pub fn new_input_field(id: &str, field: FormInputField) -> (r: Self)
        ensures
            r.wf(),
            r.id@ == id@,
            r.field_type == FormFieldType::Input,
            r.args@.len() == 0,
            r.input_field == Some(field),
            r.text_area_field is None,
            r.toggle_field is None,
            r.select_field is None,
            r.file_picker_field is None,
            r.folder_picker_field is None,
    {
        FormField {
            id: String::from_str(id),
            field_type: FormFieldType::Input,
            args: Vec::new(),
            input_field: Some(field),
            text_area_field: None,
            toggle_field: None,
            select_field: None,
            file_picker_field: None,
            folder_picker_field: None,
        }
    }

    pub fn new_text_area_field(id: &str, field: FormTextAreaField) -> (r: Self)
        ensures
            r.wf(),
            r.id@ == id@,
            r.field_type == FormFieldType::TextArea,
            r.args@.len() == 0,
            r.input_field is None,
            r.text_area_field == Some(field),
            r.toggle_field is None,
            r.select_field is None,
            r.file_picker_field is None,
            r.folder_picker_field is None,
    {
        FormField {
            id: String::from_str(id),
            field_type: FormFieldType::TextArea,
            args: Vec::new(),
            input_field: None,
            text_area_field: Some(field),
            toggle_field: None,
            select_field: None,
            file_picker_field: None,
            folder_picker_field: None,
        }
    }

    pub fn new_toggle_field(id: &str, field: FormToggleField) -> (r: Self)
        ensures
            r.wf(),
            r.id@ == id@,
            r.field_type == FormFieldType::Toggle,
            r.args@.len() == 0,
            r.input_field is None,
            r.text_area_field is None,
            r.toggle_field == Some(field),
            r.select_field is None,
            r.file_picker_field is None,
            r.folder_picker_field is None,
    {
        FormField {
            id: String::from_str(id),
            field_type: FormFieldType::Toggle,
            args: Vec::new(),
            input_field: None,
            text_area_field: None,
            toggle_field: Some(field),
            select_field: None,
            file_picker_field: None,
            folder_picker_field: None,
        }
    }

    pub fn new_select_field(id: &str, field: FormSelectField) -> (r: Self)
        ensures
            r.wf(),
            r.id@ == id@,
            r.field_type == FormFieldType::Select,
            r.args@.len() == 0,
            r.input_field is None,
            r.text_area_field is None,
            r.toggle_field is None,
            r.select_field == Some(field),
            r.file_picker_field is None,
            r.folder_picker_field is None,
    {
        FormField {
            id: String::from_str(id),
            field_type: FormFieldType::Select,
            args: Vec::new(),
            input_field: None,
            text_area_field: None,
            toggle_field: None,
            select_field: Some(field),
            file_picker_field: None,
            folder_picker_field: None,
        }
    }

    pub fn new_file_picker_field(id: &str, field: FormFilePickerField) -> (r: Self)
        ensures
            r.wf(),
            r.id@ == id@,
            r.field_type == FormFieldType::FilePicker,
            r.args@.len() == 0,
            r.input_field is None,
            r.text_area_field is None,
            r.toggle_field is None,
            r.select_field is None,
            r.file_picker_field == Some(field),
            r.folder_picker_field is None,
    {
        FormField {
            id: String::from_str(id),
            field_type: FormFieldType::FilePicker,
            args: Vec::new(),
            input_field: None,
            text_area_field: None,
            toggle_field: None,
            select_field: None,
            file_picker_field: Some(field),
            folder_picker_field: None,
        }
    }

    pub fn new_folder_picker_field(id: &str, field: FormFolderPickerField) -> (r: Self)
        ensures
            r.wf(),
            r.id@ == id@,
            r.field_type == FormFieldType::FolderPicker,
            r.args@.len() == 0,
            r.input_field is None,
            r.text_area_field is None,
            r.toggle_field is None,
            r.select_field is None,
            r.file_picker_field is None,
            r.folder_picker_field == Some(field),
    {
        FormField {
            id: String::from_str(id),
            field_type: FormFieldType::FolderPicker,
            args: Vec::new(),
            input_field: None,
            text_area_field: None,
            toggle_field: None,
            select_field: None,
            file_picker_field: None,
            folder_picker_field: Some(field),
        }
    }

    pub fn add_arg(self, arg: &str) -> (r: Self)
        ensures
            r == (FormField { args: r.args, ..self }),
            text_pushed(self.args@, r.args@, arg@),
            self.wf() ==> r.wf(),
    {
        let mut r = self;
        push_text(&mut r.args, arg);
        r
    }

    pub fn set_args(self, args: Vec<String>) -> (r: Self)
        ensures
            r == (FormField { args, ..self }),
            self.wf() ==> r.wf(),
    {
        FormField { args, ..self }
    }
}

impl FormInputField {
    /// An input field with empty text and placeholder and no validation.
    pub fn new(title: &str, description: &str) -> (r: Self)
        ensures
            r.title@ == title@,
            r.description@ == description@,
            r.text@.len() == 0,
            r.placeholder@.len() == 0,
            r.validation is None,
    {
        FormInputField {
            title: String::from_str(title),
            description: String::from_str(description),
            text: String::new(),
            placeholder: String::new(),
            validation: None,
        }
    }

    pub fn set_text(self, text: &str) -> (r: Self)
        ensures
            r == (FormInputField { text: r.text, ..self }),
            r.text@ == text@,
    {
        FormInputField { text: String::from_str(text), ..self }
    }

    pub fn set_placeholder(self, placeholder: &str) -> (r: Self)
        ensures
            r == (FormInputField { placeholder: r.placeholder, ..self }),
            r.placeholder@ == placeholder@,
    {
        FormInputField { placeholder: String::from_str(placeholder), ..self }
    }

    /// Asks for a non-empty value; a field that already had a validation asks for
    /// both a non-empty value and a number.
    pub fn set_not_empty_validation(self) -> (r: Self)
        ensures
            r == (FormInputField { validation: r.validation, ..self }),
            r.validation is Some,
            r.validation->0@ == (if self.validation is Some {
                seq![FormValidation::IsNotEmpty, FormValidation::IsNumber]
            } else {
                seq![FormValidation::IsNotEmpty]
            }),
    {
        let mut v: Vec<FormValidation> = Vec::new();
        v.push(FormValidation::IsNotEmpty);
        if self.validation.is_some() {
            v.push(FormValidation::IsNumber);
        }
        assert(v@ =~= (if self.validation is Some {
            seq![FormValidation::IsNotEmpty, FormValidation::IsNumber]
        } else {
            seq![FormValidation::IsNotEmpty]
        }));
        FormInputField { validation: Some(v), ..self }
    }

    /// Asks for a number; a field that already had a validation asks for both a
    /// non-empty value and a number.
    pub fn set_is_number_validation(self) -> (r: Self)
        ensures
            r == (FormInputField { validation: r.validation, ..self }),
            r.validation is Some,
            r.validation->0@ == (if self.validation is Some {
                seq![FormValidation::IsNotEmpty, FormValidation::IsNumber]
            } else {
                seq![FormValidation::IsNumber]
            }),
    {
        let mut v: Vec<FormValidation> = Vec::new();
        if self.validation.is_some() {
            v.push(FormValidation::IsNotEmpty);
        }
        v.push(FormValidation::IsNumber);
        assert(v@ =~= (if self.validation is Some {
            seq![FormValidation::IsNotEmpty, FormValidation::IsNumber]
        } else {
            seq![FormValidation::IsNumber]
        }));
        FormInputField { validation: Some(v), ..self }
    }
}

impl FormTextAreaField {
    /// A text area with empty text and placeholder and no validation.
    pub fn new(title: &str, description: &str) -> (r: Self)
        ensures
            r.title@ == title@,
            r.description@ == description@,
            r.text@.len() == 0,
            r.placeholder@.len() == 0,
            r.validation is None,
    {
        FormTextAreaField {
            title: String::from_str(title),
            description: String::from_str(description),
            text: String::new(),
            placeholder: String::new(),
            validation: None,
        }
    }

    pub fn set_text(self, text: &str) -> (r: Self)
        ensures
            r == (FormTextAreaField { text: r.text, ..self }),
            r.text@ == text@,
    {
        FormTextAreaField { text: String::from_str(text), ..self }
    }

    pub fn set_placeholder(self, placeholder: &str) -> (r: Self)
        ensures
            r == (FormTextAreaField { placeholder: r.placeholder, ..self }),
            r.placeholder@ == placeholder@,
    {
        FormTextAreaField { placeholder: String::from_str(placeholder), ..self }
    }

    pub fn set_not_empty_validation(self) -> (r: Self)
        ensures
            r == (FormTextAreaField { validation: Some(FormValidation::IsNotEmpty), ..self }),
    {
        FormTextAreaField { validation: Some(FormValidation::IsNotEmpty), ..self }
    }
}

impl FormToggleField {
    pub fn new(title: &str, description: &str, toggled: bool) -> (r: Self)
        ensures
            r.title@ == title@,
            r.description@ == description@,
            r.toggled == toggled,
    {
        FormToggleField {
            title: String::from_str(title),
            description: String::from_str(description),
            toggled,
        }
    }
}

impl FormSelectField {
    pub fn new(
        title: &str,
        description: &str,
        selected_option_id: &str,
        options: Vec<FormSelectOption>,
    ) -> (r: Self)
        ensures
            r.title@ == title@,
            r.description@ == description@,
            r.selected_option_id@ == selected_option_id@,
            r.options == options,
    {
        FormSelectField {
            title: String::from_str(title),
            description: String::from_str(description),
            selected_option_id: String::from_str(selected_option_id),
            options,
        }
    }
}

impl FormSelectOption {
    pub fn new(id: &str, text: &str) -> (r: Self)
        ensures
            r.id@ == id@,
            r.text@ == text@,
    {
        FormSelectOption { id: String::from_str(id), text: String::from_str(text) }
    }
}

impl FormFilePickerField {
    /// A file picker with no file chosen, no type filter and no validation.
    pub fn new(title: &str, description: &str) -> (r: Self)
        ensures
            r.title@ == title@,
            r.description@ == description@,
            r.file_path is None,
            r.file_types is None,
            r.validation is None,
    {
        FormFilePickerField {
            title: String::from_str(title),
            description: String::from_str(description),
            file_path: None,
            file_types: None,
            validation: None,
        }
    }

    pub fn set_file_path(self, file_path: &str) -> (r: Self)
        ensures
            r == (FormFilePickerField { file_path: r.file_path, ..self }),
            r.file_path is Some && r.file_path->0@ == file_path@,
    {
        FormFilePickerField { file_path: Some(String::from_str(file_path)), ..self }
    }

    pub fn set_file_types(self, file_types: Vec<String>) -> (r: Self)
        ensures
            r == (FormFilePickerField { file_types: Some(file_types), ..self }),
    {
        FormFilePickerField { file_types: Some(file_types), ..self }
    }

    /// Sets the file types to the common image types: png, webp, jpg and jpeg.
    pub fn set_image_file_types(self) -> (r: Self)
        ensures
            r == (FormFilePickerField { file_types: r.file_types, ..self }),
            r.file_types is Some,
            r.file_types->0@.len() == 4,
            r.file_types->0@[0]@ == "png"@,
            r.file_types->0@[1]@ == "webp"@,
            r.file_types->0@[2]@ == "jpg"@,
            r.file_types->0@[3]@ == "jpeg"@,
    {
        let mut types: Vec<String> = Vec::new();
        types.push(String::from_str("png"));
        types.push(String::from_str("webp"));
        types.push(String::from_str("jpg"));
        types.push(String::from_str("jpeg"));
        FormFilePickerField { file_types: Some(types), ..self }
    }

    pub fn set_not_empty_validation(self) -> (r: Self)
        ensures
            r == (FormFilePickerField { validation: Some(FormValidation::IsNotEmpty), ..self }),
    {
        FormFilePickerField { validation: Some(FormValidation::IsNotEmpty), ..self }
    }
}

impl FormFolderPickerField {
    /// A folder picker with no folder chosen and no validation.
    pub fn new(title: &str, description: &str) -> (r: Self)
        ensures
            r.title@ == title@,
            r.description@ == description@,
            r.folder_path is None,
            r.validation is None,
    {
        FormFolderPickerField {
            title: String::from_str(title),
            description: String::from_str(description),
            folder_path: None,
            validation: None,
        }
    }

    pub fn set_folder_path(self, folder_path: &str) -> (r: Self)
        ensures
            r == (FormFolderPickerField { folder_path: r.folder_path, ..self }),
            r.folder_path is Some && r.folder_path->0@ == folder_path@,
    {
        FormFolderPickerField { folder_path: Some(String::from_str(folder_path)), ..self }
    }

    pub fn set_not_empty_validation(self) -> (r: Self)
        ensures
            r == (FormFolderPickerField { validation: Some(FormValidation::IsNotEmpty), ..self }),
    {
        FormFolderPickerField { validation: Some(FormValidation::IsNotEmpty), ..self }
    }
}

} // verus!
