use whiskers_launcher_core::apps::{
    app_id_from_listing, indexed_icon_name, keeps_icon, take_desktop_entry, App,
};
use whiskers_launcher_core::platform::{on_hyprland, on_wayland, transport_for_os, Transport};
use whiskers_launcher_core::protocol::{
    ExtensionRequest, ExtensionRequestType, FormResponse, FormResult,
};
use whiskers_launcher_core::query::get_search_query;
use whiskers_launcher_core::results::{
    ActionType, CopyImageAction, CopyTextAction, FormField, FormFieldType, FormFilePickerField,
    FormFolderPickerField, FormInputField, FormSelectField, FormSelectOption, FormTextAreaField,
    FormToggleField, FormValidation, OpenAppAction, OpenFormAction, OpenLinkAction, ResultAction,
    RunExtensionAction, SearchResult, SearchResults, SearchViewType,
};

#[test]
fn query_with_keyword() {
    let q = get_search_query("gs hello world");
    assert_eq!(q.keyword, Some("gs".to_string()));
    assert_eq!(q.search_text, "hello world");
}

#[test]
fn query_without_space() {
    let q = get_search_query("hello");
    assert_eq!(q.keyword, None);
    assert_eq!(q.search_text, "hello");
}

#[test]
fn query_leading_space_gives_empty_keyword() {
    let q = get_search_query("  s  ");
    assert_eq!(q.keyword, Some(String::new()));
    assert_eq!(q.search_text, "s");
}

#[test]
fn query_trims_search_text() {
    let q = get_search_query("s   rust  \t\n");
    assert_eq!(q.keyword, Some("s".to_string()));
    assert_eq!(q.search_text, "rust");
    let q = get_search_query("\tabc\n");
    assert_eq!(q.keyword, None);
    assert_eq!(q.search_text, "abc");
}

#[test]
fn query_empty_input() {
    let q = get_search_query("");
    assert_eq!(q.keyword, None);
    assert_eq!(q.search_text, "");
}

#[test]
fn query_unicode_keyword() {
    let q = get_search_query("ç é ü");
    assert_eq!(q.keyword, Some("ç".to_string()));
    assert_eq!(q.search_text, "é ü");
}

fn payload_count(a: &ResultAction) -> usize {
    [
        a.copy_text_action.is_some(),
        a.copy_image_action.is_some(),
        a.open_link_action.is_some(),
        a.open_app_action.is_some(),
        a.open_form_action.is_some(),
        a.run_extension_action.is_some(),
    ]
    .iter()
    .filter(|b| **b)
    .count()
}

#[test]
fn actions_carry_only_their_payload() {
    let a = ResultAction::new_copy_text_action(CopyTextAction::new("hi"));
    assert_eq!(a.action_type, ActionType::CopyText);
    assert_eq!(a.copy_text_action.as_ref().unwrap().text, "hi");
    assert_eq!(payload_count(&a), 1);
    assert!(!a.dangerous);

    let a = ResultAction::new_copy_image_action(CopyImageAction::new("/tmp/a.png"));
    assert_eq!(a.action_type, ActionType::CopyImage);
    assert_eq!(a.copy_image_action.as_ref().unwrap().image_path, "/tmp/a.png");
    assert_eq!(payload_count(&a), 1);

    let a = ResultAction::new_open_link_action(OpenLinkAction::new("https://example.com"));
    assert_eq!(a.action_type, ActionType::OpenLink);
    assert_eq!(payload_count(&a), 1);

    let a = ResultAction::new_open_app_action(OpenAppAction::new("42"));
    assert_eq!(a.open_app_action.as_ref().unwrap().app_id, "42");
    assert_eq!(payload_count(&a), 1);

    let a = ResultAction::new_open_form_action(OpenFormAction::new("ext", "cmd", vec![]));
    assert_eq!(a.action_type, ActionType::OpenForm);
    assert_eq!(payload_count(&a), 1);

    let a = ResultAction::new_run_extension_action(RunExtensionAction::new("ext", "cmd").add_arg("x"));
    assert_eq!(a.action_type, ActionType::RunExtension);
    assert_eq!(a.run_extension_action.as_ref().unwrap().args, vec!["x".to_string()]);
    assert_eq!(payload_count(&a), 1);

    let a = ResultAction::new_do_nothing_action().set_dangerous(true);
    assert_eq!(a.action_type, ActionType::DoNothing);
    assert_eq!(payload_count(&a), 0);
    assert!(a.dangerous);
}

#[test]
fn grid_results_with_two_entries() {
    let first = SearchResult::new("Copy", ResultAction::new_copy_text_action(CopyTextAction::new("x")))
        .set_description("copies x")
        .set_accent_icon_tint();
    let second = SearchResult::new("Open", ResultAction::new_open_link_action(OpenLinkAction::new("https://a.b")))
        .set_icon("/icons/link.svg")
        .set_icon_tint("#fff");
    let results = SearchResults::new_grid_results(vec![first, second]);
    assert_eq!(results.view_type, SearchViewType::Grid);
    assert_eq!(results.results.len(), 2);
    assert_eq!(results.results[0].title, "Copy");
    assert_eq!(results.results[0].icon_tint, Some("accent".to_string()));
    assert_eq!(results.results[0].description, Some("copies x".to_string()));
    assert_eq!(results.results[1].icon, Some("/icons/link.svg".to_string()));
    assert_eq!(results.results[1].icon_tint, Some("#fff".to_string()));
    assert_eq!(results.results[1].action.action_type, ActionType::OpenLink);
    let list = results.set_view_type(SearchViewType::List).set_results(vec![]);
    assert_eq!(list.view_type, SearchViewType::List);
    assert!(list.results.is_empty());
    assert_eq!(SearchResults::new_list_results(vec![]).view_type, SearchViewType::List);
}

#[test]
fn search_result_setters() {
    let r = SearchResult::new("a", ResultAction::new_do_nothing_action())
        .set_title("b")
        .set_action(ResultAction::new_copy_text_action(CopyTextAction::new("c")));
    assert_eq!(r.title, "b");
    assert_eq!(r.icon, None);
    assert_eq!(r.action.action_type, ActionType::CopyText);
}

#[test]
fn form_keeps_field_order() {
    let fields = vec![
        FormField::new_input_field("name", FormInputField::new("Name", "Your name")),
        FormField::new_toggle_field("on", FormToggleField::new("On", "Enabled", true)),
        FormField::new_folder_picker_field("dir", FormFolderPickerField::new("Dir", "A folder")),
    ];
    let form = OpenFormAction::new("ext", "save", fields)
        .set_title("Settings")
        .set_action_text("Save")
        .add_arg("a1");
    let ids: Vec<&str> = form.fields.iter().map(|f| f.id.as_str()).collect();
    assert_eq!(ids, vec!["name", "on", "dir"]);
    assert_eq!(form.title, "Settings");
    assert_eq!(form.action_text, "Save");
    assert_eq!(form.args, vec!["a1".to_string()]);
    let form = form.set_args(vec![]);
    assert!(form.args.is_empty());
}

#[test]
fn form_defaults() {
    let form = OpenFormAction::new("ext", "cmd", vec![]);
    assert_eq!(form.title, "Extension Form");
    assert_eq!(form.action_text, "Ok");
    assert!(form.args.is_empty());
}

#[test]
fn response_lookup_by_id_in_any_order() {
    let response = FormResponse::new(vec![
        FormResult::new("dir", "/home"),
        FormResult::new("on", "true").add_arg("z"),
        FormResult::new("name", "Ann"),
    ])
    .add_arg("r1");
    assert_eq!(response.get_result("name").unwrap().field_value, "Ann");
    assert_eq!(response.get_result("on").unwrap().args, vec!["z".to_string()]);
    assert!(response.get_result("on").unwrap().as_bool());
    assert!(!response.get_result("dir").unwrap().as_bool());
    assert!(response.get_result("missing").is_none());
    assert_eq!(response.args, vec!["r1".to_string()]);
    let response = response.set_args(vec!["a".to_string(), "b".to_string()]);
    assert_eq!(response.args.len(), 2);
}

#[test]
fn response_lookup_takes_first_duplicate() {
    let response = FormResponse::new(vec![FormResult::new("a", "1"), FormResult::new("a", "2")]);
    assert_eq!(response.get_result("a").unwrap().field_value, "1");
}

#[test]
fn as_bool_is_exact() {
    assert!(FormResult::new("x", "true").as_bool());
    assert!(!FormResult::new("x", "True").as_bool());
    assert!(!FormResult::new("x", "").as_bool());
    assert!(FormResult::new("x", "y").set_args(vec!["q".to_string()]).args.len() == 1);
}

#[test]
fn field_constructors_set_one_payload() {
    let f = FormField::new_text_area_field("t", FormTextAreaField::new("T", "d").set_text("x").set_placeholder("p"));
    assert_eq!(f.field_type, FormFieldType::TextArea);
    assert!(f.text_area_field.is_some() && f.input_field.is_none() && f.select_field.is_none());
    let f = FormField::new_select_field(
        "s",
        FormSelectField::new("S", "d", "b", vec![FormSelectOption::new("a", "A"), FormSelectOption::new("b", "B")]),
    );
    assert_eq!(f.field_type, FormFieldType::Select);
    assert_eq!(f.select_field.as_ref().unwrap().options[1].text, "B");
    assert_eq!(f.select_field.as_ref().unwrap().selected_option_id, "b");
    let f = FormField::new_file_picker_field("f", FormFilePickerField::new("F", "d")).add_arg("k");
    assert_eq!(f.field_type, FormFieldType::FilePicker);
    assert!(f.file_picker_field.is_some() && f.folder_picker_field.is_none());
    assert_eq!(f.args, vec!["k".to_string()]);
    let f = f.set_args(vec![]);
    assert!(f.args.is_empty());
}

#[test]
fn input_validation_accumulates() {
    let f = FormInputField::new("a", "b");
    assert_eq!(f.text, "");
    assert_eq!(f.validation, None);
    let f = f.set_not_empty_validation();
    assert_eq!(f.validation, Some(vec![FormValidation::IsNotEmpty]));
    let f = f.set_is_number_validation();
    assert_eq!(f.validation, Some(vec![FormValidation::IsNotEmpty, FormValidation::IsNumber]));
    let g = FormInputField::new("a", "b").set_is_number_validation();
    assert_eq!(g.validation, Some(vec![FormValidation::IsNumber]));
    let g = g.set_text("12").set_placeholder("n");
    assert_eq!(g.text, "12");
    assert_eq!(g.placeholder, "n");
}

#[test]
fn picker_fields() {
    let f = FormFilePickerField::new("F", "d").set_image_file_types().set_file_path("/a/b.png").set_not_empty_validation();
    assert_eq!(
        f.file_types,
        Some(vec!["png".to_string(), "webp".to_string(), "jpg".to_string(), "jpeg".to_string()])
    );
    assert_eq!(f.file_path, Some("/a/b.png".to_string()));
    assert_eq!(f.validation, Some(FormValidation::IsNotEmpty));
    let f = f.set_file_types(vec!["txt".to_string()]);
    assert_eq!(f.file_types, Some(vec!["txt".to_string()]));
    let d = FormFolderPickerField::new("D", "d").set_folder_path("/x").set_not_empty_validation();
    assert_eq!(d.folder_path, Some("/x".to_string()));
    assert_eq!(d.validation, Some(FormValidation::IsNotEmpty));
    let t = FormTextAreaField::new("T", "d").set_not_empty_validation();
    assert_eq!(t.validation, Some(FormValidation::IsNotEmpty));
}

#[test]
fn requests_carry_their_payload() {
    let r = ExtensionRequest::new_get_results_request("ext", "query");
    assert_eq!(r.request_type, ExtensionRequestType::GetResults);
    assert_eq!(r.search_text, Some("query".to_string()));
    assert_eq!(r.command, None);
    let r = ExtensionRequest::new_run_command_request("ext", "open").add_arg("1").add_arg("2");
    assert_eq!(r.request_type, ExtensionRequestType::RunCommand);
    assert_eq!(r.command, Some("open".to_string()));
    assert_eq!(r.search_text, None);
    assert_eq!(r.args, vec!["1".to_string(), "2".to_string()]);
    let r = r.set_args(vec![]);
    assert!(r.args.is_empty());
}

#[test]
fn transport_by_platform() {
    assert_eq!(transport_for_os("linux"), Some(Transport::Stream));
    assert_eq!(transport_for_os("windows"), Some(Transport::File));
    assert_eq!(transport_for_os("macos"), None);
}

#[test]
fn session_detection_ignores_case() {
    assert!(on_wayland(Some("Wayland")));
    assert!(on_wayland(Some("wayland")));
    assert!(!on_wayland(Some("x11")));
    assert!(!on_wayland(None));
    assert!(on_hyprland(Some("HYPRLAND")));
    assert!(!on_hyprland(Some("GNOME")));
    assert!(!on_hyprland(None));
}

#[test]
fn app_builders() {
    let app = App::new("12", "Editor", "/usr/share/applications/editor.desktop");
    assert_eq!(app.icon, None);
    let app = app.set_icon("/icons/12.png");
    assert_eq!(app.icon, Some("/icons/12.png".to_string()));
    assert_eq!(app.title, "Editor");
}

#[test]
fn app_id_from_inode_listing() {
    assert_eq!(
        app_id_from_listing("1234567 /usr/share/applications/editor.desktop\n"),
        Some("1234567".to_string())
    );
    assert_eq!(app_id_from_listing(" /x"), None);
    assert_eq!(app_id_from_listing("\n"), None);
    assert_eq!(app_id_from_listing(""), None);
}

#[test]
fn icon_handling() {
    assert!(keeps_icon("/icons/a.png"));
    assert!(!keeps_icon("/icons/a.svgz"));
    assert_eq!(indexed_icon_name("12", "png"), "12.png");
}

#[test]
fn desktop_entries_taken_once() {
    let mut seen = Vec::new();
    assert!(take_desktop_entry(&mut seen, "org.editor", false, Some("Application")));
    assert!(!take_desktop_entry(&mut seen, "org.editor", false, Some("Application")));
    assert!(!take_desktop_entry(&mut seen, "org.hidden", true, Some("Application")));
    assert!(!take_desktop_entry(&mut seen, "org.link", false, Some("Link")));
    assert!(!take_desktop_entry(&mut seen, "org.untyped", false, None));
    assert_eq!(seen, vec!["org.editor".to_string(), "org.link".to_string(), "org.untyped".to_string()]);
}
