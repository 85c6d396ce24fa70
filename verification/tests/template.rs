use active_campaign::endpoints::{declare, Endpoint};
use active_campaign::request::Method;
use active_campaign::template::{closing_brace, position, resolve_template};

fn strings(items: &[&str]) -> Vec<String> {
    items.iter().map(|item| item.to_string()).collect()
}

#[test]
fn positional_placeholders_take_the_arguments_in_order() {
    let names = strings(&["dataset_id", "table_id"]);
    let values = strings(&["d1", "t2"]);
    assert_eq!(
        resolve_template("datasets/{}/tables/{}/insertAll", &names, &values),
        Some("datasets/d1/tables/t2/insertAll".to_owned())
    );
}

#[test]
fn named_placeholders_take_the_argument_of_their_parameter() {
    let names = strings(&["project_id", "job_id"]);
    let values = strings(&["p", "j"]);
    assert_eq!(
        resolve_template("projects/{project_id}/jobs/{job_id}/of/{project_id}", &names, &values),
        Some("projects/p/jobs/j/of/p".to_owned())
    );
    assert_eq!(
        resolve_template("{job_id}/{}/{}", &names, &values),
        Some("j/p/j".to_owned())
    );
}

#[test]
fn arguments_are_inserted_as_they_are() {
    let names = strings(&["id"]);
    let values = strings(&["a b/ü?&{x}"]);
    assert_eq!(resolve_template("contacts/{}", &names, &values), Some("contacts/a b/ü?&{x}".to_owned()));
}

#[test]
fn doubled_braces_are_literal() {
    let none = strings(&[]);
    assert_eq!(resolve_template("a{{b}}c", &none, &none), Some("a{b}c".to_owned()));
    assert_eq!(resolve_template("", &none, &none), Some(String::new()));
    assert_eq!(resolve_template("plain/path", &none, &none), Some("plain/path".to_owned()));
}

#[test]
fn malformed_templates_and_missing_arguments_are_refused() {
    let none = strings(&[]);
    let names = strings(&["id"]);
    let values = strings(&["7"]);
    assert_eq!(resolve_template("a{", &names, &values), None);
    assert_eq!(resolve_template("a}", &names, &values), None);
    assert_eq!(resolve_template("a{id", &names, &values), None);
    assert_eq!(resolve_template("{}", &none, &none), None);
    assert_eq!(resolve_template("{}/{}", &names, &values), None);
    assert_eq!(resolve_template("{other}", &names, &values), None);
    assert_eq!(resolve_template("{id}", &names, &none), None);
}

#[test]
fn position_and_closing_brace() {
    let names = strings(&["a", "b", "a"]);
    assert_eq!(position(&names, "a"), 0);
    assert_eq!(position(&names, "b"), 1);
    assert_eq!(position(&names, "c"), 3);
    assert_eq!(closing_brace("ab}c}", 0), 2);
    assert_eq!(closing_brace("ab}c}", 3), 4);
    assert_eq!(closing_brace("abc", 1), 3);
    assert_eq!(closing_brace("ü}", 0), 1);
}

#[test]
fn the_table_declares_the_five_contact_endpoints() {
    let table = declare();
    let names: Vec<String> = table.iter().map(|endpoint| endpoint.function_name()).collect();
    assert_eq!(
        names,
        vec!["contact_search", "contact_get", "contact_delete", "contact_create", "contact_sync"]
    );
    let verbs: Vec<Method> = table.iter().map(|endpoint| endpoint.method).collect();
    assert_eq!(verbs, vec![Method::Get, Method::Get, Method::Delete, Method::Post, Method::Post]);
    let templates: Vec<&str> = table.iter().map(|endpoint| endpoint.template.as_str()).collect();
    assert_eq!(templates, vec!["contacts", "contacts/{}", "contacts/{}", "contacts", "contact/sync"]);
}

#[test]
fn an_endpoint_builds_its_request_from_the_table_entry() {
    let endpoint = Endpoint::new("jobs", "get", Method::Get, "projects/{project}/jobs/{}", strings(&["project", "job"]));
    assert_eq!(endpoint.function_name(), "jobs_get");
    let headers = vec![("Api-Token".to_owned(), "k".to_owned())];
    let request = endpoint.request("https://h", &headers, &strings(&["p", "j"])).unwrap();
    assert_eq!(request.method, Method::Get);
    assert_eq!(request.url, "https://h/projects/p/jobs/p");
    assert_eq!(request.headers, headers);
    assert!(request.query.is_empty());
    assert_eq!(request.body, None);
    assert!(endpoint.request("https://h", &headers, &strings(&["p"])).is_none());
    assert_eq!(Method::Get.as_str(), "GET");
    assert_eq!(Method::Post.as_str(), "POST");
    assert_eq!(Method::Delete.as_str(), "DELETE");
}
