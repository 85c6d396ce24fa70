use active_campaign::endpoints::ActiveCampaignBuilder;
use active_campaign::request::Method;

#[test]
fn search_targets_the_contacts_collection() {
    let builder = ActiveCampaignBuilder::new("https://example.test/api/3", None);
    let request = builder.contact_search();
    assert_eq!(request.method, Method::Get);
    assert_eq!(request.url, "https://example.test/api/3/contacts");
    assert!(request.query.is_empty());
    assert!(request.headers.is_empty());
    assert_eq!(request.body, None);
}

#[test]
fn get_and_delete_put_the_id_into_the_path() {
    let builder = ActiveCampaignBuilder::new("https://example.test/api/3", None);
    let get = builder.contact_get("42");
    assert_eq!(get.method, Method::Get);
    assert_eq!(get.url, "https://example.test/api/3/contacts/42");
    let delete = builder.contact_delete("a b/c?d");
    assert_eq!(delete.method, Method::Delete);
    assert_eq!(delete.url, "https://example.test/api/3/contacts/a b/c?d");
}
