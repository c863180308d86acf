use cc_taxii_client::CCTaxiiClient;
use cc_taxii_client::Collection;
use cc_taxii_client::Collections;
use cc_taxii_client::Discovery;
use cc_taxii_client::RawResponse;
use cc_taxii_client::TaxiiError;
use cc_taxii_client::TransportOutcome;
use cc_taxii_client::classify_response;
use cc_taxii_client::collection_ids;
use cc_taxii_client::collections_path;
use cc_taxii_client::discovery_path;
use cc_taxii_client::first_collection;

fn delivered(status: u16) -> TransportOutcome {
    TransportOutcome::Delivered(RawResponse { status, body: String::from("payload") })
}

#[test]
fn authorization_header_composition() {
    let client = CCTaxiiClient::new("user", "key");
    let headers = client.common_headers();
    assert_eq!(headers.len(), 3);
    assert_eq!(headers[0].0, "Content-Type");
    assert_eq!(headers[0].1, "application/taxii+json;version=2.1");
    assert_eq!(headers[1].0, "Accept");
    assert_eq!(headers[1].1, "application/taxii+json;version=2.1");
    assert_eq!(headers[2].0, "Authorization");
    assert_eq!(headers[2].1, "Basic dXNlcjprZXk=");
    assert_eq!(headers[2].1, format!("Basic {}", base64::encode("user:key")));
}

#[test]
fn authorization_header_other_credentials() {
    let client = CCTaxiiClient::new("alice@example.com", "s3cr3t!");
    let headers = client.common_headers();
    assert_eq!(
        headers[2].1,
        format!("Basic {}", base64::encode("alice@example.com:s3cr3t!"))
    );
}

#[test]
fn base_url_and_account() {
    let client = CCTaxiiClient::new("acct", "k");
    assert_eq!(client.base_url(), "https://taxii2.cloudcover.net");
    assert_eq!(client.account(), "acct");
}

#[test]
fn root_selection_public_and_private() {
    let client = CCTaxiiClient::new("some-account", "k");
    assert_eq!(client.root_for(false), "api");
    assert_eq!(client.root_for(true), "some-account");
    let other = CCTaxiiClient::new("another", "k2");
    assert_eq!(other.root_for(false), "api");
    assert_eq!(other.root_for(true), "another");
}

#[test]
fn default_collection_takes_first_entry() {
    let ids = vec![String::from("X"), String::from("Y")];
    let chosen = first_collection(&ids);
    assert!(matches!(chosen, Ok(c) if c == "X"));
}

#[test]
fn default_collection_fails_on_empty_listing() {
    let ids: Vec<String> = Vec::new();
    let chosen = first_collection(&ids);
    assert!(matches!(
        chosen,
        Err(TaxiiError::TaxiiCollectionError(m)) if m == "No collections available"
    ));
}

#[test]
fn status_code_mapping() {
    assert!(matches!(
        classify_response(delivered(200)),
        Ok(r) if r.status == 200 && r.body == "payload"
    ));
    assert!(matches!(classify_response(delivered(299)), Ok(_)));
    assert!(matches!(
        classify_response(delivered(401)),
        Err(TaxiiError::TaxiiAuthorizationError(r)) if r.status == 401
    ));
    assert!(matches!(
        classify_response(delivered(404)),
        Err(TaxiiError::TaxiiNotFound(r)) if r.status == 404
    ));
    assert!(matches!(
        classify_response(delivered(500)),
        Err(TaxiiError::TaxiiGenericError(r)) if r.status == 500
    ));
    assert!(matches!(
        classify_response(delivered(302)),
        Err(TaxiiError::TaxiiGenericError(_))
    ));
    assert!(matches!(
        classify_response(delivered(199)),
        Err(TaxiiError::TaxiiGenericError(_))
    ));
}

#[test]
fn connection_failure_mapping() {
    let out = classify_response(TransportOutcome::NotExecuted(String::from(
        "Request failed to execute",
    )));
    assert!(matches!(
        out,
        Err(TaxiiError::TaxiiConnectionError(m)) if m == "Request failed to execute"
    ));
}

#[test]
fn discovery_document_fields() {
    let discovery = Discovery {
        api_roots: vec![String::from("/api/")],
        contact: String::from("x@y.com"),
        default: String::from("/api/"),
        description: String::from("d"),
        title: String::from("t"),
    };
    assert_eq!(discovery.api_roots, vec![String::from("/api/")]);
    assert_eq!(discovery.contact, "x@y.com");
    assert_eq!(discovery.default, "/api/");
    assert_eq!(discovery.description, "d");
    assert_eq!(discovery.title, "t");
}

#[test]
fn collection_listing_projection() {
    let listing = Collections {
        collections: vec![Collection {
            can_read: true,
            can_write: false,
            id: String::from("abc123"),
            media_types: [String::from("application/taxii+json;version=2.1")],
            name: String::from("feed"),
            title: String::from("Feed"),
        }],
    };
    let ids = collection_ids(listing);
    assert_eq!(ids, vec![String::from("abc123")]);
}

#[test]
fn collection_listing_projection_keeps_order() {
    let mk = |id: &str| Collection {
        can_read: false,
        can_write: true,
        id: String::from(id),
        media_types: [String::new()],
        name: String::new(),
        title: String::new(),
    };
    let listing = Collections { collections: vec![mk("one"), mk("two"), mk("three")] };
    let ids = collection_ids(listing);
    assert_eq!(
        ids,
        vec![String::from("one"), String::from("two"), String::from("three")]
    );
}

#[test]
fn fixed_endpoint_paths() {
    assert_eq!(discovery_path(), "taxii2/");
    assert_eq!(collections_path("api"), "api/collections/");
    assert_eq!(collections_path("my-account"), "my-account/collections/");
}

#[test]
fn endpoint_appends_path_to_base() {
    let client = CCTaxiiClient::new("acct", "k");
    assert_eq!(
        client.endpoint("taxii2/"),
        "https://taxii2.cloudcover.net/taxii2/"
    );
    assert_eq!(
        client.endpoint("api/collections/"),
        "https://taxii2.cloudcover.net/api/collections/"
    );
}
