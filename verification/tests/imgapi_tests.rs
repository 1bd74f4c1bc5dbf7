use imgapi::client::CatalogClient;
use imgapi::enums::{BootRom, Compression, ImageErrorCode, ImageState, ImageType, OperatingSystem};
use imgapi::model::{Network, Requirements, User};
use imgapi::errors::ImgapiError;
use imgapi::filter::ImageFilter;
use imgapi::ids::ImageId;
use imgapi::json::JsonValue;
use imgapi::decode::{decode_image, decode_images};
use imgapi::numbers::parse_u32;

fn multimap(qs: &str) -> Vec<(String, String)> {
    url::form_urlencoded::parse(qs.as_bytes())
        .map(|(k, v)| (k.into_owned(), v.into_owned()))
        .collect()
}

fn values_of(pairs: &[(String, String)], key: &str) -> Vec<String> {
    pairs
        .iter()
        .filter(|(k, _)| k == key)
        .map(|(_, v)| v.clone())
        .collect()
}

const UUID_A: &str = "f669428c-a939-11e2-a485-b790efc0f0c1";
const UUID_B: &str = "01234567-89ab-cdef-0123-456789abcdef";

#[test]
fn empty_filter_encodes_to_nothing() {
    let f = ImageFilter::default();
    assert_eq!(f.to_string(), "");
}

#[test]
fn encoding_reproduces_every_set_field_and_omits_unset_ones() {
    let mut f = ImageFilter::default();
    f.account = Some(ImageId::parse(UUID_A).unwrap());
    f.channel = Some("dev".to_string());
    f.include_admin_fields = Some(true);
    f.state = Some(ImageState::Active);
    f.name = Some("~base".to_string());
    f.public = Some(false);
    f.os = Some(OperatingSystem::SmartOS);
    f.image_type = Some("!zvol".to_string());
    f.limit = Some(1000);
    let pairs = multimap(&f.to_string());
    assert_eq!(values_of(&pairs, "account"), vec![UUID_A.to_string()]);
    assert_eq!(values_of(&pairs, "channel"), vec!["dev".to_string()]);
    assert_eq!(values_of(&pairs, "inclAdminFields"), vec!["true".to_string()]);
    assert_eq!(values_of(&pairs, "state"), vec!["active".to_string()]);
    assert_eq!(values_of(&pairs, "name"), vec!["~base".to_string()]);
    assert_eq!(values_of(&pairs, "public"), vec!["false".to_string()]);
    assert_eq!(values_of(&pairs, "os"), vec!["smartos".to_string()]);
    assert_eq!(values_of(&pairs, "type"), vec!["!zvol".to_string()]);
    assert_eq!(values_of(&pairs, "limit"), vec!["1000".to_string()]);
    // unset fields stay off the wire
    assert!(values_of(&pairs, "owner").is_empty());
    assert!(values_of(&pairs, "version").is_empty());
    assert!(values_of(&pairs, "billing_tag").is_empty());
}

#[test]
fn tag_mapping_encodes_each_entry_exactly_once() {
    let mut f = ImageFilter::default();
    f.tag = Some(vec![
        ("cloud".to_string(), "private".to_string()),
        ("foo".to_string(), "bar".to_string()),
    ]);
    let pairs = multimap(&f.to_string());
    assert_eq!(pairs.len(), 2);
    assert_eq!(values_of(&pairs, "tag.cloud"), vec!["private".to_string()]);
    assert_eq!(values_of(&pairs, "tag.foo"), vec!["bar".to_string()]);
}

#[test]
fn billing_tags_encode_repeated_and_in_order() {
    let mut f = ImageFilter::default();
    f.billing_tag = Some(vec!["a".to_string(), "b".to_string()]);
    assert_eq!(f.to_string(), "billing_tag=a&billing_tag=b");
    let pairs = multimap(&f.to_string());
    assert_eq!(
        values_of(&pairs, "billing_tag"),
        vec!["a".to_string(), "b".to_string()]
    );
}

#[test]
fn operating_system_encodes_in_its_short_lowercase_form() {
    let mut f = ImageFilter::default();
    f.os = Some(OperatingSystem::Linux);
    assert_eq!(f.to_string(), "os=linux");
}

#[test]
fn values_are_percent_encoded() {
    let mut f = ImageFilter::default();
    f.name = Some("a b&c".to_string());
    assert_eq!(f.to_string(), "name=a+b%26c");
}

#[test]
fn get_with_a_malformed_identifier_fails_before_any_request() {
    let client = CatalogClient::public_endpoint();
    match client.get_url("not-a-uuid") {
        Err(ImgapiError::ValidationError(_)) => {}
        other => panic!("expected a validation error, got {:?}", other),
    }
}

#[test]
fn get_builds_the_per_image_url_from_the_base() {
    let client = CatalogClient::new("https://example.com/images/".to_string());
    let u = client.get_url(UUID_A).unwrap();
    assert_eq!(u, format!("https://example.com/images/{}", UUID_A));
}

#[test]
fn get_accepts_every_identifier_form() {
    let client = CatalogClient::public_endpoint();
    assert!(client.get_url(UUID_A).is_ok());
    assert!(client.get_url("F669428CA93911E2A485B790EFC0F0C1").is_ok());
    assert!(client
        .get_url("{f669428c-a939-11e2-a485-b790efc0f0c1}")
        .is_ok());
    assert!(client
        .get_url("urn:uuid:f669428c-a939-11e2-a485-b790efc0f0c1")
        .is_ok());
    assert!(client.get_url("f669428c-a939-11e2").is_err());
}

#[test]
fn identifiers_normalize_to_lowercase_hyphenated() {
    let id = ImageId::parse("F669428C-A939-11E2-A485-B790EFC0F0C1").unwrap();
    assert_eq!(id.as_str(), UUID_A);
    let id2 = ImageId::parse("f669428ca93911e2a485b790efc0f0c1").unwrap();
    assert_eq!(id2.as_str(), UUID_A);
}

#[test]
fn list_url_appends_the_query_string() {
    let client = CatalogClient::new("https://example.com/images".to_string());
    let mut f = ImageFilter::default();
    f.os = Some(OperatingSystem::Linux);
    let u = client.list_url(Some(&f)).unwrap();
    assert_eq!(u, "https://example.com/images?os=linux");
    let bare = client.list_url(None).unwrap();
    assert_eq!(bare, "https://example.com/images");
}

#[test]
fn list_url_rejects_a_bad_base_endpoint() {
    let client = CatalogClient::new("not a url at all".to_string());
    match client.list_url(None) {
        Err(ImgapiError::UrlConstructionError(_)) => {}
        other => panic!("expected a URL construction error, got {:?}", other),
    }
}

#[test]
fn encoded_filters_always_reparse_as_valid_urls() {
    let base = "https://images.joyent.com/images";
    let mut filters = Vec::new();
    filters.push(ImageFilter::default());
    let mut all = ImageFilter::default();
    all.account = Some(ImageId::parse(UUID_A).unwrap());
    all.channel = Some("*".to_string());
    all.include_admin_fields = Some(false);
    all.owner = Some(ImageId::parse(UUID_B).unwrap());
    all.state = Some(ImageState::Failed);
    all.name = Some("~a name with spaces".to_string());
    all.version = Some("1.0.0".to_string());
    all.public = Some(true);
    all.os = Some(OperatingSystem::Other);
    all.image_type = Some("zone-dataset".to_string());
    all.tag = Some(vec![("cloud".to_string(), "private".to_string())]);
    all.billing_tag = Some(vec!["x/y".to_string(), "z".to_string()]);
    all.limit = Some(17);
    filters.push(all);
    let mut empties = ImageFilter::default();
    empties.tag = Some(Vec::new());
    empties.billing_tag = Some(Vec::new());
    filters.push(empties);
    for f in &filters {
        let composed = format!("{}?{}", base, f.to_string());
        assert!(url::Url::parse(&composed).is_ok(), "bad URL: {}", composed);
        let u = url::Url::parse(&composed).unwrap();
        let reparsed = url::Url::parse(u.as_str()).unwrap();
        assert_eq!(u, reparsed);
    }
}

fn str_val(s: &str) -> JsonValue {
    JsonValue::Str(s.to_string())
}

fn minimal_image_entries(uuid: &str) -> Vec<(String, JsonValue)> {
    vec![
        ("v".to_string(), JsonValue::Num("2".to_string())),
        ("uuid".to_string(), str_val(uuid)),
        ("owner".to_string(), str_val(UUID_B)),
        ("name".to_string(), str_val("base")),
        ("version".to_string(), str_val("20.4.0")),
        ("state".to_string(), str_val("active")),
        ("disabled".to_string(), JsonValue::Bool(false)),
        ("public".to_string(), JsonValue::Bool(true)),
        ("type".to_string(), str_val("zone-dataset")),
        ("os".to_string(), str_val("smartos")),
        (
            "files".to_string(),
            JsonValue::Arr(vec![JsonValue::Obj(vec![
                ("sha1".to_string(), str_val("ab54f1e6e9ef0bfe2f06b0a42cecd4c9c7e5fba3")),
                ("size".to_string(), JsonValue::Num("110742036".to_string())),
                ("compression".to_string(), str_val("gzip")),
            ])]),
        ),
    ]
}

#[test]
fn get_returns_the_image_with_the_requested_identifier() {
    let client = CatalogClient::public_endpoint();
    let url = client.get_url(UUID_A).unwrap();
    assert!(url.ends_with(UUID_A));
    let img = decode_image(JsonValue::Obj(minimal_image_entries(UUID_A))).unwrap();
    assert_eq!(img.uuid.as_str(), UUID_A);
    assert_eq!(img.v, 2);
    assert_eq!(img.name, "base");
    assert_eq!(img.state, ImageState::Active);
    assert_eq!(img.files.len(), 1);
    assert_eq!(img.files[0].compression, Compression::Gzip);
    assert_eq!(img.files[0].size, 110742036);
    assert!(img.files[0].stor.is_none());
}

#[test]
fn an_empty_listing_decodes_to_an_empty_sequence() {
    let imgs = decode_images(JsonValue::Arr(Vec::new())).unwrap();
    assert!(imgs.is_empty());
}

#[test]
fn a_failed_image_round_trips_its_error_message() {
    let mut entries = minimal_image_entries(UUID_A);
    for e in entries.iter_mut() {
        if e.0 == "state" {
            e.1 = str_val("failed");
        }
    }
    entries.push((
        "error".to_string(),
        JsonValue::Obj(vec![(
            "message".to_string(),
            str_val("prepare-image script did not run"),
        )]),
    ));
    let imgs = decode_images(JsonValue::Arr(vec![JsonValue::Obj(entries)])).unwrap();
    assert_eq!(imgs.len(), 1);
    assert_eq!(imgs[0].state, ImageState::Failed);
    let err = imgs[0].error.as_ref().unwrap();
    assert_eq!(err.message, "prepare-image script did not run");
    assert!(err.code.is_none());
}

#[test]
fn a_malformed_element_fails_the_whole_listing() {
    let good = JsonValue::Obj(minimal_image_entries(UUID_A));
    let bad = JsonValue::Obj(vec![("name".to_string(), str_val("no uuid"))]);
    match decode_images(JsonValue::Arr(vec![good, bad])) {
        Err(ImgapiError::DecodeError(_)) => {}
        other => panic!("expected a decode error, got {:?}", other),
    }
}

#[test]
fn decode_honors_the_wire_field_renames() {
    let mut entries = minimal_image_entries(UUID_A);
    // the wire `type` feeds image_type; uncompressedDigest feeds the
    // uncompressed digest; stor is accepted but dropped
    for e in entries.iter_mut() {
        if e.0 == "files" {
            e.1 = JsonValue::Arr(vec![JsonValue::Obj(vec![
                ("sha1".to_string(), str_val("00")),
                ("size".to_string(), JsonValue::Num("1".to_string())),
                ("compression".to_string(), str_val("none")),
                ("uncompressedDigest".to_string(), str_val("sha256:aa")),
                ("stor".to_string(), str_val("manta")),
            ])]);
        }
    }
    let img = decode_image(JsonValue::Obj(entries)).unwrap();
    assert_eq!(img.image_type, "zone-dataset");
    assert_eq!(
        img.files[0].uncompressed_digest.as_deref(),
        Some("sha256:aa")
    );
    assert!(img.files[0].stor.is_none());
    assert_eq!(img.files[0].compression, Compression::Uncompressed);
}

#[test]
fn decode_validates_optional_urls_and_timestamps() {
    let mut entries = minimal_image_entries(UUID_A);
    entries.push(("homepage".to_string(), str_val("https://example.com/docs")));
    entries.push((
        "published_at".to_string(),
        str_val("2013-04-29T22:52:00.000Z"),
    ));
    let img = decode_image(JsonValue::Obj(entries)).unwrap();
    assert_eq!(img.homepage.as_deref(), Some("https://example.com/docs"));
    assert_eq!(img.published_at.as_deref(), Some("2013-04-29T22:52:00.000Z"));

    let mut bad = minimal_image_entries(UUID_A);
    bad.push(("published_at".to_string(), str_val("yesterday")));
    match decode_image(JsonValue::Obj(bad)) {
        Err(ImgapiError::DecodeError(_)) => {}
        other => panic!("expected a decode error, got {:?}", other),
    }
}

#[test]
fn decode_rejects_out_of_range_and_junk_numbers() {
    let mut bad = minimal_image_entries(UUID_A);
    for e in bad.iter_mut() {
        if e.0 == "v" {
            e.1 = JsonValue::Num("4294967296".to_string());
        }
    }
    assert!(decode_image(JsonValue::Obj(bad)).is_err());
    assert_eq!(parse_u32("4294967295"), Some(u32::MAX));
    assert_eq!(parse_u32("4294967296"), None);
    assert_eq!(parse_u32("007"), None);
    assert_eq!(parse_u32("12a"), None);
    assert_eq!(parse_u32(""), None);
}

#[test]
fn states_and_enums_read_their_wire_forms() {
    assert_eq!(ImageState::from_param("creating"), Some(ImageState::Creating));
    assert_eq!(ImageState::from_param("Creating"), None);
    assert_eq!(ImageState::Active.as_param(), "active");
    assert_eq!(Compression::from_param("bzip2"), Some(Compression::Bzip2));
    assert_eq!(Compression::Uncompressed.as_param(), "none");
    assert_eq!(
        OperatingSystem::from_str("LINUX"),
        Ok(OperatingSystem::Linux)
    );
    assert_eq!(OperatingSystem::Linux.display_str(), "Linux");
    assert_eq!(OperatingSystem::Linux.as_param(), "linux");
    assert!(OperatingSystem::from_str("plan9").is_err());
}

#[test]
fn set_param_mirrors_the_recognized_keys() {
    let mut f = ImageFilter::default();
    f.set_param("account", UUID_A.to_string()).unwrap();
    f.set_param("channel", "dev".to_string()).unwrap();
    f.set_param("inclAdminFields", "true".to_string()).unwrap();
    f.set_param("owner", UUID_B.to_string()).unwrap();
    f.set_param("name", "base".to_string()).unwrap();
    f.set_param("version", "1.0".to_string()).unwrap();
    f.set_param("public", "false".to_string()).unwrap();
    f.set_param("os", "bsd".to_string()).unwrap();
    f.set_param("type", "zvol".to_string()).unwrap();
    f.set_param("billing_tag", "a".to_string()).unwrap();
    f.set_param("billing_tag", "b".to_string()).unwrap();
    f.set_param("limit", "42".to_string()).unwrap();
    assert_eq!(f.account.as_ref().unwrap().as_str(), UUID_A);
    assert_eq!(f.channel.as_deref(), Some("dev"));
    assert_eq!(f.include_admin_fields, Some(true));
    assert_eq!(f.public, Some(false));
    assert_eq!(f.os, Some(OperatingSystem::BSD));
    assert_eq!(f.billing_tag.as_ref().unwrap().len(), 2);
    assert_eq!(f.limit, Some(42));

    assert!(f.set_param("account", "junk".to_string()).is_err());
    assert!(f.set_param("public", "yes".to_string()).is_err());
    assert!(f.set_param("limit", "-3".to_string()).is_err());
    assert!(f.set_param("nonsense", "x".to_string()).is_err());
    // failures leave the filter as it was
    assert_eq!(f.account.as_ref().unwrap().as_str(), UUID_A);
    assert_eq!(f.limit, Some(42));
}

#[test]
fn every_error_kind_carries_its_message() {
    let v = ImgapiError::ValidationError("v".to_string());
    let u = ImgapiError::UrlConstructionError("u".to_string());
    let t = ImgapiError::TransportError("t".to_string());
    let d = ImgapiError::DecodeError("d".to_string());
    assert_eq!(v.message(), "v");
    assert_eq!(u.message(), "u");
    assert_eq!(t.message(), "t");
    assert_eq!(d.message(), "d");
}

#[test]
fn auxiliary_structures_hold_their_data() {
    assert_eq!(BootRom::Bios.display_str(), "BIOS");
    assert_eq!(BootRom::Uefi.display_str(), "UEFI");
    assert_eq!(
        ImageErrorCode::PrepareImageDidNotRun.as_param(),
        "PrepareImageDidNotRun"
    );
    assert_eq!(ImageType::ZoneDataset.display_str(), "SmartOS zone dataset");
    assert_eq!(ImageType::Zvol.display_str(), "zvol");

    let req = Requirements {
        networks: vec![Network {
            name: "net0".to_string(),
            description: "public".to_string(),
        }],
        brand: None,
        ssh_key: Some(true),
        min_ram: Some(256),
        max_ram: None,
        min_platform: Some(vec![("7.0".to_string(), "20130111T180733Z".to_string())]),
        max_platform: None,
        boot_rom: Some("uefi".to_string()),
    };
    assert_eq!(req.networks[0].name, "net0");
    assert_eq!(req.min_ram, Some(256));

    let u = User {
        name: "root".to_string(),
    };
    assert_eq!(u.name, "root");
}

#[test]
fn image_states_order_deterministically() {
    let mut states = vec![
        ImageState::Failed,
        ImageState::Active,
        ImageState::Creating,
        ImageState::Unactivated,
    ];
    states.sort();
    assert_eq!(
        states,
        vec![
            ImageState::Active,
            ImageState::Unactivated,
            ImageState::Creating,
            ImageState::Failed,
        ]
    );
}
