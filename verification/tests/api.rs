use zaps::api::{FeedQuery, SearchQuery};
use zaps::profile::{
    apply_profile_update, create_profile_failure, profile_update_statement, ProfileError,
    ProfileFields, ProfileUpdate,
    UserProfile,
};
use zaps::webhooks::{check_endpoint_id, endpoint_uuid, WebhookError};

#[test]
fn feed_page_defaults() {
    assert_eq!(FeedQuery { limit: None, offset: None }.page(), (20, 0));
    assert_eq!(FeedQuery { limit: Some(5), offset: Some(40) }.page(), (5, 40));
}

#[test]
fn search_pattern_and_page() {
    let q = SearchQuery { q: String::from("ebu"), limit: None, offset: Some(3) };
    assert_eq!(q.like_pattern(), "ebu%");
    assert_eq!(q.page(), (20, 3));
}

const RETURNING: &str = " RETURNING id, user_id, display_name, avatar_url, bio, country, metadata, verification_status, created_at, updated_at";

#[test]
fn profile_update_binds_given_fields_in_order() {
    let f = ProfileFields { display_name: true, avatar_url: false, bio: true, country: false, metadata: true };
    let expected = format!(
        "UPDATE user_profiles SET display_name = $1, bio = $2, metadata = $3 WHERE user_id = $4{}",
        RETURNING
    );
    assert_eq!(profile_update_statement(&f), Some(expected));
}

#[test]
fn profile_update_with_all_fields() {
    let f = ProfileFields { display_name: true, avatar_url: true, bio: true, country: true, metadata: true };
    let expected = format!(
        "UPDATE user_profiles SET display_name = $1, avatar_url = $2, bio = $3, country = $4, metadata = $5 WHERE user_id = $6{}",
        RETURNING
    );
    assert_eq!(profile_update_statement(&f), Some(expected));
}

#[test]
fn profile_update_with_no_field_is_none() {
    let f = ProfileFields { display_name: false, avatar_url: false, bio: false, country: false, metadata: false };
    assert_eq!(profile_update_statement(&f), None);
    let one = ProfileFields { country: true, ..f };
    assert_eq!(
        profile_update_statement(&one),
        Some(format!("UPDATE user_profiles SET country = $1 WHERE user_id = $2{}", RETURNING))
    );
}

#[test]
fn endpoint_ids_are_uuids() {
    assert_eq!(
        endpoint_uuid("67e55044-10b1-426f-9247-bb680e5fe0c8"),
        Ok(0x67e55044_10b1_426f_9247_bb680e5fe0c8u128)
    );
    assert_eq!(endpoint_uuid("not-a-uuid"), Err(WebhookError::InvalidEndpointId));
    assert_eq!(check_endpoint_id(None), Err(WebhookError::InvalidEndpointId));
    assert_eq!(check_endpoint_id(Some(7)), Ok(7));
    assert_eq!(WebhookError::InvalidEndpointId.message(), "Invalid endpoint ID");
}

fn stored_profile() -> UserProfile {
    UserProfile {
        id: String::from("p1"),
        user_id: String::from("u1"),
        display_name: String::from("Ada"),
        avatar_url: None,
        bio: Some(String::from("old bio")),
        country: Some(String::from("NG")),
        metadata: None,
        verification_status: String::from("unverified"),
        created_at: String::from("2024-01-01T00:00:00Z"),
        updated_at: String::from("2024-01-01T00:00:00Z"),
    }
}

fn no_change() -> ProfileUpdate {
    ProfileUpdate { display_name: None, avatar_url: None, bio: None, country: None, metadata: None }
}

#[test]
fn profile_update_without_fields_returns_stored_profile() {
    assert_eq!(apply_profile_update(Some(stored_profile()), no_change()), Ok(stored_profile()));
    let missing = apply_profile_update(None, no_change());
    assert_eq!(missing, Err(ProfileError::NotFound));
    assert_eq!(ProfileError::NotFound.message(), "Profile not found");
}

#[test]
fn profile_update_overwrites_only_given_fields() {
    let update = ProfileUpdate {
        display_name: None,
        avatar_url: Some(String::from("https://a/b.png")),
        bio: None,
        country: Some(String::from("GH")),
        metadata: Some(String::from("{\"k\":1}")),
    };
    assert_eq!(
        update.bindings(),
        vec![String::from("https://a/b.png"), String::from("GH"), String::from("{\"k\":1}")]
    );
    assert_eq!(
        update.fields(),
        ProfileFields { display_name: false, avatar_url: true, bio: false, country: true, metadata: true }
    );
    let updated = apply_profile_update(Some(stored_profile()), update.clone()).unwrap();
    let expected = UserProfile {
        avatar_url: Some(String::from("https://a/b.png")),
        country: Some(String::from("GH")),
        metadata: Some(String::from("{\"k\":1}")),
        ..stored_profile()
    };
    assert_eq!(updated, expected);
    assert_eq!(apply_profile_update(None, update), Err(ProfileError::Database));
}

#[test]
fn duplicate_profile_is_a_conflict() {
    assert_eq!(create_profile_failure(Some("23505")), ProfileError::Conflict);
    assert_eq!(ProfileError::Conflict.message(), "Profile already exists");
    assert_eq!(create_profile_failure(Some("23503")), ProfileError::Database);
    assert_eq!(create_profile_failure(None), ProfileError::Database);
}
