use the_handler::preferences::{
    PreferenceValues, PreferredModality, TimeOfDay, UpsertUserPreference, UserPreference,
    UserPreferenceResponse,
};

fn nothing() -> UpsertUserPreference {
    UpsertUserPreference {
        directories: None,
        job_search_at: None,
        application_delay: None,
        application_frequency_min: None,
        application_frequency_max: None,
        preferred_roles: None,
        organization_blacklist: None,
        minimum_salary: None,
        preferred_modalities: None,
        preferred_countries: None,
    }
}

#[test]
fn created_preferences_take_the_defaults() {
    let v = PreferenceValues::create(nothing());
    assert!(v.directories.is_empty());
    assert_eq!(v.job_search_at, TimeOfDay { seconds_from_midnight: 0, nanoseconds: 0 });
    assert_eq!(v.application_delay, 43_200);
    assert_eq!(v.application_frequency_min, 0);
    assert_eq!(v.application_frequency_max, 5);
    assert!(v.preferred_roles.is_empty());
    assert!(v.organization_blacklist.is_empty());
    assert_eq!(v.minimum_salary, 0);
    assert_eq!(
        v.preferred_modalities,
        vec![PreferredModality::Onsite, PreferredModality::Remote, PreferredModality::Hybrid]
    );
    assert_eq!(v.preferred_countries, None);
}

#[test]
fn created_preferences_take_what_is_given() {
    let mut p = nothing();
    p.directories = Some(vec!["linkedin".to_string()]);
    p.application_delay = Some(60);
    p.preferred_modalities = Some(vec![PreferredModality::Remote]);
    p.preferred_countries = Some(vec!["Ireland".to_string()]);
    let v = PreferenceValues::create(p);
    assert_eq!(v.directories, vec!["linkedin"]);
    assert_eq!(v.application_delay, 60);
    assert_eq!(v.preferred_modalities, vec![PreferredModality::Remote]);
    assert_eq!(v.preferred_countries, Some(vec!["Ireland".to_string()]));
    assert_eq!(v.application_frequency_max, 5);
}

#[test]
fn editing_sets_only_the_given_fields() {
    let v = PreferenceValues::create(nothing());
    let mut p = nothing();
    p.minimum_salary = Some(50_000);
    p.preferred_roles = Some(vec!["Rust Engineer".to_string()]);
    let e = v.clone().edit(p.clone());
    assert_eq!(e.minimum_salary, 50_000);
    assert_eq!(e.preferred_roles, vec!["Rust Engineer"]);
    assert_eq!(e.application_delay, 43_200);
    assert_eq!(e.preferred_modalities.len(), 3);
    let twice = e.clone().edit(p);
    assert_eq!(twice.minimum_salary, e.minimum_salary);
    assert_eq!(twice.preferred_roles, e.preferred_roles);
}

#[test]
fn editing_with_nothing_keeps_everything() {
    let mut p = nothing();
    p.preferred_countries = Some(vec!["Spain".to_string()]);
    let v = PreferenceValues::create(p);
    let e = v.clone().edit(nothing());
    assert_eq!(e.preferred_countries, v.preferred_countries);
    assert_eq!(e.job_search_at, v.job_search_at);
    assert_eq!(e.preferred_modalities, v.preferred_modalities);
}

#[test]
fn modality_values() {
    assert_eq!(PreferredModality::Onsite.to_value(), "onsite");
    assert_eq!(PreferredModality::Remote.to_value(), "remote");
    assert_eq!(PreferredModality::Hybrid.to_value(), "hybrid");
}

#[test]
fn response_of_preferences() {
    let pref = UserPreference {
        pid: "0b9e".to_string(),
        owner_id: 1,
        values: PreferenceValues::create(nothing()),
        job_search_at_text: "00:00:00".to_string(),
        updated_at: "2024-01-01 00:00:00 +00:00".to_string(),
    };
    let r = UserPreferenceResponse::new(&pref);
    assert_eq!(r.id, "0b9e");
    assert_eq!(r.job_search_at, "00:00:00");
    assert_eq!(r.application_delay, 43_200);
    assert_eq!(r.preferred_modalities, vec!["onsite", "remote", "hybrid"]);
    assert_eq!(r.preferred_countries, None);
    assert_eq!(r.last_updated, "2024-01-01 00:00:00 +00:00");
}

#[test]
fn creating_is_editing_the_defaults() {
    let mut p = nothing();
    p.minimum_salary = Some(70_000);
    p.job_search_at = Some(TimeOfDay { seconds_from_midnight: 9 * 3600, nanoseconds: 0 });
    p.preferred_countries = Some(vec!["Ireland".to_string()]);
    let created = PreferenceValues::create(p.clone());
    let edited = PreferenceValues::create(nothing()).edit(p);
    assert_eq!(created.minimum_salary, edited.minimum_salary);
    assert_eq!(created.job_search_at, edited.job_search_at);
    assert_eq!(created.preferred_countries, edited.preferred_countries);
    assert_eq!(created.preferred_modalities, edited.preferred_modalities);
    assert_eq!(created.application_delay, edited.application_delay);
    assert_eq!(created.directories, edited.directories);
}
